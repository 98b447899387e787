use vstd::prelude::*;

use crate::codec::encoded_bytes;
use crate::snapshot::CacheEntry;
use crate::store::resolved_path;

verus! {

/// A mathematical picture of one store and the directory it writes: the
/// optional root, and the files under it as a map from path to contents.
/// The spec functions below say what each store operation does to this
/// picture, in the same terms — [`resolved_path`] and [`encoded_bytes`] —
/// that the executable operations' contracts use, and the lemmas state the
/// store's laws over them.
pub ghost struct CacheModel {
    /// The root directory, or `None` for a disabled store.
    pub root: Option<Seq<char>>,
    /// The files under the root: path to contents.
    pub files: Map<Seq<char>, Seq<u8>>,
}

impl CacheModel {
    /// Whether the store has a root directory.
    pub open spec fn enabled(&self) -> bool {
        self.root is Some
    }

    /// The root directory's characters; meaningful only when enabled.
    pub open spec fn root_chars(&self) -> Seq<char> {
        match self.root {
            Some(p) => p,
            None => Seq::empty(),
        }
    }

    /// The resolved file path for a key under this store's root.
    pub open spec fn path_for(&self, key: Seq<u8>) -> Seq<char> {
        resolved_path(self.root_chars(), key)
    }
}

/// A store as first configured over a directory that holds no cache files
/// yet.
pub open spec fn init_model(root: Option<Seq<char>>) -> CacheModel {
    CacheModel { root, files: Map::empty() }
}

/// What a completed write of `entry` under `key` does to the files: the
/// key's file now holds the snapshot's on-disk bytes, replacing any earlier
/// file in place; a disabled store changes nothing.
pub open spec fn write_model(m: CacheModel, key: Seq<u8>, entry: CacheEntry) -> CacheModel {
    if m.enabled() {
        CacheModel { root: m.root, files: m.files.insert(m.path_for(key), encoded_bytes(entry)) }
    } else {
        m
    }
}

/// What a remove of `key` does to the files: the key's file is gone, whether
/// or not it existed; a disabled store changes nothing.
pub open spec fn remove_model(m: CacheModel, key: Seq<u8>) -> CacheModel {
    if m.enabled() {
        CacheModel { root: m.root, files: m.files.remove(m.path_for(key)) }
    } else {
        m
    }
}

/// What a read of `key` finds on disk: the contents of the key's file, or
/// `None` when the file does not exist or the store is disabled. What those
/// bytes decode to is [`crate::store::DiskStateCache::read`]'s contract.
pub open spec fn read_bytes_model(m: CacheModel, key: Seq<u8>) -> Option<Seq<u8>> {
    if m.enabled() && m.files.contains_key(m.path_for(key)) {
        Some(m.files[m.path_for(key)])
    } else {
        None
    }
}

/// Round trip: after a write of `entry` under `key` completes, and before any
/// other write to `key`, a read of `key` finds exactly the snapshot's on-disk
/// bytes — which the decode pipeline's contract returns as a snapshot equal
/// to `entry`.
pub proof fn lemma_write_then_read(m: CacheModel, key: Seq<u8>, entry: CacheEntry)
    requires
        m.enabled(),
    ensures
        read_bytes_model(write_model(m, key, entry), key) == Some(encoded_bytes(entry)),
{
}

/// Overwrite: a later write to the same key replaces the file in place, so a
/// read finds the second snapshot's bytes, for any two snapshots.
pub proof fn lemma_overwrite(m: CacheModel, key: Seq<u8>, first: CacheEntry, second: CacheEntry)
    requires
        m.enabled(),
    ensures
        read_bytes_model(write_model(write_model(m, key, first), key, second), key) == Some(
            encoded_bytes(second),
        ),
{
}

/// Miss before write: a key whose file was never created reads as absent.
pub proof fn lemma_miss_before_write(m: CacheModel, key: Seq<u8>)
    requires
        !m.files.contains_key(m.path_for(key)),
    ensures
        read_bytes_model(m, key) is None,
{
}

/// A freshly configured store over an empty directory misses on every key,
/// whatever its root.
pub proof fn lemma_fresh_store_misses(root: Option<Seq<char>>, key: Seq<u8>)
    ensures
        read_bytes_model(init_model(root), key) is None,
{
}

/// Miss after remove: writing a key and then removing it reads as absent,
/// for every store, key and snapshot.
pub proof fn lemma_remove_after_write(m: CacheModel, key: Seq<u8>, entry: CacheEntry)
    ensures
        read_bytes_model(remove_model(write_model(m, key, entry), key), key) is None,
{
}

/// Disabled store: with no root directory, write and remove change nothing
/// on disk and every read misses — for all keys and snapshots.
pub proof fn lemma_disabled_store(m: CacheModel, key: Seq<u8>, entry: CacheEntry)
    requires
        !m.enabled(),
    ensures
        write_model(m, key, entry) == m,
        remove_model(m, key) == m,
        read_bytes_model(m, key) is None,
{
}

} // verus!
