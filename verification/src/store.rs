use vstd::prelude::*;
use vstd::string::StringExecFns;

use crate::codec::{decode_snapshot, decoded_snapshot, encode_snapshot, encoded_bytes};
use crate::key::{file_name_of, CacheKey};
use crate::snapshot::CacheEntry;

verus! {

/// The path of the file that holds a key's snapshot: the key's file name,
/// directly under the root directory. Pure: resolving a path performs no I/O.
pub open spec fn resolved_path(root: Seq<char>, key: Seq<u8>) -> Seq<char> {
    root + seq!['/'] + file_name_of(key)
}

/// A fully prepared write: the bytes of one completed frame, and the path of
/// the file they replace in one piece.
pub struct WriteJob {
    /// The resolved file path for the key being written.
    pub path: String,
    /// The complete on-disk byte form of the snapshot.
    pub bytes: Vec<u8>,
}

/// On-disk state cache.
///
/// Maps a 256-bit key to one file under an optional root directory and runs
/// the codec pipeline on the way in and out. Without a root directory every
/// operation is a no-op that reports a miss; that is a valid, permanent state
/// of the store, not an error.
#[derive(Clone)]
pub struct DiskStateCache {
    /// The directory the cache files live in; `None` disables the store.
    pub(crate) temp_path: Option<String>,
}

impl DiskStateCache {
    /// Whether the store has a root directory at all.
    pub closed spec fn enabled(&self) -> bool {
        self.temp_path is Some
    }

    /// The root directory's characters; meaningful only when enabled.
    pub closed spec fn root_chars(&self) -> Seq<char> {
        match self.temp_path {
            Some(p) => p@,
            None => Seq::empty(),
        }
    }

    /// Whether file operations are enabled: they are exactly when the store
    /// was given a root directory.
    pub fn is_enabled(&self) -> (r: bool)
        ensures
            r == self.enabled(),
    {
        self.temp_path.is_some()
    }

    /// Builds a store over the given root directory; `None` yields a store
    /// whose every operation is a no-op returning a miss.
    pub fn configure(temp_path: Option<String>) -> (r: Self)
        ensures
            r.enabled() <==> temp_path is Some,
            temp_path matches Some(p) ==> r.root_chars() == p@,
    {
        DiskStateCache { temp_path }
    }

    /// Specify the path of the directory to keep the cache files in.
    pub fn with_path(self, temp_path: String) -> (r: Self)
        ensures
            r.enabled(),
            r.root_chars() == temp_path@,
    {
        DiskStateCache { temp_path: Some(temp_path) }
    }

    /// Returns the cache file path for the given key, or `None` when the
    /// store is disabled. Resolution is deterministic and performs no I/O.
    pub fn cache_file_path(&self, hash: &CacheKey) -> (r: Option<String>)
        ensures
            match r {
                Some(p) => self.enabled() && p@ == resolved_path(self.root_chars(), hash@),
                None => !self.enabled(),
            },
    {
        match &self.temp_path {
            Some(root) => {
                let mut path = root.clone();
                path.append("/");
                let name = hash.file_name();
                path.append(name.as_str());
                proof {
                    reveal_strlit("/");
                    assert(path@ =~= resolved_path(self.root_chars(), hash@));
                }
                Some(path)
            },
            None => None,
        }
    }

    /// Prepares the write of a snapshot under the given key: resolves the
    /// path and runs the encode pipeline, synchronously and in memory. On an
    /// enabled store this always yields a job, which the caller hands to an
    /// independent unit of work that performs the file write (keeping disk
    /// latency off the thread of its choosing); on a disabled store it yields
    /// nothing and nothing happens.
    pub fn write(&self, hash: &CacheKey, state: &CacheEntry) -> (r: Option<WriteJob>)
        ensures
            match r {
                Some(job) => self.enabled() && job.path@ == resolved_path(
                    self.root_chars(),
                    hash@,
                ) && job.bytes@ == encoded_bytes(*state),
                None => !self.enabled(),
            },
    {
        let path = match self.cache_file_path(hash) {
            Some(p) => p,
            None => return None,
        };
        let bytes = encode_snapshot(state);
        Some(WriteJob { path, bytes })
    }

    /// Interprets what was loaded from the key's resolved file: `loaded` is
    /// the file's contents, or `None` when the file does not exist or could
    /// not be read. Returns a snapshot exactly when the store is enabled and
    /// the contents decode, and returns what they decode to; every failure —
    /// disabled store, missing file, corrupt frame, decode mismatch — is
    /// collapsed into `None`, never an error.
    pub fn read(&self, hash: &CacheKey, loaded: Option<Vec<u8>>) -> (r: Option<CacheEntry>)
        ensures
            !self.enabled() ==> r is None,
            loaded is None ==> r is None,
            r matches Some(e) ==> self.enabled() && (loaded matches Some(b) && decoded_snapshot(
                b@,
            ) == Some(e)),
            self.enabled() ==> (loaded matches Some(b) ==> ((r is Some) <==> decoded_snapshot(b@)
                is Some)),
            self.enabled() ==> (loaded matches Some(b) ==> forall|entry: CacheEntry|
                b@ == encoded_bytes(entry) ==> r == Some(entry)),
    {
        let path = match self.cache_file_path(hash) {
            Some(p) => p,
            None => return None,
        };
        let bytes = match loaded {
            Some(b) => b,
            None => return None,
        };
        match decode_snapshot(bytes.as_slice(), path.as_str()) {
            Ok(entry) => Some(entry),
            Err(_) => None,
        }
    }

    /// Resolves the file to delete for the given key, or `None` when the
    /// store is disabled. The caller deletes the file and swallows any
    /// failure, logging it; removal never signals failure.
    pub fn remove(&self, hash: &CacheKey) -> (r: Option<String>)
        ensures
            match r {
                Some(p) => self.enabled() && p@ == resolved_path(self.root_chars(), hash@),
                None => !self.enabled(),
            },
    {
        self.cache_file_path(hash)
    }
}

impl Default for DiskStateCache {
    /// A store with no root directory: every operation is a no-op until a
    /// root is supplied with [`DiskStateCache::with_path`].
    fn default() -> (r: Self)
        ensures
            !r.enabled(),
    {
        DiskStateCache { temp_path: None }
    }
}

} // verus!
