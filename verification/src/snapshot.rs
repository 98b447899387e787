use vstd::prelude::*;

verus! {

/// One cached snapshot value: the expensive in-memory state that the cache
/// persists and reloads. The cache itself never interprets the fields; it
/// only carries them through the codec pipeline unchanged.
#[derive(Clone, Copy, PartialEq, Eq, Structural, Debug)]
pub struct CacheEntry {
    /// The account balance recorded in the snapshot.
    pub balance: u64,
    /// The account nonce recorded in the snapshot.
    pub nonce: u64,
}

} // verus!
