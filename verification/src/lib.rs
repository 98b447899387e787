//! A best-effort on-disk cache for state snapshots.
//!
//! A snapshot is stored under a content-derived 256-bit key: the key is
//! resolved to a file name, the snapshot is serialized to a compact binary
//! encoding and streamed through a frame compressor, and the resulting bytes
//! are handed to the caller's I/O layer in one piece. Reading reverses the
//! pipeline and collapses every failure (missing file, corrupt frame, decode
//! mismatch) into a cache miss, so callers never depend on a hit.

pub mod codec;
pub mod error;
pub mod key;
pub mod model;
pub mod snapshot;
pub mod store;

pub use codec::{decode_snapshot, encode_snapshot};
pub use error::CacheError;
pub use key::CacheKey;
pub use snapshot::CacheEntry;
pub use store::{DiskStateCache, WriteJob};
