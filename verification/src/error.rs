use vstd::prelude::*;

verus! {

/// The closed set of failure kinds of the cache, one per filesystem or codec
/// step. Each carries the file path involved and a rendering of the
/// originating cause. They exist for diagnostic logging only: the store's
/// operations collapse every one of them into a miss or a silent no-op and
/// never surface them to callers. Not every kind can arise for every value:
/// encoding this snapshot type into an in-memory buffer cannot fail, so the
/// write-side codec kinds stand in the set for the pipeline's fallible
/// steps, while the store itself produces only the read-side and file-side
/// kinds.
#[derive(Debug)]
pub enum CacheError {
    /// Finalizing the frame compressor failed.
    Compress { path: String, detail: String },
    /// Writing the finished bytes to the destination file failed.
    Write { path: String, detail: String },
    /// Creating the destination file failed.
    Create { path: String, detail: String },
    /// Opening the file for reading failed.
    Read { path: String, detail: String },
    /// Serializing the snapshot to its binary encoding failed.
    WriteSerde { path: String, detail: String },
    /// Decompressing or deserializing the file's contents failed.
    ReadSerde { path: String, detail: String },
}

impl CacheError {
    /// The path of the file this failure is about.
    pub open spec fn path_chars(&self) -> Seq<char> {
        match self {
            CacheError::Compress { path, .. } => path@,
            CacheError::Write { path, .. } => path@,
            CacheError::Create { path, .. } => path@,
            CacheError::Read { path, .. } => path@,
            CacheError::WriteSerde { path, .. } => path@,
            CacheError::ReadSerde { path, .. } => path@,
        }
    }
}

} // verus!
