use vstd::prelude::*;

verus! {

/// The reason a platform file read failed, carried as plain data so that a
/// caller can match on it.
#[derive(Clone, Copy, Debug, PartialEq, Eq)]
pub enum FileErrorKind {
    /// The path names no file.
    NotFound,
    /// The file exists but may not be read.
    PermissionDenied,
    /// The read ended before the expected number of bytes arrived.
    UnexpectedEof,
    /// A remote fetch of the file failed.
    DownloadFailed,
    /// A bundled asset could not be opened.
    AssetLoadingFailed,
    /// Any other platform failure.
    Other,
}

/// A failed load: the platform's reason together with the path that was
/// requested, so that the report names the file.
#[derive(Clone, Debug, PartialEq, Eq)]
pub struct FileError {
    pub kind: FileErrorKind,
    pub path: String,
}

/// What the platform read primitive hands back: the file's bytes, or the
/// reason it failed. The path is not part of it.
pub type RawOutcome = Result<Vec<u8>, FileErrorKind>;

/// What a finished load yields to the caller: the bytes, or an error that
/// names the path.
pub type LoadResult = Result<Vec<u8>, FileError>;

/// `r` is exactly the raw platform outcome `outcome`, with the requested
/// `path` attached to the error case: bytes pass through unchanged, and a
/// failure keeps its kind.
pub open spec fn resolves_to(outcome: RawOutcome, path: Seq<char>, r: LoadResult) -> bool {
    match (outcome, r) {
        (Ok(data), Ok(bytes)) => bytes@ == data@,
        (Err(kind), Err(e)) => e.kind == kind && e.path@ == path,
        _ => false,
    }
}

/// Attach the requested path to a raw platform outcome. Both backends report
/// a failure through this mapping and pass successful bytes on unchanged.
pub fn resolve(outcome: RawOutcome, path: &str) -> (r: LoadResult)
    ensures
        resolves_to(outcome, path@, r),
{
    match outcome {
        Ok(data) => Ok(data),
        Err(kind) => Err(FileError { kind, path: path.to_owned() }),
    }
}

} // verus!
