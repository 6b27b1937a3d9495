//! What comes of turning a closed partial into the file it was written for.
use crate::backend;
use crate::backend::error_kind;
use crate::backend::BackendErrorKind;
use vstd::prelude::*;

verus! {

/// Where a publish left the partial and its target.
#[derive(Clone, Copy, Debug, PartialEq, Eq, Structural)]
pub enum UploadPublishState {
    /// The target is the partial.
    Completed,
    /// The partial still stands and the target does not.
    PartialSource,
    /// The target stands, and whether it is the partial is not proven.
    PartialTarget,
    /// Nothing is known.
    Unknown,
}

/// What came of a publish, with a word on it.
#[derive(Debug)]
pub struct UploadPublishResolution {
    pub state: UploadPublishState,
    pub detail: String,
}

/// Why a writer was not aborted.
#[derive(Debug)]
pub enum UploadAbortError {
    /// The backend cannot abort a writer.
    Unsupported,
    /// The abort failed.
    Failed(String),
}

/// Why a service's writer was not aborted: `shown` is what its error says.
pub fn writer_abort_error(error: &opendal::Error, shown: String) -> (reason: UploadAbortError)
    ensures
        reason == (if backend::kind_of(*error) == BackendErrorKind::Unsupported {
            UploadAbortError::Unsupported
        } else {
            UploadAbortError::Failed(shown)
        }),
{
    if error_kind(error) == BackendErrorKind::Unsupported {
        UploadAbortError::Unsupported
    } else {
        UploadAbortError::Failed(shown)
    }
}

/// What comes of stopping a WebHDFS writer: what it wrote stays, so that the
/// writer was not aborted even where it was stopped.
pub fn webhdfs_abort_error(stopped: Result<(), String>) -> (reason: UploadAbortError)
    ensures
        reason == (match stopped {
            Ok(_) => UploadAbortError::Unsupported,
            Err(error) => UploadAbortError::Failed(error),
        }),
{
    match stopped {
        Ok(_) => UploadAbortError::Unsupported,
        Err(error) => UploadAbortError::Failed(error),
    }
}

} // verus!
