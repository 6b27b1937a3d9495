//! What is stored of a transfer.
use vstd::prelude::*;

verus! {

/// A transfer as it was last written down.
#[derive(Debug)]
pub struct FileTransferStorageRecord {
    pub id: String,
    pub connection_id: String,
    /// `download`, `upload`, `copy` or `rename`.
    pub direction: String,
    pub status: String,
    /// The remote file: the source of a copy or rename.
    pub remote_path: String,
    /// The local file, or the destination of a copy or rename.
    pub local_path: String,
    pub local_directory_identity: String,
    pub connection_revision: Option<i64>,
    pub bytes_transferred: i64,
    pub total_bytes: Option<i64>,
    /// The partial that the transfer writes to.
    pub temp_path: Option<String>,
    pub temp_identity: Option<String>,
    pub source_fingerprint: Option<String>,
    pub destination_fingerprint: Option<String>,
    pub operation_outcome: Option<String>,
    pub operation_phase: Option<String>,
}

} // verus!
