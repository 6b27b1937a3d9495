//! A copy or rename between two paths of one connection: what is asked for,
//! what the backend can do, and which way the work goes.
use crate::failure::OperationPhase;
use crate::failure::RemoteTransferFailure;
use crate::failure::TransferStatus;
use crate::failure::remote_failure;
use crate::failure::remote_transfer_before_copy;
use crate::failure;
use crate::fingerprint::RemoteFileFingerprint;
use crate::reply::Watched;
use crate::text;
use vstd::prelude::*;

verus! {

/// What a remote operation does with its source in the end.
#[derive(Clone, Copy, Debug, PartialEq, Eq, Structural)]
pub enum RemoteOperation {
    Copy,
    Rename,
}

impl RemoteOperation {
    /// The durable text of the operation.
    pub open spec fn text(self) -> Seq<char> {
        match self {
            RemoteOperation::Copy => "copy"@,
            RemoteOperation::Rename => "rename"@,
        }
    }

    /// The durable text of the operation.
    pub fn as_str(self) -> (text: &'static str)
        ensures
            text@ == self.text(),
    {
        match self {
            RemoteOperation::Copy => "copy",
            RemoteOperation::Rename => "rename",
        }
    }
}

/// What the backend of a connection can do by itself.
#[derive(Clone, Copy, Debug, PartialEq, Eq, Structural)]
pub struct BackendTraits {
    /// The server copies between two of its own paths.
    pub server_side_copy: bool,
    /// The server renames a file in one request.
    pub native_rename: bool,
    /// The rename goes through SFTP.
    pub native_sftp_rename: bool,
    /// The rename goes straight to an HDFS name node.
    pub direct_hdfs_native_rename: bool,
    /// The rename goes straight to a WebHDFS gateway.
    pub direct_webhdfs_rename: bool,
    /// Files are read and written as one WebHDFS stream.
    pub streaming_webhdfs: bool,
    /// The server understands a WebDAV COPY.
    pub native_webdav_copy: bool,
    /// Uploads go out as one WebDAV PUT.
    pub streaming_webdav: bool,
    /// Files are read back over an FTP session of their own.
    pub exact_ftp_relay: bool,
}

/// A copy or rename of one remote file.
#[derive(Debug)]
pub struct RemoteJob {
    pub operation: RemoteOperation,
    pub replace: bool,
    pub source_path: String,
    pub destination_path: String,
    pub backend: BackendTraits,
}

/// The way that a remote operation takes.
#[derive(Clone, Copy, Debug, PartialEq, Eq, Structural)]
pub enum RemoteRoute {
    /// The server does the copying or the renaming.
    ServerSide,
    /// The bytes are read from the source and written to a partial.
    Relay,
}

/// Why a WebHDFS connection does not replace a destination.
pub open spec fn webhdfs_replace_unsupported() -> Seq<char> {
    "WebHDFS copy and rename do not support Replace policy in v1"@
}

/// Why a WebHDFS connection does not replace a destination.
pub fn webhdfs_replace_message() -> (message: String)
    ensures
        message@ == webhdfs_replace_unsupported(),
{
    "WebHDFS copy and rename do not support Replace policy in v1".to_owned()
}

impl RemoteJob {
    /// The server does the work: it copies by itself, or the operation is a
    /// rename that the backend sends in one request.
    pub open spec fn goes_server_side(self) -> bool {
        self.backend.server_side_copy || (self.operation == RemoteOperation::Rename && (
        self.backend.native_sftp_rename || self.backend.direct_hdfs_native_rename
            || self.backend.direct_webhdfs_rename))
    }

    /// Picks the way of the operation, or refuses a replacement that the
    /// backend cannot make.
    pub fn route(&self) -> (route: Result<RemoteRoute, RemoteTransferFailure>)
        ensures
            match route {
                Err(refused) => self.replace && self.backend.streaming_webhdfs && refused@
                    == failure::before_copy(failure::remote_failed(webhdfs_replace_unsupported())),
                Ok(way) => !(self.replace && self.backend.streaming_webhdfs) && way == (
                if self.goes_server_side() {
                    RemoteRoute::ServerSide
                } else {
                    RemoteRoute::Relay
                }),
            },
    {
        if self.replace && self.backend.streaming_webhdfs {
            return Err(remote_transfer_before_copy(remote_failure(webhdfs_replace_message())));
        }
        let rename = match self.operation {
            RemoteOperation::Rename => true,
            RemoteOperation::Copy => false,
        };
        if self.backend.server_side_copy || (rename && (self.backend.native_sftp_rename
            || self.backend.direct_hdfs_native_rename || self.backend.direct_webhdfs_rename)) {
            Ok(RemoteRoute::ServerSide)
        } else {
            Ok(RemoteRoute::Relay)
        }
    }
}

/// What is written down of a running remote operation.
#[derive(Debug)]
pub struct PhaseUpdate {
    pub status: TransferStatus,
    pub phase: OperationPhase,
    pub bytes_transferred: i64,
    pub total_bytes: i64,
    pub partial_path: Option<String>,
    pub source_fingerprint: String,
    pub destination_fingerprint: Option<String>,
}

/// What a [`PhaseUpdate`] says.
#[verifier::ext_equal]
pub struct PhaseUpdateView {
    pub status: TransferStatus,
    pub phase: OperationPhase,
    pub bytes_transferred: i64,
    pub total_bytes: i64,
    pub partial_path: Option<Seq<char>>,
    pub source_fingerprint: Seq<char>,
    pub destination_fingerprint: Option<Seq<char>>,
}

impl View for PhaseUpdate {
    type V = PhaseUpdateView;

    open spec fn view(&self) -> PhaseUpdateView {
        PhaseUpdateView {
            status: self.status,
            phase: self.phase,
            bytes_transferred: self.bytes_transferred,
            total_bytes: self.total_bytes,
            partial_path: text::optional_text(self.partial_path),
            source_fingerprint: self.source_fingerprint@,
            destination_fingerprint: text::optional_text(self.destination_fingerprint),
        }
    }
}

/// The bytes are being copied.
pub open spec fn copying_update(
    bytes: i64,
    total: i64,
    partial: Option<Seq<char>>,
    source: Seq<char>,
) -> PhaseUpdateView {
    PhaseUpdateView {
        status: TransferStatus::Running,
        phase: OperationPhase::Copying,
        bytes_transferred: bytes,
        total_bytes: total,
        partial_path: partial,
        source_fingerprint: source,
        destination_fingerprint: None,
    }
}

/// The destination stands, or is about to: `phase` says how far the source's
/// removal has come.
pub open spec fn publishing_update(
    phase: OperationPhase,
    bytes: i64,
    total: i64,
    partial: Option<Seq<char>>,
    source: Seq<char>,
    destination: Seq<char>,
) -> PhaseUpdateView {
    PhaseUpdateView {
        status: TransferStatus::Publishing,
        phase,
        bytes_transferred: bytes,
        total_bytes: total,
        partial_path: partial,
        source_fingerprint: source,
        destination_fingerprint: Some(destination),
    }
}

/// Leave to delete the source of a rename: the two files were seen with these
/// fingerprints, and the deletion holds only while they still have them.
#[non_exhaustive]
#[derive(Debug)]
pub struct SourceDeletion {
    pub source_path: String,
    pub destination_path: String,
    pub source: RemoteFileFingerprint,
    pub destination: RemoteFileFingerprint,
}

/// What comes of a watched request, where an interruption means that nothing
/// was copied.
pub open spec fn watched_before_copy_is<T>(
    reply: Watched<T>,
    cancelled: Seq<char>,
    removed: Seq<char>,
    result: Result<T, RemoteTransferFailure>,
) -> bool {
    match reply {
        Watched::TransferCancelled => result matches Err(stopped) && stopped@ == failure::before_copy(
            failure::cancelled_idle(cancelled),
        ),
        Watched::ConnectionRemoved => result matches Err(stopped) && stopped@ == failure::before_copy(
            failure::cancelled_active(removed),
        ),
        Watched::Finished(value) => result == Ok::<T, RemoteTransferFailure>(value),
    }
}

/// Turns an interrupted request into the failure of an operation that copied
/// nothing.
pub fn watched_before_copy<T>(reply: Watched<T>, cancelled: &str, removed: &str) -> (result: Result<
    T,
    RemoteTransferFailure,
>)
    ensures
        watched_before_copy_is(reply, cancelled@, removed@, result),
{
    match reply {
        Watched::TransferCancelled => Err(
            remote_transfer_before_copy(crate::failure::cancelled_before(cancelled.to_owned())),
        ),
        Watched::ConnectionRemoved => Err(
            remote_transfer_before_copy(crate::failure::cancelled_during(removed.to_owned())),
        ),
        Watched::Finished(value) => Ok(value),
    }
}

/// A rename that the backend sends in one request is never relayed: it starts on
/// the server, as does every operation where the server copies by itself. A copy
/// is relayed wherever the server cannot make it, and so is a rename that no
/// backend sends in one request.
pub proof fn single_requests_are_never_relayed(job: RemoteJob)
    ensures
        job.operation == RemoteOperation::Rename && job.backend.native_sftp_rename ==> job.goes_server_side(),
        job.operation == RemoteOperation::Rename && job.backend.direct_hdfs_native_rename ==> job.goes_server_side(),
        job.operation == RemoteOperation::Rename && job.backend.direct_webhdfs_rename ==> job.goes_server_side(),
        job.backend.server_side_copy ==> job.goes_server_side(),
        job.operation == RemoteOperation::Copy && !job.backend.server_side_copy ==> !job.goes_server_side(),
        job.goes_server_side() && !job.backend.server_side_copy ==> job.operation == RemoteOperation::Rename && (
        job.backend.native_sftp_rename || job.backend.direct_hdfs_native_rename || job.backend.direct_webhdfs_rename),
{
}

/// What an operation is written down as tells a copy from a rename.
pub proof fn operations_are_told_apart(operation: RemoteOperation)
    ensures
        operation.text() == "copy"@ <==> operation == RemoteOperation::Copy,
        operation.text() == "rename"@ <==> operation == RemoteOperation::Rename,
{
    reveal_strlit("copy");
    reveal_strlit("rename");
    assert("copy"@.len() == 4);
    assert("rename"@.len() == 6);
}

/// What is written down of an operation whose bytes are being copied says how far
/// it came, where its partial is and what its source was known by, and nothing of
/// a destination.
pub proof fn running_copies_name_their_partial(
    update: PhaseUpdate,
    bytes: i64,
    total: i64,
    partial: Option<Seq<char>>,
    source: Seq<char>,
)
    requires
        update@ == copying_update(bytes, total, partial, source),
    ensures
        update.status == TransferStatus::Running,
        update.phase == OperationPhase::Copying,
        update.bytes_transferred == bytes,
        update.total_bytes == total,
        update.partial_path is Some <==> partial is Some,
        partial matches Some(path) ==> update.partial_path->0@ == path,
        update.source_fingerprint@ == source,
        update.destination_fingerprint is None,
{
}

/// What is written down of an operation whose destination stands, or is about to,
/// says how far it came and what its two files were known by.
pub proof fn published_copies_name_both_files(
    update: PhaseUpdate,
    phase: OperationPhase,
    bytes: i64,
    total: i64,
    partial: Option<Seq<char>>,
    source: Seq<char>,
    destination: Seq<char>,
)
    requires
        update@ == publishing_update(phase, bytes, total, partial, source, destination),
    ensures
        update.status == TransferStatus::Publishing,
        update.phase == phase,
        update.bytes_transferred == bytes,
        update.total_bytes == total,
        update.partial_path is Some <==> partial is Some,
        partial matches Some(path) ==> update.partial_path->0@ == path,
        update.source_fingerprint@ == source,
        update.destination_fingerprint matches Some(known) && known@ == destination,
{
}

/// An interruption before anything was copied stops the operation as cancelled
/// and leaves nothing; only a lost connection gives up the service. An answer is
/// handed on as it came.
pub proof fn interruptions_before_a_copy_leave_nothing<T>(
    reply: Watched<T>,
    cancelled: Seq<char>,
    removed: Seq<char>,
    result: Result<T, RemoteTransferFailure>,
)
    requires
        watched_before_copy_is(reply, cancelled, removed, result),
    ensures
        reply matches Watched::Finished(value) ==> result == Ok::<T, RemoteTransferFailure>(value),
        reply !is Finished ==> result is Err && {
            let stopped = result->Err_0;
            &&& stopped.failure.status == failure::FailureStatus::Cancelled
            &&& stopped.failure.invalidate_operator == reply is ConnectionRemoved
            &&& stopped.failure.message@ == (if reply is ConnectionRemoved {
                removed
            } else {
                cancelled
            })
            &&& stopped.operation_outcome == failure::OperationOutcome::FailedBeforeCopy
            &&& stopped.operation_phase == OperationPhase::Queued
            &&& stopped.partial_destination is None
        },
{
    if result is Err {
        failure::nothing_is_named_before_a_copy(result->Err_0, result->Err_0@.failure);
    }
}

/// WebHDFS cannot replace a file, and says so.
pub proof fn webhdfs_says_that_it_replaces_nothing()
    ensures
        webhdfs_replace_unsupported() == "WebHDFS copy and rename do not support Replace policy in v1"@,
{
}

} // verus!
