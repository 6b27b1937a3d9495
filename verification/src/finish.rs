//! What is written down when a transfer ends.
use crate::failure::OperationOutcome;
use crate::failure::RemoteTransferFailure;
use crate::failure::RemoteTransferOutcome;
use crate::failure::TransferFailure;
use crate::failure::TransferStatus;
use crate::failure::UploadFailure;
use crate::local_path::LocalPath;
use crate::ownership;
use crate::ownership::is_owned_temp_path;
use crate::progress::TransferProgressSnapshot;
use crate::record::FileTransferStorageRecord;
use crate::text;
use crate::text::copy_optional;
use crate::text::joined3;
use crate::text::same_text;
use crate::text::sanitize_error;
use vstd::prelude::*;

verus! {

/// What is written down of a download, or of any transfer that goes on.
#[derive(Debug)]
pub struct TransferUpdate {
    pub status: TransferStatus,
    pub bytes_transferred: i64,
    pub total_bytes: Option<i64>,
    pub temp_path: Option<String>,
    pub temp_identity: Option<String>,
    /// What went wrong, before secrets are taken out of it.
    pub error: Option<String>,
    /// The transfer has come to its end.
    pub finished: bool,
}

/// What a [`TransferUpdate`] says.
#[verifier::ext_equal]
pub struct TransferUpdateView {
    pub status: TransferStatus,
    pub bytes_transferred: i64,
    pub total_bytes: Option<i64>,
    pub temp_path: Option<Seq<char>>,
    pub temp_identity: Option<Seq<char>>,
    pub error: Option<Seq<char>>,
    pub finished: bool,
}

impl View for TransferUpdate {
    type V = TransferUpdateView;

    open spec fn view(&self) -> TransferUpdateView {
        TransferUpdateView {
            status: self.status,
            bytes_transferred: self.bytes_transferred,
            total_bytes: self.total_bytes,
            temp_path: text::optional_text(self.temp_path),
            temp_identity: text::optional_text(self.temp_identity),
            error: text::optional_text(self.error),
            finished: self.finished,
        }
    }
}

/// What is written down of an upload that ended.
#[derive(Debug)]
pub struct UploadFinish {
    pub status: TransferStatus,
    pub bytes_transferred: i64,
    pub total_bytes: Option<i64>,
    /// What went wrong, before secrets are taken out of it.
    pub error: Option<String>,
    pub partial_destination: Option<String>,
    pub abort_outcome: Option<String>,
    pub publish_outcome: Option<String>,
}

/// What an [`UploadFinish`] says.
#[verifier::ext_equal]
pub struct UploadFinishView {
    pub status: TransferStatus,
    pub bytes_transferred: i64,
    pub total_bytes: Option<i64>,
    pub error: Option<Seq<char>>,
    pub partial_destination: Option<Seq<char>>,
    pub abort_outcome: Option<Seq<char>>,
    pub publish_outcome: Option<Seq<char>>,
}

impl View for UploadFinish {
    type V = UploadFinishView;

    open spec fn view(&self) -> UploadFinishView {
        UploadFinishView {
            status: self.status,
            bytes_transferred: self.bytes_transferred,
            total_bytes: self.total_bytes,
            error: text::optional_text(self.error),
            partial_destination: text::optional_text(self.partial_destination),
            abort_outcome: text::optional_text(self.abort_outcome),
            publish_outcome: text::optional_text(self.publish_outcome),
        }
    }
}

/// What is written down of a copy or rename that ended.
#[derive(Debug)]
pub struct RemoteFinish {
    pub status: TransferStatus,
    pub bytes_transferred: i64,
    pub total_bytes: Option<i64>,
    /// What went wrong, before secrets are taken out of it.
    pub error: Option<String>,
    pub partial_destination: Option<String>,
    pub operation_outcome: OperationOutcome,
    pub operation_phase: String,
    pub source_fingerprint: Option<String>,
    pub destination_fingerprint: Option<String>,
}

/// What a [`RemoteFinish`] says.
#[verifier::ext_equal]
pub struct RemoteFinishView {
    pub status: TransferStatus,
    pub bytes_transferred: i64,
    pub total_bytes: Option<i64>,
    pub error: Option<Seq<char>>,
    pub partial_destination: Option<Seq<char>>,
    pub operation_outcome: OperationOutcome,
    pub operation_phase: Seq<char>,
    pub source_fingerprint: Option<Seq<char>>,
    pub destination_fingerprint: Option<Seq<char>>,
}

impl View for RemoteFinish {
    type V = RemoteFinishView;

    open spec fn view(&self) -> RemoteFinishView {
        RemoteFinishView {
            status: self.status,
            bytes_transferred: self.bytes_transferred,
            total_bytes: self.total_bytes,
            error: text::optional_text(self.error),
            partial_destination: text::optional_text(self.partial_destination),
            operation_outcome: self.operation_outcome,
            operation_phase: self.operation_phase@,
            source_fingerprint: text::optional_text(self.source_fingerprint),
            destination_fingerprint: text::optional_text(self.destination_fingerprint),
        }
    }
}

/// A download that was completed.
#[derive(Clone, Copy, Debug, PartialEq, Eq, Structural)]
pub struct DownloadOutcome {
    pub bytes_transferred: i64,
    pub total_bytes: Option<i64>,
}

/// An upload that was completed.
#[derive(Debug)]
pub struct UploadOutcome {
    pub bytes_transferred: i64,
    pub total_bytes: Option<i64>,
    pub publish_outcome: Option<String>,
}

/// The bytes that a transfer had moved when it failed: what was counted, or
/// what was written down where that is more.
pub open spec fn failed_bytes(progress: TransferProgressSnapshot, latest: Option<FileTransferStorageRecord>) -> int {
    let written = match latest {
        Some(record) => record.bytes_transferred as int,
        None => 0,
    };
    if progress.counted_bytes() > written {
        progress.counted_bytes() as int
    } else {
        written
    }
}

/// The size that a failed transfer has: what was learned, or what was written
/// down.
pub open spec fn failed_total(
    progress: TransferProgressSnapshot,
    latest: Option<FileTransferStorageRecord>,
) -> Option<i64> {
    match progress.known_total() {
        Some(total) => Some(total),
        None => match latest {
            Some(record) => record.total_bytes,
            None => None,
        },
    }
}

fn bytes_at_failure(progress: &TransferProgressSnapshot, latest: &Option<FileTransferStorageRecord>) -> (bytes: i64)
    ensures
        bytes == failed_bytes(*progress, *latest),
{
    let written: i64 = match latest {
        Some(record) => record.bytes_transferred,
        None => 0,
    };
    let counted: i64 = progress.bytes();
    if counted > written {
        counted
    } else {
        written
    }
}

fn total_at_failure(progress: &TransferProgressSnapshot, latest: &Option<FileTransferStorageRecord>) -> (total: Option<
    i64,
>)
    ensures
        total == failed_total(*progress, *latest),
{
    match progress.total() {
        Some(total) => Some(total),
        None => match latest {
            Some(record) => record.total_bytes,
            None => None,
        },
    }
}

/// A failed download must be reconciled with what it published, not settled.
pub open spec fn must_reconcile(failed: bool, latest: Option<FileTransferStorageRecord>) -> bool {
    failed && latest is Some && latest->0.status@ == "publishing"@
}

/// Says whether a failed download must be reconciled with what it published.
pub fn download_must_reconcile(failed: bool, latest: &Option<FileTransferStorageRecord>) -> (must: bool)
    ensures
        must == must_reconcile(failed, *latest),
{
    match latest {
        Some(record) => failed && same_text(record.status.as_str(), "publishing"),
        None => false,
    }
}

/// A temporary file is due to be removed, where it is the one with an identity.
#[derive(Debug)]
#[non_exhaustive]
pub struct ActiveTempCleanup {
    pub temp_path: String,
    pub expected_identity: String,
}

/// What is done about the temporary file of a download that failed: a file that
/// is not the download's own, or that cannot be told from others, is left alone.
pub fn cleanup_active_temp(
    record: &FileTransferStorageRecord,
    target: &LocalPath,
    temp: Option<&LocalPath>,
) -> (due: Result<Option<ActiveTempCleanup>, String>)
    requires
        record.temp_path is Some <==> temp is Some,
    ensures
        match temp {
            None => due == Ok::<Option<ActiveTempCleanup>, String>(None),
            Some(path) => if !ownership::download_owns(*record, target@, path@) {
                due matches Err(error) && error@ == "temporary-file identity is invalid"@
            } else {
                match record.temp_identity {
                    None => due matches Err(error) && error@
                        == "temporary-file identity is unavailable; no file was removed"@,
                    Some(identity) => due matches Ok(Some(cleanup)) && cleanup.temp_path@ == record.temp_path->0@
                        && cleanup.expected_identity@ == identity@,
                }
            },
        },
{
    match (&record.temp_path, temp) {
        (Some(temp_path), Some(path)) => if !is_owned_temp_path(record, target, path) {
            Err("temporary-file identity is invalid".to_owned())
        } else {
            match &record.temp_identity {
                None => Err("temporary-file identity is unavailable; no file was removed".to_owned()),
                Some(identity) => Ok(
                    Some(
                        ActiveTempCleanup { temp_path: temp_path.clone(), expected_identity: identity.clone() },
                    ),
                ),
            }
        },
        _ => Ok(None),
    }
}

/// The message of a failed download, with what the clean-up of its temporary
/// file said.
pub open spec fn download_error(message: Seq<char>, cleanup_error: Option<String>) -> Seq<char> {
    match cleanup_error {
        Some(cleanup) => message + "; temporary-file cleanup failed safely: "@ + cleanup@,
        None => message,
    }
}

fn download_error_text(message: &str, cleanup_error: &Option<String>) -> (all: String)
    ensures
        all@ == download_error(message@, *cleanup_error),
{
    match cleanup_error {
        Some(cleanup) => joined3(message, "; temporary-file cleanup failed safely: ", cleanup.as_str()),
        None => message.to_owned(),
    }
}

/// What is written down of a download that ended.
pub open spec fn download_finished(
    result: Result<DownloadOutcome, TransferFailure>,
    progress: TransferProgressSnapshot,
    latest: Option<FileTransferStorageRecord>,
    cleanup_error: Option<String>,
) -> TransferUpdateView {
    match result {
        Ok(outcome) => TransferUpdateView {
            status: TransferStatus::Completed,
            bytes_transferred: outcome.bytes_transferred,
            total_bytes: outcome.total_bytes,
            temp_path: None,
            temp_identity: None,
            error: None,
            finished: true,
        },
        Err(stopped) => TransferUpdateView {
            status: stopped.status.status(),
            bytes_transferred: failed_bytes(progress, latest) as i64,
            total_bytes: failed_total(progress, latest),
            temp_path: None,
            temp_identity: None,
            error: Some(text::sanitized(download_error(stopped.message@, cleanup_error))),
            finished: true,
        },
    }
}

/// Settles a download that ended and need not be reconciled.
pub fn finalize_download_result(
    result: Result<DownloadOutcome, TransferFailure>,
    progress: &TransferProgressSnapshot,
    latest: &Option<FileTransferStorageRecord>,
    cleanup_error: &Option<String>,
) -> (update: TransferUpdate)
    requires
        result matches Err(stopped) ==> text::can_be_cut(download_error(stopped.message@, *cleanup_error)),
    ensures
        update@ == download_finished(result, *progress, *latest, *cleanup_error),
{
    match result {
        Ok(outcome) => TransferUpdate {
            status: TransferStatus::Completed,
            bytes_transferred: outcome.bytes_transferred,
            total_bytes: outcome.total_bytes,
            temp_path: None,
            temp_identity: None,
            error: None,
            finished: true,
        },
        Err(stopped) => {
            let message = download_error_text(stopped.message.as_str(), cleanup_error);
            TransferUpdate {
                status: stopped.status.as_status(),
                bytes_transferred: bytes_at_failure(progress, latest),
                total_bytes: total_at_failure(progress, latest),
                temp_path: None,
                temp_identity: None,
                error: Some(sanitize_error(message.as_str())),
                finished: true,
            }
        },
    }
}

/// What is written down of an upload that ended.
pub open spec fn upload_finished(
    result: Result<UploadOutcome, UploadFailure>,
    progress: TransferProgressSnapshot,
    latest: Option<FileTransferStorageRecord>,
) -> UploadFinishView {
    match result {
        Ok(outcome) => UploadFinishView {
            status: TransferStatus::Completed,
            bytes_transferred: outcome.bytes_transferred,
            total_bytes: outcome.total_bytes,
            error: None,
            partial_destination: None,
            abort_outcome: None,
            publish_outcome: text::optional_text(outcome.publish_outcome),
        },
        Err(upload) => UploadFinishView {
            status: upload.failure.status.status(),
            bytes_transferred: failed_bytes(progress, latest) as i64,
            total_bytes: failed_total(progress, latest),
            error: Some(text::sanitized(upload.failure.message@)),
            partial_destination: text::optional_text(upload.partial_destination),
            abort_outcome: text::optional_text(upload.abort_outcome),
            publish_outcome: text::optional_text(upload.publish_outcome),
        },
    }
}

/// Settles an upload that ended.
pub fn finalize_upload_result(
    result: Result<UploadOutcome, UploadFailure>,
    progress: &TransferProgressSnapshot,
    latest: &Option<FileTransferStorageRecord>,
) -> (finish: UploadFinish)
    requires
        result matches Err(upload) ==> text::can_be_cut(upload.failure.message@),
    ensures
        finish@ == upload_finished(result, *progress, *latest),
{
    match result {
        Ok(outcome) => UploadFinish {
            status: TransferStatus::Completed,
            bytes_transferred: outcome.bytes_transferred,
            total_bytes: outcome.total_bytes,
            error: None,
            partial_destination: None,
            abort_outcome: None,
            publish_outcome: outcome.publish_outcome,
        },
        Err(upload) => UploadFinish {
            status: upload.failure.status.as_status(),
            bytes_transferred: bytes_at_failure(progress, latest),
            total_bytes: total_at_failure(progress, latest),
            error: Some(sanitize_error(upload.failure.message.as_str())),
            partial_destination: upload.partial_destination,
            abort_outcome: upload.abort_outcome,
            publish_outcome: upload.publish_outcome,
        },
    }
}

/// A text that was reported, or the one that was written down.
pub open spec fn reported_or_written(reported: Option<String>, written: Option<Option<String>>) -> Option<Seq<char>> {
    match reported {
        Some(present) => Some(present@),
        None => match written {
            Some(earlier) => text::optional_text(earlier),
            None => None,
        },
    }
}

/// The source's durable text in a record.
pub open spec fn written_source(latest: Option<FileTransferStorageRecord>) -> Option<Option<String>> {
    match latest {
        Some(record) => Some(record.source_fingerprint),
        None => None,
    }
}

/// The destination's durable text in a record.
pub open spec fn written_destination(latest: Option<FileTransferStorageRecord>) -> Option<Option<String>> {
    match latest {
        Some(record) => Some(record.destination_fingerprint),
        None => None,
    }
}

/// What is written down of a copy or rename that ended.
pub open spec fn remote_finished(
    result: Result<RemoteTransferOutcome, RemoteTransferFailure>,
    progress: TransferProgressSnapshot,
    latest: Option<FileTransferStorageRecord>,
) -> RemoteFinishView {
    match result {
        Ok(outcome) => RemoteFinishView {
            status: TransferStatus::Completed,
            bytes_transferred: outcome.bytes_transferred,
            total_bytes: Some(outcome.total_bytes),
            error: None,
            partial_destination: None,
            operation_outcome: outcome.operation_outcome,
            operation_phase: outcome.operation_phase.text(),
            source_fingerprint: Some(outcome.source_fingerprint@),
            destination_fingerprint: Some(outcome.destination_fingerprint@),
        },
        Err(remote) => RemoteFinishView {
            status: remote.failure.status.status(),
            bytes_transferred: failed_bytes(progress, latest) as i64,
            total_bytes: failed_total(progress, latest),
            error: Some(text::sanitized(remote.failure.message@)),
            partial_destination: text::optional_text(remote.partial_destination),
            operation_outcome: remote.operation_outcome,
            operation_phase: remote.operation_phase.text(),
            source_fingerprint: reported_or_written(remote.source_fingerprint, written_source(latest)),
            destination_fingerprint: reported_or_written(
                remote.destination_fingerprint,
                written_destination(latest),
            ),
        },
    }
}

/// Settles a copy or rename that ended.
pub fn finalize_remote_transfer_result(
    result: Result<RemoteTransferOutcome, RemoteTransferFailure>,
    progress: &TransferProgressSnapshot,
    latest: &Option<FileTransferStorageRecord>,
) -> (finish: RemoteFinish)
    requires
        result matches Err(remote) ==> text::can_be_cut(remote.failure.message@),
    ensures
        finish@ == remote_finished(result, *progress, *latest),
{
    match result {
        Ok(outcome) => RemoteFinish {
            status: TransferStatus::Completed,
            bytes_transferred: outcome.bytes_transferred,
            total_bytes: Some(outcome.total_bytes),
            error: None,
            partial_destination: None,
            operation_outcome: outcome.operation_outcome,
            operation_phase: outcome.operation_phase.as_str().to_owned(),
            source_fingerprint: Some(outcome.source_fingerprint),
            destination_fingerprint: Some(outcome.destination_fingerprint),
        },
        Err(remote) => {
            let source_fingerprint = match (remote.source_fingerprint, latest) {
                (Some(reported), _) => Some(reported),
                (None, Some(record)) => copy_optional(&record.source_fingerprint),
                (None, None) => None,
            };
            let destination_fingerprint = match (remote.destination_fingerprint, latest) {
                (Some(reported), _) => Some(reported),
                (None, Some(record)) => copy_optional(&record.destination_fingerprint),
                (None, None) => None,
            };
            RemoteFinish {
                status: remote.failure.status.as_status(),
                bytes_transferred: bytes_at_failure(progress, latest),
                total_bytes: total_at_failure(progress, latest),
                error: Some(sanitize_error(remote.failure.message.as_str())),
                partial_destination: remote.partial_destination,
                operation_outcome: remote.operation_outcome,
                operation_phase: remote.operation_phase.as_str().to_owned(),
                source_fingerprint,
                destination_fingerprint,
            }
        },
    }
}

/// A transfer that failed is never written down as completed, and never without
/// what it failed with.
pub proof fn failures_are_not_written_as_completed(
    download: TransferFailure,
    upload: UploadFailure,
    remote: RemoteTransferFailure,
    progress: TransferProgressSnapshot,
    latest: Option<FileTransferStorageRecord>,
    cleanup_error: Option<String>,
)
    ensures
        download_finished(Err(download), progress, latest, cleanup_error).status != TransferStatus::Completed,
        upload_finished(Err(upload), progress, latest).status != TransferStatus::Completed,
        remote_finished(Err(remote), progress, latest).status != TransferStatus::Completed,
        download_finished(Err(download), progress, latest, cleanup_error).error is Some,
        upload_finished(Err(upload), progress, latest).error is Some,
        remote_finished(Err(remote), progress, latest).error is Some,
{
}

/// The bytes of a failed transfer never fall behind what was counted or what
/// was written down.
pub proof fn failed_bytes_never_fall(progress: TransferProgressSnapshot, latest: Option<FileTransferStorageRecord>)
    ensures
        failed_bytes(progress, latest) >= progress.counted_bytes(),
        latest matches Some(record) ==> failed_bytes(progress, latest) >= record.bytes_transferred,
{
}

/// What is written down of a completed copy or rename has the counts, the outcome
/// and both fingerprints of that operation, whatever was counted or written down
/// before.
pub proof fn completed_operations_are_written_down_whole(
    outcome: RemoteTransferOutcome,
    progress: TransferProgressSnapshot,
    latest: Option<FileTransferStorageRecord>,
    finish: RemoteFinish,
)
    requires
        finish@ == remote_finished(Ok(outcome), progress, latest),
    ensures
        finish.status == TransferStatus::Completed,
        finish.bytes_transferred == outcome.bytes_transferred,
        finish.total_bytes == Some(outcome.total_bytes),
        finish.error is None,
        finish.partial_destination is None,
        finish.operation_outcome == outcome.operation_outcome,
        finish.operation_phase@ == outcome.operation_phase.text(),
        finish.source_fingerprint matches Some(source) && source@ == outcome.source_fingerprint@,
        finish.destination_fingerprint matches Some(destination) && destination@ == outcome.destination_fingerprint@,
{
}

/// What is written down of a copy or rename that failed says how it failed and
/// what it left, with the fingerprints that it reported, or those of the record
/// where it reported none. Its count is the higher one of what was counted and
/// what was written down, and its size the one that was learned, or else the one
/// that was written down.
pub proof fn failed_operations_are_written_down_as_they_failed(
    stopped: RemoteTransferFailure,
    progress: TransferProgressSnapshot,
    latest: Option<FileTransferStorageRecord>,
    finish: RemoteFinish,
)
    requires
        finish@ == remote_finished(Err(stopped), progress, latest),
        progress.counted_bytes() >= 0,
    ensures
        finish.status == stopped.failure.status.status(),
        finish.error matches Some(error) && error@ == text::sanitized(stopped.failure.message@),
        finish.partial_destination is Some <==> stopped.partial_destination is Some,
        stopped.partial_destination matches Some(left) ==> finish.partial_destination->0@ == left@,
        finish.operation_outcome == stopped.operation_outcome,
        finish.operation_phase@ == stopped.operation_phase.text(),
        stopped.source_fingerprint matches Some(source) ==> finish.source_fingerprint is Some
            && finish.source_fingerprint->0@ == source@,
        stopped.destination_fingerprint matches Some(destination) ==> finish.destination_fingerprint is Some
            && finish.destination_fingerprint->0@ == destination@,
        stopped.source_fingerprint is None && latest is Some ==> text::optional_text(finish.source_fingerprint)
            == text::optional_text(latest->0.source_fingerprint),
        stopped.destination_fingerprint is None && latest is Some ==> text::optional_text(
            finish.destination_fingerprint,
        ) == text::optional_text(latest->0.destination_fingerprint),
        stopped.source_fingerprint is None && latest is None ==> finish.source_fingerprint is None,
        stopped.destination_fingerprint is None && latest is None ==> finish.destination_fingerprint is None,
        finish.bytes_transferred >= progress.counted_bytes(),
        latest matches Some(record) ==> finish.bytes_transferred >= record.bytes_transferred,
        finish.bytes_transferred == progress.counted_bytes() || (latest matches Some(record) && finish.bytes_transferred
            == record.bytes_transferred),
        progress.known_total() is Some ==> finish.total_bytes == progress.known_total(),
        progress.known_total() is None && latest is Some ==> finish.total_bytes == latest->0.total_bytes,
        progress.known_total() is None && latest is None ==> finish.total_bytes is None,
{
}

/// What is written down of a completed upload has its counts and how it was
/// published, and names no partial.
pub proof fn completed_uploads_are_written_down_whole(
    outcome: UploadOutcome,
    progress: TransferProgressSnapshot,
    latest: Option<FileTransferStorageRecord>,
    finish: UploadFinish,
)
    requires
        finish@ == upload_finished(Ok(outcome), progress, latest),
    ensures
        finish.status == TransferStatus::Completed,
        finish.bytes_transferred == outcome.bytes_transferred,
        finish.total_bytes == outcome.total_bytes,
        finish.error is None,
        finish.partial_destination is None,
        finish.abort_outcome is None,
        finish.publish_outcome is Some <==> outcome.publish_outcome is Some,
        outcome.publish_outcome matches Some(published) ==> finish.publish_outcome->0@ == published@,
{
}

/// What is written down of an upload that failed says how it failed and what it
/// left behind.
pub proof fn failed_uploads_are_written_down_as_they_failed(
    stopped: UploadFailure,
    progress: TransferProgressSnapshot,
    latest: Option<FileTransferStorageRecord>,
    finish: UploadFinish,
)
    requires
        finish@ == upload_finished(Err(stopped), progress, latest),
        progress.counted_bytes() >= 0,
    ensures
        finish.status == stopped.failure.status.status(),
        finish.error matches Some(error) && error@ == text::sanitized(stopped.failure.message@),
        finish.partial_destination is Some <==> stopped.partial_destination is Some,
        stopped.partial_destination matches Some(left) ==> finish.partial_destination->0@ == left@,
        finish.abort_outcome is Some <==> stopped.abort_outcome is Some,
        stopped.abort_outcome matches Some(aborted) ==> finish.abort_outcome->0@ == aborted@,
        finish.publish_outcome is Some <==> stopped.publish_outcome is Some,
        stopped.publish_outcome matches Some(published) ==> finish.publish_outcome->0@ == published@,
        finish.bytes_transferred >= progress.counted_bytes(),
        latest matches Some(record) ==> finish.bytes_transferred >= record.bytes_transferred,
        finish.bytes_transferred == progress.counted_bytes() || (latest matches Some(record) && finish.bytes_transferred
            == record.bytes_transferred),
        progress.known_total() is Some ==> finish.total_bytes == progress.known_total(),
        progress.known_total() is None && latest is Some ==> finish.total_bytes == latest->0.total_bytes,
        progress.known_total() is None && latest is None ==> finish.total_bytes is None,
{
}

/// What is written down of a completed download has its counts, and nothing of
/// its temporary file is left to be looked for.
pub proof fn completed_downloads_are_written_down_whole(
    outcome: DownloadOutcome,
    progress: TransferProgressSnapshot,
    latest: Option<FileTransferStorageRecord>,
    cleanup_error: Option<String>,
    update: TransferUpdate,
)
    requires
        update@ == download_finished(Ok(outcome), progress, latest, cleanup_error),
    ensures
        update.status == TransferStatus::Completed,
        update.bytes_transferred == outcome.bytes_transferred,
        update.total_bytes == outcome.total_bytes,
        update.error is None,
        update.temp_path is None,
        update.temp_identity is None,
        update.finished,
{
}

/// What is written down of a download that failed says how it failed, and what
/// the clean-up of its temporary file said, where that failed too.
pub proof fn failed_downloads_are_written_down_as_they_failed(
    stopped: TransferFailure,
    progress: TransferProgressSnapshot,
    latest: Option<FileTransferStorageRecord>,
    cleanup_error: Option<String>,
    update: TransferUpdate,
)
    requires
        update@ == download_finished(Err(stopped), progress, latest, cleanup_error),
        progress.counted_bytes() >= 0,
    ensures
        update.status == stopped.status.status(),
        cleanup_error is None ==> (update.error matches Some(error) && error@ == text::sanitized(stopped.message@)),
        cleanup_error matches Some(cleanup) ==> update.error is Some && update.error->0@ == text::sanitized(
            stopped.message@ + "; temporary-file cleanup failed safely: "@ + cleanup@,
        ),
        update.temp_path is None,
        update.temp_identity is None,
        update.finished,
        update.bytes_transferred >= progress.counted_bytes(),
        latest matches Some(record) ==> update.bytes_transferred >= record.bytes_transferred,
        update.bytes_transferred == progress.counted_bytes() || (latest matches Some(record) && update.bytes_transferred
            == record.bytes_transferred),
        progress.known_total() is Some ==> update.total_bytes == progress.known_total(),
        progress.known_total() is None && latest is Some ==> update.total_bytes == latest->0.total_bytes,
        progress.known_total() is None && latest is None ==> update.total_bytes is None,
{
}

/// A download is settled without being reconciled exactly where it did not fail,
/// or where nothing says that it was being published.
pub proof fn only_publishing_failures_are_reconciled(failed: bool, latest: Option<FileTransferStorageRecord>)
    ensures
        !failed ==> !must_reconcile(failed, latest),
        latest is None ==> !must_reconcile(failed, latest),
        failed && latest is Some ==> (must_reconcile(failed, latest) <==> latest->0.status@
            == TransferStatus::Publishing.text()),
{
}

} // verus!
