//! What becomes of a transfer that was cut off by the end of the application.
use crate::anchored;
use crate::anchored::entry_identity;
use crate::anchored::EntryStat;
use crate::failure::OperationOutcome;
use crate::failure::OperationPhase;
use crate::failure::TransferFailure;
use crate::failure::TransferStatus;
use crate::fingerprint;
use crate::fingerprint::persisted_relay_hash;
use crate::fingerprint::persisted_remote_fingerprint_matches;
use crate::fingerprint::persisted_verified_remote_content_matches;
use crate::fingerprint::FingerprintView;
use crate::fingerprint::RemoteFileFingerprint;
use crate::fingerprint::VerifiedRemoteContent;
use crate::finish::RemoteFinish;
use crate::finish::RemoteFinishView;
use crate::finish::TransferUpdate;
use crate::finish::TransferUpdateView;
use crate::finish::UploadFinish;
use crate::finish::UploadFinishView;
use crate::local_path;
use crate::local_path::LocalPath;
use crate::ownership;
use crate::ownership::is_owned_remote_copy_partial;
use crate::ownership::is_owned_temp_path;
use crate::ownership::is_owned_upload_partial;
use crate::publish::UploadPublishResolution;
use crate::publish::UploadPublishState;
use crate::reconcile;
use crate::reconcile::error_tells_absence;
use crate::record::FileTransferStorageRecord;
use crate::text;
use crate::text::copy_optional;
use crate::text::joined2;
use crate::text::joined3;
use crate::text::joined4;
use crate::text::same_text;
use crate::failure;
use crate::remote;
use crate::remote::PhaseUpdate;
use crate::remote::RemoteOperation;
use crate::retry;
use crate::upload;
use crate::upload::UploadJob;
use vstd::prelude::*;

verus! {

/// What is to be done for a transfer that was cut off.
#[derive(Debug)]
pub enum Recovery {
    /// Look where the publish of an upload left its partial.
    ReconcileUpload(UploadRecovery),
    /// Write down how the upload ended.
    FinishUpload(UploadFinish),
    /// Look at the source and the destination of a rename.
    CheckRename(RenameRecovery),
    /// Write down how the copy or rename ended.
    FinishRemote(RemoteFinish),
    /// Write down how the download ended.
    UpdateDownload(TransferUpdate),
    /// Open the directory of a download again.
    ReopenDownload(DownloadRecovery),
    /// Nothing is left to do.
    Nothing,
    /// The transfer cannot be recovered.
    Refused(String),
}

/// Due: where the publish of an upload left its partial.
#[non_exhaustive]
#[derive(Debug)]
pub struct UploadRecovery {
    pub transfer: FileTransferStorageRecord,
    pub partial: String,
}

/// Due: source and destination of a rename whose destination stood.
#[non_exhaustive]
#[derive(Debug)]
pub struct RenameRecovery {
    pub transfer: FileTransferStorageRecord,
    pub revision: i64,
}

/// Due: reading the destination of a rename back.
#[non_exhaustive]
#[derive(Debug)]
pub struct RenameContentRecovery {
    pub transfer: FileTransferStorageRecord,
    pub expected_destination: String,
}

/// What follows the look at source and destination of a rename.
#[derive(Debug)]
pub enum RenameRecoveryNext {
    VerifyDestination(RenameContentRecovery),
    Finish(RemoteFinish),
}

/// Due: the directory of a download.
#[non_exhaustive]
#[derive(Debug)]
pub struct DownloadRecovery {
    pub transfer: FileTransferStorageRecord,
    pub temp_path: String,
    pub publishing: bool,
}

/// The partial of an upload, where it is the upload's own.
pub open spec fn owned_upload_partial(transfer: FileTransferStorageRecord) -> Option<Seq<char>> {
    match transfer.temp_path {
        Some(path) => if ownership::upload_owns(transfer, path@) {
            Some(path@)
        } else {
            None
        },
        None => None,
    }
}

/// The partial of a copy or rename, where it is its own.
pub open spec fn owned_copy_partial(transfer: FileTransferStorageRecord) -> Option<Seq<char>> {
    match transfer.temp_path {
        Some(path) => if ownership::remote_copy_owns(transfer, path@) {
            Some(path@)
        } else {
            None
        },
        None => None,
    }
}

/// How far a copy or rename came.
pub open spec fn phase_of(transfer: FileTransferStorageRecord) -> Seq<char> {
    match transfer.operation_phase {
        Some(phase) => phase@,
        None => "queued"@,
    }
}

/// How an upload is written down that was cut off.
pub open spec fn upload_cut_off(
    transfer: FileTransferStorageRecord,
    status: TransferStatus,
    partial: Option<Seq<char>>,
    abort_outcome: Seq<char>,
    publish_outcome: Option<Seq<char>>,
    error: Seq<char>,
) -> UploadFinishView {
    UploadFinishView {
        status,
        bytes_transferred: transfer.bytes_transferred,
        total_bytes: transfer.total_bytes,
        error: Some(error),
        partial_destination: partial,
        abort_outcome: Some(abort_outcome),
        publish_outcome,
    }
}

fn finish_upload(
    transfer: &FileTransferStorageRecord,
    status: TransferStatus,
    partial: Option<String>,
    abort_outcome: &str,
    publish_outcome: Option<String>,
    error: String,
) -> (finish: UploadFinish)
    ensures
        finish@ == upload_cut_off(
            *transfer,
            status,
            text::optional_text(partial),
            abort_outcome@,
            text::optional_text(publish_outcome),
            error@,
        ),
{
    UploadFinish {
        status,
        bytes_transferred: transfer.bytes_transferred,
        total_bytes: transfer.total_bytes,
        error: Some(error),
        partial_destination: partial,
        abort_outcome: Some(abort_outcome.to_owned()),
        publish_outcome,
    }
}

/// How a copy or rename is written down that was cut off.
pub open spec fn remote_cut_off(
    transfer: FileTransferStorageRecord,
    status: TransferStatus,
    error: Option<Seq<char>>,
    partial: Option<Seq<char>>,
    outcome: OperationOutcome,
    phase: Seq<char>,
) -> RemoteFinishView {
    RemoteFinishView {
        status,
        bytes_transferred: transfer.bytes_transferred,
        total_bytes: transfer.total_bytes,
        error,
        partial_destination: partial,
        operation_outcome: outcome,
        operation_phase: phase,
        source_fingerprint: text::optional_text(transfer.source_fingerprint),
        destination_fingerprint: text::optional_text(transfer.destination_fingerprint),
    }
}

fn finish_remote(
    transfer: &FileTransferStorageRecord,
    status: TransferStatus,
    error: Option<String>,
    partial: Option<String>,
    outcome: OperationOutcome,
    phase: &str,
) -> (finish: RemoteFinish)
    ensures
        finish@ == remote_cut_off(
            *transfer,
            status,
            text::optional_text(error),
            text::optional_text(partial),
            outcome,
            phase@,
        ),
{
    RemoteFinish {
        status,
        bytes_transferred: transfer.bytes_transferred,
        total_bytes: transfer.total_bytes,
        error,
        partial_destination: partial,
        operation_outcome: outcome,
        operation_phase: phase.to_owned(),
        source_fingerprint: copy_optional(&transfer.source_fingerprint),
        destination_fingerprint: copy_optional(&transfer.destination_fingerprint),
    }
}

/// How a download is written down that was cut off.
pub open spec fn download_cut_off(
    transfer: FileTransferStorageRecord,
    status: TransferStatus,
    temp_path: Option<Seq<char>>,
    temp_identity: Option<Seq<char>>,
    error: Option<Seq<char>>,
) -> TransferUpdateView {
    TransferUpdateView {
        status,
        bytes_transferred: transfer.bytes_transferred,
        total_bytes: transfer.total_bytes,
        temp_path,
        temp_identity,
        error,
        finished: true,
    }
}

fn finish_download(
    transfer: &FileTransferStorageRecord,
    status: TransferStatus,
    temp_path: Option<String>,
    temp_identity: Option<String>,
    error: Option<String>,
) -> (update: TransferUpdate)
    ensures
        update@ == download_cut_off(
            *transfer,
            status,
            text::optional_text(temp_path),
            text::optional_text(temp_identity),
            text::optional_text(error),
        ),
{
    TransferUpdate {
        status,
        bytes_transferred: transfer.bytes_transferred,
        total_bytes: transfer.total_bytes,
        temp_path,
        temp_identity,
        error,
        finished: true,
    }
}

/// What is done for an upload: its own partial is looked for again where it was
/// being published, and left in place where it was not.
pub open spec fn upload_recovers(transfer: FileTransferStorageRecord, recovery: Recovery) -> bool {
    match owned_upload_partial(transfer) {
        Some(partial) => if transfer.status@ == "publishing"@ {
            recovery matches Recovery::ReconcileUpload(due) && due.transfer == transfer && due.partial@ == partial
        } else {
            recovery matches Recovery::FinishUpload(finish) && finish@ == upload_cut_off(
                transfer,
                TransferStatus::Partial,
                Some(partial),
                "not_attempted_after_application_exit"@,
                None,
                "The application exited before the upload completed; operation-owned remote partial may remain at "@
                    + partial,
            )
        },
        None => recovery matches Recovery::FinishUpload(finish) && finish@ == upload_cut_off(
            transfer,
            TransferStatus::Failed,
            None,
            "not_attempted_after_application_exit"@,
            None,
            "The application exited before the upload created an owned remote partial"@,
        ),
    }
}

/// The destination of a rename stood when it was cut off.
pub open spec fn rename_had_published(transfer: FileTransferStorageRecord) -> bool {
    transfer.direction@ == "rename"@ && (phase_of(transfer) == "published_before_delete"@ || phase_of(transfer)
        == "delete_uncertain"@)
}

/// A copy that the server made may have reached its destination: it was under
/// way, and what was written down of its source holds no content hash.
pub open spec fn destination_may_exist(transfer: FileTransferStorageRecord) -> bool {
    phase_of(transfer) == "copying"@ && transfer.source_fingerprint is Some && fingerprint::relay_hash(
        transfer.source_fingerprint->0@,
    ) is None
}

/// What a copy or rename may have left behind.
pub open spec fn left_by_copy(transfer: FileTransferStorageRecord) -> Option<Seq<char>> {
    match owned_copy_partial(transfer) {
        Some(partial) => Some(partial),
        None => if transfer.status@ == "publishing"@ || destination_may_exist(transfer) {
            Some(transfer.local_path@)
        } else {
            None
        },
    }
}

/// What is done for a copy or rename.
pub open spec fn remote_recovers(transfer: FileTransferStorageRecord, recovery: Recovery) -> bool {
    if rename_had_published(transfer) {
        match transfer.connection_revision {
            Some(revision) => recovery matches Recovery::CheckRename(due) && due.transfer == transfer && due.revision
                == revision,
            None => recovery matches Recovery::Refused(reason) && reason@
                == "Interrupted rename has no durable connection revision"@,
        }
    } else {
        match left_by_copy(transfer) {
            Some(left) => recovery matches Recovery::FinishRemote(finish) && finish@ == remote_cut_off(
                transfer,
                TransferStatus::Partial,
                Some(
                    "The application exited during remote "@ + transfer.direction@
                        + "; the operation-owned or published destination was preserved at "@ + left,
                ),
                Some(left),
                OperationOutcome::FailedWithPartialDestination,
                phase_of(transfer),
            ),
            None => recovery matches Recovery::FinishRemote(finish) && finish@ == remote_cut_off(
                transfer,
                TransferStatus::Failed,
                Some(
                    "The application exited before remote "@ + transfer.direction@ + " published a destination"@,
                ),
                None,
                OperationOutcome::FailedBeforeCopy,
                phase_of(transfer),
            ),
        }
    }
}

/// What is done for a download.
pub open spec fn download_recovers(
    transfer: FileTransferStorageRecord,
    target: Seq<local_path::ComponentView>,
    temp: Option<&LocalPath>,
    recovery: Recovery,
) -> bool {
    match (transfer.temp_path, temp) {
        (Some(path), Some(components)) => if ownership::download_owns(transfer, target, components@) {
            recovery matches Recovery::ReopenDownload(due) && due.transfer == transfer && due.temp_path@ == path@
                && due.publishing == (transfer.status@ == "publishing"@)
        } else {
            recovery matches Recovery::UpdateDownload(update) && update@ == download_cut_off(
                transfer,
                TransferStatus::Failed,
                Some(path@),
                text::optional_text(transfer.temp_identity),
                Some("Interrupted transfer has an invalid temporary-file path; no file was removed"@),
            )
        },
        _ => if transfer.status@ == "publishing"@ {
            recovery matches Recovery::UpdateDownload(update) && update@ == download_cut_off(
                transfer,
                TransferStatus::Failed,
                None,
                None,
                Some("Publishing transfer has no durable temporary-file identity"@),
            )
        } else {
            recovery is Nothing
        },
    }
}

fn recover_upload(transfer: FileTransferStorageRecord) -> (recovery: Recovery)
    ensures
        upload_recovers(transfer, recovery),
{
    let owned = match &transfer.temp_path {
        Some(path) => if is_owned_upload_partial(&transfer, path.as_str()) {
            Some(path.clone())
        } else {
            None
        },
        None => None,
    };
    match owned {
        Some(partial) => {
            if same_text(transfer.status.as_str(), "publishing") {
                return Recovery::ReconcileUpload(UploadRecovery { transfer, partial });
            }
            let error = joined2(
                "The application exited before the upload completed; operation-owned remote partial may remain at ",
                partial.as_str(),
            );
            Recovery::FinishUpload(
                finish_upload(
                    &transfer,
                    TransferStatus::Partial,
                    Some(partial),
                    "not_attempted_after_application_exit",
                    None,
                    error,
                ),
            )
        },
        None => Recovery::FinishUpload(
            finish_upload(
                &transfer,
                TransferStatus::Failed,
                None,
                "not_attempted_after_application_exit",
                None,
                "The application exited before the upload created an owned remote partial".to_owned(),
            ),
        ),
    }
}

fn phase_text(transfer: &FileTransferStorageRecord) -> (phase: &str)
    ensures
        phase@ == phase_of(*transfer),
{
    match &transfer.operation_phase {
        Some(phase) => phase.as_str(),
        None => "queued",
    }
}

fn destination_may_stand(transfer: &FileTransferStorageRecord) -> (may: bool)
    ensures
        may == destination_may_exist(*transfer),
{
    if !same_text(phase_text(transfer), "copying") {
        return false;
    }
    match &transfer.source_fingerprint {
        Some(fingerprint) => persisted_relay_hash(Some(fingerprint.as_str())).is_none(),
        None => false,
    }
}

fn recover_remote(transfer: FileTransferStorageRecord) -> (recovery: Recovery)
    ensures
        remote_recovers(transfer, recovery),
{
    let published = same_text(transfer.direction.as_str(), "rename") && (same_text(
        phase_text(&transfer),
        "published_before_delete",
    ) || same_text(phase_text(&transfer), "delete_uncertain"));
    if published {
        return match transfer.connection_revision {
            Some(revision) => Recovery::CheckRename(RenameRecovery { transfer, revision }),
            None => Recovery::Refused("Interrupted rename has no durable connection revision".to_owned()),
        };
    }
    let owned = match &transfer.temp_path {
        Some(path) => if is_owned_remote_copy_partial(&transfer, path.as_str()) {
            Some(path.clone())
        } else {
            None
        },
        None => None,
    };
    let left = match owned {
        Some(partial) => Some(partial),
        None => if same_text(transfer.status.as_str(), "publishing") || destination_may_stand(&transfer) {
            Some(transfer.local_path.clone())
        } else {
            None
        },
    };
    match left {
        Some(path) => {
            let error = joined4(
                "The application exited during remote ",
                transfer.direction.as_str(),
                "; the operation-owned or published destination was preserved at ",
                path.as_str(),
            );
            Recovery::FinishRemote(
                finish_remote(
                    &transfer,
                    TransferStatus::Partial,
                    Some(error),
                    Some(path),
                    OperationOutcome::FailedWithPartialDestination,
                    phase_text(&transfer),
                ),
            )
        },
        None => {
            let error = joined3(
                "The application exited before remote ",
                transfer.direction.as_str(),
                " published a destination",
            );
            Recovery::FinishRemote(
                finish_remote(
                    &transfer,
                    TransferStatus::Failed,
                    Some(error),
                    None,
                    OperationOutcome::FailedBeforeCopy,
                    phase_text(&transfer),
                ),
            )
        },
    }
}

fn recover_download(transfer: FileTransferStorageRecord, target: &LocalPath, temp: Option<&LocalPath>) -> (recovery:
    Recovery)
    ensures
        download_recovers(transfer, target@, temp, recovery),
{
    let publishing = same_text(transfer.status.as_str(), "publishing");
    match (&transfer.temp_path, temp) {
        (Some(path), Some(components)) => {
            let temp_path = path.clone();
            if is_owned_temp_path(&transfer, target, components) {
                Recovery::ReopenDownload(DownloadRecovery { transfer, temp_path, publishing })
            } else {
                let identity = copy_optional(&transfer.temp_identity);
                Recovery::UpdateDownload(
                    finish_download(
                        &transfer,
                        TransferStatus::Failed,
                        Some(temp_path),
                        identity,
                        Some(
                            "Interrupted transfer has an invalid temporary-file path; no file was removed".to_owned(),
                        ),
                    ),
                )
            }
        },
        _ => {
            if publishing {
                Recovery::UpdateDownload(
                    finish_download(
                        &transfer,
                        TransferStatus::Failed,
                        None,
                        None,
                        Some("Publishing transfer has no durable temporary-file identity".to_owned()),
                    ),
                )
            } else {
                Recovery::Nothing
            }
        },
    }
}

/// Says what is to be done for a transfer that was cut off. `target` and `temp`
/// are the components of its local path and of its temporary file, where it has
/// one.
pub fn recover_interrupted_transfer(
    transfer: FileTransferStorageRecord,
    target: &LocalPath,
    temp: Option<&LocalPath>,
) -> (recovery: Recovery)
    requires
        transfer.temp_path is Some <==> temp is Some,
    ensures
        if transfer.direction@ == "upload"@ {
            upload_recovers(transfer, recovery)
        } else if transfer.direction@ == "copy"@ || transfer.direction@ == "rename"@ {
            remote_recovers(transfer, recovery)
        } else {
            download_recovers(transfer, target@, temp, recovery)
        },
{
    if same_text(transfer.direction.as_str(), "upload") {
        return recover_upload(transfer);
    }
    if same_text(transfer.direction.as_str(), "copy") || same_text(transfer.direction.as_str(), "rename") {
        return recover_remote(transfer);
    }
    recover_download(transfer, target, temp)
}

/// How an upload is written down whose publish was cut off.
pub open spec fn interrupted_publish(
    transfer: FileTransferStorageRecord,
    partial: Seq<char>,
    reply: Result<UploadPublishResolution, String>,
) -> UploadFinishView {
    match reply {
        Ok(resolution) => match resolution.state {
            UploadPublishState::PartialTarget => upload_cut_off(
                transfer,
                TransferStatus::Partial,
                Some(transfer.remote_path@),
                "not_applicable_after_close"@,
                Some("partial_target_unproven"@),
                "Interrupted upload publish left an unproven target: "@ + resolution.detail@,
            ),
            UploadPublishState::Unknown => upload_cut_off(
                transfer,
                TransferStatus::Partial,
                None,
                "not_applicable_after_close"@,
                Some("unknown"@),
                "Interrupted upload publish outcome is unknown: "@ + resolution.detail@,
            ),
            _ => upload_cut_off(
                transfer,
                TransferStatus::Partial,
                Some(partial),
                "not_applicable_after_close"@,
                Some("partial_source"@),
                "Interrupted upload publish left its operation-owned source partial: "@ + resolution.detail@,
            ),
        },
        Err(error) => upload_cut_off(
            transfer,
            TransferStatus::Partial,
            Some(partial),
            "not_applicable_after_close"@,
            Some("unknown"@),
            "Interrupted upload publish could not be reconciled safely: "@ + error@,
        ),
    }
}

impl UploadRecovery {
    /// Takes where the publish left the partial. A look at the files cannot
    /// prove that the target is the partial, so it never tells of a completed
    /// publish.
    pub fn reconciled(self, reply: Result<UploadPublishResolution, String>) -> (finish: UploadFinish)
        requires
            reply matches Ok(resolution) ==> resolution.state != UploadPublishState::Completed,
        ensures
            finish@ == interrupted_publish(self.transfer, self.partial@, reply),
    {
        match reply {
            Ok(resolution) => match resolution.state {
                UploadPublishState::PartialTarget => {
                    let error = joined2(
                        "Interrupted upload publish left an unproven target: ",
                        resolution.detail.as_str(),
                    );
                    let target = self.transfer.remote_path.clone();
                    finish_upload(
                        &self.transfer,
                        TransferStatus::Partial,
                        Some(target),
                        "not_applicable_after_close",
                        Some("partial_target_unproven".to_owned()),
                        error,
                    )
                },
                UploadPublishState::Unknown => {
                    let error = joined2(
                        "Interrupted upload publish outcome is unknown: ",
                        resolution.detail.as_str(),
                    );
                    finish_upload(
                        &self.transfer,
                        TransferStatus::Partial,
                        None,
                        "not_applicable_after_close",
                        Some("unknown".to_owned()),
                        error,
                    )
                },
                _ => {
                    let error = joined2(
                        "Interrupted upload publish left its operation-owned source partial: ",
                        resolution.detail.as_str(),
                    );
                    finish_upload(
                        &self.transfer,
                        TransferStatus::Partial,
                        Some(self.partial),
                        "not_applicable_after_close",
                        Some("partial_source".to_owned()),
                        error,
                    )
                },
            },
            Err(error) => {
                let message = joined2(
                    "Interrupted upload publish could not be reconciled safely: ",
                    error.as_str(),
                );
                finish_upload(
                    &self.transfer,
                    TransferStatus::Partial,
                    Some(self.partial),
                    "not_applicable_after_close",
                    Some("unknown".to_owned()),
                    message,
                )
            },
        }
    }
}

/// What was written down of source and destination holds the same content hash,
/// or the server made the copy and there is none.
pub open spec fn hashes_agree(transfer: FileTransferStorageRecord, server_side_copy: bool) -> bool {
    let source = fingerprint::optional_relay_hash(text::optional_text(transfer.source_fingerprint));
    let destination = fingerprint::optional_relay_hash(text::optional_text(transfer.destination_fingerprint));
    server_side_copy || (source is Some && source == destination)
}

/// A file is what was written down of it.
pub open spec fn is_as_written(
    observed: Result<RemoteFileFingerprint, String>,
    written: Option<Seq<char>>,
) -> bool {
    observed is Ok && written is Some && fingerprint::persisted_matches(written->0, observed->Ok_0@)
}

/// The file is known to be gone.
pub open spec fn is_gone(observed: Result<RemoteFileFingerprint, String>) -> bool {
    observed is Err && reconcile::tells_absence(observed->Err_0@)
}

/// The rename had been carried out, as far as the fingerprints tell: the source
/// is gone and the destination is what was written down of it.
pub open spec fn rename_looks_done(
    transfer: FileTransferStorageRecord,
    server_side_copy: bool,
    source: Result<RemoteFileFingerprint, String>,
    destination: Result<RemoteFileFingerprint, String>,
) -> bool {
    is_gone(source) && hashes_agree(transfer, server_side_copy) && is_as_written(
        destination,
        text::optional_text(transfer.destination_fingerprint),
    )
}

/// A rename that had been carried out.
pub open spec fn rename_completed(transfer: FileTransferStorageRecord) -> RemoteFinishView {
    remote_cut_off(
        transfer,
        TransferStatus::Completed,
        None,
        None,
        OperationOutcome::Completed,
        OperationPhase::Completed.text(),
    )
}

/// A rename whose source deletion is still open.
pub open spec fn rename_still_open(transfer: FileTransferStorageRecord, detail: Seq<char>) -> RemoteFinishView {
    remote_cut_off(
        transfer,
        TransferStatus::Partial,
        Some(detail),
        Some(transfer.local_path@),
        OperationOutcome::CopiedSourceDeleteFailed,
        OperationPhase::DeleteUncertain.text(),
    )
}

fn finish_completed_rename(transfer: &FileTransferStorageRecord) -> (finish: RemoteFinish)
    ensures
        finish@ == rename_completed(*transfer),
{
    finish_remote(
        transfer,
        TransferStatus::Completed,
        None,
        None,
        OperationOutcome::Completed,
        OperationPhase::Completed.as_str(),
    )
}

fn finish_open_rename(transfer: &FileTransferStorageRecord, detail: String) -> (finish: RemoteFinish)
    ensures
        finish@ == rename_still_open(*transfer, detail@),
{
    finish_remote(
        transfer,
        TransferStatus::Partial,
        Some(detail),
        Some(transfer.local_path.clone()),
        OperationOutcome::CopiedSourceDeleteFailed,
        OperationPhase::DeleteUncertain.as_str(),
    )
}

fn written_hashes_agree(transfer: &FileTransferStorageRecord, server_side_copy: bool) -> (agree: bool)
    ensures
        agree == hashes_agree(*transfer, server_side_copy),
{
    if server_side_copy {
        return true;
    }
    let source = match &transfer.source_fingerprint {
        Some(written) => persisted_relay_hash(Some(written.as_str())),
        None => None,
    };
    let destination = match &transfer.destination_fingerprint {
        Some(written) => persisted_relay_hash(Some(written.as_str())),
        None => None,
    };
    match (source, destination) {
        (Some(first), Some(second)) => same_text(first, second),
        _ => false,
    }
}

fn observed_as_written(observed: &Result<RemoteFileFingerprint, String>, written: &Option<String>) -> (matches: bool)
    ensures
        matches == is_as_written(*observed, text::optional_text(*written)),
{
    match (observed, written) {
        (Ok(fingerprint), Some(expected)) => persisted_remote_fingerprint_matches(
            expected.as_str(),
            fingerprint,
        ),
        _ => false,
    }
}

impl RenameRecovery {
    /// Takes what was found at source and destination, and whether the server
    /// makes the copies of this connection. A rename counts as completed only
    /// where its source is gone and its destination is what was written down;
    /// the content of a relayed copy has to be read back for that.
    pub fn observed(
        self,
        server_side_copy: bool,
        source: Result<RemoteFileFingerprint, String>,
        destination: Result<RemoteFileFingerprint, String>,
    ) -> (next: RenameRecoveryNext)
        ensures
            if rename_looks_done(self.transfer, server_side_copy, source, destination) {
                if server_side_copy {
                    next matches RenameRecoveryNext::Finish(finish) && finish@ == rename_completed(self.transfer)
                } else {
                    next matches RenameRecoveryNext::VerifyDestination(due) && due.transfer == self.transfer
                        && Some(due.expected_destination@) == text::optional_text(
                        self.transfer.destination_fingerprint,
                    )
                }
            } else {
                next matches RenameRecoveryNext::Finish(finish) && finish@ == rename_still_open(
                    self.transfer,
                    if hashes_agree(self.transfer, server_side_copy) && is_as_written(
                        source,
                        text::optional_text(self.transfer.source_fingerprint),
                    ) && is_as_written(
                        destination,
                        text::optional_text(self.transfer.destination_fingerprint),
                    ) {
                        "Rename copy was published before exit; source deletion requires explicit fingerprint-checked retry"@
                    } else {
                        "Interrupted rename fingerprints no longer match; source was not deleted"@
                    },
                )
            },
    {
        let agree = written_hashes_agree(&self.transfer, server_side_copy);
        let destination_matches = agree && observed_as_written(
            &destination,
            &self.transfer.destination_fingerprint,
        );
        let source_matches = agree && observed_as_written(&source, &self.transfer.source_fingerprint);
        let source_missing = match &source {
            Err(error) => error_tells_absence(error.as_str()),
            Ok(_) => false,
        };
        if source_missing && destination_matches {
            if server_side_copy {
                return RenameRecoveryNext::Finish(finish_completed_rename(&self.transfer));
            }
            let written = copy_optional(&self.transfer.destination_fingerprint);
            if let Some(expected_destination) = written {
                return RenameRecoveryNext::VerifyDestination(
                    RenameContentRecovery { transfer: self.transfer, expected_destination },
                );
            }
        }
        let detail = if source_matches && destination_matches {
            "Rename copy was published before exit; source deletion requires explicit fingerprint-checked retry".to_owned()
        } else {
            "Interrupted rename fingerprints no longer match; source was not deleted".to_owned()
        };
        RenameRecoveryNext::Finish(finish_open_rename(&self.transfer, detail))
    }
}

impl RenameContentRecovery {
    /// Takes the content of the destination.
    pub fn destination_verified(self, reply: Result<VerifiedRemoteContent, TransferFailure>) -> (finish: RemoteFinish)
        ensures
            finish@ == (match reply {
                Ok(verified) => if fingerprint::persisted_content_matches(
                    self.expected_destination@,
                    verified.fingerprint@,
                    verified.sha256@,
                ) {
                    rename_completed(self.transfer)
                } else {
                    rename_still_open(
                        self.transfer,
                        "Interrupted rename destination content no longer matches the durable copy; completion was refused"@,
                    )
                },
                Err(unread) => rename_still_open(
                    self.transfer,
                    "Interrupted rename destination content could not be verified; completion was refused: "@
                        + unread.message@,
                ),
            }),
    {
        match reply {
            Ok(verified) => {
                if persisted_verified_remote_content_matches(
                    self.expected_destination.as_str(),
                    &verified,
                ) {
                    finish_completed_rename(&self.transfer)
                } else {
                    finish_open_rename(
                        &self.transfer,
                        "Interrupted rename destination content no longer matches the durable copy; completion was refused".to_owned(),
                    )
                }
            },
            Err(unread) => {
                let detail = joined2(
                    "Interrupted rename destination content could not be verified; completion was refused: ",
                    unread.message.as_str(),
                );
                finish_open_rename(&self.transfer, detail)
            },
        }
    }
}

/// What is due in the directory of a download that was cut off.
#[derive(Debug)]
pub enum DownloadRepairStart {
    /// Look which files stand under the names of the target and of the
    /// temporary file.
    Inspect(DownloadInspection),
    /// Remove the temporary file.
    RemoveTemp(DownloadTempRemoval),
    /// Write down that nothing can be done.
    Finish(TransferUpdate),
}

/// Due: what stands under the names of the target and of the temporary file of a
/// download that was being published.
#[non_exhaustive]
#[derive(Debug)]
pub struct DownloadInspection {
    pub recovery: DownloadRecovery,
    pub expected: String,
}

/// Due: removing the temporary file of a download, where it is the expected one.
#[non_exhaustive]
#[derive(Debug)]
pub struct DownloadTempRemoval {
    pub recovery: DownloadRecovery,
    pub expected: String,
}

/// Due: carrying out a repair on the expected file.
#[non_exhaustive]
#[derive(Debug)]
pub struct DownloadRepair {
    pub recovery: DownloadRecovery,
    pub expected: String,
    pub repair: PublishRepair,
}

/// What follows the look at a download that was being published.
#[derive(Debug)]
pub enum DownloadRepairNext {
    /// Carry a repair out.
    Carry(DownloadRepair),
    /// Write down how the download ended.
    Finish(TransferUpdate),
}

/// What is to be done with a download that was being published.
#[derive(Clone, Copy, Debug, PartialEq, Eq, Structural)]
pub enum PublishRepair {
    /// The target is the download.
    Completed,
    /// The target is the download, and the temporary file is it too.
    RemoveTempThenCompleted,
    /// The temporary file is the download, and there is no target.
    Publish,
    /// The temporary file is the download, and the target is another file.
    RemoveTempThenFailed,
    /// The download is gone.
    Failed,
}

impl PublishRepair {
    /// The download is complete once the repair was made.
    pub open spec fn completes(self) -> bool {
        self is Completed || self is RemoveTempThenCompleted || self is Publish
    }

    /// Says whether the download is complete once the repair was made.
    pub fn is_complete(self) -> (complete: bool)
        ensures
            complete == self.completes(),
    {
        match self {
            PublishRepair::Completed => true,
            PublishRepair::RemoveTempThenCompleted => true,
            PublishRepair::Publish => true,
            PublishRepair::RemoveTempThenFailed => false,
            PublishRepair::Failed => false,
        }
    }
}

/// What is to be done with a download that was being published, by the files
/// that stand under the two names.
pub open spec fn repair_of(expected: Seq<char>, target: Option<Seq<char>>, temp: Option<Seq<char>>) -> Option<
    PublishRepair,
> {
    if target == Some(expected) {
        if temp == Some(expected) {
            Some(PublishRepair::RemoveTempThenCompleted)
        } else {
            Some(PublishRepair::Completed)
        }
    } else if temp == Some(expected) {
        if target is None {
            Some(PublishRepair::Publish)
        } else {
            Some(PublishRepair::RemoveTempThenFailed)
        }
    } else if target is Some && temp is None {
        None
    } else {
        Some(PublishRepair::Failed)
    }
}

fn is_identity(value: &Option<String>, expected: &str) -> (same: bool)
    ensures
        same == (text::optional_text(*value) == Some(expected@)),
{
    match value {
        Some(present) => same_text(present.as_str(), expected),
        None => false,
    }
}

/// Decides what is to be done with a download that was being published.
pub fn publish_repair(expected: &str, target: &Option<String>, temp: &Option<String>) -> (repair: Result<
    PublishRepair,
    String,
>)
    ensures
        match repair {
            Ok(found) => repair_of(expected@, text::optional_text(*target), text::optional_text(*temp)) == Some(
                found,
            ),
            Err(reason) => repair_of(expected@, text::optional_text(*target), text::optional_text(*temp)) is None
                && reason@
                == "Published destination identity does not match the download; existing file was left in place"@,
        },
{
    if is_identity(target, expected) {
        if is_identity(temp, expected) {
            Ok(PublishRepair::RemoveTempThenCompleted)
        } else {
            Ok(PublishRepair::Completed)
        }
    } else if is_identity(temp, expected) {
        if target.is_none() {
            Ok(PublishRepair::Publish)
        } else {
            Ok(PublishRepair::RemoveTempThenFailed)
        }
    } else if target.is_some() && temp.is_none() {
        Err(
            "Published destination identity does not match the download; existing file was left in place".to_owned(),
        )
    } else {
        Ok(PublishRepair::Failed)
    }
}

/// How a download is written down of which nothing can be said.
pub open spec fn not_reconciled(recovery: DownloadRecovery, error: Seq<char>) -> TransferUpdateView {
    download_cut_off(
        recovery.transfer,
        TransferStatus::Failed,
        Some(recovery.temp_path@),
        text::optional_text(recovery.transfer.temp_identity),
        Some("Interrupted transfer reconciliation failed safely: "@ + error),
    )
}

/// How a download is written down whose repair was carried out.
pub open spec fn repaired(recovery: DownloadRecovery, repair: PublishRepair) -> TransferUpdateView {
    if repair.completes() {
        download_cut_off(recovery.transfer, TransferStatus::Completed, None, None, None)
    } else {
        download_cut_off(
            recovery.transfer,
            TransferStatus::Failed,
            None,
            None,
            Some("The application exited before publishing the download"@),
        )
    }
}

fn finish_not_reconciled(recovery: DownloadRecovery, error: &str) -> (update: TransferUpdate)
    ensures
        update@ == not_reconciled(recovery, error@),
{
    let message = joined2("Interrupted transfer reconciliation failed safely: ", error);
    let identity = copy_optional(&recovery.transfer.temp_identity);
    finish_download(
        &recovery.transfer,
        TransferStatus::Failed,
        Some(recovery.temp_path),
        identity,
        Some(message),
    )
}

fn finish_repaired(recovery: DownloadRecovery, repair: PublishRepair) -> (update: TransferUpdate)
    ensures
        update@ == repaired(recovery, repair),
{
    if repair.is_complete() {
        finish_download(&recovery.transfer, TransferStatus::Completed, None, None, None)
    } else {
        finish_download(
            &recovery.transfer,
            TransferStatus::Failed,
            None,
            None,
            Some("The application exited before publishing the download".to_owned()),
        )
    }
}

impl DownloadRecovery {
    /// Takes whether the directory could be opened again.
    pub fn reopened(self, reply: Result<(), String>) -> (start: DownloadRepairStart)
        ensures
            match (reply, self.transfer.temp_identity) {
                (Err(error), _) => start matches DownloadRepairStart::Finish(update) && update@ == not_reconciled(
                    self,
                    error@,
                ),
                (Ok(_), Some(identity)) => if self.publishing {
                    start matches DownloadRepairStart::Inspect(due) && due.recovery == self && due.expected@
                        == identity@
                } else {
                    start matches DownloadRepairStart::RemoveTemp(due) && due.recovery == self && due.expected@
                        == identity@
                },
                (Ok(_), None) => start matches DownloadRepairStart::Finish(update) && update@ == not_reconciled(
                    self,
                    if self.publishing {
                        "Publishing transfer has no durable file identity"@
                    } else {
                        "Interrupted transfer has no durable temporary-file identity; no file was removed"@
                    },
                ),
            },
    {
        if let Err(error) = reply {
            return DownloadRepairStart::Finish(finish_not_reconciled(self, error.as_str()));
        }
        match copy_optional(&self.transfer.temp_identity) {
            Some(expected) => {
                if self.publishing {
                    DownloadRepairStart::Inspect(DownloadInspection { recovery: self, expected })
                } else {
                    DownloadRepairStart::RemoveTemp(DownloadTempRemoval { recovery: self, expected })
                }
            },
            None => {
                let reason = if self.publishing {
                    "Publishing transfer has no durable file identity"
                } else {
                    "Interrupted transfer has no durable temporary-file identity; no file was removed"
                };
                DownloadRepairStart::Finish(finish_not_reconciled(self, reason))
            },
        }
    }
}

impl DownloadTempRemoval {
    /// Takes whether the temporary file was removed. Nothing is written down
    /// where it was.
    pub fn removed(self, reply: Result<(), String>) -> (update: Option<TransferUpdate>)
        ensures
            match reply {
                Ok(_) => update is None,
                Err(error) => update matches Some(written) && written@ == not_reconciled(self.recovery, error@),
            },
    {
        match reply {
            Ok(_) => None,
            Err(error) => Some(finish_not_reconciled(self.recovery, error.as_str())),
        }
    }
}

/// A repair touches no file.
pub open spec fn needs_nothing(repair: PublishRepair) -> bool {
    repair is Completed || repair is Failed
}

/// What follows the look at the two files of a download that was being
/// published: at the target first, then at the temporary file.
pub open spec fn inspection_leads_to(
    inspection: DownloadInspection,
    target: EntryStat,
    temp: EntryStat,
    next: DownloadRepairNext,
) -> bool {
    match (anchored::owned_identity(target), anchored::owned_identity(temp)) {
        (Err(reason), _) => next matches DownloadRepairNext::Finish(update) && update@ == not_reconciled(
            inspection.recovery,
            reason,
        ),
        (Ok(_), Err(reason)) => next matches DownloadRepairNext::Finish(update) && update@ == not_reconciled(
            inspection.recovery,
            reason,
        ),
        (Ok(published), Ok(own)) => match repair_of(inspection.expected@, published, own) {
            None => next matches DownloadRepairNext::Finish(update) && update@ == not_reconciled(
                inspection.recovery,
                "Published destination identity does not match the download; existing file was left in place"@,
            ),
            Some(repair) => if needs_nothing(repair) {
                next matches DownloadRepairNext::Finish(update) && update@ == repaired(inspection.recovery, repair)
            } else {
                next matches DownloadRepairNext::Carry(due) && due.recovery == inspection.recovery && due.expected
                    == inspection.expected && due.repair == repair
            },
        },
    }
}

impl DownloadInspection {
    /// Takes what stands under the names of the target and of the temporary
    /// file.
    pub fn inspected(self, target: EntryStat, temp: EntryStat) -> (next: DownloadRepairNext)
        ensures
            inspection_leads_to(self, target, temp, next),
    {
        let published = match entry_identity(target) {
            Ok(found) => found,
            Err(reason) => {
                return DownloadRepairNext::Finish(finish_not_reconciled(self.recovery, reason.as_str()));
            },
        };
        let own = match entry_identity(temp) {
            Ok(found) => found,
            Err(reason) => {
                return DownloadRepairNext::Finish(finish_not_reconciled(self.recovery, reason.as_str()));
            },
        };
        match publish_repair(self.expected.as_str(), &published, &own) {
            Err(reason) => DownloadRepairNext::Finish(finish_not_reconciled(self.recovery, reason.as_str())),
            Ok(repair) => match repair {
                PublishRepair::Completed | PublishRepair::Failed => DownloadRepairNext::Finish(
                    finish_repaired(self.recovery, repair),
                ),
                _ => DownloadRepairNext::Carry(
                    DownloadRepair { recovery: self.recovery, expected: self.expected, repair },
                ),
            },
        }
    }
}

/// How a download is written down after its repair.
pub open spec fn repair_ends(due: DownloadRepair, reply: Result<(), String>) -> TransferUpdateView {
    match reply {
        Ok(_) => repaired(due.recovery, due.repair),
        Err(error) => not_reconciled(due.recovery, error@),
    }
}

impl DownloadRepair {
    /// Takes whether the repair was carried out.
    pub fn carried_out(self, reply: Result<(), String>) -> (update: TransferUpdate)
        ensures
            update@ == repair_ends(self, reply),
    {
        match reply {
            Ok(_) => finish_repaired(self.recovery, self.repair),
            Err(error) => finish_not_reconciled(self.recovery, error.as_str()),
        }
    }
}

/// A download that was being published is written down as completed exactly
/// where the target is the download, or where there is no target and the
/// temporary file is the download, which is published. It is written down as
/// failed otherwise. A file is removed only where the temporary file is the
/// download, and a target that is another file is left alone.
pub proof fn recovered_downloads_are_the_download(
    inspection: DownloadInspection,
    target: EntryStat,
    temp: EntryStat,
    published: Option<Seq<char>>,
    own: Option<Seq<char>>,
    next: DownloadRepairNext,
    written: TransferUpdateView,
)
    requires
        anchored::owned_identity(target) == Ok::<Option<Seq<char>>, Seq<char>>(published),
        anchored::owned_identity(temp) == Ok::<Option<Seq<char>>, Seq<char>>(own),
        inspection_leads_to(inspection, target, temp, next),
        match next {
            DownloadRepairNext::Finish(update) => written == update@,
            DownloadRepairNext::Carry(due) => written == repair_ends(due, Ok(())),
        },
    ensures
        written.status == TransferStatus::Completed <==> (published == Some(inspection.expected@) || (published is None
            && own == Some(inspection.expected@))),
        written.status == TransferStatus::Completed || written.status == TransferStatus::Failed,
        written.finished,
        next matches DownloadRepairNext::Carry(due) ==> own == Some(inspection.expected@) && due.expected@
            == inspection.expected@,
        published is None && own == Some(inspection.expected@) <==> (next matches DownloadRepairNext::Carry(due)
            && due.repair is Publish),
{
}

/// A repair removes a temporary file only where that is the download, publishes
/// only where nothing stands at the target, and calls a download complete only
/// where the download stands at the target or is published there.
pub proof fn repairs_touch_only_the_download(
    expected: Seq<char>,
    target: Option<Seq<char>>,
    temp: Option<Seq<char>>,
)
    ensures
        repair_of(expected, target, temp) matches Some(repair) ==> {
            &&& (repair is RemoveTempThenCompleted || repair is RemoveTempThenFailed || repair is Publish) ==> temp
                == Some(expected)
            &&& repair is Publish ==> target is None
            &&& repair.completes() ==> (target == Some(expected) || (repair is Publish && temp == Some(expected)))
        },
        repair_of(expected, target, temp) is None <==> (target is Some && target != Some(expected) && temp is None),
{
}

/// An upload that was cut off is never written down as completed, and what it
/// may have left behind is named: its own partial, or the target.
pub proof fn interrupted_uploads_are_never_completed(
    transfer: FileTransferStorageRecord,
    partial: Seq<char>,
    reply: Result<UploadPublishResolution, String>,
)
    ensures
        interrupted_publish(transfer, partial, reply).status == TransferStatus::Partial,
        interrupted_publish(transfer, partial, reply).partial_destination matches Some(left) ==> left == partial
            || left == transfer.remote_path@,
{
}

/// A relayed rename that was cut off behind the deletion of its source is
/// recognised as done from what it wrote down, and one whose source still stands
/// never is: its destination counts only where it has the fingerprint and the
/// content that were written down.
pub proof fn finished_renames_are_recognised(
    transfer: FileTransferStorageRecord,
    source: FingerprintView,
    destination: FingerprintView,
    sha256: Seq<char>,
    source_now: Result<RemoteFileFingerprint, String>,
    destination_now: Result<RemoteFileFingerprint, String>,
    content: Seq<char>,
)
    requires
        fingerprint::is_digest_text(sha256),
        text::optional_text(transfer.source_fingerprint) == Some(fingerprint::durable(source, sha256)),
        text::optional_text(transfer.destination_fingerprint) == Some(fingerprint::durable(destination, sha256)),
    ensures
        rename_looks_done(transfer, false, source_now, destination_now) <==> (is_gone(source_now)
            && destination_now is Ok && destination_now->Ok_0@ == destination),
        destination_now is Ok ==> (fingerprint::persisted_content_matches(
            fingerprint::durable(destination, sha256),
            destination_now->Ok_0@,
            content,
        ) <==> (destination_now->Ok_0@ == destination && content == sha256)),
{
    fingerprint::durable_text_is_recognised(source, sha256);
    fingerprint::durable_text_is_recognised(destination, sha256);
    if destination_now is Ok {
        let observed = destination_now->Ok_0@;
        if fingerprint::persisted_matches(fingerprint::durable(destination, sha256), observed) {
            fingerprint::durable_text_names_one_content(destination, sha256, observed, sha256);
        }
        if fingerprint::persisted_content_matches(
            fingerprint::durable(destination, sha256),
            observed,
            content,
        ) {
            fingerprint::durable_text_names_one_content(destination, sha256, observed, content);
        }
    }
}

/// A copy or rename that was cut off before it deleted a source is written down
/// with what it may have left: its own partial; or, where it has none, its
/// destination, if it was being published or was copied on the server. It is
/// written down as failed before the copy only where neither may be left.
pub proof fn cut_off_copies_name_what_they_left(transfer: FileTransferStorageRecord, recovery: Recovery)
    requires
        transfer.direction@ == "copy"@ || transfer.direction@ == "rename"@,
        transfer.direction@ == "rename"@ ==> (transfer.operation_phase matches Some(phase) ==> phase@
            != "published_before_delete"@ && phase@ != "delete_uncertain"@),
        remote_recovers(transfer, recovery),
    ensures
        recovery is FinishRemote,
        ({
            let finish = recovery->FinishRemote_0;
            let owned = transfer.temp_path is Some && ownership::remote_copy_owns(transfer, transfer.temp_path->0@);
            let copied = (transfer.operation_phase matches Some(phase) && phase@ == "copying"@) && (
            transfer.source_fingerprint matches Some(source) && fingerprint::relay_hash(source@) is None);
            let publishing = transfer.status@ == "publishing"@;
            &&& owned ==> (finish.partial_destination matches Some(left) && left@ == transfer.temp_path->0@)
            &&& !owned && (publishing || copied) ==> (finish.partial_destination matches Some(left) && left@
                == transfer.local_path@)
            &&& owned || publishing || copied ==> finish.status == TransferStatus::Partial
                && finish.operation_outcome == OperationOutcome::FailedWithPartialDestination
            &&& !owned && !publishing && !copied ==> finish.status == TransferStatus::Failed
                && finish.operation_outcome == OperationOutcome::FailedBeforeCopy && finish.partial_destination is None
            &&& finish.bytes_transferred == transfer.bytes_transferred
            &&& finish.total_bytes == transfer.total_bytes
            &&& finish.error is Some
            &&& finish.partial_destination matches Some(left) ==> text::has_suffix(finish.error->0@, left@)
            &&& transfer.operation_phase matches Some(phase) ==> finish.operation_phase@ == phase@
            &&& transfer.operation_phase is None ==> finish.operation_phase@ == "queued"@
            &&& text::optional_text(finish.source_fingerprint) == text::optional_text(transfer.source_fingerprint)
            &&& text::optional_text(finish.destination_fingerprint) == text::optional_text(
                transfer.destination_fingerprint,
            )
        }),
{
    reveal_strlit("queued");
    reveal_strlit("copying");
    reveal_strlit("published_before_delete");
    reveal_strlit("delete_uncertain");
    assert("queued"@.len() == 6 && "copying"@.len() == 7);
    assert("published_before_delete"@.len() == 23 && "delete_uncertain"@.len() == 16);
    let finish = recovery->FinishRemote_0;
    if let Some(left) = finish.partial_destination {
        let told = finish.error->0@;
        assert(told.subrange(told.len() - left@.len(), told.len() as int) =~= left@);
    }
}

/// A rename whose destination stood when it was cut off is looked at again, under
/// the connection that it was made with, and is refused where that is not known.
pub proof fn published_renames_are_looked_at_again(transfer: FileTransferStorageRecord, recovery: Recovery)
    requires
        transfer.direction@ == RemoteOperation::Rename.text(),
        transfer.operation_phase matches Some(phase) && (phase@ == OperationPhase::PublishedBeforeDelete.text() || phase@
            == OperationPhase::DeleteUncertain.text()),
        remote_recovers(transfer, recovery),
    ensures
        transfer.connection_revision matches Some(revision) ==> recovery is CheckRename
            && recovery->CheckRename_0.transfer == transfer && recovery->CheckRename_0.revision == revision,
        transfer.connection_revision is None ==> recovery is Refused && recovery->Refused_0@
            == "Interrupted rename has no durable connection revision"@,
{
}

/// An upload that was cut off names its own partial: it is looked for again where
/// it was being published, and is left in place otherwise. An upload without a
/// partial of its own failed and names none.
pub proof fn cut_off_uploads_name_their_partial(transfer: FileTransferStorageRecord, recovery: Recovery)
    requires
        upload_recovers(transfer, recovery),
    ensures
        ({
            let owned = transfer.temp_path is Some && ownership::upload_owns(transfer, transfer.temp_path->0@);
            let publishing = transfer.status@ == TransferStatus::Publishing.text();
            &&& owned && publishing ==> recovery is ReconcileUpload && recovery->ReconcileUpload_0.transfer == transfer
                && recovery->ReconcileUpload_0.partial@ == transfer.temp_path->0@
            &&& !(owned && publishing) ==> recovery is FinishUpload && {
                let finish = recovery->FinishUpload_0;
                &&& finish.status == (if owned {
                    TransferStatus::Partial
                } else {
                    TransferStatus::Failed
                })
                &&& owned ==> (finish.partial_destination matches Some(left) && left@ == transfer.temp_path->0@)
                &&& !owned ==> finish.partial_destination is None
                &&& finish.bytes_transferred == transfer.bytes_transferred
                &&& finish.total_bytes == transfer.total_bytes
                &&& finish.abort_outcome matches Some(outcome) && outcome@ == "not_attempted_after_application_exit"@
                &&& finish.publish_outcome is None
                &&& finish.error is Some
                &&& owned ==> text::has_suffix(finish.error->0@, transfer.temp_path->0@)
            }
        }),
{
    if recovery is FinishUpload && recovery->FinishUpload_0.partial_destination is Some {
        let told = recovery->FinishUpload_0.error->0@;
        let left = transfer.temp_path->0@;
        assert(told.subrange(told.len() - left.len(), told.len() as int) =~= left);
    }
}

/// What a running upload wrote down lets its recovery name the partial that it
/// left: a record that holds the update of an upload names the partial that was
/// made for it as the upload's own.
pub proof fn written_uploads_are_recovered_by_their_partial(
    transfer: FileTransferStorageRecord,
    job: UploadJob,
    status: TransferStatus,
    bytes: i64,
    update: TransferUpdate,
    unique: Seq<char>,
    recovery: Recovery,
)
    requires
        ownership::is_identifier(unique),
        forall|i: int| 0 <= i < transfer.id@.len() ==> transfer.id@[i] != '/',
        job.partial_relative@ == ownership::sibling(
            transfer.remote_path@,
            ".dbx-upload-"@ + transfer.id@ + "-"@ + unique + ".part"@,
        ),
        update@ == upload::upload_update(status, job, bytes),
        transfer.direction@ == "upload"@,
        text::optional_text(transfer.temp_path) == text::optional_text(update.temp_path),
        transfer.status@ == update.status.text(),
        upload_recovers(transfer, recovery),
    ensures
        status == TransferStatus::Publishing ==> recovery is ReconcileUpload
            && recovery->ReconcileUpload_0.partial@ == job.partial_relative@,
        status == TransferStatus::Running ==> recovery is FinishUpload && recovery->FinishUpload_0.status
            == TransferStatus::Partial && (recovery->FinishUpload_0.partial_destination matches Some(left) && left@
            == job.partial_relative@),
{
    upload::upload_updates_name_the_partial(update, status, job, bytes);
    ownership::transfers_own_the_partials_they_made(transfer, unique);
    failure::statuses_are_told_apart(status, TransferStatus::Publishing);
    cut_off_uploads_name_their_partial(transfer, recovery);
}

/// What a running copy or rename wrote down lets its recovery name the partial
/// that it left: a record that holds the update names it as the operation's own.
pub proof fn written_copies_are_recovered_by_their_partial(
    transfer: FileTransferStorageRecord,
    bytes: i64,
    total: i64,
    partial: Seq<char>,
    source: Seq<char>,
    update: PhaseUpdate,
    unique: Seq<char>,
    recovery: Recovery,
)
    requires
        ownership::is_identifier(unique),
        forall|i: int| 0 <= i < transfer.id@.len() ==> transfer.id@[i] != '/',
        partial == ownership::sibling(
            transfer.local_path@,
            ".dbx-copy-"@ + transfer.id@ + "-"@ + unique + ".part"@,
        ),
        update@ == remote::copying_update(bytes, total, Some(partial), source),
        transfer.direction@ == "copy"@ || transfer.direction@ == "rename"@,
        text::optional_text(transfer.temp_path) == text::optional_text(update.partial_path),
        transfer.status@ == update.status.text(),
        transfer.operation_phase matches Some(phase) && phase@ == update.phase.text(),
        remote_recovers(transfer, recovery),
    ensures
        recovery is FinishRemote && recovery->FinishRemote_0.status == TransferStatus::Partial
            && recovery->FinishRemote_0.operation_outcome == OperationOutcome::FailedWithPartialDestination && (
        recovery->FinishRemote_0.partial_destination matches Some(left) && left@ == partial),
{
    remote::running_copies_name_their_partial(update, bytes, total, Some(partial), source);
    ownership::transfers_own_the_partials_they_made(transfer, unique);
    failure::phases_are_told_apart(OperationPhase::Copying, OperationPhase::PublishedBeforeDelete);
    failure::phases_are_told_apart(OperationPhase::Copying, OperationPhase::DeleteUncertain);
    cut_off_copies_name_what_they_left(transfer, recovery);
}

/// A download that was cut off is taken up again exactly where its temporary file
/// is its own. A foreign one is left alone and stays written down; and where there
/// is none, nothing is done unless it was being published, which then failed.
pub proof fn only_own_downloads_are_taken_up(
    transfer: FileTransferStorageRecord,
    target: Seq<local_path::ComponentView>,
    temp: Option<&LocalPath>,
    recovery: Recovery,
)
    requires
        transfer.temp_path is Some <==> temp is Some,
        download_recovers(transfer, target, temp, recovery),
    ensures
        recovery is ReopenDownload <==> (temp is Some && ownership::download_owns(transfer, target, temp->0@)),
        recovery matches Recovery::ReopenDownload(due) ==> due.transfer == transfer && due.temp_path@
            == transfer.temp_path->0@ && due.publishing == (transfer.status@ == TransferStatus::Publishing.text()),
        temp is None && transfer.status@ != TransferStatus::Publishing.text() ==> recovery is Nothing,
        temp is None && transfer.status@ == TransferStatus::Publishing.text() ==> recovery is UpdateDownload
            && recovery->UpdateDownload_0.temp_path is None && recovery->UpdateDownload_0.temp_identity is None,
        temp is Some && recovery !is ReopenDownload ==> recovery is UpdateDownload && (
        recovery->UpdateDownload_0.temp_path matches Some(path) && path@ == transfer.temp_path->0@) && text::optional_text(
            recovery->UpdateDownload_0.temp_identity,
        ) == text::optional_text(transfer.temp_identity),
        recovery matches Recovery::UpdateDownload(update) ==> update.status == TransferStatus::Failed
            && update.bytes_transferred == transfer.bytes_transferred && update.total_bytes == transfer.total_bytes
            && update.error is Some && update.finished,
{
}

/// How the publish of an upload is written down that was cut off: what was found
/// is named, and nothing where nothing is known.
pub proof fn cut_off_publishes_name_what_was_found(
    transfer: FileTransferStorageRecord,
    partial: Seq<char>,
    reply: Result<UploadPublishResolution, String>,
    finish: UploadFinish,
)
    requires
        reply matches Ok(resolution) ==> resolution.state != UploadPublishState::Completed,
        finish@ == interrupted_publish(transfer, partial, reply),
    ensures
        finish.status == TransferStatus::Partial,
        finish.bytes_transferred == transfer.bytes_transferred,
        finish.total_bytes == transfer.total_bytes,
        finish.abort_outcome matches Some(outcome) && outcome@ == "not_applicable_after_close"@,
        reply matches Ok(resolution) ==> {
            &&& resolution.state == UploadPublishState::PartialTarget ==> (finish.partial_destination matches Some(left)
                && left@ == transfer.remote_path@) && finish.publish_outcome is Some && finish.publish_outcome->0@
                == "partial_target_unproven"@
            &&& resolution.state == UploadPublishState::PartialSource ==> (finish.partial_destination matches Some(left)
                && left@ == partial) && finish.publish_outcome is Some && finish.publish_outcome->0@
                == "partial_source"@
            &&& resolution.state == UploadPublishState::Unknown ==> finish.partial_destination is None
                && finish.publish_outcome is Some && finish.publish_outcome->0@ == "unknown"@
            &&& finish.error is Some && text::has_suffix(finish.error->0@, resolution.detail@)
        },
        reply matches Err(error) ==> (finish.partial_destination matches Some(left) && left@ == partial)
            && finish.publish_outcome is Some && finish.publish_outcome->0@ == "unknown"@ && finish.error is Some
            && text::has_suffix(finish.error->0@, error@),
{
    let told = finish.error->0@;
    match reply {
        Ok(resolution) => {
            let tail = resolution.detail@;
            assert(told.subrange(told.len() - tail.len(), told.len() as int) =~= tail);
        },
        Err(error) => {
            let tail = error@;
            assert(told.subrange(told.len() - tail.len(), told.len() as int) =~= tail);
        },
    }
}

/// A rename that was carried out is written down as completed, with what was moved
/// and known, and names nothing that is left. One whose source deletion is open
/// names its destination, and can be retried.
pub proof fn recovered_renames_are_completed_or_retried(
    transfer: FileTransferStorageRecord,
    detail: Seq<char>,
    finish: RemoteFinish,
    later: FileTransferStorageRecord,
)
    ensures
        finish@ == rename_completed(transfer) ==> finish.status == TransferStatus::Completed && finish.error is None
            && finish.partial_destination is None && finish.operation_outcome == OperationOutcome::Completed
            && finish.operation_phase@ == OperationPhase::Completed.text(),
        finish@ == rename_still_open(transfer, detail) ==> finish.status == TransferStatus::Partial && (
        finish.error matches Some(told) && told@ == detail) && (finish.partial_destination matches Some(left) && left@
            == transfer.local_path@) && finish.operation_outcome == OperationOutcome::CopiedSourceDeleteFailed
            && finish.operation_phase@ == OperationPhase::DeleteUncertain.text(),
        finish@ == rename_completed(transfer) || finish@ == rename_still_open(transfer, detail) ==> {
            &&& finish.bytes_transferred == transfer.bytes_transferred
            &&& finish.total_bytes == transfer.total_bytes
            &&& text::optional_text(finish.source_fingerprint) == text::optional_text(transfer.source_fingerprint)
            &&& text::optional_text(finish.destination_fingerprint) == text::optional_text(
                transfer.destination_fingerprint,
            )
        },
        finish@ == rename_still_open(transfer, detail) && later.direction@ == "rename"@ && later.status@
            == finish.status.text() && (later.operation_outcome matches Some(outcome) && outcome@
            == finish.operation_outcome.text()) && (later.operation_phase matches Some(phase) && phase@
            == finish.operation_phase@) ==> retry::is_retryable(later),
{
    if finish@ == rename_still_open(transfer, detail) {
        assert(finish@.operation_phase == OperationPhase::DeleteUncertain.text());
        assert(finish@.operation_outcome == OperationOutcome::CopiedSourceDeleteFailed);
        assert(finish@.status == TransferStatus::Partial);
    }
}

/// A rename looks carried out only where its source is known to be gone and its
/// destination was seen with what was written down of it. A relayed one needs in
/// addition that one content hash was written down for both files.
pub proof fn renames_look_done_only_without_a_source(
    transfer: FileTransferStorageRecord,
    server_side_copy: bool,
    source: Result<RemoteFileFingerprint, String>,
    destination: Result<RemoteFileFingerprint, String>,
)
    requires
        rename_looks_done(transfer, server_side_copy, source, destination),
    ensures
        source matches Err(error) && text::occurs_in(error@, "no longer exists"@),
        destination is Ok,
        transfer.destination_fingerprint matches Some(written) && fingerprint::persisted_matches(
            written@,
            destination->Ok_0@,
        ),
        !server_side_copy ==> transfer.source_fingerprint is Some && fingerprint::relay_hash(
            transfer.source_fingerprint->0@,
        ) is Some && fingerprint::relay_hash(transfer.source_fingerprint->0@) == fingerprint::relay_hash(
            transfer.destination_fingerprint->0@,
        ),
{
}

/// A rename on the server looks carried out wherever its source is gone and its
/// destination is as it was written down.
pub proof fn finished_server_renames_look_done(
    transfer: FileTransferStorageRecord,
    source: Result<RemoteFileFingerprint, String>,
    destination: Result<RemoteFileFingerprint, String>,
)
    requires
        source matches Err(error) && text::occurs_in(error@, "no longer exists"@),
        destination is Ok,
        transfer.destination_fingerprint matches Some(written) && fingerprint::persisted_matches(
            written@,
            destination->Ok_0@,
        ),
    ensures
        rename_looks_done(transfer, true, source, destination),
{
}

/// A download that was recovered is written down with what was moved. One that is
/// complete has nothing left to look for; one that could not be dealt with keeps
/// its temporary file, so that it can be looked for again.
pub proof fn recovered_downloads_are_written_down(
    recovery: DownloadRecovery,
    error: Seq<char>,
    repair: PublishRepair,
    update: TransferUpdate,
)
    ensures
        update@ == not_reconciled(recovery, error) ==> update.status == TransferStatus::Failed && (
        update.temp_path matches Some(path) && path@ == recovery.temp_path@) && text::optional_text(
            update.temp_identity,
        ) == text::optional_text(recovery.transfer.temp_identity) && (update.error matches Some(told) && told@
            == "Interrupted transfer reconciliation failed safely: "@ + error),
        update@ == repaired(recovery, repair) ==> update.temp_path is None && update.temp_identity is None && (
        update.status == TransferStatus::Completed <==> (repair is Completed || repair is RemoveTempThenCompleted
            || repair is Publish)) && (update.status == TransferStatus::Completed || update.status
            == TransferStatus::Failed) && (update.error is None <==> update.status == TransferStatus::Completed),
        update@ == not_reconciled(recovery, error) || update@ == repaired(recovery, repair) ==> update.finished
            && update.bytes_transferred == recovery.transfer.bytes_transferred && update.total_bytes
            == recovery.transfer.total_bytes,
{
}

/// What stands under the two names of a download decides alone what is done with
/// it: the download under the target's name, under its own, under both, or under
/// neither.
pub proof fn repairs_follow_what_stands(expected: Seq<char>, target: Option<Seq<char>>, temp: Option<Seq<char>>)
    ensures
        target == Some(expected) && temp == Some(expected) ==> repair_of(expected, target, temp) == Some(
            PublishRepair::RemoveTempThenCompleted,
        ),
        target == Some(expected) && temp != Some(expected) ==> repair_of(expected, target, temp) == Some(
            PublishRepair::Completed,
        ),
        target is None && temp == Some(expected) ==> repair_of(expected, target, temp) == Some(PublishRepair::Publish),
        target is Some && target != Some(expected) && temp == Some(expected) ==> repair_of(expected, target, temp)
            == Some(PublishRepair::RemoveTempThenFailed),
        target is None && temp != Some(expected) ==> repair_of(expected, target, temp) == Some(PublishRepair::Failed),
{
}

/// A download of which one of the two names cannot be read is left alone, and so
/// is what stands there. A repair that could not be carried out is written down as
/// failed, with the temporary file that is still to be looked for.
pub proof fn unclear_downloads_are_left_alone(
    inspection: DownloadInspection,
    target: EntryStat,
    temp: EntryStat,
    next: DownloadRepairNext,
    due: DownloadRepair,
    error: String,
    update: TransferUpdate,
)
    requires
        inspection_leads_to(inspection, target, temp, next),
        update@ == repair_ends(due, Err(error)),
    ensures
        target is Symlink || target is NotFile || target is Failed || (target matches EntryStat::File(Err(_)))
            || temp is Symlink || temp is NotFile || temp is Failed || (temp matches EntryStat::File(Err(_))) ==> (
        next matches DownloadRepairNext::Finish(written) && written.status == TransferStatus::Failed && (
        written.temp_path matches Some(path) && path@ == inspection.recovery.temp_path@)),
        next matches DownloadRepairNext::Carry(carried) ==> carried.recovery == inspection.recovery
            && carried.expected@ == inspection.expected@ && !(carried.repair is Completed) && !(carried.repair is Failed),
        update.status == TransferStatus::Failed && (update.temp_path matches Some(path) && path@
            == due.recovery.temp_path@),
{
}

/// What a crash cut off is told in words: what may be left, and where.
pub proof fn cut_off_transfers_are_told_in_words(transfer: FileTransferStorageRecord, recovery: Recovery)
    ensures
        upload_recovers(transfer, recovery) && recovery is FinishUpload ==> recovery->FinishUpload_0.error is Some
            && recovery->FinishUpload_0.error->0@ == (if recovery->FinishUpload_0.partial_destination is Some {
            "The application exited before the upload completed; operation-owned remote partial may remain at "@
                + transfer.temp_path->0@
        } else {
            "The application exited before the upload created an owned remote partial"@
        }),
        remote_recovers(transfer, recovery) && recovery is FinishRemote ==> recovery->FinishRemote_0.error is Some
            && recovery->FinishRemote_0.error->0@ == (match recovery->FinishRemote_0.partial_destination {
            Some(left) => "The application exited during remote "@ + transfer.direction@
                + "; the operation-owned or published destination was preserved at "@ + left@,
            None => "The application exited before remote "@ + transfer.direction@ + " published a destination"@,
        }),
        remote_recovers(transfer, recovery) && recovery is Refused ==> recovery->Refused_0@
            == "Interrupted rename has no durable connection revision"@,
{
    if remote_recovers(transfer, recovery) && recovery is FinishRemote {
        let finish = recovery->FinishRemote_0;
        assert(finish@.partial_destination == text::optional_text(finish.partial_destination));
        assert(finish@.error == text::optional_text(finish.error));
    }
}

/// A download that a crash cut off is told in words why it is not completed.
pub proof fn cut_off_downloads_are_told_in_words(
    transfer: FileTransferStorageRecord,
    target: Seq<local_path::ComponentView>,
    temp: Option<&LocalPath>,
    recovery: Recovery,
    reopened: DownloadRecovery,
    repair: PublishRepair,
    update: TransferUpdate,
)
    requires
        transfer.temp_path is Some <==> temp is Some,
        download_recovers(transfer, target, temp, recovery),
    ensures
        recovery is UpdateDownload ==> recovery->UpdateDownload_0.error is Some
            && recovery->UpdateDownload_0.error->0@ == (if temp is Some {
            "Interrupted transfer has an invalid temporary-file path; no file was removed"@
        } else {
            "Publishing transfer has no durable temporary-file identity"@
        }),
        update@ == repaired(reopened, repair) && update.error is Some ==> update.error->0@
            == "The application exited before publishing the download"@,
{
}

/// A download whose destination is another file is left as it is, and told so.
pub proof fn foreign_destinations_are_told_in_words(
    inspection: DownloadInspection,
    target: EntryStat,
    temp: EntryStat,
    next: DownloadRepairNext,
)
    requires
        inspection_leads_to(inspection, target, temp, next),
    ensures
        anchored::owned_identity(target) matches Err(reason) ==> (next matches DownloadRepairNext::Finish(update)
            && update.error is Some && update.error->0@ == "Interrupted transfer reconciliation failed safely: "@
            + reason),
        anchored::owned_identity(target) is Ok ==> (anchored::owned_identity(temp) matches Err(reason) ==> (
        next matches DownloadRepairNext::Finish(update) && update.error is Some && update.error->0@
            == "Interrupted transfer reconciliation failed safely: "@ + reason)),
        anchored::owned_identity(target) is Ok && anchored::owned_identity(temp) is Ok && repair_of(
            inspection.expected@,
            anchored::owned_identity(target)->Ok_0,
            anchored::owned_identity(temp)->Ok_0,
        ) is None ==> (next matches DownloadRepairNext::Finish(update) && update.error is Some && update.error->0@
            == "Interrupted transfer reconciliation failed safely: "@
            + "Published destination identity does not match the download; existing file was left in place"@),
{
}

/// A publish that a crash cut off is told in words, with what was found of it.
pub proof fn cut_off_publishes_are_told_in_words(
    transfer: FileTransferStorageRecord,
    partial: Seq<char>,
    reply: Result<UploadPublishResolution, String>,
)
    ensures
        interrupted_publish(transfer, partial, reply).error == Some(
            match reply {
                Ok(resolution) => if resolution.state == UploadPublishState::PartialTarget {
                    "Interrupted upload publish left an unproven target: "@ + resolution.detail@
                } else if resolution.state == UploadPublishState::Unknown {
                    "Interrupted upload publish outcome is unknown: "@ + resolution.detail@
                } else {
                    "Interrupted upload publish left its operation-owned source partial: "@ + resolution.detail@
                },
                Err(error) => "Interrupted upload publish could not be reconciled safely: "@ + error@,
            },
        ),
{
}

} // verus!
