use file_transfer::anchored::EntryStat;
use file_transfer::failure::{OperationOutcome, TransferStatus};
use file_transfer::fingerprint::{RemoteFileFingerprint, VerifiedRemoteContent};
use file_transfer::local_path::{LocalPath, PathComponent};
use file_transfer::ownership::is_owned_upload_partial;
use file_transfer::publish::{UploadPublishResolution, UploadPublishState};
use file_transfer::record::FileTransferStorageRecord;
use file_transfer::recovery::{
    publish_repair, recover_interrupted_transfer, DownloadInspection, DownloadRecovery, DownloadRepairNext,
    DownloadRepairStart, PublishRepair, Recovery, RenameRecoveryNext,
};
use file_transfer::retry::{
    check_rename_retry, retry_file_rename_source_delete, RetryProbeNext, RetryRoute, RetryServerNext,
};

fn local(path: &str) -> LocalPath {
    let mut components = vec![PathComponent::RootDir];
    components.extend(path.split('/').skip(1).map(|name| PathComponent::Normal(name.to_string())));
    LocalPath { absolute: true, components }
}

fn record(id: &str, direction: &str, status: &str) -> FileTransferStorageRecord {
    FileTransferStorageRecord {
        id: id.to_string(),
        connection_id: "connection-1".to_string(),
        direction: direction.to_string(),
        status: status.to_string(),
        remote_path: "report.csv".to_string(),
        local_path: "/tmp/report.csv".to_string(),
        local_directory_identity: "identity".to_string(),
        connection_revision: Some(1),
        bytes_transferred: 11,
        total_bytes: Some(20),
        temp_path: None,
        temp_identity: None,
        source_fingerprint: None,
        destination_fingerprint: None,
        operation_outcome: None,
        operation_phase: None,
    }
}

fn recover(transfer: FileTransferStorageRecord) -> Recovery {
    let target = local(&transfer.local_path);
    let temp = transfer.temp_path.as_deref().map(local);
    recover_interrupted_transfer(transfer, &target, temp.as_ref())
}

fn download(id: &str, status: &str, temp: &str, identity: Option<&str>) -> FileTransferStorageRecord {
    let mut transfer = record(id, "download", status);
    transfer.temp_path = Some(temp.to_string());
    transfer.temp_identity = identity.map(str::to_string);
    transfer
}

fn reopened(transfer: FileTransferStorageRecord) -> DownloadRecovery {
    match recover(transfer) {
        Recovery::ReopenDownload(recovery) => recovery,
        other => panic!("{other:?}"),
    }
}

fn inspection(transfer: FileTransferStorageRecord) -> DownloadInspection {
    match reopened(transfer).reopened(Ok(())) {
        DownloadRepairStart::Inspect(due) => due,
        other => panic!("{other:?}"),
    }
}

fn present(identity: &str) -> EntryStat {
    EntryStat::File(Ok(identity.to_string()))
}

fn file(size: u64) -> RemoteFileFingerprint {
    RemoteFileFingerprint { size, modified: "m".to_string(), etag: None, version: None }
}

fn content(size: u64) -> VerifiedRemoteContent {
    VerifiedRemoteContent { fingerprint: file(size), sha256: "ab".repeat(32) }
}

fn rename(server_side: bool) -> FileTransferStorageRecord {
    let mut transfer = record("rename", "rename", "partial");
    transfer.local_path = "destination.csv".to_string();
    transfer.operation_phase = Some("delete_uncertain".to_string());
    transfer.operation_outcome = Some("copied_source_delete_failed".to_string());
    let durable = if server_side { file(3).encode() } else { content(3).durable_fingerprint() };
    transfer.source_fingerprint = Some(durable.clone());
    transfer.destination_fingerprint = Some(durable);
    transfer
}

#[test]
fn upload_crash_recovery_reports_only_an_owned_remote_partial() {
    let owned_partial = "reports/.dbx-upload-upload-crash-random.part";
    let upload = |temp: &str| {
        let mut transfer = record("upload-crash", "upload", "running");
        transfer.remote_path = "reports/final.csv".to_string();
        transfer.temp_path = Some(temp.to_string());
        transfer.temp_identity = Some("source-fingerprint".to_string());
        transfer
    };
    let recovered = match recover(upload(owned_partial)) {
        Recovery::FinishUpload(finish) => finish,
        other => panic!("{other:?}"),
    };
    assert_eq!(recovered.status.as_str(), "partial");
    assert_eq!(recovered.partial_destination.as_deref(), Some(owned_partial));
    assert_eq!(recovered.abort_outcome.as_deref(), Some("not_attempted_after_application_exit"));
    assert!(recovered.error.as_deref().unwrap().contains(owned_partial));

    let non_owned = upload("reports/.dbx-upload-someone-else-random.part");
    assert!(!is_owned_upload_partial(&non_owned, non_owned.temp_path.as_deref().unwrap()));
    match recover(non_owned) {
        Recovery::FinishUpload(finish) => {
            assert_eq!(finish.status, TransferStatus::Failed);
            assert_eq!(finish.partial_destination, None);
        }
        other => panic!("{other:?}"),
    }
}

#[test]
fn interrupted_publishes_of_uploads_are_looked_at() {
    let upload = || {
        let mut transfer = record("u", "upload", "publishing");
        transfer.remote_path = "reports/final.csv".to_string();
        transfer.temp_path = Some("reports/.dbx-upload-u-random.part".to_string());
        match recover(transfer) {
            Recovery::ReconcileUpload(recovery) => recovery,
            other => panic!("{other:?}"),
        }
    };
    for (state, outcome) in [
        (UploadPublishState::PartialSource, "partial_source"),
        (UploadPublishState::PartialTarget, "partial_target_unproven"),
        (UploadPublishState::Unknown, "unknown"),
    ] {
        let finish = upload().reconciled(Ok(UploadPublishResolution { state, detail: "d".to_string() }));
        assert_eq!(finish.status, TransferStatus::Partial);
        assert_eq!(finish.publish_outcome.as_deref(), Some(outcome));
    }
    let finish = upload().reconciled(Err("no".to_string()));
    assert!(finish.error.unwrap().contains("could not be reconciled safely: no"));
}

#[test]
fn crash_before_temp_create_does_not_remove_an_unrelated_file() {
    let recovery = reopened(download("transfer-1", "running", "/tmp/.dbx-download-transfer-1-random.part", None));
    assert!(!recovery.publishing);
    let update = match recovery.reopened(Ok(())) {
        DownloadRepairStart::Finish(update) => update,
        other => panic!("{other:?}"),
    };
    assert_eq!(update.status.as_str(), "failed");
    assert!(update.finished);
}

#[test]
fn crash_after_temp_create_before_identity_persist_preserves_unproven_file() {
    let temp = "/tmp/.dbx-download-transfer-create-window-random.part";
    let recovery = reopened(download("transfer-create-window", "running", temp, None));
    let update = match recovery.reopened(Ok(())) {
        DownloadRepairStart::Finish(update) => update,
        other => panic!("{other:?}"),
    };
    assert_eq!(update.status.as_str(), "failed");
    assert!(update.error.unwrap().contains("no durable temporary-file identity"));
}

#[test]
fn publishing_crash_after_rename_is_reconciled_to_completed() {
    let temp = "/tmp/.dbx-download-transfer-publishing-random.part";
    let due = inspection(download("transfer-publishing", "publishing", temp, Some("cap:1:2")));
    match due.inspected(present("cap:1:2"), EntryStat::NotFound) {
        DownloadRepairNext::Finish(update) => assert_eq!(update.status.as_str(), "completed"),
        other => panic!("{other:?}"),
    }
}

#[test]
fn publishing_recovery_leaves_an_unproven_target_in_place() {
    let temp = "/tmp/.dbx-download-transfer-publishing-mismatch-random.part";
    let due = inspection(download("transfer-publishing-mismatch", "publishing", temp, Some("cap:1:2")));
    let update = match due.inspected(present("cap:1:3"), EntryStat::NotFound) {
        DownloadRepairNext::Finish(update) => update,
        other => panic!("{other:?}"),
    };
    assert_eq!(update.status.as_str(), "failed");
    assert!(update.error.unwrap().contains("existing file was left in place"));
}

#[test]
fn interrupted_publishes_of_downloads_are_taken_up() {
    let some = |identity: &str| Some(identity.to_string());
    let repair = |target: &Option<String>, temp: &Option<String>| publish_repair("i", target, temp).unwrap();
    assert!(matches!(repair(&some("i"), &some("i")), PublishRepair::RemoveTempThenCompleted));
    assert!(matches!(repair(&None, &some("i")), PublishRepair::Publish));
    assert!(!repair(&None, &None).is_complete());
    assert!(PublishRepair::Publish.is_complete());
}

#[test]
fn foreign_temporary_files_are_not_touched() {
    match recover(download("t", "running", "/tmp/other.part", Some("cap:1:2"))) {
        Recovery::UpdateDownload(update) => {
            assert_eq!(update.status, TransferStatus::Failed);
            assert!(update.error.unwrap().contains("no file was removed"));
        }
        other => panic!("{other:?}"),
    }
    let recovery = reopened(download("t", "running", "/tmp/.dbx-download-t-x.part", Some("cap:1:2")));
    match recovery.reopened(Ok(())) {
        DownloadRepairStart::RemoveTemp(removal) => {
            assert_eq!(removal.expected, "cap:1:2");
            assert!(removal.removed(Ok(())).is_none());
        }
        other => panic!("{other:?}"),
    }
}

#[test]
fn renames_that_were_published_are_checked() {
    let check = |server_side, source: Result<RemoteFileFingerprint, String>, destination| {
        let mut transfer = rename(server_side);
        transfer.operation_phase = Some("published_before_delete".to_string());
        match recover(transfer) {
            Recovery::CheckRename(recovery) => recovery.observed(server_side, source, destination),
            other => panic!("{other:?}"),
        }
    };
    let gone = || Err("the file no longer exists".to_string());
    match check(true, gone(), Ok(file(3))) {
        RenameRecoveryNext::Finish(finish) => {
            assert_eq!(finish.status, TransferStatus::Completed);
            assert_eq!(finish.operation_outcome, OperationOutcome::Completed);
        }
        other => panic!("{other:?}"),
    }
    match check(true, Ok(file(3)), Ok(file(3))) {
        RenameRecoveryNext::Finish(finish) => {
            assert_eq!(finish.status, TransferStatus::Partial);
            assert_eq!(finish.operation_outcome, OperationOutcome::CopiedSourceDeleteFailed);
            assert!(finish.error.unwrap().contains("explicit fingerprint-checked retry"));
        }
        other => panic!("{other:?}"),
    }
    match check(false, gone(), Ok(file(3))) {
        RenameRecoveryNext::VerifyDestination(due) => {
            assert_eq!(due.destination_verified(Ok(content(3))).status, TransferStatus::Completed);
        }
        other => panic!("{other:?}"),
    }
    match check(true, gone(), Ok(file(4))) {
        RenameRecoveryNext::Finish(finish) => assert_eq!(finish.status, TransferStatus::Partial),
        other => panic!("{other:?}"),
    }
}

#[test]
fn renames_are_retried_only_where_they_stopped() {
    assert!(check_rename_retry(&rename(true)).is_ok());
    let mut other = rename(true);
    other.status = "failed".to_string();
    assert!(check_rename_retry(&other).unwrap_err().contains("not eligible"));
    let mut unrevised = rename(true);
    unrevised.connection_revision = None;
    assert!(retry_file_rename_source_delete(unrevised).unwrap_err().contains("revision"));
}

#[test]
fn unchanged_renames_delete_their_source() {
    let destination = || match retry_file_rename_source_delete(rename(true)).unwrap().routed(true) {
        RetryRoute::ServerSide(due) => due,
        other => panic!("{other:?}"),
    };
    let source = destination().destination_observed(Ok(file(3))).unwrap();
    match source.source_observed(Ok(file(3))).unwrap() {
        RetryServerNext::Delete(deletion) => {
            assert_eq!(deletion.source_path, "report.csv");
            assert_eq!(deletion.destination_path, "destination.csv");
        }
        other => panic!("{other:?}"),
    }
    assert!(destination().destination_observed(Ok(file(4))).unwrap_err().contains("source was not deleted"));
    let source = destination().destination_observed(Ok(file(3))).unwrap();
    assert!(source.source_observed(Ok(file(4))).unwrap_err().contains("source was not deleted"));
    let source = destination().destination_observed(Ok(file(3))).unwrap();
    assert!(matches!(
        source.source_observed(Err("it no longer exists".to_string())).unwrap(),
        RetryServerNext::Completed
    ));
}

#[test]
fn relayed_renames_delete_a_source_of_the_same_content() {
    let destination = || match retry_file_rename_source_delete(rename(false)).unwrap().routed(false) {
        RetryRoute::Relay(due) => due,
        other => panic!("{other:?}"),
    };
    let probe = destination().destination_verified(Ok(content(3))).unwrap();
    let source = match probe.source_probed(Ok(())).unwrap() {
        RetryProbeNext::Verify(source) => source,
        other => panic!("{other:?}"),
    };
    assert_eq!(source.source_verified(Ok(content(3))).unwrap().source_path, "report.csv");
    assert!(destination()
        .destination_verified(Ok(content(4)))
        .unwrap_err()
        .message
        .contains("source was not deleted"));
}

#[test]
fn repairs_decide_what_is_written_down() {
    let temp = "/tmp/.dbx-download-t-x.part";
    let due = || inspection(download("t", "publishing", temp, Some("i")));
    let carried = |target, own, reply| match due().inspected(target, own) {
        DownloadRepairNext::Carry(repair) => {
            assert_eq!(repair.expected, "i");
            (repair.repair, repair.carried_out(reply).status)
        }
        other => panic!("{other:?}"),
    };
    let (repair, status) = carried(EntryStat::NotFound, present("i"), Ok(()));
    assert_eq!((repair, status), (PublishRepair::Publish, TransferStatus::Completed));
    let (_, status) = carried(EntryStat::NotFound, present("i"), Err("denied".to_string()));
    assert_eq!(status, TransferStatus::Failed);
    let (repair, status) = carried(present("i"), present("i"), Ok(()));
    assert_eq!((repair, status), (PublishRepair::RemoveTempThenCompleted, TransferStatus::Completed));
    let (repair, status) = carried(present("j"), present("i"), Ok(()));
    assert_eq!((repair, status), (PublishRepair::RemoveTempThenFailed, TransferStatus::Failed));
    for (target, own) in [(EntryStat::NotFound, EntryStat::NotFound), (EntryStat::Symlink, present("i"))] {
        match due().inspected(target, own) {
            DownloadRepairNext::Finish(update) => assert_eq!(update.status, TransferStatus::Failed),
            other => panic!("{other:?}"),
        }
    }
    let closed = reopened(download("t", "publishing", temp, Some("i"))).reopened(Err("moved".to_string()));
    match closed {
        DownloadRepairStart::Finish(update) => assert!(update.error.unwrap().contains("failed safely: moved")),
        other => panic!("{other:?}"),
    }
}
