use file_transfer::download::{
    execute_download, interrupt_download, DownloadIdentified, DownloadInterruption, DownloadStream, RemoteMetadata,
    TempCreation, DOWNLOAD_BUFFER_SIZE,
};
use file_transfer::failure::{
    remote_failure, upload_cancelled_active_failure, FailureStatus, TransferFailure, TransferStatus, UploadFailure,
};
use file_transfer::finish::{
    cleanup_active_temp, download_must_reconcile, finalize_download_result, finalize_upload_result, DownloadOutcome,
    UploadOutcome,
};
use file_transfer::local_path::{LocalPath, PathComponent};
use file_transfer::local_source::{SourceEntry, SourceLook, UploadSourceProof};
use file_transfer::progress::TransferProgressSnapshot;
use file_transfer::publish::{
    webhdfs_abort_error, writer_abort_error, UploadAbortError, UploadPublishResolution, UploadPublishState,
};
use file_transfer::record::FileTransferStorageRecord;
use file_transfer::reply::{Bounded, Timed};
use file_transfer::upload::{
    execute_upload, stop_upload, target_stat, upload_progress, ClosedUpload, TargetStat, UploadCleanup, UploadJob, UploadPublish,
    UploadRoute, UploadStop, UploadStream, WebdavPut, WebdavPutError, WebdavPutNext, OPERATION_TIMEOUT_MILLIS,
    S3_UPLOAD_BUFFER_SIZE, UPLOAD_BUFFER_SIZE,
};

const PARTIAL: &str = "dir/.dbx-upload-transfer-random.part";

fn record(status: &str, bytes_transferred: i64) -> FileTransferStorageRecord {
    FileTransferStorageRecord {
        id: "t".to_string(),
        connection_id: "c".to_string(),
        direction: "download".to_string(),
        status: status.to_string(),
        remote_path: "remote.bin".to_string(),
        local_path: "/tmp/local.bin".to_string(),
        local_directory_identity: "identity".to_string(),
        connection_revision: Some(1),
        bytes_transferred,
        total_bytes: Some(2_048),
        temp_path: None,
        temp_identity: None,
        source_fingerprint: None,
        destination_fingerprint: None,
        operation_outcome: None,
        operation_phase: None,
    }
}

fn local(names: &[&str]) -> LocalPath {
    let mut components = vec![PathComponent::RootDir];
    components.extend(names.iter().map(|name| PathComponent::Normal(name.to_string())));
    LocalPath { absolute: true, components }
}

fn job(total_bytes: i64, server_side_copy: bool, streaming_webdav: bool) -> UploadJob {
    UploadJob {
        target_relative: "dir/target.bin".to_string(),
        partial_relative: PARTIAL.to_string(),
        source: UploadSourceProof {
            path: local(&["tmp", "source.bin"]),
            directory_identity: "cap:1:1".to_string(),
            identity: "cap:1:2".to_string(),
            fingerprint: "7:unknown:x".to_string(),
            total_bytes,
        },
        server_side_copy,
        streaming_webdav,
    }
}

fn look(fingerprint: &str) -> SourceLook {
    SourceLook {
        opened: Ok(()),
        directory: Ok("cap:1:1".to_string()),
        entry: Ok(SourceEntry { is_symlink: false, is_file: true, identity: "cap:1:2".to_string() }),
        fingerprint: Ok(fingerprint.to_string()),
    }
}

fn unchanged() -> SourceLook {
    look("7:unknown:x")
}

fn sent_stream() -> UploadStream {
    let mut stream = upload_stream(7);
    assert!(stream.piece_read(Timed::Finished(Ok(7))).unwrap());
    let mut progress = upload_progress(&stream.job.source);
    assert!(stream.piece_written(Timed::Finished(Ok(())), 1_010, &mut progress).unwrap().is_none());
    assert_eq!((progress.bytes(), progress.total()), (7, Some(7)));
    assert!(!stream.piece_read(Timed::Finished(Ok(0))).unwrap());
    stream
}

fn route(job: UploadJob) -> UploadRoute {
    execute_upload(job)
        .target_guarded(Ok(()))
        .unwrap()
        .partial_guarded(Ok(()))
        .unwrap()
        .target_checked(Bounded::Finished(TargetStat::NotFound))
        .unwrap()
}

fn upload_stream(total_bytes: i64) -> UploadStream {
    match route(job(total_bytes, false, false)) {
        UploadRoute::Stream(opening) => opening.writer_opened(Timed::Finished(Ok(())), 1_000).unwrap(),
        other => panic!("{other:?}"),
    }
}

fn closed_upload() -> ClosedUpload {
    sent_stream()
        .source_checked(unchanged())
        .unwrap()
        .target_checked(Bounded::Finished(TargetStat::NotFound))
        .unwrap()
        .writer_closed(Bounded::Finished(Ok(())))
        .unwrap()
}

fn upload_publish() -> UploadPublish {
    let publishing = closed_upload().source_checked(unchanged(), false, false).unwrap();
    assert_eq!(publishing.update.status, TransferStatus::Publishing);
    assert_eq!(publishing.update.bytes_transferred, 7);
    assert!(!publishing.update.finished);
    publishing.persisted(Ok("publishing".to_string()), false, false).unwrap()
}

fn webdav_put() -> WebdavPut {
    match route(job(7, false, true)) {
        UploadRoute::Webdav(upload) => upload.begun(false, false, 1_000).unwrap(),
        other => panic!("{other:?}"),
    }
}

fn cleanup(stop: UploadStop) -> UploadCleanup {
    match stop {
        UploadStop::Cleanup(cleanup) => cleanup,
        UploadStop::Stopped(stopped) => panic!("{stopped:?}"),
    }
}

fn stopped(stop: UploadStop) -> UploadFailure {
    match stop {
        UploadStop::Stopped(stopped) => stopped,
        UploadStop::Cleanup(cleanup) => panic!("{cleanup:?}"),
    }
}

fn resolution(state: UploadPublishState) -> Result<UploadPublishResolution, String> {
    Ok(UploadPublishResolution { state, detail: "detail".to_string() })
}

fn download_stream() -> DownloadStream {
    let preparing = execute_download("t".to_string(), &local(&["tmp", "local.bin"]))
        .metadata_read(Bounded::Finished(Ok(RemoteMetadata { is_file: true, content_length: 2_048 })), &mut TransferProgressSnapshot::new())
        .unwrap()
        .located("/tmp/.part".to_string());
    assert_eq!(preparing.update.status, TransferStatus::Running);
    assert_eq!(preparing.update.temp_path.as_deref(), Some("/tmp/.part"));
    assert_eq!(preparing.update.temp_identity, None);
    let identifying = preparing
        .persisted(Ok(()))
        .unwrap()
        .anchored(Ok(()))
        .unwrap()
        .created(TempCreation::Created("cap:1:2".to_string()), false)
        .unwrap();
    assert_eq!(identifying.update.temp_identity.as_deref(), Some("cap:1:2"));
    match identifying.persisted(Ok(()), false, false) {
        DownloadIdentified::Open(opening) => opening
            .reader_opened(Bounded::Finished(Ok(())))
            .unwrap()
            .stream_opened(Bounded::Finished(Ok(())), 1_000)
            .unwrap(),
        other => panic!("{other:?}"),
    }
}

#[test]
fn upload_abort_control_flow_covers_success_failure_unsupported_and_timeout() {
    let abort = |failure: TransferFailure| upload_stream(7).failed(failure);
    let succeeded = stopped(abort(upload_cancelled_active_failure()).aborted(Bounded::Finished(Ok(()))));
    assert_eq!(succeeded.failure.status.as_status().as_str(), "cancelled");
    assert_eq!(succeeded.partial_destination, None);
    assert_eq!(succeeded.abort_outcome.as_deref(), Some("succeeded"));

    let unsupported_cleaned = cleanup(
        abort(upload_cancelled_active_failure()).aborted(Bounded::Finished(Err(UploadAbortError::Unsupported))),
    )
    .cleaned(Bounded::Finished(Ok(())));
    assert_eq!(unsupported_cleaned.failure.status.as_status().as_str(), "cancelled");
    assert_eq!(unsupported_cleaned.partial_destination, None);
    assert_eq!(unsupported_cleaned.abort_outcome.as_deref(), Some("unsupported; operation_owned_partial_cleaned"));

    let failed_uncleaned = cleanup(
        abort(remote_failure("write failed".to_string()))
            .aborted(Bounded::Finished(Err(UploadAbortError::Failed("injected abort failure".to_string())))),
    )
    .cleaned(Bounded::Finished(Err("injected cleanup failure".to_string())));
    assert_eq!(failed_uncleaned.failure.status.as_status().as_str(), "partial");
    assert_eq!(failed_uncleaned.partial_destination.as_deref(), Some(PARTIAL));
    assert_eq!(failed_uncleaned.abort_outcome.as_deref(), Some("failed: injected abort failure"));
    assert!(failed_uncleaned.failure.invalidate_operator);
    assert!(failed_uncleaned.failure.message.contains("cleanup failed safely"));

    let timed_out = stopped(abort(remote_failure("write timed out".to_string())).aborted(Bounded::TimedOut));
    assert_eq!(timed_out.failure.status.as_status().as_str(), "partial");
    assert_eq!(timed_out.partial_destination.as_deref(), Some(PARTIAL));
    assert_eq!(timed_out.abort_outcome.as_deref(), Some("timed_out"));
    assert!(timed_out.failure.invalidate_operator);
    assert!(timed_out.failure.message.contains("partial was preserved"));
}

#[test]
fn uploads_are_published_once_they_are_closed() {
    let outcome = upload_publish().published(resolution(UploadPublishState::Completed), false).unwrap();
    assert_eq!(outcome.bytes_transferred, 7);
    assert_eq!(outcome.total_bytes, Some(7));
    assert_eq!(outcome.publish_outcome.as_deref(), Some("completed"));
}

#[test]
fn unproven_publishes_keep_what_they_left() {
    for (state, left, outcome, words) in [
        (UploadPublishState::PartialSource, Some(PARTIAL), "partial_source", "was not completed"),
        (UploadPublishState::PartialTarget, Some("dir/target.bin"), "partial_target_unproven", "is unproven"),
        (UploadPublishState::Unknown, None, "unknown", "outcome is unknown"),
    ] {
        let stop = upload_publish().published(resolution(state), false).unwrap_err();
        let stopped = stopped(stop);
        assert_eq!(stopped.failure.status, FailureStatus::Partial);
        assert_eq!(stopped.publish_outcome.as_deref(), Some(outcome));
        assert!(stopped.failure.message.contains(words), "{}", stopped.failure.message);
        assert_eq!(stopped.partial_destination.as_deref(), left);
    }
    let failed = cleanup(upload_publish().published(Err("no".to_string()), false).unwrap_err());
    assert!(failed.failure.message.contains("Failed to publish the uploaded file: no"));
}

#[test]
fn targets_that_exist_stop_an_upload() {
    let refused = |reply| {
        execute_upload(job(7, false, false))
            .target_guarded(Ok(()))
            .unwrap()
            .partial_guarded(Ok(()))
            .unwrap()
            .target_checked(reply)
            .unwrap_err()
            .failure
            .message
    };
    assert_eq!(refused(Bounded::Finished(TargetStat::Found)), "Remote upload destination already exists");
    assert_eq!(refused(Bounded::TimedOut), "Checking the remote upload destination timed out");
    assert!(refused(Bounded::Finished(TargetStat::Failed("no".to_string()))).contains("no"));
    let guarded = execute_upload(job(7, false, false)).target_guarded(Err("outside".to_string())).unwrap_err();
    assert!(guarded.failure.message.contains("outside"));
    let again = sent_stream()
        .source_checked(unchanged())
        .unwrap()
        .target_checked(Bounded::Finished(TargetStat::Found))
        .unwrap_err();
    assert_eq!(again.failure.message, "Remote upload destination already exists");
}

#[test]
fn uploads_take_the_route_of_their_backend() {
    match route(job(7, false, false)) {
        UploadRoute::Stream(opening) => {
            assert_eq!((opening.piece_size(), opening.expected_size()), (UPLOAD_BUFFER_SIZE, 7));
        }
        other => panic!("{other:?}"),
    }
    match route(job(7, true, false)) {
        UploadRoute::Stream(opening) => assert_eq!(opening.piece_size(), S3_UPLOAD_BUFFER_SIZE),
        other => panic!("{other:?}"),
    }
    assert!(matches!(route(job(7, false, true)), UploadRoute::Webdav(_)));
    let empty = match route(job(0, false, false)) {
        UploadRoute::Empty(empty) => empty,
        other => panic!("{other:?}"),
    };
    let closed = empty
        .begun(false, false)
        .unwrap()
        .source_checked(unchanged())
        .unwrap()
        .created(Bounded::Finished(Ok(())))
        .unwrap();
    assert_eq!(closed.bytes_transferred, 0);
}

#[test]
fn upload_streams_watch_their_time() {
    let mut stream = upload_stream(7);
    assert!(stream.piece_due(1_000).is_ok());
    assert!(stream.piece_due(1_000 + OPERATION_TIMEOUT_MILLIS).unwrap_err().message.contains("timed out"));
    assert!(stream.piece_read(Timed::TimedOut).unwrap_err().message.contains("watchdog"));
    assert_eq!(stream.piece_read(Timed::TransferCancelled).unwrap_err().status, FailureStatus::Cancelled);
    assert!(stream.piece_read(Timed::ConnectionRemoved).unwrap_err().message.contains("removed"));
    let broken = stream.piece_read(Timed::Finished(Err("disk".to_string()))).unwrap_err();
    assert_eq!(broken.message, "Failed to read the upload source: disk");
    let mut stream = upload_stream(700);
    let mut progress = upload_progress(&stream.job.source);
    assert!(stream.piece_read(Timed::Finished(Ok(300))).unwrap());
    let update = stream.piece_written(Timed::Finished(Ok(())), 1_200, &mut progress).unwrap().unwrap();
    assert_eq!((update.bytes_transferred, update.total_bytes), (300, Some(700)));
    assert!(stream.progress_persisted(Ok(()), 1_200).is_ok());
    assert!(stream.piece_read(Timed::Finished(Ok(1))).unwrap());
    assert!(stream.piece_written(Timed::Finished(Ok(())), 1_399, &mut progress).unwrap().is_none());
    assert!(stream.piece_read(Timed::Finished(Ok(1))).unwrap());
    let late = stream.piece_written(Timed::TimedOut, 1_400, &mut progress).unwrap_err();
    assert!(late.message.contains("watchdog"));
    assert_eq!((progress.bytes(), progress.total()), (301, Some(700)));
}

#[test]
fn cancelled_uploads_leave_nothing_behind() {
    let cleaned = closed_upload().source_checked(unchanged(), true, false).unwrap_err();
    assert_eq!(cleaned.abort_outcome, "not_applicable_after_close");
    let ended = cleaned.cleaned(Bounded::Finished(Ok(())));
    assert_eq!(ended.failure.status, FailureStatus::Cancelled);
    assert_eq!(ended.partial_destination, None);
    let publishing = closed_upload().source_checked(unchanged(), false, false).unwrap();
    let cleaned = publishing.persisted(Ok("cancelling".to_string()), false, false).unwrap_err();
    assert_eq!(cleaned.failure.status, FailureStatus::Cancelled);
    let late = closed_upload().source_checked(unchanged(), true, false).unwrap_err().cleaned(Bounded::TimedOut);
    assert_eq!(late.failure.status, FailureStatus::Partial);
    assert!(late.failure.message.contains("cleanup timed out"));
}

#[test]
fn dispatched_webdav_uploads_are_not_deleted() {
    let uncertain = WebdavPutError { message: "lost".to_string(), before_mutation: false, outcome_unknown: true };
    match webdav_put().finished(Err(uncertain)) {
        WebdavPutNext::Uncertain(stopped) => {
            assert_eq!(stopped.failure.status, FailureStatus::Partial);
            assert_eq!(stopped.partial_destination.as_deref(), Some(PARTIAL));
            assert_eq!(stopped.abort_outcome.as_deref(), Some("not_attempted_put_outcome_uncertain"));
        }
        other => panic!("{other:?}"),
    }
    let before = WebdavPutError { message: "refused".to_string(), before_mutation: true, outcome_unknown: false };
    assert!(matches!(webdav_put().finished(Err(before)), WebdavPutNext::Stopped(_)));
    let after = WebdavPutError { message: "refused".to_string(), before_mutation: false, outcome_unknown: false };
    assert!(matches!(webdav_put().finished(Err(after)), WebdavPutNext::Cleanup(_)));
    assert!(stopped(webdav_put().cancelled(true)).partial_destination.is_some());
    let closed = match webdav_put().finished(Ok(())) {
        WebdavPutNext::Written(written) => written
            .source_checked(unchanged())
            .unwrap()
            .target_checked(Bounded::Finished(TargetStat::NotFound))
            .unwrap(),
        other => panic!("{other:?}"),
    };
    assert_eq!(closed.bytes_transferred, 7);
}

#[test]
fn webdav_uploads_are_watched() {
    let mut put = webdav_put();
    let update = put.ticked(3, 2_000).unwrap();
    assert_eq!((update.bytes_transferred, update.total_bytes), (3, Some(7)));
    assert!(put.ticked(3, 31_999).is_ok());
    assert!(put.ticked(3, 32_000).unwrap_err().message.contains("watchdog"));
    assert!(put.progress_failed("no").message.contains("no"));
}

#[test]
fn answers_of_the_backend_are_read() {
    assert!(matches!(target_stat(Ok(()), String::new()), TargetStat::Found));
    let error = |kind| opendal::Error::new(kind, "detail");
    let missing = target_stat(Err(error(opendal::ErrorKind::NotFound)), "gone".to_string());
    assert!(matches!(missing, TargetStat::NotFound));
    match target_stat(Err(error(opendal::ErrorKind::Unexpected)), "broken".to_string()) {
        TargetStat::Failed(shown) => assert!(shown.contains("broken")),
        other => panic!("{other:?}"),
    }
    assert!(matches!(
        writer_abort_error(&error(opendal::ErrorKind::Unsupported), "no".to_string()),
        UploadAbortError::Unsupported
    ));
    match writer_abort_error(&error(opendal::ErrorKind::Unexpected), "no".to_string()) {
        UploadAbortError::Failed(shown) => assert_eq!(shown, "no"),
        other => panic!("{other:?}"),
    }
    assert!(matches!(webhdfs_abort_error(Ok(())), UploadAbortError::Unsupported));
    match webhdfs_abort_error(Err("no".to_string())) {
        UploadAbortError::Failed(shown) => assert_eq!(shown, "no"),
        other => panic!("{other:?}"),
    }
}

#[test]
fn bounded_chunk_copy_surfaces_disconnect_disk_full_and_stall() {
    assert_eq!(DOWNLOAD_BUFFER_SIZE, 4 * 1024 * 1024);
    let disconnected =
        download_stream().piece_read(Bounded::Finished(Err("injected disconnect".to_string()))).unwrap_err();
    assert!(disconnected.invalidate_operator);
    assert!(disconnected.message.contains("injected disconnect"));

    let stalled = download_stream().piece_read(Bounded::TimedOut).unwrap_err();
    assert!(stalled.invalidate_operator);
    assert!(stalled.message.contains("watchdog"));

    let mut stream = download_stream();
    assert!(stream.piece_read(Bounded::Finished(Ok(1024))).unwrap());
    let disk_full = stream.piece_written(Bounded::Finished(Err("No space left on device".to_string())), &mut TransferProgressSnapshot::new()).unwrap_err();
    assert!(!disk_full.invalidate_operator);
    assert!(disk_full.message.contains("No space left"), "{}", disk_full.message);
}

#[test]
fn partial_write_failure_and_cancel_account_exact_successful_bytes() {
    let mut progress = TransferProgressSnapshot::new();
    let mut stream = download_stream();
    assert!(stream.piece_read(Bounded::Finished(Ok(1_024))).unwrap());
    assert!(stream.piece_written(Bounded::Finished(Ok(137)), &mut progress).unwrap());
    let failure = stream.piece_written(Bounded::Finished(Err("No space left on device".to_string())), &mut progress).unwrap_err();
    assert!(failure.message.contains("No space left"));
    assert_eq!(stream.bytes_transferred, 137);
    assert_eq!(progress.bytes(), 137);

    let mut progress = TransferProgressSnapshot::new();
    let mut stream = download_stream();
    assert!(stream.piece_read(Bounded::Finished(Ok(1_024))).unwrap());
    assert!(stream.piece_written(Bounded::Finished(Ok(211)), &mut progress).unwrap());
    assert_eq!(stream.bytes_transferred, 211);
    assert_eq!(progress.bytes(), 211);
    assert!(stream.piece_written(Bounded::Finished(Ok(0)), &mut progress).unwrap_err().message.contains("zero bytes"));
}

#[test]
fn disk_full_terminal_snapshot_keeps_all_prior_successful_bytes() {
    let mut progress = TransferProgressSnapshot::new();
    progress.record_total(Some(2_048));
    let mut stream = download_stream();
    assert!(stream.piece_read(Bounded::Finished(Ok(1_024))).unwrap());
    assert!(!stream.piece_written(Bounded::Finished(Ok(1_024)), &mut progress).unwrap());
    assert!(stream.piece_read(Bounded::Finished(Ok(1_024))).unwrap());
    let failure = stream.piece_written(Bounded::Finished(Err("No space left on device".to_string())), &mut progress).unwrap_err();

    let terminal = finalize_download_result(Err(failure), &progress, &Some(record("running", 0)), &None);
    assert_eq!(terminal.bytes_transferred, 1_024);
    assert_eq!(terminal.total_bytes, Some(2_048));
    assert_eq!(terminal.status.as_str(), "failed");
    assert!(terminal.finished);
}

#[test]
fn downloads_are_published_once_they_are_whole() {
    let mut stream = download_stream();
    assert!(stream.piece_read(Bounded::Finished(Ok(2_048))).unwrap());
    assert!(!stream.piece_written(Bounded::Finished(Ok(2_048)), &mut TransferProgressSnapshot::new()).unwrap());
    assert!(stream.progress(1_199).is_none());
    let update = stream.progress(1_200).unwrap();
    assert_eq!((update.bytes_transferred, update.total_bytes), (2_048, Some(2_048)));
    assert!(stream.progress_persisted(Ok(()), 1_200).is_ok());
    assert!(!stream.piece_read(Bounded::Finished(Ok(0))).unwrap());
    let publishing = stream
        .ended()
        .flushed(Bounded::Finished(Ok(())))
        .unwrap()
        .synchronized(Bounded::Finished(Ok(())))
        .unwrap();
    assert_eq!(publishing.update.status, TransferStatus::Publishing);
    let outcome = publishing.persisted(Ok(())).unwrap().published(Ok(())).unwrap();
    assert_eq!((outcome.bytes_transferred, outcome.total_bytes), (2_048, Some(2_048)));
}

#[test]
fn downloads_stop_where_they_cannot_go_on() {
    let start = || execute_download("t".to_string(), &local(&["tmp", "local.bin"]));
    assert!(start().metadata_read(Bounded::TimedOut, &mut TransferProgressSnapshot::new()).unwrap_err().message.contains("metadata timed out"));
    let directory = RemoteMetadata { is_file: false, content_length: 0 };
    assert_eq!(
        start().metadata_read(Bounded::Finished(Ok(directory)), &mut TransferProgressSnapshot::new()).unwrap_err().message,
        "The remote path is not a file"
    );
    let large = RemoteMetadata { is_file: true, content_length: u64::MAX };
    assert_eq!(start().metadata_read(Bounded::Finished(Ok(large)), &mut TransferProgressSnapshot::new()).unwrap().total_bytes, None);
    let flush = download_stream().ended().flushed(Bounded::TimedOut).unwrap_err();
    assert_eq!(flush.message, "Flushing the download timed out");
}

#[test]
fn unsaved_identities_remove_their_temporary_file() {
    let identifying = execute_download("t".to_string(), &local(&["tmp", "local.bin"]))
        .metadata_read(Bounded::Finished(Ok(RemoteMetadata { is_file: true, content_length: 1 })), &mut TransferProgressSnapshot::new())
        .unwrap()
        .located("/tmp/.part".to_string())
        .persisted(Ok(()))
        .unwrap()
        .anchored(Ok(()))
        .unwrap()
        .created(TempCreation::Created("cap:1:2".to_string()), false)
        .unwrap();
    match identifying.persisted(Err("locked".to_string()), false, false) {
        DownloadIdentified::Cleanup(cleanup) => {
            assert_eq!(cleanup.temp_identity, "cap:1:2");
            assert!(cleanup.removed(Err("busy".to_string())).message.contains("failed safely: busy"));
        }
        other => panic!("{other:?}"),
    }
}

#[test]
fn create_timeout_awaits_blocking_task_before_cleanup_can_start() {
    for interruption in
        [DownloadInterruption::TimedOut, DownloadInterruption::Cancelled, DownloadInterruption::ConnectionRemoved]
    {
        assert!(interrupt_download(interruption, true).is_none());
    }
    let timed_out = interrupt_download(DownloadInterruption::TimedOut, false).unwrap();
    assert_eq!(timed_out.message, "Download operation timed out");
    let cancelled = interrupt_download(DownloadInterruption::Cancelled, false).unwrap();
    assert_eq!(cancelled.status, FailureStatus::Cancelled);
}

#[test]
fn ended_downloads_are_written_down() {
    let progress = TransferProgressSnapshot::new();
    let done = finalize_download_result(
        Ok(DownloadOutcome { bytes_transferred: 5, total_bytes: Some(5) }),
        &progress,
        &None,
        &None,
    );
    assert_eq!((done.status, done.bytes_transferred, done.error), (TransferStatus::Completed, 5, None));
    let failed = finalize_download_result(
        Err(remote_failure("lost".to_string())),
        &progress,
        &Some(record("running", 9)),
        &Some("busy".to_string()),
    );
    assert_eq!(failed.status, TransferStatus::Failed);
    assert_eq!(failed.bytes_transferred, 9);
    assert_eq!(failed.error.as_deref(), Some("lost; temporary-file cleanup failed safely: busy"));
    assert!(download_must_reconcile(true, &Some(record("publishing", 9))));
    assert!(!download_must_reconcile(false, &Some(record("publishing", 9))));
    assert!(!download_must_reconcile(true, &Some(record("running", 9))));
}

#[test]
fn failed_downloads_remove_only_their_own_temporary_file() {
    let target = local(&["tmp", "local.bin"]);
    let owned = local(&["tmp", ".dbx-download-t-x.part"]);
    let mut cut = record("running", 0);
    assert!(cleanup_active_temp(&cut, &target, None).unwrap().is_none());
    cut.temp_path = Some("/tmp/.dbx-download-t-x.part".to_string());
    assert!(cleanup_active_temp(&cut, &target, Some(&owned)).unwrap_err().contains("unavailable"));
    cut.temp_identity = Some("cap:1:2".to_string());
    let due = cleanup_active_temp(&cut, &target, Some(&owned)).unwrap().unwrap();
    assert_eq!((due.temp_path.as_str(), due.expected_identity.as_str()), ("/tmp/.dbx-download-t-x.part", "cap:1:2"));
    assert!(cleanup_active_temp(&cut, &target, Some(&local(&["tmp", "x"]))).unwrap_err().contains("invalid"));
}

#[test]
fn ended_uploads_are_written_down() {
    let mut progress = TransferProgressSnapshot::new();
    progress.record_total(Some(7));
    progress.record_bytes(4);
    let done = finalize_upload_result(
        Ok(UploadOutcome {
            bytes_transferred: 7,
            total_bytes: Some(7),
            publish_outcome: Some("completed".to_string()),
        }),
        &progress,
        &None,
    );
    assert_eq!((done.status, done.bytes_transferred), (TransferStatus::Completed, 7));
    assert_eq!(done.publish_outcome.as_deref(), Some("completed"));
    let failed = finalize_upload_result(Err(stop_upload(remote_failure("lost".to_string()))), &progress, &None);
    assert_eq!((failed.status, failed.bytes_transferred, failed.total_bytes), (TransferStatus::Failed, 4, Some(7)));
    assert_eq!(failed.error.as_deref(), Some("lost"));
}

#[test]
fn uploads_are_completed_only_where_they_are_whole() {
    let mut short = upload_stream(7);
    assert!(short.piece_read(Timed::Finished(Ok(5))).unwrap());
    short.piece_written(Timed::Finished(Ok(())), 1_010, &mut TransferProgressSnapshot::new()).unwrap();
    let refused = short.source_checked(unchanged()).unwrap_err();
    assert!(refused.failure.message.contains("will not be published"));
    assert!(!refused.failure.invalidate_operator);
    assert!(upload_stream(7).source_checked(unchanged()).is_err());
    assert!(sent_stream().source_checked(look("8:unknown:x")).is_err());
    let gone = SourceLook { entry: Err("gone".to_string()), ..unchanged() };
    assert!(closed_upload().source_checked(gone, false, false).unwrap_err().failure.message.contains("disappeared"));
    let elsewhere = SourceLook { directory: Ok("cap:9:9".to_string()), ..unchanged() };
    assert!(sent_stream().source_checked(elsewhere).unwrap_err().failure.message.contains("parent changed"));
    let closed = match webdav_put().finished(Ok(())) {
        WebdavPutNext::Written(written) => written.source_checked(look("other")),
        other => panic!("{other:?}"),
    };
    assert!(closed.unwrap_err().failure.message.contains("will not be published"));
    let outcome = upload_publish().published(resolution(UploadPublishState::Completed), false).unwrap();
    assert_eq!((outcome.bytes_transferred, outcome.total_bytes), (7, Some(7)));
}

#[test]
fn downloaded_pieces_add_up() {
    let mut progress = TransferProgressSnapshot::new();
    let mut stream = download_stream();
    let mut all = 0;
    for (piece, writes) in [(7, vec![7]), (10, vec![3, 6, 1]), (1, vec![1]), (4, vec![2, 2])] {
        assert!(stream.piece_read(Bounded::Finished(Ok(piece))).unwrap());
        let last = writes.len() - 1;
        for (turn, written) in writes.into_iter().enumerate() {
            let more = stream.piece_written(Bounded::Finished(Ok(written)), &mut progress).unwrap();
            assert_eq!(more, turn != last);
            all += written as i64;
            assert_eq!((stream.bytes_transferred, progress.bytes()), (all, all));
        }
    }
    assert!(!stream.piece_read(Bounded::Finished(Ok(0))).unwrap());
    let sync = stream.ended().flushed(Bounded::Finished(Ok(()))).unwrap();
    let publishing = sync.synchronized(Bounded::Finished(Ok(()))).unwrap();
    let outcome = publishing.persisted(Ok(())).unwrap().published(Ok(())).unwrap();
    assert_eq!(outcome.bytes_transferred, 22);
}

#[test]
fn uploaded_pieces_add_up() {
    let mut stream = upload_stream(7);
    let mut progress = upload_progress(&stream.job.source);
    for (turn, piece) in [2, 1, 4].into_iter().enumerate() {
        assert!(stream.piece_read(Timed::Finished(Ok(piece))).unwrap());
        let now = 1_000 + 300 * turn as u64;
        if stream.piece_written(Timed::Finished(Ok(())), now, &mut progress).unwrap().is_some() {
            stream.progress_persisted(Ok(()), now).unwrap();
        }
        assert_eq!(progress.bytes(), stream.bytes_transferred);
    }
    assert!(!stream.piece_read(Timed::Finished(Ok(0))).unwrap());
    assert_eq!(stream.bytes_transferred, 7);
    assert!(stream.source_checked(unchanged()).is_ok());
}
