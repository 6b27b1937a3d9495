use file_transfer::cleanup::{cleanup_remote_copy_partial, CleanupNext};
use file_transfer::content::{verify_remote_content, ContentRoute, ContentStream};
use file_transfer::digest::{hex, ContentDigest};
use file_transfer::failure::{
    remote_failure, FailureStatus, OperationOutcome, OperationPhase, RemoteTransferFailure, TransferStatus,
};
use file_transfer::fingerprint::{RemoteFileFingerprint, VerifiedRemoteContent};
use file_transfer::finish::finalize_remote_transfer_result;
use file_transfer::progress::TransferProgressSnapshot;
use file_transfer::publish::{UploadAbortError, UploadPublishResolution, UploadPublishState};
use file_transfer::reconcile::{
    error_tells_absence, reconcile_uncertain_native_move, reconcile_uncertain_server_side_copy,
    reconcile_uncertain_webdav_copy,
};
use file_transfer::relay::{
    execute_remote_transfer, RelayNext, RelayPaths, RelayProbeNext, RelayPublish, RelayStart, RelayStop, RelayStream,
    RemoteStart,
};
use file_transfer::remote::{BackendTraits, RemoteJob, RemoteOperation};
use file_transfer::reply::{Bounded, Timed, Watched};
use file_transfer::server_side::{
    copy_failure_detail, execute_server_side_remote_transfer, BackendCopyNext, BackendCopyStream, CopyInterruption,
    MutationError, NativeRenameDispatch, NativeRenameNext, ServerSideRoute, WebdavCopyDispatch, WebdavCopyNext,
};

const HELLO: &str = "2cf24dba5fb0a30e26e83b2ac5b9e29e1b161e5c1fa7425e73043362938b9824";

fn plain() -> BackendTraits {
    BackendTraits {
        server_side_copy: false,
        native_rename: false,
        native_sftp_rename: false,
        direct_hdfs_native_rename: false,
        direct_webhdfs_rename: false,
        streaming_webhdfs: false,
        native_webdav_copy: false,
        streaming_webdav: false,
        exact_ftp_relay: false,
    }
}

fn job(operation: RemoteOperation, replace: bool, backend: BackendTraits) -> RemoteJob {
    RemoteJob {
        operation,
        replace,
        source_path: "source.bin".to_string(),
        destination_path: "dir/destination.bin".to_string(),
        backend,
    }
}

fn file(size: u64, modified: &str) -> RemoteFileFingerprint {
    RemoteFileFingerprint { size, modified: modified.to_string(), etag: None, version: None }
}

fn content(size: u64, modified: &str, sha256: &str) -> VerifiedRemoteContent {
    VerifiedRemoteContent { fingerprint: file(size, modified), sha256: sha256.to_string() }
}

fn relay_start(operation: RemoteOperation, replace: bool) -> RelayStart {
    match execute_remote_transfer("t".to_string(), job(operation, replace, plain())).unwrap() {
        RemoteStart::Relay(start) => start,
        other => panic!("{other:?}"),
    }
}

fn relay_paths(operation: RemoteOperation) -> RelayPaths {
    let probe = relay_start(operation, false).source_stated(Watched::Finished(Ok(file(5, "m"))), &mut TransferProgressSnapshot::new()).unwrap();
    match probe.destination_probed(Ok(false)).unwrap() {
        RelayProbeNext::Partial(partial) => {
            assert!(partial.partial.starts_with("dir/.dbx-copy-t-"));
            partial.partial_probed(Ok(false)).unwrap()
        }
        other => panic!("{other:?}"),
    }
}

fn relay_stream(operation: RemoteOperation) -> RelayStream {
    let opening = relay_paths(operation)
        .paths_configured(Ok("source.bin".to_string()), Ok("dir/.dbx-copy-t-x.part".to_string()))
        .unwrap();
    assert_eq!(opening.update.phase, OperationPhase::Copying);
    assert_eq!(opening.update.total_bytes, 5);
    opening
        .persisted(Ok("running".to_string()), false)
        .unwrap()
        .reader_opened(Bounded::Finished(Ok(())))
        .unwrap()
        .writer_opened(Bounded::Finished(Ok(())), 1_000)
        .unwrap()
}

fn relay_publish(operation: RemoteOperation) -> RelayPublish {
    let mut stream = relay_stream(operation);
    assert!(stream.piece_read(Timed::Finished(Ok(5)), b"hello-rest").unwrap());
    assert!(stream.piece_written(Timed::Finished(Ok(())), 1_100, &mut TransferProgressSnapshot::new()).unwrap().is_none());
    assert!(!stream.piece_read(Timed::Finished(Ok(0)), b"").unwrap());
    let closing = match stream.ended() {
        Ok(closing) => closing,
        Err(abort) => panic!("{abort:?}"),
    };
    let closed = closing.writer_closed(Bounded::Finished(Ok(()))).unwrap();
    assert_eq!(closed.relay_hash, HELLO);
    let publishing = closed
        .source_observed(Ok(file(5, "m")))
        .unwrap()
        .partial_verified(Ok(content(5, "p", HELLO)))
        .unwrap();
    assert_eq!(publishing.update.status, TransferStatus::Publishing);
    publishing.persisted(Ok("publishing".to_string()), false).unwrap()
}

fn published() -> Result<UploadPublishResolution, String> {
    Ok(UploadPublishResolution { state: UploadPublishState::Completed, detail: String::new() })
}

fn server_route(operation: RemoteOperation, backend: BackendTraits) -> ServerSideRoute {
    execute_server_side_remote_transfer(job(operation, false, backend))
        .source_stated(Ok(file(5, "m")), &mut TransferProgressSnapshot::new())
        .unwrap()
        .destination_probed(Watched::Finished(Ok(false)))
        .unwrap()
        .paths_configured(Ok("source.bin".to_string()), Ok("dir/destination.bin".to_string()))
        .unwrap()
        .persisted(Ok("running".to_string()), false)
        .unwrap()
}

fn native_dispatch() -> NativeRenameDispatch {
    let backend = BackendTraits { native_rename: true, native_sftp_rename: true, ..plain() };
    match server_route(RemoteOperation::Rename, backend) {
        ServerSideRoute::NativeRename(lock) => lock
            .locked(Watched::Finished(()))
            .unwrap()
            .preflighted(Watched::Finished(Ok(())), false, false)
            .unwrap(),
        other => panic!("{other:?}"),
    }
}

fn webdav_dispatch() -> WebdavCopyDispatch {
    match server_route(RemoteOperation::Copy, BackendTraits { native_webdav_copy: true, ..plain() }) {
        ServerSideRoute::WebdavCopy(lock) => lock
            .locked(Watched::Finished(()))
            .unwrap()
            .preflighted(Watched::Finished(Ok(())), false, false)
            .unwrap(),
        other => panic!("{other:?}"),
    }
}

fn backend_copy(operation: RemoteOperation) -> BackendCopyStream {
    match server_route(operation, BackendTraits { server_side_copy: true, ..plain() }) {
        ServerSideRoute::BackendCopy(opening) => opening.opened(Ok(()), 1_000).unwrap(),
        other => panic!("{other:?}"),
    }
}

fn content_stream() -> ContentStream {
    let path = verify_remote_content(false).before_observed(Ok(file(5, "m"))).unwrap();
    match path.path_validated(Ok("f".to_string())).unwrap() {
        ContentRoute::Operator(due) => {
            due.path_configured(Ok(())).unwrap().reader_opened(Bounded::Finished(Ok(()))).unwrap_or_else(|_| panic!())
        }
        other => panic!("{other:?}"),
    }
}

#[test]
fn digests_are_sha256() {
    assert_eq!(hex(&[0, 15, 255]), "000fff");
    let mut digest = ContentDigest::new();
    digest.absorb(b"hel");
    digest.absorb(b"lo");
    assert_eq!(digest.bytes_read(), 5);
    assert_eq!(digest.finish(), HELLO);
    assert_eq!(
        ContentDigest::new().finish(),
        "e3b0c44298fc1c149afbf4c8996fb92427ae41e4649b934ca495991b7852b855"
    );
}

#[test]
fn content_is_verified_between_two_looks() {
    let mut stream = content_stream();
    assert!(stream.piece_read(Timed::Finished(Ok(3)), b"helxx").unwrap());
    assert!(stream.piece_read(Timed::Finished(Ok(2)), b"lo").unwrap());
    assert!(!stream.piece_read(Timed::Finished(Ok(0)), b"").unwrap());
    let read = stream.ended(Bounded::Finished(Ok(()))).unwrap();
    assert_eq!((read.bytes_read, read.sha256.as_str()), (5, HELLO));
    let verified = read.after_observed(Ok(file(5, "m"))).unwrap();
    assert_eq!(verified.sha256, HELLO);

    let mut stream = content_stream();
    assert!(stream.piece_read(Timed::Finished(Ok(5)), b"hello").unwrap());
    let read = stream.ended(Bounded::Finished(Ok(()))).unwrap();
    assert!(read.after_observed(Ok(file(5, "later"))).unwrap_err().message.contains("changed while"));

    let mut stream = content_stream();
    assert!(stream.piece_read(Timed::Finished(Ok(4)), b"hell").unwrap());
    let read = stream.ended(Bounded::Finished(Ok(()))).unwrap();
    assert!(read.after_observed(Ok(file(5, "m"))).is_err());
    assert!(content_stream().piece_read(Timed::TimedOut, b"").unwrap_err().message.contains("watchdog"));
}

#[test]
fn ftp_content_is_read_in_a_session_of_its_own() {
    let path = verify_remote_content(true).before_observed(Ok(file(5, "m"))).unwrap();
    match path.path_validated(Ok("f".to_string())).unwrap() {
        ContentRoute::FtpSession(due) => {
            assert!(due.session_opened(Bounded::TimedOut).unwrap_err().message.contains("session timed out"));
        }
        other => panic!("{other:?}"),
    }
}

#[test]
fn relayed_copies_are_verified_and_published() {
    let check = relay_publish(RemoteOperation::Copy).published(published()).unwrap();
    match check.destination_verified(Ok(content(5, "d", HELLO))).unwrap() {
        RelayNext::Completed(outcome) => {
            assert_eq!((outcome.bytes_transferred, outcome.total_bytes), (5, 5));
            assert_eq!(outcome.operation_outcome, OperationOutcome::Completed);
            assert_eq!(outcome.destination_fingerprint, content(5, "d", HELLO).durable_fingerprint());
        }
        other => panic!("{other:?}"),
    }
}

#[test]
fn relayed_renames_delete_their_source_last() {
    let check = relay_publish(RemoteOperation::Rename).published(published()).unwrap();
    let published = match check.destination_verified(Ok(content(5, "d", HELLO))).unwrap() {
        RelayNext::Published(published) => published,
        other => panic!("{other:?}"),
    };
    assert_eq!(published.update.phase, OperationPhase::PublishedBeforeDelete);
    let deleting = published
        .persisted(Ok(()))
        .unwrap()
        .source_verified(Ok(content(5, "m", HELLO)))
        .unwrap()
        .destination_verified(Ok(content(5, "d", HELLO)))
        .unwrap();
    assert_eq!(deleting.update.phase, OperationPhase::DeleteUncertain);
    let delete = deleting.persisted(Ok(())).unwrap();
    assert_eq!(delete.deletion.source_path, "source.bin");
    let outcome = delete.deleted(Ok(())).unwrap();
    assert_eq!(outcome.operation_phase, OperationPhase::Completed);
}

#[test]
fn changed_sources_are_not_deleted() {
    let check = relay_publish(RemoteOperation::Rename).published(published()).unwrap();
    let published = match check.destination_verified(Ok(content(5, "d", HELLO))).unwrap() {
        RelayNext::Published(published) => published,
        other => panic!("{other:?}"),
    };
    let recheck = published.persisted(Ok(())).unwrap().source_verified(Ok(content(5, "m", &"0".repeat(64)))).unwrap();
    let refused = recheck.destination_verified(Ok(content(5, "d", HELLO))).unwrap_err();
    assert_eq!(refused.operation_outcome, OperationOutcome::CopiedSourceDeleteFailed);
    assert!(refused.failure.message.contains("source deletion was not attempted"));
}

#[test]
fn failed_deletions_are_told() {
    let check = relay_publish(RemoteOperation::Rename).published(published()).unwrap();
    let published = match check.destination_verified(Ok(content(5, "d", HELLO))).unwrap() {
        RelayNext::Published(published) => published,
        other => panic!("{other:?}"),
    };
    let refused = published
        .persisted(Ok(()))
        .unwrap()
        .source_verified(Ok(content(5, "m", HELLO)))
        .unwrap()
        .destination_verified(Ok(content(5, "d", HELLO)))
        .unwrap()
        .persisted(Ok(()))
        .unwrap()
        .deleted(Err("denied".to_string()))
        .unwrap_err();
    assert_eq!(refused.failure.status, FailureStatus::Partial);
    assert_eq!(refused.operation_outcome, OperationOutcome::CopiedSourceDeleteFailed);
    assert_eq!(refused.operation_phase, OperationPhase::DeleteUncertain);
    assert_eq!(refused.partial_destination.as_deref(), Some("dir/destination.bin"));
}

#[test]
fn relays_stop_before_they_copy() {
    let message = |refused: RemoteTransferFailure| {
        assert_eq!(refused.operation_outcome, OperationOutcome::FailedBeforeCopy);
        refused.failure.message
    };
    let start = || relay_start(RemoteOperation::Copy, false);
    assert!(message(start().source_stated(Watched::TransferCancelled, &mut TransferProgressSnapshot::new()).unwrap_err()).contains("cancelled"));
    assert!(message(start().source_stated(Watched::ConnectionRemoved, &mut TransferProgressSnapshot::new()).unwrap_err()).contains("removed"));
    let large = file(u64::MAX, "m");
    assert!(message(start().source_stated(Watched::Finished(Ok(large)), &mut TransferProgressSnapshot::new()).unwrap_err()).contains("representable"));
    let probe = start().source_stated(Watched::Finished(Ok(file(5, "m"))), &mut TransferProgressSnapshot::new()).unwrap();
    assert!(message(probe.destination_probed(Ok(true)).unwrap_err()).contains("already exists"));
    let probe = relay_start(RemoteOperation::Copy, true).source_stated(Watched::Finished(Ok(file(5, "m"))), &mut TransferProgressSnapshot::new()).unwrap();
    assert!(matches!(probe.destination_probed(Ok(true)).unwrap(), RelayProbeNext::Destination(_)));
}

#[test]
fn relays_that_stop_look_at_their_partial() {
    let mut stream = relay_stream(RemoteOperation::Copy);
    let late = stream.piece_read(Timed::TimedOut, b"").unwrap_err();
    assert!(late.message.contains("watchdog"));
    let abort = stream.failed(late);
    assert!(matches!(abort.aborted(Bounded::Finished(Err(UploadAbortError::Unsupported))), RelayStop::Cleanup(_)));

    let mut short = relay_stream(RemoteOperation::Copy);
    assert!(short.piece_read(Timed::Finished(Ok(4)), b"hell").unwrap());
    assert!(short.piece_written(Timed::Finished(Ok(())), 1_100, &mut TransferProgressSnapshot::new()).unwrap().is_none());
    match short.ended() {
        Err(abort) => assert!(abort.failure.message.contains("expected 5, copied 4")),
        Ok(_) => panic!("a short copy is not closed"),
    }

    let mut stream = relay_stream(RemoteOperation::Copy);
    assert!(stream.piece_read(Timed::Finished(Ok(5)), b"hello").unwrap());
    let mut progress = TransferProgressSnapshot::new();
    let update = stream.piece_written(Timed::Finished(Ok(())), 1_200, &mut progress).unwrap().unwrap();
    assert_eq!(progress.bytes(), 5);
    assert_eq!((update.bytes_transferred, update.total_bytes), (5, 5));
    assert!(stream.progress_persisted(Err("locked".to_string()), 1_200).is_err());
}

#[test]
fn partials_of_other_content_are_preserved() {
    let mut stream = relay_stream(RemoteOperation::Copy);
    assert!(stream.piece_read(Timed::Finished(Ok(5)), b"hello").unwrap());
    stream.piece_written(Timed::Finished(Ok(())), 1_100, &mut TransferProgressSnapshot::new()).unwrap();
    let closing = stream.ended().unwrap_or_else(|abort| panic!("{abort:?}"));
    let closed = closing.writer_closed(Bounded::Finished(Ok(()))).unwrap();
    let check = closed.source_observed(Ok(file(5, "m"))).unwrap();
    match check.partial_verified(Ok(content(5, "p", &"0".repeat(64)))).unwrap_err() {
        RelayStop::Stopped(stopped) => {
            assert_eq!(stopped.operation_outcome, OperationOutcome::FailedWithPartialDestination);
            assert!(stopped.failure.message.contains("partial was preserved"));
        }
        other => panic!("{other:?}"),
    }
}

#[test]
fn partials_are_deleted_only_where_they_are_unchanged() {
    let cleanup = || {
        cleanup_remote_copy_partial(
            "p".to_string(),
            Some(file(5, "m")),
            remote_failure("lost".to_string()),
            Some("s".to_string()),
        )
    };
    match cleanup().observed(Ok(file(5, "later"))) {
        CleanupNext::Settled(settled) => {
            assert!(settled.failure.message.contains("fingerprint changed and was preserved"));
            assert_eq!(settled.partial_destination.as_deref(), Some("p"));
        }
        other => panic!("{other:?}"),
    }
    let deletion = || match cleanup().observed(Ok(file(5, "m"))) {
        CleanupNext::Delete(deletion) => deletion,
        other => panic!("{other:?}"),
    };
    let settled = deletion().deleted(Ok(()));
    assert_eq!((settled.partial_destination, settled.failure.message.as_str()), (None, "lost"));
    let settled = deletion().deleted(Err("denied".to_string()));
    assert!(settled.failure.message.contains("cleanup failed safely: denied"));
}

#[test]
fn native_renames_are_verified() {
    let verify = || match native_dispatch().dispatched(Timed::Finished(Ok(())), true) {
        NativeRenameNext::Verify(verify) => verify,
        other => panic!("{other:?}"),
    };
    let check = verify().destination_observed(Ok(file(5, "m")), true).unwrap();
    let mut progress = TransferProgressSnapshot::new();
    let outcome = check.source_observed(Err("source no longer exists".to_string()), &mut progress).unwrap();
    assert_eq!(progress.bytes(), 5);
    assert_eq!(outcome.operation_outcome, OperationOutcome::Completed);
    let check = verify().destination_observed(Ok(file(5, "m")), true).unwrap();
    assert!(check.source_observed(Ok(file(5, "m")), &mut TransferProgressSnapshot::new()).unwrap_err().failure.message.contains("still present"));
    let refused = verify().destination_observed(Ok(file(6, "m")), false).unwrap_err();
    assert!(refused.failure.message.contains("did not match"));
}

#[test]
fn uncertain_native_renames_claim_nothing() {
    let unknown = MutationError { message: "reset".to_string(), outcome_unknown: true };
    let uncertain = match native_dispatch().dispatched(Timed::Finished(Err(unknown)), true) {
        NativeRenameNext::Reconcile(uncertain) => uncertain,
        other => panic!("{other:?}"),
    };
    let end = uncertain.observed(Ok(file(5, "m")), Ok(file(5, "m")), true);
    assert!(end.failure.message.contains("both source and destination are present"));
    let known = MutationError { message: "denied".to_string(), outcome_unknown: false };
    assert!(matches!(
        native_dispatch().dispatched(Timed::Finished(Err(known)), true),
        NativeRenameNext::Stopped(_)
    ));
    assert!(matches!(native_dispatch().dispatched(Timed::TimedOut, true), NativeRenameNext::Reconcile(_)));
}

#[test]
fn webdav_copies_are_verified() {
    let verify = match webdav_dispatch().dispatched(Timed::Finished(Ok(())), true) {
        WebdavCopyNext::Verify(verify) => verify,
        other => panic!("{other:?}"),
    };
    let mut progress = TransferProgressSnapshot::new();
    let check = verify.source_observed(Ok(file(5, "m"))).unwrap();
    let outcome = check.destination_observed(Ok(file(5, "d")), &mut progress).unwrap();
    assert_eq!(progress.bytes(), 5);
    assert_eq!(outcome.operation_outcome, OperationOutcome::Completed);
    let uncertain = match webdav_dispatch().dispatched(Timed::TransferCancelled, true) {
        WebdavCopyNext::Reconcile(uncertain) => uncertain,
        other => panic!("{other:?}"),
    };
    assert!(uncertain.observed(Err("no".to_string())).failure.message.contains("reconciliation failed: no"));
}

#[test]
fn backend_copies_are_verified() {
    let mut stream = backend_copy(RemoteOperation::Copy);
    let mut progress = TransferProgressSnapshot::new();
    assert!(stream.advanced(3, 1_100, &mut progress).is_none());
    assert_eq!(progress.bytes(), 3);
    let update = stream.advanced(2, 1_200, &mut progress).unwrap();
    assert_eq!((update.bytes_transferred, update.total_bytes), (5, 5));
    let verify = stream.progress_persisted(Ok(()), 1_200).unwrap().finished();
    let check = verify.source_observed(Ok(file(5, "m"))).unwrap();
    let next = check.destination_observed(Ok(file(5, "d")), &mut progress).unwrap();
    assert_eq!(progress.bytes(), 5);
    match next {
        BackendCopyNext::Completed(outcome) => assert_eq!(outcome.bytes_transferred, 5),
        other => panic!("{other:?}"),
    }
    let verify = backend_copy(RemoteOperation::Copy).finished();
    let refused =
        verify.source_observed(Ok(file(5, "later"))).unwrap().destination_observed(Ok(file(5, "d")), &mut TransferProgressSnapshot::new()).unwrap_err();
    assert!(refused.failure.message.contains("source deletion was not attempted"));
}

#[test]
fn backend_renames_delete_their_source_last() {
    let verify = backend_copy(RemoteOperation::Rename).finished();
    let published = match verify
        .source_observed(Ok(file(5, "m")))
        .unwrap()
        .destination_observed(Ok(file(5, "d")), &mut TransferProgressSnapshot::new())
        .unwrap()
    {
        BackendCopyNext::Publish(published) => published,
        other => panic!("{other:?}"),
    };
    assert_eq!(published.update.phase, OperationPhase::PublishedBeforeDelete);
    let delete = published.persisted(Ok(())).unwrap().persisted(Ok(())).unwrap();
    assert_eq!(delete.deletion.destination_path, "dir/destination.bin");
    assert_eq!(delete.deleted(Ok(())).unwrap().operation_phase, OperationPhase::Completed);
}

#[test]
fn interrupted_backend_copies_are_looked_at() {
    let uncertain = backend_copy(RemoteOperation::Copy)
        .interrupted(CopyInterruption::TimedOut, Some("busy".to_string()));
    let end = uncertain.observed(Err("it no longer exists".to_string()));
    assert!(end.failure.message.contains("abort failed: busy"));
    assert!(end.failure.message.contains("destination is absent"));
    assert_eq!(copy_failure_detail("lost", &None), "lost");
    assert_eq!(copy_failure_detail("lost", &Some("busy".to_string())), "lost; abort failed: busy");
}

#[test]
fn uncertain_copies_are_settled_by_what_stands() {
    assert!(error_tells_absence("the file no longer exists") && !error_tells_absence("denied"));
    let source = file(5, "m");
    let settle = |observed| reconcile_uncertain_server_side_copy(observed, &source, "d", "lost", false);
    let other = settle(Ok(file(6, "m")));
    assert_eq!(other.operation_outcome, OperationOutcome::DestinationPresentUnproven);
    assert!(other.failure.message.contains("could not be proven"));
    assert_eq!(
        settle(Err("denied".to_string())).operation_outcome,
        OperationOutcome::DestinationStateUnknown
    );
    let absent = reconcile_uncertain_webdav_copy(Err("it no longer exists".to_string()), &source, "d", "lost");
    assert!(absent.failure.message.contains("may still commit"));
}

#[test]
fn uncertain_moves_are_settled_by_what_stands() {
    let before = file(5, "m");
    let settle = |source, destination| {
        reconcile_uncertain_native_move(source, destination, true, &before, "d", "lost", false)
    };
    let gone = || Err("it no longer exists".to_string());
    let moved = settle(gone(), Ok(file(5, "m")));
    assert_eq!(moved.operation_outcome, OperationOutcome::MoveCommittedResponseUnknown);
    let stayed = settle(Ok(file(5, "m")), gone());
    assert!(stayed.failure.message.contains("may still commit"));
    let unknown = settle(Err("denied".to_string()), gone());
    assert!(unknown.failure.message.contains("inconclusive"));
}

#[test]
fn ended_remote_transfers_are_written_down() {
    let progress = TransferProgressSnapshot::new();
    let check = relay_publish(RemoteOperation::Copy).published(published()).unwrap();
    let outcome = match check.destination_verified(Ok(content(5, "d", HELLO))).unwrap() {
        RelayNext::Completed(outcome) => outcome,
        other => panic!("{other:?}"),
    };
    let finish = finalize_remote_transfer_result(Ok(outcome), &progress, &None);
    assert_eq!((finish.status, finish.operation_phase.as_str()), (TransferStatus::Completed, "completed"));
    let stopped = relay_start(RemoteOperation::Copy, false).source_stated(Watched::TransferCancelled, &mut TransferProgressSnapshot::new()).unwrap_err();
    let finish = finalize_remote_transfer_result(Err(stopped), &progress, &None);
    assert_eq!(finish.status, TransferStatus::Cancelled);
    assert_eq!(finish.operation_outcome, OperationOutcome::FailedBeforeCopy);
}

#[test]
fn webhdfs_does_not_replace() {
    let backend = BackendTraits { direct_webhdfs_rename: true, streaming_webhdfs: true, ..plain() };
    let refused =
        execute_remote_transfer("t".to_string(), job(RemoteOperation::Copy, true, backend)).unwrap_err();
    assert!(refused.failure.message.contains("do not support Replace"));
    let server = BackendTraits { server_side_copy: true, ..plain() };
    assert!(matches!(
        execute_remote_transfer("t".to_string(), job(RemoteOperation::Copy, false, server)).unwrap(),
        RemoteStart::ServerSide(_)
    ));
}

#[test]
fn completed_server_side_operations_are_counted_whole() {
    let mut progress = TransferProgressSnapshot::new();
    let backend = BackendTraits { server_side_copy: true, ..plain() };
    let route = execute_server_side_remote_transfer(job(RemoteOperation::Copy, false, backend))
        .source_stated(Ok(file(5, "m")), &mut progress)
        .unwrap()
        .destination_probed(Watched::Finished(Ok(false)))
        .unwrap()
        .paths_configured(Ok("source.bin".to_string()), Ok("dir/destination.bin".to_string()))
        .unwrap()
        .persisted(Ok("running".to_string()), false)
        .unwrap();
    assert_eq!((progress.total(), progress.bytes()), (Some(5), 0));
    let mut stream = match route {
        ServerSideRoute::BackendCopy(opening) => opening.opened(Ok(()), 1_000).unwrap(),
        other => panic!("{other:?}"),
    };
    stream.advanced(2, 1_001, &mut progress);
    assert_eq!((progress.total(), progress.bytes()), (Some(5), 2));
    let check = stream.finished().source_observed(Ok(file(5, "m"))).unwrap();
    match check.destination_observed(Ok(file(5, "d")), &mut progress).unwrap() {
        BackendCopyNext::Completed(outcome) => {
            assert_eq!((outcome.bytes_transferred, outcome.total_bytes), (5, 5));
        }
        other => panic!("{other:?}"),
    }
    assert_eq!((progress.total(), progress.bytes()), (Some(5), 5));
}

#[test]
fn relayed_pieces_add_up_to_the_digest() {
    for cuts in [vec![5], vec![1, 4], vec![2, 2, 1], vec![1, 1, 1, 1, 1]] {
        let mut progress = TransferProgressSnapshot::new();
        let mut stream = relay_stream(RemoteOperation::Copy);
        let mut verifying = content_stream();
        let mut rest: &[u8] = b"hello";
        for (turn, count) in cuts.into_iter().enumerate() {
            assert!(stream.piece_read(Timed::Finished(Ok(count)), rest).unwrap());
            assert!(verifying.piece_read(Timed::Finished(Ok(count)), rest).unwrap());
            let now = 1_000 + 300 * turn as u64;
            if stream.piece_written(Timed::Finished(Ok(())), now, &mut progress).unwrap().is_some() {
                stream.progress_persisted(Ok(()), now).unwrap();
            }
            rest = &rest[count..];
            assert_eq!(stream.bytes_transferred, 5 - rest.len() as i64);
            assert_eq!(progress.bytes(), stream.bytes_transferred);
        }
        assert!(!stream.piece_read(Timed::Finished(Ok(0)), b"").unwrap());
        let closing = match stream.ended() {
            Ok(closing) => closing,
            Err(abort) => panic!("{abort:?}"),
        };
        let closed = closing.writer_closed(Bounded::Finished(Ok(()))).unwrap();
        assert_eq!((closed.bytes_transferred, closed.relay_hash.as_str()), (5, HELLO));
        let read = verifying.ended(Bounded::Finished(Ok(()))).unwrap();
        assert_eq!((read.bytes_read, read.sha256.as_str()), (5, HELLO));
    }
}
