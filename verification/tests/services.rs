use file_transfer::models::{FileConnectionConfig, FileEntryKind, FileManagerError, FileSecretUpdates, SecretUpdate};
use file_transfer::opening::{
    connections_to_drop, operation_timeout, prepare_saved, prepare_transient, resolved_transport_layers,
    transient_tunnel_id, ConnectionEncodings, EndpointStep, FileOperatorLease, OperatorReady, OperatorStep,
    PreparedOperator, SavedConnection,
};
use file_transfer::operations::{
    destination_path, ensure_source_file, fallback_rename_with_delete, native_outcome, stream_copy_outcome, CopyRoute,
    DestinationStep, FallbackEnd, OperationPaths, OperationReady, ServiceCapability, SourceStep, StreamEnd,
};
use file_transfer::registry::{FileOperatorRegistry, LookUp, SecondLookUp};
use file_transfer::secrets::{resolve_secrets, SecretStep};
use std::sync::Arc;

const SECOND: u64 = 1_000_000_000;

fn connection(id: &str, idle_timeout_secs: u64) -> SavedConnection {
    SavedConnection { id: id.to_string(), is_file_connection: true, query_timeout_secs: 7, idle_timeout_secs }
}

fn ftp(root: &str) -> FileConnectionConfig {
    FileConnectionConfig::Ftp {
        endpoint: "127.0.0.1".to_string(),
        port: 21,
        root: root.to_string(),
        username: "dbx".to_string(),
    }
}

fn s3() -> FileConnectionConfig {
    FileConnectionConfig::S3 {
        endpoint: "http://127.0.0.1:9000".to_string(),
        region: "us-east-1".to_string(),
        bucket: "dbx".to_string(),
        root: "/".to_string(),
        path_style: true,
    }
}

fn prepared(id: &str, root: &str, idle_timeout_secs: u64, password: &str) -> PreparedOperator {
    let updates = FileSecretUpdates { password: SecretUpdate::SetTo(password.to_string()), ..Default::default() };
    let due = prepare_transient(connection(id, idle_timeout_secs), updates).read(Ok(ftp(root))).unwrap();
    let mut request = due.request.clone();
    request.id = None;
    let secrets = match resolve_secrets(&request) {
        SecretStep::Resolved(secrets) => secrets,
        other => panic!("{other:?}"),
    };
    due.resolved(Ok(secrets))
        .unwrap()
        .resolved(Ok(0))
        .unwrap()
        .encoded(Ok(ConnectionEncodings {
            connection: format!("{id} {idle_timeout_secs}").into_bytes(),
            config: root.as_bytes().to_vec(),
            layers: b"[]".to_vec(),
        }))
        .unwrap()
}

fn build(registry: &FileOperatorRegistry, prepared: PreparedOperator) -> OperatorReady {
    match registry.begin(prepared) {
        EndpointStep::Build(due) => match due.open(true) {
            OperatorStep::Ready(ready) => ready,
            other => panic!("{other:?}"),
        },
        other => panic!("{other:?}"),
    }
}

fn get_or_build(registry: &mut FileOperatorRegistry, prepared: PreparedOperator, now: u64) -> FileOperatorLease {
    registry.get_or_build("ftp", now);
    match registry.look_up(&prepared, 1, now) {
        LookUp::Found(lease) => lease,
        LookUp::Wait => match registry.look_up_again(prepared, 1, now) {
            SecondLookUp::Found(lease) => lease,
            SecondLookUp::NotYet { .. } => panic!("it is nobody else's turn"),
            SecondLookUp::Stale { prepared, .. } | SecondLookUp::Missing { prepared } => {
                let ready = build(registry, prepared);
                let lease = registry.keep(ready, now).unwrap();
                registry.leave_build("ftp", 1);
                lease
            }
        },
    }
}

fn paths(replace: bool) -> OperationPaths {
    OperationPaths { source: "source.txt".to_string(), destination: "destination.txt".to_string(), replace }
}

fn error(kind: opendal::ErrorKind) -> opendal::Error {
    opendal::Error::new(kind, "injected")
}

fn ready(replace: bool) -> OperationReady {
    match ensure_source_file(paths(replace)).answered(Ok(FileEntryKind::File)) {
        SourceStep::Destination(due) => match due.answered(Ok(false)) {
            DestinationStep::Ready(ready) => ready,
            other => panic!("{other:?}"),
        },
        other => panic!("{other:?}"),
    }
}

fn assert_partial_success(error: &FileManagerError, source: &str, destination: &str) {
    assert_eq!(error.code, "partial_success");
    assert!(error.message.contains("destination was created"));
    assert!(error
        .recovery
        .as_deref()
        .is_some_and(|recovery| recovery.contains(source) && recovery.contains(destination)));
}

#[test]
fn concurrent_first_use_builds_one_shared_operator() {
    let mut registry = FileOperatorRegistry::default();
    let wanted = || prepared("ftp", "/", 60, "one");
    for opener in [1, 2, 3] {
        assert!(matches!(registry.look_up(&wanted(), opener, 0), LookUp::Wait));
    }
    assert!(registry.has_turn("ftp", 1) && !registry.has_turn("ftp", 2));
    assert!(matches!(registry.look_up_again(wanted(), 2, 0), SecondLookUp::NotYet { .. }));
    let first = match registry.look_up_again(wanted(), 1, 0) {
        SecondLookUp::Missing { prepared } => {
            let ready = build(&registry, prepared);
            registry.keep(ready, 0).unwrap()
        }
        _ => panic!("no service is open"),
    };
    assert!(registry.has_build_lock("ftp"));
    registry.leave_build("ftp", 1);
    let again = |registry: &mut FileOperatorRegistry, opener| match registry.look_up_again(wanted(), opener, 0) {
        SecondLookUp::Found(lease) => lease,
        _ => panic!("the service is open"),
    };
    let second = again(&mut registry, 2);
    registry.leave_build("ftp", 2);
    let third = again(&mut registry, 3);
    registry.leave_build("ftp", 3);
    assert!(Arc::ptr_eq(&first.operator, &second.operator));
    assert!(Arc::ptr_eq(&first.operator, &third.operator));
    assert_eq!(first.operation_timeout.unwrap(), 7);
    assert!(registry.has_build_lock("ftp"));
    registry.drop_connection("ftp");
    registry.remove_unused_build_lock("ftp");
    assert!(!registry.has_build_lock("ftp"));
}

#[test]
fn config_secret_drop_and_idle_changes_rebuild_operator() {
    let mut registry = FileOperatorRegistry::default();
    let first = get_or_build(&mut registry, prepared("ftp", "/first", 60, "one"), 0);
    let same = get_or_build(&mut registry, prepared("ftp", "/first", 60, "one"), 0);
    assert!(Arc::ptr_eq(&first.operator, &same.operator));

    let after_secret = get_or_build(&mut registry, prepared("ftp", "/first", 60, "two"), 0);
    assert!(!Arc::ptr_eq(&first.operator, &after_secret.operator));

    let after_config = get_or_build(&mut registry, prepared("ftp", "/second", 60, "two"), 0);
    assert!(!Arc::ptr_eq(&after_secret.operator, &after_config.operator));

    registry.drop_connection("ftp");
    let after_drop = get_or_build(&mut registry, prepared("ftp", "/second", 60, "two"), 0);
    assert!(!Arc::ptr_eq(&after_config.operator, &after_drop.operator));

    let zero_idle_first = get_or_build(&mut registry, prepared("ftp", "/second", 0, "two"), 0);
    let zero_idle_second = get_or_build(&mut registry, prepared("ftp", "/second", 0, "two"), 0);
    assert!(!Arc::ptr_eq(&zero_idle_first.operator, &zero_idle_second.operator));
}

#[test]
fn unsupported_transport_is_rejected_before_operator_build() {
    let updates = FileSecretUpdates::default();
    let due = prepare_transient(connection("s3", 60), updates).read(Ok(s3())).unwrap();
    let error = due.resolved(Ok(Default::default())).unwrap().resolved(Ok(1)).unwrap_err();
    assert_eq!(error.code, "unsupported");
    assert!(error.message.contains("S3"));
}

#[test]
fn idle_services_are_dropped() {
    let mut registry = FileOperatorRegistry::default();
    let wanted = || prepared("ftp", "/", 60, "one");
    let first = get_or_build(&mut registry, wanted(), 0);
    let kept = get_or_build(&mut registry, wanted(), 59 * SECOND);
    assert!(Arc::ptr_eq(&first.operator, &kept.operator));
    let gone = registry.evict_idle((59 + 60) * SECOND);
    assert_eq!(gone.len(), 1);
    assert_eq!((gone[0].0.as_str(), gone[0].1.id.as_str()), ("ftp", "ftp"));
    assert!(matches!(registry.look_up(&wanted(), 1, 0), LookUp::Wait));
}

#[test]
fn services_opened_before_a_drop_are_not_kept() {
    let mut registry = FileOperatorRegistry::default();
    assert!(matches!(registry.look_up(&prepared("ftp", "/", 60, "one"), 1, 0), LookUp::Wait));
    let opened = match registry.look_up_again(prepared("ftp", "/", 60, "one"), 1, 0) {
        SecondLookUp::Missing { prepared } => build(&registry, prepared),
        _ => panic!("no service is open"),
    };
    assert!(registry.drop_connection("ftp").is_none());
    let refused = registry.keep(opened, 0).err().unwrap();
    assert_eq!(refused.error.code, "connection_changed");
    assert_eq!(refused.tunnel_id, "ftp");
    assert_eq!(registry.generation("ftp"), 1);
}

#[test]
fn saved_connections_are_found_by_their_id() {
    let found = prepare_saved("b").loaded(Ok(vec![connection("a", 1), connection("b", 2)])).unwrap();
    assert_eq!(found.connection.id, "b");
    assert_eq!(prepare_saved("c").loaded(Ok(vec![connection("a", 1)])).unwrap_err().code, "not_found");
    assert_eq!(prepare_saved("c").loaded(Err("locked".to_string())).unwrap_err().code, "storage");
    let other = SavedConnection { is_file_connection: false, ..connection("x", 1) };
    assert_eq!(connections_to_drop(&vec![connection("a", 1), other, connection("b", 1)]), ["a", "b"]);
    let unlimited = SavedConnection { query_timeout_secs: 0, ..connection("x", 1) };
    assert_eq!(operation_timeout(&unlimited), None);
    assert_eq!(operation_timeout(&connection("a", 1)), Some(7));
    assert_eq!(transient_tunnel_id(&connection("a", 1)), "a:file-test");
}

#[test]
fn transport_layers_are_for_ftp_and_sftp() {
    assert!(resolved_transport_layers(&ftp("/"), Ok(2)).unwrap());
    assert!(!resolved_transport_layers(&s3(), Ok(0)).unwrap());
    assert_eq!(resolved_transport_layers(&s3(), Ok(1)).unwrap_err().code, "unsupported");
    assert_eq!(resolved_transport_layers(&ftp("/"), Err("loop".to_string())).unwrap_err().message, "loop");
}

#[test]
fn tunnelled_services_ask_for_their_endpoint() {
    let registry = FileOperatorRegistry::default();
    let tunnelled = || {
        let due = prepare_transient(connection("ftp", 60), FileSecretUpdates::default()).read(Ok(ftp("/"))).unwrap();
        let known = due.resolved(Ok(Default::default())).unwrap().resolved(Ok(1)).unwrap();
        match registry.begin(known.untold()) {
            EndpointStep::Ask(due) => due,
            other => panic!("{other:?}"),
        }
    };
    let due = tunnelled().answered(Ok(("127.0.0.1".to_string(), 9_000))).unwrap();
    assert_eq!(due.runtime_endpoint.as_ref().unwrap().port, 9_000);
    match due.open(true) {
        OperatorStep::Ready(ready) => assert_eq!(ready.into_lease().operation_timeout, Some(7)),
        other => panic!("{other:?}"),
    }
    let failed = tunnelled().answered(Err("refused".to_string())).unwrap_err();
    assert_eq!((failed.error.code, failed.error.message.as_str()), ("connection_failed", "refused"));
}

#[test]
fn destinations_differ_from_their_source() {
    assert_eq!(destination_path("a", Ok("b".to_string())).unwrap(), "b");
    assert_eq!(destination_path("a", Ok("a".to_string())).unwrap_err().code, "configuration");
    assert_eq!(
        destination_path("a", Err(FileManagerError::new("path", "outside"))).unwrap_err().code,
        "path"
    );
}

#[test]
fn stream_fallback_rejects_overwrite_and_directories() {
    let no_copy = ServiceCapability { copy: false, copy_if_absent: false, rename: false, write_if_absent: true };
    assert!(matches!(ready(false).copy_route(no_copy), CopyRoute::Stream { only_if_absent: true }));
    assert!(matches!(ready(true).copy_route(no_copy), CopyRoute::Stream { only_if_absent: false }));
    assert!(stream_copy_outcome(StreamEnd::Copied).is_ok());

    let destination = |replace| match ensure_source_file(paths(replace)).answered(Ok(FileEntryKind::File)) {
        SourceStep::Destination(due) => due,
        other => panic!("{other:?}"),
    };
    match destination(false).answered(Ok(true)) {
        DestinationStep::Failed(error) => assert_eq!(error.code, "already_exists"),
        other => panic!("{other:?}"),
    }
    match destination(true).answered(Ok(true)) {
        DestinationStep::Stat(due) => assert!(due.answered(Ok(FileEntryKind::File)).is_ok()),
        other => panic!("{other:?}"),
    }

    match ensure_source_file(paths(false)).answered(Ok(FileEntryKind::Directory)) {
        SourceStep::Failed(error) => assert_eq!(error.code, "unsupported"),
        other => panic!("{other:?}"),
    }
    match ensure_source_file(paths(false)).answered(Err(error(opendal::ErrorKind::NotFound))) {
        SourceStep::Directory(due) => {
            assert_eq!(due.path(), "source.txt/");
            assert_eq!(due.answered(Ok(FileEntryKind::Directory)).unwrap_err().code, "unsupported");
        }
        other => panic!("{other:?}"),
    }
}

#[test]
fn native_copies_are_taken_where_the_service_has_them() {
    let native = ServiceCapability { copy: true, copy_if_absent: true, rename: true, write_if_absent: true };
    assert!(matches!(ready(false).copy_route(native), CopyRoute::Native { only_if_absent: true }));
    assert!(matches!(ready(true).copy_route(native), CopyRoute::Native { only_if_absent: false }));
    assert!(native_outcome(Ok(())).is_ok());
    assert_eq!(native_outcome(Err(error(opendal::ErrorKind::PermissionDenied))).unwrap_err().code, "permission_denied");
    assert_eq!(stream_copy_outcome(StreamEnd::Interrupted).unwrap_err().code, "transfer");
    let refused = stream_copy_outcome(StreamEnd::ReaderRefused(error(opendal::ErrorKind::NotFound))).unwrap_err();
    assert_eq!(refused.code, "not_found");
}

#[test]
fn fallback_rename_reports_delete_failure_and_timeout_as_partial_success() {
    let failed = fallback_rename_with_delete(
        "delete-fails.txt",
        "copied-before-delete-failure.txt",
        FallbackEnd::Copied(Err(error(opendal::ErrorKind::PermissionDenied))),
    )
    .unwrap_err();
    assert_partial_success(&failed, "delete-fails.txt", "copied-before-delete-failure.txt");

    let late = fallback_rename_with_delete(
        "delete-times-out.txt",
        "copied-before-delete-timeout.txt",
        FallbackEnd::TimedOut { copied: true },
    )
    .unwrap_err();
    assert_partial_success(&late, "delete-times-out.txt", "copied-before-delete-timeout.txt");

    let early = fallback_rename_with_delete("a", "b", FallbackEnd::TimedOut { copied: false }).unwrap_err();
    assert_eq!(early.code, "timeout");
    assert!(fallback_rename_with_delete("a", "b", FallbackEnd::Copied(Ok(()))).is_ok());
    let uncopied = fallback_rename_with_delete("a", "b", FallbackEnd::NotCopied(FileManagerError::new("x", "y")));
    assert_eq!(uncopied.unwrap_err().code, "x");
}
