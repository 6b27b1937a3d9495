use file_transfer::anchored::{
    ensure_target_is_free, entry_identity, metadata_identity, remove_owned_temp, rename_temp_to_target,
    unsupported_rename, unsupported_windows_rename, AnchorOpening, EntryStat, RenameErrno, TempRemovalNext, TempRenameNext,
};
use file_transfer::failure::{cancelled_active_failure, cancelled_failure, FailureStatus};
use file_transfer::fingerprint::{
    durable_text, persisted_relay_hash, persisted_remote_fingerprint_matches,
    persisted_verified_remote_content_matches, RemoteFileFingerprint, VerifiedRemoteContent,
};
use file_transfer::local_path::{LocalPath, PathComponent};
use file_transfer::local_source::{
    change_token, open_local_source, source_fingerprint, validate_local_destination, validate_local_source_path,
    verify_upload_source_unchanged, windows_change_token, ModificationTime, SourceEntry, SourceLook, UploadSourceProof,
};
use file_transfer::ownership::{
    download_temp_name, is_owned_remote_copy_partial, is_owned_temp_path, is_owned_upload_partial, new_transfer_id,
    quarantine_name, remote_copy_partial_path, sibling_remote_path, upload_partial_path,
};
use file_transfer::path_locks::{remote_path_locks, PathLockRegistry};
use file_transfer::policy::{RemoteMutationPolicy, UploadPolicy};
use file_transfer::progress::{progress_is_due, saturating_count, TransferProgressSnapshot};
use file_transfer::record::FileTransferStorageRecord;
use file_transfer::remote::RemoteOperation;
use file_transfer::runtime::{
    FileTransferRuntime, CONNECTION_TRANSFER_LIMIT, CONNECTION_UPLOAD_HANDLE_LIMIT, GLOBAL_TRANSFER_LIMIT,
    GLOBAL_UPLOAD_HANDLE_LIMIT,
};
use file_transfer::start::{
    validate_local_authorization, validate_local_upload_authorization, Authorization, StartDownloadInput,
    StartRemoteTransferInput, StartUploadInput,
};
use file_transfer::text::{
    decimal, error_can_be_cut, is_hex_text, rsplit_once, sanitize_error, signed_decimal, MESSAGE_LIMIT,
};
use file_transfer::worker::{
    acquire_transfer_permit, cancel_reaches_worker, check_queued_download, check_queued_remote_transfer,
    check_queued_upload, connection_ready, known_transfer, transfer_record_for_worker, upload_may_run, PermitKind,
    PermitReply, PrepareReply,
};

fn record(id: &str, direction: &str, status: &str) -> FileTransferStorageRecord {
    FileTransferStorageRecord {
        id: id.to_string(),
        connection_id: "connection-1".to_string(),
        direction: direction.to_string(),
        status: status.to_string(),
        remote_path: "report.csv".to_string(),
        local_path: "/tmp/report.csv".to_string(),
        local_directory_identity: "identity".to_string(),
        connection_revision: None,
        bytes_transferred: 10,
        total_bytes: Some(20),
        temp_path: None,
        temp_identity: None,
        source_fingerprint: None,
        destination_fingerprint: None,
        operation_outcome: None,
        operation_phase: None,
    }
}

fn local(parts: &[&str]) -> LocalPath {
    let mut components = vec![PathComponent::RootDir];
    for part in parts {
        components.push(match *part {
            "." => PathComponent::CurDir,
            ".." => PathComponent::ParentDir,
            name => PathComponent::Normal(name.to_string()),
        });
    }
    LocalPath { absolute: true, components }
}

fn relative(parts: &[&str]) -> LocalPath {
    let components = parts.iter().map(|part| PathComponent::Normal(part.to_string())).collect();
    LocalPath { absolute: false, components }
}

fn upload_policy(atomic_no_clobber: bool, external_toctou_risk: bool) -> UploadPolicy {
    UploadPolicy::BestEffortNoClobber { atomic_no_clobber, external_toctou_risk }
}

#[test]
fn cancel_connection_cancels_queued_and_running_transfers_only_for_target_connection() {
    let mut runtime = FileTransferRuntime::default();
    runtime.register("queued".into(), "ftp-1".into());
    runtime.register_upload("running".into(), "ftp-1".into()).unwrap();
    runtime.register("other".into(), "ftp-2".into());

    assert_eq!(runtime.cancel_connection("ftp-1"), 2);
    assert!(runtime.is_cancelled("queued"));
    assert!(runtime.is_cancelled("running"));
    assert!(!runtime.is_cancelled("other"));
    assert_eq!(runtime.cancel_connection("missing"), 0);
    assert!(!runtime.is_cancelled("other"));
}

#[test]
fn upload_policy_is_required_and_rejects_replace_or_false_safety_claims() {
    let input = |policy| StartUploadInput {
        connection_id: "ftp-1".to_string(),
        local_path: "/tmp/source.bin".to_string(),
        remote_path: "source.bin".to_string(),
        policy,
    };
    let parsed = input(upload_policy(false, true));
    assert_eq!(parsed.policy, UploadPolicy::best_effort_no_clobber());
    parsed.policy.validate().unwrap();

    let parsed = input(upload_policy(true, true));
    assert!(parsed.policy.validate().unwrap_err().contains("atomicNoClobber=false"));
    assert!(upload_policy(false, false).validate().unwrap_err().contains("externalToctouRisk=true"));
}

#[test]
fn remote_mutation_input_rejects_cross_connection_fields_and_unconfirmed_replace() {
    let input = |policy| StartRemoteTransferInput {
        connection_id: "ftp-1".to_string(),
        source_path: "source.bin".to_string(),
        destination_path: "destination.bin".to_string(),
        policy,
    };
    let parsed =
        input(RemoteMutationPolicy::BestEffortNoClobber { atomic_no_clobber: false, external_toctou_risk: true });
    parsed.policy.validate().unwrap();

    let parsed = input(RemoteMutationPolicy::Replace { confirmed: false });
    assert!(parsed.policy.validate().unwrap_err().contains("explicit confirmation"));
    input(RemoteMutationPolicy::Replace { confirmed: true }).policy.validate().unwrap();
}

#[test]
fn remote_policies_tell_replacing_from_keeping() {
    let claim =
        |atomic| RemoteMutationPolicy::BestEffortNoClobber { atomic_no_clobber: atomic, external_toctou_risk: true };
    assert!(!claim(false).replace());
    assert!(!RemoteMutationPolicy::Replace { confirmed: false }.replace());
    assert!(RemoteMutationPolicy::Replace { confirmed: true }.replace());
    assert_eq!(
        claim(true).validate().unwrap_err(),
        "FTP copy/rename requires atomicNoClobber=false and externalToctouRisk=true"
    );
}

#[test]
fn persisted_remote_fingerprint_accepts_s3_fields_and_validates_optional_ftp_relay_hash() {
    let observed =
        RemoteFileFingerprint { size: 16, modified: "2026-07-25T00:00:00Z".to_string(), etag: None, version: None };
    let hash = "a".repeat(64);
    let persisted = format!("{};relay_sha256:{hash}", observed.encode());
    assert!(persisted_remote_fingerprint_matches(&persisted, &observed));
    assert_eq!(persisted_relay_hash(Some(&persisted)), Some(hash.as_str()));
    assert!(!persisted_remote_fingerprint_matches(&format!("{}0;relay_sha256:{hash}", observed.encode()), &observed));
    assert!(persisted_remote_fingerprint_matches(&observed.encode(), &observed));
    assert!(!persisted_remote_fingerprint_matches(&format!("{}0", observed.encode()), &observed));
    assert!(!persisted_remote_fingerprint_matches(&format!("{};relay_sha256:short", observed.encode()), &observed));
}

#[test]
fn fingerprints_are_encoded_without_loss() {
    let file = |size, modified: &str, etag: Option<&str>, version: Option<&str>| RemoteFileFingerprint {
        size,
        modified: modified.to_string(),
        etag: etag.map(str::to_string),
        version: version.map(str::to_string),
    };
    let files = [
        file(1, "", None, None),
        file(11, "", None, None),
        file(1, "1", None, None),
        file(1, "", Some(""), None),
        file(1, "", None, Some("")),
        file(1, "a", Some("b"), Some("c")),
        file(1, "ab", Some(""), Some("c")),
        file(1, "a:b", None, None),
    ];
    for (first, left) in files.iter().enumerate() {
        for (second, right) in files.iter().enumerate() {
            assert_eq!(left.encode() == right.encode(), first == second);
            assert_eq!(left.same_as(right), first == second);
        }
    }
}

#[test]
fn durable_texts_name_a_file_and_its_content() {
    let fingerprint =
        RemoteFileFingerprint { size: 3, modified: "today".to_string(), etag: Some("e".to_string()), version: None };
    let content = VerifiedRemoteContent { fingerprint: fingerprint.clone(), sha256: "0f".repeat(32) };
    let durable = content.durable_fingerprint();
    assert_eq!(durable, durable_text(&fingerprint, &content.sha256));
    assert!(persisted_remote_fingerprint_matches(&durable, &fingerprint));
    assert!(persisted_verified_remote_content_matches(&durable, &content));
    let other = VerifiedRemoteContent { fingerprint: fingerprint.clone(), sha256: "1f".repeat(32) };
    assert!(!persisted_verified_remote_content_matches(&durable, &other));
    assert!(!persisted_verified_remote_content_matches(&fingerprint.encode(), &content));
    assert_eq!(persisted_relay_hash(None), None);
    assert_eq!(persisted_relay_hash(Some(&fingerprint.encode())), None);
}

#[test]
fn remote_path_locks_serialize_reversed_pairs_and_prune_registry() {
    let forward = remote_path_locks("ftp-1", "source.bin", "destination.bin");
    let reversed = remote_path_locks("ftp-1", "destination.bin", "source.bin");
    assert_eq!(forward, reversed);
    assert_eq!(forward.len(), 2);
    assert!(forward[0] < forward[1]);

    let mut registry = PathLockRegistry::new();
    for (operation, names) in [(1_u64, &forward), (2, &reversed)] {
        for name in names {
            registry.enter(name, operation);
        }
    }
    for name in &forward {
        assert!(registry.line_up(name, 1));
    }
    assert!(!registry.line_up(&reversed[0], 2));
    assert!(!registry.holds(&reversed[0], 2));
    for name in &forward {
        registry.leave(name, 1);
    }
    assert!(!registry.is_empty());
    for name in &reversed {
        assert!(registry.line_up(name, 2));
    }
    for name in &reversed {
        registry.leave(name, 2);
    }
    assert!(registry.is_empty());

    let same_path = remote_path_locks("ftp-1", "same.bin", "same.bin");
    assert_eq!(same_path.len(), 1);
    registry.enter(&same_path[0], 3);
    assert!(registry.line_up(&same_path[0], 3));
    registry.leave(&same_path[0], 3);
    assert!(registry.is_empty());
}

#[test]
fn locks_of_different_files_have_different_names() {
    let name = |connection: &str, path: &str| remote_path_locks(connection, path, path).remove(0);
    assert_eq!(name("ftp-1", "a"), "5:ftp-1a");
    assert_ne!(name("a", "bc"), name("ab", "c"));
    assert_ne!(name("1", "1:x"), name("11", ":x"));
    let mut registry = PathLockRegistry::new();
    registry.enter("a", 1);
    registry.leave("b", 1);
    registry.leave("a", 2);
    assert!(!registry.line_up("a", 2));
    assert!(registry.line_up("a", 1));
    assert!(!registry.is_empty());
}

#[test]
fn local_destination_requires_dialog_scope_authorization_even_before_it_exists() {
    assert!(validate_local_authorization(Authorization::Denied).unwrap_err().contains("not authorized"));
    assert!(validate_local_authorization(Authorization::Granted).is_ok());
    assert!(validate_local_authorization(Authorization::Unavailable).unwrap_err().contains("unavailable"));
}

#[test]
fn local_upload_source_requires_dialog_scope_authorization() {
    assert!(validate_local_upload_authorization(Authorization::Denied).unwrap_err().contains("not authorized"));
    assert!(validate_local_upload_authorization(Authorization::Granted).is_ok());
    assert!(validate_local_upload_authorization(Authorization::Unavailable).unwrap_err().contains("unavailable"));
}

#[test]
fn transfers_start_with_authorized_paths() {
    let download = StartDownloadInput {
        connection_id: "c".to_string(),
        remote_path: "r".to_string(),
        local_path: "/tmp/l".to_string(),
    };
    let taken = download.admitted(Ok("r".to_string()), Ok("id".to_string()), Authorization::Granted).unwrap();
    assert_eq!(taken, ("r".to_string(), "id".to_string()));
    assert_eq!(
        download.admitted(Err("bad path".to_string()), Err("no".to_string()), Authorization::Denied).unwrap_err(),
        "bad path"
    );
    assert_eq!(
        download.admitted(Ok("r".to_string()), Err("no".to_string()), Authorization::Denied).unwrap_err(),
        "no"
    );
    assert!(download
        .admitted(Ok("r".to_string()), Ok("id".to_string()), Authorization::Denied)
        .unwrap_err()
        .contains("save dialog"));

    let upload = |policy| StartUploadInput {
        connection_id: "c".to_string(),
        local_path: "/tmp/l".to_string(),
        remote_path: "r".to_string(),
        policy,
    };
    let path = local(&["tmp", "l"]);
    let good = upload(upload_policy(false, true));
    assert_eq!(good.admitted(Ok("r".to_string()), &path, Authorization::Granted).unwrap(), "r");
    assert!(upload(upload_policy(true, true))
        .admitted(Err("bad path".to_string()), &path, Authorization::Granted)
        .unwrap_err()
        .contains("atomicNoClobber"));
    assert!(good
        .admitted(Ok("r".to_string()), &relative(&["l"]), Authorization::Granted)
        .unwrap_err()
        .contains("absolute"));
    assert!(good.admitted(Ok("r".to_string()), &path, Authorization::Denied).unwrap_err().contains("open dialog"));
}

#[test]
fn webhdfs_replace_is_rejected_before_creating_or_starting_a_transfer() {
    let input = |policy| StartRemoteTransferInput {
        connection_id: "c".to_string(),
        source_path: "a".to_string(),
        destination_path: "b".to_string(),
        policy,
    };
    let replace = input(RemoteMutationPolicy::Replace { confirmed: true });
    assert!(replace.supported_by(true).unwrap_err().contains("WebHDFS"));
    assert!(replace.supported_by(false).is_ok());
    let keep =
        input(RemoteMutationPolicy::BestEffortNoClobber { atomic_no_clobber: false, external_toctou_risk: true });
    assert!(keep.supported_by(true).is_ok());
    assert_eq!(
        keep.admitted(Ok("a".to_string()), Ok("b".to_string())).unwrap(),
        ("a".to_string(), "b".to_string())
    );
    assert!(keep.admitted(Ok("a".to_string()), Ok("a".to_string())).unwrap_err().contains("must be different"));
}

#[test]
fn recovery_only_accepts_the_operation_owned_sibling_temp() {
    let target = local(&["tmp", "report.csv"]);
    let transfer = record("transfer-1", "download", "running");
    assert!(is_owned_temp_path(&transfer, &target, &local(&["tmp", ".dbx-download-transfer-1-random.part"])));
    assert!(!is_owned_temp_path(&transfer, &target, &local(&["tmp", ".dbx-download-other-random.part"])));
    assert!(!is_owned_temp_path(&transfer, &target, &local(&["tmp", "..", "outside.part"])));

    let remote_copy = FileTransferStorageRecord {
        direction: "copy".to_string(),
        remote_path: "reports/source.csv".to_string(),
        local_path: "reports/final.csv".to_string(),
        ..transfer
    };
    assert!(is_owned_remote_copy_partial(&remote_copy, "reports/.dbx-copy-transfer-1-random.part"));
    assert!(!is_owned_remote_copy_partial(&remote_copy, "other/.dbx-copy-transfer-1-random.part"));
    assert!(!is_owned_remote_copy_partial(&remote_copy, "reports/.dbx-copy-someone-else-random.part"));
    assert!(!is_owned_remote_copy_partial(
        &FileTransferStorageRecord { direction: "download".to_string(), ..remote_copy },
        "reports/.dbx-copy-transfer-1-random.part"
    ));
}

#[test]
fn partials_are_owned_by_the_transfer_that_named_them() {
    let mut transfer = record("t", "upload", "running");
    transfer.remote_path = "a/b/c.bin".to_string();
    let partial = upload_partial_path("a/b/c.bin", "t");
    assert!(partial.starts_with("a/b/.dbx-upload-t-") && partial.ends_with(".part"));
    assert!(is_owned_upload_partial(&transfer, &partial));
    assert!(!is_owned_upload_partial(&transfer, &upload_partial_path("a/b/c.bin", "other")));
    assert!(!is_owned_upload_partial(&transfer, &upload_partial_path("a/c.bin", "t")));
    assert_ne!(partial, upload_partial_path("a/b/c.bin", "t"));
    assert!(upload_partial_path("top.bin", "t").starts_with(".dbx-upload-t-"));

    let mut copy = record("t", "rename", "running");
    copy.local_path = "a/d.bin".to_string();
    assert!(is_owned_remote_copy_partial(&copy, &remote_copy_partial_path("a/d.bin", "t")));

    let temp = download_temp_name("t");
    assert!(is_owned_temp_path(&record("t", "download", "x"), &local(&["tmp", "f"]), &local(&["tmp", &temp])));
    assert!(!is_owned_temp_path(&record("t", "upload", "x"), &local(&["tmp", "f"]), &local(&["tmp", &temp])));
    assert_eq!(sibling_remote_path("a/b", ".part"), "a/.part");
    assert_eq!(sibling_remote_path("b", ".part"), ".part");
    assert!(quarantine_name(".q-").starts_with(".q-"));
}

#[test]
fn identifiers_are_random_uuids() {
    let first = new_transfer_id();
    let second = new_transfer_id();
    assert_ne!(first, second);
    assert_eq!(uuid::Uuid::parse_str(&first).unwrap().get_version_num(), 4);
    assert!(!first.contains('/') && !first.contains('.'));
}

#[test]
fn limiter_defaults_are_eight_global_and_four_per_connection() {
    let mut runtime = FileTransferRuntime::default();
    assert_eq!(GLOBAL_TRANSFER_LIMIT, 8);
    assert_eq!(CONNECTION_TRANSFER_LIMIT, 4);
    assert!(runtime.connection_limit("ftp-1"));
    assert!(!runtime.connection_limit("ftp-1"));
    assert!(!cancelled_failure().invalidate_operator);
    assert!(cancelled_active_failure().invalidate_operator);
}

#[test]
fn upload_handle_admission_is_bounded_globally_and_per_connection() {
    let mut runtime = FileTransferRuntime::default();
    for index in 0..CONNECTION_UPLOAD_HANDLE_LIMIT {
        runtime.register_upload(format!("same-{index}"), "ftp-1".to_string()).unwrap();
    }
    assert!(runtime
        .register_upload("same-overflow".to_string(), "ftp-1".to_string())
        .unwrap_err()
        .contains("this connection"));
    for index in CONNECTION_UPLOAD_HANDLE_LIMIT..GLOBAL_UPLOAD_HANDLE_LIMIT {
        runtime.register_upload(format!("global-{index}"), format!("ftp-{index}")).unwrap();
    }
    assert!(runtime
        .register_upload("global-overflow".to_string(), "another".to_string())
        .unwrap_err()
        .contains("Too many active"));
}

#[test]
fn finished_transfers_leave_the_runtime() {
    let mut runtime = FileTransferRuntime::new();
    runtime.register("a".to_string(), "c".to_string());
    runtime.register("b".to_string(), "c".to_string());
    assert_eq!(runtime.transfer_ids("c"), ["a", "b"]);
    assert!(runtime.cancel("a"));
    assert!(!runtime.cancel("z"));
    assert!(!runtime.is_cancelled("z"));
    runtime.unregister("a");
    assert!(!runtime.cancel("a"));
    assert_eq!(runtime.transfer_ids("c"), ["b"]);
    assert!(runtime.recovery_ended(Err("no".to_string())).is_err() && !runtime.recovered);
    assert!(runtime.recovery_ended(Ok(())).is_ok() && runtime.recovered);
}

#[test]
fn progress_is_shown_now_and_again() {
    let mut runtime = FileTransferRuntime::new();
    assert!(runtime.should_emit_progress(1000));
    assert!(!runtime.should_emit_progress(1049));
    assert!(runtime.should_emit_progress(1050));
    assert!(!runtime.should_emit_update("completed", 5000));
    assert!(runtime.should_emit_update("running", 5000));
    assert!(!progress_is_due(1000, 1199));
    assert!(progress_is_due(1000, 1200));
    assert!(!progress_is_due(1000, 900));
    assert_eq!(saturating_count(i64::MAX - 1, 5), i64::MAX);
    assert_eq!(saturating_count(3, 4), 7);
    let mut snapshot = TransferProgressSnapshot::new();
    assert_eq!((snapshot.bytes(), snapshot.total()), (0, None));
    snapshot.record_total(Some(9));
    snapshot.record_bytes(4);
    assert_eq!((snapshot.bytes(), snapshot.total()), (4, Some(9)));
}

#[test]
fn local_paths_are_refused_for_what_they_are() {
    assert!(validate_local_source_path(&relative(&["f"])).unwrap_err().contains("absolute"));
    assert!(validate_local_source_path(&local(&["tmp", "..", "f"])).unwrap_err().contains("'.' or '..'"));
    assert!(validate_local_source_path(&local(&[])).unwrap_err().contains("must name a file"));
    assert!(validate_local_source_path(&local(&["tmp", "f"])).is_ok());
    assert!(validate_local_destination(&relative(&["f"])).unwrap_err().contains("absolute"));
    let opening = validate_local_destination(&local(&["tmp", "f"])).unwrap();
    assert_eq!(opening.target_name, "f");
    assert_eq!(opening.walk.as_ref().unwrap(), &vec!["tmp".to_string()]);
    assert_eq!(opening.inspected(Ok(()), EntryStat::NotFound, Ok("cap:1:2".to_string())).unwrap(), "cap:1:2");
    let opening = || validate_local_destination(&local(&["tmp", "f"])).unwrap();
    assert!(opening()
        .inspected(Err("no".to_string()), EntryStat::NotFound, Ok(String::new()))
        .unwrap_err()
        .contains("unavailable or unsafe"));
    assert!(opening()
        .inspected(Ok(()), EntryStat::Symlink, Ok(String::new()))
        .unwrap_err()
        .contains("already exists"));
}

#[test]
fn upload_sources_are_opened_as_they_were_seen() {
    let opening = open_local_source(&local(&["tmp", "f"])).unwrap();
    let entry = |is_symlink, is_file| SourceEntry { is_symlink, is_file, identity: "cap:1:2".to_string() };
    assert_eq!(opening.entry_seen(Ok(()), Ok(entry(false, true))).unwrap(), "cap:1:2");
    assert!(opening.entry_seen(Ok(()), Ok(entry(true, false))).unwrap_err().contains("symbolic link"));
    assert!(opening.entry_seen(Ok(()), Ok(entry(false, false))).unwrap_err().contains("regular file"));
    assert_eq!(opening.file_opened("cap:1:2", "cap:1:2", 7).unwrap(), 7);
    assert!(opening.file_opened("cap:1:2", "cap:1:3", 7).unwrap_err().contains("being opened"));
    assert!(opening.file_opened("a", "a", u64::MAX).unwrap_err().contains("too large"));
}

#[test]
fn upload_source_truncation_growth_and_modification_are_rejected() {
    let modified = |nanoseconds| Some(ModificationTime { seconds: 5, nanoseconds });
    let before = source_fingerprint(7, modified(9), &change_token(5, 9));
    assert_eq!(before, "7:5:9:ctime:5:9");
    assert_eq!(source_fingerprint(7, None, "x"), "7:unknown:x");
    assert_eq!(windows_change_token(-5), "change_time:-5");
    let proof = UploadSourceProof {
        path: local(&["tmp", "source.bin"]),
        directory_identity: "d".to_string(),
        identity: "f".to_string(),
        fingerprint: before.clone(),
        total_bytes: 7,
    };
    let entry = || Ok(SourceEntry { is_symlink: false, is_file: true, identity: "f".to_string() });
    let look = |directory: &str, entry: Result<SourceEntry, String>, fingerprint: String| SourceLook {
        opened: Ok(()),
        directory: Ok(directory.to_string()),
        entry,
        fingerprint: Ok(fingerprint),
    };
    let unchanged = |fingerprint: String, bytes| {
        verify_upload_source_unchanged(&proof, look("d", entry(), fingerprint), bytes)
    };
    assert!(unchanged(before.clone(), 7).is_ok());
    assert!(unchanged(before.clone(), 6).unwrap_err().contains("Upload source changed"));
    for later in [
        source_fingerprint(6, modified(9), &change_token(5, 9)),
        source_fingerprint(8, modified(9), &change_token(5, 9)),
        source_fingerprint(7, modified(10), &change_token(5, 9)),
        source_fingerprint(7, modified(9), &change_token(5, 10)),
    ] {
        assert!(unchanged(later, 7).unwrap_err().contains("Upload source changed"));
    }
    let moved = Ok(SourceEntry { is_symlink: false, is_file: true, identity: "g".to_string() });
    assert!(verify_upload_source_unchanged(&proof, look("d", moved, before.clone()), 7).is_err());
    assert!(verify_upload_source_unchanged(&proof, look("e", entry(), before), 7)
        .unwrap_err()
        .contains("parent changed"));
}

#[test]
fn entries_are_told_apart_by_their_identity() {
    assert_eq!(metadata_identity(12, 3), "cap:12:3");
    assert_ne!(metadata_identity(1, 23), metadata_identity(12, 3));
    assert_eq!(entry_identity(EntryStat::NotFound).unwrap(), None);
    assert_eq!(entry_identity(EntryStat::File(Ok("i".to_string()))).unwrap(), Some("i".to_string()));
    assert!(entry_identity(EntryStat::Symlink).unwrap_err().contains("symbolic link"));
    assert!(entry_identity(EntryStat::NotFile).unwrap_err().contains("non-file"));
    assert!(ensure_target_is_free(EntryStat::NotFound).is_ok());
    assert!(ensure_target_is_free(EntryStat::File(Ok("i".to_string()))).unwrap_err().contains("already exists"));
}

#[test]
fn cleanup_leaf_swap_quarantines_and_preserves_the_replacement() {
    let file = |identity: &str| EntryStat::File(Ok(identity.to_string()));
    assert!(matches!(remove_owned_temp(EntryStat::NotFound, "i").unwrap(), TempRemovalNext::Absent));
    assert!(remove_owned_temp(file("j"), "i").unwrap_err().contains("identity changed"));
    let set_aside = || match remove_owned_temp(file("i"), "i").unwrap() {
        TempRemovalNext::SetAside(next) => next,
        other => panic!("{other:?}"),
    };
    assert_eq!(set_aside().set_aside(file("i"), "q").unwrap().expected_identity, "i");
    let refused = set_aside().set_aside(file("j"), "q").unwrap_err();
    assert!(refused.contains("replacement preserved in q"));
}

#[test]
fn publish_leaf_swap_is_detected_without_deleting_the_replacement() {
    let file = |identity: &str| EntryStat::File(Ok(identity.to_string()));
    assert!(rename_temp_to_target(EntryStat::NotFound, "i").unwrap_err().contains("missing"));
    assert!(rename_temp_to_target(file("j"), "i").unwrap_err().contains("identity changed"));
    let rename = || rename_temp_to_target(file("i"), "i").unwrap();
    assert!(matches!(rename().renamed(file("i")).unwrap(), TempRenameNext::Published));
    match rename().renamed(file("j")).unwrap() {
        TempRenameNext::SetAside(rejected) => {
            assert!(rejected.set_aside("q").contains("replacement preserved in q"));
        }
        other => panic!("{other:?}"),
    }
}

#[test]
fn unsupported_atomic_rename_is_rejected_without_a_hard_link_fallback() {
    for errno in [RenameErrno::NoSuchCall, RenameErrno::NotSupported, RenameErrno::InvalidArgument] {
        let message = unsupported_rename(errno, "ENOSYS").unwrap();
        assert_eq!(message, "filesystem does not support atomic no-replace rename: ENOSYS");
    }
    assert_eq!(unsupported_rename(RenameErrno::Other, "EEXIST"), None);
    for code in [1, 17, 50, 87, 120] {
        let message = unsupported_windows_rename(Some(code), "no").unwrap();
        assert_eq!(message, "filesystem does not support same-volume atomic no-replace rename: no");
    }
    assert_eq!(unsupported_windows_rename(Some(80), "exists"), None);
    assert_eq!(unsupported_windows_rename(None, "no"), None);
}

#[test]
fn anchors_hold_siblings_in_the_authorized_directory() {
    let target = local(&["tmp", "f"]);
    let opening = AnchorOpening::new(&target, &local(&["tmp", ".t"])).unwrap();
    let anchored = opening
        .directory_opened(Ok(()))
        .unwrap()
        .identified(Ok("d".to_string()), "d", Some(EntryStat::NotFound))
        .unwrap();
    assert_eq!((anchored.target_name.as_str(), anchored.temp_name.as_str()), ("f", ".t"));
    assert!(AnchorOpening::new(&target, &local(&["var", ".t"])).unwrap_err().contains("sibling"));
    let opening = AnchorOpening::new(&target, &local(&["tmp", ".t"])).unwrap();
    assert!(opening.directory_opened(Err("no".to_string())).unwrap_err().contains("safely"));
    let identifying = AnchorOpening::new(&target, &local(&["tmp", ".t"])).unwrap().directory_opened(Ok(())).unwrap();
    assert!(identifying.identified(Ok("e".to_string()), "d", None).unwrap_err().contains("changed"));
}

#[test]
fn queued_transfers_run_as_they_were_queued() {
    let mut queued = record("t", "download", "queued");
    queued.connection_revision = Some(4);
    assert_eq!(check_queued_download(&queued, &queued).unwrap(), 4);
    let mut moved = record("t", "download", "queued");
    moved.connection_revision = Some(4);
    moved.remote_path = "other".to_string();
    assert!(check_queued_download(&queued, &moved).unwrap_err().message.contains("changed while queued"));
    let unrevised = record("t", "download", "queued");
    assert!(check_queued_download(&unrevised, &unrevised).unwrap_err().message.contains("revision"));
    assert_eq!(check_queued_upload(&queued, &queued).unwrap(), 4);
    assert!(check_queued_upload(&queued, &moved).unwrap_err().failure.message.contains("paths changed"));
    let mut revised = record("t", "download", "queued");
    revised.connection_revision = Some(5);
    assert!(check_queued_upload(&queued, &revised).unwrap_err().failure.message.contains("revision changed"));
    let mut copy = record("t", "copy", "queued");
    copy.connection_revision = Some(4);
    assert_eq!(check_queued_remote_transfer(&copy, &copy, RemoteOperation::Copy).unwrap(), 4);
    assert!(check_queued_remote_transfer(&copy, &copy, RemoteOperation::Rename)
        .unwrap_err()
        .failure
        .message
        .contains("changed while queued"));
}

#[test]
fn persisted_queued_cancel_intent_wins_before_worker_start() {
    let cancelled = transfer_record_for_worker(Ok(Some(record("t", "download", "cancelling")))).unwrap_err();
    assert_eq!(cancelled.status, FailureStatus::Cancelled);
    assert!(!cancelled.invalidate_operator);
    assert!(transfer_record_for_worker(Ok(Some(record("t", "download", "queued")))).is_ok());
    assert!(transfer_record_for_worker(Ok(Some(record("t", "download", "running")))).is_ok());
    let ended = transfer_record_for_worker(Ok(Some(record("t", "download", "completed")))).unwrap_err();
    assert_eq!(ended.message, "File transfer is already completed");
    assert_eq!(transfer_record_for_worker(Ok(None)).unwrap_err().message, "File transfer not found");
    assert!(known_transfer(None).is_err());
    assert!(cancel_reaches_worker("cancelling") && !cancel_reaches_worker("cancelled"));
    assert!(upload_may_run(Ok("running".to_string()), false).is_ok());
    assert_eq!(
        upload_may_run(Ok("cancelling".to_string()), false).unwrap_err().failure.status,
        FailureStatus::Cancelled
    );
}

#[test]
fn permits_and_connections_are_waited_for() {
    assert!(acquire_transfer_permit(PermitKind::Global, PermitReply::Granted).is_ok());
    assert_eq!(
        acquire_transfer_permit(PermitKind::Connection, PermitReply::Cancelled).unwrap_err().status,
        FailureStatus::Cancelled
    );
    assert_eq!(
        acquire_transfer_permit(PermitKind::Global, PermitReply::Closed).unwrap_err().message,
        "Global transfer limiter closed"
    );
    assert!(connection_ready(PrepareReply::Ready).is_ok());
    assert_eq!(connection_ready(PrepareReply::Failed("no".to_string())).unwrap_err().message, "no");
    assert_eq!(connection_ready(PrepareReply::Cancelled).unwrap_err().status, FailureStatus::Cancelled);
}

#[test]
fn long_messages_are_cut() {
    let long = "x".repeat(MESSAGE_LIMIT + 10);
    assert!(error_can_be_cut(&long));
    let kept = sanitize_error(&long);
    assert!(kept.len() < long.len() && kept.starts_with(&"x".repeat(MESSAGE_LIMIT)));
    assert_eq!(sanitize_error("short"), "short");
}

#[test]
fn texts_are_split_and_read() {
    assert_eq!(rsplit_once("a;b;c", ";"), Some(("a;b", "c")));
    assert_eq!(rsplit_once("abc", ";"), None);
    assert!(is_hex_text("09afAF") && !is_hex_text("0g"));
    for value in [0, 7, 10, 1234567890, u64::MAX] {
        assert_eq!(decimal(value), value.to_string());
    }
    for value in [0, -1, i64::MIN, i64::MAX] {
        assert_eq!(signed_decimal(value), value.to_string());
    }
}

#[test]
fn transfers_that_are_taken_up_again_were_not_told_to_stop() {
    let mut runtime = FileTransferRuntime::new();
    runtime.register("a".to_string(), "c".to_string());
    assert!(runtime.cancel("a"));
    assert!(runtime.is_cancelled("a"));
    runtime.register("a".to_string(), "c".to_string());
    assert!(!runtime.is_cancelled("a"));
    assert!(runtime.cancel("a"));
    runtime.register_upload("a".to_string(), "c".to_string()).unwrap();
    assert!(!runtime.is_cancelled("a"));
}

#[test]
fn three_operations_do_not_wait_in_a_circle() {
    let mut registry = PathLockRegistry::new();
    let pairs = [(1_u64, "a", "b"), (2, "b", "c"), (3, "c", "a")];
    let names: Vec<Vec<String>> = pairs.iter().map(|(_, from, to)| remote_path_locks("c", from, to)).collect();
    for (operation, own) in [1_u64, 2, 3].into_iter().zip(&names) {
        for name in own {
            registry.enter(name, operation);
        }
    }
    assert!(registry.line_up(&names[0][0], 1));
    assert!(registry.line_up(&names[1][0], 2));
    assert_eq!(names[2][0], names[0][0]);
    assert!(!registry.line_up(&names[2][0], 3));
    assert!(!registry.line_up(&names[0][1], 1));
    assert!(registry.line_up(&names[1][1], 2));
    for (operation, own) in [(2_u64, &names[1]), (1, &names[0]), (3, &names[2])] {
        for name in own {
            assert!(registry.line_up(name, operation));
        }
        for name in own {
            registry.leave(name, operation);
        }
    }
    assert!(registry.is_empty());
}

#[test]
fn unauthorized_uploads_are_answered_alike() {
    let input = |path: &str| StartUploadInput {
        connection_id: "c".to_string(),
        local_path: path.to_string(),
        remote_path: "r".to_string(),
        policy: upload_policy(false, true),
    };
    let answer = |name: &str| {
        input(name).admitted(Ok("r".to_string()), &local(&["tmp", name]), Authorization::Denied).unwrap_err()
    };
    assert_eq!(answer("present.bin"), answer("missing.bin"));
    assert!(answer("present.bin").contains("not authorized"));
}
