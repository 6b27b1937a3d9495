use file_transfer::adapter::{build_operator, reject_runtime_endpoint, OperatorBuild, RuntimeEndpoint};
use file_transfer::backend::{
    build_error, map_build_error, map_operation_error, operation_error, BackendErrorKind,
};
use file_transfer::connection_fingerprint::{base_fingerprint, full_fingerprint};
use file_transfer::endpoint::{
    endpoint_with_port, is_port_text, trim, trim_slashes, validate_hdfs_name_node_uri, validate_required, whitespace,
};
use file_transfer::models::{
    FileCapabilities, FileConnectionConfig, FileCopyMode, FileManagerError, FileRenameMode, FileSecretUpdates,
    HdfsConfig, SecretUpdate, SftpAuthentication, TestFileConnectionRequest, WebdavAuthentication,
};
use file_transfer::secrets::{resolve_secrets, ResolvedSecrets, SavedSecretStep, SecretStep};
use sha2::Digest;

fn ftp() -> FileConnectionConfig {
    FileConnectionConfig::Ftp {
        endpoint: "ftp.example.com".to_string(),
        port: 21,
        root: "/".to_string(),
        username: "dbx".to_string(),
    }
}

fn sftp(authentication: SftpAuthentication) -> FileConnectionConfig {
    FileConnectionConfig::Sftp {
        endpoint: "127.0.0.1".to_string(),
        port: 2222,
        root: "/config".to_string(),
        username: "dbx".to_string(),
        authentication,
    }
}

fn s3(bucket: &str, path_style: bool) -> FileConnectionConfig {
    FileConnectionConfig::S3 {
        endpoint: "https://s3.example.com".to_string(),
        region: "us-east-1".to_string(),
        bucket: bucket.to_string(),
        root: "/".to_string(),
        path_style,
    }
}

fn webdav(endpoint: &str, authentication: WebdavAuthentication) -> FileConnectionConfig {
    FileConnectionConfig::Webdav { endpoint: endpoint.to_string(), root: "/".to_string(), authentication }
}

fn webhdfs(simple_user: &str, use_delegation_token: bool) -> FileConnectionConfig {
    FileConnectionConfig::Hdfs {
        config: HdfsConfig::Webhdfs {
            endpoint: "http://127.0.0.1:9870".to_string(),
            root: "/".to_string(),
            simple_user: simple_user.to_string(),
            use_delegation_token,
        },
    }
}

fn native(name_node_uri: &str) -> FileConnectionConfig {
    FileConnectionConfig::Hdfs {
        config: HdfsConfig::Native {
            name_node_uri: name_node_uri.to_string(),
            root: "/data".to_string(),
            hadoop_config_directory: "/etc/hadoop".to_string(),
        },
    }
}

fn given(updates: FileSecretUpdates) -> ResolvedSecrets {
    let request = TestFileConnectionRequest { id: None, config: ftp(), secrets: updates };
    match resolve_secrets(&request) {
        SecretStep::Resolved(secrets) => secrets,
        _ => panic!("secrets that are given need no reading"),
    }
}

fn set(value: &str) -> SecretUpdate {
    SecretUpdate::SetTo(value.to_string())
}

fn s3_secrets() -> ResolvedSecrets {
    given(FileSecretUpdates { access_key: set("key"), secret_key: set("secret"), ..Default::default() })
}

#[test]
fn endpoint_port_is_added_once() {
    assert_eq!(endpoint_with_port("127.0.0.1", "ftp", 2121), "ftp://127.0.0.1:2121");
    assert_eq!(endpoint_with_port("ftp://127.0.0.1", "ftp", 2121), "ftp://127.0.0.1:2121");
    assert_eq!(endpoint_with_port("ftp://127.0.0.1:2021", "ftp", 2121), "ftp://127.0.0.1:2021");
}

#[test]
fn completed_endpoints_stay_as_they_are() {
    for endpoint in ["127.0.0.1", " host/ ", "ftps://host///", "host:99999", "ftp://a:1/b", "", "host:+21"] {
        let once = endpoint_with_port(endpoint, "ftp", 2121);
        assert_eq!(endpoint_with_port(&once, "ftp", 2121), once);
        assert_eq!(endpoint_with_port(&once, "ftp", 7), once);
        assert_eq!(endpoint_with_port(&once, "ssh", 22), once);
        let bare = endpoint_with_port(endpoint, "", 2121);
        assert_eq!(endpoint_with_port(&bare, "ftp", 7), bare);
    }
    assert_eq!(endpoint_with_port("host:99999", "ssh", 22), "ssh://host:99999:22");
    assert_eq!(endpoint_with_port("", "ssh", 22), "ssh://:22");
    assert_eq!(endpoint_with_port(" host/ ", "ssh", 65535), "ssh://host:65535");
    assert_eq!(endpoint_with_port("host:+21", "ssh", 22), "ssh://host:+21");
}

#[test]
fn port_numbers_are_what_the_standard_library_reads() {
    for value in ["", "+", "-1", "0", "65535", "65536", "00080", "+80", "++80", "8 0", "80a", "000000000000000000021"] {
        assert_eq!(is_port_text(value), value.parse::<u16>().is_ok(), "{value}");
    }
}

#[test]
fn whitespace_is_what_the_standard_library_takes_for_it() {
    for number in 0..=0x10ffff_u32 {
        if let Some(c) = char::from_u32(number) {
            assert_eq!(whitespace(c), c.is_whitespace(), "{number:x}");
        }
    }
}

#[test]
fn trimming_is_what_the_standard_library_does() {
    for value in ["", " ", "a", " a ", "\t a b \n", "\u{3000}x\u{a0}", "x//", "//", "a/ /"] {
        assert_eq!(trim(value), value.trim());
        assert_eq!(trim_slashes(value), value.trim_end_matches('/'));
    }
}

#[test]
fn hdfs_name_node_uri_requires_an_hdfs_authority() {
    for value in ["hdfs://127.0.0.1:19000", "hdfs://nameservice", "hdfs://node-1:9000,node-2:9000/"] {
        assert!(validate_hdfs_name_node_uri(value).is_ok());
    }
    for value in ["", "http://127.0.0.1:19000", "hdfs://", "hdfs://node/path", "hdfs://node one"] {
        assert!(validate_hdfs_name_node_uri(value).is_err());
    }
}

#[test]
fn hdfs_name_nodes_are_named_between_commas() {
    for value in ["hdfs://a,b", " hdfs://a ", "hdfs://a///"] {
        assert!(validate_hdfs_name_node_uri(value).is_ok(), "{value}");
    }
    for value in ["hdfs://,a", "hdfs://a,", "hdfs://a,,b", "hdfs:///", "hdfs://a\tb", "HDFS://a"] {
        let error = validate_hdfs_name_node_uri(value).unwrap_err();
        assert_eq!(error.code, "configuration");
        assert_eq!(error.message, "The HDFS NameNode URI must use the hdfs:// scheme");
    }
}

#[test]
fn required_settings_are_named_where_they_are_missing() {
    assert!(validate_required("FTP endpoint", "x").is_ok());
    let error = validate_required("FTP endpoint", " \t").unwrap_err();
    assert_eq!(error.code, "configuration");
    assert_eq!(error.message, "FTP endpoint is required");
    assert_eq!(error.recovery, None);
}

#[test]
fn errors_carry_their_code_and_message() {
    let error = FileManagerError::new("not_found", "gone");
    assert_eq!((error.code, error.message.as_str(), error.recovery), ("not_found", "gone", None));
    assert_eq!(FileManagerError::configuration("bad").code, "configuration");
}

#[test]
fn runtime_endpoint_override_is_limited_to_tcp_safe_protocols() {
    let runtime = RuntimeEndpoint { host: "127.0.0.1".to_string(), port: 32123 };
    let secrets = ResolvedSecrets::default();
    let ftp = FileConnectionConfig::Ftp {
        endpoint: "ftp.example.com".to_string(),
        port: 21,
        root: "/".to_string(),
        username: "dbx".to_string(),
    };
    assert!(build_operator(&ftp, &secrets, Some(&runtime), true).is_ok());

    let s3 = FileConnectionConfig::S3 {
        endpoint: "https://s3.example.com".to_string(),
        region: "us-east-1".to_string(),
        bucket: "dbx".to_string(),
        root: "/".to_string(),
        path_style: true,
    };
    let error = build_operator(&s3, &secrets, Some(&runtime), true).unwrap_err();
    assert_eq!(error.code, "unsupported");
    assert!(error.message.contains("S3"));
}

#[test]
fn sftp_config_and_agent_use_system_openssh_while_private_key_requires_a_secret_path() {
    let secrets = ResolvedSecrets::default();
    assert!(build_operator(&sftp(SftpAuthentication::SshConfig), &secrets, None, true).is_ok());
    assert!(build_operator(&sftp(SftpAuthentication::SshAgent), &secrets, None, true).is_ok());
    assert_eq!(
        build_operator(&sftp(SftpAuthentication::PrivateKey), &secrets, None, true).unwrap_err().code,
        "configuration"
    );
}

#[test]
fn sftp_capabilities_are_native_on_unix_and_disabled_elsewhere() {
    let config = sftp(SftpAuthentication::PrivateKey);
    let unix = FileCapabilities::for_config_on_platform(&config, true);
    assert!(unix.read && unix.write && unix.copy && unix.rename);
    assert!(unix.native_copy && unix.native_rename && unix.atomic_rename);

    let windows = FileCapabilities::for_config_on_platform(&config, false);
    assert!(!windows.read && !windows.write && !windows.copy && !windows.rename);
    assert!(!windows.native_copy && !windows.native_rename && !windows.atomic_rename);
}

#[test]
fn capabilities_follow_the_protocol() {
    let modes = |config: &FileConnectionConfig| {
        let capabilities = FileCapabilities::for_config(config, true);
        assert!(capabilities.read && capabilities.list && capabilities.stat && capabilities.delete);
        assert!(!capabilities.atomic_no_clobber);
        assert_eq!(capabilities.atomic_rename, capabilities.native_rename);
        (capabilities.copy_mode, capabilities.rename_mode)
    };
    assert_eq!(modes(&ftp()), (FileCopyMode::StreamRelay, FileRenameMode::CopyDelete));
    assert_eq!(modes(&sftp(SftpAuthentication::SshAgent)), (FileCopyMode::Native, FileRenameMode::Native));
    assert_eq!(modes(&s3("dbx", true)), (FileCopyMode::Native, FileRenameMode::CopyDelete));
    assert_eq!(
        modes(&webdav("http://host", WebdavAuthentication::Bearer)),
        (FileCopyMode::Native, FileRenameMode::Native)
    );
    assert_eq!(modes(&webhdfs("dbx", false)), (FileCopyMode::StreamRelay, FileRenameMode::CopyDelete));
    assert_eq!(modes(&native("hdfs://n")), (FileCopyMode::StreamRelay, FileRenameMode::Native));
}

#[test]
fn tunnels_are_refused_where_they_cannot_be_taken() {
    let runtime = RuntimeEndpoint { host: "127.0.0.1".to_string(), port: 1080 };
    let secrets = ResolvedSecrets::default();
    for (config, label) in [
        (s3("", true), "S3"),
        (webdav("", WebdavAuthentication::Bearer), "WebDAV"),
        (webhdfs("", true), "WebHDFS"),
        (native("nonsense"), "HDFS Native"),
    ] {
        let error = build_operator(&config, &secrets, Some(&runtime), true).unwrap_err();
        assert_eq!(error.code, "unsupported");
        assert_eq!(error.message, format!("{label} does not support SSH or proxy transport layers"));
        assert_eq!(config.driver_label(), label);
        assert!(!config.supports_transport_layers());
    }
    assert!(ftp().supports_transport_layers());
    assert!(reject_runtime_endpoint(None, "S3").is_ok());
}

#[test]
fn missing_settings_are_refused_in_their_order() {
    let message = |config: &FileConnectionConfig, secrets: &ResolvedSecrets| {
        let error = build_operator(config, secrets, None, true).unwrap_err();
        assert_eq!(error.code, "configuration");
        error.message
    };
    let none = ResolvedSecrets::default();
    let mut config = ftp();
    if let FileConnectionConfig::Ftp { endpoint, .. } = &mut config {
        *endpoint = " ".to_string();
    }
    assert_eq!(message(&config, &none), "FTP endpoint is required");
    assert_eq!(message(&sftp(SftpAuthentication::PrivateKey), &none), "SFTP private key is required");
    assert_eq!(message(&s3("", true), &none), "S3 bucket is required");
    assert_eq!(message(&s3("dbx", true), &none), "S3 access key is required");
    let half = given(FileSecretUpdates { access_key: set("key"), ..Default::default() });
    assert_eq!(message(&s3("dbx", true), &half), "S3 secret key is required");
    let basic = |username: &str| {
        webdav("http://host", WebdavAuthentication::Basic { username: username.to_string() })
    };
    assert_eq!(message(&webdav("", WebdavAuthentication::Bearer), &none), "WebDAV endpoint is required");
    assert_eq!(message(&basic(""), &none), "WebDAV username is required");
    assert_eq!(message(&basic("dbx"), &none), "WebDAV password is required");
    assert_eq!(
        message(&webdav("http://host", WebdavAuthentication::Bearer), &none),
        "WebDAV bearer token is required"
    );
    assert_eq!(message(&webhdfs("", false), &none), "WebHDFS simple user is required");
    assert_eq!(message(&webhdfs("", true), &none), "WebHDFS delegation token is required");
    assert_eq!(message(&native("n"), &none), "The HDFS NameNode URI must use the hdfs:// scheme");
}

#[test]
fn services_are_opened_with_what_they_are_given() {
    let opened = |config: &FileConnectionConfig, secrets: &ResolvedSecrets| match build_operator(
        config, secrets, None, true,
    ) {
        Ok(OperatorBuild::Open(operator)) => operator,
        other => panic!("{other:?}"),
    };
    let none = ResolvedSecrets::default();
    let operator = opened(&ftp(), &none);
    assert_eq!(operator.info().scheme(), "ftp");
    assert_eq!(operator.info().root(), "/");
    let operator = opened(&sftp(SftpAuthentication::SshConfig), &none);
    assert_eq!(operator.info().scheme(), "sftp");
    assert_eq!(operator.info().root(), "/config/");
    let operator = opened(&s3("dbx", true), &s3_secrets());
    assert_eq!(operator.info().scheme(), "s3");
    assert_eq!(operator.info().name(), "dbx");
    let token = given(FileSecretUpdates { bearer_token: set("token"), ..Default::default() });
    let operator = opened(&webdav("http://host/dav", WebdavAuthentication::Bearer), &token);
    assert_eq!(operator.info().scheme(), "webdav");
    let operator = opened(&webhdfs("dbx", false), &none);
    assert_eq!(operator.info().scheme(), "webhdfs");
    let delegation = given(FileSecretUpdates { delegation_token: set("token"), ..Default::default() });
    let operator = opened(&webhdfs("", true), &delegation);
    assert_eq!(operator.info().scheme(), "webhdfs");
}

#[test]
fn refused_services_are_reported() {
    let none = ResolvedSecrets::default();
    let mut config = ftp();
    if let FileConnectionConfig::Ftp { endpoint, .. } = &mut config {
        *endpoint = "gopher://host".to_string();
    }
    let error = build_operator(&config, &none, None, true).unwrap_err();
    assert_eq!(error.code, "configuration");
    assert_eq!(error.message, "The file connection configuration is invalid");

    assert!(build_operator(&s3("a.b", true), &s3_secrets(), None, true).is_ok());
    let error = build_operator(&s3("a.b", false), &s3_secrets(), None, true).unwrap_err();
    assert_eq!(error.code, "configuration");

    let token = given(FileSecretUpdates { bearer_token: set("token"), ..Default::default() });
    let error =
        build_operator(&webdav("http://[", WebdavAuthentication::Bearer), &token, None, true).unwrap_err();
    assert_eq!(error.code, "configuration");

    let error = build_operator(&sftp(SftpAuthentication::SshAgent), &none, None, false).unwrap_err();
    assert_eq!(error.code, "unsupported");
    assert_eq!(error.message, "SFTP file connections are supported on macOS and Linux only");
}

#[test]
fn hdfs_clients_wait_for_their_options() {
    match build_operator(&native("hdfs://node:9000"), &ResolvedSecrets::default(), None, true) {
        Ok(OperatorBuild::LoadHadoopConfig { name_node, root, directory }) => {
            assert_eq!(name_node, "hdfs://node:9000");
            assert_eq!(root, "/data");
            assert_eq!(directory, "/etc/hadoop");
        }
        other => panic!("{other:?}"),
    }
}

#[test]
fn backend_errors_are_shown_by_their_kind() {
    let shown = |kind| map_operation_error(opendal::Error::new(kind, "detail")).code;
    assert_eq!(shown(opendal::ErrorKind::ConfigInvalid), "configuration");
    assert_eq!(shown(opendal::ErrorKind::NotFound), "not_found");
    assert_eq!(shown(opendal::ErrorKind::PermissionDenied), "permission_denied");
    assert_eq!(shown(opendal::ErrorKind::AlreadyExists), "already_exists");
    assert_eq!(shown(opendal::ErrorKind::ConditionNotMatch), "already_exists");
    assert_eq!(shown(opendal::ErrorKind::Unsupported), "unsupported");
    assert_eq!(shown(opendal::ErrorKind::RateLimited), "rate_limited");
    assert_eq!(shown(opendal::ErrorKind::Unexpected), "backend");
    assert_eq!(shown(opendal::ErrorKind::IsADirectory), "backend");
    let built = |kind| map_build_error(opendal::Error::new(kind, "detail")).code;
    assert_eq!(built(opendal::ErrorKind::ConfigInvalid), "configuration");
    assert_eq!(built(opendal::ErrorKind::Unsupported), "unsupported");
    assert_eq!(built(opendal::ErrorKind::NotFound), "backend");
    assert_eq!(operation_error(BackendErrorKind::Other).message, "The remote file operation failed");
    assert_eq!(build_error(BackendErrorKind::Other).message, "Failed to initialize the file connection");
}

#[test]
fn secrets_are_set_cleared_and_read() {
    let secrets = given(FileSecretUpdates { password: set("one"), private_key: SecretUpdate::Clear, ..Default::default() });
    assert_eq!(secrets.get("password"), "one");
    assert_eq!(secrets.get("private_key"), "");
    assert_eq!(secrets.get("unknown"), "");

    let empty = TestFileConnectionRequest {
        id: Some("c".to_string()),
        config: ftp(),
        secrets: FileSecretUpdates { password: set(""), ..Default::default() },
    };
    match resolve_secrets(&empty) {
        SecretStep::Refused(error) => {
            assert_eq!(error.code, "configuration");
            assert!(error.message.contains("cannot be empty"));
        }
        other => panic!("{other:?}"),
    }
}

#[test]
fn kept_secrets_are_read_one_after_the_other() {
    let request = TestFileConnectionRequest {
        id: Some("c".to_string()),
        config: ftp(),
        secrets: FileSecretUpdates { access_key: set("given"), bearer_token: SecretUpdate::Clear, ..Default::default() },
    };
    let mut asked = Vec::new();
    let mut step = resolve_secrets(&request);
    let secrets = loop {
        match step {
            SecretStep::Read(read) => {
                let name = read.saved_name();
                let saved = if name == "file.password" { Some("new".to_string()) } else { None };
                asked.push(name);
                match read.looked_up(Ok(saved)) {
                    SavedSecretStep::Read(earlier) => {
                        let value = format!("old {}", earlier.saved_name());
                        step = earlier.looked_up(Ok(Some(value)));
                    }
                    SavedSecretStep::Refused(error) => panic!("{error:?}"),
                }
            }
            SecretStep::Resolved(secrets) => break secrets,
            SecretStep::Refused(error) => panic!("{error:?}"),
        }
    };
    assert_eq!(
        asked,
        ["file.password", "file.private_key", "file.secret_key", "file.session_token", "file.delegation_token"]
    );
    assert_eq!(secrets.get("password"), "new");
    assert_eq!(secrets.get("private_key"), "old private_key");
    assert_eq!(secrets.get("access_key"), "given");
    assert_eq!(secrets.get("bearer_token"), "");
    assert_eq!(secrets.get("delegation_token"), "old delegation_token");
}

#[test]
fn unreadable_secrets_end_the_resolution() {
    let request =
        TestFileConnectionRequest { id: Some("c".to_string()), config: ftp(), secrets: FileSecretUpdates::default() };
    let read = |request| match resolve_secrets(request) {
        SecretStep::Read(read) => read,
        other => panic!("{other:?}"),
    };
    match read(&request).looked_up(Err("locked".to_string())) {
        SavedSecretStep::Refused(error) => {
            assert_eq!((error.code, error.message.as_str()), ("storage", "Failed to read saved credentials"));
        }
        other => panic!("{other:?}"),
    }
    let earlier = match read(&request).looked_up(Ok(None)) {
        SavedSecretStep::Read(earlier) => earlier,
        other => panic!("{other:?}"),
    };
    match earlier.looked_up(Err("locked".to_string())) {
        SecretStep::Refused(error) => assert_eq!(error.code, "storage"),
        other => panic!("{other:?}"),
    }
}

#[test]
fn fingerprints_tell_connections_apart() {
    let none = ResolvedSecrets::default();
    let secret = given(FileSecretUpdates { password: set("one"), ..Default::default() });
    let base = base_fingerprint(b"connection", b"config", b"[]", &none);
    assert_eq!(base, base_fingerprint(b"connection", b"config", b"[]", &none));
    assert_ne!(base, base_fingerprint(b"connectionc", b"onfig", b"[]", &none));
    assert_ne!(base, base_fingerprint(b"connection", b"config", b"[]", &secret));
    let entry = RuntimeEndpoint { host: "a".to_string(), port: 1 };
    let other = RuntimeEndpoint { host: "a".to_string(), port: 2 };
    assert_ne!(full_fingerprint(base, None), base);
    assert_ne!(full_fingerprint(base, None), full_fingerprint(base, Some(&entry)));
    assert_ne!(full_fingerprint(base, Some(&other)), full_fingerprint(base, Some(&entry)));
}

#[test]
fn fingerprints_are_sha256_digests_of_frames() {
    let mut hasher = sha2::Sha256::new();
    for part in [&b"ab"[..], b"c", b""] {
        hasher.update((part.len() as u64).to_le_bytes());
        hasher.update(part);
    }
    for key in [
        "password", "private_key", "access_key", "secret_key", "session_token", "bearer_token", "delegation_token",
    ] {
        let value = if key == "password" { "pä" } else { "" };
        hasher.update((key.len() as u64).to_le_bytes());
        hasher.update(key.as_bytes());
        hasher.update((value.len() as u64).to_le_bytes());
        hasher.update(value.as_bytes());
    }
    let expected: [u8; 32] = hasher.finalize().into();
    let secrets = given(FileSecretUpdates { password: set("pä"), ..Default::default() });
    assert_eq!(base_fingerprint(b"ab", b"c", b"", &secrets), expected);

    let mut hasher = sha2::Sha256::new();
    hasher.update(expected);
    hasher.update(4_u64.to_le_bytes());
    hasher.update(b"host");
    hasher.update(8080_u16.to_le_bytes());
    let full: [u8; 32] = hasher.finalize().into();
    let entry = RuntimeEndpoint { host: "host".to_string(), port: 8080 };
    assert_eq!(full_fingerprint(expected, Some(&entry)), full);
}
