//! The storage services behind a connection: how a service is opened, and what
//! its errors mean.
use crate::models;
use crate::models::FileManagerError;
use opendal::Configurator;
use vstd::prelude::*;

verus! {

/// An opened service of the `opendal` crate.
#[verifier::external_type_specification]
#[verifier::external_body]
pub struct ExOperator(opendal::Operator);

/// An error of the `opendal` crate.
#[verifier::external_type_specification]
#[verifier::external_body]
pub struct ExBackendError(opendal::Error);

/// What went wrong in a service.
#[derive(Clone, Copy, Debug, PartialEq, Eq, Structural)]
pub enum BackendErrorKind {
    Unsupported,
    ConfigInvalid,
    NotFound,
    PermissionDenied,
    AlreadyExists,
    RateLimited,
    ConditionNotMatch,
    Other,
}

/// What an error says went wrong.
pub uninterp spec fn kind_of(error: opendal::Error) -> BackendErrorKind;

/// `opendal::Error::kind`: what the error says went wrong. Kinds that nothing
/// here tells apart are one.
#[verifier::external_body]
pub(crate) fn error_kind(error: &opendal::Error) -> (kind: BackendErrorKind)
    ensures
        kind == kind_of(*error),
{
    match error.kind() {
        opendal::ErrorKind::Unsupported => BackendErrorKind::Unsupported,
        opendal::ErrorKind::ConfigInvalid => BackendErrorKind::ConfigInvalid,
        opendal::ErrorKind::NotFound => BackendErrorKind::NotFound,
        opendal::ErrorKind::PermissionDenied => BackendErrorKind::PermissionDenied,
        opendal::ErrorKind::AlreadyExists => BackendErrorKind::AlreadyExists,
        opendal::ErrorKind::RateLimited => BackendErrorKind::RateLimited,
        opendal::ErrorKind::ConditionNotMatch => BackendErrorKind::ConditionNotMatch,
        _ => BackendErrorKind::Other,
    }
}

/// What opening an FTP service comes to, for an endpoint, a root, a user and a
/// password.
pub uninterp spec fn ftp_service(
    endpoint: Seq<char>,
    root: Seq<char>,
    user: Seq<char>,
    password: Seq<char>,
) -> Result<opendal::Operator, opendal::Error>;

/// `opendal::Operator::new` on `services::Ftp`: opens the service or refuses its
/// settings, without reaching out. What comes back is a function of the four
/// settings; which one is not stated.
#[verifier::external_body]
pub(crate) fn open_ftp(endpoint: &str, root: &str, user: &str, password: &str) -> (opened: Result<
    opendal::Operator,
    opendal::Error,
>)
    ensures
        opened == ftp_service(endpoint@, root@, user@, password@),
{
    opendal::Operator::new(
        opendal::services::Ftp::default().endpoint(endpoint).root(root).user(user).password(password),
    )
}

/// What opening an SFTP service comes to, for an endpoint, a root, a user, a
/// strategy for unknown hosts and the path of a key.
pub uninterp spec fn sftp_service(
    endpoint: Seq<char>,
    root: Seq<char>,
    user: Seq<char>,
    strategy: Seq<char>,
    key: Seq<char>,
) -> Result<opendal::Operator, opendal::Error>;

/// `opendal::Operator::new` on `services::Sftp`: opens the service or refuses
/// its settings, without reaching out. An empty key is no key. What comes back
/// is a function of the settings; it is a service where the endpoint is not
/// empty and unknown hosts are added.
#[verifier::external_body]
pub(crate) fn open_sftp(endpoint: &str, root: &str, user: &str, strategy: &str, key: &str) -> (opened: Result<
    opendal::Operator,
    opendal::Error,
>)
    ensures
        opened == sftp_service(endpoint@, root@, user@, strategy@, key@),
        endpoint@.len() > 0 && strategy@ == "Add"@ ==> opened is Ok,
{
    opendal::Operator::new(
        opendal::services::Sftp::default().endpoint(endpoint).root(root).user(user).known_hosts_strategy(
            strategy,
        ).key(key),
    )
}

/// What opening an S3 service comes to, for an endpoint, a region, a bucket, a
/// root, the three parts of a credential, and whether the bucket is named in
/// the host.
pub uninterp spec fn s3_service(
    endpoint: Seq<char>,
    region: Seq<char>,
    bucket: Seq<char>,
    root: Seq<char>,
    access_key: Seq<char>,
    secret_key: Seq<char>,
    session_token: Seq<char>,
    virtual_host: bool,
) -> Result<opendal::Operator, opendal::Error>;

/// `opendal::Operator::new` on `services::S3`, with nothing taken from the
/// environment, from files or from the host: opens the service or refuses its
/// settings, without reaching out. An empty session token is none. What comes
/// back is a function of the settings where a region is given; where none is,
/// the region is taken from the environment, and nothing is stated.
#[verifier::external_body]
pub(crate) fn open_s3(
    endpoint: &str,
    region: &str,
    bucket: &str,
    root: &str,
    access_key: &str,
    secret_key: &str,
    session_token: &str,
    virtual_host: bool,
) -> (opened: Result<opendal::Operator, opendal::Error>)
    ensures
        region@.len() > 0 ==> opened == s3_service(
            endpoint@,
            region@,
            bucket@,
            root@,
            access_key@,
            secret_key@,
            session_token@,
            virtual_host,
        ),
{
    let mut config = opendal::services::S3Config::default();
    config.enable_virtual_host_style = virtual_host;
    let builder = config.into_builder().endpoint(endpoint).region(region).bucket(bucket).root(root).access_key_id(
        access_key,
    ).secret_access_key(secret_key).session_token(session_token);
    opendal::Operator::new(builder.disable_config_load().disable_ec2_metadata())
}

/// What opening a WebDAV service comes to, for an endpoint, a root, a user, a
/// password and a bearer token.
pub uninterp spec fn webdav_service(
    endpoint: Seq<char>,
    root: Seq<char>,
    username: Seq<char>,
    password: Seq<char>,
    token: Seq<char>,
) -> Result<opendal::Operator, opendal::Error>;

/// `opendal::Operator::new` on `services::Webdav`: opens the service or refuses
/// its settings, without reaching out. An empty user, password or token is
/// none. What comes back is a function of the settings; which one is not
/// stated.
#[verifier::external_body]
pub(crate) fn open_webdav(endpoint: &str, root: &str, username: &str, password: &str, token: &str) -> (opened:
    Result<opendal::Operator, opendal::Error>)
    ensures
        opened == webdav_service(endpoint@, root@, username@, password@, token@),
{
    opendal::Operator::new(
        opendal::services::Webdav::default().endpoint(endpoint).root(root).username(username).password(
            password,
        ).token(token),
    )
}

/// What opening a WebHDFS service comes to, for an endpoint, a root, a user and
/// a delegation token.
pub uninterp spec fn webhdfs_service(
    endpoint: Seq<char>,
    root: Seq<char>,
    user: Seq<char>,
    delegation: Seq<char>,
) -> Result<opendal::Operator, opendal::Error>;

/// `opendal::Operator::new` on `services::Webhdfs`: opens the service, without
/// reaching out. An empty user or token is none. What comes back is a function
/// of the settings, and is always a service.
#[verifier::external_body]
pub(crate) fn open_webhdfs(endpoint: &str, root: &str, user: &str, delegation: &str) -> (opened: Result<
    opendal::Operator,
    opendal::Error,
>)
    ensures
        opened == webhdfs_service(endpoint@, root@, user@, delegation@),
        opened is Ok,
{
    opendal::Operator::new(
        opendal::services::Webhdfs::default().endpoint(endpoint).root(root).user_name(user).delegation(
            delegation,
        ),
    )
}

/// What a caller is shown where a service was not opened.
pub open spec fn build_failure(kind: BackendErrorKind) -> models::ManagerErrorView {
    match kind {
        BackendErrorKind::ConfigInvalid => models::configuration_error(
            "The file connection configuration is invalid"@,
        ),
        BackendErrorKind::Unsupported => models::manager_error(
            "unsupported"@,
            "This operation is not supported"@,
        ),
        _ => models::manager_error("backend"@, "Failed to initialize the file connection"@),
    }
}

/// What a caller is shown where a service did not do what it was asked.
pub open spec fn operation_failure(kind: BackendErrorKind) -> models::ManagerErrorView {
    match kind {
        BackendErrorKind::ConfigInvalid => models::configuration_error(
            "The file connection configuration is invalid"@,
        ),
        BackendErrorKind::NotFound => models::manager_error(
            "not_found"@,
            "The requested file or directory does not exist"@,
        ),
        BackendErrorKind::PermissionDenied => models::manager_error(
            "permission_denied"@,
            "Permission was denied"@,
        ),
        BackendErrorKind::AlreadyExists | BackendErrorKind::ConditionNotMatch => models::manager_error(
            "already_exists"@,
            "The destination already exists"@,
        ),
        BackendErrorKind::Unsupported => models::manager_error(
            "unsupported"@,
            "This operation is not supported"@,
        ),
        BackendErrorKind::RateLimited => models::manager_error(
            "rate_limited"@,
            "The remote service rate limit was reached"@,
        ),
        BackendErrorKind::Other => models::manager_error("backend"@, "The remote file operation failed"@),
    }
}

/// What a caller is shown where a service was not opened.
pub fn build_error(kind: BackendErrorKind) -> (error: FileManagerError)
    ensures
        error@ == build_failure(kind),
{
    match kind {
        BackendErrorKind::ConfigInvalid => FileManagerError::configuration(
            "The file connection configuration is invalid",
        ),
        BackendErrorKind::Unsupported => FileManagerError::new("unsupported", "This operation is not supported"),
        _ => FileManagerError::new("backend", "Failed to initialize the file connection"),
    }
}

/// What a caller is shown where a service did not do what it was asked.
pub fn operation_error(kind: BackendErrorKind) -> (error: FileManagerError)
    ensures
        error@ == operation_failure(kind),
{
    match kind {
        BackendErrorKind::ConfigInvalid => FileManagerError::configuration(
            "The file connection configuration is invalid",
        ),
        BackendErrorKind::NotFound => FileManagerError::new(
            "not_found",
            "The requested file or directory does not exist",
        ),
        BackendErrorKind::PermissionDenied => FileManagerError::new("permission_denied", "Permission was denied"),
        BackendErrorKind::AlreadyExists | BackendErrorKind::ConditionNotMatch => FileManagerError::new(
            "already_exists",
            "The destination already exists",
        ),
        BackendErrorKind::Unsupported => FileManagerError::new("unsupported", "This operation is not supported"),
        BackendErrorKind::RateLimited => FileManagerError::new(
            "rate_limited",
            "The remote service rate limit was reached",
        ),
        BackendErrorKind::Other => FileManagerError::new("backend", "The remote file operation failed"),
    }
}

/// What a caller is shown of an error with which a service was not opened.
pub fn map_build_error(error: opendal::Error) -> (shown: FileManagerError)
    ensures
        shown@ == build_failure(kind_of(error)),
{
    build_error(error_kind(&error))
}

/// What a caller is shown of an error with which a service answered.
pub fn map_operation_error(error: opendal::Error) -> (shown: FileManagerError)
    ensures
        shown@ == operation_failure(kind_of(error)),
{
    operation_error(error_kind(&error))
}

/// A service that was not opened is told by what its settings lack, by what is not
/// supported, or as a failure of the service.
pub proof fn unopened_services_are_told_by_their_kind(kind: BackendErrorKind)
    ensures
        build_failure(kind).code == (if kind == BackendErrorKind::ConfigInvalid {
            "configuration"@
        } else if kind == BackendErrorKind::Unsupported {
            "unsupported"@
        } else {
            "backend"@
        }),
        build_failure(kind).recovery is None,
        kind == BackendErrorKind::ConfigInvalid ==> build_failure(kind).message
            == "The file connection configuration is invalid"@,
        kind == BackendErrorKind::Unsupported ==> build_failure(kind).message == "This operation is not supported"@,
        kind != BackendErrorKind::ConfigInvalid && kind != BackendErrorKind::Unsupported ==> build_failure(kind).message
            == "Failed to initialize the file connection"@,
{
}

/// An operation that failed is told by its kind: what stands in the way of it, or
/// that the service failed.
pub proof fn failed_operations_are_told_by_their_kind(kind: BackendErrorKind)
    ensures
        kind == BackendErrorKind::NotFound ==> operation_failure(kind).code == "not_found"@,
        kind == BackendErrorKind::PermissionDenied ==> operation_failure(kind).code == "permission_denied"@,
        kind == BackendErrorKind::AlreadyExists ==> operation_failure(kind).code == "already_exists"@,
        kind == BackendErrorKind::ConditionNotMatch ==> operation_failure(kind).code == "already_exists"@,
        kind == BackendErrorKind::RateLimited ==> operation_failure(kind).code == "rate_limited"@,
        kind == BackendErrorKind::Other ==> operation_failure(kind).code == "backend"@,
        kind == BackendErrorKind::ConfigInvalid || kind == BackendErrorKind::Unsupported ==> operation_failure(kind)
            == build_failure(kind),
        kind == BackendErrorKind::NotFound ==> operation_failure(kind).message
            == "The requested file or directory does not exist"@,
        kind == BackendErrorKind::PermissionDenied ==> operation_failure(kind).message == "Permission was denied"@,
        kind == BackendErrorKind::AlreadyExists || kind == BackendErrorKind::ConditionNotMatch
            ==> operation_failure(kind).message == "The destination already exists"@,
        kind == BackendErrorKind::RateLimited ==> operation_failure(kind).message
            == "The remote service rate limit was reached"@,
        kind == BackendErrorKind::Other ==> operation_failure(kind).message == "The remote file operation failed"@,
        operation_failure(kind).recovery is None,
{
}

} // verus!
