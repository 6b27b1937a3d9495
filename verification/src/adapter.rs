//! From the settings and secrets of a connection to the service that it leads
//! to.
use crate::backend;
use crate::backend::map_build_error;
use crate::backend::open_ftp;
use crate::backend::open_s3;
use crate::backend::open_sftp;
use crate::backend::open_webdav;
use crate::backend::open_webhdfs;
use crate::endpoint;
use crate::endpoint::endpoint_with_port;
use crate::endpoint::validate_hdfs_name_node_uri;
use crate::endpoint::validate_required;
use crate::models;
use crate::models::FileConnectionConfig;
use crate::models::FileManagerError;
use crate::models::HdfsConfig;
use crate::models::SftpAuthentication;
use crate::models::WebdavAuthentication;
use crate::secrets;
use crate::secrets::ResolvedSecrets;
use crate::text::joined2;
use vstd::prelude::*;

verus! {

/// Where a tunnel or a proxy lets a connection in.
#[derive(Clone, Debug, PartialEq, Eq)]
pub struct RuntimeEndpoint {
    pub host: String,
    pub port: u16,
}

/// What a connection came to: a service that is open, or an HDFS client whose
/// options are due to be loaded from a Hadoop configuration directory.
#[derive(Debug)]
pub enum OperatorBuild {
    Open(opendal::Operator),
    LoadHadoopConfig { name_node: String, root: String, directory: String },
}

/// What a connection that cannot be led through a tunnel is refused with.
pub open spec fn tunnel_error(protocol: Seq<char>) -> models::ManagerErrorView {
    models::manager_error("unsupported"@, protocol + " does not support SSH or proxy transport layers"@)
}

/// Refuses a tunnel where the protocol cannot be led through one.
pub fn reject_runtime_endpoint(runtime_endpoint: Option<&RuntimeEndpoint>, protocol: &str) -> (checked: Result<
    (),
    FileManagerError,
>)
    ensures
        match checked {
            Ok(_) => runtime_endpoint is None,
            Err(error) => runtime_endpoint is Some && error@ == tunnel_error(protocol@),
        },
{
    if runtime_endpoint.is_some() {
        let message = joined2(protocol, " does not support SSH or proxy transport layers");
        Err(FileManagerError::new("unsupported", message.as_str()))
    } else {
        Ok(())
    }
}

/// The first setting in a row that is left out, with the label that it is
/// refused under.
pub open spec fn first_absent(settings: Seq<(Seq<char>, Seq<char>)>) -> Option<models::ManagerErrorView>
    decreases settings.len(),
{
    if settings.len() == 0 {
        None
    } else if !endpoint::is_present(settings[0].1) {
        Some(endpoint::required_error(settings[0].0))
    } else {
        first_absent(settings.drop_first())
    }
}

/// The settings and secrets that a connection cannot do without, in the order
/// in which they are asked for.
pub open spec fn required_settings(
    config: FileConnectionConfig,
    given: Map<Seq<char>, Seq<char>>,
) -> Seq<(Seq<char>, Seq<char>)> {
    match config {
        FileConnectionConfig::Ftp { endpoint, .. } => seq![("FTP endpoint"@, endpoint@)],
        FileConnectionConfig::Sftp { endpoint, authentication, .. } => if authentication
            == SftpAuthentication::PrivateKey {
            seq![
                ("SFTP endpoint"@, endpoint@),
                ("SFTP private key"@, secrets::secret_in(given, "private_key"@)),
            ]
        } else {
            seq![("SFTP endpoint"@, endpoint@)]
        },
        FileConnectionConfig::S3 { endpoint, region, bucket, .. } => seq![
            ("S3 endpoint"@, endpoint@),
            ("S3 region"@, region@),
            ("S3 bucket"@, bucket@),
            ("S3 access key"@, secrets::secret_in(given, "access_key"@)),
            ("S3 secret key"@, secrets::secret_in(given, "secret_key"@)),
        ],
        FileConnectionConfig::Webdav { endpoint, authentication, .. } => match authentication {
            WebdavAuthentication::Basic { username } => seq![
                ("WebDAV endpoint"@, endpoint@),
                ("WebDAV username"@, username@),
                ("WebDAV password"@, secrets::secret_in(given, "password"@)),
            ],
            WebdavAuthentication::Bearer => seq![
                ("WebDAV endpoint"@, endpoint@),
                ("WebDAV bearer token"@, secrets::secret_in(given, "bearer_token"@)),
            ],
        },
        FileConnectionConfig::Hdfs { config: HdfsConfig::Webhdfs { endpoint, simple_user, use_delegation_token, .. } } =>
        if use_delegation_token {
            seq![
                ("WebHDFS endpoint"@, endpoint@),
                ("WebHDFS delegation token"@, secrets::secret_in(given, "delegation_token"@)),
            ]
        } else {
            seq![("WebHDFS endpoint"@, endpoint@), ("WebHDFS simple user"@, simple_user@)]
        },
        FileConnectionConfig::Hdfs { config: HdfsConfig::Native { .. } } => seq![],
    }
}

/// What a connection is refused with before any service is opened: a protocol
/// that this system lacks, a tunnel that the protocol cannot take, a setting
/// that is left out, or an address that is none.
pub open spec fn settings_refusal(
    config: FileConnectionConfig,
    given: Map<Seq<char>, Seq<char>>,
    tunnelled: bool,
    unix: bool,
) -> Option<models::ManagerErrorView> {
    if !models::usable_on(config, unix) {
        Some(
            models::manager_error(
                "unsupported"@,
                "SFTP file connections are supported on macOS and Linux only"@,
            ),
        )
    } else if tunnelled && !config.takes_tunnels() {
        Some(tunnel_error(config.label()))
    } else {
        match config {
            FileConnectionConfig::Hdfs { config: HdfsConfig::Native { name_node_uri, .. } } =>
            if endpoint::is_name_node_uri(name_node_uri@) {
                None
            } else {
                Some(endpoint::name_node_error())
            },
            _ => first_absent(required_settings(config, given)),
        }
    }
}

/// Where an FTP or SFTP connection is let in: through its tunnel where it has
/// one, and otherwise at its own endpoint.
pub open spec fn entry_point(
    own: Seq<char>,
    port: u16,
    scheme: Seq<char>,
    tunnel: Option<RuntimeEndpoint>,
) -> Seq<char> {
    match tunnel {
        Some(entry) => endpoint::complete_endpoint(entry.host@, scheme, entry.port),
        None => endpoint::complete_endpoint(own, scheme, port),
    }
}

/// What opening the connection's service comes to.
pub open spec fn service(
    config: FileConnectionConfig,
    given: Map<Seq<char>, Seq<char>>,
    tunnel: Option<RuntimeEndpoint>,
) -> Result<opendal::Operator, opendal::Error>
    recommends
        !(config matches FileConnectionConfig::Hdfs { config: hdfs } && hdfs is Native),
{
    let none = Seq::<char>::empty();
    match config {
        FileConnectionConfig::Ftp { endpoint, port, root, username } => backend::ftp_service(
            entry_point(endpoint@, port, "ftp"@, tunnel),
            root@,
            username@,
            secrets::secret_in(given, "password"@),
        ),
        FileConnectionConfig::Sftp { endpoint, port, root, username, authentication } => backend::sftp_service(
            entry_point(endpoint@, port, "ssh"@, tunnel),
            root@,
            username@,
            "Add"@,
            if authentication == SftpAuthentication::PrivateKey {
                secrets::secret_in(given, "private_key"@)
            } else {
                none
            },
        ),
        FileConnectionConfig::S3 { endpoint, region, bucket, root, path_style } => backend::s3_service(
            endpoint@,
            region@,
            bucket@,
            root@,
            secrets::secret_in(given, "access_key"@),
            secrets::secret_in(given, "secret_key"@),
            secrets::secret_in(given, "session_token"@),
            !path_style,
        ),
        FileConnectionConfig::Webdav { endpoint, root, authentication } => match authentication {
            WebdavAuthentication::Basic { username } => backend::webdav_service(
                endpoint@,
                root@,
                username@,
                secrets::secret_in(given, "password"@),
                none,
            ),
            WebdavAuthentication::Bearer => backend::webdav_service(
                endpoint@,
                root@,
                none,
                none,
                secrets::secret_in(given, "bearer_token"@),
            ),
        },
        FileConnectionConfig::Hdfs { config: HdfsConfig::Webhdfs { endpoint, root, simple_user, use_delegation_token } } =>
        if use_delegation_token {
            backend::webhdfs_service(
                endpoint@,
                root@,
                none,
                secrets::secret_in(given, "delegation_token"@),
            )
        } else {
            backend::webhdfs_service(endpoint@, root@, simple_user@, none)
        },
        FileConnectionConfig::Hdfs { config: HdfsConfig::Native { .. } } => arbitrary(),
    }
}

/// A tunnel, seen through a reference to it.
pub open spec fn tunnel_of(runtime_endpoint: Option<&RuntimeEndpoint>) -> Option<RuntimeEndpoint> {
    match runtime_endpoint {
        Some(entry) => Some(*entry),
        None => None,
    }
}

/// A service was opened, or a caller is shown why not.
pub open spec fn comes_from(
    result: Result<OperatorBuild, FileManagerError>,
    outcome: Result<opendal::Operator, opendal::Error>,
) -> bool {
    match outcome {
        Ok(operator) => result == Ok::<OperatorBuild, FileManagerError>(OperatorBuild::Open(operator)),
        Err(refused) => result matches Err(error) && error@ == backend::build_failure(backend::kind_of(refused)),
    }
}

/// The settings were refused, or the service was opened, or it is said from
/// where the options of an HDFS client are due to be loaded.
pub open spec fn is_built(
    result: Result<OperatorBuild, FileManagerError>,
    config: FileConnectionConfig,
    given: Map<Seq<char>, Seq<char>>,
    tunnel: Option<RuntimeEndpoint>,
    unix: bool,
) -> bool {
    match settings_refusal(config, given, tunnel is Some, unix) {
        Some(refusal) => result matches Err(error) && error@ == refusal,
        None => match config {
            FileConnectionConfig::Hdfs { config: HdfsConfig::Native { name_node_uri, root: own_root, hadoop_config_directory } } =>
            result matches Ok(OperatorBuild::LoadHadoopConfig { name_node, root, directory }) && name_node@
                == name_node_uri@ && root@ == own_root@ && directory@ == hadoop_config_directory@,
            _ => comes_from(result, service(config, given, tunnel)),
        },
    }
}

/// The service opens wherever its settings are not refused.
pub open spec fn always_opens(config: FileConnectionConfig) -> bool {
    config is Sftp || (config matches FileConnectionConfig::Hdfs { config: hdfs } && hdfs is Webhdfs)
}

fn opened(outcome: Result<opendal::Operator, opendal::Error>) -> (result: Result<OperatorBuild, FileManagerError>)
    ensures
        comes_from(result, outcome),
{
    match outcome {
        Ok(operator) => Ok(OperatorBuild::Open(operator)),
        Err(refused) => Err(map_build_error(refused)),
    }
}

fn entry(own: &str, port: u16, scheme: &str, runtime_endpoint: Option<&RuntimeEndpoint>) -> (complete: String)
    ensures
        complete@ == entry_point(own@, port, scheme@, tunnel_of(runtime_endpoint)),
{
    match runtime_endpoint {
        Some(runtime) => endpoint_with_port(runtime.host.as_str(), scheme, runtime.port),
        None => endpoint_with_port(own, scheme, port),
    }
}

fn build_ftp(
    endpoint: &str,
    port: u16,
    root: &str,
    username: &str,
    secrets: &ResolvedSecrets,
    runtime_endpoint: Option<&RuntimeEndpoint>,
) -> (result: Result<OperatorBuild, FileManagerError>)
    ensures
        match first_absent(seq![("FTP endpoint"@, endpoint@)]) {
            Some(refusal) => result matches Err(error) && error@ == refusal,
            None => comes_from(
                result,
                backend::ftp_service(
                    entry_point(endpoint@, port, "ftp"@, tunnel_of(runtime_endpoint)),
                    root@,
                    username@,
                    secrets::secret_in(secrets@, "password"@),
                ),
            ),
        },
{
    proof {
        reveal_with_fuel(first_absent, 2);
    }
    match validate_required("FTP endpoint", endpoint) {
        Err(error) => Err(error),
        Ok(_) => {
            let complete = entry(endpoint, port, "ftp", runtime_endpoint);
            opened(open_ftp(complete.as_str(), root, username, secrets.get("password")))
        },
    }
}

fn open_sftp_at(
    complete: &str,
    root: &str,
    username: &str,
    key: &str,
) -> (result: Result<OperatorBuild, FileManagerError>)
    requires
        complete@.len() > 0,
    ensures
        comes_from(result, backend::sftp_service(complete@, root@, username@, "Add"@, key@)),
        result is Ok,
{
    opened(open_sftp(complete, root, username, "Add", key))
}

fn build_sftp(
    endpoint: &str,
    port: u16,
    root: &str,
    username: &str,
    authentication: SftpAuthentication,
    secrets: &ResolvedSecrets,
    runtime_endpoint: Option<&RuntimeEndpoint>,
) -> (result: Result<OperatorBuild, FileManagerError>)
    ensures
        ({
            let key = secrets::secret_in(secrets@, "private_key"@);
            let with_key = authentication == SftpAuthentication::PrivateKey;
            match first_absent(
                if with_key {
                    seq![("SFTP endpoint"@, endpoint@), ("SFTP private key"@, key)]
                } else {
                    seq![("SFTP endpoint"@, endpoint@)]
                },
            ) {
                Some(refusal) => result matches Err(error) && error@ == refusal,
                None => result is Ok && comes_from(
                    result,
                    backend::sftp_service(
                        entry_point(endpoint@, port, "ssh"@, tunnel_of(runtime_endpoint)),
                        root@,
                        username@,
                        "Add"@,
                        if with_key {
                            key
                        } else {
                            Seq::empty()
                        },
                    ),
                ),
            }
        }),
{
    proof {
        reveal_with_fuel(first_absent, 3);
        reveal_strlit("");
        assert(""@ =~= Seq::<char>::empty());
        reveal_strlit("ssh");
    }
    match validate_required("SFTP endpoint", endpoint) {
        Err(error) => {
            return Err(error);
        },
        Ok(_) => {},
    }
    let complete = entry(endpoint, port, "ssh", runtime_endpoint);
    proof {
        match runtime_endpoint {
            Some(runtime) => {
                endpoint::lemma_scheme_stands(runtime.host@, "ssh"@);
            },
            None => {
                endpoint::lemma_scheme_stands(endpoint@, "ssh"@);
            },
        }
    }
    match authentication {
        SftpAuthentication::PrivateKey => {
            let key = secrets.get("private_key");
            match validate_required("SFTP private key", key) {
                Err(error) => Err(error),
                Ok(_) => open_sftp_at(complete.as_str(), root, username, key),
            }
        },
        SftpAuthentication::SshConfig | SftpAuthentication::SshAgent => open_sftp_at(
            complete.as_str(),
            root,
            username,
            "",
        ),
    }
}

fn build_s3(
    endpoint: &str,
    region: &str,
    bucket: &str,
    root: &str,
    path_style: bool,
    secrets: &ResolvedSecrets,
) -> (result: Result<OperatorBuild, FileManagerError>)
    ensures
        match first_absent(
            seq![
                ("S3 endpoint"@, endpoint@),
                ("S3 region"@, region@),
                ("S3 bucket"@, bucket@),
                ("S3 access key"@, secrets::secret_in(secrets@, "access_key"@)),
                ("S3 secret key"@, secrets::secret_in(secrets@, "secret_key"@)),
            ],
        ) {
            Some(refusal) => result matches Err(error) && error@ == refusal,
            None => comes_from(
                result,
                backend::s3_service(
                    endpoint@,
                    region@,
                    bucket@,
                    root@,
                    secrets::secret_in(secrets@, "access_key"@),
                    secrets::secret_in(secrets@, "secret_key"@),
                    secrets::secret_in(secrets@, "session_token"@),
                    !path_style,
                ),
            ),
        },
{
    proof {
        reveal_with_fuel(first_absent, 6);
    }
    match validate_required("S3 endpoint", endpoint) {
        Err(error) => {
            return Err(error);
        },
        Ok(_) => {},
    }
    match validate_required("S3 region", region) {
        Err(error) => {
            return Err(error);
        },
        Ok(_) => {},
    }
    match validate_required("S3 bucket", bucket) {
        Err(error) => {
            return Err(error);
        },
        Ok(_) => {},
    }
    let access_key = secrets.get("access_key");
    match validate_required("S3 access key", access_key) {
        Err(error) => {
            return Err(error);
        },
        Ok(_) => {},
    }
    let secret_key = secrets.get("secret_key");
    match validate_required("S3 secret key", secret_key) {
        Err(error) => {
            return Err(error);
        },
        Ok(_) => {},
    }
    opened(
        open_s3(
            endpoint,
            region,
            bucket,
            root,
            access_key,
            secret_key,
            secrets.get("session_token"),
            !path_style,
        ),
    )
}

fn build_webdav(
    endpoint: &str,
    root: &str,
    authentication: &WebdavAuthentication,
    secrets: &ResolvedSecrets,
) -> (result: Result<OperatorBuild, FileManagerError>)
    ensures
        match *authentication {
            WebdavAuthentication::Basic { username } => {
                let password = secrets::secret_in(secrets@, "password"@);
                match first_absent(
                    seq![
                        ("WebDAV endpoint"@, endpoint@),
                        ("WebDAV username"@, username@),
                        ("WebDAV password"@, password),
                    ],
                ) {
                    Some(refusal) => result matches Err(error) && error@ == refusal,
                    None => comes_from(
                        result,
                        backend::webdav_service(endpoint@, root@, username@, password, Seq::empty()),
                    ),
                }
            },
            WebdavAuthentication::Bearer => {
                let token = secrets::secret_in(secrets@, "bearer_token"@);
                match first_absent(seq![("WebDAV endpoint"@, endpoint@), ("WebDAV bearer token"@, token)]) {
                    Some(refusal) => result matches Err(error) && error@ == refusal,
                    None => comes_from(
                        result,
                        backend::webdav_service(endpoint@, root@, Seq::empty(), Seq::empty(), token),
                    ),
                }
            },
        },
{
    proof {
        reveal_with_fuel(first_absent, 4);
        reveal_strlit("");
        assert(""@ =~= Seq::<char>::empty());
    }
    match validate_required("WebDAV endpoint", endpoint) {
        Err(error) => {
            return Err(error);
        },
        Ok(_) => {},
    }
    match authentication {
        WebdavAuthentication::Basic { username } => {
            match validate_required("WebDAV username", username.as_str()) {
                Err(error) => {
                    return Err(error);
                },
                Ok(_) => {},
            }
            let password = secrets.get("password");
            match validate_required("WebDAV password", password) {
                Err(error) => Err(error),
                Ok(_) => opened(open_webdav(endpoint, root, username.as_str(), password, "")),
            }
        },
        WebdavAuthentication::Bearer => {
            let token = secrets.get("bearer_token");
            match validate_required("WebDAV bearer token", token) {
                Err(error) => Err(error),
                Ok(_) => opened(open_webdav(endpoint, root, "", "", token)),
            }
        },
    }
}

fn build_webhdfs(
    endpoint: &str,
    root: &str,
    simple_user: &str,
    use_delegation_token: bool,
    secrets: &ResolvedSecrets,
) -> (result: Result<OperatorBuild, FileManagerError>)
    ensures
        ({
            let token = secrets::secret_in(secrets@, "delegation_token"@);
            match first_absent(
                if use_delegation_token {
                    seq![("WebHDFS endpoint"@, endpoint@), ("WebHDFS delegation token"@, token)]
                } else {
                    seq![("WebHDFS endpoint"@, endpoint@), ("WebHDFS simple user"@, simple_user@)]
                },
            ) {
                Some(refusal) => result matches Err(error) && error@ == refusal,
                None => result is Ok && comes_from(
                    result,
                    if use_delegation_token {
                        backend::webhdfs_service(endpoint@, root@, Seq::empty(), token)
                    } else {
                        backend::webhdfs_service(endpoint@, root@, simple_user@, Seq::empty())
                    },
                ),
            }
        }),
{
    proof {
        reveal_with_fuel(first_absent, 3);
        reveal_strlit("");
        assert(""@ =~= Seq::<char>::empty());
    }
    match validate_required("WebHDFS endpoint", endpoint) {
        Err(error) => {
            return Err(error);
        },
        Ok(_) => {},
    }
    if use_delegation_token {
        let token = secrets.get("delegation_token");
        match validate_required("WebHDFS delegation token", token) {
            Err(error) => Err(error),
            Ok(_) => opened(open_webhdfs(endpoint, root, "", token)),
        }
    } else {
        match validate_required("WebHDFS simple user", simple_user) {
            Err(error) => Err(error),
            Ok(_) => opened(open_webhdfs(endpoint, root, simple_user, "")),
        }
    }
}

/// Opens the service that a connection leads to. `unix` says whether this is a
/// Unix system.
pub fn build_operator(
    config: &FileConnectionConfig,
    secrets: &ResolvedSecrets,
    runtime_endpoint: Option<&RuntimeEndpoint>,
    unix: bool,
) -> (result: Result<OperatorBuild, FileManagerError>)
    ensures
        is_built(result, *config, secrets@, tunnel_of(runtime_endpoint), unix),
        always_opens(*config) && settings_refusal(*config, secrets@, runtime_endpoint is Some, unix) is None
            ==> result is Ok,
{
    match config {
        FileConnectionConfig::Ftp { endpoint, port, root, username } => build_ftp(
            endpoint.as_str(),
            *port,
            root.as_str(),
            username.as_str(),
            secrets,
            runtime_endpoint,
        ),
        FileConnectionConfig::Sftp { endpoint, port, root, username, authentication } => if unix {
            build_sftp(
                endpoint.as_str(),
                *port,
                root.as_str(),
                username.as_str(),
                *authentication,
                secrets,
                runtime_endpoint,
            )
        } else {
            Err(
                FileManagerError::new(
                    "unsupported",
                    "SFTP file connections are supported on macOS and Linux only",
                ),
            )
        },
        FileConnectionConfig::S3 { endpoint, region, bucket, root, path_style } => match reject_runtime_endpoint(
            runtime_endpoint,
            "S3",
        ) {
            Err(error) => Err(error),
            Ok(_) => build_s3(
                endpoint.as_str(),
                region.as_str(),
                bucket.as_str(),
                root.as_str(),
                *path_style,
                secrets,
            ),
        },
        FileConnectionConfig::Webdav { endpoint, root, authentication } => match reject_runtime_endpoint(
            runtime_endpoint,
            "WebDAV",
        ) {
            Err(error) => Err(error),
            Ok(_) => build_webdav(endpoint.as_str(), root.as_str(), authentication, secrets),
        },
        FileConnectionConfig::Hdfs { config: hdfs } => match hdfs {
            HdfsConfig::Webhdfs { endpoint, root, simple_user, use_delegation_token } =>
            match reject_runtime_endpoint(runtime_endpoint, "WebHDFS") {
                Err(error) => Err(error),
                Ok(_) => build_webhdfs(
                    endpoint.as_str(),
                    root.as_str(),
                    simple_user.as_str(),
                    *use_delegation_token,
                    secrets,
                ),
            },
            HdfsConfig::Native { name_node_uri, root, hadoop_config_directory } => match reject_runtime_endpoint(
                runtime_endpoint,
                "HDFS Native",
            ) {
                Err(error) => Err(error),
                Ok(_) => match validate_hdfs_name_node_uri(name_node_uri.as_str()) {
                    Err(error) => Err(error),
                    Ok(_) => Ok(
                        OperatorBuild::LoadHadoopConfig {
                            name_node: name_node_uri.clone(),
                            root: root.clone(),
                            directory: hadoop_config_directory.clone(),
                        },
                    ),
                },
            },
        },
    }
}

/// A tunnel is refused exactly where the protocol cannot be led through one,
/// whatever else the settings hold.
pub proof fn tunnels_are_for_ftp_and_sftp(config: FileConnectionConfig, given: Map<Seq<char>, Seq<char>>)
    ensures
        !(config is Ftp || config is Sftp) ==> settings_refusal(config, given, true, true) == Some(
            tunnel_error(config.label()),
        ),
        config is Ftp || config is Sftp ==> settings_refusal(config, given, true, true) == settings_refusal(
            config,
            given,
            false,
            true,
        ),
{
}

/// Of the settings that a connection cannot do without, the first that is left out
/// is named; where none is, nothing is refused.
pub proof fn the_first_missing_setting_is_named(settings: Seq<(Seq<char>, Seq<char>)>)
    ensures
        match first_absent(settings) {
            Some(error) => exists|i: int|
                0 <= i < settings.len() && !endpoint::is_present((#[trigger] settings[i]).1) && error.message
                    == settings[i].0 + " is required"@ && error.code == "configuration"@ && forall|j: int|
                    0 <= j < i ==> endpoint::is_present((#[trigger] settings[j]).1),
            None => forall|i: int| 0 <= i < settings.len() ==> endpoint::is_present((#[trigger] settings[i]).1),
        },
    decreases settings.len(),
{
    if settings.len() > 0 {
        let rest = settings.drop_first();
        if endpoint::is_present(settings[0].1) {
            the_first_missing_setting_is_named(rest);
            match first_absent(rest) {
                Some(error) => {
                    let i = choose|i: int|
                        0 <= i < rest.len() && !endpoint::is_present((#[trigger] rest[i]).1) && error.message
                            == rest[i].0 + " is required"@ && error.code == "configuration"@ && forall|j: int|
                            0 <= j < i ==> endpoint::is_present((#[trigger] rest[j]).1);
                    assert(settings[i + 1] == rest[i]);
                    assert forall|j: int| 0 <= j < i + 1 implies endpoint::is_present((#[trigger] settings[j]).1) by {
                        if j > 0 {
                            assert(rest[j - 1] == settings[j]);
                        }
                    }
                },
                None => {
                    assert forall|i: int| 0 <= i < settings.len() implies endpoint::is_present(
                        (#[trigger] settings[i]).1,
                    ) by {
                        if i > 0 {
                            assert(rest[i - 1] == settings[i]);
                        }
                    }
                },
            }
        } else {
            assert(settings[0].0 + " is required"@ == endpoint::required_error(settings[0].0).message);
        }
    }
}

/// A connection is refused exactly where something that it cannot do without is
/// left out: of S3 the endpoint, the region, the bucket and both keys; of the
/// others the endpoint, and what they prove themselves with.
pub proof fn connections_name_what_they_need(config: FileConnectionConfig, given: Map<Seq<char>, Seq<char>>)
    ensures
        config matches FileConnectionConfig::Ftp { endpoint: own, .. } ==> (settings_refusal(config, given, false, true)
            is None <==> endpoint::is_present(own@)),
        config matches FileConnectionConfig::Sftp { endpoint: own, authentication, .. } ==> (settings_refusal(
            config,
            given,
            false,
            true,
        ) is None <==> endpoint::is_present(own@) && (authentication == SftpAuthentication::PrivateKey
            ==> endpoint::is_present(secrets::secret_in(given, "private_key"@)))),
        config matches FileConnectionConfig::S3 { endpoint: own, region, bucket, .. } ==> (settings_refusal(
            config,
            given,
            false,
            true,
        ) is None <==> endpoint::is_present(own@) && endpoint::is_present(region@) && endpoint::is_present(bucket@)
            && endpoint::is_present(secrets::secret_in(given, "access_key"@)) && endpoint::is_present(
            secrets::secret_in(given, "secret_key"@),
        )),
        config matches FileConnectionConfig::Webdav { endpoint: own, authentication: WebdavAuthentication::Basic {
            username,
        }, .. } ==> (settings_refusal(config, given, false, true) is None <==> endpoint::is_present(own@)
            && endpoint::is_present(username@) && endpoint::is_present(secrets::secret_in(given, "password"@))),
        config matches FileConnectionConfig::Webdav { endpoint: own, authentication: WebdavAuthentication::Bearer, .. }
            ==> (settings_refusal(config, given, false, true) is None <==> endpoint::is_present(own@)
            && endpoint::is_present(secrets::secret_in(given, "bearer_token"@))),
        config matches FileConnectionConfig::Hdfs { config: HdfsConfig::Webhdfs {
            endpoint: own,
            simple_user,
            use_delegation_token,
            ..
        } } ==> (settings_refusal(config, given, false, true) is None <==> endpoint::is_present(own@) && (
        if use_delegation_token {
            endpoint::is_present(secrets::secret_in(given, "delegation_token"@))
        } else {
            endpoint::is_present(simple_user@)
        })),
        config matches FileConnectionConfig::Hdfs { config: HdfsConfig::Native { name_node_uri, .. } } ==> (
        settings_refusal(config, given, false, true) is None <==> endpoint::is_name_node_uri(name_node_uri@)),
{
    reveal_with_fuel(first_absent, 6);
}

/// What is left out is named: the first setting of the protocol that is missing.
pub proof fn missing_settings_are_named(config: FileConnectionConfig, given: Map<Seq<char>, Seq<char>>)
    ensures
        config matches FileConnectionConfig::Ftp { endpoint: own, .. } ==> (!endpoint::is_present(own@)
            ==> settings_refusal(config, given, false, true) == Some(endpoint::required_error("FTP endpoint"@))),
        config matches FileConnectionConfig::Sftp { endpoint: own, authentication, .. } ==> (!endpoint::is_present(own@)
            ==> settings_refusal(config, given, false, true) == Some(endpoint::required_error("SFTP endpoint"@))) && (
        endpoint::is_present(own@) && authentication == SftpAuthentication::PrivateKey && !endpoint::is_present(
            secrets::secret_in(given, "private_key"@),
        ) ==> settings_refusal(config, given, false, true) == Some(endpoint::required_error("SFTP private key"@))),
        config matches FileConnectionConfig::S3 { endpoint: own, region, bucket, .. } ==> settings_refusal(
            config,
            given,
            false,
            true,
        ) == (if !endpoint::is_present(own@) {
            Some(endpoint::required_error("S3 endpoint"@))
        } else if !endpoint::is_present(region@) {
            Some(endpoint::required_error("S3 region"@))
        } else if !endpoint::is_present(bucket@) {
            Some(endpoint::required_error("S3 bucket"@))
        } else if !endpoint::is_present(secrets::secret_in(given, "access_key"@)) {
            Some(endpoint::required_error("S3 access key"@))
        } else if !endpoint::is_present(secrets::secret_in(given, "secret_key"@)) {
            Some(endpoint::required_error("S3 secret key"@))
        } else {
            None
        }),
        config matches FileConnectionConfig::Webdav { endpoint: own, .. } ==> (!endpoint::is_present(own@)
            ==> settings_refusal(config, given, false, true) == Some(endpoint::required_error("WebDAV endpoint"@))),
        config matches FileConnectionConfig::Hdfs { config: HdfsConfig::Webhdfs { endpoint: own, .. } } ==> (
        !endpoint::is_present(own@) ==> settings_refusal(config, given, false, true) == Some(
            endpoint::required_error("WebHDFS endpoint"@),
        )),
        config is Sftp ==> (settings_refusal(config, given, false, false) matches Some(error) && error.code
            == "unsupported"@ && error.message == "SFTP file connections are supported on macOS and Linux only"@),
        config !is Sftp ==> settings_refusal(config, given, false, false) == settings_refusal(
            config,
            given,
            false,
            true,
        ),
{
    reveal_with_fuel(first_absent, 6);
}

/// A service is opened with the settings and the secrets of its own protocol, and
/// with nothing else.
pub proof fn services_are_opened_with_their_own_settings(
    config: FileConnectionConfig,
    given: Map<Seq<char>, Seq<char>>,
)
    ensures
        config matches FileConnectionConfig::Ftp { endpoint: own, port, root, username } ==> service(config, given, None)
            == backend::ftp_service(
            endpoint::complete_endpoint(own@, "ftp"@, port),
            root@,
            username@,
            secrets::secret_in(given, "password"@),
        ),
        config matches FileConnectionConfig::Sftp { endpoint: own, port, root, username, authentication } ==> service(
            config,
            given,
            None,
        ) == backend::sftp_service(
            endpoint::complete_endpoint(own@, "ssh"@, port),
            root@,
            username@,
            "Add"@,
            if authentication == SftpAuthentication::PrivateKey {
                secrets::secret_in(given, "private_key"@)
            } else {
                Seq::empty()
            },
        ),
        config matches FileConnectionConfig::S3 { endpoint: own, region, bucket, root, path_style } ==> service(
            config,
            given,
            None,
        ) == backend::s3_service(
            own@,
            region@,
            bucket@,
            root@,
            secrets::secret_in(given, "access_key"@),
            secrets::secret_in(given, "secret_key"@),
            secrets::secret_in(given, "session_token"@),
            !path_style,
        ),
        config matches FileConnectionConfig::Webdav { endpoint: own, root, authentication: WebdavAuthentication::Basic {
            username,
        } } ==> service(config, given, None) == backend::webdav_service(
            own@,
            root@,
            username@,
            secrets::secret_in(given, "password"@),
            Seq::empty(),
        ),
        config matches FileConnectionConfig::Webdav { endpoint: own, root, authentication: WebdavAuthentication::Bearer }
            ==> service(config, given, None) == backend::webdav_service(
            own@,
            root@,
            Seq::empty(),
            Seq::empty(),
            secrets::secret_in(given, "bearer_token"@),
        ),
        config matches FileConnectionConfig::Hdfs { config: HdfsConfig::Webhdfs {
            endpoint: own,
            root,
            simple_user,
            use_delegation_token,
        } } ==> service(config, given, None) == (if use_delegation_token {
            backend::webhdfs_service(own@, root@, Seq::empty(), secrets::secret_in(given, "delegation_token"@))
        } else {
            backend::webhdfs_service(own@, root@, simple_user@, Seq::empty())
        }),
{
}

/// A connection that is led through a tunnel is let in where the tunnel says, and
/// is otherwise opened with the same settings.
pub proof fn tunnelled_services_are_let_in_by_their_tunnel(
    config: FileConnectionConfig,
    given: Map<Seq<char>, Seq<char>>,
    tunnel: RuntimeEndpoint,
)
    ensures
        config matches FileConnectionConfig::Ftp { endpoint: own, port, root, username } ==> service(
            config,
            given,
            Some(tunnel),
        ) == service(
            FileConnectionConfig::Ftp { endpoint: tunnel.host, port: tunnel.port, root, username },
            given,
            None,
        ),
        config matches FileConnectionConfig::Sftp { endpoint: own, port, root, username, authentication } ==> service(
            config,
            given,
            Some(tunnel),
        ) == service(
            FileConnectionConfig::Sftp {
                endpoint: tunnel.host,
                port: tunnel.port,
                root,
                username,
                authentication,
            },
            given,
            None,
        ),
        tunnel_of(Some(&tunnel)) == Some(tunnel),
        tunnel_of(None) is None,
        tunnel_error("S3"@).code == "unsupported"@ && tunnel_error("S3"@).message == "S3"@
            + " does not support SSH or proxy transport layers"@,
{
}

/// What was built is what was opened: the service, where it opened, and otherwise
/// the reason for which it did not. An HDFS client is built from the files in the
/// directory that it names.
pub proof fn what_opened_is_what_is_built(
    result: Result<OperatorBuild, FileManagerError>,
    config: FileConnectionConfig,
    given: Map<Seq<char>, Seq<char>>,
    tunnel: Option<RuntimeEndpoint>,
    unix: bool,
)
    requires
        is_built(result, config, given, tunnel, unix),
    ensures
        result matches Ok(OperatorBuild::Open(operator)) ==> settings_refusal(config, given, tunnel is Some, unix)
            is None && service(config, given, tunnel) == Ok::<opendal::Operator, opendal::Error>(operator),
        result matches Ok(OperatorBuild::LoadHadoopConfig { name_node, root, directory }) ==> (config matches FileConnectionConfig::Hdfs {
            config: HdfsConfig::Native { name_node_uri, root: own_root, hadoop_config_directory },
        } && name_node@ == name_node_uri@ && root@ == own_root@ && directory@ == hadoop_config_directory@),
        settings_refusal(config, given, tunnel is Some, unix) matches Some(refusal) ==> (result matches Err(error)
            && error@ == refusal),
        settings_refusal(config, given, tunnel is Some, unix) is None && !(config matches FileConnectionConfig::Hdfs {
            config: hdfs,
        } && hdfs is Native) && service(config, given, tunnel) is Ok ==> result is Ok,
        settings_refusal(config, given, tunnel is Some, unix) is None && (config matches FileConnectionConfig::Hdfs {
            config: hdfs,
        } && hdfs is Native) ==> result is Ok,
{
}

/// What a connection proves itself with is named where it is left out.
pub proof fn missing_proofs_are_named(config: FileConnectionConfig, given: Map<Seq<char>, Seq<char>>)
    ensures
        config matches FileConnectionConfig::Webdav { endpoint: own, authentication: WebdavAuthentication::Basic {
            username,
        }, .. } ==> (endpoint::is_present(own@) ==> settings_refusal(config, given, false, true) == (
        if !endpoint::is_present(username@) {
            Some(endpoint::required_error("WebDAV username"@))
        } else if !endpoint::is_present(secrets::secret_in(given, "password"@)) {
            Some(endpoint::required_error("WebDAV password"@))
        } else {
            None
        })),
        config matches FileConnectionConfig::Webdav { endpoint: own, authentication: WebdavAuthentication::Bearer, .. }
            ==> (endpoint::is_present(own@) && !endpoint::is_present(secrets::secret_in(given, "bearer_token"@))
            ==> settings_refusal(config, given, false, true) == Some(endpoint::required_error("WebDAV bearer token"@))),
        config matches FileConnectionConfig::Hdfs { config: HdfsConfig::Webhdfs {
            endpoint: own,
            simple_user,
            use_delegation_token,
            ..
        } } ==> (endpoint::is_present(own@) ==> settings_refusal(config, given, false, true) == (
        if use_delegation_token && !endpoint::is_present(secrets::secret_in(given, "delegation_token"@)) {
            Some(endpoint::required_error("WebHDFS delegation token"@))
        } else if !use_delegation_token && !endpoint::is_present(simple_user@) {
            Some(endpoint::required_error("WebHDFS simple user"@))
        } else {
            None
        })),
        always_opens(config) <==> config is Sftp || (config is Hdfs && config->Hdfs_config is Webhdfs),
{
    reveal_with_fuel(first_absent, 6);
}

} // verus!
