//! File connections, what they can do, and the errors that they report.
use crate::text;
use vstd::prelude::*;

verus! {

/// How a file is copied on a server.
#[derive(Clone, Copy, Debug, PartialEq, Eq, Structural)]
pub enum FileCopyMode {
    Native,
    StreamRelay,
}

/// How a file is renamed on a server.
#[derive(Clone, Copy, Debug, PartialEq, Eq, Structural)]
pub enum FileRenameMode {
    Native,
    CopyDelete,
}

/// How an SFTP connection proves who it is.
#[derive(Clone, Copy, Debug, PartialEq, Eq, Structural)]
pub enum SftpAuthentication {
    SshConfig,
    SshAgent,
    PrivateKey,
}

/// How a WebDAV connection proves who it is.
#[derive(Clone, Debug, PartialEq, Eq)]
pub enum WebdavAuthentication {
    Basic { username: String },
    Bearer,
}

/// The two ways to an HDFS cluster.
#[derive(Clone, Debug, PartialEq, Eq)]
pub enum HdfsConfig {
    Webhdfs { endpoint: String, root: String, simple_user: String, use_delegation_token: bool },
    Native { name_node_uri: String, root: String, hadoop_config_directory: String },
}

/// Where a file connection leads, without its secrets.
#[allow(inconsistent_fields)]
#[derive(Clone, Debug, PartialEq, Eq)]
pub enum FileConnectionConfig {
    Ftp { endpoint: String, port: u16, root: String, username: String },
    Sftp {
        endpoint: String,
        port: u16,
        root: String,
        username: String,
        authentication: SftpAuthentication,
    },
    S3 { endpoint: String, region: String, bucket: String, root: String, path_style: bool },
    Webdav { endpoint: String, root: String, authentication: WebdavAuthentication },
    Hdfs { config: HdfsConfig },
}

impl FileConnectionConfig {
    /// What the protocol is called in messages.
    pub open spec fn label(self) -> Seq<char> {
        match self {
            FileConnectionConfig::Ftp { .. } => "FTP"@,
            FileConnectionConfig::Sftp { .. } => "SFTP"@,
            FileConnectionConfig::S3 { .. } => "S3"@,
            FileConnectionConfig::Webdav { .. } => "WebDAV"@,
            FileConnectionConfig::Hdfs { config: HdfsConfig::Webhdfs { .. } } => "WebHDFS"@,
            FileConnectionConfig::Hdfs { config: HdfsConfig::Native { .. } } => "HDFS Native"@,
        }
    }

    /// What the protocol is called in messages.
    pub fn driver_label(&self) -> (label: &'static str)
        ensures
            label@ == self.label(),
    {
        match self {
            FileConnectionConfig::Ftp { .. } => "FTP",
            FileConnectionConfig::Sftp { .. } => "SFTP",
            FileConnectionConfig::S3 { .. } => "S3",
            FileConnectionConfig::Webdav { .. } => "WebDAV",
            FileConnectionConfig::Hdfs { config: HdfsConfig::Webhdfs { .. } } => "WebHDFS",
            FileConnectionConfig::Hdfs { config: HdfsConfig::Native { .. } } => "HDFS Native",
        }
    }

    /// The connection can be led through a tunnel or a proxy.
    pub open spec fn takes_tunnels(self) -> bool {
        self is Ftp || self is Sftp
    }

    /// Says whether the connection can be led through a tunnel or a proxy.
    pub fn supports_transport_layers(&self) -> (supported: bool)
        ensures
            supported == self.takes_tunnels(),
    {
        matches!(self, FileConnectionConfig::Ftp { .. } | FileConnectionConfig::Sftp { .. })
    }
}

/// What a connection can do, and how it does it.
#[derive(Clone, Debug, PartialEq, Eq, Structural)]
pub struct FileCapabilities {
    pub read: bool,
    pub write: bool,
    pub stat: bool,
    pub list: bool,
    pub delete: bool,
    pub copy: bool,
    pub rename: bool,
    pub native_copy: bool,
    pub native_rename: bool,
    pub atomic_rename: bool,
    pub atomic_no_clobber: bool,
    pub copy_mode: FileCopyMode,
    pub rename_mode: FileRenameMode,
}

/// The server copies files itself.
pub open spec fn copies_natively(config: FileConnectionConfig) -> bool {
    config is Sftp || config is S3 || config is Webdav
}

/// The server renames files itself.
pub open spec fn renames_natively(config: FileConnectionConfig) -> bool {
    ||| config is Sftp
    ||| config is Webdav
    ||| (config matches FileConnectionConfig::Hdfs { config: hdfs } && hdfs is Native)
}

/// The connection can be used on this platform: SFTP needs Unix.
pub open spec fn usable_on(config: FileConnectionConfig, unix: bool) -> bool {
    config is Sftp ==> unix
}

/// What a connection can do on a platform. Where it cannot be used there, it
/// can do nothing.
pub open spec fn capabilities_on(config: FileConnectionConfig, unix: bool) -> FileCapabilities {
    let usable = usable_on(config, unix);
    let native_copy = usable && copies_natively(config);
    let native_rename = usable && renames_natively(config);
    FileCapabilities {
        read: usable,
        write: usable,
        stat: usable,
        list: usable,
        delete: usable,
        copy: usable,
        rename: usable,
        native_copy,
        native_rename,
        atomic_rename: native_rename,
        atomic_no_clobber: false,
        copy_mode: if native_copy {
            FileCopyMode::Native
        } else {
            FileCopyMode::StreamRelay
        },
        rename_mode: if native_rename {
            FileRenameMode::Native
        } else {
            FileRenameMode::CopyDelete
        },
    }
}

impl FileCapabilities {
    /// What a connection can do on a platform.
    pub fn for_config_on_platform(config: &FileConnectionConfig, unix: bool) -> (capabilities: FileCapabilities)
        ensures
            capabilities == capabilities_on(*config, unix),
    {
        if matches!(config, FileConnectionConfig::Sftp { .. }) && !unix {
            return FileCapabilities {
                read: false,
                write: false,
                stat: false,
                list: false,
                delete: false,
                copy: false,
                rename: false,
                native_copy: false,
                native_rename: false,
                atomic_rename: false,
                atomic_no_clobber: false,
                copy_mode: FileCopyMode::StreamRelay,
                rename_mode: FileRenameMode::CopyDelete,
            };
        }
        let (native_copy, native_rename, atomic_rename) = match config {
            FileConnectionConfig::Ftp { .. } => (false, false, false),
            FileConnectionConfig::Sftp { .. } => (true, true, true),
            FileConnectionConfig::S3 { .. } => (true, false, false),
            FileConnectionConfig::Webdav { .. } => (true, true, true),
            FileConnectionConfig::Hdfs { config: HdfsConfig::Webhdfs { .. } } => (false, false, false),
            FileConnectionConfig::Hdfs { config: HdfsConfig::Native { .. } } => (false, true, true),
        };
        FileCapabilities {
            read: true,
            write: true,
            stat: true,
            list: true,
            delete: true,
            copy: true,
            rename: true,
            native_copy,
            native_rename,
            atomic_rename,
            atomic_no_clobber: false,
            copy_mode: if native_copy {
                FileCopyMode::Native
            } else {
                FileCopyMode::StreamRelay
            },
            rename_mode: if native_rename {
                FileRenameMode::Native
            } else {
                FileRenameMode::CopyDelete
            },
        }
    }

    /// What a connection can do where it is used: `unix` says whether that is a
    /// Unix system.
    pub fn for_config(config: &FileConnectionConfig, unix: bool) -> (capabilities: FileCapabilities)
        ensures
            capabilities == capabilities_on(*config, unix),
    {
        FileCapabilities::for_config_on_platform(config, unix)
    }
}

/// Whatever a connection leads to, its capabilities agree with each other: a
/// mode is native exactly where the server does the work itself, a rename is
/// atomic exactly where it is native, and nothing is promised of a connection
/// that cannot be used.
pub proof fn capabilities_agree(config: FileConnectionConfig, unix: bool)
    ensures
        ({
            let c = capabilities_on(config, unix);
            &&& c.native_copy <==> c.copy_mode == FileCopyMode::Native
            &&& c.native_rename <==> c.rename_mode == FileRenameMode::Native
            &&& c.atomic_rename == c.native_rename
            &&& !c.atomic_no_clobber
            &&& c.native_copy ==> c.copy
            &&& c.native_rename ==> c.rename
            &&& c.read == c.write && c.read == c.stat && c.read == c.list && c.read == c.delete && c.read
                == c.copy && c.read == c.rename
            &&& !c.read <==> (config is Sftp && !unix)
        }),
{
}

/// What happens to one saved secret.
#[derive(Clone, Debug, PartialEq, Eq)]
pub enum SecretUpdate {
    Keep,
    Clear,
    SetTo(String),
}

/// What happens to the saved secrets of a connection.
#[derive(Clone, Debug, PartialEq, Eq)]
pub struct FileSecretUpdates {
    pub password: SecretUpdate,
    pub private_key: SecretUpdate,
    pub access_key: SecretUpdate,
    pub secret_key: SecretUpdate,
    pub session_token: SecretUpdate,
    pub bearer_token: SecretUpdate,
    pub delegation_token: SecretUpdate,
}

impl Default for FileSecretUpdates {
    /// Every secret is kept.
    fn default() -> (updates: FileSecretUpdates)
        ensures
            updates == (FileSecretUpdates {
                password: SecretUpdate::Keep,
                private_key: SecretUpdate::Keep,
                access_key: SecretUpdate::Keep,
                secret_key: SecretUpdate::Keep,
                session_token: SecretUpdate::Keep,
                bearer_token: SecretUpdate::Keep,
                delegation_token: SecretUpdate::Keep,
            }),
    {
        FileSecretUpdates {
            password: SecretUpdate::Keep,
            private_key: SecretUpdate::Keep,
            access_key: SecretUpdate::Keep,
            secret_key: SecretUpdate::Keep,
            session_token: SecretUpdate::Keep,
            bearer_token: SecretUpdate::Keep,
            delegation_token: SecretUpdate::Keep,
        }
    }
}

/// A connection that is tried: a saved one, with changed settings or secrets,
/// or one that has not been saved yet.
#[derive(Clone, Debug, PartialEq, Eq)]
pub struct TestFileConnectionRequest {
    pub id: Option<String>,
    pub config: FileConnectionConfig,
    pub secrets: FileSecretUpdates,
}

/// What an entry of a remote directory is.
#[derive(Clone, Copy, Debug, PartialEq, Eq, Structural)]
pub enum FileEntryKind {
    File,
    Directory,
    Unknown,
}

/// An entry of a remote directory.
#[derive(Clone, Debug, PartialEq, Eq)]
pub struct FileEntry {
    pub path: String,
    pub name: String,
    pub kind: FileEntryKind,
    pub size: u64,
    pub modified_at: Option<String>,
}

/// A file that is to be carried between a connection and the local disk.
#[derive(Clone, Debug, PartialEq, Eq)]
pub struct FileTransferRequest {
    pub connection_id: String,
    pub remote_path: String,
    pub local_path: String,
    pub replace: bool,
}

/// How much of a file was carried.
#[derive(Clone, Debug, PartialEq, Eq, Structural)]
pub struct FileTransferProgress {
    pub bytes_transferred: u64,
    pub total_bytes: u64,
}

/// A file that is to be copied or renamed on one connection.
#[derive(Clone, Debug, PartialEq, Eq)]
pub struct FileRemoteOperationRequest {
    pub connection_id: String,
    pub source_path: String,
    pub destination_path: String,
    pub replace: bool,
}

/// An error that a caller is shown: a code that programs read, a message that
/// people read, and what is left for them to do.
#[derive(Clone, Debug, PartialEq, Eq)]
pub struct FileManagerError {
    pub code: &'static str,
    pub message: String,
    pub recovery: Option<String>,
}

/// What a [`FileManagerError`] says.
#[verifier::ext_equal]
pub struct ManagerErrorView {
    pub code: Seq<char>,
    pub message: Seq<char>,
    pub recovery: Option<Seq<char>>,
}

impl View for FileManagerError {
    type V = ManagerErrorView;

    open spec fn view(&self) -> ManagerErrorView {
        ManagerErrorView {
            code: self.code@,
            message: self.message@,
            recovery: text::optional_text(self.recovery),
        }
    }
}

/// An error with a code and a message, and nothing left to do.
pub open spec fn manager_error(code: Seq<char>, message: Seq<char>) -> ManagerErrorView {
    ManagerErrorView { code, message, recovery: None }
}

/// An error in a connection's settings.
pub open spec fn configuration_error(message: Seq<char>) -> ManagerErrorView {
    manager_error("configuration"@, message)
}

impl FileManagerError {
    /// An error with a code and a message.
    pub fn new(code: &'static str, message: &str) -> (error: FileManagerError)
        ensures
            error@ == manager_error(code@, message@),
    {
        FileManagerError { code, message: message.to_owned(), recovery: None }
    }

    /// An error in a connection's settings.
    pub fn configuration(message: &str) -> (error: FileManagerError)
        ensures
            error@ == configuration_error(message@),
    {
        FileManagerError::new("configuration", message)
    }
}

/// What a connection can do itself depends on its protocol: SFTP and WebDAV copy
/// and rename, S3 copies, HDFS renames where its own client is used, and FTP does
/// neither.
pub proof fn protocols_do_what_they_can(config: FileConnectionConfig)
    ensures
        config is Ftp ==> !capabilities_on(config, true).native_copy && !capabilities_on(config, true).native_rename,
        config is Sftp ==> capabilities_on(config, true).native_copy && capabilities_on(config, true).native_rename,
        config is Sftp ==> !capabilities_on(config, false).native_copy && !capabilities_on(config, false).read,
        config is S3 ==> capabilities_on(config, true).native_copy && !capabilities_on(config, true).native_rename,
        config is Webdav ==> capabilities_on(config, true).native_copy && capabilities_on(config, true).native_rename,
        config matches FileConnectionConfig::Hdfs { config: hdfs } ==> !capabilities_on(config, true).native_copy && (
        capabilities_on(config, true).native_rename <==> hdfs is Native),
        config !is Sftp ==> capabilities_on(config, true) == capabilities_on(config, false),
        config.takes_tunnels() <==> config is Ftp || config is Sftp,
{
}

/// Messages call a protocol by its name.
pub proof fn protocols_have_names(config: FileConnectionConfig)
    ensures
        config is Ftp ==> config.label() == "FTP"@,
        config is Sftp ==> config.label() == "SFTP"@,
        config is S3 ==> config.label() == "S3"@,
        config is Webdav ==> config.label() == "WebDAV"@,
        config matches FileConnectionConfig::Hdfs { config: hdfs } ==> config.label() == (if hdfs is Native {
            "HDFS Native"@
        } else {
            "WebHDFS"@
        }),
{
}

/// An error says its code and its message, and a caller has nothing left to do
/// unless it says what.
pub proof fn errors_say_what_they_were_made_of(error: FileManagerError, code: Seq<char>, message: Seq<char>)
    ensures
        error@ == manager_error(code, message) <==> error.code@ == code && error.message@ == message
            && error.recovery is None,
        error@ == configuration_error(message) <==> error.code@ == "configuration"@ && error.message@ == message
            && error.recovery is None,
{
}

} // verus!
