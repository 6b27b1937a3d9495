//! Copying and renaming a file on one connection: what is asked of the service,
//! in which order, and what a caller is shown.
use crate::backend;
use crate::backend::error_kind;
use crate::backend::map_operation_error;
use crate::backend::BackendErrorKind;
use crate::models;
use crate::models::FileEntryKind;
use crate::models::FileManagerError;
use crate::text::joined2;
use crate::text::joined5;
use crate::text::same_text;
use crate::text;
use vstd::prelude::*;

verus! {

/// The path that a file is copied or renamed to, behind the checks on it: it is
/// not the path of the file.
pub fn destination_path(source: &str, destination: Result<String, FileManagerError>) -> (path: Result<
    String,
    FileManagerError,
>)
    ensures
        match destination {
            Err(refused) => path == Err::<String, FileManagerError>(refused),
            Ok(wanted) => if source@ == wanted@ {
                path matches Err(error) && error@ == models::configuration_error(
                    "The source and destination paths must be different"@,
                )
            } else {
                path == Ok::<String, FileManagerError>(wanted)
            },
        },
{
    match destination {
        Err(refused) => Err(refused),
        Ok(wanted) => if same_text(source, wanted.as_str()) {
            Err(FileManagerError::configuration("The source and destination paths must be different"))
        } else {
            Ok(wanted)
        },
    }
}

/// What a caller is shown where a file was copied and its source stayed.
pub open spec fn partial_rename(source: Seq<char>, destination: Seq<char>) -> models::ManagerErrorView {
    models::ManagerErrorView {
        code: "partial_success"@,
        message: "The destination was created, but the source file could not be deleted"@,
        recovery: Some(
            "The source remains at '"@ + source + "'. Verify '"@ + destination
                + "', then delete the source manually."@,
        ),
    }
}

/// What a caller is shown where a file was copied and its source stayed.
pub fn partial_rename_error(source: &str, destination: &str) -> (error: FileManagerError)
    ensures
        error@ == partial_rename(source@, destination@),
{
    let recovery = joined5(
        "The source remains at '",
        source,
        "'. Verify '",
        destination,
        "', then delete the source manually.",
    );
    FileManagerError {
        code: "partial_success",
        message: "The destination was created, but the source file could not be deleted".to_owned(),
        recovery: Some(recovery),
    }
}

/// Two paths on one connection, and whether a file at the second is replaced.
#[derive(Debug)]
pub struct OperationPaths {
    pub source: String,
    pub destination: String,
    pub replace: bool,
}

/// The source is due to be looked at.
#[derive(Debug)]
#[non_exhaustive]
pub struct SourceStat {
    pub paths: OperationPaths,
}

/// Nothing stands at the source's path: it is due to be looked at as a
/// directory, under [`SourceDirectoryStat::path`].
#[derive(Debug)]
#[non_exhaustive]
pub struct SourceDirectoryStat {
    pub paths: OperationPaths,
    pub missing: opendal::Error,
}

/// The destination is due to be looked for.
#[derive(Debug)]
#[non_exhaustive]
pub struct DestinationExists {
    pub paths: OperationPaths,
}

/// What stands at the destination is due to be looked at.
#[derive(Debug)]
#[non_exhaustive]
pub struct DestinationStat {
    pub paths: OperationPaths,
}

/// The source is a file and the destination is free or may be replaced: the file
/// is due to be copied or renamed.
#[derive(Debug)]
#[non_exhaustive]
pub struct OperationReady {
    pub paths: OperationPaths,
}

/// What comes behind a first look at the source.
#[derive(Debug)]
pub enum SourceStep {
    Directory(SourceDirectoryStat),
    Destination(DestinationExists),
    Failed(FileManagerError),
}

/// What comes behind a search for the destination.
#[derive(Debug)]
pub enum DestinationStep {
    Stat(DestinationStat),
    Ready(OperationReady),
    Failed(FileManagerError),
}

/// What a caller is shown where the source is no file.
pub open spec fn not_a_file() -> models::ManagerErrorView {
    models::manager_error("unsupported"@, "Only files can be copied or renamed in this version"@)
}

/// Begins to copy or rename a file.
pub fn ensure_source_file(paths: OperationPaths) -> (due: SourceStat)
    ensures
        due.paths == paths,
{
    SourceStat { paths }
}

impl SourceStat {
    /// What stands at the source's path.
    pub fn answered(self, reply: Result<FileEntryKind, opendal::Error>) -> (step: SourceStep)
        ensures
            match reply {
                Ok(kind) => if kind == FileEntryKind::File {
                    step matches SourceStep::Destination(due) && due.paths == self.paths
                } else {
                    step matches SourceStep::Failed(error) && error@ == not_a_file()
                },
                Err(missing) => if backend::kind_of(missing) == BackendErrorKind::NotFound {
                    step matches SourceStep::Directory(due) && due.paths == self.paths && due.missing == missing
                } else {
                    step matches SourceStep::Failed(error) && error@ == backend::operation_failure(
                        backend::kind_of(missing),
                    )
                },
            },
    {
        match reply {
            Ok(kind) => if kind == FileEntryKind::File {
                SourceStep::Destination(DestinationExists { paths: self.paths })
            } else {
                SourceStep::Failed(
                    FileManagerError::new(
                        "unsupported",
                        "Only files can be copied or renamed in this version",
                    ),
                )
            },
            Err(missing) => if error_kind(&missing) == BackendErrorKind::NotFound {
                SourceStep::Directory(SourceDirectoryStat { paths: self.paths, missing })
            } else {
                SourceStep::Failed(map_operation_error(missing))
            },
        }
    }
}

impl SourceDirectoryStat {
    /// The path of the source as a directory.
    pub fn path(&self) -> (path: String)
        ensures
            path@ == self.paths.source@ + "/"@,
    {
        joined2(self.paths.source.as_str(), "/")
    }

    /// What stands at the source's path as a directory: where nothing does, the
    /// source is missing.
    pub fn answered(self, reply: Result<FileEntryKind, opendal::Error>) -> (step: Result<
        DestinationExists,
        FileManagerError,
    >)
        ensures
            match reply {
                Ok(kind) => if kind == FileEntryKind::File {
                    step matches Ok(due) && due.paths == self.paths
                } else {
                    step matches Err(error) && error@ == not_a_file()
                },
                Err(_) => step matches Err(error) && error@ == backend::operation_failure(
                    backend::kind_of(self.missing),
                ),
            },
    {
        match reply {
            Ok(kind) => if kind == FileEntryKind::File {
                Ok(DestinationExists { paths: self.paths })
            } else {
                Err(
                    FileManagerError::new(
                        "unsupported",
                        "Only files can be copied or renamed in this version",
                    ),
                )
            },
            Err(_) => Err(map_operation_error(self.missing)),
        }
    }
}

impl DestinationExists {
    /// Whether something stands at the destination: only where it may be
    /// replaced does that not end the operation.
    pub fn answered(self, reply: Result<bool, opendal::Error>) -> (step: DestinationStep)
        ensures
            match reply {
                Err(failed) => step matches DestinationStep::Failed(error) && error@ == backend::operation_failure(
                    backend::kind_of(failed),
                ),
                Ok(exists_there) => if !exists_there {
                    step matches DestinationStep::Ready(due) && due.paths == self.paths
                } else if !self.paths.replace {
                    step matches DestinationStep::Failed(error) && error@ == models::manager_error(
                        "already_exists"@,
                        "The remote destination already exists"@,
                    )
                } else {
                    step matches DestinationStep::Stat(due) && due.paths == self.paths
                },
            },
    {
        match reply {
            Err(failed) => DestinationStep::Failed(map_operation_error(failed)),
            Ok(exists_there) => if !exists_there {
                DestinationStep::Ready(OperationReady { paths: self.paths })
            } else if !self.paths.replace {
                DestinationStep::Failed(
                    FileManagerError::new("already_exists", "The remote destination already exists"),
                )
            } else {
                DestinationStep::Stat(DestinationStat { paths: self.paths })
            },
        }
    }
}

impl DestinationStat {
    /// What stands at the destination: a directory is not replaced.
    pub fn answered(self, reply: Result<FileEntryKind, opendal::Error>) -> (step: Result<
        OperationReady,
        FileManagerError,
    >)
        ensures
            match reply {
                Err(failed) => step matches Err(error) && error@ == backend::operation_failure(
                    backend::kind_of(failed),
                ),
                Ok(kind) => if kind == FileEntryKind::Directory {
                    step matches Err(error) && error@ == models::manager_error(
                        "unsupported"@,
                        "A file operation cannot replace a directory"@,
                    )
                } else {
                    step matches Ok(due) && due.paths == self.paths
                },
            },
    {
        match reply {
            Err(failed) => Err(map_operation_error(failed)),
            Ok(kind) => if kind == FileEntryKind::Directory {
                Err(FileManagerError::new("unsupported", "A file operation cannot replace a directory"))
            } else {
                Ok(OperationReady { paths: self.paths })
            },
        }
    }
}

/// What the service can do by itself.
#[derive(Clone, Copy, Debug, PartialEq, Eq, Structural)]
pub struct ServiceCapability {
    pub copy: bool,
    pub copy_if_absent: bool,
    pub rename: bool,
    pub write_if_absent: bool,
}

/// How a file is copied: by the service or through this process, and whether the
/// service is told not to replace what came to stand at the destination
/// meanwhile.
#[derive(Clone, Copy, Debug, PartialEq, Eq, Structural)]
pub enum CopyRoute {
    Native { only_if_absent: bool },
    Stream { only_if_absent: bool },
}

/// How a file is copied.
pub open spec fn route_of(capability: ServiceCapability, replace: bool) -> CopyRoute {
    if capability.copy {
        CopyRoute::Native { only_if_absent: !replace && capability.copy_if_absent }
    } else {
        CopyRoute::Stream { only_if_absent: !replace && capability.write_if_absent }
    }
}

impl OperationReady {
    /// How the file is copied on a service.
    pub fn copy_route(&self, capability: ServiceCapability) -> (route: CopyRoute)
        ensures
            route == route_of(capability, self.paths.replace),
    {
        if capability.copy {
            CopyRoute::Native { only_if_absent: !self.paths.replace && capability.copy_if_absent }
        } else {
            CopyRoute::Stream { only_if_absent: !self.paths.replace && capability.write_if_absent }
        }
    }
}

/// How streaming a file through this process ended.
#[derive(Debug)]
pub enum StreamEnd {
    ReaderRefused(opendal::Error),
    WriterRefused(opendal::Error),
    Interrupted,
    Copied,
}

/// What a caller is shown of what the service did by itself.
pub fn native_outcome(reply: Result<(), opendal::Error>) -> (outcome: Result<(), FileManagerError>)
    ensures
        match reply {
            Ok(_) => outcome is Ok,
            Err(failed) => outcome matches Err(error) && error@ == backend::operation_failure(
                backend::kind_of(failed),
            ),
        },
{
    match reply {
        Ok(_) => Ok(()),
        Err(failed) => Err(map_operation_error(failed)),
    }
}

/// What a caller is shown of a file that was streamed through this process.
pub fn stream_copy_outcome(end: StreamEnd) -> (outcome: Result<(), FileManagerError>)
    ensures
        match end {
            StreamEnd::ReaderRefused(failed) | StreamEnd::WriterRefused(failed) => outcome matches Err(error) && error@
                == backend::operation_failure(backend::kind_of(failed)),
            StreamEnd::Interrupted => outcome matches Err(error) && error@ == models::manager_error(
                "transfer"@,
                "The remote file copy did not complete"@,
            ),
            StreamEnd::Copied => outcome is Ok,
        },
{
    match end {
        StreamEnd::ReaderRefused(failed) => Err(map_operation_error(failed)),
        StreamEnd::WriterRefused(failed) => Err(map_operation_error(failed)),
        StreamEnd::Interrupted => Err(
            FileManagerError::new("transfer", "The remote file copy did not complete"),
        ),
        StreamEnd::Copied => Ok(()),
    }
}

/// What a caller is shown where an operation took too long.
pub open spec fn timed_out() -> models::ManagerErrorView {
    models::manager_error("timeout"@, "The file transfer timed out"@)
}

/// How renaming a file by copying and deleting it ended.
#[derive(Debug)]
pub enum FallbackEnd {
    NotCopied(FileManagerError),
    Copied(Result<(), opendal::Error>),
    TimedOut { copied: bool },
}

/// What a caller is shown of a file that was renamed by copying and deleting it:
/// once the copy stands, whatever goes wrong leaves both files.
pub fn fallback_rename_with_delete(source: &str, destination: &str, end: FallbackEnd) -> (outcome: Result<
    (),
    FileManagerError,
>)
    ensures
        match end {
            FallbackEnd::NotCopied(refused) => outcome == Err::<(), FileManagerError>(refused),
            FallbackEnd::Copied(Ok(_)) => outcome is Ok,
            FallbackEnd::Copied(Err(_)) | FallbackEnd::TimedOut { copied: true } => outcome matches Err(error)
                && error@ == partial_rename(source@, destination@),
            FallbackEnd::TimedOut { copied: false } => outcome matches Err(error) && error@ == timed_out(),
        },
{
    match end {
        FallbackEnd::NotCopied(refused) => Err(refused),
        FallbackEnd::Copied(Ok(_)) => Ok(()),
        FallbackEnd::Copied(Err(_)) => Err(partial_rename_error(source, destination)),
        FallbackEnd::TimedOut { copied } => if copied {
            Err(partial_rename_error(source, destination))
        } else {
            Err(FileManagerError::new("timeout", "The file transfer timed out"))
        },
    }
}

/// A file is copied by the service wherever the service can, and is read and
/// written otherwise. Unless it may be replaced, a destination is protected as far
/// as the way that is taken can.
pub proof fn copies_take_the_way_of_the_service(capability: ServiceCapability, replace: bool)
    ensures
        route_of(capability, replace) is Native <==> capability.copy,
        route_of(capability, replace) matches CopyRoute::Native { only_if_absent } ==> (only_if_absent <==> !replace
            && capability.copy_if_absent),
        route_of(capability, replace) matches CopyRoute::Stream { only_if_absent } ==> (only_if_absent <==> !replace
            && capability.write_if_absent),
{
}

/// A file that was copied and whose source stayed is told as half a success: both
/// paths are named, and what is left to do.
pub proof fn half_renames_name_both_files(source: Seq<char>, destination: Seq<char>)
    ensures
        partial_rename(source, destination).code == "partial_success"@,
        partial_rename(source, destination).message
            == "The destination was created, but the source file could not be deleted"@,
        partial_rename(source, destination).recovery matches Some(told) && text::has_prefix(
            told,
            "The source remains at '"@ + source,
        ) && text::has_suffix(told, "Verify '"@ + destination + "', then delete the source manually."@),
{
    let told = partial_rename(source, destination).recovery->0;
    let head = "The source remains at '"@ + source;
    let tail = "Verify '"@ + destination + "', then delete the source manually."@;
    reveal_strlit("'. Verify '");
    reveal_strlit("Verify '");
    assert(told.subrange(0, head.len() as int) =~= head);
    assert("'. Verify '"@ =~= seq!['\'', '.', ' '] + "Verify '"@);
    assert(told.subrange(told.len() - tail.len(), told.len() as int) =~= tail);
}

/// What is no file is not copied, and what takes too long is told as such.
pub proof fn refusals_have_codes()
    ensures
        not_a_file().code == "unsupported"@ && not_a_file().message
            == "Only files can be copied or renamed in this version"@ && not_a_file().recovery is None,
        timed_out().code == "timeout"@ && timed_out().message == "The file transfer timed out"@
            && timed_out().recovery is None,
{
}

} // verus!
