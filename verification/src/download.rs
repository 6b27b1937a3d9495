//! A download: the bytes go to a temporary file next to the local file, and the
//! temporary file becomes the local file once it was written to disk.
//!
//! Every type here stands for one request that is due. Its methods take the
//! reply and give the next request, or the end of the download.
use crate::content::watched_remote;
use crate::failure;
use crate::failure::cancelled_active_failure;
use crate::failure::cancelled_during;
use crate::failure::local_failure;
use crate::failure::remote_failure;
use crate::failure::FailureView;
use crate::failure::TransferFailure;
use crate::failure::TransferStatus;
use crate::finish::DownloadOutcome;
use crate::finish::TransferUpdate;
use crate::finish::TransferUpdateView;
use crate::local_path;
use crate::local_path::LocalPath;
use crate::ownership;
use crate::ownership::download_temp_name;
use crate::progress;
use crate::progress::progress_is_due;
use crate::progress::saturating_count;
use crate::progress::TransferProgressSnapshot;
use crate::reply::Bounded;
use crate::text;
use crate::text::joined2;
use crate::text::joined3;
use vstd::prelude::*;

verus! {

/// The size of the pieces of a download.
pub const DOWNLOAD_BUFFER_SIZE: usize = 4194304;

/// What the metadata of a remote file says.
#[derive(Clone, Copy, Debug, PartialEq, Eq, Structural)]
pub struct RemoteMetadata {
    pub is_file: bool,
    pub content_length: u64,
}

/// Due: the metadata of the remote file.
#[non_exhaustive]
#[derive(Debug)]
pub struct DownloadStart {
    pub transfer_id: String,
    pub has_parent: bool,
}

/// The name of the temporary file is settled; due is its whole path.
#[non_exhaustive]
#[derive(Debug)]
pub struct DownloadNamed {
    pub total_bytes: Option<i64>,
    pub temp_name: String,
}

/// Due: writing down where the temporary file will be.
#[non_exhaustive]
#[derive(Debug)]
pub struct DownloadPreparing {
    pub total_bytes: Option<i64>,
    pub temp_path: String,
    pub update: TransferUpdate,
}

/// Due: opening the directory of the local file.
#[non_exhaustive]
#[derive(Debug)]
pub struct DownloadAnchoring {
    pub total_bytes: Option<i64>,
    pub temp_path: String,
}

/// Due: making the temporary file. From here on the download must not be
/// dropped, until its identity was written down.
#[non_exhaustive]
#[derive(Debug)]
pub struct DownloadCreating {
    pub total_bytes: Option<i64>,
    pub temp_path: String,
}

/// How a temporary file was made.
#[derive(Debug)]
pub enum TempCreation {
    /// It was made, with this identity.
    Created(String),
    /// It could not be made.
    Failed(String),
    /// Whether it was made is not known.
    Lost(String),
}

/// Due: writing down the identity of the temporary file.
#[non_exhaustive]
#[derive(Debug)]
pub struct DownloadIdentifying {
    pub total_bytes: Option<i64>,
    pub temp_path: String,
    pub temp_identity: String,
    pub created_late: bool,
    pub update: TransferUpdate,
}

/// Due: removing a temporary file whose identity could not be written down.
#[non_exhaustive]
#[derive(Debug)]
pub struct DownloadTempCleanup {
    pub temp_identity: String,
    pub error: String,
}

/// What follows the writing down of the identity.
#[derive(Debug)]
pub enum DownloadIdentified {
    /// The download goes on.
    Open(DownloadReaderOpening),
    /// The temporary file has to be removed.
    Cleanup(DownloadTempCleanup),
    /// The download stops.
    Stopped(TransferFailure),
}

/// Due: a reader of the remote file.
#[non_exhaustive]
#[derive(Debug)]
pub struct DownloadReaderOpening {
    pub total_bytes: Option<i64>,
    pub temp_path: String,
    pub temp_identity: String,
}

/// Due: a stream of the remote file.
#[non_exhaustive]
#[derive(Debug)]
pub struct DownloadStreamOpening {
    pub total_bytes: Option<i64>,
    pub temp_path: String,
    pub temp_identity: String,
}

/// Due: the next piece of the remote file, or the rest of its way to the
/// temporary file.
#[non_exhaustive]
#[derive(Debug)]
pub struct DownloadStream {
    pub total_bytes: Option<i64>,
    pub temp_path: String,
    pub temp_identity: String,
    pub bytes_transferred: i64,
    /// When progress was last written down, in milliseconds.
    pub last_progress: u64,
    /// The size of the piece that is being written.
    pub piece: usize,
    /// How much of it was written.
    pub offset: usize,
}

/// Due: flushing the temporary file.
#[non_exhaustive]
#[derive(Debug)]
pub struct DownloadFlush {
    pub total_bytes: Option<i64>,
    pub temp_path: String,
    pub temp_identity: String,
    pub bytes_transferred: i64,
}

/// Due: bringing the temporary file to disk.
#[non_exhaustive]
#[derive(Debug)]
pub struct DownloadSync {
    pub total_bytes: Option<i64>,
    pub temp_path: String,
    pub temp_identity: String,
    pub bytes_transferred: i64,
}

/// Due: writing down that the temporary file is about to become the local file.
#[non_exhaustive]
#[derive(Debug)]
pub struct DownloadPublishing {
    pub total_bytes: Option<i64>,
    pub temp_identity: String,
    pub bytes_transferred: i64,
    pub update: TransferUpdate,
}

/// Due: making the temporary file the local file. From here on the download must
/// not be dropped: the rename may already have been made.
#[non_exhaustive]
#[derive(Debug)]
pub struct DownloadPublish {
    pub total_bytes: Option<i64>,
    pub temp_identity: String,
    pub bytes_transferred: i64,
}

/// A size as far as it can be counted.
pub open spec fn countable(length: u64) -> Option<i64> {
    if length <= i64::MAX {
        Some(length as i64)
    } else {
        None
    }
}

/// What is written down of a download that goes on.
pub open spec fn download_update(
    status: TransferStatus,
    bytes: i64,
    total: Option<i64>,
    temp_path: Seq<char>,
    temp_identity: Option<Seq<char>>,
) -> TransferUpdateView {
    TransferUpdateView {
        status,
        bytes_transferred: bytes,
        total_bytes: total,
        temp_path: Some(temp_path),
        temp_identity,
        error: None,
        finished: false,
    }
}

fn make_download_update(
    status: TransferStatus,
    bytes: i64,
    total: Option<i64>,
    temp_path: &String,
    temp_identity: Option<String>,
) -> (update: TransferUpdate)
    ensures
        update@ == download_update(status, bytes, total, temp_path@, text::optional_text(temp_identity)),
{
    TransferUpdate {
        status,
        bytes_transferred: bytes,
        total_bytes: total,
        temp_path: Some(temp_path.clone()),
        temp_identity,
        error: None,
        finished: false,
    }
}

/// Begins a download to a local path.
pub fn execute_download(transfer_id: String, local: &LocalPath) -> (start: DownloadStart)
    ensures
        start.transfer_id == transfer_id,
        start.has_parent == (local_path::parent(local@) is Some),
{
    DownloadStart { transfer_id, has_parent: local.has_parent() }
}

impl DownloadStart {
    /// Takes the metadata of the remote file.
    pub fn metadata_read(
        self,
        reply: Bounded<Result<RemoteMetadata, String>>,
        progress: &mut TransferProgressSnapshot,
    ) -> (next: Result<DownloadNamed, TransferFailure>)
        ensures
            match reply {
                Bounded::Finished(Ok(metadata)) if metadata.is_file => progress::total_recorded(
                    *old(progress),
                    countable(metadata.content_length),
                    *final(progress),
                ),
                _ => *final(progress) == *old(progress),
            },
            match reply {
                Bounded::TimedOut => next matches Err(stopped) && stopped@ == failure::remote_failed(
                    "Remote file metadata timed out"@,
                ),
                Bounded::Finished(Err(error)) => next matches Err(stopped) && stopped@ == failure::remote_failed(
                    error@,
                ),
                Bounded::Finished(Ok(metadata)) => if !metadata.is_file {
                    next matches Err(stopped) && stopped@ == failure::remote_failed(
                        "The remote path is not a file"@,
                    )
                } else if !self.has_parent {
                    next matches Err(stopped) && stopped@ == failure::local_failed(
                        "Local destination parent is required"@,
                    )
                } else {
                    next matches Ok(named) && named.total_bytes == countable(metadata.content_length)
                        && exists|unique: Seq<char>| #[trigger]
                        ownership::is_identifier(unique) && named.temp_name@ == ownership::partial_name(
                            ".dbx-download-"@,
                            self.transfer_id@,
                            unique,
                        )
                },
            },
    {
        match watched_remote(reply, "Remote file metadata timed out") {
            Err(stopped) => Err(stopped),
            Ok(metadata) => {
                if !metadata.is_file {
                    return Err(remote_failure("The remote path is not a file".to_owned()));
                }
                let total_bytes = if metadata.content_length <= i64::MAX as u64 {
                    Some(metadata.content_length as i64)
                } else {
                    None
                };
                progress.record_total(total_bytes);
                if !self.has_parent {
                    return Err(local_failure("Local destination parent is required".to_owned()));
                }
                let temp_name = download_temp_name(self.transfer_id.as_str());
                Ok(DownloadNamed { total_bytes, temp_name })
            },
        }
    }
}

impl DownloadNamed {
    /// Takes the whole path of the temporary file.
    pub fn located(self, temp_path: String) -> (next: DownloadPreparing)
        ensures
            next.total_bytes == self.total_bytes,
            next.temp_path == temp_path,
            next.update@ == download_update(TransferStatus::Running, 0, self.total_bytes, temp_path@, None),
    {
        let update = make_download_update(TransferStatus::Running, 0, self.total_bytes, &temp_path, None);
        DownloadPreparing { total_bytes: self.total_bytes, temp_path, update }
    }
}

impl DownloadPreparing {
    /// Takes whether it could be written down where the temporary file will be.
    pub fn persisted(self, reply: Result<(), String>) -> (next: Result<DownloadAnchoring, TransferFailure>)
        ensures
            match reply {
                Err(error) => next matches Err(stopped) && stopped@ == failure::local_failed(error@),
                Ok(_) => next matches Ok(anchoring) && anchoring.total_bytes == self.total_bytes
                    && anchoring.temp_path == self.temp_path,
            },
    {
        match reply {
            Err(error) => Err(local_failure(error)),
            Ok(_) => Ok(
                DownloadAnchoring { total_bytes: self.total_bytes, temp_path: self.temp_path },
            ),
        }
    }
}

impl DownloadAnchoring {
    /// Takes whether the directory could be opened.
    pub fn anchored(self, reply: Result<(), String>) -> (next: Result<DownloadCreating, TransferFailure>)
        ensures
            match reply {
                Err(error) => next matches Err(stopped) && stopped@ == failure::local_failed(error@),
                Ok(_) => next matches Ok(creating) && creating.total_bytes == self.total_bytes
                    && creating.temp_path == self.temp_path,
            },
    {
        match reply {
            Err(error) => Err(local_failure(error)),
            Ok(_) => Ok(
                DownloadCreating { total_bytes: self.total_bytes, temp_path: self.temp_path },
            ),
        }
    }
}

impl DownloadCreating {
    /// Takes what came of making the temporary file, and whether it took too
    /// long. A file that was made late is still written down.
    pub fn created(self, reply: TempCreation, late: bool) -> (next: Result<DownloadIdentifying, TransferFailure>)
        ensures
            match reply {
                TempCreation::Lost(error) => next matches Err(stopped) && stopped@ == failure::local_failed(error@),
                TempCreation::Failed(error) => next matches Err(stopped) && stopped@ == failure::local_failed(
                    "Failed to create download temporary file: "@ + error@,
                ),
                TempCreation::Created(identity) => next matches Ok(identifying) && identifying.total_bytes
                    == self.total_bytes && identifying.temp_path == self.temp_path && identifying.temp_identity
                    == identity && identifying.created_late == late && identifying.update@ == download_update(
                    TransferStatus::Running,
                    0,
                    self.total_bytes,
                    self.temp_path@,
                    Some(identity@),
                ),
            },
    {
        match reply {
            TempCreation::Lost(error) => Err(local_failure(error)),
            TempCreation::Failed(error) => Err(
                local_failure(joined2("Failed to create download temporary file: ", error.as_str())),
            ),
            TempCreation::Created(identity) => {
                let update = make_download_update(
                    TransferStatus::Running,
                    0,
                    self.total_bytes,
                    &self.temp_path,
                    Some(identity.clone()),
                );
                Ok(
                    DownloadIdentifying {
                        total_bytes: self.total_bytes,
                        temp_path: self.temp_path,
                        temp_identity: identity,
                        created_late: late,
                        update,
                    },
                )
            },
        }
    }
}

/// A download that lost its connection.
pub open spec fn download_disconnected() -> FailureView {
    failure::cancelled_active("The file connection was removed while the download was running"@)
}

fn stop_disconnected_download() -> (stopped: TransferFailure)
    ensures
        stopped@ == download_disconnected(),
{
    cancelled_during("The file connection was removed while the download was running".to_owned())
}

impl DownloadIdentifying {
    /// Takes whether the identity could be written down, and whether the
    /// transfer was cancelled or its connection removed by then.
    pub fn persisted(self, reply: Result<(), String>, cancelled: bool, removed: bool) -> (next: DownloadIdentified)
        ensures
            match reply {
                Err(error) => next matches DownloadIdentified::Cleanup(cleanup) && cleanup.temp_identity
                    == self.temp_identity && cleanup.error == error,
                Ok(_) => if self.created_late {
                    next matches DownloadIdentified::Stopped(stopped) && stopped@ == failure::local_failed(
                        "Creating the download temporary file timed out"@,
                    )
                } else if cancelled {
                    next matches DownloadIdentified::Stopped(stopped) && stopped@ == failure::cancelled_active(
                        "Download cancelled"@,
                    )
                } else if removed {
                    next matches DownloadIdentified::Stopped(stopped) && stopped@ == download_disconnected()
                } else {
                    next matches DownloadIdentified::Open(opening) && opening.total_bytes == self.total_bytes
                        && opening.temp_path == self.temp_path && opening.temp_identity == self.temp_identity
                },
            },
    {
        match reply {
            Err(error) => DownloadIdentified::Cleanup(
                DownloadTempCleanup { temp_identity: self.temp_identity, error },
            ),
            Ok(_) => {
                if self.created_late {
                    DownloadIdentified::Stopped(
                        local_failure("Creating the download temporary file timed out".to_owned()),
                    )
                } else if cancelled {
                    DownloadIdentified::Stopped(cancelled_active_failure())
                } else if removed {
                    DownloadIdentified::Stopped(stop_disconnected_download())
                } else {
                    DownloadIdentified::Open(
                        DownloadReaderOpening {
                            total_bytes: self.total_bytes,
                            temp_path: self.temp_path,
                            temp_identity: self.temp_identity,
                        },
                    )
                }
            },
        }
    }
}

impl DownloadTempCleanup {
    /// Takes whether the temporary file was removed.
    pub fn removed(self, reply: Result<(), String>) -> (stopped: TransferFailure)
        ensures
            stopped@ == failure::local_failed(
                match reply {
                    Ok(_) => self.error@,
                    Err(cleanup) => self.error@
                        + "; temporary-file cleanup after identity persistence failure failed safely: "@
                        + cleanup@,
                },
            ),
    {
        match reply {
            Ok(_) => local_failure(self.error),
            Err(cleanup) => local_failure(
                joined3(
                    self.error.as_str(),
                    "; temporary-file cleanup after identity persistence failure failed safely: ",
                    cleanup.as_str(),
                ),
            ),
        }
    }
}

impl DownloadReaderOpening {
    /// Takes whether the remote file could be opened.
    pub fn reader_opened(self, reply: Bounded<Result<(), String>>) -> (next: Result<
        DownloadStreamOpening,
        TransferFailure,
    >)
        ensures
            match reply {
                Bounded::TimedOut => next matches Err(stopped) && stopped@ == failure::remote_failed(
                    "Opening the remote file timed out"@,
                ),
                Bounded::Finished(Err(error)) => next matches Err(stopped) && stopped@ == failure::remote_failed(
                    error@,
                ),
                Bounded::Finished(Ok(_)) => next matches Ok(opening) && opening.total_bytes == self.total_bytes
                    && opening.temp_path == self.temp_path && opening.temp_identity == self.temp_identity,
            },
    {
        match watched_remote(reply, "Opening the remote file timed out") {
            Err(stopped) => Err(stopped),
            Ok(_) => Ok(
                DownloadStreamOpening {
                    total_bytes: self.total_bytes,
                    temp_path: self.temp_path,
                    temp_identity: self.temp_identity,
                },
            ),
        }
    }
}

impl DownloadStreamOpening {
    /// Takes whether the stream could be opened.
    pub fn stream_opened(self, reply: Bounded<Result<(), String>>, now: u64) -> (next: Result<
        DownloadStream,
        TransferFailure,
    >)
        ensures
            match reply {
                Bounded::TimedOut => next matches Err(stopped) && stopped@ == failure::remote_failed(
                    "Preparing the remote stream timed out"@,
                ),
                Bounded::Finished(Err(error)) => next matches Err(stopped) && stopped@ == failure::remote_failed(
                    error@,
                ),
                Bounded::Finished(Ok(_)) => next matches Ok(stream) && stream.total_bytes == self.total_bytes
                    && stream.temp_path == self.temp_path && stream.temp_identity == self.temp_identity
                    && stream.is_fresh() && stream.last_progress == now,
            },
    {
        match watched_remote(reply, "Preparing the remote stream timed out") {
            Err(stopped) => Err(stopped),
            Ok(_) => Ok(
                DownloadStream {
                    total_bytes: self.total_bytes,
                    temp_path: self.temp_path,
                    temp_identity: self.temp_identity,
                    bytes_transferred: 0,
                    last_progress: now,
                    piece: 0,
                    offset: 0,
                },
            ),
        }
    }
}

/// What follows the size of the next piece, or the want of one.
pub open spec fn piece_read_leads_to(
    before: DownloadStream,
    reply: Bounded<Result<usize, String>>,
    write: Result<bool, TransferFailure>,
    after: DownloadStream,
) -> bool {
    &&& after.same_target(&before)
    &&& after.bytes_transferred == before.bytes_transferred
    &&& after.last_progress == before.last_progress
    &&& match reply {
        Bounded::TimedOut => write matches Err(stopped) && stopped@ == failure::remote_failed(
            "Remote read made no progress before the I/O watchdog expired"@,
        ) && after.is_between_pieces(),
        Bounded::Finished(Err(error)) => write matches Err(stopped) && stopped@ == failure::remote_failed(
            error@,
        ) && after.is_between_pieces(),
        Bounded::Finished(Ok(count)) => write == Ok::<bool, TransferFailure>(count != 0)
            && after.piece == count && after.offset == 0,
    }
}

/// What follows the writing of some of a piece, and what is told of it.
pub open spec fn piece_written_leads_to(
    before: DownloadStream,
    reply: Bounded<Result<usize, String>>,
    told: TransferProgressSnapshot,
    more: Result<bool, TransferFailure>,
    after: DownloadStream,
    told_then: TransferProgressSnapshot,
) -> bool {
    &&& after.same_target(&before)
    &&& after.piece == before.piece
    &&& after.last_progress == before.last_progress
    &&& match reply {
        Bounded::TimedOut => more matches Err(stopped) && stopped@ == failure::local_failed(
            "Local write made no progress before the I/O watchdog expired"@,
        ),
        Bounded::Finished(Err(error)) => more matches Err(stopped) && stopped@ == failure::local_failed(
            "Failed to write the download: "@ + error@,
        ),
        Bounded::Finished(Ok(written)) => if written == 0 {
            more matches Err(stopped) && stopped@ == failure::local_failed(
                "Failed to write the download: write returned zero bytes"@,
            )
        } else {
            more == Ok::<bool, TransferFailure>(!after.is_between_pieces())
        },
    }
    &&& match reply {
        Bounded::Finished(Ok(written)) => after.offset == before.offset + written
            && after.bytes_transferred == progress::saturating_sum(
            before.bytes_transferred as int,
            written as int,
        ) && (if written == 0 {
            told_then == told
        } else {
            progress::bytes_recorded(told, after.bytes_transferred, told_then)
        }),
        _ => after.offset == before.offset && after.bytes_transferred
            == before.bytes_transferred && told_then == told,
    }
}

/// What follows an update that was to be written down.
pub open spec fn progress_persisted_leads_to(
    before: DownloadStream,
    reply: Result<(), String>,
    now: u64,
    result: Result<(), TransferFailure>,
    after: DownloadStream,
) -> bool {
    &&& after.same_target(&before)
    &&& after.bytes_transferred == before.bytes_transferred
    &&& after.piece == before.piece
    &&& after.offset == before.offset
    &&& match reply {
        Err(error) => result matches Err(stopped) && stopped@ == failure::local_failed(error@)
            && after.last_progress == before.last_progress,
        Ok(_) => result is Ok && after.last_progress == now,
    }
}

/// What follows the end of the remote file.
pub open spec fn end_leads_to(stream: DownloadStream, next: DownloadFlush) -> bool {
    &&& next.total_bytes == stream.total_bytes
    &&& next.temp_path == stream.temp_path
    &&& next.temp_identity == stream.temp_identity
    &&& next.bytes_transferred == stream.bytes_transferred
}

/// What follows the flushing of the temporary file.
pub open spec fn flush_leads_to(
    flush: DownloadFlush,
    reply: Bounded<Result<(), String>>,
    next: Result<DownloadSync, TransferFailure>,
) -> bool {
    match reply {
        Bounded::TimedOut => next matches Err(stopped) && stopped@ == failure::local_failed(
            "Flushing the download timed out"@,
        ),
        Bounded::Finished(Err(error)) => next matches Err(stopped) && stopped@ == failure::local_failed(
            "Failed to flush the download: "@ + error@,
        ),
        Bounded::Finished(Ok(_)) => next matches Ok(due) && due.total_bytes == flush.total_bytes
            && due.temp_path == flush.temp_path && due.temp_identity == flush.temp_identity
            && due.bytes_transferred == flush.bytes_transferred,
    }
}

/// What follows the bringing of the temporary file to disk.
pub open spec fn sync_leads_to(
    sync: DownloadSync,
    reply: Bounded<Result<(), String>>,
    next: Result<DownloadPublishing, TransferFailure>,
) -> bool {
    match reply {
        Bounded::TimedOut => next matches Err(stopped) && stopped@ == failure::local_failed(
            "Synchronizing the download timed out"@,
        ),
        Bounded::Finished(Err(error)) => next matches Err(stopped) && stopped@ == failure::local_failed(
            "Failed to synchronize the download: "@ + error@,
        ),
        Bounded::Finished(Ok(_)) => next matches Ok(due) && due.total_bytes
            == sync.total_bytes && due.temp_identity == sync.temp_identity
            && due.bytes_transferred == sync.bytes_transferred && due.update@
            == download_update(
            TransferStatus::Publishing,
            sync.bytes_transferred,
            sync.total_bytes,
            sync.temp_path@,
            Some(sync.temp_identity@),
        ),
    }
}

/// What follows the writing down that the temporary file is about to become the
/// local file.
pub open spec fn publishing_leads_to(
    publishing: DownloadPublishing,
    reply: Result<(), String>,
    next: Result<DownloadPublish, TransferFailure>,
) -> bool {
    match reply {
        Err(error) => next matches Err(stopped) && stopped@ == failure::local_failed(error@),
        Ok(_) => next matches Ok(due) && due.total_bytes == publishing.total_bytes
            && due.temp_identity == publishing.temp_identity && due.bytes_transferred
            == publishing.bytes_transferred,
    }
}

/// What follows the making of the temporary file the local file.
pub open spec fn publish_leads_to(
    publish: DownloadPublish,
    reply: Result<(), String>,
    end: Result<DownloadOutcome, TransferFailure>,
) -> bool {
    match reply {
        Err(error) => end matches Err(stopped) && stopped@ == failure::local_failed(error@),
        Ok(_) => end == Ok::<DownloadOutcome, TransferFailure>(
            DownloadOutcome { bytes_transferred: publish.bytes_transferred, total_bytes: publish.total_bytes },
        ),
    }
}

impl DownloadStream {
    /// Nothing was read or written.
    pub open spec fn is_fresh(&self) -> bool {
        self.bytes_transferred == 0 && self.is_between_pieces()
    }

    /// Every piece that was read was written.
    pub open spec fn is_between_pieces(&self) -> bool {
        self.offset == self.piece
    }

    /// The parts of the stream that reading and writing leave alone.
    pub open spec fn same_target(&self, other: &DownloadStream) -> bool {
        &&& self.total_bytes == other.total_bytes
        &&& self.temp_path == other.temp_path
        &&& self.temp_identity == other.temp_identity
    }

    /// Takes the size of the next piece of the remote file. Says whether it is to
    /// be written: an empty piece is the end.
    pub fn piece_read(&mut self, reply: Bounded<Result<usize, String>>) -> (write: Result<bool, TransferFailure>)
        requires
            old(self).is_between_pieces(),
        ensures
            piece_read_leads_to(*old(self), reply, write, *final(self)),
    {
        match watched_remote(reply, "Remote read made no progress before the I/O watchdog expired") {
            Err(stopped) => Err(stopped),
            Ok(count) => {
                self.piece = count;
                self.offset = 0;
                Ok(count != 0)
            },
        }
    }

    /// Takes how much of the rest of the piece was written. Says whether there
    /// is more of it.
    pub fn piece_written(
        &mut self,
        reply: Bounded<Result<usize, String>>,
        progress: &mut TransferProgressSnapshot,
    ) -> (more: Result<bool, TransferFailure>)
        requires
            old(self).offset < old(self).piece,
            reply matches Bounded::Finished(Ok(written)) ==> written <= old(self).piece - old(self).offset,
        ensures
            piece_written_leads_to(*old(self), reply, *old(progress), more, *final(self), *final(progress)),
    {
        match reply {
            Bounded::TimedOut => Err(
                local_failure("Local write made no progress before the I/O watchdog expired".to_owned()),
            ),
            Bounded::Finished(Err(error)) => Err(
                local_failure(joined2("Failed to write the download: ", error.as_str())),
            ),
            Bounded::Finished(Ok(written)) => {
                if written == 0 {
                    return Err(
                        local_failure(
                            "Failed to write the download: write returned zero bytes".to_owned(),
                        ),
                    );
                }
                self.offset = self.offset + written;
                self.bytes_transferred = saturating_count(self.bytes_transferred, written);
                progress.record_bytes(self.bytes_transferred);
                Ok(self.offset < self.piece)
            },
        }
    }

    /// The update that is due by now.
    pub fn progress(&self, now: u64) -> (update: Option<TransferUpdate>)
        ensures
            match update {
                Some(due) => progress::is_due(self.last_progress, now) && due@ == download_update(
                    TransferStatus::Running,
                    self.bytes_transferred,
                    self.total_bytes,
                    self.temp_path@,
                    Some(self.temp_identity@),
                ),
                None => !progress::is_due(self.last_progress, now),
            },
    {
        if progress_is_due(self.last_progress, now) {
            Some(
                make_download_update(
                    TransferStatus::Running,
                    self.bytes_transferred,
                    self.total_bytes,
                    &self.temp_path,
                    Some(self.temp_identity.clone()),
                ),
            )
        } else {
            None
        }
    }

    /// Takes whether an update could be written down.
    pub fn progress_persisted(&mut self, reply: Result<(), String>, now: u64) -> (result: Result<(), TransferFailure>)
        ensures
            progress_persisted_leads_to(*old(self), reply, now, result, *final(self)),
    {
        match reply {
            Err(error) => Err(local_failure(error)),
            Ok(_) => {
                self.last_progress = now;
                Ok(())
            },
        }
    }

    /// Takes that the remote file came to its end.
    pub fn ended(self) -> (next: DownloadFlush)
        ensures
            end_leads_to(self, next),
    {
        DownloadFlush {
            total_bytes: self.total_bytes,
            temp_path: self.temp_path,
            temp_identity: self.temp_identity,
            bytes_transferred: self.bytes_transferred,
        }
    }
}

impl DownloadFlush {
    /// Takes whether the temporary file could be flushed.
    pub fn flushed(self, reply: Bounded<Result<(), String>>) -> (next: Result<DownloadSync, TransferFailure>)
        ensures
            flush_leads_to(self, reply, next),
    {
        match reply {
            Bounded::TimedOut => Err(local_failure("Flushing the download timed out".to_owned())),
            Bounded::Finished(Err(error)) => Err(
                local_failure(joined2("Failed to flush the download: ", error.as_str())),
            ),
            Bounded::Finished(Ok(_)) => Ok(
                DownloadSync {
                    total_bytes: self.total_bytes,
                    temp_path: self.temp_path,
                    temp_identity: self.temp_identity,
                    bytes_transferred: self.bytes_transferred,
                },
            ),
        }
    }
}

impl DownloadSync {
    /// Takes whether the temporary file is on disk.
    pub fn synchronized(self, reply: Bounded<Result<(), String>>) -> (next: Result<DownloadPublishing, TransferFailure>)
        ensures
            sync_leads_to(self, reply, next),
    {
        match reply {
            Bounded::TimedOut => Err(local_failure("Synchronizing the download timed out".to_owned())),
            Bounded::Finished(Err(error)) => Err(
                local_failure(joined2("Failed to synchronize the download: ", error.as_str())),
            ),
            Bounded::Finished(Ok(_)) => {
                let update = make_download_update(
                    TransferStatus::Publishing,
                    self.bytes_transferred,
                    self.total_bytes,
                    &self.temp_path,
                    Some(self.temp_identity.clone()),
                );
                Ok(
                    DownloadPublishing {
                        total_bytes: self.total_bytes,
                        temp_identity: self.temp_identity,
                        bytes_transferred: self.bytes_transferred,
                        update,
                    },
                )
            },
        }
    }
}

impl DownloadPublishing {
    /// Takes whether it could be written down that the temporary file is about
    /// to become the local file. Nothing is renamed that was not written down.
    pub fn persisted(self, reply: Result<(), String>) -> (next: Result<DownloadPublish, TransferFailure>)
        ensures
            publishing_leads_to(self, reply, next),
    {
        match reply {
            Err(error) => Err(local_failure(error)),
            Ok(_) => Ok(
                DownloadPublish {
                    total_bytes: self.total_bytes,
                    temp_identity: self.temp_identity,
                    bytes_transferred: self.bytes_transferred,
                },
            ),
        }
    }
}

impl DownloadPublish {
    /// Takes whether the temporary file became the local file.
    pub fn published(self, reply: Result<(), String>) -> (end: Result<DownloadOutcome, TransferFailure>)
        ensures
            publish_leads_to(self, reply, end),
    {
        match reply {
            Err(error) => Err(local_failure(error)),
            Ok(_) => Ok(
                DownloadOutcome {
                    bytes_transferred: self.bytes_transferred,
                    total_bytes: self.total_bytes,
                },
            ),
        }
    }
}

/// Why a running download is to be dropped.
#[derive(Clone, Copy, Debug, PartialEq, Eq, Structural)]
pub enum DownloadInterruption {
    TimedOut,
    Cancelled,
    ConnectionRemoved,
}

/// What a download fails with that is dropped.
pub open spec fn interruption_failure(interruption: DownloadInterruption) -> FailureView {
    match interruption {
        DownloadInterruption::TimedOut => failure::remote_failed("Download operation timed out"@),
        DownloadInterruption::Cancelled => failure::cancelled_active("Download cancelled"@),
        DownloadInterruption::ConnectionRemoved => download_disconnected(),
    }
}

/// Decides whether a running download is dropped, and what it fails with. While
/// a file is being made or renamed, the download is waited for instead.
pub fn interrupt_download(interruption: DownloadInterruption, mutation_in_flight: bool) -> (stopped: Option<
    TransferFailure,
>)
    ensures
        match stopped {
            Some(told) => !mutation_in_flight && told@ == interruption_failure(interruption),
            None => mutation_in_flight,
        },
{
    if mutation_in_flight {
        return None;
    }
    match interruption {
        DownloadInterruption::TimedOut => Some(
            remote_failure("Download operation timed out".to_owned()),
        ),
        DownloadInterruption::Cancelled => Some(cancelled_active_failure()),
        DownloadInterruption::ConnectionRemoved => Some(stop_disconnected_download()),
    }
}

/// What happens to a download while its pieces come: the reply, and what came of
/// it.
pub enum DownloadEvent {
    Read { reply: Bounded<Result<usize, String>>, write: Result<bool, TransferFailure> },
    Written { reply: Bounded<Result<usize, String>>, more: Result<bool, TransferFailure> },
    Persisted { reply: Result<(), String>, now: u64, result: Result<(), TransferFailure> },
}

/// What an event makes of a download, and of what is told of it. A piece is read
/// only once the one before it was written, and no more of it is written than
/// was read.
pub open spec fn event_leads_to(
    before: (DownloadStream, TransferProgressSnapshot),
    event: DownloadEvent,
    after: (DownloadStream, TransferProgressSnapshot),
) -> bool {
    match event {
        DownloadEvent::Read { reply, write } => {
            &&& before.0.is_between_pieces()
            &&& piece_read_leads_to(before.0, reply, write, after.0)
            &&& after.1 == before.1
        },
        DownloadEvent::Written { reply, more } => {
            &&& before.0.offset < before.0.piece
            &&& reply matches Bounded::Finished(Ok(written)) ==> written <= before.0.piece - before.0.offset
            &&& piece_written_leads_to(before.0, reply, before.1, more, after.0, after.1)
        },
        DownloadEvent::Persisted { reply, now, result } => {
            &&& progress_persisted_leads_to(before.0, reply, now, result, after.0)
            &&& after.1 == before.1
        },
    }
}

/// A download goes from one moment to the next.
pub open spec fn downloads_on(
    moments: Seq<(DownloadStream, TransferProgressSnapshot)>,
    events: Seq<DownloadEvent>,
) -> bool {
    &&& moments.len() == events.len() + 1
    &&& forall|i: int|
        0 <= i < events.len() ==> event_leads_to(moments[i], #[trigger] events[i], moments[i + 1])
}

/// The sizes of the pieces that were read.
pub open spec fn pieces_read(events: Seq<DownloadEvent>) -> Seq<usize>
    decreases events.len(),
{
    if events.len() == 0 {
        Seq::empty()
    } else {
        match events.last() {
            DownloadEvent::Read { reply: Bounded::Finished(Ok(count)), .. } => pieces_read(events.drop_last()).push(
                count,
            ),
            _ => pieces_read(events.drop_last()),
        }
    }
}

/// How much was written at each time.
pub open spec fn pieces_written(events: Seq<DownloadEvent>) -> Seq<usize>
    decreases events.len(),
{
    if events.len() == 0 {
        Seq::empty()
    } else {
        match events.last() {
            DownloadEvent::Written { reply: Bounded::Finished(Ok(written)), .. } => pieces_written(
                events.drop_last(),
            ).push(written),
            _ => pieces_written(events.drop_last()),
        }
    }
}

/// However a download is cut into pieces, its count is that of what was written,
/// which is what was read but for the rest of the piece that is still to be
/// written. What is told of the download is that count.
pub proof fn downloaded_pieces_are_counted(
    moments: Seq<(DownloadStream, TransferProgressSnapshot)>,
    events: Seq<DownloadEvent>,
)
    requires
        downloads_on(moments, events),
        moments[0].0.is_fresh(),
        moments[0].1.counted_bytes() == 0,
    ensures
        moments.last().0.same_target(&moments[0].0),
        moments.last().0.bytes_transferred == progress::counted_pieces(pieces_written(events)),
        moments.last().0.offset <= moments.last().0.piece,
        progress::bytes_of(pieces_written(events)) == progress::bytes_of(pieces_read(events)) - (
        moments.last().0.piece - moments.last().0.offset),
        moments.last().1.counted_bytes() == moments.last().0.bytes_transferred,
        moments.last().1.known_total() == moments[0].1.known_total(),
    decreases events.len(),
{
    if events.len() > 0 {
        let earlier = moments.drop_last();
        let front = events.drop_last();
        assert forall|i: int| 0 <= i < front.len() implies event_leads_to(
            earlier[i],
            #[trigger] front[i],
            earlier[i + 1],
        ) by {
            assert(front[i] == events[i]);
        }
        downloaded_pieces_are_counted(earlier, front);
        let event = events[events.len() - 1];
        assert(event_leads_to(earlier.last(), event, moments.last()));
        progress::pieces_are_counted_exactly(pieces_written(front));
        match event {
            DownloadEvent::Read { reply: Bounded::Finished(Ok(count)), .. } => {
                assert(pieces_read(events).drop_last() =~= pieces_read(front));
            },
            DownloadEvent::Written { reply: Bounded::Finished(Ok(written)), .. } => {
                assert(pieces_written(events).drop_last() =~= pieces_written(front));
            },
            _ => {},
        }
    }
}

/// A completed download wrote all that was read: its count is that of the pieces
/// that came, as far as the count can go, and the file that became the local one
/// is the temporary file that they were written to.
pub proof fn completed_downloads_hold_all_pieces(
    moments: Seq<(DownloadStream, TransferProgressSnapshot)>,
    events: Seq<DownloadEvent>,
    flush: DownloadFlush,
    flushed: Bounded<Result<(), String>>,
    sync: DownloadSync,
    synchronized: Bounded<Result<(), String>>,
    publishing: DownloadPublishing,
    persisted: Result<(), String>,
    publish: DownloadPublish,
    published: Result<(), String>,
    outcome: DownloadOutcome,
)
    requires
        downloads_on(moments, events),
        moments[0].0.is_fresh(),
        moments[0].1.counted_bytes() == 0,
        moments.last().0.is_between_pieces(),
        end_leads_to(moments.last().0, flush),
        flush_leads_to(flush, flushed, Ok(sync)),
        sync_leads_to(sync, synchronized, Ok(publishing)),
        publishing_leads_to(publishing, persisted, Ok(publish)),
        publish_leads_to(publish, published, Ok(outcome)),
    ensures
        outcome.bytes_transferred == progress::countable(progress::bytes_of(pieces_read(events))),
        outcome.bytes_transferred == progress::counted_pieces(pieces_written(events)),
        outcome.total_bytes == moments[0].0.total_bytes,
        publish.temp_identity == moments[0].0.temp_identity,
{
    downloaded_pieces_are_counted(moments, events);
    progress::pieces_are_counted_exactly(pieces_written(events));
}

/// The size of a download is that of its remote file, as far as it can be counted.
pub proof fn sizes_are_told_where_they_can_be_counted(length: u64)
    ensures
        countable(length) matches Some(size) ==> size == length,
        countable(length) is None <==> length > i64::MAX,
{
}

/// Whatever a running or publishing download writes down names its temporary file
/// and, once it was made, its identity, with what was written of how much.
pub proof fn downloads_write_their_temporary_file_down(
    update: TransferUpdate,
    status: TransferStatus,
    bytes: i64,
    total: Option<i64>,
    temp_path: Seq<char>,
    temp_identity: Option<Seq<char>>,
)
    requires
        update@ == download_update(status, bytes, total, temp_path, temp_identity),
    ensures
        update.status == status,
        update.bytes_transferred == bytes,
        update.total_bytes == total,
        update.temp_path matches Some(path) && path@ == temp_path,
        update.temp_identity is Some <==> temp_identity is Some,
        temp_identity matches Some(identity) ==> update.temp_identity->0@ == identity,
        update.error is None,
        !update.finished,
{
}

/// What is written down before a download is published names the temporary file
/// that was brought to disk, with its identity and with all that was written.
pub proof fn publishing_downloads_are_on_disk(
    flush: DownloadFlush,
    flushed: Bounded<Result<(), String>>,
    sync: Result<DownloadSync, TransferFailure>,
    due: DownloadSync,
    synchronized: Bounded<Result<(), String>>,
    next: Result<DownloadPublishing, TransferFailure>,
)
    requires
        flush_leads_to(flush, flushed, sync),
        sync_leads_to(due, synchronized, next),
    ensures
        sync is Ok <==> flushed matches Bounded::Finished(Ok(_)),
        sync matches Ok(followed) ==> followed.total_bytes == flush.total_bytes && followed.temp_path@
            == flush.temp_path@ && followed.temp_identity@ == flush.temp_identity@ && followed.bytes_transferred
            == flush.bytes_transferred,
        next is Ok <==> synchronized matches Bounded::Finished(Ok(_)),
        next matches Ok(publishing) ==> {
            &&& publishing.total_bytes == due.total_bytes
            &&& publishing.temp_identity@ == due.temp_identity@
            &&& publishing.bytes_transferred == due.bytes_transferred
            &&& publishing.update.status == TransferStatus::Publishing
            &&& publishing.update.bytes_transferred == due.bytes_transferred
            &&& publishing.update.total_bytes == due.total_bytes
            &&& publishing.update.temp_path matches Some(path) && path@ == due.temp_path@
            &&& publishing.update.temp_identity matches Some(identity) && identity@ == due.temp_identity@
            &&& publishing.update.error is None
            &&& !publishing.update.finished
        },
        sync matches Err(stopped) ==> stopped.status == failure::FailureStatus::Failed && !stopped.invalidate_operator,
        next matches Err(stopped) ==> stopped.status == failure::FailureStatus::Failed && !stopped.invalidate_operator,
{
}

/// A download is published only once that was written down, and is completed only
/// once it was published: with the counts that were written down, and as the file
/// with that identity.
pub proof fn downloads_are_completed_once_they_are_published(
    publishing: DownloadPublishing,
    persisted: Result<(), String>,
    next: Result<DownloadPublish, TransferFailure>,
    publish: DownloadPublish,
    published: Result<(), String>,
    end: Result<DownloadOutcome, TransferFailure>,
)
    requires
        publishing_leads_to(publishing, persisted, next),
        publish_leads_to(publish, published, end),
    ensures
        next is Ok <==> persisted is Ok,
        next matches Ok(due) ==> due.total_bytes == publishing.total_bytes && due.temp_identity@
            == publishing.temp_identity@ && due.bytes_transferred == publishing.bytes_transferred,
        end is Ok <==> published is Ok,
        end matches Ok(outcome) ==> outcome.bytes_transferred == publish.bytes_transferred && outcome.total_bytes
            == publish.total_bytes,
        next matches Err(stopped) ==> stopped.message@ == persisted->Err_0@ && stopped.status
            == failure::FailureStatus::Failed && !stopped.invalidate_operator,
        end matches Err(stopped) ==> stopped.message@ == published->Err_0@ && stopped.status
            == failure::FailureStatus::Failed && !stopped.invalidate_operator,
{
}

/// A remote read that fails gives up the service, and a local write that fails does
/// not. Nothing is counted but what was written, a write of nothing ends the
/// download, and there is more to write exactly while the piece is not written
/// whole.
pub proof fn written_bytes_alone_are_counted(
    before: DownloadStream,
    read: Bounded<Result<usize, String>>,
    write: Result<bool, TransferFailure>,
    after_read: DownloadStream,
    written: Bounded<Result<usize, String>>,
    told: TransferProgressSnapshot,
    more: Result<bool, TransferFailure>,
    after_write: DownloadStream,
    told_then: TransferProgressSnapshot,
)
    requires
        piece_read_leads_to(before, read, write, after_read),
        piece_written_leads_to(before, written, told, more, after_write, told_then),
    ensures
        write matches Ok(due) ==> (read matches Bounded::Finished(Ok(count)) && due == (count > 0) && after_read.piece
            == count && after_read.offset == 0),
        write is Err <==> !(read matches Bounded::Finished(Ok(_))),
        write matches Err(stopped) ==> stopped.invalidate_operator && stopped.status == failure::FailureStatus::Failed,
        after_read.bytes_transferred == before.bytes_transferred && after_read.temp_path@ == before.temp_path@
            && after_read.temp_identity@ == before.temp_identity@ && after_read.total_bytes == before.total_bytes,
        more is Ok <==> (written matches Bounded::Finished(Ok(count)) && count > 0),
        more matches Err(stopped) ==> !stopped.invalidate_operator && stopped.status == failure::FailureStatus::Failed
            && after_write.bytes_transferred == before.bytes_transferred && told_then == told,
        more matches Ok(rest) ==> (rest <==> before.offset + written->Finished_0->Ok_0 != before.piece)
            && after_write.offset == before.offset + written->Finished_0->Ok_0 && after_write.piece == before.piece,
        after_write.temp_path@ == before.temp_path@ && after_write.temp_identity@ == before.temp_identity@
            && after_write.total_bytes == before.total_bytes,
        after_read.last_progress == before.last_progress && after_write.last_progress == before.last_progress,
{
}

/// The time of an update is remembered once it was written down, and not before.
pub proof fn written_updates_are_remembered(
    before: DownloadStream,
    reply: Result<(), String>,
    now: u64,
    result: Result<(), TransferFailure>,
    after: DownloadStream,
)
    requires
        progress_persisted_leads_to(before, reply, now, result, after),
    ensures
        result is Ok <==> reply is Ok,
        after.last_progress == (if reply is Ok {
            now
        } else {
            before.last_progress
        }),
        reply matches Err(error) ==> result is Err && result->Err_0.message@ == error@
            && !result->Err_0.invalidate_operator && result->Err_0.status == failure::FailureStatus::Failed,
        after.bytes_transferred == before.bytes_transferred && after.piece == before.piece && after.offset
            == before.offset && after.temp_path@ == before.temp_path@ && after.temp_identity@ == before.temp_identity@
            && after.total_bytes == before.total_bytes,
{
}

/// What is flushed is the temporary file that was written, with what was written
/// to it.
pub proof fn downloads_end_with_what_was_written(stream: DownloadStream, next: DownloadFlush)
    requires
        end_leads_to(stream, next),
    ensures
        next.total_bytes == stream.total_bytes,
        next.bytes_transferred == stream.bytes_transferred,
        next.temp_path@ == stream.temp_path@,
        next.temp_identity@ == stream.temp_identity@,
{
}

/// A download that is dropped fails as cancelled where it was told to stop or lost
/// its connection, and as failed where it took too long; all of these give up the
/// service.
pub proof fn dropped_downloads_give_up_their_service(interruption: DownloadInterruption, stopped: TransferFailure)
    requires
        stopped@ == interruption_failure(interruption),
    ensures
        stopped.invalidate_operator,
        stopped.status == (if interruption == DownloadInterruption::TimedOut {
            failure::FailureStatus::Failed
        } else {
            failure::FailureStatus::Cancelled
        }),
        interruption == DownloadInterruption::TimedOut ==> stopped.message@ == "Download operation timed out"@,
        interruption == DownloadInterruption::Cancelled ==> stopped.message@ == "Download cancelled"@,
        interruption == DownloadInterruption::ConnectionRemoved ==> stopped.message@
            == "The file connection was removed while the download was running"@,
{
}

/// A download that begins has nothing counted and no piece that is still to be
/// written.
pub proof fn downloads_begin_with_nothing(stream: DownloadStream)
    requires
        stream.is_fresh(),
    ensures
        stream.bytes_transferred == 0,
        stream.offset == stream.piece,
{
}

/// A download that stops is told why, and whether the service is to be given up:
/// it is where the remote side made no progress or failed, and is not where the
/// local disk did.
pub proof fn stopped_downloads_are_told_why(
    before: DownloadStream,
    read: Bounded<Result<usize, String>>,
    write: Result<bool, TransferFailure>,
    between: DownloadStream,
    written: Bounded<Result<usize, String>>,
    told: TransferProgressSnapshot,
    more: Result<bool, TransferFailure>,
    after: DownloadStream,
    told_then: TransferProgressSnapshot,
)
    requires
        piece_read_leads_to(before, read, write, between),
        piece_written_leads_to(between, written, told, more, after, told_then),
    ensures
        read is TimedOut ==> write is Err && write->Err_0.message@
            == "Remote read made no progress before the I/O watchdog expired"@,
        read matches Bounded::Finished(Err(error)) ==> write is Err && write->Err_0.message@ == error@,
        write matches Err(stopped) ==> stopped.status == failure::FailureStatus::Failed && stopped.invalidate_operator,
        written is TimedOut ==> more is Err && more->Err_0.message@
            == "Local write made no progress before the I/O watchdog expired"@,
        written matches Bounded::Finished(Err(error)) ==> more is Err && more->Err_0.message@
            == "Failed to write the download: "@ + error@,
        written == Bounded::Finished(Ok::<usize, String>(0)) ==> more is Err && more->Err_0.message@
            == "Failed to write the download: write returned zero bytes"@,
        more matches Err(stopped) ==> stopped.status == failure::FailureStatus::Failed && !stopped.invalidate_operator,
{
}

/// A download that cannot be brought to the disk is told why.
pub proof fn unsynchronized_downloads_are_told_why(
    flush: DownloadFlush,
    flushed: Bounded<Result<(), String>>,
    next: Result<DownloadSync, TransferFailure>,
    sync: DownloadSync,
    synced: Bounded<Result<(), String>>,
    publishing: Result<DownloadPublishing, TransferFailure>,
)
    requires
        flush_leads_to(flush, flushed, next),
        sync_leads_to(sync, synced, publishing),
    ensures
        flushed is TimedOut ==> next is Err && next->Err_0.message@ == "Flushing the download timed out"@,
        flushed matches Bounded::Finished(Err(error)) ==> next is Err && next->Err_0.message@
            == "Failed to flush the download: "@ + error@,
        next matches Err(stopped) ==> stopped.status == failure::FailureStatus::Failed && !stopped.invalidate_operator,
        synced is TimedOut ==> publishing is Err && publishing->Err_0.message@
            == "Synchronizing the download timed out"@,
        synced matches Bounded::Finished(Err(error)) ==> publishing is Err && publishing->Err_0.message@
            == "Failed to synchronize the download: "@ + error@,
        publishing matches Err(stopped) ==> stopped.status == failure::FailureStatus::Failed
            && !stopped.invalidate_operator,
{
}

} // verus!
