//! A copy or rename whose bytes go through this side: they are read from the
//! source and written to a partial that only this operation owns, and the
//! partial becomes the destination once its content was read back.
//!
//! Every type here stands for one request that is due. Its methods take the
//! reply and give the next request, or the end of the operation.
use crate::cleanup::cleanup_remote_copy_partial;
use crate::cleanup::PartialCleanup;
use crate::digest;
use crate::digest::ContentDigest;
use crate::failure;
use crate::failure::cancelled_active_failure;
use crate::failure::cancelled_during;
use crate::failure::cancelled_failure;
use crate::failure::local_failure;
use crate::failure::partial_failure;
use crate::failure::remote_completion;
use crate::failure::remote_failure;
use crate::failure::remote_partial_failure;
use crate::failure::remote_transfer_before_copy;
use crate::failure::FailureStatus;
use crate::failure::FailureView;
use crate::failure::OperationOutcome;
use crate::failure::OperationPhase;
use crate::failure::RemoteFailureView;
use crate::failure::RemoteTransferFailure;
use crate::failure::RemoteTransferOutcome;
use crate::failure::TransferFailure;
use crate::failure::TransferStatus;
use crate::fingerprint;
use crate::fingerprint::durable_text;
use crate::fingerprint::RemoteFileFingerprint;
use crate::fingerprint::VerifiedRemoteContent;
use crate::ownership;
use crate::ownership::remote_copy_partial_path;
use crate::progress;
use crate::progress::progress_is_due;
use crate::progress::saturating_count;
use crate::progress::TransferProgressSnapshot;
use crate::publish::UploadAbortError;
use crate::publish::UploadPublishResolution;
use crate::publish::UploadPublishState;
use crate::remote;
use crate::remote::watched_before_copy;
use crate::remote::PhaseUpdate;
use crate::remote::RemoteJob;
use crate::remote::RemoteRoute;
use crate::remote::RemoteOperation;
use crate::remote::SourceDeletion;
use crate::reply::Bounded;
use crate::reply::Timed;
use crate::reply::Watched;
use crate::server_side;
use crate::server_side::execute_server_side_remote_transfer;
use crate::server_side::ServerSideStart;
use crate::server_side::stop_source_not_deleted;
use crate::text;
use crate::text::decimal;
use crate::text::joined2;
use crate::text::joined3;
use crate::text::joined4;
use crate::text::joined5;
use crate::text::same_text;
use crate::text::signed_decimal;
use vstd::prelude::*;
use vstd::slice::slice_subrange;

verus! {

/// Due: the metadata of the source.
#[non_exhaustive]
#[derive(Debug)]
pub struct RelayStart {
    pub transfer_id: String,
    pub job: RemoteJob,
}

/// Due: whether the destination exists.
#[non_exhaustive]
#[derive(Debug)]
pub struct RelayProbe {
    pub transfer_id: String,
    pub job: RemoteJob,
    pub source: RemoteFileFingerprint,
    pub total_bytes: i64,
}

/// What follows the look for the destination.
#[derive(Debug)]
pub enum RelayProbeNext {
    /// The destination is to be replaced: it has to be a file.
    Destination(RelayDestinationStat),
    /// There is no destination yet.
    Partial(RelayPartialProbe),
}

/// Due: the metadata of a destination that is to be replaced.
#[non_exhaustive]
#[derive(Debug)]
pub struct RelayDestinationStat {
    pub transfer_id: String,
    pub job: RemoteJob,
    pub source: RemoteFileFingerprint,
    pub total_bytes: i64,
}

/// Due: whether the partial exists, which nothing but this operation makes.
#[non_exhaustive]
#[derive(Debug)]
pub struct RelayPartialProbe {
    pub job: RemoteJob,
    pub source: RemoteFileFingerprint,
    pub total_bytes: i64,
    pub partial: String,
}

/// Due: the paths of source and partial below the connection's root.
#[non_exhaustive]
#[derive(Debug)]
pub struct RelayPaths {
    pub job: RemoteJob,
    pub source: RemoteFileFingerprint,
    pub total_bytes: i64,
    pub partial: String,
}

/// What every request behind the preflight knows.
#[non_exhaustive]
#[derive(Debug)]
pub struct RelayWork {
    pub job: RemoteJob,
    pub source: RemoteFileFingerprint,
    pub total_bytes: i64,
    pub partial: String,
    pub source_configured: String,
    pub partial_configured: String,
}

/// Due: writing down that the copying begins.
#[non_exhaustive]
#[derive(Debug)]
pub struct RelayOpening {
    pub work: RelayWork,
    pub update: PhaseUpdate,
}

/// Due: a reader of the source.
#[non_exhaustive]
#[derive(Debug)]
pub struct RelayReaderOpening {
    pub work: RelayWork,
}

/// Due: a writer to the partial.
#[non_exhaustive]
#[derive(Debug)]
pub struct RelayWriterOpening {
    pub work: RelayWork,
}

/// Due: the next piece of the source, or its way to the partial.
#[non_exhaustive]
pub struct RelayStream {
    pub work: RelayWork,
    pub bytes_transferred: i64,
    /// The size of the piece that is being written.
    pub piece: usize,
    pub digest: ContentDigest,
    /// When progress was last written down, in milliseconds.
    pub last_progress: u64,
}

/// Due: closing the writer.
#[non_exhaustive]
pub struct RelayClosing {
    pub work: RelayWork,
    pub bytes_transferred: i64,
    pub digest: ContentDigest,
}

/// Due: aborting the writer of a copy that failed.
#[non_exhaustive]
#[derive(Debug)]
pub struct RelayAbort {
    pub work: RelayWork,
    pub failure: TransferFailure,
}

/// How a relayed copy stops: at once, or after its partial was dealt with.
#[derive(Debug)]
pub enum RelayStop {
    Cleanup(PartialCleanup),
    Stopped(RemoteTransferFailure),
}

/// Due: the fingerprint of the source after it was copied.
#[non_exhaustive]
#[derive(Debug)]
pub struct RelayClosed {
    pub work: RelayWork,
    pub bytes_transferred: i64,
    /// The digest of the bytes that went through.
    pub relay_hash: String,
}

/// Due: reading the partial back.
#[non_exhaustive]
#[derive(Debug)]
pub struct RelayPartialCheck {
    pub work: RelayWork,
    pub bytes_transferred: i64,
    pub relay_hash: String,
    pub source_after: RemoteFileFingerprint,
}

/// What every request behind a good partial knows: the source is unchanged and
/// the partial has the content that went through.
#[non_exhaustive]
#[derive(Debug)]
pub struct RelayProof {
    pub work: RelayWork,
    pub bytes_transferred: i64,
    pub relay_hash: String,
    pub source_after: RemoteFileFingerprint,
}

/// Due: writing down that the partial is about to become the destination.
#[non_exhaustive]
#[derive(Debug)]
pub struct RelayPublishing {
    pub proven: RelayProof,
    pub partial: RemoteFileFingerprint,
    pub update: PhaseUpdate,
}

/// Due: making the partial the destination.
#[non_exhaustive]
#[derive(Debug)]
pub struct RelayPublish {
    pub proven: RelayProof,
    pub partial: RemoteFileFingerprint,
}

/// Due: reading the destination back.
#[non_exhaustive]
#[derive(Debug)]
pub struct RelayDestinationCheck {
    pub proven: RelayProof,
}

/// What follows a destination that was seen to be good.
#[derive(Debug)]
pub enum RelayNext {
    /// A copy is complete.
    Completed(RemoteTransferOutcome),
    /// A rename still has to delete its source.
    Published(RelayPublished),
}

/// Due: writing down that the destination of a rename stands.
#[non_exhaustive]
#[derive(Debug)]
pub struct RelayPublished {
    pub proven: RelayProof,
    pub destination: VerifiedRemoteContent,
    pub update: PhaseUpdate,
}

/// Due: reading the source back before it is deleted.
#[non_exhaustive]
#[derive(Debug)]
pub struct RelaySourceRecheck {
    pub proven: RelayProof,
    pub destination: VerifiedRemoteContent,
}

/// Due: reading the destination back before the source is deleted.
#[non_exhaustive]
#[derive(Debug)]
pub struct RelayDestinationRecheck {
    pub proven: RelayProof,
    pub destination: VerifiedRemoteContent,
    pub source_verified: VerifiedRemoteContent,
}

/// Due: writing down that the source is about to be deleted.
#[non_exhaustive]
#[derive(Debug)]
pub struct RelayDeleting {
    pub proven: RelayProof,
    pub source_verified: VerifiedRemoteContent,
    pub destination_verified: VerifiedRemoteContent,
    pub update: PhaseUpdate,
}

/// Due: deleting the source.
#[non_exhaustive]
#[derive(Debug)]
pub struct RelayDelete {
    pub bytes_transferred: i64,
    pub total_bytes: i64,
    pub deletion: SourceDeletion,
    pub source_durable: String,
    pub destination_durable: String,
}

/// The partial is a new one, in the destination's directory and with a name
/// that only this transfer's partials have.
pub open spec fn is_new_partial(transfer_id: Seq<char>, destination_path: Seq<char>, partial: Seq<char>) -> bool {
    exists|unique: Seq<char>| #[trigger]
        ownership::is_identifier(unique) && partial == ownership::sibling(
            destination_path,
            ownership::partial_name(".dbx-copy-"@, transfer_id, unique),
        )
}

/// The way that a remote copy or rename goes.
#[derive(Debug)]
pub enum RemoteStart {
    ServerSide(ServerSideStart),
    Relay(RelayStart),
}

/// Begins a remote copy or rename, on the server or through this process, or
/// refuses a replacement that the backend cannot make.
pub fn execute_remote_transfer(transfer_id: String, job: RemoteJob) -> (start: Result<
    RemoteStart,
    RemoteTransferFailure,
>)
    ensures
        if job.replace && job.backend.streaming_webhdfs {
            start matches Err(refused) && refused@ == failure::before_copy(
                failure::remote_failed(remote::webhdfs_replace_unsupported()),
            )
        } else if job.goes_server_side() {
            start matches Ok(RemoteStart::ServerSide(due)) && due.job == job
        } else {
            start matches Ok(RemoteStart::Relay(due)) && due.transfer_id == transfer_id && due.job == job
        },
{
    match job.route() {
        Err(refused) => Err(refused),
        Ok(RemoteRoute::ServerSide) => Ok(RemoteStart::ServerSide(execute_server_side_remote_transfer(job))),
        Ok(RemoteRoute::Relay) => Ok(RemoteStart::Relay(RelayStart { transfer_id, job })),
    }
}

impl RelayStart {
    /// Takes the metadata of the source.
    pub fn source_stated(
        self,
        reply: Watched<Result<RemoteFileFingerprint, String>>,
        progress: &mut TransferProgressSnapshot,
    ) -> (next: Result<RelayProbe, RemoteTransferFailure>)
        ensures
            match next {
                Ok(probe) => progress::total_recorded(*old(progress), Some(probe.total_bytes), *final(progress)),
                Err(_) => *final(progress) == *old(progress),
            },
            match reply {
                Watched::TransferCancelled => next matches Err(stopped) && stopped@ == failure::before_copy(
                    failure::cancelled_idle("Remote transfer was cancelled during source preflight"@),
                ),
                Watched::ConnectionRemoved => next matches Err(stopped) && stopped@ == failure::before_copy(
                    failure::cancelled_active("The file connection was removed during remote source preflight"@),
                ),
                Watched::Finished(Err(error)) => next matches Err(stopped) && stopped@ == failure::before_copy(
                    failure::remote_failed(error@),
                ),
                Watched::Finished(Ok(source)) => if source.size > i64::MAX {
                    next matches Err(stopped) && stopped@ == failure::before_copy(
                        failure::local_failed("Remote source size is not representable"@),
                    )
                } else {
                    next matches Ok(probe) && probe.transfer_id == self.transfer_id && probe.job == self.job
                        && probe.source == source && probe.total_bytes == source.size
                },
            },
    {
        let replied = watched_before_copy(
            reply,
            "Remote transfer was cancelled during source preflight",
            "The file connection was removed during remote source preflight",
        );
        match replied {
            Err(stopped) => Err(stopped),
            Ok(Err(error)) => Err(remote_transfer_before_copy(remote_failure(error))),
            Ok(Ok(source)) => {
                if source.size > i64::MAX as u64 {
                    Err(
                        remote_transfer_before_copy(
                            local_failure("Remote source size is not representable".to_owned()),
                        ),
                    )
                } else {
                    let total_bytes: i64 = source.size as i64;
                    progress.record_total(Some(total_bytes));
                    Ok(
                        RelayProbe {
                            transfer_id: self.transfer_id,
                            job: self.job,
                            source,
                            total_bytes,
                        },
                    )
                }
            },
        }
    }
}

fn new_partial_probe(
    transfer_id: String,
    job: RemoteJob,
    source: RemoteFileFingerprint,
    total_bytes: i64,
) -> (probe: RelayPartialProbe)
    ensures
        probe.job == job,
        probe.source == source,
        probe.total_bytes == total_bytes,
        is_new_partial(transfer_id@, job.destination_path@, probe.partial@),
{
    let partial = remote_copy_partial_path(job.destination_path.as_str(), transfer_id.as_str());
    RelayPartialProbe { job, source, total_bytes, partial }
}

impl RelayProbe {
    /// Takes whether the destination exists.
    pub fn destination_probed(self, reply: Result<bool, String>) -> (next: Result<
        RelayProbeNext,
        RemoteTransferFailure,
    >)
        ensures
            match reply {
                Err(error) => next matches Err(stopped) && stopped@ == failure::before_copy(
                    failure::remote_failed(error@),
                ),
                Ok(exists) => if !exists {
                    next matches Ok(RelayProbeNext::Partial(probe)) && probe.job == self.job && probe.source
                        == self.source && probe.total_bytes == self.total_bytes && is_new_partial(
                        self.transfer_id@,
                        self.job.destination_path@,
                        probe.partial@,
                    )
                } else if self.job.replace {
                    next matches Ok(RelayProbeNext::Destination(stat)) && stat.transfer_id == self.transfer_id
                        && stat.job == self.job && stat.source == self.source && stat.total_bytes
                        == self.total_bytes
                } else {
                    next matches Err(stopped) && stopped@ == failure::before_copy(
                        failure::remote_failed(
                            "Remote destination already exists; best_effort_no_clobber does not replace it"@,
                        ),
                    )
                },
            },
    {
        match reply {
            Err(error) => Err(remote_transfer_before_copy(remote_failure(error))),
            Ok(exists) => {
                if !exists {
                    Ok(
                        RelayProbeNext::Partial(
                            new_partial_probe(
                                self.transfer_id,
                                self.job,
                                self.source,
                                self.total_bytes,
                            ),
                        ),
                    )
                } else if self.job.replace {
                    Ok(
                        RelayProbeNext::Destination(
                            RelayDestinationStat {
                                transfer_id: self.transfer_id,
                                job: self.job,
                                source: self.source,
                                total_bytes: self.total_bytes,
                            },
                        ),
                    )
                } else {
                    Err(
                        remote_transfer_before_copy(
                            remote_failure(
                                "Remote destination already exists; best_effort_no_clobber does not replace it".to_owned(),
                            ),
                        ),
                    )
                }
            },
        }
    }
}

impl RelayDestinationStat {
    /// Takes whether the destination is a file.
    pub fn destination_stated(self, reply: Result<(), String>) -> (next: Result<
        RelayPartialProbe,
        RemoteTransferFailure,
    >)
        ensures
            match reply {
                Err(error) => next matches Err(stopped) && stopped@ == failure::before_copy(
                    failure::remote_failed(error@),
                ),
                Ok(_) => next matches Ok(probe) && probe.job == self.job && probe.source == self.source
                    && probe.total_bytes == self.total_bytes && is_new_partial(
                    self.transfer_id@,
                    self.job.destination_path@,
                    probe.partial@,
                ),
            },
    {
        match reply {
            Err(error) => Err(remote_transfer_before_copy(remote_failure(error))),
            Ok(_) => Ok(new_partial_probe(self.transfer_id, self.job, self.source, self.total_bytes)),
        }
    }
}

impl RelayPartialProbe {
    /// Takes whether the partial exists.
    pub fn partial_probed(self, reply: Result<bool, String>) -> (next: Result<RelayPaths, RemoteTransferFailure>)
        ensures
            match reply {
                Err(error) => next matches Err(stopped) && stopped@ == failure::before_copy(
                    failure::remote_failed(error@),
                ),
                Ok(exists) => if exists {
                    next matches Err(stopped) && stopped@ == failure::before_copy(
                        failure::remote_failed(
                            "Operation-owned remote copy partial unexpectedly already exists"@,
                        ),
                    )
                } else {
                    next matches Ok(paths) && paths.job == self.job && paths.source == self.source
                        && paths.total_bytes == self.total_bytes && paths.partial == self.partial
                },
            },
    {
        match reply {
            Err(error) => Err(remote_transfer_before_copy(remote_failure(error))),
            Ok(exists) => {
                if exists {
                    Err(
                        remote_transfer_before_copy(
                            remote_failure(
                                "Operation-owned remote copy partial unexpectedly already exists".to_owned(),
                            ),
                        ),
                    )
                } else {
                    Ok(
                        RelayPaths {
                            job: self.job,
                            source: self.source,
                            total_bytes: self.total_bytes,
                            partial: self.partial,
                        },
                    )
                }
            },
        }
    }
}

impl RelayPaths {
    /// Takes the two paths below the connection's root.
    pub fn paths_configured(self, source_path: Result<String, String>, partial_path: Result<String, String>) -> (next:
        Result<RelayOpening, RemoteTransferFailure>)
        ensures
            match (source_path, partial_path) {
                (Err(error), _) => next matches Err(stopped) && stopped@ == failure::before_copy(
                    failure::local_failed(error@),
                ),
                (Ok(_), Err(error)) => next matches Err(stopped) && stopped@ == failure::before_copy(
                    failure::local_failed(error@),
                ),
                (Ok(from), Ok(to)) => next matches Ok(opening) && opening.work == (RelayWork {
                    job: self.job,
                    source: self.source,
                    total_bytes: self.total_bytes,
                    partial: self.partial,
                    source_configured: from,
                    partial_configured: to,
                }) && opening.update@ == remote::copying_update(
                    0,
                    self.total_bytes,
                    Some(self.partial@),
                    fingerprint::encoded(self.source@),
                ),
            },
    {
        match (source_path, partial_path) {
            (Err(error), _) => Err(remote_transfer_before_copy(local_failure(error))),
            (Ok(_), Err(error)) => Err(remote_transfer_before_copy(local_failure(error))),
            (Ok(from), Ok(to)) => {
                let update = PhaseUpdate {
                    status: TransferStatus::Running,
                    phase: OperationPhase::Copying,
                    bytes_transferred: 0,
                    total_bytes: self.total_bytes,
                    partial_path: Some(self.partial.clone()),
                    source_fingerprint: self.source.encode(),
                    destination_fingerprint: None,
                };
                Ok(
                    RelayOpening {
                        work: RelayWork {
                            job: self.job,
                            source: self.source,
                            total_bytes: self.total_bytes,
                            partial: self.partial,
                            source_configured: from,
                            partial_configured: to,
                        },
                        update,
                    },
                )
            },
        }
    }
}

impl RelayOpening {
    /// Takes the status that the transfer has now that the update was written
    /// down, and whether it was cancelled in the meantime.
    pub fn persisted(self, reply: Result<String, String>, cancelled: bool) -> (next: Result<
        RelayReaderOpening,
        RemoteTransferFailure,
    >)
        ensures
            match reply {
                Err(error) => next matches Err(stopped) && stopped@ == failure::before_copy(
                    failure::local_failed(error@),
                ),
                Ok(status) => if status@ == "cancelling"@ || cancelled {
                    next matches Err(stopped) && stopped@ == failure::before_copy(
                        failure::cancelled_idle("Download cancelled"@),
                    )
                } else {
                    next matches Ok(opening) && opening.work == self.work
                },
            },
    {
        match reply {
            Err(error) => Err(remote_transfer_before_copy(local_failure(error))),
            Ok(status) => {
                if same_text(status.as_str(), "cancelling") || cancelled {
                    Err(remote_transfer_before_copy(cancelled_failure()))
                } else {
                    Ok(RelayReaderOpening { work: self.work })
                }
            },
        }
    }
}

impl RelayReaderOpening {
    /// Takes whether the source could be opened.
    pub fn reader_opened(self, reply: Bounded<Result<(), String>>) -> (next: Result<
        RelayWriterOpening,
        RemoteTransferFailure,
    >)
        ensures
            match reply {
                Bounded::TimedOut => next matches Err(stopped) && stopped@ == failure::before_copy(
                    failure::remote_failed("Opening the remote copy source timed out"@),
                ),
                Bounded::Finished(Err(error)) => next matches Err(stopped) && stopped@ == failure::before_copy(
                    failure::remote_failed(error@),
                ),
                Bounded::Finished(Ok(_)) => next matches Ok(opening) && opening.work == self.work,
            },
    {
        match reply {
            Bounded::TimedOut => Err(
                remote_transfer_before_copy(
                    remote_failure("Opening the remote copy source timed out".to_owned()),
                ),
            ),
            Bounded::Finished(Err(error)) => Err(remote_transfer_before_copy(remote_failure(error))),
            Bounded::Finished(Ok(_)) => Ok(RelayWriterOpening { work: self.work }),
        }
    }
}

/// The partial is to be dealt with after a failure.
pub open spec fn cleans_up(
    cleanup: PartialCleanup,
    partial: Seq<char>,
    expected: Option<crate::fingerprint::FingerprintView>,
    failure: FailureView,
    source: Option<Seq<char>>,
) -> bool {
    &&& cleanup.partial_path@ == partial
    &&& cleanup.expected() == expected
    &&& cleanup.failure@ == failure
    &&& text::optional_text(cleanup.source_fingerprint) == source
}

impl RelayWriterOpening {
    /// Takes whether the partial could be opened. A writer that could not be
    /// opened may have left something behind.
    pub fn writer_opened(self, reply: Bounded<Result<(), String>>, now: u64) -> (next: Result<
        RelayStream,
        PartialCleanup,
    >)
        ensures
            match reply {
                Bounded::TimedOut => next matches Err(cleanup) && cleans_up(
                    cleanup,
                    self.work.partial@,
                    None,
                    failure::remote_failed(
                        if self.work.job.backend.streaming_webhdfs {
                            "Opening the WebHDFS remote copy destination timed out"@
                        } else {
                            "Opening the remote copy destination timed out"@
                        },
                    ),
                    Some(fingerprint::encoded(self.work.source@)),
                ),
                Bounded::Finished(Err(error)) => next matches Err(cleanup) && cleans_up(
                    cleanup,
                    self.work.partial@,
                    None,
                    failure::remote_failed(error@),
                    Some(fingerprint::encoded(self.work.source@)),
                ),
                Bounded::Finished(Ok(_)) => next matches Ok(stream) && stream.work == self.work
                    && stream.is_fresh() && stream.last_progress == now,
            },
    {
        let stopped = match reply {
            Bounded::TimedOut => if self.work.job.backend.streaming_webhdfs {
                remote_failure("Opening the WebHDFS remote copy destination timed out".to_owned())
            } else {
                remote_failure("Opening the remote copy destination timed out".to_owned())
            },
            Bounded::Finished(Err(error)) => remote_failure(error),
            Bounded::Finished(Ok(_)) => {
                return Ok(
                    RelayStream {
                        work: self.work,
                        bytes_transferred: 0,
                        piece: 0,
                        digest: ContentDigest::new(),
                        last_progress: now,
                    },
                );
            },
        };
        let source = self.work.source.encode();
        Err(cleanup_remote_copy_partial(self.work.partial, None, stopped, Some(source)))
    }
}

/// A relayed copy that lost its connection.
pub open spec fn relay_disconnected() -> FailureView {
    failure::cancelled_active("The file connection was removed while the remote copy was running"@)
}

fn stop_disconnected_relay() -> (stopped: TransferFailure)
    ensures
        stopped@ == relay_disconnected(),
{
    cancelled_during("The file connection was removed while the remote copy was running".to_owned())
}

/// What follows a piece of the source, or the want of one.
pub open spec fn piece_read_leads_to(
    before: RelayStream,
    reply: Timed<Result<usize, String>>,
    buffer: Seq<u8>,
    write: Result<bool, TransferFailure>,
    after: RelayStream,
) -> bool {
    &&& after.work == before.work
    &&& after.bytes_transferred == before.bytes_transferred
    &&& after.last_progress == before.last_progress
    &&& after.piece == (match reply {
        Timed::Finished(Ok(count)) => count,
        _ => before.piece,
    })
    &&& match reply {
        Timed::TransferCancelled => write matches Err(stopped) && stopped@ == failure::cancelled_active(
            "Download cancelled"@,
        ),
        Timed::ConnectionRemoved => write matches Err(stopped) && stopped@ == relay_disconnected(),
        Timed::TimedOut => write matches Err(stopped) && stopped@ == failure::remote_failed(
            "Remote copy read made no progress before the I/O watchdog expired"@,
        ),
        Timed::Finished(Err(error)) => write matches Err(stopped) && stopped@ == failure::remote_failed(error@),
        Timed::Finished(Ok(count)) => write == Ok::<bool, TransferFailure>(count != 0),
    }
    &&& match reply {
        Timed::Finished(Ok(count)) => after.digest.content() == before.digest.content()
            + buffer.take(count as int),
        _ => after.digest.content() == before.digest.content(),
    }
}

/// What follows the writing of a piece, and what is told of it.
pub open spec fn piece_written_leads_to(
    before: RelayStream,
    reply: Timed<Result<(), String>>,
    now: u64,
    told: TransferProgressSnapshot,
    update: Result<Option<PhaseUpdate>, TransferFailure>,
    after: RelayStream,
    told_then: TransferProgressSnapshot,
) -> bool {
    &&& after.work == before.work
    &&& after.digest == before.digest
    &&& after.last_progress == before.last_progress
    &&& match reply {
        Timed::Finished(Ok(_)) => after.bytes_transferred == progress::saturating_sum(
            before.bytes_transferred as int,
            before.piece as int,
        ) && after.piece == 0 && progress::bytes_recorded(
            told,
            after.bytes_transferred,
            told_then,
        ),
        _ => after.bytes_transferred == before.bytes_transferred && after.piece
            == before.piece && told_then == told,
    }
    &&& match reply {
        Timed::TransferCancelled => update matches Err(stopped) && stopped@ == failure::cancelled_active(
            "Download cancelled"@,
        ),
        Timed::ConnectionRemoved => update matches Err(stopped) && stopped@ == relay_disconnected(),
        Timed::TimedOut => update matches Err(stopped) && stopped@ == failure::remote_failed(
            "Remote copy write made no progress before the I/O watchdog expired"@,
        ),
        Timed::Finished(Err(error)) => update matches Err(stopped) && stopped@ == failure::remote_failed(
            error@,
        ),
        Timed::Finished(Ok(_)) => match update {
            Ok(Some(due)) => progress::is_due(before.last_progress, now) && due@
                == remote::copying_update(
                after.bytes_transferred,
                before.work.total_bytes,
                Some(before.work.partial@),
                fingerprint::encoded(before.work.source@),
            ),
            Ok(None) => !progress::is_due(before.last_progress, now),
            Err(_) => false,
        },
    }
}

/// What follows an update that was to be written down.
pub open spec fn progress_persisted_leads_to(
    before: RelayStream,
    reply: Result<(), String>,
    now: u64,
    result: Result<(), TransferFailure>,
    after: RelayStream,
) -> bool {
    &&& after.work == before.work
    &&& after.digest == before.digest
    &&& after.bytes_transferred == before.bytes_transferred
    &&& after.piece == before.piece
    &&& match reply {
        Err(error) => result matches Err(stopped) && stopped@ == failure::local_failed(error@)
            && after.last_progress == before.last_progress,
        Ok(_) => result is Ok && after.last_progress == now,
    }
}

/// What follows the end of the source.
pub open spec fn end_leads_to(stream: RelayStream, next: Result<RelayClosing, RelayAbort>) -> bool {
    if stream.bytes_transferred == stream.work.total_bytes {
        next matches Ok(closing) && closing.work == stream.work && closing.bytes_transferred
            == stream.bytes_transferred && closing.digest == stream.digest
    } else {
        next matches Err(abort) && abort.work == stream.work && abort.failure@ == failure::remote_failed(
            "Remote source size changed during copy: expected "@ + text::signed_text(
                stream.work.total_bytes as int,
            ) + ", copied "@ + text::signed_text(stream.bytes_transferred as int),
        )
    }
}

/// What follows the closing of the writer.
pub open spec fn close_leads_to(
    closing: RelayClosing,
    reply: Bounded<Result<(), String>>,
    next: Result<RelayClosed, RelayAbort>,
) -> bool {
    match reply {
        Bounded::TimedOut => next matches Err(abort) && abort.work == closing.work && abort.failure@
            == failure::remote_failed("Closing the remote copy destination timed out"@),
        Bounded::Finished(Err(error)) => next matches Err(abort) && abort.work == closing.work && abort.failure@
            == failure::remote_failed(error@),
        Bounded::Finished(Ok(_)) => next matches Ok(closed) && closed.work == closing.work
            && closed.bytes_transferred == closing.bytes_transferred && closed.relay_hash@ == digest::hex_text(
            digest::sha256(closing.digest.content()),
        ) && fingerprint::is_digest_text(closed.relay_hash@),
    }
}

impl RelayStream {
    /// Nothing was read or written.
    pub open spec fn is_fresh(&self) -> bool {
        self.bytes_transferred == 0 && self.piece == 0 && self.digest.content() == Seq::<u8>::empty()
    }

    /// Takes the next piece of the source, which stands at the front of the
    /// buffer. Says whether it is to be written: an empty piece is the end.
    pub fn piece_read(&mut self, reply: Timed<Result<usize, String>>, buffer: &[u8]) -> (write: Result<
        bool,
        TransferFailure,
    >)
        requires
            reply matches Timed::Finished(Ok(count)) ==> count <= buffer@.len(),
        ensures
            piece_read_leads_to(*old(self), reply, buffer@, write, *final(self)),
    {
        match reply {
            Timed::TransferCancelled => Err(cancelled_active_failure()),
            Timed::ConnectionRemoved => Err(stop_disconnected_relay()),
            Timed::TimedOut => Err(
                remote_failure(
                    "Remote copy read made no progress before the I/O watchdog expired".to_owned(),
                ),
            ),
            Timed::Finished(Err(error)) => Err(remote_failure(error)),
            Timed::Finished(Ok(count)) => {
                self.piece = count;
                if count == 0 {
                    assert(self.digest.content() + buffer@.take(0) =~= self.digest.content());
                    return Ok(false);
                }
                assert(buffer@.subrange(0, count as int) =~= buffer@.take(count as int));
                self.digest.absorb(slice_subrange(buffer, 0, count));
                Ok(true)
            },
        }
    }

    /// Takes whether the piece that was read was written, and counts it. Gives
    /// the update that is due by then.
    pub fn piece_written(
        &mut self,
        reply: Timed<Result<(), String>>,
        now: u64,
        progress: &mut TransferProgressSnapshot,
    ) -> (update: Result<Option<PhaseUpdate>, TransferFailure>)
        ensures
            piece_written_leads_to(*old(self), reply, now, *old(progress), update, *final(self), *final(progress)),
    {
        match reply {
            Timed::TransferCancelled => Err(cancelled_active_failure()),
            Timed::ConnectionRemoved => Err(stop_disconnected_relay()),
            Timed::TimedOut => Err(
                remote_failure(
                    "Remote copy write made no progress before the I/O watchdog expired".to_owned(),
                ),
            ),
            Timed::Finished(Err(error)) => Err(remote_failure(error)),
            Timed::Finished(Ok(_)) => {
                self.bytes_transferred = saturating_count(self.bytes_transferred, self.piece);
                self.piece = 0;
                progress.record_bytes(self.bytes_transferred);
                if progress_is_due(self.last_progress, now) {
                    Ok(
                        Some(
                            PhaseUpdate {
                                status: TransferStatus::Running,
                                phase: OperationPhase::Copying,
                                bytes_transferred: self.bytes_transferred,
                                total_bytes: self.work.total_bytes,
                                partial_path: Some(self.work.partial.clone()),
                                source_fingerprint: self.work.source.encode(),
                                destination_fingerprint: None,
                            },
                        ),
                    )
                } else {
                    Ok(None)
                }
            },
        }
    }

    /// Takes whether an update could be written down.
    pub fn progress_persisted(&mut self, reply: Result<(), String>, now: u64) -> (result: Result<(), TransferFailure>)
        ensures
            progress_persisted_leads_to(*old(self), reply, now, result, *final(self)),
    {
        match reply {
            Err(error) => Err(local_failure(error)),
            Ok(_) => {
                self.last_progress = now;
                Ok(())
            },
        }
    }

    /// Takes that the copying failed: the writer has to be aborted.
    pub fn failed(self, failure: TransferFailure) -> (abort: RelayAbort)
        ensures
            abort.work == self.work,
            abort.failure == failure,
    {
        RelayAbort { work: self.work, failure }
    }

    /// Takes that the source came to its end: all of it has to be written.
    pub fn ended(self) -> (next: Result<RelayClosing, RelayAbort>)
        ensures
            end_leads_to(self, next),
    {
        if self.bytes_transferred != self.work.total_bytes {
            let expected = signed_decimal(self.work.total_bytes);
            let copied = signed_decimal(self.bytes_transferred);
            let message = joined4(
                "Remote source size changed during copy: expected ",
                expected.as_str(),
                ", copied ",
                copied.as_str(),
            );
            return Err(RelayAbort { work: self.work, failure: remote_failure(message) });
        }
        Ok(
            RelayClosing {
                work: self.work,
                bytes_transferred: self.bytes_transferred,
                digest: self.digest,
            },
        )
    }
}

impl RelayClosing {
    /// Takes whether the writer could be closed.
    pub fn writer_closed(self, reply: Bounded<Result<(), String>>) -> (next: Result<RelayClosed, RelayAbort>)
        ensures
            close_leads_to(self, reply, next),
    {
        match reply {
            Bounded::TimedOut => Err(
                RelayAbort {
                    work: self.work,
                    failure: remote_failure("Closing the remote copy destination timed out".to_owned()),
                },
            ),
            Bounded::Finished(Err(error)) => Err(
                RelayAbort { work: self.work, failure: remote_failure(error) },
            ),
            Bounded::Finished(Ok(_)) => Ok(
                RelayClosed {
                    work: self.work,
                    bytes_transferred: self.bytes_transferred,
                    relay_hash: self.digest.finish(),
                },
            ),
        }
    }
}

impl RelayAbort {
    /// Takes what came of the abort. The text of a failed one is what may be
    /// shown of it. After an abort that was not answered in time the partial
    /// may still be written to, so it is left alone.
    pub fn aborted(self, reply: Bounded<Result<(), UploadAbortError>>) -> (next: RelayStop)
        ensures
            match reply {
                Bounded::TimedOut => next matches RelayStop::Stopped(stopped) && stopped@ == failure::with_partial(
                    self.failure.message@ + "; remote copy writer abort timed out"@,
                    self.work.partial@,
                    Some(fingerprint::encoded(self.work.source@)),
                    None,
                ),
                Bounded::Finished(Err(UploadAbortError::Failed(error))) => next matches RelayStop::Cleanup(cleanup)
                    && cleans_up(
                    cleanup,
                    self.work.partial@,
                    None,
                    (FailureView {
                        status: self.failure.status,
                        message: self.failure.message@ + "; remote copy writer abort failed: "@ + error@,
                        invalidate_operator: true,
                    }),
                    None,
                ),
                _ => next matches RelayStop::Cleanup(cleanup) && cleans_up(
                    cleanup,
                    self.work.partial@,
                    None,
                    self.failure@,
                    None,
                ),
            },
    {
        match reply {
            Bounded::TimedOut => {
                let message = joined2(
                    self.failure.message.as_str(),
                    "; remote copy writer abort timed out",
                );
                let source = self.work.source.encode();
                RelayStop::Stopped(
                    remote_partial_failure(message, self.work.partial, Some(source), None),
                )
            },
            Bounded::Finished(Err(UploadAbortError::Failed(error))) => {
                let message = joined3(
                    self.failure.message.as_str(),
                    "; remote copy writer abort failed: ",
                    error.as_str(),
                );
                let stopped = TransferFailure {
                    status: self.failure.status,
                    message,
                    invalidate_operator: true,
                };
                RelayStop::Cleanup(cleanup_remote_copy_partial(self.work.partial, None, stopped, None))
            },
            _ => RelayStop::Cleanup(
                cleanup_remote_copy_partial(self.work.partial, None, self.failure, None),
            ),
        }
    }
}

impl RelayClosed {
    /// Takes the fingerprint of the source after it was copied.
    pub fn source_observed(self, reply: Result<RemoteFileFingerprint, String>) -> (next: Result<
        RelayPartialCheck,
        PartialCleanup,
    >)
        ensures
            match reply {
                Err(error) => next matches Err(cleanup) && cleans_up(
                    cleanup,
                    self.work.partial@,
                    None,
                    failure::remote_failed(error@),
                    None,
                ),
                Ok(source_after) => next matches Ok(check) && check.work == self.work && check.bytes_transferred
                    == self.bytes_transferred && check.relay_hash == self.relay_hash && check.source_after
                    == source_after,
            },
    {
        match reply {
            Err(error) => Err(
                cleanup_remote_copy_partial(self.work.partial, None, remote_failure(error), None),
            ),
            Ok(source_after) => Ok(
                RelayPartialCheck {
                    work: self.work,
                    bytes_transferred: self.bytes_transferred,
                    relay_hash: self.relay_hash,
                    source_after,
                },
            ),
        }
    }
}

/// The content has the source's size and the digest of what went through.
pub open spec fn content_is_relayed(
    content: VerifiedRemoteContent,
    source: RemoteFileFingerprint,
    relay_hash: Seq<char>,
) -> bool {
    content.fingerprint.size == source.size && content.sha256@ == relay_hash
}

/// What is said of a partial whose content is not what went through.
pub open spec fn partial_mismatch(
    expected_size: u64,
    expected_hash: Seq<char>,
    actual_size: u64,
    actual_hash: Seq<char>,
) -> Seq<char> {
    "Operation-owned partial content mismatch: expected "@ + text::decimal_text(expected_size as nat)
        + " bytes and relay SHA-256 "@ + expected_hash + ", actual "@ + text::decimal_text(actual_size as nat)
        + " bytes and SHA-256 "@ + actual_hash + "; partial was preserved"@
}

fn partial_mismatch_text(expected_size: u64, expected_hash: &str, actual_size: u64, actual_hash: &str) -> (message:
    String)
    ensures
        message@ == partial_mismatch(expected_size, expected_hash@, actual_size, actual_hash@),
{
    let expected = decimal(expected_size);
    let actual = decimal(actual_size);
    let head = joined5(
        "Operation-owned partial content mismatch: expected ",
        expected.as_str(),
        " bytes and relay SHA-256 ",
        expected_hash,
        ", actual ",
    );
    joined5(head.as_str(), actual.as_str(), " bytes and SHA-256 ", actual_hash, "; partial was preserved")
}

impl RelayPartialCheck {
    /// Takes the content of the partial. It is published only where the source
    /// did not change and the partial has the size of the source and the digest
    /// of what went through.
    pub fn partial_verified(self, reply: Result<VerifiedRemoteContent, TransferFailure>) -> (next: Result<
        RelayPublishing,
        RelayStop,
    >)
        ensures
            match reply {
                Err(stopped) => next matches Err(RelayStop::Cleanup(cleanup)) && cleans_up(
                    cleanup,
                    self.work.partial@,
                    None,
                    stopped@,
                    Some(fingerprint::encoded(self.source_after@)),
                ),
                Ok(partial) => if self.source_after@ != self.work.source@ {
                    next matches Err(RelayStop::Cleanup(cleanup)) && cleans_up(
                        cleanup,
                        self.work.partial@,
                        Some(partial.fingerprint@),
                        failure::remote_failed(
                            "Remote source changed while it was being copied; the partial was not published"@,
                        ),
                        Some(fingerprint::encoded(self.work.source@)),
                    )
                } else if !content_is_relayed(partial, self.work.source, self.relay_hash@) {
                    next matches Err(RelayStop::Stopped(stopped)) && stopped@ == failure::with_partial(
                        partial_mismatch(
                            self.work.source.size,
                            self.relay_hash@,
                            partial.fingerprint.size,
                            partial.sha256@,
                        ),
                        self.work.partial@,
                        Some(fingerprint::encoded(self.work.source@)),
                        Some(fingerprint::durable(partial.fingerprint@, partial.sha256@)),
                    )
                } else {
                    next matches Ok(publishing) && publishing.proven == (RelayProof {
                        work: self.work,
                        bytes_transferred: self.bytes_transferred,
                        relay_hash: self.relay_hash,
                        source_after: self.source_after,
                    }) && publishing.partial == partial.fingerprint && publishing.update@
                        == remote::publishing_update(
                        OperationPhase::Copying,
                        self.bytes_transferred,
                        self.work.total_bytes,
                        Some(self.work.partial@),
                        fingerprint::durable(self.source_after@, self.relay_hash@),
                        fingerprint::durable(partial.fingerprint@, partial.sha256@),
                    )
                },
            },
    {
        match reply {
            Err(stopped) => {
                let source = self.source_after.encode();
                Err(
                    RelayStop::Cleanup(
                        cleanup_remote_copy_partial(self.work.partial, None, stopped, Some(source)),
                    ),
                )
            },
            Ok(partial) => {
                if !self.source_after.same_as(&self.work.source) {
                    let source = self.work.source.encode();
                    return Err(
                        RelayStop::Cleanup(
                            cleanup_remote_copy_partial(
                                self.work.partial,
                                Some(partial.fingerprint),
                                remote_failure(
                                    "Remote source changed while it was being copied; the partial was not published".to_owned(),
                                ),
                                Some(source),
                            ),
                        ),
                    );
                }
                let partial_durable = partial.durable_fingerprint();
                if partial.fingerprint.size != self.work.source.size || !same_text(
                    partial.sha256.as_str(),
                    self.relay_hash.as_str(),
                ) {
                    let message = partial_mismatch_text(
                        self.work.source.size,
                        self.relay_hash.as_str(),
                        partial.fingerprint.size,
                        partial.sha256.as_str(),
                    );
                    let source = self.work.source.encode();
                    return Err(
                        RelayStop::Stopped(
                            remote_partial_failure(
                                message,
                                self.work.partial,
                                Some(source),
                                Some(partial_durable),
                            ),
                        ),
                    );
                }
                let update = PhaseUpdate {
                    status: TransferStatus::Publishing,
                    phase: OperationPhase::Copying,
                    bytes_transferred: self.bytes_transferred,
                    total_bytes: self.work.total_bytes,
                    partial_path: Some(self.work.partial.clone()),
                    source_fingerprint: durable_text(&self.source_after, self.relay_hash.as_str()),
                    destination_fingerprint: Some(partial_durable),
                };
                Ok(
                    RelayPublishing {
                        proven: RelayProof {
                            work: self.work,
                            bytes_transferred: self.bytes_transferred,
                            relay_hash: self.relay_hash,
                            source_after: self.source_after,
                        },
                        partial: partial.fingerprint,
                        update,
                    },
                )
            },
        }
    }
}

impl RelayProof {
    /// The durable text of the source and of what went through.
    pub open spec fn source_durable(self) -> Seq<char> {
        fingerprint::durable(self.source_after@, self.relay_hash@)
    }

    fn source_durable_text(&self) -> (all: String)
        ensures
            all@ == self.source_durable(),
    {
        durable_text(&self.source_after, self.relay_hash.as_str())
    }
}

impl RelayPublishing {
    /// Takes the status that the transfer has now that the update was written
    /// down, and whether it was cancelled in the meantime.
    pub fn persisted(self, reply: Result<String, String>, cancelled: bool) -> (next: Result<
        RelayPublish,
        PartialCleanup,
    >)
        ensures
            match reply {
                Err(error) => next matches Err(cleanup) && cleans_up(
                    cleanup,
                    self.proven.work.partial@,
                    Some(self.partial@),
                    failure::local_failed(error@),
                    Some(self.proven.source_durable()),
                ),
                Ok(status) => if status@ == "cancelling"@ || cancelled {
                    next matches Err(cleanup) && cleans_up(
                        cleanup,
                        self.proven.work.partial@,
                        Some(self.partial@),
                        failure::cancelled_active("Download cancelled"@),
                        Some(self.proven.source_durable()),
                    )
                } else {
                    next matches Ok(publish) && publish.proven == self.proven && publish.partial == self.partial
                },
            },
    {
        let stopped = match reply {
            Err(error) => local_failure(error),
            Ok(status) => {
                if !(same_text(status.as_str(), "cancelling") || cancelled) {
                    return Ok(RelayPublish { proven: self.proven, partial: self.partial });
                }
                cancelled_active_failure()
            },
        };
        let source = self.proven.source_durable_text();
        Err(
            cleanup_remote_copy_partial(
                self.proven.work.partial,
                Some(self.partial),
                stopped,
                Some(source),
            ),
        )
    }
}

impl RelayPublish {
    /// Takes what came of making the partial the destination.
    pub fn published(self, reply: Result<UploadPublishResolution, String>) -> (next: Result<
        RelayDestinationCheck,
        RelayStop,
    >)
        ensures
            match reply {
                Err(error) => next matches Err(RelayStop::Cleanup(cleanup)) && cleans_up(
                    cleanup,
                    self.proven.work.partial@,
                    Some(self.partial@),
                    failure::remote_failed(error@),
                    Some(self.proven.source_durable()),
                ),
                Ok(resolution) => match resolution.state {
                    UploadPublishState::Completed => next matches Ok(check) && check.proven == self.proven,
                    UploadPublishState::PartialSource => next matches Err(RelayStop::Cleanup(cleanup)) && cleans_up(
                        cleanup,
                        self.proven.work.partial@,
                        Some(self.partial@),
                        failure::remote_failed(resolution.detail@),
                        Some(self.proven.source_durable()),
                    ),
                    UploadPublishState::PartialTarget => next matches Err(RelayStop::Stopped(stopped)) && stopped@
                        == failure::with_partial(
                        resolution.detail@,
                        self.proven.work.job.destination_path@,
                        Some(self.proven.source_durable()),
                        None,
                    ),
                    UploadPublishState::Unknown => next matches Err(RelayStop::Stopped(stopped)) && stopped@ == (
                    RemoteFailureView {
                        failure: failure::partly_failed(resolution.detail@),
                        operation_outcome: OperationOutcome::FailedWithPartialDestination,
                        operation_phase: OperationPhase::Copying,
                        partial_destination: None,
                        source_fingerprint: Some(self.proven.source_durable()),
                        destination_fingerprint: None,
                    }),
                },
            },
    {
        let source = self.proven.source_durable_text();
        match reply {
            Err(error) => Err(
                RelayStop::Cleanup(
                    cleanup_remote_copy_partial(
                        self.proven.work.partial,
                        Some(self.partial),
                        remote_failure(error),
                        Some(source),
                    ),
                ),
            ),
            Ok(resolution) => match resolution.state {
                UploadPublishState::Completed => Ok(RelayDestinationCheck { proven: self.proven }),
                UploadPublishState::PartialSource => Err(
                    RelayStop::Cleanup(
                        cleanup_remote_copy_partial(
                            self.proven.work.partial,
                            Some(self.partial),
                            remote_failure(resolution.detail),
                            Some(source),
                        ),
                    ),
                ),
                UploadPublishState::PartialTarget => Err(
                    RelayStop::Stopped(
                        remote_partial_failure(
                            resolution.detail,
                            self.proven.work.job.destination_path,
                            Some(source),
                            None,
                        ),
                    ),
                ),
                UploadPublishState::Unknown => Err(
                    RelayStop::Stopped(
                        RemoteTransferFailure {
                            failure: partial_failure(resolution.detail),
                            operation_outcome: OperationOutcome::FailedWithPartialDestination,
                            operation_phase: OperationPhase::Copying,
                            partial_destination: None,
                            source_fingerprint: Some(source),
                            destination_fingerprint: None,
                        },
                    ),
                ),
            },
        }
    }
}

/// A failure that left the destination behind.
pub open spec fn left_behind(stopped: FailureView) -> FailureView {
    FailureView { status: FailureStatus::Partial, ..stopped }
}

fn leave_behind(stopped: TransferFailure) -> (left: TransferFailure)
    ensures
        left@ == left_behind(stopped@),
{
    TransferFailure {
        status: FailureStatus::Partial,
        message: stopped.message,
        invalidate_operator: stopped.invalidate_operator,
    }
}

impl RelayDestinationCheck {
    /// Takes the content of the destination.
    pub fn destination_verified(self, reply: Result<VerifiedRemoteContent, TransferFailure>) -> (next: Result<
        RelayNext,
        RemoteTransferFailure,
    >)
        ensures
            match reply {
                Err(unread) => next matches Err(stopped) && stopped@ == (RemoteFailureView {
                    failure: left_behind(unread@),
                    operation_outcome: OperationOutcome::FailedWithPartialDestination,
                    operation_phase: OperationPhase::Copying,
                    partial_destination: Some(self.proven.work.job.destination_path@),
                    source_fingerprint: Some(self.proven.source_durable()),
                    destination_fingerprint: None,
                }),
                Ok(destination) => if !content_is_relayed(
                    destination,
                    self.proven.work.source,
                    self.proven.relay_hash@,
                ) {
                    next matches Err(stopped) && stopped@ == failure::with_partial(
                        "Published destination content does not match the relayed source; source deletion was not attempted"@,
                        self.proven.work.job.destination_path@,
                        Some(self.proven.source_durable()),
                        Some(fingerprint::durable(destination.fingerprint@, destination.sha256@)),
                    )
                } else if self.proven.work.job.operation == RemoteOperation::Copy {
                    next matches Ok(RelayNext::Completed(outcome)) && outcome@ == failure::completed_outcome(
                        self.proven.bytes_transferred,
                        self.proven.work.total_bytes,
                        self.proven.source_durable(),
                        fingerprint::durable(destination.fingerprint@, destination.sha256@),
                    )
                } else {
                    next matches Ok(RelayNext::Published(published)) && published.proven == self.proven
                        && published.destination == destination && published.update@ == remote::publishing_update(
                        OperationPhase::PublishedBeforeDelete,
                        self.proven.bytes_transferred,
                        self.proven.work.total_bytes,
                        None,
                        self.proven.source_durable(),
                        fingerprint::durable(destination.fingerprint@, destination.sha256@),
                    )
                },
            },
    {
        let source = self.proven.source_durable_text();
        match reply {
            Err(unread) => Err(
                RemoteTransferFailure {
                    failure: leave_behind(unread),
                    operation_outcome: OperationOutcome::FailedWithPartialDestination,
                    operation_phase: OperationPhase::Copying,
                    partial_destination: Some(self.proven.work.job.destination_path),
                    source_fingerprint: Some(source),
                    destination_fingerprint: None,
                },
            ),
            Ok(destination) => {
                let destination_durable = destination.durable_fingerprint();
                if destination.fingerprint.size != self.proven.work.source.size || !same_text(
                    destination.sha256.as_str(),
                    self.proven.relay_hash.as_str(),
                ) {
                    return Err(
                        remote_partial_failure(
                            "Published destination content does not match the relayed source; source deletion was not attempted".to_owned(),
                            self.proven.work.job.destination_path,
                            Some(source),
                            Some(destination_durable),
                        ),
                    );
                }
                match self.proven.work.job.operation {
                    RemoteOperation::Copy => Ok(
                        RelayNext::Completed(
                            remote_completion(
                                self.proven.bytes_transferred,
                                self.proven.work.total_bytes,
                                source,
                                destination_durable,
                            ),
                        ),
                    ),
                    RemoteOperation::Rename => {
                        let update = PhaseUpdate {
                            status: TransferStatus::Publishing,
                            phase: OperationPhase::PublishedBeforeDelete,
                            bytes_transferred: self.proven.bytes_transferred,
                            total_bytes: self.proven.work.total_bytes,
                            partial_path: None,
                            source_fingerprint: source,
                            destination_fingerprint: Some(destination_durable),
                        };
                        Ok(
                            RelayNext::Published(
                                RelayPublished { proven: self.proven, destination, update },
                            ),
                        )
                    },
                }
            },
        }
    }
}

impl RelayPublished {
    /// Takes whether it could be written down that the destination stands.
    pub fn persisted(self, reply: Result<(), String>) -> (next: Result<RelaySourceRecheck, RemoteTransferFailure>)
        ensures
            match reply {
                Err(error) => next matches Err(stopped) && stopped@ == server_side::source_not_deleted(
                    failure::local_failed(error@),
                    OperationPhase::PublishedBeforeDelete,
                    self.proven.work.job.destination_path@,
                    self.proven.source_durable(),
                    fingerprint::durable(self.destination.fingerprint@, self.destination.sha256@),
                ),
                Ok(_) => next matches Ok(recheck) && recheck.proven == self.proven && recheck.destination
                    == self.destination,
            },
    {
        match reply {
            Err(error) => {
                let source = self.proven.source_durable_text();
                Err(
                    stop_source_not_deleted(
                        local_failure(error),
                        OperationPhase::PublishedBeforeDelete,
                        self.proven.work.job.destination_path,
                        source,
                        self.destination.durable_fingerprint(),
                    ),
                )
            },
            Ok(_) => Ok(RelaySourceRecheck { proven: self.proven, destination: self.destination }),
        }
    }
}

impl RelaySourceRecheck {
    /// Takes the content of the source.
    pub fn source_verified(self, reply: Result<VerifiedRemoteContent, TransferFailure>) -> (next: Result<
        RelayDestinationRecheck,
        RemoteTransferFailure,
    >)
        ensures
            match reply {
                Err(unread) => next matches Err(stopped) && stopped@ == server_side::source_not_deleted(
                    left_behind(unread@),
                    OperationPhase::PublishedBeforeDelete,
                    self.proven.work.job.destination_path@,
                    self.proven.source_durable(),
                    fingerprint::durable(self.destination.fingerprint@, self.destination.sha256@),
                ),
                Ok(source_verified) => next matches Ok(recheck) && recheck.proven == self.proven
                    && recheck.destination == self.destination && recheck.source_verified == source_verified,
            },
    {
        match reply {
            Err(unread) => {
                let source = self.proven.source_durable_text();
                Err(
                    stop_source_not_deleted(
                        leave_behind(unread),
                        OperationPhase::PublishedBeforeDelete,
                        self.proven.work.job.destination_path,
                        source,
                        self.destination.durable_fingerprint(),
                    ),
                )
            },
            Ok(source_verified) => Ok(
                RelayDestinationRecheck {
                    proven: self.proven,
                    destination: self.destination,
                    source_verified,
                },
            ),
        }
    }
}

/// The source may be deleted: source and destination still have the
/// fingerprints that the copy was proven with, and both still have the content
/// that went through.
pub open spec fn deletion_is_proven(
    proven: RelayProof,
    destination: VerifiedRemoteContent,
    source_verified: VerifiedRemoteContent,
    destination_verified: VerifiedRemoteContent,
) -> bool {
    &&& source_verified.fingerprint@ == proven.source_after@
    &&& destination_verified.fingerprint@ == destination.fingerprint@
    &&& source_verified.sha256@ == proven.relay_hash@
    &&& destination_verified.sha256@ == proven.relay_hash@
}

impl RelayDestinationRecheck {
    /// Takes the content of the destination. The source is deleted only where
    /// both files were just read back and still have the content that went
    /// through.
    pub fn destination_verified(self, reply: Result<VerifiedRemoteContent, TransferFailure>) -> (next: Result<
        RelayDeleting,
        RemoteTransferFailure,
    >)
        ensures
            match reply {
                Err(unread) => next matches Err(stopped) && stopped@ == server_side::source_not_deleted(
                    left_behind(unread@),
                    OperationPhase::PublishedBeforeDelete,
                    self.proven.work.job.destination_path@,
                    fingerprint::durable(self.source_verified.fingerprint@, self.source_verified.sha256@),
                    fingerprint::durable(self.destination.fingerprint@, self.destination.sha256@),
                ),
                Ok(verified) => if deletion_is_proven(
                    self.proven,
                    self.destination,
                    self.source_verified,
                    verified,
                ) {
                    next matches Ok(deleting) && deleting.proven == self.proven && deleting.source_verified
                        == self.source_verified && deleting.destination_verified == verified && deleting.update@
                        == remote::publishing_update(
                        OperationPhase::DeleteUncertain,
                        self.proven.bytes_transferred,
                        self.proven.work.total_bytes,
                        None,
                        fingerprint::durable(self.source_verified.fingerprint@, self.source_verified.sha256@),
                        fingerprint::durable(verified.fingerprint@, verified.sha256@),
                    )
                } else {
                    next matches Err(stopped) && stopped@ == server_side::source_not_deleted(
                        failure::partly_failed(
                            "Current source or destination content no longer matches the relayed copy; source deletion was not attempted"@,
                        ),
                        OperationPhase::PublishedBeforeDelete,
                        self.proven.work.job.destination_path@,
                        fingerprint::durable(self.source_verified.fingerprint@, self.source_verified.sha256@),
                        fingerprint::durable(verified.fingerprint@, verified.sha256@),
                    )
                },
            },
    {
        let source_durable = self.source_verified.durable_fingerprint();
        match reply {
            Err(unread) => Err(
                stop_source_not_deleted(
                    leave_behind(unread),
                    OperationPhase::PublishedBeforeDelete,
                    self.proven.work.job.destination_path,
                    source_durable,
                    self.destination.durable_fingerprint(),
                ),
            ),
            Ok(verified) => {
                let destination_durable = verified.durable_fingerprint();
                if !self.source_verified.fingerprint.same_as(&self.proven.source_after)
                    || !verified.fingerprint.same_as(&self.destination.fingerprint) || !same_text(
                    self.source_verified.sha256.as_str(),
                    self.proven.relay_hash.as_str(),
                ) || !same_text(verified.sha256.as_str(), self.proven.relay_hash.as_str()) {
                    return Err(
                        stop_source_not_deleted(
                            partial_failure(
                                "Current source or destination content no longer matches the relayed copy; source deletion was not attempted".to_owned(),
                            ),
                            OperationPhase::PublishedBeforeDelete,
                            self.proven.work.job.destination_path,
                            source_durable,
                            destination_durable,
                        ),
                    );
                }
                let update = PhaseUpdate {
                    status: TransferStatus::Publishing,
                    phase: OperationPhase::DeleteUncertain,
                    bytes_transferred: self.proven.bytes_transferred,
                    total_bytes: self.proven.work.total_bytes,
                    partial_path: None,
                    source_fingerprint: source_durable,
                    destination_fingerprint: Some(destination_durable),
                };
                Ok(
                    RelayDeleting {
                        proven: self.proven,
                        source_verified: self.source_verified,
                        destination_verified: verified,
                        update,
                    },
                )
            },
        }
    }
}

impl RelayDeleting {
    /// Takes whether it could be written down that the source is about to be
    /// deleted. Nothing is deleted that was not written down.
    pub fn persisted(self, reply: Result<(), String>) -> (next: Result<RelayDelete, RemoteTransferFailure>)
        ensures
            match reply {
                Err(error) => next matches Err(stopped) && stopped@ == server_side::source_not_deleted(
                    failure::local_failed(error@),
                    OperationPhase::PublishedBeforeDelete,
                    self.proven.work.job.destination_path@,
                    fingerprint::durable(self.source_verified.fingerprint@, self.source_verified.sha256@),
                    fingerprint::durable(self.destination_verified.fingerprint@, self.destination_verified.sha256@),
                ),
                Ok(_) => next matches Ok(delete) && delete.bytes_transferred == self.proven.bytes_transferred
                    && delete.total_bytes == self.proven.work.total_bytes && delete.deletion == (SourceDeletion {
                    source_path: self.proven.work.job.source_path,
                    destination_path: self.proven.work.job.destination_path,
                    source: self.source_verified.fingerprint,
                    destination: self.destination_verified.fingerprint,
                }) && delete.source_durable@ == fingerprint::durable(
                    self.source_verified.fingerprint@,
                    self.source_verified.sha256@,
                ) && delete.destination_durable@ == fingerprint::durable(
                    self.destination_verified.fingerprint@,
                    self.destination_verified.sha256@,
                ),
            },
    {
        let source_durable = self.source_verified.durable_fingerprint();
        let destination_durable = self.destination_verified.durable_fingerprint();
        match reply {
            Err(error) => Err(
                stop_source_not_deleted(
                    local_failure(error),
                    OperationPhase::PublishedBeforeDelete,
                    self.proven.work.job.destination_path,
                    source_durable,
                    destination_durable,
                ),
            ),
            Ok(_) => Ok(
                RelayDelete {
                    bytes_transferred: self.proven.bytes_transferred,
                    total_bytes: self.proven.work.total_bytes,
                    deletion: SourceDeletion {
                        source_path: self.proven.work.job.source_path,
                        destination_path: self.proven.work.job.destination_path,
                        source: self.source_verified.fingerprint,
                        destination: self.destination_verified.fingerprint,
                    },
                    source_durable,
                    destination_durable,
                },
            ),
        }
    }
}

impl RelayDelete {
    /// Takes whether the source was deleted.
    pub fn deleted(self, reply: Result<(), String>) -> (end: Result<RemoteTransferOutcome, RemoteTransferFailure>)
        ensures
            match reply {
                Err(error) => end matches Err(stopped) && stopped@ == server_side::source_not_deleted(
                    failure::partly_failed(error@),
                    OperationPhase::DeleteUncertain,
                    self.deletion.destination_path@,
                    self.source_durable@,
                    self.destination_durable@,
                ),
                Ok(_) => end matches Ok(outcome) && outcome@ == failure::completed_outcome(
                    self.bytes_transferred,
                    self.total_bytes,
                    self.source_durable@,
                    self.destination_durable@,
                ),
            },
    {
        match reply {
            Err(error) => Err(
                stop_source_not_deleted(
                    partial_failure(error),
                    OperationPhase::DeleteUncertain,
                    self.deletion.destination_path,
                    self.source_durable,
                    self.destination_durable,
                ),
            ),
            Ok(_) => Ok(
                remote_completion(
                    self.bytes_transferred,
                    self.total_bytes,
                    self.source_durable,
                    self.destination_durable,
                ),
            ),
        }
    }
}

/// A source is deleted only behind its copy: when the deletion is due, source
/// and destination were both read back, hold the same content in the same
/// number of bytes, and the source is still the one that was copied.
pub proof fn sources_are_deleted_only_behind_their_copies(
    proven: RelayProof,
    destination: VerifiedRemoteContent,
    source_verified: VerifiedRemoteContent,
    destination_verified: VerifiedRemoteContent,
)
    requires
        proven.source_after@ == proven.work.source@,
        content_is_relayed(destination, proven.work.source, proven.relay_hash@),
        deletion_is_proven(proven, destination, source_verified, destination_verified),
    ensures
        source_verified.sha256@ == destination_verified.sha256@,
        source_verified.fingerprint.size == destination_verified.fingerprint.size,
        source_verified.fingerprint@ == proven.work.source@,
{
    assert(source_verified.fingerprint@.size == proven.work.source@.size);
    assert(destination_verified.fingerprint@.size == destination.fingerprint@.size);
}

/// What happens to a copy while its pieces are relayed: the reply, and what came
/// of it.
pub enum RelayEvent {
    Read { reply: Timed<Result<usize, String>>, buffer: Seq<u8>, write: Result<bool, TransferFailure> },
    Written { reply: Timed<Result<(), String>>, now: u64, update: Result<Option<PhaseUpdate>, TransferFailure> },
    Persisted { reply: Result<(), String>, now: u64, result: Result<(), TransferFailure> },
}

/// What an event makes of a copy, and of what is told of it.
pub open spec fn event_leads_to(
    before: (RelayStream, TransferProgressSnapshot),
    event: RelayEvent,
    after: (RelayStream, TransferProgressSnapshot),
) -> bool {
    match event {
        RelayEvent::Read { reply, buffer, write } => {
            &&& reply matches Timed::Finished(Ok(count)) ==> count <= buffer.len()
            &&& piece_read_leads_to(before.0, reply, buffer, write, after.0)
            &&& after.1 == before.1
        },
        RelayEvent::Written { reply, now, update } => piece_written_leads_to(
            before.0,
            reply,
            now,
            before.1,
            update,
            after.0,
            after.1,
        ),
        RelayEvent::Persisted { reply, now, result } => progress_persisted_leads_to(
            before.0,
            reply,
            now,
            result,
            after.0,
        ) && after.1 == before.1,
    }
}

/// A copy is relayed from one moment to the next. A piece is read only once the
/// one before it was written.
pub open spec fn relays_on(moments: Seq<(RelayStream, TransferProgressSnapshot)>, events: Seq<RelayEvent>) -> bool {
    &&& moments.len() == events.len() + 1
    &&& forall|i: int|
        0 <= i < events.len() ==> event_leads_to(moments[i], #[trigger] events[i], moments[i + 1]) && (events[i] is Read
            ==> moments[i].0.piece == 0)
}

/// The bytes that were read, from the first to the last.
pub open spec fn bytes_in(events: Seq<RelayEvent>) -> Seq<u8>
    decreases events.len(),
{
    if events.len() == 0 {
        Seq::empty()
    } else {
        bytes_in(events.drop_last()) + (match events.last() {
            RelayEvent::Read { reply: Timed::Finished(Ok(count)), buffer, .. } => buffer.take(count as int),
            _ => Seq::empty(),
        })
    }
}

/// However a copy is cut into pieces, what is hashed is what was read, and the
/// count is that of its bytes but for the piece that is still to be written, as
/// far as the count can go. What is told of the copy is that count.
pub proof fn relayed_pieces_are_hashed_and_counted(
    moments: Seq<(RelayStream, TransferProgressSnapshot)>,
    events: Seq<RelayEvent>,
)
    requires
        relays_on(moments, events),
        moments[0].0.is_fresh(),
        moments[0].1.counted_bytes() == 0,
    ensures
        moments.last().0.work == moments[0].0.work,
        moments.last().0.digest.content() == bytes_in(events),
        moments.last().0.piece <= bytes_in(events).len(),
        moments.last().0.bytes_transferred == progress::countable(bytes_in(events).len() - moments.last().0.piece),
        moments.last().0.piece == 0 && bytes_in(events).len() <= i64::MAX ==> moments.last().0.digest.content().len()
            == moments.last().0.bytes_transferred,
        moments.last().1.counted_bytes() == moments.last().0.bytes_transferred,
        moments.last().1.known_total() == moments[0].1.known_total(),
    decreases events.len(),
{
    if events.len() > 0 {
        let earlier = moments.drop_last();
        let front = events.drop_last();
        assert forall|i: int| 0 <= i < front.len() implies event_leads_to(
            earlier[i],
            #[trigger] front[i],
            earlier[i + 1],
        ) && (front[i] is Read ==> earlier[i].0.piece == 0) by {
            assert(front[i] == events[i]);
        }
        relayed_pieces_are_hashed_and_counted(earlier, front);
        let event = events[events.len() - 1];
        assert(event_leads_to(earlier.last(), event, moments.last()));
    }
}

/// A copy whose writer was closed has the digest of exactly the bytes that were
/// read and written, which are as many as the source was seen to have.
pub proof fn relayed_digests_are_of_all_that_was_copied(
    moments: Seq<(RelayStream, TransferProgressSnapshot)>,
    events: Seq<RelayEvent>,
    closing: RelayClosing,
    reply: Bounded<Result<(), String>>,
    closed: RelayClosed,
)
    requires
        relays_on(moments, events),
        moments[0].0.is_fresh(),
        moments[0].1.counted_bytes() == 0,
        moments.last().0.piece == 0,
        end_leads_to(moments.last().0, Ok(closing)),
        close_leads_to(closing, reply, Ok(closed)),
    ensures
        closed.relay_hash@ == digest::hex_text(digest::sha256(bytes_in(events))),
        closed.bytes_transferred == progress::countable(bytes_in(events).len() as int),
        closed.bytes_transferred == closed.work.total_bytes,
        closed.work == moments[0].0.work,
{
    relayed_pieces_are_hashed_and_counted(moments, events);
}

/// The partial of a relayed copy stands beside the destination, under a name that
/// makes it the copy's own.
pub proof fn relayed_partials_are_their_own(
    transfer: crate::record::FileTransferStorageRecord,
    partial: Seq<char>,
)
    requires
        is_new_partial(transfer.id@, transfer.local_path@, partial),
        transfer.direction@ == "copy"@ || transfer.direction@ == "rename"@,
        forall|i: int| 0 <= i < transfer.id@.len() ==> transfer.id@[i] != '/',
    ensures
        ownership::remote_copy_owns(transfer, partial),
        text::parent_text(partial) == text::parent_text(transfer.local_path@),
{
    let unique = choose|unique: Seq<char>| #[trigger]
        ownership::is_identifier(unique) && partial == ownership::sibling(
            transfer.local_path@,
            ownership::partial_name(".dbx-copy-"@, transfer.id@, unique),
        );
    ownership::transfers_own_the_partials_they_made(transfer, unique);
    ownership::transfers_own_nothing_else(transfer, partial);
}

/// The partial that is dealt with after a failure is the one that was written, with
/// what it was last seen as and what the copy was stopped by.
pub proof fn partials_are_cleaned_up_by_their_name(
    cleanup: PartialCleanup,
    partial: Seq<char>,
    expected: Option<fingerprint::FingerprintView>,
    failure: FailureView,
    source: Option<Seq<char>>,
)
    requires
        cleans_up(cleanup, partial, expected, failure, source),
    ensures
        cleanup.partial_path@ == partial,
        cleanup.expected_fingerprint is Some <==> expected is Some,
        expected matches Some(seen) ==> cleanup.expected_fingerprint->0@ == seen,
        cleanup.failure.message@ == failure.message,
        cleanup.failure.status == failure.status,
        cleanup.failure.invalidate_operator == failure.invalidate_operator,
        cleanup.source_fingerprint is Some <==> source is Some,
        source matches Some(known) ==> cleanup.source_fingerprint->0@ == known,
{
}

/// A relayed copy reads on exactly while pieces come. An interruption stops it as
/// cancelled and any other fault as failed; all of these give up the service, and
/// nothing is hashed or counted of a piece that did not come or was not written.
pub proof fn interrupted_pieces_are_neither_hashed_nor_counted(
    before: RelayStream,
    read: Timed<Result<usize, String>>,
    buffer: Seq<u8>,
    write: Result<bool, TransferFailure>,
    after_read: RelayStream,
    written: Timed<Result<(), String>>,
    now: u64,
    told: TransferProgressSnapshot,
    update: Result<Option<PhaseUpdate>, TransferFailure>,
    after_write: RelayStream,
    told_then: TransferProgressSnapshot,
)
    requires
        piece_read_leads_to(before, read, buffer, write, after_read),
        piece_written_leads_to(before, written, now, told, update, after_write, told_then),
    ensures
        write is Ok <==> read matches Timed::Finished(Ok(_)),
        read matches Timed::Finished(Ok(count)) ==> write == Ok::<bool, TransferFailure>(count > 0)
            && after_read.piece == count && after_read.digest.content() == before.digest.content() + buffer.take(
            count as int,
        ),
        write matches Err(stopped) ==> stopped.invalidate_operator && after_read.digest.content()
            == before.digest.content() && stopped.status == (if read is TransferCancelled || read is ConnectionRemoved {
            FailureStatus::Cancelled
        } else {
            FailureStatus::Failed
        }),
        after_read.bytes_transferred == before.bytes_transferred,
        update is Ok <==> written matches Timed::Finished(Ok(_)),
        update matches Err(stopped) ==> stopped.invalidate_operator && after_write.bytes_transferred
            == before.bytes_transferred && told_then == told && stopped.status == (if written is TransferCancelled
            || written is ConnectionRemoved {
            FailureStatus::Cancelled
        } else {
            FailureStatus::Failed
        }),
        update matches Ok(due) ==> (due is Some <==> before.last_progress + 200 <= now),
        update matches Ok(Some(due)) ==> due.status == TransferStatus::Running && due.phase == OperationPhase::Copying
            && due.bytes_transferred == after_write.bytes_transferred && due.total_bytes == before.work.total_bytes && (
        due.partial_path matches Some(path) && path@ == before.work.partial@) && due.source_fingerprint@
            == fingerprint::encoded(before.work.source@) && due.destination_fingerprint is None,
        after_read.work == before.work && after_write.work == before.work,
        after_read.last_progress == before.last_progress && after_write.last_progress == before.last_progress,
{
}

/// The time of an update is remembered once it was written down, and not before.
pub proof fn written_updates_are_remembered(
    before: RelayStream,
    reply: Result<(), String>,
    now: u64,
    result: Result<(), TransferFailure>,
    after: RelayStream,
)
    requires
        progress_persisted_leads_to(before, reply, now, result, after),
    ensures
        result is Ok <==> reply is Ok,
        after.last_progress == (if reply is Ok {
            now
        } else {
            before.last_progress
        }),
        reply matches Err(error) ==> result is Err && result->Err_0.message@ == error@
            && !result->Err_0.invalidate_operator && result->Err_0.status == FailureStatus::Failed,
        after.work == before.work && after.digest == before.digest && after.bytes_transferred
            == before.bytes_transferred && after.piece == before.piece,
{
}

/// A copy is closed only where as many bytes went through as the source was seen to
/// have; otherwise its writer is aborted.
pub proof fn short_copies_are_aborted(
    stream: RelayStream,
    next: Result<RelayClosing, RelayAbort>,
    closing: RelayClosing,
    reply: Bounded<Result<(), String>>,
    end: Result<RelayClosed, RelayAbort>,
)
    requires
        end_leads_to(stream, next),
        close_leads_to(closing, reply, end),
    ensures
        next is Ok <==> stream.bytes_transferred == stream.work.total_bytes,
        next matches Ok(due) ==> due.work == stream.work && due.bytes_transferred == stream.bytes_transferred
            && due.digest == stream.digest,
        next matches Err(abort) ==> abort.work == stream.work && abort.failure.status == FailureStatus::Failed
            && abort.failure.invalidate_operator,
        end is Ok <==> reply matches Bounded::Finished(Ok(_)),
        end matches Ok(closed) ==> closed.work == closing.work && closed.bytes_transferred == closing.bytes_transferred
            && closed.relay_hash@ == digest::hex_text(digest::sha256(closing.digest.content())),
        end matches Err(abort) ==> abort.work == closing.work && abort.failure.status == FailureStatus::Failed
            && abort.failure.invalidate_operator,
        reply matches Bounded::Finished(Err(error)) ==> end->Err_0.failure.message@ == error@,
{
}

/// A file holds what was relayed exactly where it has the size of the source and
/// the digest of what went through.
pub proof fn relayed_content_has_size_and_digest(
    content: VerifiedRemoteContent,
    source: RemoteFileFingerprint,
    relay_hash: Seq<char>,
)
    ensures
        content_is_relayed(content, source, relay_hash) ==> content.fingerprint.size == source.size && content.sha256@
            == relay_hash,
        content.fingerprint.size == source.size && content.sha256@ == relay_hash ==> content_is_relayed(
            content,
            source,
            relay_hash,
        ),
{
}

/// The source of a relayed rename is deleted wherever both files still look as they
/// did when the copy was proven and still hold what went through, and nowhere
/// else.
pub proof fn proven_copies_let_their_source_be_deleted(
    proven: RelayProof,
    destination: VerifiedRemoteContent,
    source_now: VerifiedRemoteContent,
    destination_now: VerifiedRemoteContent,
)
    ensures
        source_now.fingerprint@ == proven.source_after@ && destination_now.fingerprint@ == destination.fingerprint@
            && source_now.sha256@ == proven.relay_hash@ && destination_now.sha256@ == proven.relay_hash@
            ==> deletion_is_proven(proven, destination, source_now, destination_now),
        source_now.sha256@ != proven.relay_hash@ || destination_now.sha256@ != proven.relay_hash@
            ==> !deletion_is_proven(proven, destination, source_now, destination_now),
        source_now.fingerprint@ != proven.source_after@ || destination_now.fingerprint@ != destination.fingerprint@
            ==> !deletion_is_proven(proven, destination, source_now, destination_now),
{
}

/// What is written down of the source of a relayed copy is what it was seen as last
/// and what went through, and both can be read from it again.
pub proof fn written_sources_are_read_again(proven: RelayProof, persisted: Seq<char>)
    requires
        fingerprint::is_digest_text(proven.relay_hash@),
        persisted == proven.source_durable(),
    ensures
        fingerprint::persisted_content_matches(persisted, proven.source_after@, proven.relay_hash@),
        fingerprint::relay_hash(persisted) == Some(proven.relay_hash@),
{
    fingerprint::durable_text_is_recognised(proven.source_after@, proven.relay_hash@);
}

/// A failure behind a publish ends as partial, whatever it was, and nothing else of
/// it changes.
pub proof fn failures_behind_a_publish_are_partial(stopped: TransferFailure, left: TransferFailure)
    requires
        left@ == left_behind(stopped@),
    ensures
        left.status == FailureStatus::Partial,
        left.message@ == stopped.message@,
        left.invalidate_operator == stopped.invalidate_operator,
{
    assert(left@.message == stopped@.message);
    assert(left@.status == FailureStatus::Partial);
    assert(left@.invalidate_operator == stopped@.invalidate_operator);
}

/// A partial that holds something else is told with the sizes and digests that were
/// expected and found.
pub proof fn mismatches_tell_what_was_expected_and_found(
    expected_size: u64,
    expected_hash: Seq<char>,
    actual_size: u64,
    actual_hash: Seq<char>,
)
    ensures
        text::has_prefix(
            partial_mismatch(expected_size, expected_hash, actual_size, actual_hash),
            "Operation-owned partial content mismatch: expected "@ + text::decimal_text(expected_size as nat)
                + " bytes and relay SHA-256 "@ + expected_hash,
        ),
        text::has_suffix(
            partial_mismatch(expected_size, expected_hash, actual_size, actual_hash),
            text::decimal_text(actual_size as nat) + " bytes and SHA-256 "@ + actual_hash
                + "; partial was preserved"@,
        ),
{
    let all = partial_mismatch(expected_size, expected_hash, actual_size, actual_hash);
    let head = "Operation-owned partial content mismatch: expected "@ + text::decimal_text(expected_size as nat)
        + " bytes and relay SHA-256 "@ + expected_hash;
    let tail = text::decimal_text(actual_size as nat) + " bytes and SHA-256 "@ + actual_hash
        + "; partial was preserved"@;
    assert(all.subrange(0, head.len() as int) =~= head);
    assert(all.subrange(all.len() - tail.len(), all.len() as int) =~= tail);
}

/// A relayed copy that lost its connection stops as cancelled and gives up its
/// service.
pub proof fn lost_connections_cancel_a_copy(stopped: TransferFailure)
    requires
        stopped@ == relay_disconnected(),
    ensures
        stopped.status == FailureStatus::Cancelled,
        stopped.invalidate_operator,
        stopped.message@ == "The file connection was removed while the remote copy was running"@,
{
}

/// A copy that stops is told why: it was cancelled, nothing moved for too long, a
/// side failed, or the source has another size than it had.
pub proof fn stopped_copies_are_told_why(
    before: RelayStream,
    read: Timed<Result<usize, String>>,
    buffer: Seq<u8>,
    write: Result<bool, TransferFailure>,
    between: RelayStream,
    written: Timed<Result<(), String>>,
    now: u64,
    told: TransferProgressSnapshot,
    update: Result<Option<PhaseUpdate>, TransferFailure>,
    after: RelayStream,
    told_then: TransferProgressSnapshot,
)
    requires
        piece_read_leads_to(before, read, buffer, write, between),
        piece_written_leads_to(between, written, now, told, update, after, told_then),
    ensures
        read is TransferCancelled ==> write is Err && write->Err_0.message@ == "Download cancelled"@
            && write->Err_0.status == FailureStatus::Cancelled,
        read is TimedOut ==> write is Err && write->Err_0.message@
            == "Remote copy read made no progress before the I/O watchdog expired"@ && write->Err_0.status
            == FailureStatus::Failed,
        read matches Timed::Finished(Err(error)) ==> write is Err && write->Err_0.message@ == error@
            && write->Err_0.status == FailureStatus::Failed,
        written is TransferCancelled ==> update is Err && update->Err_0.message@ == "Download cancelled"@
            && update->Err_0.status == FailureStatus::Cancelled,
        written is TimedOut ==> update is Err && update->Err_0.message@
            == "Remote copy write made no progress before the I/O watchdog expired"@ && update->Err_0.status
            == FailureStatus::Failed,
        written matches Timed::Finished(Err(error)) ==> update is Err && update->Err_0.message@ == error@
            && update->Err_0.status == FailureStatus::Failed,
        write matches Err(stopped) ==> stopped.invalidate_operator,
        update matches Err(stopped) ==> stopped.invalidate_operator,
        read is ConnectionRemoved ==> write is Err && write->Err_0.status == FailureStatus::Cancelled,
        written is ConnectionRemoved ==> update is Err && update->Err_0.status == FailureStatus::Cancelled,
{
}

/// A copy that is not closed is told why, and one that came short is told both
/// sizes.
pub proof fn unclosed_copies_are_told_why(
    stream: RelayStream,
    next: Result<RelayClosing, RelayAbort>,
    closing: RelayClosing,
    reply: Bounded<Result<(), String>>,
    end: Result<RelayClosed, RelayAbort>,
    expected_size: u64,
    expected_hash: Seq<char>,
    actual_size: u64,
    actual_hash: Seq<char>,
)
    requires
        end_leads_to(stream, next),
        close_leads_to(closing, reply, end),
    ensures
        next matches Err(abort) ==> abort.failure.message@ == "Remote source size changed during copy: expected "@
            + text::signed_text(stream.work.total_bytes as int) + ", copied "@ + text::signed_text(
            stream.bytes_transferred as int,
        ),
        reply is TimedOut ==> end is Err && end->Err_0.failure.message@
            == "Closing the remote copy destination timed out"@,
        partial_mismatch(expected_size, expected_hash, actual_size, actual_hash)
            == "Operation-owned partial content mismatch: expected "@ + text::decimal_text(expected_size as nat)
            + " bytes and relay SHA-256 "@ + expected_hash + ", actual "@ + text::decimal_text(actual_size as nat)
            + " bytes and SHA-256 "@ + actual_hash + "; partial was preserved"@,
{
}

} // verus!
