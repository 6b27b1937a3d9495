//! An upload: the bytes go to a partial next to the remote file, and the partial
//! becomes the remote file once it was closed.
//!
//! Every type here stands for one request that is due. Its methods take the
//! reply and give the next request, or the end of the upload.
use crate::backend;
use crate::backend::error_kind;
use crate::backend::BackendErrorKind;
use crate::failure;
use crate::failure::cancelled_during;
use crate::failure::local_failure;
use crate::failure::partial_failure;
use crate::failure::remote_failure;
use crate::failure::resolve_successful_upload_abort;
use crate::failure::resolve_upload_cleanup;
use crate::failure::upload_cancelled_active_failure;
use crate::failure::upload_cancelled_failure;
use crate::failure::FailureView;
use crate::failure::TransferFailure;
use crate::failure::TransferStatus;
use crate::failure::UploadFailure;
use crate::failure::UploadFailureView;
use crate::finish::TransferUpdate;
use crate::finish::TransferUpdateView;
use crate::finish::UploadOutcome;
use crate::local_source;
use crate::local_source::verify_upload_source_unchanged;
use crate::local_source::SourceLook;
use crate::local_source::UploadSourceProof;
use crate::progress;
use crate::progress::progress_is_due;
use crate::progress::saturating_count;
use crate::progress::TransferProgressSnapshot;
use crate::publish::UploadAbortError;
use crate::publish::UploadPublishResolution;
use crate::publish::UploadPublishState;
use crate::reply::Bounded;
use crate::reply::Timed;
use crate::text;
use crate::text::joined2;
use crate::text::sanitize_error;
use crate::text::same_text;
use vstd::prelude::*;

verus! {

/// The size of the pieces of an upload.
pub const UPLOAD_BUFFER_SIZE: usize = 4194304;

/// The size of the pieces of an upload to a server that copies by itself.
pub const S3_UPLOAD_BUFFER_SIZE: usize = 8388608;

/// How long a transfer may take, in milliseconds.
pub const OPERATION_TIMEOUT_MILLIS: u64 = 86400000;

/// How long a transfer may make no progress, in milliseconds.
pub const IO_WATCHDOG_MILLIS: u64 = 30000;

/// What an upload is about.
#[derive(Debug)]
pub struct UploadJob {
    pub target_relative: String,
    pub partial_relative: String,
    /// What the local file was opened with.
    pub source: UploadSourceProof,
    /// The server copies by itself.
    pub server_side_copy: bool,
    /// The upload goes out as one PUT.
    pub streaming_webdav: bool,
}

/// What is found where the upload is to go.
#[derive(Debug)]
pub enum TargetStat {
    Found,
    NotFound,
    Failed(String),
}

/// What a service answered where the upload is to go: `shown` is what an error
/// says.
pub fn target_stat(answer: Result<(), opendal::Error>, shown: String) -> (stat: TargetStat)
    ensures
        stat == (match answer {
            Ok(_) => TargetStat::Found,
            Err(error) => if backend::kind_of(error) == BackendErrorKind::NotFound {
                TargetStat::NotFound
            } else {
                TargetStat::Failed(shown)
            },
        }),
{
    match answer {
        Ok(_) => TargetStat::Found,
        Err(error) => if error_kind(&error) == BackendErrorKind::NotFound {
            TargetStat::NotFound
        } else {
            TargetStat::Failed(shown)
        },
    }
}

/// An upload that failed and left nothing behind.
pub fn stop_upload(failure: TransferFailure) -> (stopped: UploadFailure)
    ensures
        stopped@ == failure::upload_failed(failure@),
{
    UploadFailure::from(failure)
}

/// What is said where the remote file must not exist yet.
pub open spec fn target_absent(reply: Bounded<TargetStat>) -> Result<(), FailureView> {
    match reply {
        Bounded::Finished(TargetStat::NotFound) => Ok(()),
        Bounded::Finished(TargetStat::Found) => Err(
            failure::remote_failed("Remote upload destination already exists"@),
        ),
        Bounded::Finished(TargetStat::Failed(error)) => Err(failure::remote_failed(error@)),
        Bounded::TimedOut => Err(
            failure::remote_failed("Checking the remote upload destination timed out"@),
        ),
    }
}

/// The upload goes on only where there is no remote file yet.
pub fn ensure_remote_target_absent(reply: Bounded<TargetStat>) -> (absent: Result<(), TransferFailure>)
    ensures
        match absent {
            Ok(_) => target_absent(reply) is Ok,
            Err(stopped) => target_absent(reply) == Err::<(), FailureView>(stopped@),
        },
{
    match reply {
        Bounded::Finished(TargetStat::NotFound) => Ok(()),
        Bounded::Finished(TargetStat::Found) => Err(
            remote_failure("Remote upload destination already exists".to_owned()),
        ),
        Bounded::Finished(TargetStat::Failed(error)) => Err(remote_failure(error)),
        Bounded::TimedOut => Err(
            remote_failure("Checking the remote upload destination timed out".to_owned()),
        ),
    }
}

/// Due: whether the remote file may be written there.
#[non_exhaustive]
#[derive(Debug)]
pub struct UploadStart {
    pub job: UploadJob,
}

/// Due: whether the partial may be written there.
#[non_exhaustive]
#[derive(Debug)]
pub struct UploadPartialGuard {
    pub job: UploadJob,
}

/// Due: whether the remote file exists.
#[non_exhaustive]
#[derive(Debug)]
pub struct UploadTargetCheck {
    pub job: UploadJob,
}

/// The way that an upload takes.
#[derive(Debug)]
pub enum UploadRoute {
    Empty(EmptyUpload),
    Webdav(WebdavUpload),
    Stream(UploadWriterOpening),
}

/// Due: a writer to the partial.
#[non_exhaustive]
#[derive(Debug)]
pub struct UploadWriterOpening {
    pub job: UploadJob,
}

/// Due: the next piece of the local file, or its way to the partial.
#[non_exhaustive]
#[derive(Debug)]
pub struct UploadStream {
    pub job: UploadJob,
    pub bytes_transferred: i64,
    /// The size of the piece that is being written.
    pub piece: usize,
    /// When progress was last written down, in milliseconds.
    pub last_progress: u64,
    /// When the upload began, in milliseconds.
    pub started: u64,
}

/// Due: whether the remote file still does not exist, once all was written.
#[non_exhaustive]
#[derive(Debug)]
pub struct UploadTargetRecheck {
    pub job: UploadJob,
    pub bytes_transferred: i64,
}

/// Due: closing the writer.
#[non_exhaustive]
#[derive(Debug)]
pub struct UploadClosing {
    pub job: UploadJob,
    pub bytes_transferred: i64,
}

/// Due: aborting the writer of an upload that failed.
#[non_exhaustive]
#[derive(Debug)]
pub struct UploadAbort {
    pub job: UploadJob,
    pub failure: TransferFailure,
}

/// Due: removing the partial of an upload that failed.
#[non_exhaustive]
#[derive(Debug)]
pub struct UploadCleanup {
    pub partial_relative: String,
    pub failure: TransferFailure,
    pub abort_outcome: String,
}

/// How an upload stops: at once, or after its partial was removed.
#[derive(Debug)]
pub enum UploadStop {
    Stopped(UploadFailure),
    Cleanup(UploadCleanup),
}

/// Due: whether the local file is still what was uploaded. The partial is
/// closed.
#[non_exhaustive]
#[derive(Debug)]
pub struct ClosedUpload {
    pub job: UploadJob,
    pub bytes_transferred: i64,
}

/// Due: writing down that the partial is about to become the remote file. The
/// partial holds the whole local file.
#[non_exhaustive]
#[derive(Debug)]
pub struct UploadPublishing {
    pub job: UploadJob,
    pub update: TransferUpdate,
}

/// Due: making the partial the remote file. The partial holds the whole local
/// file.
#[non_exhaustive]
#[derive(Debug)]
pub struct UploadPublish {
    pub job: UploadJob,
}

/// What is counted of an upload before anything was sent.
pub fn upload_progress(source: &UploadSourceProof) -> (snapshot: TransferProgressSnapshot)
    ensures
        snapshot.counted_bytes() == 0,
        snapshot.known_total() == progress::usable_total(Some(source.total_bytes)),
{
    let mut snapshot = TransferProgressSnapshot::new();
    snapshot.record_total(Some(source.total_bytes));
    snapshot
}

/// Begins an upload.
pub fn execute_upload(job: UploadJob) -> (start: UploadStart)
    ensures
        start.job == job,
{
    UploadStart { job }
}

impl UploadStart {
    /// Takes whether the remote file may be written there.
    pub fn target_guarded(self, reply: Result<(), String>) -> (next: Result<UploadPartialGuard, UploadFailure>)
        ensures
            match reply {
                Err(error) => next matches Err(stopped) && stopped@ == failure::upload_failed(
                    failure::remote_failed(error@),
                ),
                Ok(_) => next matches Ok(guard) && guard.job == self.job,
            },
    {
        match reply {
            Err(error) => Err(stop_upload(remote_failure(error))),
            Ok(_) => Ok(UploadPartialGuard { job: self.job }),
        }
    }
}

impl UploadPartialGuard {
    /// Takes whether the partial may be written there.
    pub fn partial_guarded(self, reply: Result<(), String>) -> (next: Result<UploadTargetCheck, UploadFailure>)
        ensures
            match reply {
                Err(error) => next matches Err(stopped) && stopped@ == failure::upload_failed(
                    failure::remote_failed(error@),
                ),
                Ok(_) => next matches Ok(check) && check.job == self.job,
            },
    {
        match reply {
            Err(error) => Err(stop_upload(remote_failure(error))),
            Ok(_) => Ok(UploadTargetCheck { job: self.job }),
        }
    }
}

impl UploadTargetCheck {
    /// Takes whether the remote file exists. Picks the way of the upload.
    pub fn target_checked(self, reply: Bounded<TargetStat>) -> (next: Result<UploadRoute, UploadFailure>)
        ensures
            match target_absent(reply) {
                Err(refused) => next matches Err(stopped) && stopped@ == failure::upload_failed(refused),
                Ok(_) => if self.job.source.total_bytes == 0 {
                    next matches Ok(UploadRoute::Empty(empty)) && empty.job == self.job
                } else if self.job.streaming_webdav {
                    next matches Ok(UploadRoute::Webdav(webdav)) && webdav.job == self.job
                } else {
                    next matches Ok(UploadRoute::Stream(opening)) && opening.job == self.job
                },
            },
    {
        match ensure_remote_target_absent(reply) {
            Err(refused) => Err(stop_upload(refused)),
            Ok(_) => {
                if self.job.source.total_bytes == 0 {
                    Ok(UploadRoute::Empty(EmptyUpload { job: self.job }))
                } else if self.job.streaming_webdav {
                    Ok(UploadRoute::Webdav(WebdavUpload { job: self.job }))
                } else {
                    Ok(UploadRoute::Stream(UploadWriterOpening { job: self.job }))
                }
            },
        }
    }
}

impl UploadWriterOpening {
    /// The size of the pieces, before the connection's own limit.
    pub fn piece_size(&self) -> (size: usize)
        ensures
            size == (if self.job.server_side_copy {
                S3_UPLOAD_BUFFER_SIZE
            } else {
                UPLOAD_BUFFER_SIZE
            }),
    {
        if self.job.server_side_copy {
            S3_UPLOAD_BUFFER_SIZE
        } else {
            UPLOAD_BUFFER_SIZE
        }
    }

    /// The size that the writer is told to expect.
    pub fn expected_size(&self) -> (size: u64)
        ensures
            size == (if self.job.source.total_bytes < 0 {
                u64::MAX as int
            } else {
                self.job.source.total_bytes as int
            }),
    {
        if self.job.source.total_bytes < 0 {
            u64::MAX
        } else {
            self.job.source.total_bytes as u64
        }
    }

    /// Takes whether the partial could be opened.
    pub fn writer_opened(self, reply: Timed<Result<(), String>>, now: u64) -> (next: Result<
        UploadStream,
        UploadFailure,
    >)
        ensures
            match reply {
                Timed::TransferCancelled => next matches Err(stopped) && stopped@ == failure::upload_failed(
                    failure::cancelled_idle("Upload cancelled"@),
                ),
                Timed::ConnectionRemoved => next matches Err(stopped) && stopped@ == failure::upload_failed(
                    failure::cancelled_active("The file connection was removed while the upload was queued"@),
                ),
                Timed::TimedOut => next matches Err(stopped) && stopped@ == failure::upload_failed(
                    failure::remote_failed("Opening the remote upload timed out"@),
                ),
                Timed::Finished(Err(error)) => next matches Err(stopped) && stopped@ == failure::upload_failed(
                    failure::remote_failed(error@),
                ),
                Timed::Finished(Ok(_)) => next matches Ok(stream) && stream.job == self.job
                    && stream.is_fresh() && stream.last_progress == now && stream.started == now,
            },
    {
        match reply {
            Timed::TransferCancelled => Err(stop_upload(upload_cancelled_failure())),
            Timed::ConnectionRemoved => Err(
                stop_upload(
                    cancelled_during(
                        "The file connection was removed while the upload was queued".to_owned(),
                    ),
                ),
            ),
            Timed::TimedOut => Err(
                stop_upload(remote_failure("Opening the remote upload timed out".to_owned())),
            ),
            Timed::Finished(Err(error)) => Err(stop_upload(remote_failure(error))),
            Timed::Finished(Ok(_)) => Ok(
                UploadStream {
                    job: self.job,
                    bytes_transferred: 0,
                    piece: 0,
                    last_progress: now,
                    started: now,
                },
            ),
        }
    }
}

/// An upload that lost its connection on the way.
pub open spec fn upload_disconnected() -> FailureView {
    failure::cancelled_active("The file connection was removed while the upload was running"@)
}

fn stop_disconnected_upload() -> (stopped: TransferFailure)
    ensures
        stopped@ == upload_disconnected(),
{
    cancelled_during("The file connection was removed while the upload was running".to_owned())
}

/// What is written down of an upload that goes on.
pub open spec fn upload_update(status: TransferStatus, job: UploadJob, bytes: i64) -> TransferUpdateView {
    TransferUpdateView {
        status,
        bytes_transferred: bytes,
        total_bytes: Some(job.source.total_bytes),
        temp_path: Some(job.partial_relative@),
        temp_identity: Some(job.source.fingerprint@),
        error: None,
        finished: false,
    }
}

fn make_upload_update(status: TransferStatus, job: &UploadJob, bytes: i64) -> (update: TransferUpdate)
    ensures
        update@ == upload_update(status, *job, bytes),
{
    TransferUpdate {
        status,
        bytes_transferred: bytes,
        total_bytes: Some(job.source.total_bytes),
        temp_path: Some(job.partial_relative.clone()),
        temp_identity: Some(job.source.fingerprint.clone()),
        error: None,
        finished: false,
    }
}

/// What follows another look at the local file, once it came to its end.
pub open spec fn source_check_leads_to(
    stream: UploadStream,
    look: SourceLook,
    next: Result<UploadTargetRecheck, UploadAbort>,
) -> bool {
    match local_source::still_unchanged(stream.job.source, look, stream.bytes_transferred) {
        Err(reason) => next matches Err(abort) && abort.job == stream.job && abort.failure@ == failure::local_failed(
            reason,
        ),
        Ok(_) => next matches Ok(recheck) && recheck.job == stream.job && recheck.bytes_transferred
            == stream.bytes_transferred && recheck.bytes_transferred == stream.job.source.total_bytes,
    }
}

/// The time that an upload may take is over.
pub open spec fn is_overdue(started: u64, now: u64) -> bool {
    now - started >= OPERATION_TIMEOUT_MILLIS
}

/// What follows the size of the next piece, or the want of one.
pub open spec fn piece_read_leads_to(
    before: UploadStream,
    reply: Timed<Result<usize, String>>,
    write: Result<bool, TransferFailure>,
    after: UploadStream,
) -> bool {
    &&& after.job == before.job
    &&& after.bytes_transferred == before.bytes_transferred
    &&& after.last_progress == before.last_progress
    &&& after.started == before.started
    &&& after.piece == (match reply {
        Timed::Finished(Ok(count)) => count,
        _ => before.piece,
    })
    &&& match reply {
        Timed::TransferCancelled => write matches Err(stopped) && stopped@ == failure::cancelled_active(
            "Upload cancelled"@,
        ),
        Timed::ConnectionRemoved => write matches Err(stopped) && stopped@ == upload_disconnected(),
        Timed::TimedOut => write matches Err(stopped) && stopped@ == failure::local_failed(
            "Local upload read made no progress before the I/O watchdog expired"@,
        ),
        Timed::Finished(Err(error)) => write matches Err(stopped) && stopped@ == failure::local_failed(
            "Failed to read the upload source: "@ + error@,
        ),
        Timed::Finished(Ok(count)) => write == Ok::<bool, TransferFailure>(count != 0),
    }
}

/// What follows the writing of a piece, and what is told of it.
pub open spec fn piece_written_leads_to(
    before: UploadStream,
    reply: Timed<Result<(), String>>,
    now: u64,
    told: TransferProgressSnapshot,
    update: Result<Option<TransferUpdate>, TransferFailure>,
    after: UploadStream,
    told_then: TransferProgressSnapshot,
) -> bool {
    &&& after.job == before.job
    &&& after.last_progress == before.last_progress
    &&& after.started == before.started
    &&& match reply {
        Timed::Finished(Ok(_)) => after.bytes_transferred == progress::saturating_sum(
            before.bytes_transferred as int,
            before.piece as int,
        ) && after.piece == 0 && progress::bytes_recorded(
            told,
            after.bytes_transferred,
            told_then,
        ),
        _ => after.bytes_transferred == before.bytes_transferred && after.piece
            == before.piece && told_then == told,
    }
    &&& match reply {
        Timed::TransferCancelled => update matches Err(stopped) && stopped@ == failure::cancelled_active(
            "Upload cancelled"@,
        ),
        Timed::ConnectionRemoved => update matches Err(stopped) && stopped@ == upload_disconnected(),
        Timed::TimedOut => update matches Err(stopped) && stopped@ == failure::remote_failed(
            "Remote upload write made no progress before the I/O watchdog expired"@,
        ),
        Timed::Finished(Err(error)) => update matches Err(stopped) && stopped@ == failure::remote_failed(
            error@,
        ),
        Timed::Finished(Ok(_)) => match update {
            Ok(Some(due)) => progress::is_due(before.last_progress, now) && due@ == upload_update(
                TransferStatus::Running,
                before.job,
                after.bytes_transferred,
            ),
            Ok(None) => !progress::is_due(before.last_progress, now),
            Err(_) => false,
        },
    }
}

/// What follows an update that was to be written down.
pub open spec fn progress_persisted_leads_to(
    before: UploadStream,
    reply: Result<(), String>,
    now: u64,
    result: Result<(), TransferFailure>,
    after: UploadStream,
) -> bool {
    &&& after.job == before.job
    &&& after.bytes_transferred == before.bytes_transferred
    &&& after.piece == before.piece
    &&& after.started == before.started
    &&& match reply {
        Err(error) => result matches Err(stopped) && stopped@ == failure::local_failed(error@)
            && after.last_progress == before.last_progress,
        Ok(_) => result is Ok && after.last_progress == now,
    }
}

impl UploadStream {
    /// Nothing was read or written.
    pub open spec fn is_fresh(&self) -> bool {
        self.bytes_transferred == 0 && self.piece == 0
    }

    /// The next piece may be read while there is time.
    pub fn piece_due(&self, now: u64) -> (due: Result<(), TransferFailure>)
        ensures
            match due {
                Ok(_) => !is_overdue(self.started, now),
                Err(stopped) => is_overdue(self.started, now) && stopped@ == failure::remote_failed(
                    "Upload operation timed out"@,
                ),
            },
    {
        if now >= self.started && now - self.started >= OPERATION_TIMEOUT_MILLIS {
            Err(remote_failure("Upload operation timed out".to_owned()))
        } else {
            Ok(())
        }
    }

    /// Takes the size of the next piece of the local file. Says whether it is to
    /// be written: an empty piece is the end.
    pub fn piece_read(&mut self, reply: Timed<Result<usize, String>>) -> (write: Result<bool, TransferFailure>)
        ensures
            piece_read_leads_to(*old(self), reply, write, *final(self)),
    {
        match reply {
            Timed::TransferCancelled => Err(upload_cancelled_active_failure()),
            Timed::ConnectionRemoved => Err(stop_disconnected_upload()),
            Timed::TimedOut => Err(
                local_failure(
                    "Local upload read made no progress before the I/O watchdog expired".to_owned(),
                ),
            ),
            Timed::Finished(Err(error)) => Err(
                local_failure(joined2("Failed to read the upload source: ", error.as_str())),
            ),
            Timed::Finished(Ok(count)) => {
                self.piece = count;
                Ok(count != 0)
            },
        }
    }

    /// Takes whether the piece that was read was written, and counts it. Gives
    /// the update that is due by then.
    pub fn piece_written(
        &mut self,
        reply: Timed<Result<(), String>>,
        now: u64,
        progress: &mut TransferProgressSnapshot,
    ) -> (update: Result<Option<TransferUpdate>, TransferFailure>)
        ensures
            piece_written_leads_to(*old(self), reply, now, *old(progress), update, *final(self), *final(progress)),
    {
        match reply {
            Timed::TransferCancelled => Err(upload_cancelled_active_failure()),
            Timed::ConnectionRemoved => Err(stop_disconnected_upload()),
            Timed::TimedOut => Err(
                remote_failure(
                    "Remote upload write made no progress before the I/O watchdog expired".to_owned(),
                ),
            ),
            Timed::Finished(Err(error)) => Err(remote_failure(error)),
            Timed::Finished(Ok(_)) => {
                self.bytes_transferred = saturating_count(self.bytes_transferred, self.piece);
                self.piece = 0;
                progress.record_bytes(self.bytes_transferred);
                if progress_is_due(self.last_progress, now) {
                    Ok(
                        Some(
                            make_upload_update(
                                TransferStatus::Running,
                                &self.job,
                                self.bytes_transferred,
                            ),
                        ),
                    )
                } else {
                    Ok(None)
                }
            },
        }
    }

    /// Takes whether an update could be written down.
    pub fn progress_persisted(&mut self, reply: Result<(), String>, now: u64) -> (result: Result<(), TransferFailure>)
        ensures
            progress_persisted_leads_to(*old(self), reply, now, result, *final(self)),
    {
        match reply {
            Err(error) => Err(local_failure(error)),
            Ok(_) => {
                self.last_progress = now;
                Ok(())
            },
        }
    }

    /// Takes that the upload failed: the writer has to be aborted.
    pub fn failed(self, failure: TransferFailure) -> (abort: UploadAbort)
        ensures
            abort.job == self.job,
            abort.failure == failure,
    {
        UploadAbort { job: self.job, failure }
    }

    /// Takes another look at the local file, once it came to its end: the upload
    /// goes on only where all of it was sent and it is still the one that was
    /// opened.
    pub fn source_checked(self, look: SourceLook) -> (next: Result<UploadTargetRecheck, UploadAbort>)
        ensures
            source_check_leads_to(self, look, next),
    {
        match verify_upload_source_unchanged(&self.job.source, look, self.bytes_transferred) {
            Err(error) => Err(UploadAbort { job: self.job, failure: local_failure(error) }),
            Ok(_) => Ok(
                UploadTargetRecheck { job: self.job, bytes_transferred: self.bytes_transferred },
            ),
        }
    }
}

/// What follows the second look where the upload is to go.
pub open spec fn recheck_leads_to(
    recheck: UploadTargetRecheck,
    reply: Bounded<TargetStat>,
    next: Result<UploadClosing, UploadAbort>,
) -> bool {
    match target_absent(reply) {
        Err(refused) => next matches Err(abort) && abort.job == recheck.job && abort.failure@ == refused,
        Ok(_) => next matches Ok(closing) && closing.job == recheck.job && closing.bytes_transferred
            == recheck.bytes_transferred,
    }
}

impl UploadTargetRecheck {
    /// Takes whether the remote file exists.
    pub fn target_checked(self, reply: Bounded<TargetStat>) -> (next: Result<UploadClosing, UploadAbort>)
        ensures
            recheck_leads_to(self, reply, next),
    {
        match ensure_remote_target_absent(reply) {
            Err(refused) => Err(UploadAbort { job: self.job, failure: refused }),
            Ok(_) => Ok(UploadClosing { job: self.job, bytes_transferred: self.bytes_transferred }),
        }
    }
}

/// What follows the closing of the writer.
pub open spec fn close_leads_to(
    closing: UploadClosing,
    reply: Bounded<Result<(), String>>,
    next: Result<ClosedUpload, UploadAbort>,
) -> bool {
    match reply {
        Bounded::TimedOut => next matches Err(abort) && abort.job == closing.job && abort.failure@
            == failure::remote_failed("Closing the remote upload timed out"@),
        Bounded::Finished(Err(error)) => next matches Err(abort) && abort.job == closing.job && abort.failure@
            == failure::remote_failed(error@),
        Bounded::Finished(Ok(_)) => next matches Ok(closed) && closed.job == closing.job
            && closed.bytes_transferred == closing.bytes_transferred,
    }
}

impl UploadClosing {
    /// Takes whether the writer could be closed.
    pub fn writer_closed(self, reply: Bounded<Result<(), String>>) -> (next: Result<ClosedUpload, UploadAbort>)
        ensures
            close_leads_to(self, reply, next),
    {
        match reply {
            Bounded::TimedOut => Err(
                UploadAbort {
                    job: self.job,
                    failure: remote_failure("Closing the remote upload timed out".to_owned()),
                },
            ),
            Bounded::Finished(Err(error)) => Err(
                UploadAbort { job: self.job, failure: remote_failure(error) },
            ),
            Bounded::Finished(Ok(_)) => Ok(
                ClosedUpload { job: self.job, bytes_transferred: self.bytes_transferred },
            ),
        }
    }
}

/// What follows the abort of a writer.
pub open spec fn abort_leads_to(
    job: UploadJob,
    failure: TransferFailure,
    reply: Bounded<Result<(), UploadAbortError>>,
    next: UploadStop,
) -> bool {
    match reply {
        Bounded::Finished(Ok(_)) => next matches UploadStop::Stopped(stopped) && stopped@ == failure::upload_aborted(
            failure@,
        ),
        Bounded::Finished(Err(UploadAbortError::Unsupported)) => next matches UploadStop::Cleanup(cleanup)
            && cleanup.partial_relative@ == job.partial_relative@ && cleanup.failure == failure
            && cleanup.abort_outcome@ == "unsupported"@,
        Bounded::Finished(Err(UploadAbortError::Failed(error))) => next matches UploadStop::Cleanup(cleanup)
            && cleanup.partial_relative@ == job.partial_relative@ && cleanup.failure == failure
            && cleanup.abort_outcome@ == "failed: "@ + text::sanitized(error@),
        Bounded::TimedOut => next matches UploadStop::Stopped(stopped) && stopped@ == (UploadFailureView {
            failure: failure::partly_failed(
                failure.message@ + "; writer abort timed out; operation-owned partial was preserved"@,
            ),
            partial_destination: Some(job.partial_relative@),
            abort_outcome: Some("timed_out"@),
            publish_outcome: None,
        }),
    }
}

impl UploadAbort {
    /// Takes what came of the abort. After an abort that was not answered in
    /// time the partial may still be written to, so it is left alone.
    pub fn aborted(self, reply: Bounded<Result<(), UploadAbortError>>) -> (next: UploadStop)
        requires
            reply matches Bounded::Finished(Err(UploadAbortError::Failed(error))) ==> text::can_be_cut(error@),
        ensures
            abort_leads_to(self.job, self.failure, reply, next),
    {
        match reply {
            Bounded::Finished(Ok(_)) => UploadStop::Stopped(resolve_successful_upload_abort(self.failure)),
            Bounded::Finished(Err(UploadAbortError::Unsupported)) => UploadStop::Cleanup(
                UploadCleanup {
                    partial_relative: self.job.partial_relative,
                    failure: self.failure,
                    abort_outcome: "unsupported".to_owned(),
                },
            ),
            Bounded::Finished(Err(UploadAbortError::Failed(error))) => {
                let kept = sanitize_error(error.as_str());
                UploadStop::Cleanup(
                    UploadCleanup {
                        partial_relative: self.job.partial_relative,
                        failure: self.failure,
                        abort_outcome: joined2("failed: ", kept.as_str()),
                    },
                )
            },
            Bounded::TimedOut => {
                let message = joined2(
                    self.failure.message.as_str(),
                    "; writer abort timed out; operation-owned partial was preserved",
                );
                UploadStop::Stopped(
                    UploadFailure {
                        failure: partial_failure(message),
                        partial_destination: Some(self.job.partial_relative),
                        abort_outcome: Some("timed_out".to_owned()),
                        publish_outcome: None,
                    },
                )
            },
        }
    }
}

/// What is said of a clean-up that took too long.
pub open spec fn cleanup_timed_out() -> Seq<char> {
    "operation-owned partial cleanup timed out"@
}

/// The partial of a failed upload was removed, or was not.
pub open spec fn cleanup_settled(cleanup: UploadCleanup, reply: Bounded<Result<(), String>>) -> UploadFailureView {
    match reply {
        Bounded::Finished(result) => failure::upload_cleanup(
            cleanup.failure@,
            cleanup.abort_outcome@,
            result,
            cleanup.partial_relative@,
        ),
        Bounded::TimedOut => UploadFailureView {
            failure: failure::partly_failed(
                cleanup.failure.message@ + "; operation-owned partial cleanup failed safely: "@
                    + cleanup_timed_out(),
            ),
            partial_destination: Some(cleanup.partial_relative@),
            abort_outcome: Some(cleanup.abort_outcome@),
            publish_outcome: None,
        },
    }
}

impl UploadCleanup {
    /// Takes whether the partial was removed.
    pub fn cleaned(self, reply: Bounded<Result<(), String>>) -> (stopped: UploadFailure)
        requires
            reply matches Bounded::Finished(Err(error)) ==> text::can_be_cut(error@),
        ensures
            stopped@ == cleanup_settled(self, reply),
    {
        match reply {
            Bounded::Finished(result) => resolve_upload_cleanup(
                self.failure,
                self.abort_outcome,
                result,
                self.partial_relative.as_str(),
            ),
            Bounded::TimedOut => {
                let late = "operation-owned partial cleanup timed out".to_owned();
                proof {
                    reveal_strlit("operation-owned partial cleanup timed out");
                    text::lemma_short_text_is_kept(late@);
                }
                resolve_upload_cleanup(
                    self.failure,
                    self.abort_outcome,
                    Err(late),
                    self.partial_relative.as_str(),
                )
            },
        }
    }
}

/// The partial of a closed upload is to be removed after a failure.
pub open spec fn cleans_closed(cleanup: UploadCleanup, job: UploadJob, failure: FailureView) -> bool {
    &&& cleanup.partial_relative@ == job.partial_relative@
    &&& cleanup.failure@ == failure
    &&& cleanup.abort_outcome@ == "not_applicable_after_close"@
}

/// Removes the partial of a closed upload after a failure.
pub fn cleanup_closed_upload_partial(job: UploadJob, failure: TransferFailure) -> (cleanup: UploadCleanup)
    ensures
        cleans_closed(cleanup, job, failure@),
{
    UploadCleanup {
        partial_relative: job.partial_relative,
        failure,
        abort_outcome: "not_applicable_after_close".to_owned(),
    }
}

/// What follows another look at the local file, once the partial was closed.
pub open spec fn closed_check_leads_to(
    closed: ClosedUpload,
    look: SourceLook,
    cancelled: bool,
    removed: bool,
    next: Result<UploadPublishing, UploadCleanup>,
) -> bool {
    match local_source::still_unchanged(closed.job.source, look, closed.bytes_transferred) {
        Err(reason) => next matches Err(cleanup) && cleans_closed(
            cleanup,
            closed.job,
            failure::local_failed(reason),
        ),
        Ok(_) => if cancelled {
            next matches Err(cleanup) && cleans_closed(
                cleanup,
                closed.job,
                failure::cancelled_active("Upload cancelled"@),
            )
        } else if removed {
            next matches Err(cleanup) && cleans_closed(
                cleanup,
                closed.job,
                failure::cancelled_active(
                    "The file connection was removed after the upload closed and before publish"@,
                ),
            )
        } else {
            next matches Ok(publishing) && publishing.job == closed.job && closed.bytes_transferred
                == closed.job.source.total_bytes && publishing.update@ == upload_update(
                TransferStatus::Publishing,
                closed.job,
                closed.bytes_transferred,
            )
        },
    }
}

impl ClosedUpload {
    /// Takes another look at the local file, and whether the transfer was
    /// cancelled or its connection removed by then. The partial is published
    /// only where it holds the whole file that was opened.
    pub fn source_checked(self, look: SourceLook, cancelled: bool, removed: bool) -> (next: Result<
        UploadPublishing,
        UploadCleanup,
    >)
        ensures
            closed_check_leads_to(self, look, cancelled, removed, next),
    {
        match verify_upload_source_unchanged(&self.job.source, look, self.bytes_transferred) {
            Err(error) => Err(cleanup_closed_upload_partial(self.job, local_failure(error))),
            Ok(_) => {
                if cancelled {
                    Err(cleanup_closed_upload_partial(self.job, upload_cancelled_active_failure()))
                } else if removed {
                    Err(
                        cleanup_closed_upload_partial(
                            self.job,
                            cancelled_during(
                                "The file connection was removed after the upload closed and before publish".to_owned(),
                            ),
                        ),
                    )
                } else {
                    let update = make_upload_update(
                        TransferStatus::Publishing,
                        &self.job,
                        self.bytes_transferred,
                    );
                    Ok(UploadPublishing { job: self.job, update })
                }
            },
        }
    }
}

/// What follows the writing down that the partial is about to become the remote
/// file.
pub open spec fn publishing_leads_to(
    publishing: UploadPublishing,
    reply: Result<String, String>,
    cancelled: bool,
    removed: bool,
    next: Result<UploadPublish, UploadCleanup>,
) -> bool {
    match reply {
        Err(error) => next matches Err(cleanup) && cleans_closed(
            cleanup,
            publishing.job,
            failure::local_failed("Failed to persist upload publishing state: "@ + error@),
        ),
        Ok(status) => if status@ == "cancelling"@ || cancelled {
            next matches Err(cleanup) && cleans_closed(
                cleanup,
                publishing.job,
                failure::cancelled_active("Upload cancelled"@),
            )
        } else if removed {
            next matches Err(cleanup) && cleans_closed(
                cleanup,
                publishing.job,
                failure::cancelled_active("The file connection was removed before upload publish"@),
            )
        } else {
            next matches Ok(publish) && publish.job == publishing.job
        },
    }
}

impl UploadPublishing {
    /// Takes the status that the transfer has now that the update was written
    /// down, and whether it was cancelled or its connection removed by then.
    pub fn persisted(self, reply: Result<String, String>, cancelled: bool, removed: bool) -> (next: Result<
        UploadPublish,
        UploadCleanup,
    >)
        ensures
            publishing_leads_to(self, reply, cancelled, removed, next),
    {
        match reply {
            Err(error) => Err(
                cleanup_closed_upload_partial(
                    self.job,
                    local_failure(
                        joined2("Failed to persist upload publishing state: ", error.as_str()),
                    ),
                ),
            ),
            Ok(status) => {
                if same_text(status.as_str(), "cancelling") || cancelled {
                    Err(cleanup_closed_upload_partial(self.job, upload_cancelled_active_failure()))
                } else if removed {
                    Err(
                        cleanup_closed_upload_partial(
                            self.job,
                            cancelled_during(
                                "The file connection was removed before upload publish".to_owned(),
                            ),
                        ),
                    )
                } else {
                    Ok(UploadPublish { job: self.job })
                }
            },
        }
    }
}

/// An upload whose publish was not completed.
pub open spec fn publish_failed(
    message: Seq<char>,
    left: Option<Seq<char>>,
    publish_outcome: Seq<char>,
) -> UploadFailureView {
    UploadFailureView {
        failure: failure::partly_failed(message),
        partial_destination: left,
        abort_outcome: Some("not_applicable_after_close"@),
        publish_outcome: Some(publish_outcome),
    }
}

fn stop_publish(message: String, left: Option<String>, publish_outcome: &str) -> (stopped: UploadFailure)
    ensures
        stopped@ == publish_failed(message@, text::optional_text(left), publish_outcome@),
{
    UploadFailure {
        failure: partial_failure(message),
        partial_destination: left,
        abort_outcome: Some("not_applicable_after_close".to_owned()),
        publish_outcome: Some(publish_outcome.to_owned()),
    }
}

/// What follows the publish of a partial.
pub open spec fn publish_leads_to(
    publish: UploadPublish,
    reply: Result<UploadPublishResolution, String>,
    interrupted: bool,
    end: Result<UploadOutcome, UploadStop>,
) -> bool {
    match reply {
        Ok(resolution) => match resolution.state {
            UploadPublishState::Completed => end matches Ok(outcome) && outcome.bytes_transferred
                == publish.job.source.total_bytes && outcome.total_bytes == Some(publish.job.source.total_bytes)
                && text::optional_text(outcome.publish_outcome) == Some("completed"@),
            UploadPublishState::PartialSource => end matches Err(UploadStop::Stopped(stopped)) && stopped@
                == publish_failed(
                "Upload publish was not completed: "@ + resolution.detail@,
                Some(publish.job.partial_relative@),
                "partial_source"@,
            ),
            UploadPublishState::PartialTarget => end matches Err(UploadStop::Stopped(stopped)) && stopped@
                == publish_failed(
                "Upload publish target exists but ownership is unproven: "@ + resolution.detail@,
                Some(publish.job.target_relative@),
                "partial_target_unproven"@,
            ),
            UploadPublishState::Unknown => end matches Err(UploadStop::Stopped(stopped)) && stopped@
                == publish_failed("Upload publish outcome is unknown: "@ + resolution.detail@, None, "unknown"@),
        },
        Err(error) => end matches Err(UploadStop::Cleanup(cleanup)) && cleans_closed(
            cleanup,
            publish.job,
            if interrupted {
                failure::cancelled_active("Upload cancelled"@)
            } else {
                failure::remote_failed("Failed to publish the uploaded file: "@ + error@)
            },
        ),
    }
}

impl UploadPublish {
    /// Takes what came of making the partial the remote file, and whether the
    /// transfer was cancelled or its connection removed by then. A completed
    /// upload sent the whole local file.
    pub fn published(self, reply: Result<UploadPublishResolution, String>, interrupted: bool) -> (end: Result<
        UploadOutcome,
        UploadStop,
    >)
        ensures
            publish_leads_to(self, reply, interrupted, end),
    {
        match reply {
            Ok(resolution) => match resolution.state {
                UploadPublishState::Completed => Ok(
                    UploadOutcome {
                        bytes_transferred: self.job.source.total_bytes,
                        total_bytes: Some(self.job.source.total_bytes),
                        publish_outcome: Some("completed".to_owned()),
                    },
                ),
                UploadPublishState::PartialSource => Err(
                    UploadStop::Stopped(
                        stop_publish(
                            joined2("Upload publish was not completed: ", resolution.detail.as_str()),
                            Some(self.job.partial_relative),
                            "partial_source",
                        ),
                    ),
                ),
                UploadPublishState::PartialTarget => Err(
                    UploadStop::Stopped(
                        stop_publish(
                            joined2(
                                "Upload publish target exists but ownership is unproven: ",
                                resolution.detail.as_str(),
                            ),
                            Some(self.job.target_relative),
                            "partial_target_unproven",
                        ),
                    ),
                ),
                UploadPublishState::Unknown => Err(
                    UploadStop::Stopped(
                        stop_publish(
                            joined2("Upload publish outcome is unknown: ", resolution.detail.as_str()),
                            None,
                            "unknown",
                        ),
                    ),
                ),
            },
            Err(error) => {
                let stopped = if interrupted {
                    upload_cancelled_active_failure()
                } else {
                    remote_failure(joined2("Failed to publish the uploaded file: ", error.as_str()))
                };
                Err(UploadStop::Cleanup(cleanup_closed_upload_partial(self.job, stopped)))
            },
        }
    }
}

/// Due: whether an upload of nothing may begin.
#[non_exhaustive]
#[derive(Debug)]
pub struct EmptyUpload {
    pub job: UploadJob,
}

/// Due: whether the local file is still empty and the same.
#[non_exhaustive]
#[derive(Debug)]
pub struct EmptyUploadSource {
    pub job: UploadJob,
}

/// Due: making an empty partial.
#[non_exhaustive]
#[derive(Debug)]
pub struct EmptyUploadCreation {
    pub job: UploadJob,
}

impl EmptyUpload {
    /// Takes whether the transfer was cancelled or its connection removed.
    pub fn begun(self, cancelled: bool, removed: bool) -> (next: Result<EmptyUploadSource, UploadFailure>)
        ensures
            if cancelled {
                next matches Err(stopped) && stopped@ == failure::upload_failed(
                    failure::cancelled_idle("Upload cancelled"@),
                )
            } else if removed {
                next matches Err(stopped) && stopped@ == failure::upload_failed(
                    failure::cancelled_active(
                        "The file connection was removed before the empty upload started"@,
                    ),
                )
            } else {
                next matches Ok(source) && source.job == self.job
            },
    {
        if cancelled {
            Err(stop_upload(upload_cancelled_failure()))
        } else if removed {
            Err(
                stop_upload(
                    cancelled_during(
                        "The file connection was removed before the empty upload started".to_owned(),
                    ),
                ),
            )
        } else {
            Ok(EmptyUploadSource { job: self.job })
        }
    }
}

impl EmptyUploadSource {
    /// Takes another look at the local file: it has to be the one that was
    /// opened, and empty.
    pub fn source_checked(self, look: SourceLook) -> (next: Result<EmptyUploadCreation, UploadFailure>)
        ensures
            match local_source::still_unchanged(self.job.source, look, 0) {
                Err(reason) => next matches Err(stopped) && stopped@ == failure::upload_failed(
                    failure::local_failed(reason),
                ),
                Ok(_) => next matches Ok(creation) && creation.job == self.job && self.job.source.total_bytes == 0,
            },
    {
        match verify_upload_source_unchanged(&self.job.source, look, 0) {
            Err(error) => Err(stop_upload(local_failure(error))),
            Ok(_) => Ok(EmptyUploadCreation { job: self.job }),
        }
    }
}

impl EmptyUploadCreation {
    /// Takes whether the partial was made.
    pub fn created(self, reply: Bounded<Result<(), String>>) -> (next: Result<ClosedUpload, UploadCleanup>)
        ensures
            match reply {
                Bounded::TimedOut => next matches Err(cleanup) && cleans_closed(
                    cleanup,
                    self.job,
                    failure::remote_failed(
                        "Failed to create the empty upload partial: "@
                            + "Creating the empty operation-owned upload partial timed out"@,
                    ),
                ),
                Bounded::Finished(Err(error)) => next matches Err(cleanup) && cleans_closed(
                    cleanup,
                    self.job,
                    failure::remote_failed("Failed to create the empty upload partial: "@ + error@),
                ),
                Bounded::Finished(Ok(_)) => next matches Ok(closed) && closed.job == self.job
                    && closed.bytes_transferred == 0,
            },
    {
        let error = match reply {
            Bounded::TimedOut => "Creating the empty operation-owned upload partial timed out".to_owned(),
            Bounded::Finished(Err(error)) => error,
            Bounded::Finished(Ok(_)) => {
                return Ok(ClosedUpload { job: self.job, bytes_transferred: 0 });
            },
        };
        Err(
            cleanup_closed_upload_partial(
                self.job,
                remote_failure(
                    joined2("Failed to create the empty upload partial: ", error.as_str()),
                ),
            ),
        )
    }
}

/// Due: whether an upload in one PUT may begin.
#[non_exhaustive]
#[derive(Debug)]
pub struct WebdavUpload {
    pub job: UploadJob,
}

/// Due: the PUT, or a look at how far it has come.
#[non_exhaustive]
#[derive(Debug)]
pub struct WebdavPut {
    pub job: UploadJob,
    /// The size that the PUT announces.
    pub size: u64,
    pub last_observed_bytes: i64,
    /// When the count of bytes last changed, in milliseconds.
    pub last_progress_at: u64,
    /// When the PUT began, in milliseconds.
    pub started: u64,
}

/// Why a PUT failed.
#[derive(Debug)]
pub struct WebdavPutError {
    pub message: String,
    /// The request never reached the server.
    pub before_mutation: bool,
    /// The answer was lost.
    pub outcome_unknown: bool,
}

/// What follows a PUT that ended.
#[derive(Debug)]
pub enum WebdavPutNext {
    /// The server took the file.
    Written(WebdavWritten),
    /// Nothing is known of the PUT.
    Uncertain(UploadFailure),
    /// The partial has to be removed.
    Cleanup(UploadCleanup),
    /// Nothing was sent.
    Stopped(UploadFailure),
}

/// Due: whether the local file is still what was sent.
#[non_exhaustive]
#[derive(Debug)]
pub struct WebdavWritten {
    pub job: UploadJob,
}

/// Due: whether the remote file still does not exist.
#[non_exhaustive]
#[derive(Debug)]
pub struct WebdavTargetCheck {
    pub job: UploadJob,
}

/// An upload that lost its connection before its PUT was sent.
pub open spec fn put_disconnected_before() -> FailureView {
    failure::cancelled_active("The file connection was removed before the WebDAV upload was dispatched"@)
}

fn stop_put_disconnected_before() -> (stopped: TransferFailure)
    ensures
        stopped@ == put_disconnected_before(),
{
    cancelled_during("The file connection was removed before the WebDAV upload was dispatched".to_owned())
}

/// A PUT of which nothing is known leaves its partial alone.
pub open spec fn put_uncertain(job: UploadJob, failure: FailureView) -> UploadFailureView {
    UploadFailureView {
        failure: failure::partly_failed(
            failure.message
                + "; the operation-owned WebDAV partial was retained because the dispatched PUT outcome is uncertain"@,
        ),
        partial_destination: Some(job.partial_relative@),
        abort_outcome: Some("not_attempted_put_outcome_uncertain"@),
        publish_outcome: None,
    }
}

fn stop_put_uncertain(job: UploadJob, failure: TransferFailure) -> (stopped: UploadFailure)
    ensures
        stopped@ == put_uncertain(job, failure@),
{
    let message = joined2(
        failure.message.as_str(),
        "; the operation-owned WebDAV partial was retained because the dispatched PUT outcome is uncertain",
    );
    UploadFailure {
        failure: partial_failure(message),
        partial_destination: Some(job.partial_relative),
        abort_outcome: Some("not_attempted_put_outcome_uncertain".to_owned()),
        publish_outcome: None,
    }
}

impl WebdavUpload {
    /// Takes whether the transfer was cancelled or its connection removed.
    pub fn begun(self, cancelled: bool, removed: bool, now: u64) -> (next: Result<WebdavPut, UploadStop>)
        ensures
            if self.job.source.total_bytes < 0 {
                next matches Err(UploadStop::Stopped(stopped)) && stopped@ == failure::upload_failed(
                    failure::local_failed("Upload size is not representable"@),
                )
            } else if cancelled {
                next matches Err(UploadStop::Cleanup(cleanup)) && cleans_closed(
                    cleanup,
                    self.job,
                    failure::cancelled_idle("Upload cancelled"@),
                )
            } else if removed {
                next matches Err(UploadStop::Cleanup(cleanup)) && cleans_closed(
                    cleanup,
                    self.job,
                    put_disconnected_before(),
                )
            } else {
                next matches Ok(put) && put.job == self.job && put.size == self.job.source.total_bytes
                    && put.last_observed_bytes == 0 && put.last_progress_at == now && put.started == now
            },
    {
        if self.job.source.total_bytes < 0 {
            return Err(
                UploadStop::Stopped(
                    stop_upload(local_failure("Upload size is not representable".to_owned())),
                ),
            );
        }
        if cancelled {
            return Err(
                UploadStop::Cleanup(
                    cleanup_closed_upload_partial(self.job, upload_cancelled_failure()),
                ),
            );
        }
        if removed {
            return Err(
                UploadStop::Cleanup(
                    cleanup_closed_upload_partial(self.job, stop_put_disconnected_before()),
                ),
            );
        }
        let size: u64 = self.job.source.total_bytes as u64;
        Ok(
            WebdavPut {
                job: self.job,
                size,
                last_observed_bytes: 0,
                last_progress_at: now,
                started: now,
            },
        )
    }
}

/// The PUT has made no progress for too long.
pub open spec fn put_is_stuck(put: WebdavPut, bytes: i64, now: u64) -> bool {
    bytes == put.last_observed_bytes && now - put.last_progress_at >= IO_WATCHDOG_MILLIS
}

impl WebdavPut {
    /// Takes the answer to the PUT.
    pub fn finished(self, reply: Result<(), WebdavPutError>) -> (next: WebdavPutNext)
        ensures
            match reply {
                Ok(_) => next matches WebdavPutNext::Written(written) && written.job == self.job,
                Err(error) => if error.before_mutation {
                    next matches WebdavPutNext::Stopped(stopped) && stopped@ == failure::upload_failed(
                        failure::remote_failed(error.message@),
                    )
                } else if error.outcome_unknown {
                    next matches WebdavPutNext::Uncertain(stopped) && stopped@ == put_uncertain(
                        self.job,
                        failure::remote_failed(error.message@),
                    )
                } else {
                    next matches WebdavPutNext::Cleanup(cleanup) && cleans_closed(
                        cleanup,
                        self.job,
                        failure::remote_failed(error.message@),
                    )
                },
            },
    {
        match reply {
            Ok(_) => WebdavPutNext::Written(WebdavWritten { job: self.job }),
            Err(error) => {
                let stopped = remote_failure(error.message);
                if error.before_mutation {
                    WebdavPutNext::Stopped(stop_upload(stopped))
                } else if error.outcome_unknown {
                    WebdavPutNext::Uncertain(stop_put_uncertain(self.job, stopped))
                } else {
                    WebdavPutNext::Cleanup(cleanup_closed_upload_partial(self.job, stopped))
                }
            },
        }
    }

    /// Takes that the transfer was cancelled, and whether the PUT had been sent.
    pub fn cancelled(self, dispatched: bool) -> (next: UploadStop)
        ensures
            if dispatched {
                next matches UploadStop::Stopped(stopped) && stopped@ == put_uncertain(
                    self.job,
                    failure::cancelled_active("Upload cancelled"@),
                )
            } else {
                next matches UploadStop::Cleanup(cleanup) && cleans_closed(
                    cleanup,
                    self.job,
                    failure::cancelled_idle("Upload cancelled"@),
                )
            },
    {
        if dispatched {
            UploadStop::Stopped(stop_put_uncertain(self.job, upload_cancelled_active_failure()))
        } else {
            UploadStop::Cleanup(cleanup_closed_upload_partial(self.job, upload_cancelled_failure()))
        }
    }

    /// Takes that the connection was removed, and whether the PUT had been sent.
    pub fn disconnected(self, dispatched: bool) -> (next: UploadStop)
        ensures
            if dispatched {
                next matches UploadStop::Stopped(stopped) && stopped@ == put_uncertain(
                    self.job,
                    failure::cancelled_active(
                        "The file connection was removed while the WebDAV upload was running"@,
                    ),
                )
            } else {
                next matches UploadStop::Cleanup(cleanup) && cleans_closed(
                    cleanup,
                    self.job,
                    put_disconnected_before(),
                )
            },
    {
        if dispatched {
            UploadStop::Stopped(
                stop_put_uncertain(
                    self.job,
                    cancelled_during(
                        "The file connection was removed while the WebDAV upload was running".to_owned(),
                    ),
                ),
            )
        } else {
            UploadStop::Cleanup(cleanup_closed_upload_partial(self.job, stop_put_disconnected_before()))
        }
    }

    /// Takes how many bytes were sent by now. Gives the update that is due, or
    /// why the PUT is given up.
    pub fn ticked(&mut self, bytes: i64, now: u64) -> (update: Result<TransferUpdate, TransferFailure>)
        ensures
            final(self).job == old(self).job,
            final(self).size == old(self).size,
            final(self).started == old(self).started,
            final(self).last_observed_bytes == bytes,
            final(self).last_progress_at == (if bytes == old(self).last_observed_bytes {
                old(self).last_progress_at
            } else {
                now
            }),
            match update {
                Ok(due) => !put_is_stuck(*old(self), bytes, now) && !is_overdue(old(self).started, now) && due@
                    == upload_update(TransferStatus::Running, old(self).job, bytes),
                Err(stopped) => if put_is_stuck(*old(self), bytes, now) {
                    stopped@ == failure::remote_failed(
                        "WebDAV streaming PUT made no progress before the I/O watchdog expired"@,
                    )
                } else {
                    is_overdue(old(self).started, now) && stopped@ == failure::remote_failed(
                        "WebDAV streaming PUT timed out"@,
                    )
                },
            },
    {
        if bytes != self.last_observed_bytes {
            self.last_observed_bytes = bytes;
            self.last_progress_at = now;
        } else if now >= self.last_progress_at && now - self.last_progress_at >= IO_WATCHDOG_MILLIS {
            return Err(
                remote_failure(
                    "WebDAV streaming PUT made no progress before the I/O watchdog expired".to_owned(),
                ),
            );
        }
        if now >= self.started && now - self.started >= OPERATION_TIMEOUT_MILLIS {
            return Err(remote_failure("WebDAV streaming PUT timed out".to_owned()));
        }
        Ok(make_upload_update(TransferStatus::Running, &self.job, bytes))
    }

    /// Takes why an update could not be written down.
    pub fn progress_failed(&self, error: &str) -> (stopped: TransferFailure)
        ensures
            stopped@ == failure::local_failed("Failed to persist WebDAV upload progress: "@ + error@),
    {
        local_failure(joined2("Failed to persist WebDAV upload progress: ", error))
    }

    /// Takes that the PUT is given up. It was sent, so nothing is known of it.
    pub fn given_up(self, failure: TransferFailure) -> (stopped: UploadFailure)
        ensures
            stopped@ == put_uncertain(self.job, failure@),
    {
        stop_put_uncertain(self.job, failure)
    }
}

impl WebdavWritten {
    /// Takes another look at the local file: it has to be the one that was
    /// opened.
    pub fn source_checked(self, look: SourceLook) -> (next: Result<WebdavTargetCheck, UploadCleanup>)
        ensures
            match local_source::still_unchanged(self.job.source, look, self.job.source.total_bytes) {
                Err(reason) => next matches Err(cleanup) && cleans_closed(
                    cleanup,
                    self.job,
                    failure::local_failed(reason),
                ),
                Ok(_) => next matches Ok(check) && check.job == self.job,
            },
    {
        match verify_upload_source_unchanged(&self.job.source, look, self.job.source.total_bytes) {
            Err(error) => Err(cleanup_closed_upload_partial(self.job, local_failure(error))),
            Ok(_) => Ok(WebdavTargetCheck { job: self.job }),
        }
    }
}

impl WebdavTargetCheck {
    /// Takes whether the remote file exists.
    pub fn target_checked(self, reply: Bounded<TargetStat>) -> (next: Result<ClosedUpload, UploadCleanup>)
        ensures
            match target_absent(reply) {
                Err(refused) => next matches Err(cleanup) && cleans_closed(cleanup, self.job, refused),
                Ok(_) => next matches Ok(closed) && closed.job == self.job && closed.bytes_transferred
                    == self.job.source.total_bytes,
            },
    {
        match ensure_remote_target_absent(reply) {
            Err(refused) => Err(cleanup_closed_upload_partial(self.job, refused)),
            Ok(_) => {
                let bytes_transferred: i64 = self.job.source.total_bytes;
                Ok(ClosedUpload { job: self.job, bytes_transferred })
            },
        }
    }
}

/// What may be left of a failed upload is named. An upload whose writer was open
/// ends without naming its partial only where the abort was confirmed, or where
/// it could not be and the clean-up was.
pub proof fn partials_left_behind_are_named(
    job: UploadJob,
    failure: TransferFailure,
    abort: Bounded<Result<(), UploadAbortError>>,
    next: UploadStop,
    cleanup_reply: Bounded<Result<(), String>>,
)
    requires
        abort_leads_to(job, failure, abort, next),
    ensures
        next is Stopped <==> (abort is TimedOut || abort matches Bounded::Finished(Ok(_))),
        next matches UploadStop::Stopped(stopped) ==> stopped@.partial_destination == (if abort is TimedOut {
            Some(job.partial_relative@)
        } else {
            None
        }),
        next matches UploadStop::Cleanup(cleanup) ==> cleanup_settled(cleanup, cleanup_reply).partial_destination
            == (if cleanup_reply matches Bounded::Finished(Ok(_)) {
            None
        } else {
            Some(job.partial_relative@)
        }),
        next matches UploadStop::Cleanup(cleanup) ==> cleanup_settled(cleanup, cleanup_reply).failure == (
        if cleanup_reply matches Bounded::Finished(Ok(_)) {
            failure@
        } else {
            failure::partly_failed(cleanup_settled(cleanup, cleanup_reply).failure.message)
        }),
{
}

/// A completed upload sent the whole of a local file that was still the one that
/// was opened when it was last looked at, behind the closing of the partial.
pub proof fn completed_uploads_are_whole(
    closed: ClosedUpload,
    look: SourceLook,
    cancelled: bool,
    removed: bool,
    publishing: UploadPublishing,
    persisted: Result<String, String>,
    cancelled_then: bool,
    removed_then: bool,
    publish: UploadPublish,
    reply: Result<UploadPublishResolution, String>,
    interrupted: bool,
    outcome: UploadOutcome,
)
    requires
        closed_check_leads_to(closed, look, cancelled, removed, Ok(publishing)),
        publishing_leads_to(publishing, persisted, cancelled_then, removed_then, Ok(publish)),
        publish_leads_to(publish, reply, interrupted, Ok(outcome)),
    ensures
        outcome.bytes_transferred == closed.bytes_transferred,
        outcome.bytes_transferred == closed.job.source.total_bytes,
        outcome.total_bytes == Some(closed.job.source.total_bytes),
        text::optional_text(outcome.publish_outcome) == Some("completed"@),
        local_source::still_unchanged(closed.job.source, look, outcome.bytes_transferred) is Ok,
{
}

/// What happens to an upload while its pieces are sent: the reply, and what came
/// of it.
pub enum UploadEvent {
    Read { reply: Timed<Result<usize, String>>, write: Result<bool, TransferFailure> },
    Written { reply: Timed<Result<(), String>>, now: u64, update: Result<Option<TransferUpdate>, TransferFailure> },
    Persisted { reply: Result<(), String>, now: u64, result: Result<(), TransferFailure> },
}

/// What an event makes of an upload, and of what is told of it.
pub open spec fn event_leads_to(
    before: (UploadStream, TransferProgressSnapshot),
    event: UploadEvent,
    after: (UploadStream, TransferProgressSnapshot),
) -> bool {
    match event {
        UploadEvent::Read { reply, write } => piece_read_leads_to(before.0, reply, write, after.0) && after.1
            == before.1,
        UploadEvent::Written { reply, now, update } => piece_written_leads_to(
            before.0,
            reply,
            now,
            before.1,
            update,
            after.0,
            after.1,
        ),
        UploadEvent::Persisted { reply, now, result } => progress_persisted_leads_to(
            before.0,
            reply,
            now,
            result,
            after.0,
        ) && after.1 == before.1,
    }
}

/// An upload goes from one moment to the next. A piece is read only once the one
/// before it was written.
pub open spec fn uploads_on(moments: Seq<(UploadStream, TransferProgressSnapshot)>, events: Seq<UploadEvent>) -> bool {
    &&& moments.len() == events.len() + 1
    &&& forall|i: int|
        0 <= i < events.len() ==> event_leads_to(moments[i], #[trigger] events[i], moments[i + 1]) && (events[i] is Read
            ==> moments[i].0.piece == 0)
}

/// The sizes of the pieces that were read.
pub open spec fn pieces_read(events: Seq<UploadEvent>) -> Seq<usize>
    decreases events.len(),
{
    if events.len() == 0 {
        Seq::empty()
    } else {
        match events.last() {
            UploadEvent::Read { reply: Timed::Finished(Ok(count)), .. } => pieces_read(events.drop_last()).push(count),
            _ => pieces_read(events.drop_last()),
        }
    }
}

/// However an upload is cut into pieces, its count is that of what was read but
/// for the piece that is still to be written, as far as the count can go. What
/// is told of the upload is that count.
pub proof fn uploaded_pieces_are_counted(
    moments: Seq<(UploadStream, TransferProgressSnapshot)>,
    events: Seq<UploadEvent>,
)
    requires
        uploads_on(moments, events),
        moments[0].0.is_fresh(),
        moments[0].1.counted_bytes() == 0,
    ensures
        moments.last().0.job == moments[0].0.job,
        moments.last().0.piece <= progress::bytes_of(pieces_read(events)),
        moments.last().0.bytes_transferred == progress::countable(
            progress::bytes_of(pieces_read(events)) - moments.last().0.piece,
        ),
        moments.last().1.counted_bytes() == moments.last().0.bytes_transferred,
        moments.last().1.known_total() == moments[0].1.known_total(),
    decreases events.len(),
{
    if events.len() > 0 {
        let earlier = moments.drop_last();
        let front = events.drop_last();
        assert forall|i: int| 0 <= i < front.len() implies event_leads_to(
            earlier[i],
            #[trigger] front[i],
            earlier[i + 1],
        ) && (front[i] is Read ==> earlier[i].0.piece == 0) by {
            assert(front[i] == events[i]);
        }
        uploaded_pieces_are_counted(earlier, front);
        let event = events[events.len() - 1];
        assert(event_leads_to(earlier.last(), event, moments.last()));
        progress::pieces_are_counted_exactly(pieces_read(front));
        if let UploadEvent::Read { reply: Timed::Finished(Ok(_)), .. } = event {
            assert(pieces_read(events).drop_last() =~= pieces_read(front));
        }
    }
}

/// A partial that was written piece by piece is closed only where the pieces that
/// were read and written add up to the local file that was opened, and no remote
/// file was seen.
pub proof fn closed_partials_hold_all_pieces(
    moments: Seq<(UploadStream, TransferProgressSnapshot)>,
    events: Seq<UploadEvent>,
    look: SourceLook,
    recheck: UploadTargetRecheck,
    target: Bounded<TargetStat>,
    closing: UploadClosing,
    reply: Bounded<Result<(), String>>,
    closed: ClosedUpload,
)
    requires
        uploads_on(moments, events),
        moments[0].0.is_fresh(),
        moments[0].1.counted_bytes() == 0,
        moments.last().0.piece == 0,
        source_check_leads_to(moments.last().0, look, Ok(recheck)),
        recheck_leads_to(recheck, target, Ok(closing)),
        close_leads_to(closing, reply, Ok(closed)),
    ensures
        progress::countable(progress::bytes_of(pieces_read(events))) == closed.job.source.total_bytes,
        closed.bytes_transferred == closed.job.source.total_bytes,
        closed.job == moments[0].0.job,
        target matches Bounded::Finished(TargetStat::NotFound),
        local_source::still_unchanged(closed.job.source, look, closed.bytes_transferred) is Ok,
{
    uploaded_pieces_are_counted(moments, events);
}

/// Whatever a running or publishing upload writes down names its partial as the
/// file to look for, with the fingerprint of the local file and with what was
/// sent of how much.
pub proof fn uploads_write_their_partial_down(
    before: UploadStream,
    reply: Timed<Result<(), String>>,
    now: u64,
    told: TransferProgressSnapshot,
    update: TransferUpdate,
    after: UploadStream,
    told_then: TransferProgressSnapshot,
)
    requires
        piece_written_leads_to(before, reply, now, told, Ok(Some(update)), after, told_then),
    ensures
        update.status == TransferStatus::Running,
        update.temp_path matches Some(path) && path@ == before.job.partial_relative@,
        update.temp_identity matches Some(known) && known@ == before.job.source.fingerprint@,
        update.bytes_transferred == after.bytes_transferred,
        update.total_bytes == Some(before.job.source.total_bytes),
        update.error is None,
        !update.finished,
{
}

/// What is written down before a partial is published names it as the file to look
/// for, with the fingerprint of the local file, all of which was sent.
pub proof fn publishing_uploads_write_their_partial_down(
    closed: ClosedUpload,
    look: SourceLook,
    cancelled: bool,
    removed: bool,
    publishing: UploadPublishing,
)
    requires
        closed_check_leads_to(closed, look, cancelled, removed, Ok(publishing)),
    ensures
        publishing.job == closed.job,
        publishing.update.status == TransferStatus::Publishing,
        publishing.update.temp_path matches Some(path) && path@ == closed.job.partial_relative@,
        publishing.update.temp_identity matches Some(known) && known@ == closed.job.source.fingerprint@,
        publishing.update.bytes_transferred == closed.job.source.total_bytes,
        publishing.update.total_bytes == Some(closed.job.source.total_bytes),
        publishing.update.error is None,
        !publishing.update.finished,
        !cancelled && !removed,
{
}

/// Every update of an upload, of whatever status, names the partial and not the
/// remote file.
pub proof fn upload_updates_name_the_partial(update: TransferUpdate, status: TransferStatus, job: UploadJob, bytes: i64)
    requires
        update@ == upload_update(status, job, bytes),
    ensures
        update.status == status,
        update.bytes_transferred == bytes,
        update.total_bytes == Some(job.source.total_bytes),
        update.temp_path matches Some(path) && path@ == job.partial_relative@,
        update.temp_identity matches Some(known) && known@ == job.source.fingerprint@,
        update.error is None,
        !update.finished,
{
}

/// An upload goes on only where nothing stands under the name of the remote file.
pub proof fn uploads_replace_nothing(
    reply: Bounded<TargetStat>,
    recheck: UploadTargetRecheck,
    next: Result<UploadClosing, UploadAbort>,
)
    requires
        recheck_leads_to(recheck, reply, next),
    ensures
        target_absent(reply) is Ok <==> reply matches Bounded::Finished(TargetStat::NotFound),
        reply matches Bounded::Finished(TargetStat::Found) ==> target_absent(reply) == Err::<(), FailureView>(
            FailureView {
                status: failure::FailureStatus::Failed,
                message: "Remote upload destination already exists"@,
                invalidate_operator: true,
            },
        ),
        reply matches Bounded::Finished(TargetStat::Failed(error)) ==> target_absent(reply)->Err_0.message == error@,
        next is Ok <==> reply matches Bounded::Finished(TargetStat::NotFound),
        next matches Ok(closing) ==> closing.job == recheck.job && closing.bytes_transferred
            == recheck.bytes_transferred,
        next matches Err(abort) ==> abort.job == recheck.job && abort.failure.invalidate_operator,
{
}

/// The writer of an upload is given up wherever it could not be closed in time,
/// and the partial that was closed is that of the upload, with what was sent.
pub proof fn closed_uploads_are_the_ones_that_were_sent(
    closing: UploadClosing,
    reply: Bounded<Result<(), String>>,
    next: Result<ClosedUpload, UploadAbort>,
)
    requires
        close_leads_to(closing, reply, next),
    ensures
        next is Ok <==> reply matches Bounded::Finished(Ok(_)),
        next matches Ok(closed) ==> closed.job == closing.job && closed.bytes_transferred == closing.bytes_transferred,
        next matches Err(abort) ==> abort.job == closing.job && abort.failure.invalidate_operator
            && abort.failure.status == failure::FailureStatus::Failed,
        reply matches Bounded::Finished(Err(error)) ==> next is Err && next->Err_0.failure.message@ == error@,
{
}

/// An upload goes on behind its last piece only where the local file is still the
/// one that was opened and all of it was sent; otherwise its writer is aborted
/// with a failure of this side.
pub proof fn changed_sources_stop_an_upload(
    stream: UploadStream,
    look: SourceLook,
    next: Result<UploadTargetRecheck, UploadAbort>,
)
    requires
        source_check_leads_to(stream, look, next),
    ensures
        next is Ok <==> local_source::still_unchanged(stream.job.source, look, stream.bytes_transferred) is Ok,
        next matches Ok(recheck) ==> recheck.job == stream.job && recheck.bytes_transferred
            == stream.bytes_transferred && stream.bytes_transferred == stream.job.source.total_bytes,
        next matches Err(abort) ==> abort.job == stream.job && !abort.failure.invalidate_operator
            && abort.failure.status == failure::FailureStatus::Failed,
{
    if next is Ok {
        local_source::unchanged_sources_are_the_opened_ones(stream.job.source, look, stream.bytes_transferred);
    }
}

/// A closed upload is published only where it was neither cancelled nor cut off
/// and its local file is unchanged; otherwise its partial is to be removed.
pub proof fn unpublished_uploads_are_cleaned_up(
    closed: ClosedUpload,
    look: SourceLook,
    cancelled: bool,
    removed: bool,
    next: Result<UploadPublishing, UploadCleanup>,
)
    requires
        closed_check_leads_to(closed, look, cancelled, removed, next),
    ensures
        next is Ok <==> !cancelled && !removed && local_source::still_unchanged(
            closed.job.source,
            look,
            closed.bytes_transferred,
        ) is Ok,
        next matches Err(cleanup) ==> cleanup.partial_relative@ == closed.job.partial_relative@
            && cleanup.abort_outcome@ == "not_applicable_after_close"@,
        next is Err && local_source::still_unchanged(closed.job.source, look, closed.bytes_transferred) is Ok
            ==> next->Err_0.failure.status == failure::FailureStatus::Cancelled
            && next->Err_0.failure.invalidate_operator,
{
}

/// A partial is published only once that was written down and nobody stopped the
/// upload meanwhile; otherwise it is to be removed.
pub proof fn uploads_are_written_down_before_they_are_published(
    publishing: UploadPublishing,
    reply: Result<String, String>,
    cancelled: bool,
    removed: bool,
    next: Result<UploadPublish, UploadCleanup>,
)
    requires
        publishing_leads_to(publishing, reply, cancelled, removed, next),
    ensures
        next is Ok <==> !cancelled && !removed && (reply matches Ok(status) && status@ != "cancelling"@),
        next matches Ok(publish) ==> publish.job == publishing.job,
        next matches Err(cleanup) ==> cleanup.partial_relative@ == publishing.job.partial_relative@
            && cleanup.abort_outcome@ == "not_applicable_after_close"@,
        reply matches Err(error) ==> next is Err && next->Err_0.failure.message@
            == "Failed to persist upload publishing state: "@ + error@ && next->Err_0.failure.status
            == failure::FailureStatus::Failed && !next->Err_0.failure.invalidate_operator,
        reply is Ok && next is Err ==> next->Err_0.failure.status == failure::FailureStatus::Cancelled,
{
}

/// An upload is completed exactly where its publish was. Where the partial or an
/// unproven target may be left, the failure names it; where nothing is known, it
/// names nothing; and where the publish was refused, the partial is to be removed.
pub proof fn unfinished_publishes_name_what_they_left(
    publish: UploadPublish,
    reply: Result<UploadPublishResolution, String>,
    interrupted: bool,
    end: Result<UploadOutcome, UploadStop>,
)
    requires
        publish_leads_to(publish, reply, interrupted, end),
    ensures
        end is Ok <==> (reply matches Ok(resolution) && resolution.state == UploadPublishState::Completed),
        end matches Err(UploadStop::Stopped(stopped)) ==> stopped.failure.status == failure::FailureStatus::Partial
            && stopped.failure.invalidate_operator && stopped.abort_outcome is Some && stopped.publish_outcome is Some,
        reply matches Ok(resolution) ==> (resolution.state == UploadPublishState::PartialSource ==> (
        end matches Err(UploadStop::Stopped(stopped)) && (stopped.partial_destination matches Some(left) && left@
            == publish.job.partial_relative@) && stopped.publish_outcome->0@ == "partial_source"@
            && stopped.failure.message@ == "Upload publish was not completed: "@ + resolution.detail@)),
        reply matches Ok(resolution) ==> (resolution.state == UploadPublishState::PartialTarget ==> (
        end matches Err(UploadStop::Stopped(stopped)) && (stopped.partial_destination matches Some(left) && left@
            == publish.job.target_relative@) && stopped.publish_outcome->0@ == "partial_target_unproven"@
            && stopped.failure.message@ == "Upload publish target exists but ownership is unproven: "@
            + resolution.detail@)),
        reply matches Ok(resolution) ==> (resolution.state == UploadPublishState::Unknown ==> (
        end matches Err(UploadStop::Stopped(stopped)) && stopped.partial_destination is None
            && stopped.publish_outcome->0@ == "unknown"@ && stopped.failure.message@
            == "Upload publish outcome is unknown: "@ + resolution.detail@)),
        reply matches Err(error) ==> (end matches Err(UploadStop::Cleanup(cleanup)) && cleanup.partial_relative@
            == publish.job.partial_relative@ && cleanup.failure.invalidate_operator && (if interrupted {
            cleanup.failure.status == failure::FailureStatus::Cancelled
        } else {
            cleanup.failure.status == failure::FailureStatus::Failed && cleanup.failure.message@
                == "Failed to publish the uploaded file: "@ + error@
        })),
{
}

/// A PUT of which nothing is known leaves its partial where it is and names it.
pub proof fn uncertain_uploads_keep_their_partial(stopped: UploadFailure, job: UploadJob, failure: TransferFailure)
    requires
        stopped@ == put_uncertain(job, failure@),
    ensures
        stopped.failure.status == failure::FailureStatus::Partial,
        stopped.failure.invalidate_operator,
        text::has_prefix(stopped.failure.message@, failure.message@),
        stopped.partial_destination matches Some(left) && left@ == job.partial_relative@,
        stopped.abort_outcome matches Some(outcome) && outcome@ == "not_attempted_put_outcome_uncertain"@,
        stopped.publish_outcome is None,
{
    let all = stopped.failure.message@;
    let head = failure.message@;
    assert(all.subrange(0, head.len() as int) =~= head);
}

/// A PUT is given up once nothing of it was sent for half a minute, and an upload
/// once it took a day.
pub proof fn stuck_uploads_are_given_up(put: WebdavPut, bytes: i64, started: u64, now: u64)
    ensures
        put_is_stuck(put, bytes, now) <==> bytes == put.last_observed_bytes && put.last_progress_at + 30_000 <= now,
        is_overdue(started, now) <==> started + 86_400_000 <= now,
{
}

/// The partial of a closed upload that failed is the one that is removed, for the
/// reason that it failed for.
pub proof fn closed_partials_are_removed_by_their_name(cleanup: UploadCleanup, job: UploadJob, failure: FailureView)
    requires
        cleans_closed(cleanup, job, failure),
    ensures
        cleanup.partial_relative@ == job.partial_relative@,
        cleanup.failure.message@ == failure.message,
        cleanup.failure.status == failure.status,
        cleanup.failure.invalidate_operator == failure.invalidate_operator,
        cleanup.abort_outcome@ == "not_applicable_after_close"@,
{
}

/// A lost connection ends an upload as cancelled and gives up its service.
pub proof fn lost_connections_cancel_an_upload(stopped: TransferFailure)
    ensures
        stopped@ == upload_disconnected() ==> stopped.status == failure::FailureStatus::Cancelled
            && stopped.invalidate_operator && stopped.message@
            == "The file connection was removed while the upload was running"@,
        stopped@ == put_disconnected_before() ==> stopped.status == failure::FailureStatus::Cancelled
            && stopped.invalidate_operator && stopped.message@
            == "The file connection was removed before the WebDAV upload was dispatched"@,
{
}

/// An upload that is told to stop, or loses its connection, stops as cancelled. A
/// local read that fails is a failure of this side, and a remote write that fails
/// one of the other side. Nothing is counted that was not written.
pub proof fn interrupted_pieces_are_not_counted(
    before: UploadStream,
    read: Timed<Result<usize, String>>,
    write: Result<bool, TransferFailure>,
    after_read: UploadStream,
    written: Timed<Result<(), String>>,
    now: u64,
    told: TransferProgressSnapshot,
    update: Result<Option<TransferUpdate>, TransferFailure>,
    after_write: UploadStream,
    told_then: TransferProgressSnapshot,
)
    requires
        piece_read_leads_to(before, read, write, after_read),
        piece_written_leads_to(before, written, now, told, update, after_write, told_then),
    ensures
        after_read.bytes_transferred == before.bytes_transferred,
        write matches Ok(more) ==> (read matches Timed::Finished(Ok(count)) && more == (count > 0) && after_read.piece
            == count),
        read is TransferCancelled || read is ConnectionRemoved ==> write is Err && write->Err_0.status
            == failure::FailureStatus::Cancelled && write->Err_0.invalidate_operator,
        read is TimedOut || (read matches Timed::Finished(Err(_))) ==> write is Err && write->Err_0.status
            == failure::FailureStatus::Failed && !write->Err_0.invalidate_operator,
        update is Ok <==> written matches Timed::Finished(Ok(_)),
        update is Err ==> after_write.bytes_transferred == before.bytes_transferred && told_then == told
            && update->Err_0.invalidate_operator,
        written is TransferCancelled || written is ConnectionRemoved ==> update is Err && update->Err_0.status
            == failure::FailureStatus::Cancelled,
        written is TimedOut || (written matches Timed::Finished(Err(_))) ==> update is Err && update->Err_0.status
            == failure::FailureStatus::Failed,
        update matches Ok(due) ==> (due is Some <==> before.last_progress + 200 <= now),
        after_read.started == before.started && after_write.started == before.started,
        after_read.last_progress == before.last_progress && after_write.last_progress == before.last_progress,
{
}

/// The time of an update is remembered once it was written down, and not before.
pub proof fn written_updates_are_remembered(
    before: UploadStream,
    reply: Result<(), String>,
    now: u64,
    result: Result<(), TransferFailure>,
    after: UploadStream,
)
    requires
        progress_persisted_leads_to(before, reply, now, result, after),
    ensures
        result is Ok <==> reply is Ok,
        after.last_progress == (if reply is Ok {
            now
        } else {
            before.last_progress
        }),
        reply matches Err(error) ==> result is Err && result->Err_0.message@ == error@ && result->Err_0.status
            == failure::FailureStatus::Failed && !result->Err_0.invalidate_operator,
        after.job == before.job && after.bytes_transferred == before.bytes_transferred && after.piece == before.piece
            && after.started == before.started,
{
}

/// An abort that was confirmed leaves nothing; one that is not supported or failed
/// leaves the partial to be removed; one that took too long leaves it in place.
pub proof fn aborts_leave_the_partial_to_be_dealt_with(
    job: UploadJob,
    failure: TransferFailure,
    reply: Bounded<Result<(), UploadAbortError>>,
    next: UploadStop,
)
    requires
        abort_leads_to(job, failure, reply, next),
    ensures
        next matches UploadStop::Cleanup(cleanup) ==> cleanup.partial_relative@ == job.partial_relative@
            && cleanup.failure == failure,
        reply matches Bounded::Finished(Ok(_)) ==> (next matches UploadStop::Stopped(stopped)
            && stopped.partial_destination is None && stopped.failure.message@ == failure.message@
            && stopped.failure.status == failure.status && stopped.abort_outcome is Some
            && stopped.abort_outcome->0@ == "succeeded"@),
        reply matches Bounded::Finished(Err(UploadAbortError::Unsupported)) ==> (next matches UploadStop::Cleanup(
            cleanup,
        ) && cleanup.abort_outcome@ == "unsupported"@),
        reply matches Bounded::Finished(Err(UploadAbortError::Failed(error))) ==> next is Cleanup
            && next->Cleanup_0.abort_outcome@ == "failed: "@ + text::sanitized(error@),
        reply is TimedOut ==> (next matches UploadStop::Stopped(stopped) && stopped.failure.status
            == failure::FailureStatus::Partial && stopped.failure.message@ == failure.message@
            + "; writer abort timed out; operation-owned partial was preserved"@ && (
        stopped.partial_destination matches Some(left) && left@ == job.partial_relative@)
            && stopped.abort_outcome is Some && stopped.abort_outcome->0@ == "timed_out"@),
{
}

/// A partial that was removed is not named any more. One that was not, or not in
/// time, is named, and the upload ends as partial.
pub proof fn partials_that_stay_are_named(
    cleanup: UploadCleanup,
    reply: Bounded<Result<(), String>>,
    stopped: UploadFailure,
)
    requires
        stopped@ == cleanup_settled(cleanup, reply),
    ensures
        reply matches Bounded::Finished(Ok(_)) ==> stopped.partial_destination is None && stopped.failure.message@
            == cleanup.failure.message@ && stopped.failure.status == cleanup.failure.status,
        !(reply matches Bounded::Finished(Ok(_))) ==> stopped.failure.status == failure::FailureStatus::Partial
            && stopped.failure.invalidate_operator && (stopped.partial_destination matches Some(left) && left@
            == cleanup.partial_relative@) && text::has_prefix(
            stopped.failure.message@,
            cleanup.failure.message@ + "; operation-owned partial cleanup failed safely: "@,
        ),
        reply is TimedOut ==> text::has_suffix(
            stopped.failure.message@,
            "operation-owned partial cleanup timed out"@,
        ),
        stopped.publish_outcome is None,
{
    if !(reply matches Bounded::Finished(Ok(_))) {
        let all = stopped.failure.message@;
        let head = cleanup.failure.message@ + "; operation-owned partial cleanup failed safely: "@;
        assert(all.subrange(0, head.len() as int) =~= head);
        if reply is TimedOut {
            let tail = "operation-owned partial cleanup timed out"@;
            assert(all.subrange(all.len() - tail.len(), all.len() as int) =~= tail);
        }
    }
}

/// An upload that stops while its pieces are sent is told why, and whether the
/// service is to be given up: it is not where the local file could not be read.
pub proof fn stopped_uploads_are_told_why(
    before: UploadStream,
    read: Timed<Result<usize, String>>,
    write: Result<bool, TransferFailure>,
    between: UploadStream,
    written: Timed<Result<(), String>>,
    now: u64,
    told: TransferProgressSnapshot,
    update: Result<Option<TransferUpdate>, TransferFailure>,
    after: UploadStream,
    told_then: TransferProgressSnapshot,
)
    requires
        piece_read_leads_to(before, read, write, between),
        piece_written_leads_to(between, written, now, told, update, after, told_then),
    ensures
        read is TransferCancelled ==> write is Err && write->Err_0.message@ == "Upload cancelled"@ && write->Err_0.status
            == failure::FailureStatus::Cancelled && write->Err_0.invalidate_operator,
        read is TimedOut ==> write is Err && write->Err_0.message@
            == "Local upload read made no progress before the I/O watchdog expired"@ && write->Err_0.status
            == failure::FailureStatus::Failed && !write->Err_0.invalidate_operator,
        read matches Timed::Finished(Err(error)) ==> write is Err && write->Err_0.message@
            == "Failed to read the upload source: "@ + error@ && write->Err_0.status == failure::FailureStatus::Failed
            && !write->Err_0.invalidate_operator,
        written is TransferCancelled ==> update is Err && update->Err_0.message@ == "Upload cancelled"@
            && update->Err_0.status == failure::FailureStatus::Cancelled && update->Err_0.invalidate_operator,
        written is TimedOut ==> update is Err && update->Err_0.message@
            == "Remote upload write made no progress before the I/O watchdog expired"@ && update->Err_0.status
            == failure::FailureStatus::Failed && update->Err_0.invalidate_operator,
        written matches Timed::Finished(Err(error)) ==> update is Err && update->Err_0.message@ == error@
            && update->Err_0.status == failure::FailureStatus::Failed && update->Err_0.invalidate_operator,
{
}

/// An upload that is not published is told why.
pub proof fn unpublished_uploads_are_told_why(
    reply: Bounded<TargetStat>,
    closing: UploadClosing,
    closed: Bounded<Result<(), String>>,
    end: Result<ClosedUpload, UploadAbort>,
    checked: ClosedUpload,
    look: SourceLook,
    cancelled: bool,
    removed: bool,
    next: Result<UploadPublishing, UploadCleanup>,
    publishing: UploadPublishing,
    persisted: Result<String, String>,
    publish: Result<UploadPublish, UploadCleanup>,
)
    requires
        close_leads_to(closing, closed, end),
        closed_check_leads_to(checked, look, cancelled, removed, next),
        publishing_leads_to(publishing, persisted, cancelled, removed, publish),
    ensures
        reply is TimedOut ==> target_absent(reply) == Err::<(), FailureView>(
            FailureView {
                status: failure::FailureStatus::Failed,
                message: "Checking the remote upload destination timed out"@,
                invalidate_operator: true,
            },
        ),
        closed is TimedOut ==> end is Err && end->Err_0.failure.message@ == "Closing the remote upload timed out"@,
        closed matches Bounded::Finished(Err(error)) ==> end is Err && end->Err_0.failure.message@ == error@,
        end matches Err(abort) ==> abort.failure.status == failure::FailureStatus::Failed
            && abort.failure.invalidate_operator,
        local_source::still_unchanged(checked.job.source, look, checked.bytes_transferred) matches Err(reason) ==> next
            is Err && next->Err_0.failure.message@ == reason && next->Err_0.failure.status
            == failure::FailureStatus::Failed && !next->Err_0.failure.invalidate_operator,
        local_source::still_unchanged(checked.job.source, look, checked.bytes_transferred) is Ok && (cancelled
            || removed) ==> next is Err && next->Err_0.failure.message@ == (if cancelled {
            "Upload cancelled"@
        } else {
            "The file connection was removed after the upload closed and before publish"@
        }) && next->Err_0.failure.status == failure::FailureStatus::Cancelled
            && next->Err_0.failure.invalidate_operator,
        persisted matches Ok(status) ==> (status@ == "cancelling"@ || cancelled || removed ==> publish is Err
            && publish->Err_0.failure.message@ == (if status@ == "cancelling"@ || cancelled {
            "Upload cancelled"@
        } else {
            "The file connection was removed before upload publish"@
        }) && publish->Err_0.failure.invalidate_operator),
{
}

/// A publish that was interrupted is told as a cancelled upload, and a partial that
/// a request may still write is told to have stayed.
pub proof fn uncertain_uploads_are_told_in_words(
    publish: UploadPublish,
    error: String,
    end: Result<UploadOutcome, UploadStop>,
    job: UploadJob,
    failed: FailureView,
)
    requires
        publish_leads_to(publish, Err(error), true, end),
    ensures
        end matches Err(UploadStop::Cleanup(cleanup)) && cleanup.failure.message@ == "Upload cancelled"@
            && cleanup.failure.status == failure::FailureStatus::Cancelled,
        put_uncertain(job, failed).failure.message == failed.message
            + "; the operation-owned WebDAV partial was retained because the dispatched PUT outcome is uncertain"@,
{
}

/// Pieces of an upload have four mebibytes, and eight to S3. An upload may take a
/// day, and may stand still for half a minute.
pub proof fn uploads_have_their_limits()
    ensures
        UPLOAD_BUFFER_SIZE == 4 * 1024 * 1024,
        S3_UPLOAD_BUFFER_SIZE == 8 * 1024 * 1024,
        OPERATION_TIMEOUT_MILLIS == 24 * 60 * 60 * 1000,
        IO_WATCHDOG_MILLIS == 30 * 1000,
{
}

} // verus!
