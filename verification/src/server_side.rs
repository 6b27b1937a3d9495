//! A copy or rename that the server carries out: the order of its requests, and
//! what each reply leads to.
//!
//! Every type here stands for one request that is due. Its methods take the
//! reply and give the next request, or the end of the operation.
use crate::failure::OperationOutcome;
use crate::failure::OperationPhase;
use crate::failure::RemoteFailureView;
use crate::failure::RemoteTransferFailure;
use crate::failure::RemoteTransferOutcome;
use crate::failure::TransferStatus;
use crate::failure::cancelled_before;
use crate::failure::cancelled_during;
use crate::failure::cancelled_failure;
use crate::failure::local_failure;
use crate::failure::partial_failure;
use crate::failure::remote_completion;
use crate::failure::remote_failure;
use crate::failure::remote_partial_failure;
use crate::failure::remote_transfer_before_copy;
use crate::failure;
use crate::fingerprint::RemoteFileFingerprint;
use crate::fingerprint;
use crate::progress::progress_is_due;
use crate::progress::saturating_count;
use crate::progress::TransferProgressSnapshot;
use crate::progress;
use crate::reconcile::error_tells_absence;
use crate::reconcile::invalidate_after_uncertain_move;
use crate::reconcile::reconcile_uncertain_native_move;
use crate::reconcile::reconcile_uncertain_server_side_copy;
use crate::reconcile::reconcile_uncertain_webdav_copy;
use crate::reconcile;
use crate::remote::PhaseUpdate;
use crate::remote::RemoteJob;
use crate::remote::RemoteOperation;
use crate::remote::SourceDeletion;
use crate::remote::watched_before_copy;
use crate::remote;
use crate::reply::Timed;
use crate::reply::Watched;
use crate::text::joined2;
use crate::text::same_text;
use crate::text;
use vstd::prelude::*;

verus! {

/// Due: the metadata of the source.
#[non_exhaustive]
#[derive(Debug)]
pub struct ServerSideStart {
    pub job: RemoteJob,
}

/// Due: whether the destination exists.
#[non_exhaustive]
#[derive(Debug)]
pub struct ServerSideProbe {
    pub job: RemoteJob,
    pub source: RemoteFileFingerprint,
    pub total_bytes: i64,
}

/// Due: the paths of source and destination below the connection's root.
#[non_exhaustive]
#[derive(Debug)]
pub struct ServerSidePaths {
    pub job: RemoteJob,
    pub source: RemoteFileFingerprint,
    pub total_bytes: i64,
}

/// Due: writing down that the copying begins.
#[non_exhaustive]
#[derive(Debug)]
pub struct ServerSideOpening {
    pub work: ServerSideWork,
    pub update: PhaseUpdate,
}

/// What every request behind the preflight knows.
#[non_exhaustive]
#[derive(Debug)]
pub struct ServerSideWork {
    pub job: RemoteJob,
    pub source: RemoteFileFingerprint,
    pub total_bytes: i64,
    pub source_configured: String,
    pub destination_configured: String,
}

/// The request that carries the operation out.
#[derive(Debug)]
pub enum ServerSideRoute {
    NativeRename(NativeRenameLock),
    WebdavCopy(WebdavCopyLock),
    BackendCopy(BackendCopyOpening),
}

/// Begins a server-side operation.
pub fn execute_server_side_remote_transfer(job: RemoteJob) -> (start: ServerSideStart)
    ensures
        start.job == job,
{
    ServerSideStart { job }
}

/// What follows the metadata of the source: its size is learned, where it can be
/// counted.
pub open spec fn stat_leads_to(
    start: ServerSideStart,
    reply: Result<RemoteFileFingerprint, String>,
    before: TransferProgressSnapshot,
    next: Result<ServerSideProbe, RemoteTransferFailure>,
    after: TransferProgressSnapshot,
) -> bool {
    match reply {
        Err(error) => (next matches Err(stopped) && stopped@ == failure::before_copy(
            failure::remote_failed(error@),
        )) && after == before,
        Ok(source) => if source.size > i64::MAX {
            (next matches Err(stopped) && stopped@ == failure::before_copy(
                failure::local_failed("Remote source size is not representable"@),
            )) && after == before
        } else {
            (next matches Ok(probe) && probe.job == start.job && probe.source == source && probe.total_bytes
                == source.size) && progress::total_recorded(before, Some(source.size as i64), after)
        },
    }
}

impl ServerSideStart {
    /// Takes the metadata of the source.
    pub fn source_stated(
        self,
        reply: Result<RemoteFileFingerprint, String>,
        progress: &mut TransferProgressSnapshot,
    ) -> (next: Result<ServerSideProbe, RemoteTransferFailure>)
        ensures
            stat_leads_to(self, reply, *old(progress), next, *final(progress)),
    {
        match reply {
            Err(error) => Err(remote_transfer_before_copy(remote_failure(error))),
            Ok(source) => {
                if source.size > i64::MAX as u64 {
                    Err(
                        remote_transfer_before_copy(
                            local_failure("Remote source size is not representable".to_owned()),
                        ),
                    )
                } else {
                    let total_bytes: i64 = source.size as i64;
                    progress.record_total(Some(total_bytes));
                    Ok(ServerSideProbe { job: self.job, source, total_bytes })
                }
            },
        }
    }
}

impl ServerSideProbe {
    /// Takes whether the destination exists.
    pub fn destination_probed(self, reply: Watched<Result<bool, String>>) -> (next: Result<
        ServerSidePaths,
        RemoteTransferFailure,
    >)
        ensures
            match reply {
                Watched::TransferCancelled => next matches Err(stopped) && stopped@ == failure::before_copy(
                    failure::cancelled_idle("Remote transfer was cancelled during destination preflight"@),
                ),
                Watched::ConnectionRemoved => next matches Err(stopped) && stopped@ == failure::before_copy(
                    failure::cancelled_active("The file connection was removed during destination preflight"@),
                ),
                Watched::Finished(Err(error)) => next matches Err(stopped) && stopped@ == failure::before_copy(
                    failure::remote_failed(error@),
                ),
                Watched::Finished(Ok(exists)) => if exists && !self.job.replace {
                    next matches Err(stopped) && stopped@ == failure::before_copy(
                        failure::remote_failed(
                            "Remote destination already exists; best_effort_no_clobber does not replace it"@,
                        ),
                    )
                } else {
                    next matches Ok(paths) && paths.job == self.job && paths.source == self.source
                        && paths.total_bytes == self.total_bytes
                },
            },
    {
        let replied = watched_before_copy(
            reply,
            "Remote transfer was cancelled during destination preflight",
            "The file connection was removed during destination preflight",
        );
        match replied {
            Err(stopped) => Err(stopped),
            Ok(Err(error)) => Err(remote_transfer_before_copy(remote_failure(error))),
            Ok(Ok(exists)) => {
                if exists && !self.job.replace {
                    Err(
                        remote_transfer_before_copy(
                            remote_failure(
                                "Remote destination already exists; best_effort_no_clobber does not replace it".to_owned(),
                            ),
                        ),
                    )
                } else {
                    Ok(
                        ServerSidePaths {
                            job: self.job,
                            source: self.source,
                            total_bytes: self.total_bytes,
                        },
                    )
                }
            },
        }
    }
}

impl ServerSidePaths {
    /// Takes the two paths below the connection's root.
    pub fn paths_configured(
        self,
        source_path: Result<String, String>,
        destination_path: Result<String, String>,
    ) -> (next: Result<ServerSideOpening, RemoteTransferFailure>)
        ensures
            match (source_path, destination_path) {
                (Err(error), _) => next matches Err(stopped) && stopped@ == failure::before_copy(
                    failure::local_failed(error@),
                ),
                (Ok(_), Err(error)) => next matches Err(stopped) && stopped@ == failure::before_copy(
                    failure::local_failed(error@),
                ),
                (Ok(from), Ok(to)) => next matches Ok(opening) && opening.work == (ServerSideWork {
                    job: self.job,
                    source: self.source,
                    total_bytes: self.total_bytes,
                    source_configured: from,
                    destination_configured: to,
                }) && opening.update@ == remote::copying_update(
                    0,
                    self.total_bytes,
                    None,
                    fingerprint::encoded(self.source@),
                ),
            },
    {
        match (source_path, destination_path) {
            (Err(error), _) => Err(remote_transfer_before_copy(local_failure(error))),
            (Ok(_), Err(error)) => Err(remote_transfer_before_copy(local_failure(error))),
            (Ok(from), Ok(to)) => {
                let update = PhaseUpdate {
                    status: TransferStatus::Running,
                    phase: OperationPhase::Copying,
                    bytes_transferred: 0,
                    total_bytes: self.total_bytes,
                    partial_path: None,
                    source_fingerprint: self.source.encode(),
                    destination_fingerprint: None,
                };
                Ok(
                    ServerSideOpening {
                        work: ServerSideWork {
                            job: self.job,
                            source: self.source,
                            total_bytes: self.total_bytes,
                            source_configured: from,
                            destination_configured: to,
                        },
                        update,
                    },
                )
            },
        }
    }
}

impl ServerSideOpening {
    /// Takes the status that the transfer has now that the update was written
    /// down, and whether it was cancelled in the meantime.
    pub fn persisted(self, reply: Result<String, String>, cancelled: bool) -> (next: Result<
        ServerSideRoute,
        RemoteTransferFailure,
    >)
        ensures
            match reply {
                Err(error) => next matches Err(stopped) && stopped@ == failure::before_copy(
                    failure::local_failed(error@),
                ),
                Ok(status) => if status@ == "cancelling"@ || cancelled {
                    next matches Err(stopped) && stopped@ == failure::before_copy(
                        failure::cancelled_idle("Download cancelled"@),
                    )
                } else if self.work.job.operation == RemoteOperation::Rename
                    && self.work.job.backend.native_rename {
                    next matches Ok(ServerSideRoute::NativeRename(lock)) && lock.work == self.work
                } else if self.work.job.operation == RemoteOperation::Copy
                    && self.work.job.backend.native_webdav_copy {
                    next matches Ok(ServerSideRoute::WebdavCopy(lock)) && lock.work == self.work
                } else {
                    next matches Ok(ServerSideRoute::BackendCopy(opening)) && opening.work == self.work
                },
            },
    {
        match reply {
            Err(error) => Err(remote_transfer_before_copy(local_failure(error))),
            Ok(status) => {
                if same_text(status.as_str(), "cancelling") || cancelled {
                    return Err(remote_transfer_before_copy(cancelled_failure()));
                }
                match self.work.job.operation {
                    RemoteOperation::Rename => if self.work.job.backend.native_rename {
                        Ok(ServerSideRoute::NativeRename(NativeRenameLock { work: self.work }))
                    } else {
                        Ok(ServerSideRoute::BackendCopy(BackendCopyOpening { work: self.work }))
                    },
                    RemoteOperation::Copy => if self.work.job.backend.native_webdav_copy {
                        Ok(ServerSideRoute::WebdavCopy(WebdavCopyLock { work: self.work }))
                    } else {
                        Ok(ServerSideRoute::BackendCopy(BackendCopyOpening { work: self.work }))
                    },
                }
            },
        }
    }
}

/// Due: the lock under which the rename is sent.
#[non_exhaustive]
#[derive(Debug)]
pub struct NativeRenameLock {
    pub work: ServerSideWork,
}

/// Due: the last look at source and destination before the rename is sent.
#[non_exhaustive]
#[derive(Debug)]
pub struct NativeRenamePreflight {
    pub work: ServerSideWork,
}

/// Due: the rename itself.
#[non_exhaustive]
#[derive(Debug)]
pub struct NativeRenameDispatch {
    pub work: ServerSideWork,
}

/// A mutation that the server refused, or whose answer was lost.
#[derive(Debug)]
pub struct MutationError {
    pub message: String,
    pub outcome_unknown: bool,
}

/// What follows a rename that was sent.
#[derive(Debug)]
pub enum NativeRenameNext {
    /// The server said that the rename was carried out.
    Verify(NativeRenameVerify),
    /// Nothing is known of the rename.
    Reconcile(UncertainMove),
    /// The rename was not carried out.
    Stopped(RemoteTransferFailure),
}

/// Due: the destination of a rename that was carried out.
#[non_exhaustive]
#[derive(Debug)]
pub struct NativeRenameVerify {
    pub work: ServerSideWork,
}

/// Due: the source of a rename that was carried out.
#[non_exhaustive]
#[derive(Debug)]
pub struct NativeRenameSourceCheck {
    pub work: ServerSideWork,
    pub destination: RemoteFileFingerprint,
}

/// Due: source and destination of a rename of which nothing is known.
#[non_exhaustive]
#[derive(Debug)]
pub struct UncertainMove {
    pub work: ServerSideWork,
    pub detail: String,
    pub cancelled: bool,
}

impl NativeRenameLock {
    /// Takes the lock.
    pub fn locked(self, reply: Watched<()>) -> (next: Result<NativeRenamePreflight, RemoteTransferFailure>)
        ensures
            match reply {
                Watched::TransferCancelled => next matches Err(stopped) && stopped@ == failure::before_copy(
                    failure::cancelled_idle(
                        "Native rename was cancelled while waiting for the mutation lock"@,
                    ),
                ),
                Watched::ConnectionRemoved => next matches Err(stopped) && stopped@ == failure::before_copy(
                    failure::cancelled_active(
                        "The file connection was removed while native rename was waiting for the mutation lock"@,
                    ),
                ),
                Watched::Finished(_) => next matches Ok(preflight) && preflight.work == self.work,
            },
    {
        let replied = watched_before_copy(
            reply,
            "Native rename was cancelled while waiting for the mutation lock",
            "The file connection was removed while native rename was waiting for the mutation lock",
        );
        match replied {
            Err(stopped) => Err(stopped),
            Ok(_) => Ok(NativeRenamePreflight { work: self.work }),
        }
    }
}

/// A rename that was cancelled before it was sent.
pub open spec fn rename_cancelled() -> RemoteFailureView {
    failure::before_copy(failure::cancelled_idle("Native rename was cancelled before dispatch"@))
}

/// A rename whose connection was removed before it was sent.
pub open spec fn rename_disconnected() -> RemoteFailureView {
    failure::before_copy(
        failure::cancelled_active("The file connection was removed before native rename dispatch"@),
    )
}

fn stop_cancelled_rename() -> (stopped: RemoteTransferFailure)
    ensures
        stopped@ == rename_cancelled(),
{
    remote_transfer_before_copy(cancelled_before("Native rename was cancelled before dispatch".to_owned()))
}

fn stop_disconnected_rename() -> (stopped: RemoteTransferFailure)
    ensures
        stopped@ == rename_disconnected(),
{
    remote_transfer_before_copy(
        cancelled_during("The file connection was removed before native rename dispatch".to_owned()),
    )
}

impl NativeRenamePreflight {
    /// Takes the last look, and whether the transfer was cancelled or its
    /// connection removed by the time it was taken.
    pub fn preflighted(self, reply: Watched<Result<(), String>>, cancelled: bool, removed: bool) -> (next: Result<
        NativeRenameDispatch,
        RemoteTransferFailure,
    >)
        ensures
            match reply {
                Watched::TransferCancelled => next matches Err(stopped) && stopped@ == rename_cancelled(),
                Watched::ConnectionRemoved => next matches Err(stopped) && stopped@ == rename_disconnected(),
                Watched::Finished(Err(error)) => next matches Err(stopped) && stopped@ == failure::before_copy(
                    failure::remote_failed(error@),
                ),
                Watched::Finished(Ok(_)) => if cancelled {
                    next matches Err(stopped) && stopped@ == rename_cancelled()
                } else if removed {
                    next matches Err(stopped) && stopped@ == rename_disconnected()
                } else {
                    next matches Ok(dispatch) && dispatch.work == self.work
                },
            },
    {
        match reply {
            Watched::TransferCancelled => Err(stop_cancelled_rename()),
            Watched::ConnectionRemoved => Err(stop_disconnected_rename()),
            Watched::Finished(Err(error)) => Err(remote_transfer_before_copy(remote_failure(error))),
            Watched::Finished(Ok(_)) => {
                if cancelled {
                    Err(stop_cancelled_rename())
                } else if removed {
                    Err(stop_disconnected_rename())
                } else {
                    Ok(NativeRenameDispatch { work: self.work })
                }
            },
        }
    }
}

impl NativeRenameDispatch {
    /// Takes the answer to the rename, and whether it had been sent when it was
    /// dropped.
    pub fn dispatched(self, reply: Timed<Result<(), MutationError>>, started: bool) -> (next: NativeRenameNext)
        ensures
            match reply {
                Timed::TransferCancelled => if started {
                    next matches NativeRenameNext::Reconcile(uncertain) && uncertain.work == self.work
                        && uncertain.detail@
                        == "Native rename was cancelled after dispatch and its outcome is uncertain"@
                        && uncertain.cancelled
                } else {
                    next matches NativeRenameNext::Stopped(stopped) && stopped@ == rename_cancelled()
                },
                Timed::ConnectionRemoved => if started {
                    next matches NativeRenameNext::Reconcile(uncertain) && uncertain.work == self.work
                        && uncertain.detail@ == "The file connection was removed after native rename dispatch"@
                        && uncertain.cancelled
                } else {
                    next matches NativeRenameNext::Stopped(stopped) && stopped@ == rename_disconnected()
                },
                Timed::TimedOut => next matches NativeRenameNext::Reconcile(uncertain) && uncertain.work == self.work
                    && uncertain.detail@ == "Native rename timed out"@ && !uncertain.cancelled,
                Timed::Finished(Ok(_)) => next matches NativeRenameNext::Verify(verify) && verify.work == self.work,
                Timed::Finished(Err(error)) => if error.outcome_unknown {
                    next matches NativeRenameNext::Reconcile(uncertain) && uncertain.work == self.work
                        && uncertain.detail == error.message && !uncertain.cancelled
                } else {
                    next matches NativeRenameNext::Stopped(stopped) && stopped@ == failure::before_copy(
                        failure::remote_failed(error.message@),
                    )
                },
            },
    {
        match reply {
            Timed::TransferCancelled => {
                if started {
                    NativeRenameNext::Reconcile(
                        UncertainMove {
                            work: self.work,
                            detail: "Native rename was cancelled after dispatch and its outcome is uncertain".to_owned(),
                            cancelled: true,
                        },
                    )
                } else {
                    NativeRenameNext::Stopped(stop_cancelled_rename())
                }
            },
            Timed::ConnectionRemoved => {
                if started {
                    NativeRenameNext::Reconcile(
                        UncertainMove {
                            work: self.work,
                            detail: "The file connection was removed after native rename dispatch".to_owned(),
                            cancelled: true,
                        },
                    )
                } else {
                    NativeRenameNext::Stopped(stop_disconnected_rename())
                }
            },
            Timed::TimedOut => NativeRenameNext::Reconcile(
                UncertainMove {
                    work: self.work,
                    detail: "Native rename timed out".to_owned(),
                    cancelled: false,
                },
            ),
            Timed::Finished(Ok(_)) => NativeRenameNext::Verify(NativeRenameVerify { work: self.work }),
            Timed::Finished(Err(error)) => {
                if error.outcome_unknown {
                    NativeRenameNext::Reconcile(
                        UncertainMove { work: self.work, detail: error.message, cancelled: false },
                    )
                } else {
                    NativeRenameNext::Stopped(
                        remote_transfer_before_copy(remote_failure(error.message)),
                    )
                }
            },
        }
    }
}

/// A rename that the server said was carried out, and that could not be seen to
/// have been.
pub open spec fn rename_unverified(
    message: Seq<char>,
    destination_path: Seq<char>,
    source: Seq<char>,
    destination: Option<Seq<char>>,
) -> RemoteFailureView {
    RemoteFailureView {
        failure: failure::partly_failed(message),
        operation_outcome: OperationOutcome::MoveCommittedVerificationFailed,
        operation_phase: OperationPhase::Copying,
        partial_destination: Some(destination_path),
        source_fingerprint: Some(source),
        destination_fingerprint: destination,
    }
}

fn stop_unverified_rename(
    message: String,
    destination_path: String,
    source: String,
    destination: Option<String>,
) -> (stopped: RemoteTransferFailure)
    ensures
        stopped@ == rename_unverified(
            message@,
            destination_path@,
            source@,
            text::optional_text(destination),
        ),
{
    RemoteTransferFailure {
        failure: partial_failure(message),
        operation_outcome: OperationOutcome::MoveCommittedVerificationFailed,
        operation_phase: OperationPhase::Copying,
        partial_destination: Some(destination_path),
        source_fingerprint: Some(source),
        destination_fingerprint: destination,
    }
}

impl NativeRenameVerify {
    /// Takes the fingerprint of the destination, and whether it is what the
    /// source was.
    pub fn destination_observed(self, reply: Result<RemoteFileFingerprint, String>, matches: bool) -> (next: Result<
        NativeRenameSourceCheck,
        RemoteTransferFailure,
    >)
        ensures
            match reply {
                Err(error) => next matches Err(stopped) && stopped@ == rename_unverified(
                    error@,
                    self.work.job.destination_path@,
                    fingerprint::encoded(self.work.source@),
                    None,
                ),
                Ok(destination) => if matches {
                    next matches Ok(check) && check.work == self.work && check.destination == destination
                } else {
                    next matches Err(stopped) && stopped@ == rename_unverified(
                        "Native rename destination size did not match the source"@,
                        self.work.job.destination_path@,
                        fingerprint::encoded(self.work.source@),
                        Some(fingerprint::encoded(destination@)),
                    )
                },
            },
    {
        match reply {
            Err(error) => Err(
                stop_unverified_rename(
                    error,
                    self.work.job.destination_path,
                    self.work.source.encode(),
                    None,
                ),
            ),
            Ok(destination) => {
                if matches {
                    Ok(NativeRenameSourceCheck { work: self.work, destination })
                } else {
                    Err(
                        stop_unverified_rename(
                            "Native rename destination size did not match the source".to_owned(),
                            self.work.job.destination_path,
                            self.work.source.encode(),
                            Some(destination.encode()),
                        ),
                    )
                }
            },
        }
    }
}

/// What follows the last look at the source of a rename: a rename that is
/// complete counts as all of its bytes.
pub open spec fn rename_check_leads_to(
    check: NativeRenameSourceCheck,
    reply: Result<RemoteFileFingerprint, String>,
    before: TransferProgressSnapshot,
    end: Result<RemoteTransferOutcome, RemoteTransferFailure>,
    after: TransferProgressSnapshot,
) -> bool {
    match reply {
        Err(error) => if reconcile::tells_absence(error@) {
            (end matches Ok(outcome) && outcome@ == failure::completed_outcome(
                check.work.total_bytes,
                check.work.total_bytes,
                fingerprint::encoded(check.work.source@),
                fingerprint::encoded(check.destination@),
            )) && progress::bytes_recorded(before, check.work.total_bytes, after)
        } else {
            (end matches Err(stopped) && stopped@ == rename_unverified(
                error@,
                check.work.job.destination_path@,
                fingerprint::encoded(check.work.source@),
                Some(fingerprint::encoded(check.destination@)),
            )) && after == before
        },
        Ok(source) => (end matches Err(stopped) && stopped@ == rename_unverified(
            "Native rename returned success but the source is still present"@,
            check.work.job.destination_path@,
            fingerprint::encoded(source@),
            Some(fingerprint::encoded(check.destination@)),
        )) && after == before,
    }
}

impl NativeRenameSourceCheck {
    /// Takes the fingerprint of the source: the rename is complete where the
    /// source is gone.
    pub fn source_observed(
        self,
        reply: Result<RemoteFileFingerprint, String>,
        progress: &mut TransferProgressSnapshot,
    ) -> (end: Result<RemoteTransferOutcome, RemoteTransferFailure>)
        ensures
            rename_check_leads_to(self, reply, *old(progress), end, *final(progress)),
    {
        let destination = self.destination.encode();
        match reply {
            Err(error) => {
                if error_tells_absence(error.as_str()) {
                    progress.record_bytes(self.work.total_bytes);
                    Ok(
                        remote_completion(
                            self.work.total_bytes,
                            self.work.total_bytes,
                            self.work.source.encode(),
                            destination,
                        ),
                    )
                } else {
                    Err(
                        stop_unverified_rename(
                            error,
                            self.work.job.destination_path,
                            self.work.source.encode(),
                            Some(destination),
                        ),
                    )
                }
            },
            Ok(source) => Err(
                stop_unverified_rename(
                    "Native rename returned success but the source is still present".to_owned(),
                    self.work.job.destination_path,
                    source.encode(),
                    Some(destination),
                ),
            ),
        }
    }
}

impl UncertainMove {
    /// Says whether source and destination have to be looked at through a
    /// client of their own, because the rename's client may still be waiting.
    pub fn observes_afresh(&self) -> (afresh: bool)
        ensures
            afresh == reconcile::renames_directly(self.work.job.backend),
    {
        self.work.job.backend.direct_hdfs_native_rename || self.work.job.backend.direct_webhdfs_rename
    }

    /// Takes what was found at source and destination, and whether the
    /// destination is what the source was.
    pub fn observed(
        self,
        source: Result<RemoteFileFingerprint, String>,
        destination: Result<RemoteFileFingerprint, String>,
        matches: bool,
    ) -> (end: RemoteTransferFailure)
        ensures
            end@ == reconcile::invalidated_after_move(
                self.work.job.backend,
                reconcile::uncertain_move_settled(
                    source,
                    destination,
                    matches,
                    self.work.source@,
                    self.work.job.destination_path@,
                    self.detail@,
                    self.cancelled,
                ),
            ),
    {
        let settlement = reconcile_uncertain_native_move(
            source,
            destination,
            matches,
            &self.work.source,
            self.work.job.destination_path.as_str(),
            self.detail.as_str(),
            self.cancelled,
        );
        invalidate_after_uncertain_move(self.work.job.backend, settlement)
    }
}

/// Due: the lock under which the COPY is sent.
#[non_exhaustive]
#[derive(Debug)]
pub struct WebdavCopyLock {
    pub work: ServerSideWork,
}

/// Due: the last look at source and destination before the COPY is sent.
#[non_exhaustive]
#[derive(Debug)]
pub struct WebdavCopyPreflight {
    pub work: ServerSideWork,
}

/// Due: the COPY itself.
#[non_exhaustive]
#[derive(Debug)]
pub struct WebdavCopyDispatch {
    pub work: ServerSideWork,
}

/// What follows a COPY that was sent.
#[derive(Debug)]
pub enum WebdavCopyNext {
    /// The server said that the COPY was carried out.
    Verify(WebdavCopyVerify),
    /// Nothing is known of the COPY.
    Reconcile(UncertainWebdavCopy),
    /// The COPY was not carried out.
    Stopped(RemoteTransferFailure),
}

/// Due: the source of a COPY that was carried out.
#[non_exhaustive]
#[derive(Debug)]
pub struct WebdavCopyVerify {
    pub work: ServerSideWork,
}

/// Due: the destination of a COPY that was carried out.
#[non_exhaustive]
#[derive(Debug)]
pub struct WebdavCopyDestinationCheck {
    pub work: ServerSideWork,
    pub source_after: RemoteFileFingerprint,
}

/// Due: the destination of a COPY of which nothing is known.
#[non_exhaustive]
#[derive(Debug)]
pub struct UncertainWebdavCopy {
    pub work: ServerSideWork,
    pub detail: String,
}

/// A COPY that was cancelled before it was sent.
pub open spec fn webdav_copy_cancelled() -> RemoteFailureView {
    failure::before_copy(failure::cancelled_idle("Remote COPY was cancelled before dispatch"@))
}

/// A COPY whose connection was removed before it was sent.
pub open spec fn webdav_copy_disconnected() -> RemoteFailureView {
    failure::before_copy(
        failure::cancelled_active("The file connection was removed before WebDAV COPY dispatch"@),
    )
}

fn stop_cancelled_webdav_copy() -> (stopped: RemoteTransferFailure)
    ensures
        stopped@ == webdav_copy_cancelled(),
{
    remote_transfer_before_copy(cancelled_before("Remote COPY was cancelled before dispatch".to_owned()))
}

fn stop_disconnected_webdav_copy() -> (stopped: RemoteTransferFailure)
    ensures
        stopped@ == webdav_copy_disconnected(),
{
    remote_transfer_before_copy(
        cancelled_during("The file connection was removed before WebDAV COPY dispatch".to_owned()),
    )
}

impl WebdavCopyLock {
    /// Takes the lock.
    pub fn locked(self, reply: Watched<()>) -> (next: Result<WebdavCopyPreflight, RemoteTransferFailure>)
        ensures
            match reply {
                Watched::TransferCancelled => next matches Err(stopped) && stopped@ == failure::before_copy(
                    failure::cancelled_idle("Remote COPY was cancelled while waiting for the mutation lock"@),
                ),
                Watched::ConnectionRemoved => next matches Err(stopped) && stopped@ == failure::before_copy(
                    failure::cancelled_active(
                        "The file connection was removed while WebDAV COPY was waiting for the mutation lock"@,
                    ),
                ),
                Watched::Finished(_) => next matches Ok(preflight) && preflight.work == self.work,
            },
    {
        let replied = watched_before_copy(
            reply,
            "Remote COPY was cancelled while waiting for the mutation lock",
            "The file connection was removed while WebDAV COPY was waiting for the mutation lock",
        );
        match replied {
            Err(stopped) => Err(stopped),
            Ok(_) => Ok(WebdavCopyPreflight { work: self.work }),
        }
    }
}

impl WebdavCopyPreflight {
    /// Takes the last look, and whether the transfer was cancelled or its
    /// connection removed by the time it was taken.
    pub fn preflighted(self, reply: Watched<Result<(), String>>, cancelled: bool, removed: bool) -> (next: Result<
        WebdavCopyDispatch,
        RemoteTransferFailure,
    >)
        ensures
            match reply {
                Watched::TransferCancelled => next matches Err(stopped) && stopped@ == webdav_copy_cancelled(),
                Watched::ConnectionRemoved => next matches Err(stopped) && stopped@ == webdav_copy_disconnected(),
                Watched::Finished(Err(error)) => next matches Err(stopped) && stopped@ == failure::before_copy(
                    failure::remote_failed(error@),
                ),
                Watched::Finished(Ok(_)) => if cancelled {
                    next matches Err(stopped) && stopped@ == webdav_copy_cancelled()
                } else if removed {
                    next matches Err(stopped) && stopped@ == webdav_copy_disconnected()
                } else {
                    next matches Ok(dispatch) && dispatch.work == self.work
                },
            },
    {
        match reply {
            Watched::TransferCancelled => Err(stop_cancelled_webdav_copy()),
            Watched::ConnectionRemoved => Err(stop_disconnected_webdav_copy()),
            Watched::Finished(Err(error)) => Err(remote_transfer_before_copy(remote_failure(error))),
            Watched::Finished(Ok(_)) => {
                if cancelled {
                    Err(stop_cancelled_webdav_copy())
                } else if removed {
                    Err(stop_disconnected_webdav_copy())
                } else {
                    Ok(WebdavCopyDispatch { work: self.work })
                }
            },
        }
    }
}

impl WebdavCopyDispatch {
    /// Takes the answer to the COPY, and whether it had been sent when it was
    /// dropped.
    pub fn dispatched(self, reply: Timed<Result<(), MutationError>>, started: bool) -> (next: WebdavCopyNext)
        ensures
            match reply {
                Timed::TransferCancelled => if started {
                    next matches WebdavCopyNext::Reconcile(uncertain) && uncertain.work == self.work
                        && uncertain.detail@ == "WebDAV COPY was cancelled after dispatch"@
                } else {
                    next matches WebdavCopyNext::Stopped(stopped) && stopped@ == webdav_copy_cancelled()
                },
                Timed::ConnectionRemoved => if started {
                    next matches WebdavCopyNext::Reconcile(uncertain) && uncertain.work == self.work
                        && uncertain.detail@ == "The file connection was removed after WebDAV COPY dispatch"@
                } else {
                    next matches WebdavCopyNext::Stopped(stopped) && stopped@ == webdav_copy_disconnected()
                },
                Timed::TimedOut => next matches WebdavCopyNext::Reconcile(uncertain) && uncertain.work == self.work
                    && uncertain.detail@ == "WebDAV COPY timed out"@,
                Timed::Finished(Ok(_)) => next matches WebdavCopyNext::Verify(verify) && verify.work == self.work,
                Timed::Finished(Err(error)) => if error.outcome_unknown {
                    next matches WebdavCopyNext::Reconcile(uncertain) && uncertain.work == self.work
                        && uncertain.detail == error.message
                } else {
                    next matches WebdavCopyNext::Stopped(stopped) && stopped@ == failure::before_copy(
                        failure::remote_failed(error.message@),
                    )
                },
            },
    {
        match reply {
            Timed::TransferCancelled => {
                if started {
                    WebdavCopyNext::Reconcile(
                        UncertainWebdavCopy {
                            work: self.work,
                            detail: "WebDAV COPY was cancelled after dispatch".to_owned(),
                        },
                    )
                } else {
                    WebdavCopyNext::Stopped(stop_cancelled_webdav_copy())
                }
            },
            Timed::ConnectionRemoved => {
                if started {
                    WebdavCopyNext::Reconcile(
                        UncertainWebdavCopy {
                            work: self.work,
                            detail: "The file connection was removed after WebDAV COPY dispatch".to_owned(),
                        },
                    )
                } else {
                    WebdavCopyNext::Stopped(stop_disconnected_webdav_copy())
                }
            },
            Timed::TimedOut => WebdavCopyNext::Reconcile(
                UncertainWebdavCopy { work: self.work, detail: "WebDAV COPY timed out".to_owned() },
            ),
            Timed::Finished(Ok(_)) => WebdavCopyNext::Verify(WebdavCopyVerify { work: self.work }),
            Timed::Finished(Err(error)) => {
                if error.outcome_unknown {
                    WebdavCopyNext::Reconcile(
                        UncertainWebdavCopy { work: self.work, detail: error.message },
                    )
                } else {
                    WebdavCopyNext::Stopped(
                        remote_transfer_before_copy(remote_failure(error.message)),
                    )
                }
            },
        }
    }
}

impl WebdavCopyVerify {
    /// Takes the fingerprint of the source after the COPY.
    pub fn source_observed(self, reply: Result<RemoteFileFingerprint, String>) -> (next: Result<
        WebdavCopyDestinationCheck,
        RemoteTransferFailure,
    >)
        ensures
            match reply {
                Err(error) => next matches Err(stopped) && stopped@ == failure::before_copy(
                    failure::remote_failed(error@),
                ),
                Ok(source_after) => next matches Ok(check) && check.work == self.work && check.source_after
                    == source_after,
            },
    {
        match reply {
            Err(error) => Err(remote_transfer_before_copy(remote_failure(error))),
            Ok(source_after) => Ok(WebdavCopyDestinationCheck { work: self.work, source_after }),
        }
    }
}

/// What follows the look at the destination of a COPY: a COPY that is complete
/// counts as all of its bytes.
pub open spec fn webdav_check_leads_to(
    check: WebdavCopyDestinationCheck,
    reply: Result<RemoteFileFingerprint, String>,
    before: TransferProgressSnapshot,
    end: Result<RemoteTransferOutcome, RemoteTransferFailure>,
    after: TransferProgressSnapshot,
) -> bool {
    match reply {
        Err(error) => (end matches Err(stopped) && stopped@ == failure::with_partial(
            error@,
            check.work.job.destination_path@,
            Some(fingerprint::encoded(check.source_after@)),
            None,
        )) && after == before,
        Ok(destination) => if copy_is_good(check.work.source, check.source_after, destination) {
            (end matches Ok(outcome) && outcome@ == failure::completed_outcome(
                check.work.total_bytes,
                check.work.total_bytes,
                fingerprint::encoded(check.source_after@),
                fingerprint::encoded(destination@),
            )) && progress::bytes_recorded(before, check.work.total_bytes, after)
        } else {
            (end matches Err(stopped) && stopped@ == failure::with_partial(
                "WebDAV source changed during COPY or destination size did not match"@,
                check.work.job.destination_path@,
                Some(fingerprint::encoded(check.source_after@)),
                Some(fingerprint::encoded(destination@)),
            )) && after == before
        },
    }
}

impl WebdavCopyDestinationCheck {
    /// Takes the fingerprint of the destination after the COPY.
    pub fn destination_observed(
        self,
        reply: Result<RemoteFileFingerprint, String>,
        progress: &mut TransferProgressSnapshot,
    ) -> (end: Result<RemoteTransferOutcome, RemoteTransferFailure>)
        ensures
            webdav_check_leads_to(self, reply, *old(progress), end, *final(progress)),
    {
        let source_durable = self.source_after.encode();
        match reply {
            Err(error) => Err(
                remote_partial_failure(
                    error,
                    self.work.job.destination_path,
                    Some(source_durable),
                    None,
                ),
            ),
            Ok(destination) => {
                if self.source_after.same_as(&self.work.source) && destination.size
                    == self.work.source.size {
                    progress.record_bytes(self.work.total_bytes);
                    Ok(
                        remote_completion(
                            self.work.total_bytes,
                            self.work.total_bytes,
                            source_durable,
                            destination.encode(),
                        ),
                    )
                } else {
                    Err(
                        remote_partial_failure(
                            "WebDAV source changed during COPY or destination size did not match".to_owned(),
                            self.work.job.destination_path,
                            Some(source_durable),
                            Some(destination.encode()),
                        ),
                    )
                }
            },
        }
    }
}

impl UncertainWebdavCopy {
    /// Takes what was found at the destination.
    pub fn observed(self, destination: Result<RemoteFileFingerprint, String>) -> (end: RemoteTransferFailure)
        ensures
            end@ == reconcile::uncertain_webdav_copy_settled(
                destination,
                self.work.source@,
                self.work.job.destination_path@,
                self.detail@,
            ),
    {
        reconcile_uncertain_webdav_copy(
            destination,
            &self.work.source,
            self.work.job.destination_path.as_str(),
            self.detail.as_str(),
        )
    }
}

/// Due: opening the backend's own copy from the configured source to the
/// configured destination, without overwriting unless the job replaces.
#[non_exhaustive]
#[derive(Debug)]
pub struct BackendCopyOpening {
    pub work: ServerSideWork,
}

/// Due: the next part of the backend's copy.
#[non_exhaustive]
#[derive(Debug)]
pub struct BackendCopyStream {
    pub work: ServerSideWork,
    /// What was copied, never more than the source's size.
    pub copied_bytes: i64,
    /// When progress was last written down, in milliseconds.
    pub last_progress: u64,
}

/// Why the backend's copy was broken off.
#[derive(Debug)]
pub enum CopyInterruption {
    TransferCancelled,
    ConnectionRemoved,
    TimedOut,
}

/// Due: the destination of a copy of which nothing is known.
#[non_exhaustive]
#[derive(Debug)]
pub struct UncertainCopy {
    pub work: ServerSideWork,
    pub detail: String,
    pub cancelled: bool,
}

/// Due: the source after the backend's copy.
#[non_exhaustive]
#[derive(Debug)]
pub struct BackendCopyVerify {
    pub work: ServerSideWork,
}

/// Due: the destination after the backend's copy.
#[non_exhaustive]
#[derive(Debug)]
pub struct BackendCopyDestinationCheck {
    pub work: ServerSideWork,
    pub source_after: RemoteFileFingerprint,
}

/// What follows a backend copy that was seen to be good.
#[derive(Debug)]
pub enum BackendCopyNext {
    /// A copy is complete.
    Completed(RemoteTransferOutcome),
    /// A rename still has to delete its source.
    Publish(BackendRenamePublished),
}

/// Due: writing down that the destination of a rename stands.
#[non_exhaustive]
#[derive(Debug)]
pub struct BackendRenamePublished {
    pub work: ServerSideWork,
    pub source_after: RemoteFileFingerprint,
    pub destination: RemoteFileFingerprint,
    pub update: PhaseUpdate,
}

/// Due: writing down that the source of a rename is about to be deleted.
#[non_exhaustive]
#[derive(Debug)]
pub struct BackendRenameDeleting {
    pub work: ServerSideWork,
    pub source_after: RemoteFileFingerprint,
    pub destination: RemoteFileFingerprint,
    pub update: PhaseUpdate,
}

/// Due: deleting the source of a rename.
#[non_exhaustive]
#[derive(Debug)]
pub struct BackendRenameDelete {
    pub total_bytes: i64,
    pub deletion: SourceDeletion,
}

/// What a failed abort adds to a message.
pub open spec fn abort_detail(abort_error: Option<String>) -> Seq<char> {
    match abort_error {
        Some(error) => "; abort failed: "@ + error@,
        None => ""@,
    }
}

fn abort_detail_text(abort_error: &Option<String>) -> (detail: String)
    ensures
        detail@ == abort_detail(*abort_error),
{
    match abort_error {
        Some(error) => joined2("; abort failed: ", error.as_str()),
        None => "".to_owned(),
    }
}

/// The message of a copy that failed, with what its abort said.
pub fn copy_failure_detail(error: &str, abort_error: &Option<String>) -> (detail: String)
    ensures
        detail@ == error@ + abort_detail(*abort_error),
{
    let behind = abort_detail_text(abort_error);
    joined2(error, behind.as_str())
}

impl BackendCopyOpening {
    /// Takes whether the copy could be opened.
    pub fn opened(self, reply: Result<(), String>, now: u64) -> (next: Result<
        BackendCopyStream,
        RemoteTransferFailure,
    >)
        ensures
            match reply {
                Err(error) => next matches Err(stopped) && stopped@ == failure::before_copy(
                    failure::remote_failed(error@),
                ),
                Ok(_) => next matches Ok(stream) && stream.work == self.work && stream.copied_bytes == 0
                    && stream.last_progress == now,
            },
    {
        match reply {
            Err(error) => Err(remote_transfer_before_copy(remote_failure(error))),
            Ok(_) => Ok(BackendCopyStream { work: self.work, copied_bytes: 0, last_progress: now }),
        }
    }
}

impl BackendCopyStream {
    /// Takes the size of a part that was copied. Gives the update that is due
    /// by then.
    pub fn advanced(&mut self, bytes: usize, now: u64, progress: &mut TransferProgressSnapshot) -> (update: Option<
        PhaseUpdate,
    >)
        ensures
            progress::bytes_recorded(*old(progress), final(self).copied_bytes, *final(progress)),
            final(self).work == old(self).work,
            final(self).last_progress == old(self).last_progress,
            final(self).copied_bytes == ({
                let summed = progress::saturating_sum(old(self).copied_bytes as int, bytes as int);
                if summed < old(self).work.total_bytes {
                    summed
                } else {
                    old(self).work.total_bytes as int
                }
            }),
            match update {
                Some(due) => progress::is_due(old(self).last_progress, now) && due@ == remote::copying_update(
                    final(self).copied_bytes,
                    old(self).work.total_bytes,
                    None,
                    fingerprint::encoded(old(self).work.source@),
                ),
                None => !progress::is_due(old(self).last_progress, now),
            },
    {
        let summed: i64 = saturating_count(self.copied_bytes, bytes);
        self.copied_bytes = if summed < self.work.total_bytes {
            summed
        } else {
            self.work.total_bytes
        };
        progress.record_bytes(self.copied_bytes);
        if progress_is_due(self.last_progress, now) {
            Some(
                PhaseUpdate {
                    status: TransferStatus::Running,
                    phase: OperationPhase::Copying,
                    bytes_transferred: self.copied_bytes,
                    total_bytes: self.work.total_bytes,
                    partial_path: None,
                    source_fingerprint: self.work.source.encode(),
                    destination_fingerprint: None,
                },
            )
        } else {
            None
        }
    }

    /// Takes whether an update could be written down.
    pub fn progress_persisted(self, reply: Result<(), String>, now: u64) -> (next: Result<
        BackendCopyStream,
        RemoteTransferFailure,
    >)
        ensures
            match reply {
                Err(error) => next matches Err(stopped) && stopped@ == failure::before_copy(
                    failure::local_failed(error@),
                ),
                Ok(_) => next matches Ok(stream) && stream.work == self.work && stream.copied_bytes
                    == self.copied_bytes && stream.last_progress == now,
            },
    {
        match reply {
            Err(error) => Err(remote_transfer_before_copy(local_failure(error))),
            Ok(_) => Ok(
                BackendCopyStream {
                    work: self.work,
                    copied_bytes: self.copied_bytes,
                    last_progress: now,
                },
            ),
        }
    }

    /// Takes that the copy was broken off, with what its abort said.
    pub fn interrupted(self, interruption: CopyInterruption, abort_error: Option<String>) -> (uncertain:
        UncertainCopy)
        ensures
            uncertain.work == self.work,
            uncertain.detail@ == (match interruption {
                CopyInterruption::TransferCancelled =>
                    "Server-side COPY cancellation response was uncertain"@,
                CopyInterruption::ConnectionRemoved =>
                    "The file connection was removed during server-side COPY"@,
                CopyInterruption::TimedOut => "Server-side COPY timed out"@,
            }) + abort_detail(abort_error),
            uncertain.cancelled == (interruption !is TimedOut),
    {
        let (message, cancelled) = match interruption {
            CopyInterruption::TransferCancelled => (
                "Server-side COPY cancellation response was uncertain",
                true,
            ),
            CopyInterruption::ConnectionRemoved => (
                "The file connection was removed during server-side COPY",
                true,
            ),
            CopyInterruption::TimedOut => ("Server-side COPY timed out", false),
        };
        let behind = abort_detail_text(&abort_error);
        UncertainCopy { work: self.work, detail: joined2(message, behind.as_str()), cancelled }
    }

    /// Takes that the copy failed. `detail` is [`copy_failure_detail`] without
    /// what must not be shown.
    pub fn failed(self, detail: String) -> (uncertain: UncertainCopy)
        ensures
            uncertain.work == self.work,
            uncertain.detail == detail,
            !uncertain.cancelled,
    {
        UncertainCopy { work: self.work, detail, cancelled: false }
    }

    /// Takes that the copy came to its end.
    pub fn finished(self) -> (next: BackendCopyVerify)
        ensures
            next.work == self.work,
    {
        BackendCopyVerify { work: self.work }
    }
}

impl UncertainCopy {
    /// Takes what was found at the destination.
    pub fn observed(self, destination: Result<RemoteFileFingerprint, String>) -> (end: RemoteTransferFailure)
        ensures
            end@ == reconcile::uncertain_copy_settled(
                destination,
                self.work.source@,
                self.work.job.destination_path@,
                self.detail@,
                self.cancelled,
            ),
    {
        reconcile_uncertain_server_side_copy(
            destination,
            &self.work.source,
            self.work.job.destination_path.as_str(),
            self.detail.as_str(),
            self.cancelled,
        )
    }
}

impl BackendCopyVerify {
    /// Takes the fingerprint of the source after the copy.
    pub fn source_observed(self, reply: Result<RemoteFileFingerprint, String>) -> (next: Result<
        BackendCopyDestinationCheck,
        RemoteTransferFailure,
    >)
        ensures
            match reply {
                Err(error) => next matches Err(stopped) && stopped@ == failure::with_partial(
                    error@,
                    self.work.job.destination_path@,
                    Some(fingerprint::encoded(self.work.source@)),
                    None,
                ),
                Ok(source_after) => next matches Ok(check) && check.work == self.work && check.source_after
                    == source_after,
            },
    {
        match reply {
            Err(error) => Err(
                remote_partial_failure(
                    error,
                    self.work.job.destination_path,
                    Some(self.work.source.encode()),
                    None,
                ),
            ),
            Ok(source_after) => Ok(BackendCopyDestinationCheck { work: self.work, source_after }),
        }
    }
}

/// The copy was seen to be good: the source did not change under it, and the
/// destination has the source's size.
pub open spec fn copy_is_good(
    before: RemoteFileFingerprint,
    after: RemoteFileFingerprint,
    destination: RemoteFileFingerprint,
) -> bool {
    after@ == before@ && destination.size == before.size
}

/// What follows the look at the destination of a copy: a copy that is good counts
/// as all of its bytes.
pub open spec fn backend_check_leads_to(
    check: BackendCopyDestinationCheck,
    reply: Result<RemoteFileFingerprint, String>,
    before: TransferProgressSnapshot,
    next: Result<BackendCopyNext, RemoteTransferFailure>,
    after: TransferProgressSnapshot,
) -> bool {
    match reply {
        Err(error) => (next matches Err(stopped) && stopped@ == failure::with_partial(
            error@,
            check.work.job.destination_path@,
            Some(fingerprint::encoded(check.source_after@)),
            None,
        )) && after == before,
        Ok(destination) => if !copy_is_good(check.work.source, check.source_after, destination) {
            (next matches Err(stopped) && stopped@ == failure::with_partial(
                "Source changed during server-side copy or destination size did not match; source deletion was not attempted"@,
                check.work.job.destination_path@,
                Some(fingerprint::encoded(check.source_after@)),
                Some(fingerprint::encoded(destination@)),
            )) && after == before
        } else {
            progress::bytes_recorded(before, check.work.total_bytes, after) && if check.work.job.operation
                == RemoteOperation::Copy {
                next matches Ok(BackendCopyNext::Completed(outcome)) && outcome@ == failure::completed_outcome(
                    check.work.total_bytes,
                    check.work.total_bytes,
                    fingerprint::encoded(check.source_after@),
                    fingerprint::encoded(destination@),
                )
            } else {
                next matches Ok(BackendCopyNext::Publish(published)) && published.work == check.work
                    && published.source_after == check.source_after && published.destination == destination
                    && published.update@ == remote::publishing_update(
                    OperationPhase::PublishedBeforeDelete,
                    check.work.total_bytes,
                    check.work.total_bytes,
                    None,
                    fingerprint::encoded(check.source_after@),
                    fingerprint::encoded(destination@),
                )
            }
        },
    }
}

impl BackendCopyDestinationCheck {
    /// Takes the fingerprint of the destination after the copy.
    pub fn destination_observed(
        self,
        reply: Result<RemoteFileFingerprint, String>,
        progress: &mut TransferProgressSnapshot,
    ) -> (next: Result<BackendCopyNext, RemoteTransferFailure>)
        ensures
            backend_check_leads_to(self, reply, *old(progress), next, *final(progress)),
    {
        let source_durable = self.source_after.encode();
        match reply {
            Err(error) => Err(
                remote_partial_failure(
                    error,
                    self.work.job.destination_path,
                    Some(source_durable),
                    None,
                ),
            ),
            Ok(destination) => {
                let destination_durable = destination.encode();
                if !self.source_after.same_as(&self.work.source) || destination.size
                    != self.work.source.size {
                    return Err(
                        remote_partial_failure(
                            "Source changed during server-side copy or destination size did not match; source deletion was not attempted".to_owned(),
                            self.work.job.destination_path,
                            Some(source_durable),
                            Some(destination_durable),
                        ),
                    );
                }
                progress.record_bytes(self.work.total_bytes);
                match self.work.job.operation {
                    RemoteOperation::Copy => Ok(
                        BackendCopyNext::Completed(
                            remote_completion(
                                self.work.total_bytes,
                                self.work.total_bytes,
                                source_durable,
                                destination_durable,
                            ),
                        ),
                    ),
                    RemoteOperation::Rename => {
                        let update = PhaseUpdate {
                            status: TransferStatus::Publishing,
                            phase: OperationPhase::PublishedBeforeDelete,
                            bytes_transferred: self.work.total_bytes,
                            total_bytes: self.work.total_bytes,
                            partial_path: None,
                            source_fingerprint: source_durable,
                            destination_fingerprint: Some(destination_durable),
                        };
                        Ok(
                            BackendCopyNext::Publish(
                                BackendRenamePublished {
                                    work: self.work,
                                    source_after: self.source_after,
                                    destination,
                                    update,
                                },
                            ),
                        )
                    },
                }
            },
        }
    }
}

/// The destination of a rename stands and its source is still there.
pub open spec fn source_not_deleted(
    failure: crate::failure::FailureView,
    phase: OperationPhase,
    destination_path: Seq<char>,
    source: Seq<char>,
    destination: Seq<char>,
) -> RemoteFailureView {
    RemoteFailureView {
        failure,
        operation_outcome: OperationOutcome::CopiedSourceDeleteFailed,
        operation_phase: phase,
        partial_destination: Some(destination_path),
        source_fingerprint: Some(source),
        destination_fingerprint: Some(destination),
    }
}

/// Reports a rename whose source was not deleted.
pub fn stop_source_not_deleted(
    failure: crate::failure::TransferFailure,
    phase: OperationPhase,
    destination_path: String,
    source: String,
    destination: String,
) -> (stopped: RemoteTransferFailure)
    ensures
        stopped@ == source_not_deleted(failure@, phase, destination_path@, source@, destination@),
{
    RemoteTransferFailure {
        failure,
        operation_outcome: OperationOutcome::CopiedSourceDeleteFailed,
        operation_phase: phase,
        partial_destination: Some(destination_path),
        source_fingerprint: Some(source),
        destination_fingerprint: Some(destination),
    }
}

impl BackendRenamePublished {
    /// Takes whether it could be written down that the destination stands.
    pub fn persisted(self, reply: Result<(), String>) -> (next: Result<BackendRenameDeleting, RemoteTransferFailure>)
        ensures
            match reply {
                Err(error) => next matches Err(stopped) && stopped@ == source_not_deleted(
                    failure::local_failed(error@),
                    OperationPhase::PublishedBeforeDelete,
                    self.work.job.destination_path@,
                    fingerprint::encoded(self.source_after@),
                    fingerprint::encoded(self.destination@),
                ),
                Ok(_) => next matches Ok(deleting) && deleting.work == self.work && deleting.source_after
                    == self.source_after && deleting.destination == self.destination && deleting.update@
                    == remote::publishing_update(
                    OperationPhase::DeleteUncertain,
                    self.work.total_bytes,
                    self.work.total_bytes,
                    None,
                    fingerprint::encoded(self.source_after@),
                    fingerprint::encoded(self.destination@),
                ),
            },
    {
        let source_durable = self.source_after.encode();
        let destination_durable = self.destination.encode();
        match reply {
            Err(error) => Err(
                stop_source_not_deleted(
                    local_failure(error),
                    OperationPhase::PublishedBeforeDelete,
                    self.work.job.destination_path,
                    source_durable,
                    destination_durable,
                ),
            ),
            Ok(_) => {
                let update = PhaseUpdate {
                    status: TransferStatus::Publishing,
                    phase: OperationPhase::DeleteUncertain,
                    bytes_transferred: self.work.total_bytes,
                    total_bytes: self.work.total_bytes,
                    partial_path: None,
                    source_fingerprint: source_durable,
                    destination_fingerprint: Some(destination_durable),
                };
                Ok(
                    BackendRenameDeleting {
                        work: self.work,
                        source_after: self.source_after,
                        destination: self.destination,
                        update,
                    },
                )
            },
        }
    }
}

impl BackendRenameDeleting {
    /// Takes whether it could be written down that the source is about to be
    /// deleted. Nothing is deleted that was not written down.
    pub fn persisted(self, reply: Result<(), String>) -> (next: Result<BackendRenameDelete, RemoteTransferFailure>)
        ensures
            match reply {
                Err(error) => next matches Err(stopped) && stopped@ == source_not_deleted(
                    failure::local_failed(error@),
                    OperationPhase::PublishedBeforeDelete,
                    self.work.job.destination_path@,
                    fingerprint::encoded(self.source_after@),
                    fingerprint::encoded(self.destination@),
                ),
                Ok(_) => next matches Ok(delete) && delete.total_bytes == self.work.total_bytes && delete.deletion
                    == (SourceDeletion {
                    source_path: self.work.job.source_path,
                    destination_path: self.work.job.destination_path,
                    source: self.source_after,
                    destination: self.destination,
                }),
            },
    {
        match reply {
            Err(error) => Err(
                stop_source_not_deleted(
                    local_failure(error),
                    OperationPhase::PublishedBeforeDelete,
                    self.work.job.destination_path,
                    self.source_after.encode(),
                    self.destination.encode(),
                ),
            ),
            Ok(_) => Ok(
                BackendRenameDelete {
                    total_bytes: self.work.total_bytes,
                    deletion: SourceDeletion {
                        source_path: self.work.job.source_path,
                        destination_path: self.work.job.destination_path,
                        source: self.source_after,
                        destination: self.destination,
                    },
                },
            ),
        }
    }
}

/// What follows the deletion of the source of a rename.
pub open spec fn deletion_leads_to(
    delete: BackendRenameDelete,
    reply: Result<(), String>,
    end: Result<RemoteTransferOutcome, RemoteTransferFailure>,
) -> bool {
    match reply {
        Err(error) => end matches Err(stopped) && stopped@ == source_not_deleted(
            failure::partly_failed(error@),
            OperationPhase::DeleteUncertain,
            delete.deletion.destination_path@,
            fingerprint::encoded(delete.deletion.source@),
            fingerprint::encoded(delete.deletion.destination@),
        ),
        Ok(_) => end matches Ok(outcome) && outcome@ == failure::completed_outcome(
            delete.total_bytes,
            delete.total_bytes,
            fingerprint::encoded(delete.deletion.source@),
            fingerprint::encoded(delete.deletion.destination@),
        ),
    }
}

impl BackendRenameDelete {
    /// Takes whether the source was deleted.
    pub fn deleted(self, reply: Result<(), String>) -> (end: Result<RemoteTransferOutcome, RemoteTransferFailure>)
        ensures
            deletion_leads_to(self, reply, end),
    {
        let source_durable = self.deletion.source.encode();
        let destination_durable = self.deletion.destination.encode();
        match reply {
            Err(error) => Err(
                stop_source_not_deleted(
                    partial_failure(error),
                    OperationPhase::DeleteUncertain,
                    self.deletion.destination_path,
                    source_durable,
                    destination_durable,
                ),
            ),
            Ok(_) => Ok(
                remote_completion(self.total_bytes, self.total_bytes, source_durable, destination_durable),
            ),
        }
    }
}

/// What an operation that is complete says of a source of some size, and what is
/// counted by then: all of it.
pub open spec fn is_counted_whole(
    outcome: RemoteTransferOutcome,
    source: RemoteFileFingerprint,
    counted: TransferProgressSnapshot,
) -> bool {
    &&& outcome.bytes_transferred == source.size
    &&& outcome.total_bytes == source.size
    &&& outcome.operation_outcome == OperationOutcome::Completed
    &&& outcome.operation_phase == OperationPhase::Completed
    &&& counted.known_total() == Some(source.size as i64)
    &&& counted.counted_bytes() >= source.size
}

/// A completed rename in one request is counted as the whole source, whatever
/// was counted before: its source is gone.
pub proof fn renames_are_counted_whole(
    start: ServerSideStart,
    source: RemoteFileFingerprint,
    probe: ServerSideProbe,
    at_start: TransferProgressSnapshot,
    stated: TransferProgressSnapshot,
    between: TransferProgressSnapshot,
    check: NativeRenameSourceCheck,
    reply: Result<RemoteFileFingerprint, String>,
    outcome: RemoteTransferOutcome,
    at_end: TransferProgressSnapshot,
)
    requires
        stat_leads_to(start, Ok(source), at_start, Ok(probe), stated),
        between.known_total() == stated.known_total(),
        check.work.source == probe.source,
        check.work.total_bytes == probe.total_bytes,
        rename_check_leads_to(check, reply, between, Ok(outcome), at_end),
    ensures
        is_counted_whole(outcome, source, at_end),
        reply matches Err(error) && reconcile::tells_absence(error@),
{
    assert(outcome@.bytes_transferred == check.work.total_bytes);
    assert(outcome@.operation_outcome == OperationOutcome::Completed);
}

/// A completed WebDAV COPY is counted as the whole source, which did not change,
/// and its destination has the size of the source.
pub proof fn webdav_copies_are_counted_whole(
    start: ServerSideStart,
    source: RemoteFileFingerprint,
    probe: ServerSideProbe,
    at_start: TransferProgressSnapshot,
    stated: TransferProgressSnapshot,
    between: TransferProgressSnapshot,
    check: WebdavCopyDestinationCheck,
    destination: RemoteFileFingerprint,
    outcome: RemoteTransferOutcome,
    at_end: TransferProgressSnapshot,
)
    requires
        stat_leads_to(start, Ok(source), at_start, Ok(probe), stated),
        between.known_total() == stated.known_total(),
        check.work.source == probe.source,
        check.work.total_bytes == probe.total_bytes,
        webdav_check_leads_to(check, Ok(destination), between, Ok(outcome), at_end),
    ensures
        is_counted_whole(outcome, source, at_end),
        check.source_after@ == source@,
        destination.size == source.size,
{
    assert(outcome@.bytes_transferred == check.work.total_bytes);
    assert(outcome@.operation_outcome == OperationOutcome::Completed);
}

/// A completed copy by the backend is counted as the whole source, which did not
/// change, and its destination has the size of the source. So is a rename by the
/// time that its source is deleted.
pub proof fn backend_copies_are_counted_whole(
    start: ServerSideStart,
    source: RemoteFileFingerprint,
    probe: ServerSideProbe,
    at_start: TransferProgressSnapshot,
    stated: TransferProgressSnapshot,
    between: TransferProgressSnapshot,
    check: BackendCopyDestinationCheck,
    destination: RemoteFileFingerprint,
    next: BackendCopyNext,
    at_end: TransferProgressSnapshot,
    delete: BackendRenameDelete,
    outcome: RemoteTransferOutcome,
)
    requires
        stat_leads_to(start, Ok(source), at_start, Ok(probe), stated),
        between.known_total() == stated.known_total(),
        check.work.source == probe.source,
        check.work.total_bytes == probe.total_bytes,
        backend_check_leads_to(check, Ok(destination), between, Ok(next), at_end),
        next matches BackendCopyNext::Publish(published) ==> delete.total_bytes == published.work.total_bytes
            && delete.deletion.source == published.source_after && delete.deletion.destination
            == published.destination && deletion_leads_to(delete, Ok(()), Ok(outcome)),
    ensures
        next matches BackendCopyNext::Completed(copied) ==> is_counted_whole(copied, source, at_end),
        next is Publish ==> is_counted_whole(outcome, source, at_end) && delete.deletion.source@ == source@
            && delete.deletion.destination.size == source.size,
        check.source_after@ == source@,
        destination.size == source.size,
{
    match next {
        BackendCopyNext::Completed(copied) => {
            assert(copied@.bytes_transferred == check.work.total_bytes);
            assert(copied@.operation_outcome == OperationOutcome::Completed);
        },
        BackendCopyNext::Publish(published) => {
            assert(outcome@.bytes_transferred == delete.total_bytes);
            assert(outcome@.operation_outcome == OperationOutcome::Completed);
        },
    }
}

/// An operation on the server begins with the size of its source, which is told at
/// once; a source that cannot be read or counted stops it before anything is
/// copied.
pub proof fn operations_begin_with_the_size_of_their_source(
    start: ServerSideStart,
    reply: Result<RemoteFileFingerprint, String>,
    before: TransferProgressSnapshot,
    next: Result<ServerSideProbe, RemoteTransferFailure>,
    after: TransferProgressSnapshot,
)
    requires
        stat_leads_to(start, reply, before, next, after),
    ensures
        next is Ok <==> (reply matches Ok(source) && source.size <= i64::MAX),
        next matches Ok(probe) ==> probe.job == start.job && probe.source == reply->Ok_0 && probe.total_bytes
            == reply->Ok_0.size && after.known_total() == Some(probe.total_bytes) && after.counted_bytes()
            == before.counted_bytes(),
        next matches Err(stopped) ==> after == before && stopped.operation_outcome
            == OperationOutcome::FailedBeforeCopy && stopped.partial_destination is None && stopped.failure.status
            == failure::FailureStatus::Failed && stopped.failure.invalidate_operator == reply is Err,
        reply matches Err(error) ==> next is Err && next->Err_0.failure.message@ == error@,
{
}

/// A rename in one request is completed exactly where its source is known to be
/// gone; a source that still stands, or cannot be seen, leaves it unverified with
/// its destination named.
pub proof fn renames_are_completed_without_their_source(
    check: NativeRenameSourceCheck,
    reply: Result<RemoteFileFingerprint, String>,
    before: TransferProgressSnapshot,
    end: Result<RemoteTransferOutcome, RemoteTransferFailure>,
    after: TransferProgressSnapshot,
)
    requires
        rename_check_leads_to(check, reply, before, end, after),
    ensures
        end is Ok <==> (reply matches Err(error) && text::occurs_in(error@, "no longer exists"@)),
        end matches Ok(outcome) ==> outcome.bytes_transferred == check.work.total_bytes && outcome.total_bytes
            == check.work.total_bytes && outcome.operation_outcome == OperationOutcome::Completed
            && outcome.source_fingerprint@ == fingerprint::encoded(check.work.source@)
            && outcome.destination_fingerprint@ == fingerprint::encoded(check.destination@),
        end matches Err(stopped) ==> after == before && stopped.operation_outcome
            == OperationOutcome::MoveCommittedVerificationFailed && stopped.failure.status
            == failure::FailureStatus::Partial && stopped.failure.invalidate_operator && (
        stopped.partial_destination matches Some(left) && left@ == check.work.job.destination_path@) && (
        stopped.destination_fingerprint matches Some(known) && known@ == fingerprint::encoded(check.destination@))
            && stopped.source_fingerprint is Some,
        reply matches Ok(source) ==> end is Err && end->Err_0.source_fingerprint->0@ == fingerprint::encoded(source@),
{
}

/// A rename that could not be verified names its destination, ends as partial and
/// gives up its service.
pub proof fn unverified_renames_name_their_destination(
    stopped: RemoteTransferFailure,
    message: Seq<char>,
    destination_path: Seq<char>,
    source: Seq<char>,
    destination: Option<Seq<char>>,
)
    requires
        stopped@ == rename_unverified(message, destination_path, source, destination),
    ensures
        stopped.failure.message@ == message,
        stopped.failure.status == failure::FailureStatus::Partial,
        stopped.failure.invalidate_operator,
        stopped.operation_outcome == OperationOutcome::MoveCommittedVerificationFailed,
        stopped.operation_phase == OperationPhase::Copying,
        stopped.partial_destination matches Some(left) && left@ == destination_path,
        stopped.source_fingerprint matches Some(known) && known@ == source,
        stopped.destination_fingerprint is Some <==> destination is Some,
        destination matches Some(seen) ==> stopped.destination_fingerprint->0@ == seen,
{
}

/// A WebDAV COPY is completed exactly where the source did not change under it and
/// the destination has its size; otherwise the destination that stands is named.
pub proof fn webdav_copies_are_completed_where_they_match(
    check: WebdavCopyDestinationCheck,
    reply: Result<RemoteFileFingerprint, String>,
    before: TransferProgressSnapshot,
    end: Result<RemoteTransferOutcome, RemoteTransferFailure>,
    after: TransferProgressSnapshot,
)
    requires
        webdav_check_leads_to(check, reply, before, end, after),
    ensures
        end is Ok <==> (reply matches Ok(destination) && check.source_after@ == check.work.source@ && destination.size
            == check.work.source.size),
        end matches Ok(outcome) ==> outcome.bytes_transferred == check.work.total_bytes && outcome.total_bytes
            == check.work.total_bytes && outcome.operation_outcome == OperationOutcome::Completed
            && outcome.source_fingerprint@ == fingerprint::encoded(check.source_after@)
            && outcome.destination_fingerprint@ == fingerprint::encoded(reply->Ok_0@),
        end matches Err(stopped) ==> after == before && stopped.operation_outcome
            == OperationOutcome::FailedWithPartialDestination && stopped.failure.status
            == failure::FailureStatus::Partial && (stopped.partial_destination matches Some(left) && left@
            == check.work.job.destination_path@) && (stopped.source_fingerprint matches Some(known) && known@
            == fingerprint::encoded(check.source_after@)) && (stopped.destination_fingerprint is Some <==> reply is Ok),
{
}

/// A copy by the backend is good exactly where the source did not change under it
/// and the destination has its size. A good copy is completed, and a good rename
/// goes on to the deletion of its source; any other leaves its source alone and
/// names the destination that stands.
pub proof fn backend_copies_go_on_where_they_match(
    check: BackendCopyDestinationCheck,
    reply: Result<RemoteFileFingerprint, String>,
    before: TransferProgressSnapshot,
    next: Result<BackendCopyNext, RemoteTransferFailure>,
    after: TransferProgressSnapshot,
)
    requires
        backend_check_leads_to(check, reply, before, next, after),
    ensures
        next is Ok <==> (reply matches Ok(destination) && check.source_after@ == check.work.source@ && destination.size
            == check.work.source.size),
        next matches Ok(BackendCopyNext::Completed(outcome)) ==> check.work.job.operation == RemoteOperation::Copy
            && outcome.bytes_transferred == check.work.total_bytes && outcome.total_bytes == check.work.total_bytes
            && outcome.source_fingerprint@ == fingerprint::encoded(check.source_after@)
            && outcome.destination_fingerprint@ == fingerprint::encoded(reply->Ok_0@),
        next matches Ok(BackendCopyNext::Publish(published)) ==> check.work.job.operation == RemoteOperation::Rename
            && published.work == check.work && published.source_after == check.source_after && published.destination
            == reply->Ok_0 && published.update.status == crate::failure::TransferStatus::Publishing
            && published.update.phase == OperationPhase::PublishedBeforeDelete && published.update.bytes_transferred
            == check.work.total_bytes && published.update.total_bytes == check.work.total_bytes
            && published.update.source_fingerprint@ == fingerprint::encoded(check.source_after@) && (
        published.update.destination_fingerprint matches Some(known) && known@ == fingerprint::encoded(reply->Ok_0@)),
        next matches Err(stopped) ==> after == before && stopped.operation_outcome
            == OperationOutcome::FailedWithPartialDestination && stopped.failure.status
            == failure::FailureStatus::Partial && (stopped.partial_destination matches Some(left) && left@
            == check.work.job.destination_path@) && (stopped.source_fingerprint matches Some(known) && known@
            == fingerprint::encoded(check.source_after@)) && (stopped.destination_fingerprint is Some <==> reply is Ok),
{
}

/// A rename whose source could not be deleted says so, names its destination, and
/// holds what both files were known by, so that the deletion can be retried.
pub proof fn undeleted_sources_are_told(
    stopped: RemoteTransferFailure,
    failure: failure::FailureView,
    phase: OperationPhase,
    destination_path: Seq<char>,
    source: Seq<char>,
    destination: Seq<char>,
)
    requires
        stopped@ == source_not_deleted(failure, phase, destination_path, source, destination),
    ensures
        stopped.failure.message@ == failure.message,
        stopped.failure.status == failure.status,
        stopped.failure.invalidate_operator == failure.invalidate_operator,
        stopped.operation_outcome == OperationOutcome::CopiedSourceDeleteFailed,
        stopped.operation_phase == phase,
        stopped.partial_destination matches Some(left) && left@ == destination_path,
        stopped.source_fingerprint matches Some(known) && known@ == source,
        stopped.destination_fingerprint matches Some(known) && known@ == destination,
{
}

/// A rename is completed exactly where its source was deleted. A deletion that
/// failed is uncertain and can be retried: it names the destination and holds what
/// both files were known by.
pub proof fn failed_deletions_can_be_retried(
    delete: BackendRenameDelete,
    reply: Result<(), String>,
    end: Result<RemoteTransferOutcome, RemoteTransferFailure>,
)
    requires
        deletion_leads_to(delete, reply, end),
    ensures
        end is Ok <==> reply is Ok,
        end matches Ok(outcome) ==> outcome.bytes_transferred == delete.total_bytes && outcome.total_bytes
            == delete.total_bytes && outcome.operation_outcome == OperationOutcome::Completed
            && outcome.source_fingerprint@ == fingerprint::encoded(delete.deletion.source@)
            && outcome.destination_fingerprint@ == fingerprint::encoded(delete.deletion.destination@),
        end matches Err(stopped) ==> stopped.failure.message@ == reply->Err_0@ && stopped.failure.status
            == failure::FailureStatus::Partial && stopped.operation_outcome
            == OperationOutcome::CopiedSourceDeleteFailed && stopped.operation_phase
            == OperationPhase::DeleteUncertain && (stopped.partial_destination matches Some(left) && left@
            == delete.deletion.destination_path@) && (stopped.source_fingerprint matches Some(known) && known@
            == fingerprint::encoded(delete.deletion.source@)) && (stopped.destination_fingerprint matches Some(known)
            && known@ == fingerprint::encoded(delete.deletion.destination@)),
{
}

/// Before a request was sent, a cancellation keeps the service and a lost
/// connection gives it up; neither leaves anything.
pub proof fn unsent_requests_leave_nothing(stopped: RemoteTransferFailure)
    ensures
        stopped@ == rename_cancelled() || stopped@ == webdav_copy_cancelled() ==> stopped.failure.status
            == failure::FailureStatus::Cancelled && !stopped.failure.invalidate_operator,
        stopped@ == rename_disconnected() || stopped@ == webdav_copy_disconnected() ==> stopped.failure.status
            == failure::FailureStatus::Cancelled && stopped.failure.invalidate_operator,
        stopped@ == rename_cancelled() || stopped@ == webdav_copy_cancelled() || stopped@ == rename_disconnected()
            || stopped@ == webdav_copy_disconnected() ==> stopped.operation_outcome
            == OperationOutcome::FailedBeforeCopy && stopped.partial_destination is None && stopped.operation_phase
            == OperationPhase::Queued,
        stopped@ == rename_cancelled() ==> stopped.failure.message@ == "Native rename was cancelled before dispatch"@,
        stopped@ == webdav_copy_cancelled() ==> stopped.failure.message@ == "Remote COPY was cancelled before dispatch"@,
        stopped@ == rename_disconnected() ==> stopped.failure.message@
            == "The file connection was removed before native rename dispatch"@,
        stopped@ == webdav_copy_disconnected() ==> stopped.failure.message@
            == "The file connection was removed before WebDAV COPY dispatch"@,
{
}

/// A failed abort is told behind what went wrong, and nothing is told of one that
/// did not fail.
pub proof fn failed_aborts_are_told(abort_error: Option<String>)
    ensures
        abort_error is None ==> abort_detail(abort_error).len() == 0,
        abort_error matches Some(error) ==> abort_detail(abort_error) == "; abort failed: "@ + error@,
{
    reveal_strlit("");
}

/// A copy or rename that was counted whole is written down as whole: the bytes and
/// the size that are written down are those of the source, and so are the two
/// fingerprints those of the operation.
pub proof fn whole_operations_are_written_down_whole(
    outcome: RemoteTransferOutcome,
    source: RemoteFileFingerprint,
    counted: TransferProgressSnapshot,
    latest: Option<crate::record::FileTransferStorageRecord>,
    finish: crate::finish::RemoteFinish,
)
    requires
        is_counted_whole(outcome, source, counted),
        finish@ == crate::finish::remote_finished(Ok(outcome), counted, latest),
    ensures
        finish.status == crate::failure::TransferStatus::Completed,
        finish.bytes_transferred == source.size,
        finish.total_bytes matches Some(total) && total == source.size,
        finish.operation_outcome == OperationOutcome::Completed,
        finish.source_fingerprint matches Some(known) && known@ == outcome.source_fingerprint@,
        finish.destination_fingerprint matches Some(known) && known@ == outcome.destination_fingerprint@,
{
    crate::finish::completed_operations_are_written_down_whole(outcome, counted, latest, finish);
}

/// An operation on the server that does not end as it should is told why.
pub proof fn unproven_operations_are_told_why(
    start: ServerSideStart,
    stat: Result<RemoteFileFingerprint, String>,
    before: TransferProgressSnapshot,
    probe: Result<ServerSideProbe, RemoteTransferFailure>,
    after: TransferProgressSnapshot,
    rename: NativeRenameSourceCheck,
    renamed: Result<RemoteTransferOutcome, RemoteTransferFailure>,
    after_rename: TransferProgressSnapshot,
)
    requires
        stat_leads_to(start, stat, before, probe, after),
        rename_check_leads_to(rename, stat, before, renamed, after_rename),
    ensures
        stat is Ok && probe is Err ==> probe->Err_0.failure.message@ == "Remote source size is not representable"@,
        stat is Ok ==> renamed is Err && renamed->Err_0.failure.message@
            == "Native rename returned success but the source is still present"@,
        stat is Err && renamed is Err ==> renamed->Err_0.failure.message@ == stat->Err_0@,
{
}

/// A copy on the server that does not match its source is told so.
pub proof fn unmatched_copies_are_told_why(
    webdav: WebdavCopyDestinationCheck,
    reply: Result<RemoteFileFingerprint, String>,
    before: TransferProgressSnapshot,
    end: Result<RemoteTransferOutcome, RemoteTransferFailure>,
    after: TransferProgressSnapshot,
    backend: BackendCopyDestinationCheck,
    next: Result<BackendCopyNext, RemoteTransferFailure>,
    after_copy: TransferProgressSnapshot,
)
    requires
        webdav_check_leads_to(webdav, reply, before, end, after),
        backend_check_leads_to(backend, reply, before, next, after_copy),
    ensures
        reply matches Err(error) ==> end is Err && end->Err_0.failure.message@ == error@ && next is Err
            && next->Err_0.failure.message@ == error@,
        reply is Ok && end is Err ==> end->Err_0.failure.message@
            == "WebDAV source changed during COPY or destination size did not match"@,
        reply is Ok && next is Err ==> next->Err_0.failure.message@
            == "Source changed during server-side copy or destination size did not match; source deletion was not attempted"@,
        end is Err ==> after == before,
        next is Err ==> after_copy == before,
{
}

} // verus!
