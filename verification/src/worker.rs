//! What a worker checks before it does the work of a queued transfer.
use crate::failure;
use crate::failure::cancelled_failure;
use crate::failure::local_failure;
use crate::failure::remote_failure;
use crate::failure::remote_transfer_before_copy;
use crate::failure::upload_cancelled_failure;
use crate::failure::FailureView;
use crate::failure::RemoteTransferFailure;
use crate::failure::TransferFailure;
use crate::failure::UploadFailure;
use crate::record::FileTransferStorageRecord;
use crate::remote::RemoteOperation;
use crate::text::joined2;
use crate::text::same_text;
use crate::upload::stop_upload;
use vstd::prelude::*;

verus! {

/// How many transfers are listed at most.
pub const TRANSFER_LIST_LIMIT: usize = 100;

/// Whether the work of a transfer may be done, by the status it has.
pub open spec fn may_work(status: Seq<char>) -> Result<(), FailureView> {
    if status == "queued"@ || status == "running"@ {
        Ok(())
    } else if status == "cancelling"@ {
        Err(failure::cancelled_idle("Download cancelled"@))
    } else {
        Err(failure::local_failed("File transfer is already "@ + status))
    }
}

/// The record of a transfer whose work may be done.
pub fn transfer_record_for_worker(found: Result<Option<FileTransferStorageRecord>, String>) -> (record: Result<
    FileTransferStorageRecord,
    TransferFailure,
>)
    ensures
        match found {
            Err(error) => record matches Err(stopped) && stopped@ == failure::local_failed(error@),
            Ok(None) => record matches Err(stopped) && stopped@ == failure::local_failed("File transfer not found"@),
            Ok(Some(transfer)) => match may_work(transfer.status@) {
                Ok(_) => record == Ok::<FileTransferStorageRecord, TransferFailure>(transfer),
                Err(told) => record matches Err(stopped) && stopped@ == told,
            },
        },
{
    match found {
        Err(error) => Err(local_failure(error)),
        Ok(None) => Err(local_failure("File transfer not found".to_owned())),
        Ok(Some(transfer)) => {
            let status = transfer.status.as_str();
            if same_text(status, "queued") || same_text(status, "running") {
                Ok(transfer)
            } else if same_text(status, "cancelling") {
                Err(cancelled_failure())
            } else {
                Err(local_failure(joined2("File transfer is already ", status)))
            }
        },
    }
}

/// What came of waiting for a free place.
#[derive(Clone, Copy, Debug, PartialEq, Eq, Structural)]
pub enum PermitReply {
    Granted,
    Cancelled,
    Closed,
}

/// Which places are waited for: those of the connection first, then those of
/// all connections together.
#[derive(Clone, Copy, Debug, PartialEq, Eq, Structural)]
pub enum PermitKind {
    Connection,
    Global,
}

/// What is said where no place was given.
pub open spec fn permit_granted(kind: PermitKind, reply: PermitReply) -> Result<(), FailureView> {
    match reply {
        PermitReply::Granted => Ok(()),
        PermitReply::Cancelled => Err(failure::cancelled_idle("Download cancelled"@)),
        PermitReply::Closed => Err(
            failure::local_failed(
                match kind {
                    PermitKind::Connection => "Connection transfer limiter closed"@,
                    PermitKind::Global => "Global transfer limiter closed"@,
                },
            ),
        ),
    }
}

/// A worker goes on once it has a place.
pub fn acquire_transfer_permit(kind: PermitKind, reply: PermitReply) -> (granted: Result<(), TransferFailure>)
    ensures
        match granted {
            Ok(_) => permit_granted(kind, reply) is Ok,
            Err(stopped) => permit_granted(kind, reply) == Err::<(), FailureView>(stopped@),
        },
{
    match reply {
        PermitReply::Granted => Ok(()),
        PermitReply::Cancelled => Err(cancelled_failure()),
        PermitReply::Closed => match kind {
            PermitKind::Connection => Err(
                local_failure("Connection transfer limiter closed".to_owned()),
            ),
            PermitKind::Global => Err(local_failure("Global transfer limiter closed".to_owned())),
        },
    }
}

/// The connection that a queued download goes over, or why it is not run.
pub open spec fn download_revision(
    initial: FileTransferStorageRecord,
    current: FileTransferStorageRecord,
) -> Result<i64, Seq<char>> {
    if current.remote_path@ != initial.remote_path@ {
        Err("File transfer remote path changed while queued"@)
    } else {
        match initial.connection_revision {
            Some(revision) => Ok(revision),
            None => Err("Download has no durable file connection revision"@),
        }
    }
}

/// Checks a queued download against what it was queued as.
pub fn check_queued_download(initial: &FileTransferStorageRecord, current: &FileTransferStorageRecord) -> (revision:
    Result<i64, TransferFailure>)
    ensures
        match download_revision(*initial, *current) {
            Ok(expected) => revision == Ok::<i64, TransferFailure>(expected),
            Err(reason) => revision matches Err(stopped) && stopped@ == failure::local_failed(reason),
        },
{
    if !same_text(current.remote_path.as_str(), initial.remote_path.as_str()) {
        return Err(local_failure("File transfer remote path changed while queued".to_owned()));
    }
    match initial.connection_revision {
        Some(revision) => Ok(revision),
        None => Err(local_failure("Download has no durable file connection revision".to_owned())),
    }
}

/// The connection that a queued upload goes over, or why it is not run.
pub open spec fn upload_revision(
    initial: FileTransferStorageRecord,
    current: FileTransferStorageRecord,
) -> Result<i64, Seq<char>> {
    if current.remote_path@ != initial.remote_path@ || current.local_path@ != initial.local_path@ {
        Err("File transfer paths changed while queued"@)
    } else {
        match initial.connection_revision {
            None => Err("Queued upload has no durable connection revision"@),
            Some(revision) => if current.connection_revision == Some(revision) {
                Ok(revision)
            } else {
                Err("File transfer connection revision changed while queued"@)
            },
        }
    }
}

/// Checks a queued upload against what it was queued as.
pub fn check_queued_upload(initial: &FileTransferStorageRecord, current: &FileTransferStorageRecord) -> (revision:
    Result<i64, UploadFailure>)
    ensures
        match upload_revision(*initial, *current) {
            Ok(expected) => revision == Ok::<i64, UploadFailure>(expected),
            Err(reason) => revision matches Err(stopped) && stopped@ == failure::upload_failed(
                failure::local_failed(reason),
            ),
        },
{
    if !same_text(current.remote_path.as_str(), initial.remote_path.as_str()) || !same_text(
        current.local_path.as_str(),
        initial.local_path.as_str(),
    ) {
        return Err(stop_upload(local_failure("File transfer paths changed while queued".to_owned())));
    }
    match initial.connection_revision {
        None => Err(
            stop_upload(local_failure("Queued upload has no durable connection revision".to_owned())),
        ),
        Some(revision) => {
            let same = match current.connection_revision {
                Some(now) => now == revision,
                None => false,
            };
            if same {
                Ok(revision)
            } else {
                Err(
                    stop_upload(
                        local_failure(
                            "File transfer connection revision changed while queued".to_owned(),
                        ),
                    ),
                )
            }
        },
    }
}

/// An upload that was marked as running goes on unless it was cancelled.
pub fn upload_may_run(started: Result<String, String>, cancelled: bool) -> (goes_on: Result<(), UploadFailure>)
    ensures
        match started {
            Err(error) => goes_on matches Err(stopped) && stopped@ == failure::upload_failed(
                failure::local_failed(error@),
            ),
            Ok(status) => if status@ == "cancelling"@ || cancelled {
                goes_on matches Err(stopped) && stopped@ == failure::upload_failed(
                    failure::cancelled_idle("Upload cancelled"@),
                )
            } else {
                goes_on is Ok
            },
        },
{
    match started {
        Err(error) => Err(stop_upload(local_failure(error))),
        Ok(status) => {
            if same_text(status.as_str(), "cancelling") || cancelled {
                Err(stop_upload(upload_cancelled_failure()))
            } else {
                Ok(())
            }
        },
    }
}

/// The connection that a queued copy or rename goes over, or why it is not run.
pub open spec fn remote_revision(
    initial: FileTransferStorageRecord,
    current: FileTransferStorageRecord,
    operation: RemoteOperation,
) -> Result<i64, Seq<char>> {
    if current.remote_path@ != initial.remote_path@ || current.local_path@ != initial.local_path@
        || current.direction@ != operation.text() {
        Err("Remote transfer paths or operation changed while queued"@)
    } else {
        match current.connection_revision {
            Some(revision) => Ok(revision),
            None => Err("Queued remote transfer has no connection revision"@),
        }
    }
}

/// Checks a queued copy or rename against what it was queued as.
pub fn check_queued_remote_transfer(
    initial: &FileTransferStorageRecord,
    current: &FileTransferStorageRecord,
    operation: RemoteOperation,
) -> (revision: Result<i64, RemoteTransferFailure>)
    ensures
        match remote_revision(*initial, *current, operation) {
            Ok(expected) => revision == Ok::<i64, RemoteTransferFailure>(expected),
            Err(reason) => revision matches Err(stopped) && stopped@ == failure::before_copy(
                failure::local_failed(reason),
            ),
        },
{
    if !same_text(current.remote_path.as_str(), initial.remote_path.as_str()) || !same_text(
        current.local_path.as_str(),
        initial.local_path.as_str(),
    ) || !same_text(current.direction.as_str(), operation.as_str()) {
        return Err(
            remote_transfer_before_copy(
                local_failure("Remote transfer paths or operation changed while queued".to_owned()),
            ),
        );
    }
    match current.connection_revision {
        Some(revision) => Ok(revision),
        None => Err(
            remote_transfer_before_copy(
                local_failure("Queued remote transfer has no connection revision".to_owned()),
            ),
        ),
    }
}

/// What came of getting a connection ready for a transfer.
#[derive(Debug)]
pub enum PrepareReply {
    Cancelled,
    Failed(String),
    Ready,
}

/// What a download, copy or rename fails with whose connection did not get
/// ready.
pub fn connection_ready(reply: PrepareReply) -> (ready: Result<(), TransferFailure>)
    ensures
        match reply {
            PrepareReply::Cancelled => ready matches Err(stopped) && stopped@ == failure::cancelled_idle(
                "Download cancelled"@,
            ),
            PrepareReply::Failed(error) => ready matches Err(stopped) && stopped@ == failure::remote_failed(error@),
            PrepareReply::Ready => ready is Ok,
        },
{
    match reply {
        PrepareReply::Cancelled => Err(cancelled_failure()),
        PrepareReply::Failed(error) => Err(remote_failure(error)),
        PrepareReply::Ready => Ok(()),
    }
}

/// What an upload fails with whose connection did not get ready.
pub fn upload_connection_ready(reply: PrepareReply) -> (ready: Result<(), UploadFailure>)
    ensures
        match reply {
            PrepareReply::Cancelled => ready matches Err(stopped) && stopped@ == failure::upload_failed(
                failure::cancelled_idle("Upload cancelled"@),
            ),
            PrepareReply::Failed(error) => ready matches Err(stopped) && stopped@ == failure::upload_failed(
                failure::remote_failed(error@),
            ),
            PrepareReply::Ready => ready is Ok,
        },
{
    match reply {
        PrepareReply::Cancelled => Err(stop_upload(upload_cancelled_failure())),
        PrepareReply::Failed(error) => Err(stop_upload(remote_failure(error))),
        PrepareReply::Ready => Ok(()),
    }
}

/// Says whether a request to cancel reaches a worker: the transfer is still
/// under way.
pub fn cancel_reaches_worker(status: &str) -> (reaches: bool)
    ensures
        reaches == (status@ == "cancelling"@),
{
    same_text(status, "cancelling")
}

/// A transfer has to be known before it is told about.
pub fn known_transfer(found: Option<FileTransferStorageRecord>) -> (known: Result<FileTransferStorageRecord, String>)
    ensures
        match found {
            Some(transfer) => known == Ok::<FileTransferStorageRecord, String>(transfer),
            None => known matches Err(told) && told@ == "File transfer not found"@,
        },
{
    match found {
        Some(transfer) => Ok(transfer),
        None => Err("File transfer not found".to_owned()),
    }
}

/// The work of a transfer is done exactly where it is queued or running. One that
/// is being cancelled stops as cancelled, and any other fails and says what it is
/// already.
pub proof fn only_waiting_transfers_are_worked_on(status: Seq<char>)
    ensures
        status == "queued"@ || status == "running"@ ==> may_work(status) is Ok,
        may_work(status) is Ok ==> status == "queued"@ || status == "running"@,
        status == "cancelling"@ ==> may_work(status) is Err && may_work(status)->Err_0.status
            == failure::FailureStatus::Cancelled && !may_work(status)->Err_0.invalidate_operator,
        may_work(status) is Err && status != "cancelling"@ ==> may_work(status)->Err_0.status
            == failure::FailureStatus::Failed && !may_work(status)->Err_0.invalidate_operator
            && may_work(status)->Err_0.message == "File transfer is already "@ + status,
{
    reveal_strlit("queued");
    reveal_strlit("running");
    reveal_strlit("cancelling");
    assert("queued"@.len() == 6 && "running"@.len() == 7 && "cancelling"@.len() == 10);
}

/// A transfer runs exactly where it was given a place. One that was cancelled while
/// it waited stops as cancelled, and keeps the service.
pub proof fn transfers_wait_for_a_place(kind: PermitKind, reply: PermitReply)
    ensures
        permit_granted(kind, reply) is Ok <==> reply is Granted,
        reply is Cancelled ==> permit_granted(kind, reply)->Err_0.status == failure::FailureStatus::Cancelled,
        reply is Closed ==> permit_granted(kind, reply)->Err_0.status == failure::FailureStatus::Failed,
        permit_granted(kind, reply) matches Err(stopped) ==> !stopped.invalidate_operator,
{
}

/// A queued transfer runs only as it was queued: over the connection that it was
/// queued with, and between the same two files.
pub proof fn queued_transfers_run_as_they_were_queued(
    initial: FileTransferStorageRecord,
    current: FileTransferStorageRecord,
    operation: RemoteOperation,
    revision: i64,
)
    ensures
        download_revision(initial, current) == Ok::<i64, Seq<char>>(revision) <==> current.remote_path@
            == initial.remote_path@ && initial.connection_revision == Some(revision),
        upload_revision(initial, current) == Ok::<i64, Seq<char>>(revision) <==> current.remote_path@
            == initial.remote_path@ && current.local_path@ == initial.local_path@ && initial.connection_revision
            == Some(revision) && current.connection_revision == Some(revision),
        remote_revision(initial, current, operation) == Ok::<i64, Seq<char>>(revision) <==> current.remote_path@
            == initial.remote_path@ && current.local_path@ == initial.local_path@ && current.direction@
            == operation.text() && current.connection_revision == Some(revision),
{
}

/// A transfer that is not run is told what changed while it was queued, or what it
/// lacks.
pub proof fn changed_transfers_are_told_what_changed(
    initial: FileTransferStorageRecord,
    current: FileTransferStorageRecord,
    operation: RemoteOperation,
    kind: PermitKind,
)
    ensures
        current.remote_path@ != initial.remote_path@ ==> download_revision(initial, current) == Err::<i64, Seq<char>>(
            "File transfer remote path changed while queued"@,
        ),
        current.remote_path@ == initial.remote_path@ && initial.connection_revision is None ==> download_revision(
            initial,
            current,
        ) == Err::<i64, Seq<char>>("Download has no durable file connection revision"@),
        current.remote_path@ != initial.remote_path@ || current.local_path@ != initial.local_path@ ==> upload_revision(
            initial,
            current,
        ) == Err::<i64, Seq<char>>("File transfer paths changed while queued"@) && remote_revision(
            initial,
            current,
            operation,
        ) == Err::<i64, Seq<char>>("Remote transfer paths or operation changed while queued"@),
        current.direction@ != operation.text() ==> remote_revision(initial, current, operation) == Err::<i64, Seq<char>>(
            "Remote transfer paths or operation changed while queued"@,
        ),
        current.remote_path@ == initial.remote_path@ && current.local_path@ == initial.local_path@ ==> {
            &&& initial.connection_revision is None ==> upload_revision(initial, current) == Err::<i64, Seq<char>>(
                "Queued upload has no durable connection revision"@,
            )
            &&& initial.connection_revision is Some && current.connection_revision != initial.connection_revision
                ==> upload_revision(initial, current) == Err::<i64, Seq<char>>(
                "File transfer connection revision changed while queued"@,
            )
            &&& current.direction@ == operation.text() && current.connection_revision is None ==> remote_revision(
                initial,
                current,
                operation,
            ) == Err::<i64, Seq<char>>("Queued remote transfer has no connection revision"@)
        },
        permit_granted(kind, PermitReply::Cancelled)->Err_0.message == "Download cancelled"@,
        permit_granted(PermitKind::Connection, PermitReply::Closed)->Err_0.message
            == "Connection transfer limiter closed"@,
        permit_granted(PermitKind::Global, PermitReply::Closed)->Err_0.message == "Global transfer limiter closed"@,
{
}

} // verus!
