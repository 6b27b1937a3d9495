//! What can be said of a request whose answer was lost, from what is found at
//! the source and at the destination afterwards.
use crate::failure;
use crate::failure::cancelled_before;
use crate::failure::local_failure;
use crate::failure::partial_failure;
use crate::failure::remote_transfer_before_copy;
use crate::failure::OperationOutcome;
use crate::failure::OperationPhase;
use crate::failure::RemoteFailureView;
use crate::failure::RemoteTransferFailure;
use crate::fingerprint;
use crate::fingerprint::FingerprintView;
use crate::fingerprint::RemoteFileFingerprint;
use crate::remote::BackendTraits;
use crate::text;
use crate::text::contains;
use crate::text::joined2;
use crate::text::joined3;
use crate::text::joined5;
use crate::text::same_optional_text;
use vstd::prelude::*;

verus! {

/// An error says that the file is not there.
pub open spec fn tells_absence(error: Seq<char>) -> bool {
    text::occurs_in(error, "no longer exists"@)
}

/// Says whether an error means that the file is not there.
pub fn error_tells_absence(error: &str) -> (absent: bool)
    ensures
        absent == tells_absence(error@),
{
    contains(error, "no longer exists")
}

/// Two files agree in size and in an entity tag that both of them have.
pub open spec fn proves_copy(source: FingerprintView, destination: FingerprintView) -> bool {
    destination.size == source.size && source.etag is Some && destination.etag == source.etag
}

fn copy_is_proven(source: &RemoteFileFingerprint, destination: &RemoteFileFingerprint) -> (proven: bool)
    ensures
        proven == proves_copy(source@, destination@),
{
    destination.size == source.size && source.etag.is_some() && same_optional_text(
        &destination.etag,
        &source.etag,
    )
}

/// A failure that found something at the destination, or may have.
pub open spec fn settled(
    message: Seq<char>,
    outcome: OperationOutcome,
    partial: Option<Seq<char>>,
    source: Seq<char>,
    destination: Option<Seq<char>>,
) -> RemoteFailureView {
    RemoteFailureView {
        failure: failure::partly_failed(message),
        operation_outcome: outcome,
        operation_phase: OperationPhase::Copying,
        partial_destination: partial,
        source_fingerprint: Some(source),
        destination_fingerprint: destination,
    }
}

fn settle(
    message: String,
    outcome: OperationOutcome,
    partial: Option<String>,
    source: String,
    destination: Option<String>,
) -> (settlement: RemoteTransferFailure)
    ensures
        settlement@ == settled(
            message@,
            outcome,
            text::optional_text(partial),
            source@,
            text::optional_text(destination),
        ),
{
    RemoteTransferFailure {
        failure: partial_failure(message),
        operation_outcome: outcome,
        operation_phase: OperationPhase::Copying,
        partial_destination: partial,
        source_fingerprint: Some(source),
        destination_fingerprint: destination,
    }
}

/// What is reported of a server-side copy with an uncertain answer.
pub open spec fn uncertain_copy_settled(
    observed: Result<RemoteFileFingerprint, String>,
    source: FingerprintView,
    destination_path: Seq<char>,
    detail: Seq<char>,
    cancelled: bool,
) -> RemoteFailureView {
    match observed {
        Err(error) => if tells_absence(error@) {
            let message = detail + "; destination is absent after reconciliation"@;
            failure::before_copy(
                if cancelled {
                    failure::cancelled_idle(message)
                } else {
                    failure::local_failed(message)
                },
            )
        } else {
            settled(
                detail + "; destination reconciliation failed: "@ + error@,
                OperationOutcome::DestinationStateUnknown,
                None,
                fingerprint::encoded(source),
                None,
            )
        },
        Ok(destination) => if proves_copy(source, destination@) {
            settled(
                detail
                    + "; destination is committed and matches the durable source fingerprint, but the copy response was lost"@,
                OperationOutcome::CopyCommittedResponseUnknown,
                Some(destination_path),
                fingerprint::encoded(source),
                Some(fingerprint::encoded(destination@)),
            )
        } else {
            settled(
                detail + "; destination exists but could not be proven to match the source"@,
                OperationOutcome::DestinationPresentUnproven,
                Some(destination_path),
                fingerprint::encoded(source),
                Some(fingerprint::encoded(destination@)),
            )
        },
    }
}

/// Settles a server-side copy with an uncertain answer.
pub fn reconcile_uncertain_server_side_copy(
    observed: Result<RemoteFileFingerprint, String>,
    source: &RemoteFileFingerprint,
    destination_path: &str,
    detail: &str,
    cancelled: bool,
) -> (settlement: RemoteTransferFailure)
    ensures
        settlement@ == uncertain_copy_settled(observed, source@, destination_path@, detail@, cancelled),
{
    match observed {
        Err(error) => {
            if error_tells_absence(error.as_str()) {
                let message = joined2(detail, "; destination is absent after reconciliation");
                if cancelled {
                    remote_transfer_before_copy(cancelled_before(message))
                } else {
                    remote_transfer_before_copy(local_failure(message))
                }
            } else {
                settle(
                    joined3(detail, "; destination reconciliation failed: ", error.as_str()),
                    OperationOutcome::DestinationStateUnknown,
                    None,
                    source.encode(),
                    None,
                )
            }
        },
        Ok(destination) => {
            if copy_is_proven(source, &destination) {
                settle(
                    joined2(
                        detail,
                        "; destination is committed and matches the durable source fingerprint, but the copy response was lost",
                    ),
                    OperationOutcome::CopyCommittedResponseUnknown,
                    Some(destination_path.to_owned()),
                    source.encode(),
                    Some(destination.encode()),
                )
            } else {
                settle(
                    joined2(detail, "; destination exists but could not be proven to match the source"),
                    OperationOutcome::DestinationPresentUnproven,
                    Some(destination_path.to_owned()),
                    source.encode(),
                    Some(destination.encode()),
                )
            }
        },
    }
}

/// What is reported of a WebDAV COPY with an uncertain answer. A COPY that was
/// sent may still be carried out, so an absent destination proves nothing.
pub open spec fn uncertain_webdav_copy_settled(
    observed: Result<RemoteFileFingerprint, String>,
    source: FingerprintView,
    destination_path: Seq<char>,
    detail: Seq<char>,
) -> RemoteFailureView {
    match observed {
        Ok(destination) => if proves_copy(source, destination@) {
            settled(
                detail
                    + "; destination matches the durable source fingerprint, but the COPY response was lost"@,
                OperationOutcome::CopyCommittedResponseUnknown,
                Some(destination_path),
                fingerprint::encoded(source),
                Some(fingerprint::encoded(destination@)),
            )
        } else {
            settled(
                detail + "; destination exists but could not be proven to match the source"@,
                OperationOutcome::DestinationPresentUnproven,
                Some(destination_path),
                fingerprint::encoded(source),
                Some(fingerprint::encoded(destination@)),
            )
        },
        Err(error) => settled(
            if tells_absence(error@) {
                detail + "; destination is currently absent, but a dispatched COPY may still commit"@
            } else {
                detail + "; destination reconciliation failed: "@ + error@
            },
            OperationOutcome::DestinationStateUnknown,
            None,
            fingerprint::encoded(source),
            None,
        ),
    }
}

/// Settles a WebDAV COPY with an uncertain answer.
pub fn reconcile_uncertain_webdav_copy(
    observed: Result<RemoteFileFingerprint, String>,
    source: &RemoteFileFingerprint,
    destination_path: &str,
    detail: &str,
) -> (settlement: RemoteTransferFailure)
    ensures
        settlement@ == uncertain_webdav_copy_settled(observed, source@, destination_path@, detail@),
{
    match observed {
        Ok(destination) => {
            if copy_is_proven(source, &destination) {
                settle(
                    joined2(
                        detail,
                        "; destination matches the durable source fingerprint, but the COPY response was lost",
                    ),
                    OperationOutcome::CopyCommittedResponseUnknown,
                    Some(destination_path.to_owned()),
                    source.encode(),
                    Some(destination.encode()),
                )
            } else {
                settle(
                    joined2(detail, "; destination exists but could not be proven to match the source"),
                    OperationOutcome::DestinationPresentUnproven,
                    Some(destination_path.to_owned()),
                    source.encode(),
                    Some(destination.encode()),
                )
            }
        },
        Err(error) => {
            let message = if error_tells_absence(error.as_str()) {
                joined2(detail, "; destination is currently absent, but a dispatched COPY may still commit")
            } else {
                joined3(detail, "; destination reconciliation failed: ", error.as_str())
            };
            settle(
                message,
                OperationOutcome::DestinationStateUnknown,
                None,
                source.encode(),
                None,
            )
        },
    }
}

/// How an observation is named in a message.
pub open spec fn presence(observed: Result<RemoteFileFingerprint, String>) -> Seq<char> {
    match observed {
        Ok(_) => "present"@,
        Err(_) => "unknown"@,
    }
}

fn presence_of(observed: &Result<RemoteFileFingerprint, String>) -> (name: &'static str)
    ensures
        name@ == presence(*observed),
{
    match observed {
        Ok(_) => "present",
        Err(_) => "unknown",
    }
}

/// What is reported of a native rename with an uncertain answer, where
/// `matches` says whether the destination is what the source was.
pub open spec fn uncertain_move_settled(
    source: Result<RemoteFileFingerprint, String>,
    destination: Result<RemoteFileFingerprint, String>,
    matches: bool,
    source_before: FingerprintView,
    destination_path: Seq<char>,
    detail: Seq<char>,
    cancelled: bool,
) -> RemoteFailureView {
    match (source, destination) {
        (Ok(still), Ok(moved)) => settled(
            detail + "; both source and destination are present, so the server outcome is unproven"@,
            OperationOutcome::DestinationPresentUnproven,
            Some(destination_path),
            fingerprint::encoded(still@),
            Some(fingerprint::encoded(moved@)),
        ),
        (Err(error), Ok(moved)) => if tells_absence(error@) && matches {
            settled(
                detail
                    + "; source is absent and destination is present, but the MOVE response was not observed"@,
                OperationOutcome::MoveCommittedResponseUnknown,
                Some(destination_path),
                fingerprint::encoded(source_before),
                Some(fingerprint::encoded(moved@)),
            )
        } else {
            inconclusive_move(source, destination, source_before, detail)
        },
        (Ok(still), Err(error)) => if tells_absence(error@) {
            settled(
                detail
                    + "; source remains and destination is currently absent, but a dispatched MOVE may still commit"@
                    + (if cancelled {
                    " after cancellation"@
                } else {
                    ""@
                }),
                OperationOutcome::DestinationStateUnknown,
                None,
                fingerprint::encoded(still@),
                None,
            )
        } else {
            inconclusive_move(source, destination, source_before, detail)
        },
        _ => inconclusive_move(source, destination, source_before, detail),
    }
}

/// A native rename of which nothing can be said.
pub open spec fn inconclusive_move(
    source: Result<RemoteFileFingerprint, String>,
    destination: Result<RemoteFileFingerprint, String>,
    source_before: FingerprintView,
    detail: Seq<char>,
) -> RemoteFailureView {
    settled(
        detail + "; native rename reconciliation was inconclusive (source="@ + presence(source) + ", destination="@
            + presence(destination) + ")"@,
        OperationOutcome::DestinationStateUnknown,
        None,
        fingerprint::encoded(source_before),
        None,
    )
}

fn settle_inconclusive_move(
    source: &Result<RemoteFileFingerprint, String>,
    destination: &Result<RemoteFileFingerprint, String>,
    source_before: &RemoteFileFingerprint,
    detail: &str,
) -> (settlement: RemoteTransferFailure)
    ensures
        settlement@ == inconclusive_move(*source, *destination, source_before@, detail@),
{
    let message = joined5(
        detail,
        "; native rename reconciliation was inconclusive (source=",
        presence_of(source),
        ", destination=",
        presence_of(destination),
    );
    settle(
        joined2(message.as_str(), ")"),
        OperationOutcome::DestinationStateUnknown,
        None,
        source_before.encode(),
        None,
    )
}

/// Settles a native rename with an uncertain answer.
pub fn reconcile_uncertain_native_move(
    source: Result<RemoteFileFingerprint, String>,
    destination: Result<RemoteFileFingerprint, String>,
    matches: bool,
    source_before: &RemoteFileFingerprint,
    destination_path: &str,
    detail: &str,
    cancelled: bool,
) -> (settlement: RemoteTransferFailure)
    ensures
        settlement@ == uncertain_move_settled(
            source,
            destination,
            matches,
            source_before@,
            destination_path@,
            detail@,
            cancelled,
        ),
{
    match (&source, &destination) {
        (Ok(still), Ok(moved)) => settle(
            joined2(detail, "; both source and destination are present, so the server outcome is unproven"),
            OperationOutcome::DestinationPresentUnproven,
            Some(destination_path.to_owned()),
            still.encode(),
            Some(moved.encode()),
        ),
        (Err(error), Ok(moved)) => {
            if error_tells_absence(error.as_str()) && matches {
                settle(
                    joined2(
                        detail,
                        "; source is absent and destination is present, but the MOVE response was not observed",
                    ),
                    OperationOutcome::MoveCommittedResponseUnknown,
                    Some(destination_path.to_owned()),
                    source_before.encode(),
                    Some(moved.encode()),
                )
            } else {
                settle_inconclusive_move(&source, &destination, source_before, detail)
            }
        },
        (Ok(still), Err(error)) => {
            if error_tells_absence(error.as_str()) {
                let when = if cancelled {
                    " after cancellation"
                } else {
                    ""
                };
                settle(
                    joined3(
                        detail,
                        "; source remains and destination is currently absent, but a dispatched MOVE may still commit",
                        when,
                    ),
                    OperationOutcome::DestinationStateUnknown,
                    None,
                    still.encode(),
                    None,
                )
            } else {
                settle_inconclusive_move(&source, &destination, source_before, detail)
            }
        },
        _ => settle_inconclusive_move(&source, &destination, source_before, detail),
    }
}

/// The backend's rename goes straight to a name node or gateway, over a client
/// that an uncertain answer makes unusable.
pub open spec fn renames_directly(backend: BackendTraits) -> bool {
    backend.direct_hdfs_native_rename || backend.direct_webhdfs_rename
}

/// The operator is to be built anew where the rename went straight to a name
/// node or gateway.
pub open spec fn invalidated_after_move(backend: BackendTraits, settlement: RemoteFailureView) -> RemoteFailureView {
    RemoteFailureView {
        failure: crate::failure::FailureView {
            invalidate_operator: settlement.failure.invalidate_operator || renames_directly(backend),
            ..settlement.failure
        },
        ..settlement
    }
}

/// Marks the operator for a rebuild where the rename went straight to a name
/// node or gateway.
pub fn invalidate_after_uncertain_move(backend: BackendTraits, settlement: RemoteTransferFailure) -> (marked:
    RemoteTransferFailure)
    ensures
        marked@ == invalidated_after_move(backend, settlement@),
{
    let mut marked = settlement;
    if backend.direct_hdfs_native_rename || backend.direct_webhdfs_rename {
        marked.failure.invalidate_operator = true;
    }
    marked
}

/// A lost answer is never reported as a completed copy, and as a committed one
/// only where size and entity tag of both files agree. What is found at the
/// destination is always named, and nothing is named that was not found.
pub proof fn uncertain_copies_claim_only_what_was_found(
    observed: Result<RemoteFileFingerprint, String>,
    source: FingerprintView,
    destination_path: Seq<char>,
    detail: Seq<char>,
    cancelled: bool,
)
    ensures
        ({
            let copy = uncertain_copy_settled(observed, source, destination_path, detail, cancelled);
            let webdav = uncertain_webdav_copy_settled(observed, source, destination_path, detail);
            &&& copy.operation_outcome != OperationOutcome::Completed
            &&& webdav.operation_outcome != OperationOutcome::Completed
            &&& copy.operation_outcome == OperationOutcome::CopyCommittedResponseUnknown <==> (observed is Ok
                && proves_copy(source, observed->Ok_0@))
            &&& webdav.operation_outcome == OperationOutcome::CopyCommittedResponseUnknown <==> (observed is Ok
                && proves_copy(source, observed->Ok_0@))
            &&& copy.partial_destination == (if observed is Ok {
                Some(destination_path)
            } else {
                None
            })
            &&& webdav.partial_destination == copy.partial_destination
            &&& webdav.destination_fingerprint == copy.destination_fingerprint
        }),
{
}

/// A rename whose answer was lost is reported as carried out only where the
/// source is gone and the destination is what the source was; a source that was
/// seen afterwards is never reported as moved.
pub proof fn uncertain_moves_claim_only_what_was_found(
    source: Result<RemoteFileFingerprint, String>,
    destination: Result<RemoteFileFingerprint, String>,
    matches: bool,
    source_before: FingerprintView,
    destination_path: Seq<char>,
    detail: Seq<char>,
    cancelled: bool,
)
    ensures
        ({
            let settlement = uncertain_move_settled(
                source,
                destination,
                matches,
                source_before,
                destination_path,
                detail,
                cancelled,
            );
            &&& settlement.operation_outcome != OperationOutcome::Completed
            &&& settlement.failure.invalidate_operator
            &&& settlement.operation_outcome == OperationOutcome::MoveCommittedResponseUnknown <==> (source is Err
                && tells_absence(source->Err_0@) && destination is Ok && matches)
            &&& settlement.partial_destination is Some ==> destination is Ok
        }),
{
}

/// An error tells that a file is gone exactly where it says that the file no
/// longer exists, whatever else it says.
pub proof fn absence_is_told_in_words(before: Seq<char>, after: Seq<char>, error: Seq<char>)
    ensures
        tells_absence(before + "no longer exists"@ + after),
        tells_absence(error) ==> exists|at: int| text::occurs_at(error, "no longer exists"@, at),
        error.len() < 16 ==> !tells_absence(error),
{
    reveal_strlit("no longer exists");
    let all = before + "no longer exists"@ + after;
    let at = before.len() as int;
    assert(all.subrange(at, at + 16) =~= "no longer exists"@);
    assert(text::occurs_at(all, "no longer exists"@, at));
    if tells_absence(error) {
        let at = choose|at: int| text::occurs_at(error, "no longer exists"@, at);
        assert(text::occurs_at(error, "no longer exists"@, at));
    }
}

/// A copy is proven exactly where both files have the same size and the same
/// entity tag, which both of them must have: one that is missing proves nothing.
pub proof fn copies_are_proven_by_size_and_tag(source: RemoteFileFingerprint, destination: RemoteFileFingerprint)
    ensures
        proves_copy(source@, destination@) <==> source.size == destination.size && source.etag is Some
            && destination.etag is Some && source.etag->0@ == destination.etag->0@,
{
}

/// What is found behind a copy whose answer was lost decides what is told of it: a
/// proven copy was committed; any other destination is unproven; where nothing
/// stands, nothing was copied; and where nothing could be seen, nothing is known.
pub proof fn lost_copies_are_told_by_what_stands(
    observed: Result<RemoteFileFingerprint, String>,
    source: RemoteFileFingerprint,
    destination_path: Seq<char>,
    detail: Seq<char>,
    cancelled: bool,
    settlement: RemoteTransferFailure,
)
    requires
        settlement@ == uncertain_copy_settled(observed, source@, destination_path, detail, cancelled),
    ensures
        text::has_prefix(settlement.failure.message@, detail),
        observed matches Ok(destination) ==> {
            let proven = source.size == destination.size && source.etag is Some && destination.etag is Some
                && source.etag->0@ == destination.etag->0@;
            &&& settlement.operation_outcome == (if proven {
                OperationOutcome::CopyCommittedResponseUnknown
            } else {
                OperationOutcome::DestinationPresentUnproven
            })
            &&& settlement.failure.status == failure::FailureStatus::Partial
            &&& settlement.failure.invalidate_operator
            &&& settlement.operation_phase == OperationPhase::Copying
            &&& settlement.partial_destination matches Some(left) && left@ == destination_path
            &&& settlement.source_fingerprint matches Some(known) && known@ == fingerprint::encoded(source@)
            &&& settlement.destination_fingerprint matches Some(known) && known@ == fingerprint::encoded(destination@)
        },
        observed matches Err(error) ==> {
            let gone = text::occurs_in(error@, "no longer exists"@);
            &&& settlement.partial_destination is None
            &&& settlement.destination_fingerprint is None
            &&& gone ==> settlement.operation_outcome == OperationOutcome::FailedBeforeCopy
                && settlement.operation_phase == OperationPhase::Queued && !settlement.failure.invalidate_operator && (
            settlement.failure.status == (if cancelled {
                failure::FailureStatus::Cancelled
            } else {
                failure::FailureStatus::Failed
            }))
            &&& !gone ==> settlement.operation_outcome == OperationOutcome::DestinationStateUnknown
                && settlement.failure.status == failure::FailureStatus::Partial && (
            settlement.source_fingerprint matches Some(known) && known@ == fingerprint::encoded(source@))
        },
{
    let all = settlement.failure.message@;
    assert(all.subrange(0, detail.len() as int) =~= detail);
}

/// A WebDAV COPY whose answer was lost is told like any other, but for a
/// destination that is not there: it may still come, so nothing is known of it.
pub proof fn lost_webdav_copies_may_still_come(
    observed: Result<RemoteFileFingerprint, String>,
    source: RemoteFileFingerprint,
    destination_path: Seq<char>,
    detail: Seq<char>,
    settlement: RemoteTransferFailure,
)
    requires
        settlement@ == uncertain_webdav_copy_settled(observed, source@, destination_path, detail),
    ensures
        text::has_prefix(settlement.failure.message@, detail),
        settlement.failure.status == failure::FailureStatus::Partial,
        settlement.failure.invalidate_operator,
        settlement.operation_phase == OperationPhase::Copying,
        settlement.source_fingerprint matches Some(known) && known@ == fingerprint::encoded(source@),
        observed is Err ==> settlement.operation_outcome == OperationOutcome::DestinationStateUnknown
            && settlement.partial_destination is None && settlement.destination_fingerprint is None,
        observed matches Ok(destination) ==> {
            &&& settlement.operation_outcome == (if source.size == destination.size && source.etag is Some
                && destination.etag is Some && source.etag->0@ == destination.etag->0@ {
                OperationOutcome::CopyCommittedResponseUnknown
            } else {
                OperationOutcome::DestinationPresentUnproven
            })
            &&& settlement.partial_destination matches Some(left) && left@ == destination_path
            &&& settlement.destination_fingerprint matches Some(known) && known@ == fingerprint::encoded(destination@)
        },
{
    let all = settlement.failure.message@;
    assert(all.subrange(0, detail.len() as int) =~= detail);
}

/// What is found at both ends behind a rename whose answer was lost decides what is
/// told of it: it was carried out only where the source is known to be gone and
/// the destination matches; where both stand, the destination is unproven; and
/// otherwise nothing is known.
pub proof fn lost_renames_are_told_by_what_stands(
    source: Result<RemoteFileFingerprint, String>,
    destination: Result<RemoteFileFingerprint, String>,
    matches: bool,
    source_before: RemoteFileFingerprint,
    destination_path: Seq<char>,
    detail: Seq<char>,
    cancelled: bool,
    settlement: RemoteTransferFailure,
)
    requires
        settlement@ == uncertain_move_settled(
            source,
            destination,
            matches,
            source_before@,
            destination_path,
            detail,
            cancelled,
        ),
    ensures
        text::has_prefix(settlement.failure.message@, detail),
        settlement.failure.status == failure::FailureStatus::Partial,
        settlement.failure.invalidate_operator,
        settlement.operation_phase == OperationPhase::Copying,
        ({
            let gone = source matches Err(error) && text::occurs_in(error@, "no longer exists"@);
            let moved = gone && destination is Ok && matches;
            let both = source is Ok && destination is Ok;
            &&& moved ==> settlement.operation_outcome == OperationOutcome::MoveCommittedResponseUnknown
            &&& both ==> settlement.operation_outcome == OperationOutcome::DestinationPresentUnproven
            &&& !moved && !both ==> settlement.operation_outcome == OperationOutcome::DestinationStateUnknown
                && settlement.partial_destination is None && settlement.destination_fingerprint is None
            &&& moved || both ==> (settlement.partial_destination matches Some(left) && left@ == destination_path) && (
            settlement.destination_fingerprint matches Some(known) && known@ == fingerprint::encoded(
                destination->Ok_0@,
            ))
            &&& settlement.source_fingerprint is Some
            &&& both ==> settlement.source_fingerprint->0@ == fingerprint::encoded(source->Ok_0@)
            &&& source is Err ==> settlement.source_fingerprint->0@ == fingerprint::encoded(source_before@)
        }),
{
    let all = settlement.failure.message@;
    assert(all.subrange(0, detail.len() as int) =~= detail);
}

/// A rename that went straight to a name node or gateway gives up its service, and
/// nothing else of what is told of it changes.
pub proof fn direct_renames_give_up_their_service(
    backend: BackendTraits,
    before: RemoteTransferFailure,
    after: RemoteTransferFailure,
)
    requires
        after@ == invalidated_after_move(backend, before@),
    ensures
        backend.direct_hdfs_native_rename || backend.direct_webhdfs_rename ==> after.failure.invalidate_operator,
        !backend.direct_hdfs_native_rename && !backend.direct_webhdfs_rename ==> after.failure.invalidate_operator
            == before.failure.invalidate_operator,
        after.failure.message@ == before.failure.message@ && after.failure.status == before.failure.status,
        after.operation_outcome == before.operation_outcome && after.operation_phase == before.operation_phase,
        text::optional_text(after.partial_destination) == text::optional_text(before.partial_destination),
        text::optional_text(after.source_fingerprint) == text::optional_text(before.source_fingerprint),
        text::optional_text(after.destination_fingerprint) == text::optional_text(before.destination_fingerprint),
        renames_directly(backend) <==> backend.direct_hdfs_native_rename || backend.direct_webhdfs_rename,
{
    assert(after@.failure.message == before@.failure.message);
    assert(after@.partial_destination == before@.partial_destination);
    assert(after@.source_fingerprint == before@.source_fingerprint);
    assert(after@.destination_fingerprint == before@.destination_fingerprint);
}

/// An operation whose answer was lost is told with what was found of it.
pub proof fn lost_answers_are_told_with_what_was_found(
    source: Result<RemoteFileFingerprint, String>,
    destination: Result<RemoteFileFingerprint, String>,
    matches_source: bool,
    before: FingerprintView,
    destination_path: Seq<char>,
    detail: Seq<char>,
    cancelled: bool,
)
    ensures
        ({
            let copy = uncertain_copy_settled(destination, before, destination_path, detail, cancelled).failure.message;
            let webdav = uncertain_webdav_copy_settled(destination, before, destination_path, detail).failure.message;
            &&& destination matches Err(error) ==> (if text::occurs_in(error@, "no longer exists"@) {
                copy == detail + "; destination is absent after reconciliation"@ && webdav == detail
                    + "; destination is currently absent, but a dispatched COPY may still commit"@
            } else {
                copy == detail + "; destination reconciliation failed: "@ + error@ && webdav == detail
                    + "; destination reconciliation failed: "@ + error@
            })
            &&& destination matches Ok(found) ==> (if found.size == before.size && before.etag is Some && found@.etag
                == before.etag {
                copy == detail
                    + "; destination is committed and matches the durable source fingerprint, but the copy response was lost"@
                    && webdav == detail
                    + "; destination matches the durable source fingerprint, but the COPY response was lost"@
            } else {
                copy == detail + "; destination exists but could not be proven to match the source"@ && webdav
                    == detail + "; destination exists but could not be proven to match the source"@
            })
        }),
        ({
            let moved = uncertain_move_settled(
                source,
                destination,
                matches_source,
                before,
                destination_path,
                detail,
                cancelled,
            ).failure.message;
            let source_gone = source is Err && text::occurs_in(source->Err_0@, "no longer exists"@);
            let destination_gone = destination is Err && text::occurs_in(destination->Err_0@, "no longer exists"@);
            let seen = if source is Ok {
                "present"@
            } else {
                "unknown"@
            };
            let found = if destination is Ok {
                "present"@
            } else {
                "unknown"@
            };
            moved == (if source is Ok && destination is Ok {
                detail + "; both source and destination are present, so the server outcome is unproven"@
            } else if source_gone && destination is Ok && matches_source {
                detail + "; source is absent and destination is present, but the MOVE response was not observed"@
            } else if source is Ok && destination_gone {
                detail + "; source remains and destination is currently absent, but a dispatched MOVE may still commit"@
                    + (if cancelled {
                    " after cancellation"@
                } else {
                    Seq::empty()
                })
            } else {
                detail + "; native rename reconciliation was inconclusive (source="@ + seen + ", destination="@ + found
                    + ")"@
            })
        }),
{
    reveal_strlit("");
    assert(""@ =~= Seq::<char>::empty());
}

} // verus!
