//! Dealing with the partial of a relayed copy that failed.
use crate::failure;
use crate::failure::remote_partial_failure;
use crate::failure::FailureView;
use crate::failure::OperationOutcome;
use crate::failure::OperationPhase;
use crate::failure::RemoteFailureView;
use crate::failure::RemoteTransferFailure;
use crate::failure::TransferFailure;
use crate::fingerprint;
use crate::fingerprint::FingerprintView;
use crate::fingerprint::RemoteFileFingerprint;
use crate::reconcile;
use crate::reconcile::error_tells_absence;
use crate::text;
use crate::text::joined2;
use crate::text::joined3;
use vstd::prelude::*;

verus! {

/// Due: the fingerprint of the partial.
#[non_exhaustive]
#[derive(Debug)]
pub struct PartialCleanup {
    pub partial_path: String,
    /// What the partial was last seen with, where it was seen.
    pub expected_fingerprint: Option<RemoteFileFingerprint>,
    pub failure: TransferFailure,
    pub source_fingerprint: Option<String>,
}

/// Due: deleting the partial.
#[non_exhaustive]
#[derive(Debug)]
pub struct PartialDeletion {
    pub cleanup: PartialCleanup,
}

/// What follows the look at the partial.
#[derive(Debug)]
pub enum CleanupNext {
    Delete(PartialDeletion),
    Settled(RemoteTransferFailure),
}

/// The durable text of an optional fingerprint.
pub open spec fn optional_encoded(value: Option<FingerprintView>) -> Option<Seq<char>> {
    match value {
        Some(present) => Some(fingerprint::encoded(present)),
        None => None,
    }
}

fn optional_encode(value: &Option<RemoteFileFingerprint>) -> (all: Option<String>)
    ensures
        text::optional_text(all) == (match *value {
            Some(present) => Some(fingerprint::encoded(present@)),
            None => None,
        }),
{
    match value {
        Some(present) => Some(present.encode()),
        None => None,
    }
}

/// The operation failed and nothing of it is left.
pub open spec fn nothing_left(failure: FailureView, source: Option<Seq<char>>) -> RemoteFailureView {
    RemoteFailureView {
        failure,
        operation_outcome: OperationOutcome::FailedBeforeCopy,
        operation_phase: OperationPhase::Copying,
        partial_destination: None,
        source_fingerprint: source,
        destination_fingerprint: None,
    }
}

fn settle_nothing_left(failure: TransferFailure, source: Option<String>) -> (settlement: RemoteTransferFailure)
    ensures
        settlement@ == nothing_left(failure@, text::optional_text(source)),
{
    RemoteTransferFailure {
        failure,
        operation_outcome: OperationOutcome::FailedBeforeCopy,
        operation_phase: OperationPhase::Copying,
        partial_destination: None,
        source_fingerprint: source,
        destination_fingerprint: None,
    }
}

/// Begins to deal with a partial.
pub fn cleanup_remote_copy_partial(
    partial_path: String,
    expected_fingerprint: Option<RemoteFileFingerprint>,
    failure: TransferFailure,
    source_fingerprint: Option<String>,
) -> (cleanup: PartialCleanup)
    ensures
        cleanup.partial_path == partial_path,
        cleanup.expected_fingerprint == expected_fingerprint,
        cleanup.failure == failure,
        cleanup.source_fingerprint == source_fingerprint,
{
    PartialCleanup { partial_path, expected_fingerprint, failure, source_fingerprint }
}

impl PartialCleanup {
    /// What the partial was last seen with.
    pub open spec fn expected(&self) -> Option<FingerprintView> {
        match self.expected_fingerprint {
            Some(present) => Some(present@),
            None => None,
        }
    }

    /// The partial may be deleted: it was never seen before, or it is as it was
    /// seen.
    pub open spec fn may_delete(&self, current: FingerprintView) -> bool {
        self.expected() is None || self.expected() == Some(current)
    }

    /// Takes the fingerprint of the partial. A partial that changed since it
    /// was seen is left alone.
    pub fn observed(self, reply: Result<RemoteFileFingerprint, String>) -> (next: CleanupNext)
        ensures
            match reply {
                Ok(current) => if self.may_delete(current@) {
                    next matches CleanupNext::Delete(deletion) && deletion.cleanup == self
                } else {
                    next matches CleanupNext::Settled(settlement) && settlement@ == failure::with_partial(
                        self.failure.message@
                            + "; operation-owned partial fingerprint changed and was preserved"@,
                        self.partial_path@,
                        text::optional_text(self.source_fingerprint),
                        Some(fingerprint::encoded(current@)),
                    )
                },
                Err(error) => next matches CleanupNext::Settled(settlement) && settlement@ == (
                if reconcile::tells_absence(error@) {
                    nothing_left(self.failure@, text::optional_text(self.source_fingerprint))
                } else {
                    failure::with_partial(
                        self.failure.message@ + "; partial ownership verification failed safely: "@ + error@,
                        self.partial_path@,
                        text::optional_text(self.source_fingerprint),
                        optional_encoded(self.expected()),
                    )
                }),
            },
    {
        match reply {
            Ok(current) => {
                let unchanged = match &self.expected_fingerprint {
                    Some(expected) => expected.same_as(&current),
                    None => true,
                };
                if unchanged {
                    return CleanupNext::Delete(PartialDeletion { cleanup: self });
                }
                let message = joined2(
                    self.failure.message.as_str(),
                    "; operation-owned partial fingerprint changed and was preserved",
                );
                CleanupNext::Settled(
                    remote_partial_failure(
                        message,
                        self.partial_path,
                        self.source_fingerprint,
                        Some(current.encode()),
                    ),
                )
            },
            Err(error) => {
                if error_tells_absence(error.as_str()) {
                    return CleanupNext::Settled(
                        settle_nothing_left(self.failure, self.source_fingerprint),
                    );
                }
                let message = joined3(
                    self.failure.message.as_str(),
                    "; partial ownership verification failed safely: ",
                    error.as_str(),
                );
                let expected = optional_encode(&self.expected_fingerprint);
                CleanupNext::Settled(
                    remote_partial_failure(
                        message,
                        self.partial_path,
                        self.source_fingerprint,
                        expected,
                    ),
                )
            },
        }
    }
}

impl PartialDeletion {
    /// Takes whether the partial was deleted.
    pub fn deleted(self, reply: Result<(), String>) -> (settlement: RemoteTransferFailure)
        ensures
            settlement@ == (match reply {
                Ok(_) => nothing_left(
                    self.cleanup.failure@,
                    text::optional_text(self.cleanup.source_fingerprint),
                ),
                Err(error) => failure::with_partial(
                    self.cleanup.failure.message@ + "; operation-owned partial cleanup failed safely: "@ + error@,
                    self.cleanup.partial_path@,
                    text::optional_text(self.cleanup.source_fingerprint),
                    optional_encoded(self.cleanup.expected()),
                ),
            }),
    {
        match reply {
            Ok(_) => settle_nothing_left(self.cleanup.failure, self.cleanup.source_fingerprint),
            Err(error) => {
                let message = joined3(
                    self.cleanup.failure.message.as_str(),
                    "; operation-owned partial cleanup failed safely: ",
                    error.as_str(),
                );
                let expected = optional_encode(&self.cleanup.expected_fingerprint);
                remote_partial_failure(
                    message,
                    self.cleanup.partial_path,
                    self.cleanup.source_fingerprint,
                    expected,
                )
            },
        }
    }
}

/// A partial is deleted only where it was never seen, or is still what it was seen
/// as.
pub proof fn only_unchanged_partials_are_deleted(cleanup: PartialCleanup, current: RemoteFileFingerprint)
    ensures
        cleanup.expected_fingerprint is None ==> cleanup.may_delete(current@),
        cleanup.expected_fingerprint matches Some(seen) ==> (cleanup.may_delete(current@) <==> seen@ == current@),
        cleanup.expected_fingerprint matches Some(seen) ==> optional_encoded(cleanup.expected()) == Some(
            fingerprint::encoded(seen@),
        ),
        cleanup.expected_fingerprint is None ==> optional_encoded(cleanup.expected()) is None,
{
}

/// An operation of which nothing is left names nothing, and fails with what it was
/// stopped by.
pub proof fn deleted_partials_are_not_named(
    settlement: RemoteTransferFailure,
    failure: FailureView,
    source: Option<Seq<char>>,
)
    requires
        settlement@ == nothing_left(failure, source),
    ensures
        settlement.failure.message@ == failure.message,
        settlement.failure.status == failure.status,
        settlement.failure.invalidate_operator == failure.invalidate_operator,
        settlement.operation_outcome == OperationOutcome::FailedBeforeCopy,
        settlement.operation_phase == OperationPhase::Copying,
        settlement.partial_destination is None,
        settlement.destination_fingerprint is None,
        settlement.source_fingerprint is Some <==> source is Some,
        source matches Some(known) ==> settlement.source_fingerprint->0@ == known,
{
}

} // verus!
