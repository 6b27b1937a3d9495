//! What a transfer reports when it ends: its status, the outcome and phase of a
//! remote operation, and the failures that carry them.
use crate::text;
use crate::text::joined2;
use crate::text::joined3;
use crate::text::sanitize_error;
use vstd::prelude::*;

verus! {

/// A status that a transfer is given.
#[derive(Clone, Copy, Debug, PartialEq, Eq, Structural)]
pub enum TransferStatus {
    Running,
    Publishing,
    Completed,
    Failed,
    Cancelled,
    Partial,
}

impl TransferStatus {
    /// The durable text of the status.
    pub open spec fn text(self) -> Seq<char> {
        match self {
            TransferStatus::Running => "running"@,
            TransferStatus::Publishing => "publishing"@,
            TransferStatus::Completed => "completed"@,
            TransferStatus::Failed => "failed"@,
            TransferStatus::Cancelled => "cancelled"@,
            TransferStatus::Partial => "partial"@,
        }
    }

    /// The durable text of the status.
    pub fn as_str(self) -> (text: &'static str)
        ensures
            text@ == self.text(),
    {
        match self {
            TransferStatus::Running => "running",
            TransferStatus::Publishing => "publishing",
            TransferStatus::Completed => "completed",
            TransferStatus::Failed => "failed",
            TransferStatus::Cancelled => "cancelled",
            TransferStatus::Partial => "partial",
        }
    }
}

/// The status that a failure gives a transfer.
#[derive(Clone, Copy, Debug, PartialEq, Eq, Structural)]
pub enum FailureStatus {
    Failed,
    Cancelled,
    Partial,
}

impl FailureStatus {
    /// The transfer's status.
    pub open spec fn status(self) -> TransferStatus {
        match self {
            FailureStatus::Failed => TransferStatus::Failed,
            FailureStatus::Cancelled => TransferStatus::Cancelled,
            FailureStatus::Partial => TransferStatus::Partial,
        }
    }

    /// The transfer's status.
    pub fn as_status(self) -> (status: TransferStatus)
        ensures
            status == self.status(),
    {
        match self {
            FailureStatus::Failed => TransferStatus::Failed,
            FailureStatus::Cancelled => TransferStatus::Cancelled,
            FailureStatus::Partial => TransferStatus::Partial,
        }
    }
}

/// How a remote copy or rename ended.
#[derive(Clone, Copy, Debug, PartialEq, Eq, Structural)]
pub enum OperationOutcome {
    Completed,
    FailedBeforeCopy,
    FailedWithPartialDestination,
    CopiedSourceDeleteFailed,
    CopyCommittedResponseUnknown,
    MoveCommittedResponseUnknown,
    MoveCommittedVerificationFailed,
    DestinationPresentUnproven,
    DestinationStateUnknown,
}

impl OperationOutcome {
    /// The durable text of the outcome.
    pub open spec fn text(self) -> Seq<char> {
        match self {
            OperationOutcome::Completed => "completed"@,
            OperationOutcome::FailedBeforeCopy => "failed_before_copy"@,
            OperationOutcome::FailedWithPartialDestination => "failed_with_partial_destination"@,
            OperationOutcome::CopiedSourceDeleteFailed => "copied_source_delete_failed"@,
            OperationOutcome::CopyCommittedResponseUnknown => "copy_committed_response_unknown"@,
            OperationOutcome::MoveCommittedResponseUnknown => "move_committed_response_unknown"@,
            OperationOutcome::MoveCommittedVerificationFailed => "move_committed_verification_failed"@,
            OperationOutcome::DestinationPresentUnproven => "destination_present_unproven"@,
            OperationOutcome::DestinationStateUnknown => "destination_state_unknown"@,
        }
    }

    /// The durable text of the outcome.
    pub fn as_str(self) -> (text: &'static str)
        ensures
            text@ == self.text(),
    {
        match self {
            OperationOutcome::Completed => "completed",
            OperationOutcome::FailedBeforeCopy => "failed_before_copy",
            OperationOutcome::FailedWithPartialDestination => "failed_with_partial_destination",
            OperationOutcome::CopiedSourceDeleteFailed => "copied_source_delete_failed",
            OperationOutcome::CopyCommittedResponseUnknown => "copy_committed_response_unknown",
            OperationOutcome::MoveCommittedResponseUnknown => "move_committed_response_unknown",
            OperationOutcome::MoveCommittedVerificationFailed => "move_committed_verification_failed",
            OperationOutcome::DestinationPresentUnproven => "destination_present_unproven",
            OperationOutcome::DestinationStateUnknown => "destination_state_unknown",
        }
    }
}

/// How far a remote copy or rename came.
#[derive(Clone, Copy, Debug, PartialEq, Eq, Structural)]
pub enum OperationPhase {
    Queued,
    Copying,
    PublishedBeforeDelete,
    DeleteUncertain,
    Completed,
}

impl OperationPhase {
    /// The durable text of the phase.
    pub open spec fn text(self) -> Seq<char> {
        match self {
            OperationPhase::Queued => "queued"@,
            OperationPhase::Copying => "copying"@,
            OperationPhase::PublishedBeforeDelete => "published_before_delete"@,
            OperationPhase::DeleteUncertain => "delete_uncertain"@,
            OperationPhase::Completed => "completed"@,
        }
    }

    /// The durable text of the phase.
    pub fn as_str(self) -> (text: &'static str)
        ensures
            text@ == self.text(),
    {
        match self {
            OperationPhase::Queued => "queued",
            OperationPhase::Copying => "copying",
            OperationPhase::PublishedBeforeDelete => "published_before_delete",
            OperationPhase::DeleteUncertain => "delete_uncertain",
            OperationPhase::Completed => "completed",
        }
    }
}

/// What a transfer failed with, and whether the connection's operator has to be
/// built anew before it is used again.
#[derive(Debug)]
pub struct TransferFailure {
    pub status: FailureStatus,
    pub message: String,
    pub invalidate_operator: bool,
}

/// What a [`TransferFailure`] says.
#[verifier::ext_equal]
pub struct FailureView {
    pub status: FailureStatus,
    pub message: Seq<char>,
    pub invalidate_operator: bool,
}

impl View for TransferFailure {
    type V = FailureView;

    open spec fn view(&self) -> FailureView {
        FailureView {
            status: self.status,
            message: self.message@,
            invalidate_operator: self.invalidate_operator,
        }
    }
}

/// A failure of the remote side: the operator is not used again.
pub open spec fn remote_failed(message: Seq<char>) -> FailureView {
    FailureView { status: FailureStatus::Failed, message, invalidate_operator: true }
}

/// A failure on this side: the operator stays in use.
pub open spec fn local_failed(message: Seq<char>) -> FailureView {
    FailureView { status: FailureStatus::Failed, message, invalidate_operator: false }
}

/// A failure that left something behind on the remote side.
pub open spec fn partly_failed(message: Seq<char>) -> FailureView {
    FailureView { status: FailureStatus::Partial, message, invalidate_operator: true }
}

/// A cancellation before anything was in flight.
pub open spec fn cancelled_idle(message: Seq<char>) -> FailureView {
    FailureView { status: FailureStatus::Cancelled, message, invalidate_operator: false }
}

/// A cancellation that may have broken a request off.
pub open spec fn cancelled_active(message: Seq<char>) -> FailureView {
    FailureView { status: FailureStatus::Cancelled, message, invalidate_operator: true }
}

/// A failure of the remote side.
pub fn remote_failure(message: String) -> (failure: TransferFailure)
    ensures
        failure@ == remote_failed(message@),
{
    TransferFailure { status: FailureStatus::Failed, message, invalidate_operator: true }
}

/// A failure on this side.
pub fn local_failure(message: String) -> (failure: TransferFailure)
    ensures
        failure@ == local_failed(message@),
{
    TransferFailure { status: FailureStatus::Failed, message, invalidate_operator: false }
}

/// A failure that left something behind on the remote side.
pub fn partial_failure(message: String) -> (failure: TransferFailure)
    ensures
        failure@ == partly_failed(message@),
{
    TransferFailure { status: FailureStatus::Partial, message, invalidate_operator: true }
}

/// A cancellation that leaves the operator in use.
pub fn cancelled_before(message: String) -> (failure: TransferFailure)
    ensures
        failure@ == cancelled_idle(message@),
{
    TransferFailure { status: FailureStatus::Cancelled, message, invalidate_operator: false }
}

/// A cancellation after which the operator is not used again.
pub fn cancelled_during(message: String) -> (failure: TransferFailure)
    ensures
        failure@ == cancelled_active(message@),
{
    TransferFailure { status: FailureStatus::Cancelled, message, invalidate_operator: true }
}

/// A queued download, copy or rename was cancelled.
pub fn cancelled_failure() -> (failure: TransferFailure)
    ensures
        failure@ == cancelled_idle("Download cancelled"@),
{
    cancelled_before("Download cancelled".to_owned())
}

/// A running download, copy or rename was cancelled.
pub fn cancelled_active_failure() -> (failure: TransferFailure)
    ensures
        failure@ == cancelled_active("Download cancelled"@),
{
    cancelled_during("Download cancelled".to_owned())
}

/// A queued upload was cancelled.
pub fn upload_cancelled_failure() -> (failure: TransferFailure)
    ensures
        failure@ == cancelled_idle("Upload cancelled"@),
{
    cancelled_before("Upload cancelled".to_owned())
}

/// A running upload was cancelled.
pub fn upload_cancelled_active_failure() -> (failure: TransferFailure)
    ensures
        failure@ == cancelled_active("Upload cancelled"@),
{
    cancelled_during("Upload cancelled".to_owned())
}

/// What an upload failed with, what may be left of it on the remote side, and
/// what became of the abort and of the publish.
#[derive(Debug)]
pub struct UploadFailure {
    pub failure: TransferFailure,
    pub partial_destination: Option<String>,
    pub abort_outcome: Option<String>,
    pub publish_outcome: Option<String>,
}

/// What an [`UploadFailure`] says.
#[verifier::ext_equal]
pub struct UploadFailureView {
    pub failure: FailureView,
    pub partial_destination: Option<Seq<char>>,
    pub abort_outcome: Option<Seq<char>>,
    pub publish_outcome: Option<Seq<char>>,
}

impl View for UploadFailure {
    type V = UploadFailureView;

    open spec fn view(&self) -> UploadFailureView {
        UploadFailureView {
            failure: self.failure@,
            partial_destination: text::optional_text(self.partial_destination),
            abort_outcome: text::optional_text(self.abort_outcome),
            publish_outcome: text::optional_text(self.publish_outcome),
        }
    }
}

/// An upload that failed and left nothing behind.
pub open spec fn upload_failed(failure: FailureView) -> UploadFailureView {
    UploadFailureView { failure, partial_destination: None, abort_outcome: None, publish_outcome: None }
}

impl From<TransferFailure> for UploadFailure {
    fn from(failure: TransferFailure) -> (upload: Self) {
        UploadFailure { failure, partial_destination: None, abort_outcome: None, publish_outcome: None }
    }
}

impl vstd::std_specs::convert::FromSpecImpl<TransferFailure> for UploadFailure {
    open spec fn obeys_from_spec() -> bool {
        true
    }

    open spec fn from_spec(failure: TransferFailure) -> UploadFailure {
        UploadFailure { failure, partial_destination: None, abort_outcome: None, publish_outcome: None }
    }
}

/// The partial of a failed upload was dealt with: cleaned up, or left behind
/// because the clean-up failed.
pub open spec fn upload_cleanup(
    failure: FailureView,
    abort_outcome: Seq<char>,
    cleanup: Result<(), String>,
    partial: Seq<char>,
) -> UploadFailureView {
    match cleanup {
        Ok(_) => UploadFailureView {
            failure,
            partial_destination: None,
            abort_outcome: Some(abort_outcome + "; operation_owned_partial_cleaned"@),
            publish_outcome: None,
        },
        Err(error) => UploadFailureView {
            failure: partly_failed(
                failure.message + "; operation-owned partial cleanup failed safely: "@ + text::sanitized(error@),
            ),
            partial_destination: Some(partial),
            abort_outcome: Some(abort_outcome),
            publish_outcome: None,
        },
    }
}

/// Settles an upload whose partial was to be removed.
pub fn resolve_upload_cleanup(
    failure: TransferFailure,
    abort_outcome: String,
    cleanup: Result<(), String>,
    partial_relative: &str,
) -> (upload: UploadFailure)
    requires
        cleanup matches Err(error) ==> text::can_be_cut(error@),
    ensures
        upload@ == upload_cleanup(failure@, abort_outcome@, cleanup, partial_relative@),
{
    match cleanup {
        Ok(_) => UploadFailure {
            failure,
            partial_destination: None,
            abort_outcome: Some(
                joined2(abort_outcome.as_str(), "; operation_owned_partial_cleaned"),
            ),
            publish_outcome: None,
        },
        Err(error) => {
            let kept = sanitize_error(error.as_str());
            let message = joined3(
                failure.message.as_str(),
                "; operation-owned partial cleanup failed safely: ",
                kept.as_str(),
            );
            UploadFailure {
                failure: partial_failure(message),
                partial_destination: Some(partial_relative.to_owned()),
                abort_outcome: Some(abort_outcome),
                publish_outcome: None,
            }
        },
    }
}

/// The upload was aborted and left nothing behind.
pub open spec fn upload_aborted(failure: FailureView) -> UploadFailureView {
    UploadFailureView {
        failure,
        partial_destination: None,
        abort_outcome: Some("succeeded"@),
        publish_outcome: None,
    }
}

/// Settles an upload whose writer was aborted.
pub fn resolve_successful_upload_abort(failure: TransferFailure) -> (upload: UploadFailure)
    ensures
        upload@ == upload_aborted(failure@),
{
    UploadFailure {
        failure,
        partial_destination: None,
        abort_outcome: Some("succeeded".to_owned()),
        publish_outcome: None,
    }
}

/// What a remote copy or rename failed with, how far it came, what may be left
/// at the destination, and the fingerprints that a later recovery relies on.
#[derive(Debug)]
pub struct RemoteTransferFailure {
    pub failure: TransferFailure,
    pub operation_outcome: OperationOutcome,
    pub operation_phase: OperationPhase,
    pub partial_destination: Option<String>,
    pub source_fingerprint: Option<String>,
    pub destination_fingerprint: Option<String>,
}

/// What a [`RemoteTransferFailure`] says.
#[verifier::ext_equal]
pub struct RemoteFailureView {
    pub failure: FailureView,
    pub operation_outcome: OperationOutcome,
    pub operation_phase: OperationPhase,
    pub partial_destination: Option<Seq<char>>,
    pub source_fingerprint: Option<Seq<char>>,
    pub destination_fingerprint: Option<Seq<char>>,
}

impl View for RemoteTransferFailure {
    type V = RemoteFailureView;

    open spec fn view(&self) -> RemoteFailureView {
        RemoteFailureView {
            failure: self.failure@,
            operation_outcome: self.operation_outcome,
            operation_phase: self.operation_phase,
            partial_destination: text::optional_text(self.partial_destination),
            source_fingerprint: text::optional_text(self.source_fingerprint),
            destination_fingerprint: text::optional_text(self.destination_fingerprint),
        }
    }
}

/// A remote operation that failed before anything was copied.
pub open spec fn before_copy(failure: FailureView) -> RemoteFailureView {
    RemoteFailureView {
        failure,
        operation_outcome: OperationOutcome::FailedBeforeCopy,
        operation_phase: OperationPhase::Queued,
        partial_destination: None,
        source_fingerprint: None,
        destination_fingerprint: None,
    }
}

/// A remote operation that failed before anything was copied.
pub fn remote_transfer_before_copy(failure: TransferFailure) -> (remote: RemoteTransferFailure)
    ensures
        remote@ == before_copy(failure@),
{
    RemoteTransferFailure {
        failure,
        operation_outcome: OperationOutcome::FailedBeforeCopy,
        operation_phase: OperationPhase::Queued,
        partial_destination: None,
        source_fingerprint: None,
        destination_fingerprint: None,
    }
}

/// A remote operation that left something at `partial`.
pub open spec fn with_partial(
    message: Seq<char>,
    partial: Seq<char>,
    source: Option<Seq<char>>,
    destination: Option<Seq<char>>,
) -> RemoteFailureView {
    RemoteFailureView {
        failure: partly_failed(message),
        operation_outcome: OperationOutcome::FailedWithPartialDestination,
        operation_phase: OperationPhase::Copying,
        partial_destination: Some(partial),
        source_fingerprint: source,
        destination_fingerprint: destination,
    }
}

/// A remote operation that left something behind.
pub fn remote_partial_failure(
    message: String,
    partial_destination: String,
    source_fingerprint: Option<String>,
    destination_fingerprint: Option<String>,
) -> (remote: RemoteTransferFailure)
    ensures
        remote@ == with_partial(
            message@,
            partial_destination@,
            text::optional_text(source_fingerprint),
            text::optional_text(destination_fingerprint),
        ),
{
    RemoteTransferFailure {
        failure: partial_failure(message),
        operation_outcome: OperationOutcome::FailedWithPartialDestination,
        operation_phase: OperationPhase::Copying,
        partial_destination: Some(partial_destination),
        source_fingerprint,
        destination_fingerprint,
    }
}

/// A remote copy or rename that was completed.
#[derive(Debug)]
pub struct RemoteTransferOutcome {
    pub bytes_transferred: i64,
    pub total_bytes: i64,
    pub operation_outcome: OperationOutcome,
    pub operation_phase: OperationPhase,
    pub source_fingerprint: String,
    pub destination_fingerprint: String,
}

/// What a [`RemoteTransferOutcome`] says.
#[verifier::ext_equal]
pub struct RemoteOutcomeView {
    pub bytes_transferred: i64,
    pub total_bytes: i64,
    pub operation_outcome: OperationOutcome,
    pub operation_phase: OperationPhase,
    pub source_fingerprint: Seq<char>,
    pub destination_fingerprint: Seq<char>,
}

impl View for RemoteTransferOutcome {
    type V = RemoteOutcomeView;

    open spec fn view(&self) -> RemoteOutcomeView {
        RemoteOutcomeView {
            bytes_transferred: self.bytes_transferred,
            total_bytes: self.total_bytes,
            operation_outcome: self.operation_outcome,
            operation_phase: self.operation_phase,
            source_fingerprint: self.source_fingerprint@,
            destination_fingerprint: self.destination_fingerprint@,
        }
    }
}

/// A completed remote operation.
pub open spec fn completed_outcome(
    bytes: i64,
    total: i64,
    source: Seq<char>,
    destination: Seq<char>,
) -> RemoteOutcomeView {
    RemoteOutcomeView {
        bytes_transferred: bytes,
        total_bytes: total,
        operation_outcome: OperationOutcome::Completed,
        operation_phase: OperationPhase::Completed,
        source_fingerprint: source,
        destination_fingerprint: destination,
    }
}

/// A completed remote operation.
pub fn remote_completion(
    bytes_transferred: i64,
    total_bytes: i64,
    source_fingerprint: String,
    destination_fingerprint: String,
) -> (outcome: RemoteTransferOutcome)
    ensures
        outcome@ == completed_outcome(
            bytes_transferred,
            total_bytes,
            source_fingerprint@,
            destination_fingerprint@,
        ),
{
    RemoteTransferOutcome {
        bytes_transferred,
        total_bytes,
        operation_outcome: OperationOutcome::Completed,
        operation_phase: OperationPhase::Completed,
        source_fingerprint,
        destination_fingerprint,
    }
}

/// What a failure of either side is made of can be read off it: what it says,
/// how the transfer ends, and whether the service is used again.
pub proof fn failures_say_what_they_were_made_of(failure: TransferFailure, message: Seq<char>)
    ensures
        failure@ == remote_failed(message) <==> (failure.message@ == message && failure.status
            == FailureStatus::Failed && failure.invalidate_operator),
        failure@ == local_failed(message) <==> (failure.message@ == message && failure.status == FailureStatus::Failed
            && !failure.invalidate_operator),
        failure@ == partly_failed(message) <==> (failure.message@ == message && failure.status
            == FailureStatus::Partial && failure.invalidate_operator),
        failure@ == cancelled_idle(message) <==> (failure.message@ == message && failure.status
            == FailureStatus::Cancelled && !failure.invalidate_operator),
        failure@ == cancelled_active(message) <==> (failure.message@ == message && failure.status
            == FailureStatus::Cancelled && failure.invalidate_operator),
{
}

/// Two failures look the same only where they say the same, end the transfer the
/// same way and treat the service the same way.
pub proof fn failures_are_told_apart(left: TransferFailure, right: TransferFailure)
    ensures
        left@ == right@ <==> (left.message@ == right.message@ && left.status == right.status
            && left.invalidate_operator == right.invalidate_operator),
{
}

/// A transfer ends as it failed: as failed, as cancelled or as partial, and never
/// as anything else.
pub proof fn failures_end_as_they_failed(status: FailureStatus)
    ensures
        status.status() == TransferStatus::Failed <==> status == FailureStatus::Failed,
        status.status() == TransferStatus::Cancelled <==> status == FailureStatus::Cancelled,
        status.status() == TransferStatus::Partial <==> status == FailureStatus::Partial,
{
}

/// What a status is written down as tells it from every other status.
pub proof fn statuses_are_told_apart(status: TransferStatus, other: TransferStatus)
    ensures
        status.text() == other.text() ==> status == other,
        status.text() == "running"@ <==> status == TransferStatus::Running,
        status.text() == "publishing"@ <==> status == TransferStatus::Publishing,
        status.text() == "completed"@ <==> status == TransferStatus::Completed,
        status.text() == "failed"@ <==> status == TransferStatus::Failed,
        status.text() == "cancelled"@ <==> status == TransferStatus::Cancelled,
        status.text() == "partial"@ <==> status == TransferStatus::Partial,
{
    reveal_strlit("running");
    reveal_strlit("publishing");
    reveal_strlit("completed");
    reveal_strlit("failed");
    reveal_strlit("cancelled");
    reveal_strlit("partial");
    assert("running"@.len() == 7);
    assert("publishing"@.len() == 10);
    assert("completed"@.len() == 9);
    assert("failed"@.len() == 6);
    assert("cancelled"@.len() == 9);
    assert("partial"@.len() == 7);
    assert("running"@[0] == 'r');
    assert("partial"@[0] == 'p');
    assert("completed"@[1] == 'o');
    assert("cancelled"@[1] == 'a');
}

/// What a phase is written down as tells it from every other phase.
pub proof fn phases_are_told_apart(phase: OperationPhase, other: OperationPhase)
    ensures
        phase.text() == other.text() ==> phase == other,
        phase.text() == "queued"@ <==> phase == OperationPhase::Queued,
        phase.text() == "copying"@ <==> phase == OperationPhase::Copying,
        phase.text() == "published_before_delete"@ <==> phase == OperationPhase::PublishedBeforeDelete,
        phase.text() == "delete_uncertain"@ <==> phase == OperationPhase::DeleteUncertain,
        phase.text() == "completed"@ <==> phase == OperationPhase::Completed,
{
    reveal_strlit("queued");
    reveal_strlit("copying");
    reveal_strlit("published_before_delete");
    reveal_strlit("delete_uncertain");
    reveal_strlit("completed");
    assert("queued"@.len() == 6);
    assert("copying"@.len() == 7);
    assert("published_before_delete"@.len() == 23);
    assert("delete_uncertain"@.len() == 16);
    assert("completed"@.len() == 9);
}

/// What an outcome is written down as tells it from every other outcome.
pub proof fn outcomes_are_told_apart(outcome: OperationOutcome, other: OperationOutcome)
    ensures
        outcome.text() == other.text() ==> outcome == other,
        outcome.text() == "completed"@ <==> outcome == OperationOutcome::Completed,
        outcome.text() == "failed_before_copy"@ <==> outcome == OperationOutcome::FailedBeforeCopy,
        outcome.text() == "failed_with_partial_destination"@ <==> outcome
            == OperationOutcome::FailedWithPartialDestination,
        outcome.text() == "copied_source_delete_failed"@ <==> outcome == OperationOutcome::CopiedSourceDeleteFailed,
        outcome.text() == "copy_committed_response_unknown"@ <==> outcome
            == OperationOutcome::CopyCommittedResponseUnknown,
        outcome.text() == "move_committed_response_unknown"@ <==> outcome
            == OperationOutcome::MoveCommittedResponseUnknown,
        outcome.text() == "move_committed_verification_failed"@ <==> outcome
            == OperationOutcome::MoveCommittedVerificationFailed,
        outcome.text() == "destination_present_unproven"@ <==> outcome
            == OperationOutcome::DestinationPresentUnproven,
        outcome.text() == "destination_state_unknown"@ <==> outcome == OperationOutcome::DestinationStateUnknown,
{
    reveal_strlit("completed");
    reveal_strlit("failed_before_copy");
    reveal_strlit("failed_with_partial_destination");
    reveal_strlit("copied_source_delete_failed");
    reveal_strlit("copy_committed_response_unknown");
    reveal_strlit("move_committed_response_unknown");
    reveal_strlit("move_committed_verification_failed");
    reveal_strlit("destination_present_unproven");
    reveal_strlit("destination_state_unknown");
    assert("completed"@.len() == 9);
    assert("failed_before_copy"@.len() == 18);
    assert("failed_with_partial_destination"@.len() == 31);
    assert("copied_source_delete_failed"@.len() == 27);
    assert("copy_committed_response_unknown"@.len() == 31);
    assert("move_committed_response_unknown"@.len() == 31);
    assert("move_committed_verification_failed"@.len() == 34);
    assert("destination_present_unproven"@.len() == 28);
    assert("destination_state_unknown"@.len() == 25);
    assert("failed_with_partial_destination"@[0] == 'f');
    assert("copy_committed_response_unknown"@[0] == 'c');
    assert("move_committed_response_unknown"@[0] == 'm');
}

/// An upload that failed and left nothing behind fails with what it was stopped
/// by, and names no partial.
pub proof fn stopped_uploads_name_nothing(stopped: UploadFailure, failure: TransferFailure)
    requires
        stopped@ == upload_failed(failure@),
    ensures
        stopped.failure.message@ == failure.message@,
        stopped.failure.status == failure.status,
        stopped.failure.invalidate_operator == failure.invalidate_operator,
        stopped.partial_destination is None,
        stopped.abort_outcome is None,
        stopped.publish_outcome is None,
{
    failures_are_told_apart(stopped.failure, failure);
}

/// An upload whose abort was confirmed fails with what it was stopped by, and
/// names no partial.
pub proof fn aborted_uploads_name_nothing(stopped: UploadFailure, failure: TransferFailure)
    requires
        stopped@ == upload_aborted(failure@),
    ensures
        stopped.failure.message@ == failure.message@,
        stopped.failure.status == failure.status,
        stopped.failure.invalidate_operator == failure.invalidate_operator,
        stopped.partial_destination is None,
        stopped.abort_outcome matches Some(outcome) && outcome@ == "succeeded"@,
        stopped.publish_outcome is None,
{
    failures_are_told_apart(stopped.failure, failure);
}

/// An upload whose partial was removed fails with what it was stopped by and
/// names nothing. One whose partial could not be removed ends as partial, names
/// it, and says so behind what it was stopped by.
pub proof fn cleaned_uploads_name_what_is_left(
    stopped: UploadFailure,
    failure: TransferFailure,
    abort_outcome: Seq<char>,
    cleanup: Result<(), String>,
    partial: Seq<char>,
)
    requires
        stopped@ == upload_cleanup(failure@, abort_outcome, cleanup, partial),
    ensures
        stopped.publish_outcome is None,
        cleanup is Ok ==> {
            &&& stopped.failure.message@ == failure.message@
            &&& stopped.failure.status == failure.status
            &&& stopped.failure.invalidate_operator == failure.invalidate_operator
            &&& stopped.partial_destination is None
            &&& stopped.abort_outcome matches Some(outcome) && outcome@ == abort_outcome
                + "; operation_owned_partial_cleaned"@
        },
        cleanup matches Err(error) ==> {
            &&& stopped.failure.message@ == failure.message@
                + "; operation-owned partial cleanup failed safely: "@ + text::sanitized(error@)
            &&& stopped.failure.status == FailureStatus::Partial
            &&& stopped.failure.invalidate_operator
            &&& stopped.partial_destination matches Some(left) && left@ == partial
            &&& stopped.abort_outcome matches Some(outcome) && outcome@ == abort_outcome
        },
{
    failures_are_told_apart(stopped.failure, failure);
}

/// A copy or rename that failed before anything was copied fails with what it was
/// stopped by, and names no destination and no fingerprint.
pub proof fn nothing_is_named_before_a_copy(stopped: RemoteTransferFailure, failure: FailureView)
    requires
        stopped@ == before_copy(failure),
    ensures
        stopped.failure.message@ == failure.message,
        stopped.failure.status == failure.status,
        stopped.failure.invalidate_operator == failure.invalidate_operator,
        stopped.operation_outcome == OperationOutcome::FailedBeforeCopy,
        stopped.operation_phase == OperationPhase::Queued,
        stopped.partial_destination is None,
        stopped.source_fingerprint is None,
        stopped.destination_fingerprint is None,
{
}

/// A copy or rename that left something behind ends as partial and says where it
/// is, with what is known of the two files.
pub proof fn what_is_left_is_named(
    stopped: RemoteTransferFailure,
    message: Seq<char>,
    partial: Seq<char>,
    source: Option<Seq<char>>,
    destination: Option<Seq<char>>,
)
    requires
        stopped@ == with_partial(message, partial, source, destination),
    ensures
        stopped.failure.message@ == message,
        stopped.failure.status == FailureStatus::Partial,
        stopped.failure.invalidate_operator,
        stopped.operation_outcome == OperationOutcome::FailedWithPartialDestination,
        stopped.operation_phase == OperationPhase::Copying,
        stopped.partial_destination matches Some(left) && left@ == partial,
        stopped.source_fingerprint is Some <==> source is Some,
        source matches Some(known) ==> stopped.source_fingerprint->0@ == known,
        stopped.destination_fingerprint is Some <==> destination is Some,
        destination matches Some(known) ==> stopped.destination_fingerprint->0@ == known,
{
}

/// A completed copy or rename says how many bytes there were and how many were
/// moved, and what its two files were known by.
pub proof fn completed_operations_say_what_they_moved(
    outcome: RemoteTransferOutcome,
    bytes: i64,
    total: i64,
    source: Seq<char>,
    destination: Seq<char>,
)
    requires
        outcome@ == completed_outcome(bytes, total, source, destination),
    ensures
        outcome.bytes_transferred == bytes,
        outcome.total_bytes == total,
        outcome.operation_outcome == OperationOutcome::Completed,
        outcome.operation_phase == OperationPhase::Completed,
        outcome.source_fingerprint@ == source,
        outcome.destination_fingerprint@ == destination,
{
}

/// A failure of an upload that did nothing yet names no partial, no abort and no
/// publish, and failed as it did.
pub proof fn plain_failures_name_nothing(failure: TransferFailure)
    ensures
        <UploadFailure as vstd::std_specs::convert::FromSpec<TransferFailure>>::obeys_from_spec(),
        ({
            let upload = <UploadFailure as vstd::std_specs::convert::FromSpec<TransferFailure>>::from_spec(failure);
            upload.failure == failure && upload.partial_destination is None && upload.abort_outcome is None
                && upload.publish_outcome is None
        }),
{
}

} // verus!
