//! Deleting the source of a rename whose destination stands, after another look
//! at both files.
use crate::failure::TransferFailure;
use crate::fingerprint;
use crate::fingerprint::persisted_relay_hash;
use crate::fingerprint::persisted_verified_remote_content_matches;
use crate::fingerprint::RemoteFileFingerprint;
use crate::fingerprint::VerifiedRemoteContent;
use crate::reconcile;
use crate::reconcile::error_tells_absence;
use crate::record::FileTransferStorageRecord;
use crate::remote::SourceDeletion;
use crate::text;
use crate::text::same_text;
use crate::failure;
use crate::remote;
use vstd::prelude::*;

verus! {

/// Only the deletion of the source is left of this rename.
pub open spec fn is_retryable(record: FileTransferStorageRecord) -> bool {
    &&& record.direction@ == "rename"@
    &&& record.status@ == "partial"@
    &&& text::optional_text(record.operation_outcome) == Some("copied_source_delete_failed"@)
    &&& text::optional_text(record.operation_phase) == Some("delete_uncertain"@)
}

fn is_text(value: &Option<String>, expected: &str) -> (same: bool)
    ensures
        same == (text::optional_text(*value) == Some(expected@)),
{
    match value {
        Some(present) => same_text(present.as_str(), expected),
        None => false,
    }
}

/// Says whether only the deletion of the source is left of a rename.
pub fn check_rename_retry(record: &FileTransferStorageRecord) -> (taken: Result<(), String>)
    ensures
        match taken {
            Ok(_) => is_retryable(*record),
            Err(reason) => !is_retryable(*record) && reason@
                == "Rename is not eligible for source-delete recovery"@,
        },
{
    if same_text(record.direction.as_str(), "rename") && same_text(record.status.as_str(), "partial")
        && is_text(&record.operation_outcome, "copied_source_delete_failed") && is_text(
        &record.operation_phase,
        "delete_uncertain",
    ) {
        Ok(())
    } else {
        Err("Rename is not eligible for source-delete recovery".to_owned())
    }
}

/// Due: getting the connection ready, at the revision that the rename was made
/// with.
#[non_exhaustive]
#[derive(Debug)]
pub struct RenameRetry {
    pub record: FileTransferStorageRecord,
    pub revision: i64,
}

/// The way that the two files are looked at.
#[derive(Debug)]
pub enum RetryRoute {
    /// By their fingerprints: the server made the copy.
    ServerSide(RetryServerDestination),
    /// By their contents: the bytes were relayed.
    Relay(RetryRelayDestination),
}

/// Due: the fingerprint of the destination.
#[non_exhaustive]
#[derive(Debug)]
pub struct RetryServerDestination {
    pub record: FileTransferStorageRecord,
}

/// Due: the fingerprint of the source.
#[non_exhaustive]
#[derive(Debug)]
pub struct RetryServerSource {
    pub record: FileTransferStorageRecord,
    pub destination: RemoteFileFingerprint,
}

/// Due: the content of the destination.
#[non_exhaustive]
#[derive(Debug)]
pub struct RetryRelayDestination {
    pub record: FileTransferStorageRecord,
}

/// Due: whether the source is still there.
#[non_exhaustive]
#[derive(Debug)]
pub struct RetryRelayProbe {
    pub record: FileTransferStorageRecord,
    pub destination: VerifiedRemoteContent,
}

/// Due: the content of the source.
#[non_exhaustive]
#[derive(Debug)]
pub struct RetryRelaySource {
    pub record: FileTransferStorageRecord,
    pub destination: VerifiedRemoteContent,
}

/// What follows the look at a source.
#[derive(Debug)]
pub enum RetryServerNext {
    /// The source is gone: the rename is complete.
    Completed,
    /// The source is to be deleted.
    Delete(SourceDeletion),
}

/// What follows the look for a source.
#[derive(Debug)]
pub enum RetryProbeNext {
    /// The source is gone: the rename is complete.
    Completed,
    /// The source has to be read back.
    Verify(RetryRelaySource),
}

/// Why a source is not deleted, and whether the connection's operator has to be
/// built anew.
#[derive(Debug)]
pub struct RetryRefusal {
    pub message: String,
    pub evict: bool,
}

/// Begins to delete the source of a rename.
pub fn retry_file_rename_source_delete(record: FileTransferStorageRecord) -> (retry: Result<RenameRetry, String>)
    ensures
        if !is_retryable(record) {
            retry matches Err(told) && told@ == "Rename is not eligible for source-delete recovery"@
        } else {
            match record.connection_revision {
                None => retry matches Err(told) && told@
                    == "Rename recovery has no durable connection revision"@,
                Some(revision) => retry matches Ok(found) && found.record == record && found.revision
                    == revision,
            }
        },
{
    if let Err(reason) = check_rename_retry(&record) {
        return Err(reason);
    }
    match record.connection_revision {
        None => Err("Rename recovery has no durable connection revision".to_owned()),
        Some(revision) => Ok(RenameRetry { record, revision }),
    }
}

impl RenameRetry {
    /// Takes whether the server makes the copies of this connection.
    pub fn routed(self, server_side_copy: bool) -> (route: RetryRoute)
        ensures
            if server_side_copy {
                route matches RetryRoute::ServerSide(due) && due.record == self.record
            } else {
                route matches RetryRoute::Relay(due) && due.record == self.record
            },
    {
        if server_side_copy {
            RetryRoute::ServerSide(RetryServerDestination { record: self.record })
        } else {
            RetryRoute::Relay(RetryRelayDestination { record: self.record })
        }
    }
}

impl RetryServerDestination {
    /// Takes the fingerprint of the destination.
    pub fn destination_observed(self, reply: Result<RemoteFileFingerprint, String>) -> (next: Result<
        RetryServerSource,
        String,
    >)
        ensures
            match reply {
                Err(error) => next == Err::<RetryServerSource, String>(error),
                Ok(destination) => if text::optional_text(self.record.destination_fingerprint) == Some(
                    fingerprint::encoded(destination@),
                ) {
                    next matches Ok(due) && due.record == self.record && due.destination == destination
                } else {
                    next matches Err(told) && told@
                        == "Destination fingerprint changed; source was not deleted"@
                },
            },
    {
        match reply {
            Err(error) => Err(error),
            Ok(destination) => {
                let current = destination.encode();
                if is_text(&self.record.destination_fingerprint, current.as_str()) {
                    Ok(RetryServerSource { record: self.record, destination })
                } else {
                    Err("Destination fingerprint changed; source was not deleted".to_owned())
                }
            },
        }
    }
}

impl RetryServerSource {
    /// Takes the fingerprint of the source. It is deleted only where both files
    /// are exactly what was written down of them.
    pub fn source_observed(self, reply: Result<RemoteFileFingerprint, String>) -> (next: Result<
        RetryServerNext,
        String,
    >)
        ensures
            match reply {
                Err(error) => if reconcile::tells_absence(error@) {
                    next matches Ok(RetryServerNext::Completed)
                } else {
                    next == Err::<RetryServerNext, String>(error)
                },
                Ok(source) => if text::optional_text(self.record.source_fingerprint) == Some(
                    fingerprint::encoded(source@),
                ) {
                    next matches Ok(RetryServerNext::Delete(deletion)) && deletion == (SourceDeletion {
                        source_path: self.record.remote_path,
                        destination_path: self.record.local_path,
                        source,
                        destination: self.destination,
                    })
                } else {
                    next matches Err(told) && told@ == "Source fingerprint changed; source was not deleted"@
                },
            },
    {
        match reply {
            Err(error) => {
                if error_tells_absence(error.as_str()) {
                    Ok(RetryServerNext::Completed)
                } else {
                    Err(error)
                }
            },
            Ok(source) => {
                let current = source.encode();
                if is_text(&self.record.source_fingerprint, current.as_str()) {
                    Ok(
                        RetryServerNext::Delete(
                            SourceDeletion {
                                source_path: self.record.remote_path,
                                destination_path: self.record.local_path,
                                source,
                                destination: self.destination,
                            },
                        ),
                    )
                } else {
                    Err("Source fingerprint changed; source was not deleted".to_owned())
                }
            },
        }
    }
}

/// A file that was read back is what was written down of it.
pub open spec fn content_is_as_written(written: Option<Seq<char>>, content: VerifiedRemoteContent) -> bool {
    written is Some && fingerprint::persisted_content_matches(
        written->0,
        content.fingerprint@,
        content.sha256@,
    )
}

fn content_as_written(written: &Option<String>, content: &VerifiedRemoteContent) -> (same: bool)
    ensures
        same == content_is_as_written(text::optional_text(*written), *content),
{
    match written {
        Some(expected) => persisted_verified_remote_content_matches(expected.as_str(), content),
        None => false,
    }
}

/// What was written down of the two files holds the same content hash, or none
/// for either.
pub open spec fn written_hashes_agree(record: FileTransferStorageRecord) -> bool {
    fingerprint::optional_relay_hash(text::optional_text(record.source_fingerprint))
        == fingerprint::optional_relay_hash(text::optional_text(record.destination_fingerprint))
}

fn hashes_agree(record: &FileTransferStorageRecord) -> (agree: bool)
    ensures
        agree == written_hashes_agree(*record),
{
    let source = match &record.source_fingerprint {
        Some(written) => persisted_relay_hash(Some(written.as_str())),
        None => None,
    };
    let destination = match &record.destination_fingerprint {
        Some(written) => persisted_relay_hash(Some(written.as_str())),
        None => None,
    };
    match (source, destination) {
        (Some(first), Some(second)) => same_text(first, second),
        (None, None) => true,
        _ => false,
    }
}

impl RetryRelayDestination {
    /// Takes the content of the destination.
    pub fn destination_verified(self, reply: Result<VerifiedRemoteContent, TransferFailure>) -> (next: Result<
        RetryRelayProbe,
        RetryRefusal,
    >)
        ensures
            match reply {
                Err(unread) => next matches Err(refusal) && refusal.message == unread.message && refusal.evict
                    == unread.invalidate_operator,
                Ok(destination) => if !content_is_as_written(
                    text::optional_text(self.record.destination_fingerprint),
                    destination,
                ) {
                    next matches Err(refusal) && refusal.message@
                        == "Destination content or fingerprint changed; source was not deleted"@ && !refusal.evict
                } else if !written_hashes_agree(self.record) {
                    next matches Err(refusal) && refusal.message@
                        == "Persisted source and destination content hashes differ; source was not deleted"@
                        && !refusal.evict
                } else {
                    next matches Ok(due) && due.record == self.record && due.destination == destination
                },
            },
    {
        match reply {
            Err(unread) => Err(
                RetryRefusal { message: unread.message, evict: unread.invalidate_operator },
            ),
            Ok(destination) => {
                if !content_as_written(&self.record.destination_fingerprint, &destination) {
                    Err(
                        RetryRefusal {
                            message: "Destination content or fingerprint changed; source was not deleted".to_owned(),
                            evict: false,
                        },
                    )
                } else if !hashes_agree(&self.record) {
                    Err(
                        RetryRefusal {
                            message: "Persisted source and destination content hashes differ; source was not deleted".to_owned(),
                            evict: false,
                        },
                    )
                } else {
                    Ok(RetryRelayProbe { record: self.record, destination })
                }
            },
        }
    }
}

impl RetryRelayProbe {
    /// Takes whether the source is still there.
    pub fn source_probed(self, reply: Result<(), String>) -> (next: Result<RetryProbeNext, RetryRefusal>)
        ensures
            match reply {
                Ok(_) => next matches Ok(RetryProbeNext::Verify(due)) && due.record == self.record
                    && due.destination == self.destination,
                Err(error) => if reconcile::tells_absence(error@) {
                    next matches Ok(RetryProbeNext::Completed)
                } else {
                    next matches Err(refusal) && refusal.message == error && refusal.evict
                },
            },
    {
        match reply {
            Ok(_) => Ok(
                RetryProbeNext::Verify(
                    RetryRelaySource { record: self.record, destination: self.destination },
                ),
            ),
            Err(error) => {
                if error_tells_absence(error.as_str()) {
                    Ok(RetryProbeNext::Completed)
                } else {
                    Err(RetryRefusal { message: error, evict: true })
                }
            },
        }
    }
}

impl RetryRelaySource {
    /// Takes the content of the source. It is deleted only where both files were
    /// just read back, are what was written down of them, and hold the same
    /// content.
    pub fn source_verified(self, reply: Result<VerifiedRemoteContent, TransferFailure>) -> (next: Result<
        SourceDeletion,
        RetryRefusal,
    >)
        ensures
            match reply {
                Err(unread) => next matches Err(refusal) && refusal.message == unread.message && refusal.evict
                    == unread.invalidate_operator,
                Ok(source) => if content_is_as_written(
                    text::optional_text(self.record.source_fingerprint),
                    source,
                ) && source.sha256@ == self.destination.sha256@ {
                    next matches Ok(deletion) && deletion == (SourceDeletion {
                        source_path: self.record.remote_path,
                        destination_path: self.record.local_path,
                        source: source.fingerprint,
                        destination: self.destination.fingerprint,
                    })
                } else {
                    next matches Err(refusal) && refusal.message@
                        == "Source content or fingerprint changed; source was not deleted"@ && !refusal.evict
                },
            },
    {
        match reply {
            Err(unread) => Err(
                RetryRefusal { message: unread.message, evict: unread.invalidate_operator },
            ),
            Ok(source) => {
                if content_as_written(&self.record.source_fingerprint, &source) && same_text(
                    source.sha256.as_str(),
                    self.destination.sha256.as_str(),
                ) {
                    Ok(
                        SourceDeletion {
                            source_path: self.record.remote_path,
                            destination_path: self.record.local_path,
                            source: source.fingerprint,
                            destination: self.destination.fingerprint,
                        },
                    )
                } else {
                    Err(
                        RetryRefusal {
                            message: "Source content or fingerprint changed; source was not deleted".to_owned(),
                            evict: false,
                        },
                    )
                }
            },
        }
    }
}

/// What a relayed rename wrote down lets its source be deleted later, as long as
/// both files are still the ones that were written down, and only then: any
/// other content or fingerprint of either file is refused.
pub proof fn unchanged_renames_can_be_retried(
    record: FileTransferStorageRecord,
    source: VerifiedRemoteContent,
    destination: VerifiedRemoteContent,
    source_now: VerifiedRemoteContent,
    destination_now: VerifiedRemoteContent,
)
    requires
        fingerprint::is_digest_text(source.sha256@),
        source.sha256@ == destination.sha256@,
        text::optional_text(record.source_fingerprint) == Some(
            fingerprint::durable(source.fingerprint@, source.sha256@),
        ),
        text::optional_text(record.destination_fingerprint) == Some(
            fingerprint::durable(destination.fingerprint@, destination.sha256@),
        ),
    ensures
        written_hashes_agree(record),
        content_is_as_written(text::optional_text(record.source_fingerprint), source_now) <==> (
        source_now.fingerprint@ == source.fingerprint@ && source_now.sha256@ == source.sha256@),
        content_is_as_written(text::optional_text(record.destination_fingerprint), destination_now) <==> (
        destination_now.fingerprint@ == destination.fingerprint@ && destination_now.sha256@ == destination.sha256@),
{
    fingerprint::durable_text_is_recognised(source.fingerprint@, source.sha256@);
    fingerprint::durable_text_is_recognised(destination.fingerprint@, destination.sha256@);
    if content_is_as_written(text::optional_text(record.source_fingerprint), source_now) {
        fingerprint::durable_text_names_one_content(
            source.fingerprint@,
            source.sha256@,
            source_now.fingerprint@,
            source_now.sha256@,
        );
    }
    if content_is_as_written(text::optional_text(record.destination_fingerprint), destination_now) {
        fingerprint::durable_text_names_one_content(
            destination.fingerprint@,
            destination.sha256@,
            destination_now.fingerprint@,
            destination_now.sha256@,
        );
    }
}

/// The deletion of a source is retried exactly for a rename that was written down
/// as copied with its source left: by its operation, its status, its outcome and
/// its phase.
pub proof fn only_open_renames_are_retried(record: FileTransferStorageRecord)
    ensures
        is_retryable(record) <==> record.direction@ == remote::RemoteOperation::Rename.text() && record.status@
            == failure::TransferStatus::Partial.text() && (record.operation_outcome matches Some(outcome) && outcome@
            == failure::OperationOutcome::CopiedSourceDeleteFailed.text()) && (record.operation_phase matches Some(
            phase,
        ) && phase@ == failure::OperationPhase::DeleteUncertain.text()),
{
}

/// A file is what was written down of it only where it has the fingerprint and the
/// content that were written down; a file of which nothing was written down never
/// is.
pub proof fn only_written_content_is_recognised(written: Option<String>, content: VerifiedRemoteContent)
    ensures
        written is None ==> !content_is_as_written(text::optional_text(written), content),
        written matches Some(persisted) ==> (content_is_as_written(text::optional_text(written), content)
            ==> persisted@ == fingerprint::durable(content.fingerprint@, content.sha256@)),
{
    if let Some(persisted) = written {
        fingerprint::only_durable_texts_are_recognised(persisted@, content.fingerprint@, content.sha256@);
    }
}

} // verus!
