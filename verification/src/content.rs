//! Reading a remote file back: its content is hashed between two looks at its
//! fingerprint, and counts only where nothing changed in between.
use crate::digest;
use crate::digest::ContentDigest;
use crate::failure;
use crate::failure::cancelled_active_failure;
use crate::failure::cancelled_during;
use crate::failure::local_failure;
use crate::failure::remote_failure;
use crate::failure::TransferFailure;
use crate::fingerprint::RemoteFileFingerprint;
use crate::fingerprint::VerifiedRemoteContent;
use crate::reply::Bounded;
use crate::reply::Timed;
use vstd::prelude::*;
use vstd::slice::slice_subrange;

verus! {

/// Due: the fingerprint of the file before it is read.
#[non_exhaustive]
#[derive(Debug)]
pub struct ContentCheck {
    pub exact_ftp_relay: bool,
}

/// Due: the file's path, checked.
#[non_exhaustive]
#[derive(Debug)]
pub struct ContentPath {
    pub exact_ftp_relay: bool,
    pub before: RemoteFileFingerprint,
}

/// The way that a file is read back.
#[derive(Debug)]
pub enum ContentRoute {
    /// Over an FTP session of its own.
    FtpSession(ContentSessionOpening),
    /// Through the connection's operator.
    Operator(ContentPathConfiguring),
}

/// Due: an FTP session of its own.
#[non_exhaustive]
#[derive(Debug)]
pub struct ContentSessionOpening {
    pub before: RemoteFileFingerprint,
    pub path: String,
}

/// Due: the path below the connection's root.
#[non_exhaustive]
#[derive(Debug)]
pub struct ContentPathConfiguring {
    pub before: RemoteFileFingerprint,
    pub path: String,
}

/// Due: a reader of the file.
#[non_exhaustive]
#[derive(Debug)]
pub struct ContentReaderOpening {
    pub before: RemoteFileFingerprint,
    pub path: String,
}

/// Due: the next piece of the content.
#[non_exhaustive]
pub struct ContentStream {
    pub before: RemoteFileFingerprint,
    pub path: String,
    pub digest: ContentDigest,
}

/// Due: the fingerprint of the file after it was read.
#[non_exhaustive]
#[derive(Debug)]
pub struct ContentRead {
    pub before: RemoteFileFingerprint,
    pub bytes_read: u64,
    pub sha256: String,
}

/// What comes of a request of the remote side that has a deadline.
pub open spec fn bounded_remote<T>(
    reply: Bounded<Result<T, String>>,
    late: Seq<char>,
    result: Result<T, TransferFailure>,
) -> bool {
    match reply {
        Bounded::TimedOut => result matches Err(stopped) && stopped@ == failure::remote_failed(late),
        Bounded::Finished(Err(error)) => result matches Err(stopped) && stopped@ == failure::remote_failed(error@),
        Bounded::Finished(Ok(value)) => result == Ok::<T, TransferFailure>(value),
    }
}

/// Turns the reply to a request of the remote side with a deadline into a
/// failure, where it is one.
pub fn watched_remote<T>(reply: Bounded<Result<T, String>>, timeout_message: &str) -> (result: Result<
    T,
    TransferFailure,
>)
    ensures
        bounded_remote(reply, timeout_message@, result),
{
    match reply {
        Bounded::TimedOut => Err(remote_failure(timeout_message.to_owned())),
        Bounded::Finished(Err(error)) => Err(remote_failure(error)),
        Bounded::Finished(Ok(value)) => Ok(value),
    }
}

/// Begins to read a file back.
pub fn verify_remote_content(exact_ftp_relay: bool) -> (check: ContentCheck)
    ensures
        check.exact_ftp_relay == exact_ftp_relay,
{
    ContentCheck { exact_ftp_relay }
}

impl ContentCheck {
    /// Takes the fingerprint before reading.
    pub fn before_observed(self, reply: Result<RemoteFileFingerprint, String>) -> (next: Result<
        ContentPath,
        TransferFailure,
    >)
        ensures
            match reply {
                Err(error) => next matches Err(stopped) && stopped@ == failure::remote_failed(error@),
                Ok(before) => next matches Ok(path) && path.before == before && path.exact_ftp_relay
                    == self.exact_ftp_relay,
            },
    {
        match reply {
            Err(error) => Err(remote_failure(error)),
            Ok(before) => Ok(ContentPath { exact_ftp_relay: self.exact_ftp_relay, before }),
        }
    }
}

impl ContentPath {
    /// Takes the checked path.
    pub fn path_validated(self, reply: Result<String, String>) -> (next: Result<ContentRoute, TransferFailure>)
        ensures
            match reply {
                Err(error) => next matches Err(stopped) && stopped@ == failure::local_failed(error@),
                Ok(path) => if self.exact_ftp_relay {
                    next matches Ok(ContentRoute::FtpSession(opening)) && opening.before == self.before
                        && opening.path == path
                } else {
                    next matches Ok(ContentRoute::Operator(configuring)) && configuring.before == self.before
                        && configuring.path == path
                },
            },
    {
        match reply {
            Err(error) => Err(local_failure(error)),
            Ok(path) => {
                if self.exact_ftp_relay {
                    Ok(ContentRoute::FtpSession(ContentSessionOpening { before: self.before, path }))
                } else {
                    Ok(ContentRoute::Operator(ContentPathConfiguring { before: self.before, path }))
                }
            },
        }
    }
}

impl ContentSessionOpening {
    /// Takes whether the session could be opened.
    pub fn session_opened(self, reply: Bounded<Result<(), String>>) -> (next: Result<
        ContentReaderOpening,
        TransferFailure,
    >)
        ensures
            match reply {
                Bounded::TimedOut => next matches Err(stopped) && stopped@ == failure::remote_failed(
                    "Opening the remote verification session timed out"@,
                ),
                Bounded::Finished(Err(error)) => next matches Err(stopped) && stopped@ == failure::remote_failed(
                    error@,
                ),
                Bounded::Finished(Ok(_)) => next matches Ok(opening) && opening.before == self.before
                    && opening.path == self.path,
            },
    {
        match watched_remote(reply, "Opening the remote verification session timed out") {
            Err(stopped) => Err(stopped),
            Ok(_) => Ok(ContentReaderOpening { before: self.before, path: self.path }),
        }
    }
}

impl ContentPathConfiguring {
    /// Takes whether the path lies below the connection's root.
    pub fn path_configured(self, reply: Result<(), String>) -> (next: Result<ContentReaderOpening, TransferFailure>)
        ensures
            match reply {
                Err(error) => next matches Err(stopped) && stopped@ == failure::local_failed(error@),
                Ok(_) => next matches Ok(opening) && opening.before == self.before && opening.path == self.path,
            },
    {
        match reply {
            Err(error) => Err(local_failure(error)),
            Ok(_) => Ok(ContentReaderOpening { before: self.before, path: self.path }),
        }
    }
}

impl ContentReaderOpening {
    /// Takes whether the reader could be opened.
    pub fn reader_opened(self, reply: Bounded<Result<(), String>>) -> (next: Result<ContentStream, TransferFailure>)
        ensures
            match reply {
                Bounded::TimedOut => next matches Err(stopped) && stopped@ == failure::remote_failed(
                    "Opening the remote verification reader timed out"@,
                ),
                Bounded::Finished(Err(error)) => next matches Err(stopped) && stopped@ == failure::remote_failed(
                    error@,
                ),
                Bounded::Finished(Ok(_)) => next matches Ok(stream) && stream.before == self.before && stream.path
                    == self.path && stream.is_fresh(),
            },
    {
        match watched_remote(reply, "Opening the remote verification reader timed out") {
            Err(stopped) => Err(stopped),
            Ok(_) => Ok(
                ContentStream { before: self.before, path: self.path, digest: ContentDigest::new() },
            ),
        }
    }
}

/// The count of read bytes after another piece.
pub open spec fn counted_bytes(before: int, more: int) -> int {
    if before + more > u64::MAX {
        u64::MAX as int
    } else {
        before + more
    }
}

/// What follows a piece of the content, or the want of one.
pub open spec fn piece_leads_to(
    before: ContentStream,
    reply: Timed<Result<usize, String>>,
    buffer: Seq<u8>,
    more: Result<bool, TransferFailure>,
    after: ContentStream,
) -> bool {
    &&& after.before == before.before
    &&& after.path == before.path
    &&& match reply {
        Timed::TransferCancelled => more matches Err(stopped) && stopped@ == failure::cancelled_active(
            "Download cancelled"@,
        ),
        Timed::ConnectionRemoved => more matches Err(stopped) && stopped@ == failure::cancelled_active(
            "The file connection was removed during remote content verification"@,
        ),
        Timed::TimedOut => more matches Err(stopped) && stopped@ == failure::remote_failed(
            "Remote content verification made no progress before the I/O watchdog expired"@,
        ),
        Timed::Finished(Err(error)) => more matches Err(stopped) && stopped@ == failure::remote_failed(error@),
        Timed::Finished(Ok(count)) => more == Ok::<bool, TransferFailure>(count != 0),
    }
    &&& match reply {
        Timed::Finished(Ok(count)) => after.digest.content() == before.digest.content() + buffer.take(
            count as int,
        ) && after.digest.length() == counted_bytes(before.digest.length() as int, count as int),
        _ => after.digest == before.digest,
    }
}

/// What follows the end of the content.
pub open spec fn end_leads_to(
    stream: ContentStream,
    closed: Bounded<Result<(), String>>,
    next: Result<ContentRead, TransferFailure>,
) -> bool {
    match closed {
        Bounded::TimedOut => next matches Err(stopped) && stopped@ == failure::remote_failed(
            "Finalizing the remote verification reader timed out"@,
        ),
        Bounded::Finished(Err(error)) => next matches Err(stopped) && stopped@ == failure::remote_failed(error@),
        Bounded::Finished(Ok(_)) => next matches Ok(read) && read.before == stream.before && read.bytes_read
            == stream.digest.length() && read.sha256@ == digest::hex_text(digest::sha256(stream.digest.content()))
            && crate::fingerprint::is_digest_text(read.sha256@),
    }
}

/// What follows the look at the file behind its content.
pub open spec fn after_leads_to(
    read: ContentRead,
    reply: Result<RemoteFileFingerprint, String>,
    verified: Result<VerifiedRemoteContent, TransferFailure>,
) -> bool {
    match reply {
        Err(error) => verified matches Err(stopped) && stopped@ == failure::remote_failed(error@),
        Ok(after) => if read.before@ == after@ && read.bytes_read == read.before.size {
            verified matches Ok(content) && content.fingerprint == after && content.sha256 == read.sha256
        } else {
            verified matches Err(stopped) && stopped@ == failure::remote_failed(
                "Remote file changed while its content hash was being verified; source deletion was not attempted"@,
            )
        },
    }
}

impl ContentStream {
    /// Nothing was read.
    pub open spec fn is_fresh(&self) -> bool {
        self.digest.content() == Seq::<u8>::empty() && self.digest.length() == 0
    }

    /// Takes the next piece, which stands at the front of the buffer. Says
    /// whether there may be more: an empty piece is the end of the content.
    pub fn piece_read(&mut self, reply: Timed<Result<usize, String>>, buffer: &[u8]) -> (more: Result<
        bool,
        TransferFailure,
    >)
        requires
            reply matches Timed::Finished(Ok(count)) ==> count <= buffer@.len(),
        ensures
            piece_leads_to(*old(self), reply, buffer@, more, *final(self)),
    {
        match reply {
            Timed::TransferCancelled => Err(cancelled_active_failure()),
            Timed::ConnectionRemoved => Err(
                cancelled_during(
                    "The file connection was removed during remote content verification".to_owned(),
                ),
            ),
            Timed::TimedOut => Err(
                remote_failure(
                    "Remote content verification made no progress before the I/O watchdog expired".to_owned(),
                ),
            ),
            Timed::Finished(Err(error)) => Err(remote_failure(error)),
            Timed::Finished(Ok(count)) => {
                if count == 0 {
                    assert(self.digest.content() + buffer@.take(0) =~= self.digest.content());
                    return Ok(false);
                }
                assert(buffer@.subrange(0, count as int) =~= buffer@.take(count as int));
                self.digest.absorb(slice_subrange(buffer, 0, count));
                Ok(true)
            },
        }
    }

    /// Takes that the content came to its end, and, of an FTP session, whether
    /// its reader could be closed.
    pub fn ended(self, closed: Bounded<Result<(), String>>) -> (next: Result<ContentRead, TransferFailure>)
        ensures
            end_leads_to(self, closed, next),
    {
        match watched_remote(closed, "Finalizing the remote verification reader timed out") {
            Err(stopped) => Err(stopped),
            Ok(_) => {
                let bytes_read: u64 = self.digest.bytes_read();
                Ok(ContentRead { before: self.before, bytes_read, sha256: self.digest.finish() })
            },
        }
    }
}

impl ContentRead {
    /// Takes the fingerprint after reading. The content counts where the
    /// fingerprint is the one from before and the content has its length.
    pub fn after_observed(self, reply: Result<RemoteFileFingerprint, String>) -> (verified: Result<
        VerifiedRemoteContent,
        TransferFailure,
    >)
        ensures
            after_leads_to(self, reply, verified),
    {
        match reply {
            Err(error) => Err(remote_failure(error)),
            Ok(after) => {
                if !self.before.same_as(&after) || self.bytes_read != self.before.size {
                    Err(
                        remote_failure(
                            "Remote file changed while its content hash was being verified; source deletion was not attempted".to_owned(),
                        ),
                    )
                } else {
                    Ok(VerifiedRemoteContent { fingerprint: after, sha256: self.sha256 })
                }
            },
        }
    }
}

/// What was read of a file at one time: the reply, the buffer, and what came of
/// it.
pub struct ContentPiece {
    pub reply: Timed<Result<usize, String>>,
    pub buffer: Seq<u8>,
    pub more: Result<bool, TransferFailure>,
}

/// A file is read piece by piece, from one moment to the next.
pub open spec fn reads_on(moments: Seq<ContentStream>, pieces: Seq<ContentPiece>) -> bool {
    &&& moments.len() == pieces.len() + 1
    &&& forall|i: int|
        0 <= i < pieces.len() ==> {
            let piece = #[trigger] pieces[i];
            &&& piece.reply matches Timed::Finished(Ok(count)) ==> count <= piece.buffer.len()
            &&& piece_leads_to(moments[i], piece.reply, piece.buffer, piece.more, moments[i + 1])
        }
}

/// The bytes that were read, from the first to the last.
pub open spec fn bytes_in(pieces: Seq<ContentPiece>) -> Seq<u8>
    decreases pieces.len(),
{
    if pieces.len() == 0 {
        Seq::empty()
    } else {
        bytes_in(pieces.drop_last()) + (match pieces.last().reply {
            Timed::Finished(Ok(count)) => pieces.last().buffer.take(count as int),
            _ => Seq::empty(),
        })
    }
}

/// However a file is cut into pieces, what is hashed of it is what was read, and
/// its bytes are counted exactly, as far as the count can go.
pub proof fn read_pieces_are_hashed_and_counted(moments: Seq<ContentStream>, pieces: Seq<ContentPiece>)
    requires
        reads_on(moments, pieces),
        moments[0].is_fresh(),
    ensures
        moments.last().digest.content() == bytes_in(pieces),
        moments.last().digest.length() == counted_bytes(0, bytes_in(pieces).len() as int),
        moments.last().before == moments[0].before,
        moments.last().path == moments[0].path,
    decreases pieces.len(),
{
    if pieces.len() > 0 {
        let earlier = moments.drop_last();
        let front = pieces.drop_last();
        assert forall|i: int| 0 <= i < front.len() implies ({
            let piece = #[trigger] front[i];
            &&& piece.reply matches Timed::Finished(Ok(count)) ==> count <= piece.buffer.len()
            &&& piece_leads_to(earlier[i], piece.reply, piece.buffer, piece.more, earlier[i + 1])
        }) by {
            assert(front[i] == pieces[i]);
        }
        read_pieces_are_hashed_and_counted(earlier, front);
        let piece = pieces[pieces.len() - 1];
        assert(piece_leads_to(earlier.last(), piece.reply, piece.buffer, piece.more, moments.last()));
    }
}

/// A file that was verified has the digest of exactly the bytes that were read,
/// which are as many as its fingerprint says, before and behind the reading.
pub proof fn verified_content_is_what_was_read(
    moments: Seq<ContentStream>,
    pieces: Seq<ContentPiece>,
    closed: Bounded<Result<(), String>>,
    read: ContentRead,
    reply: Result<RemoteFileFingerprint, String>,
    verified: VerifiedRemoteContent,
)
    requires
        reads_on(moments, pieces),
        moments[0].is_fresh(),
        end_leads_to(moments.last(), closed, Ok(read)),
        after_leads_to(read, reply, Ok(verified)),
    ensures
        verified.sha256@ == digest::hex_text(digest::sha256(bytes_in(pieces))),
        verified.fingerprint.size == counted_bytes(0, bytes_in(pieces).len() as int),
        verified.fingerprint@ == moments[0].before@,
{
    read_pieces_are_hashed_and_counted(moments, pieces);
    assert(verified.fingerprint@.size == read.before@.size);
}

/// A request of the other side that is late or fails gives up the service, and one
/// that is answered hands the answer on.
pub proof fn late_answers_give_up_the_service<T>(
    reply: Bounded<Result<T, String>>,
    late: Seq<char>,
    result: Result<T, TransferFailure>,
)
    requires
        bounded_remote(reply, late, result),
    ensures
        reply matches Bounded::Finished(Ok(value)) ==> result == Ok::<T, TransferFailure>(value),
        result is Ok <==> reply matches Bounded::Finished(Ok(_)),
        result matches Err(stopped) ==> stopped.invalidate_operator && stopped.status == failure::FailureStatus::Failed,
        reply is TimedOut ==> result->Err_0.message@ == late,
        reply matches Bounded::Finished(Err(error)) ==> result->Err_0.message@ == error@,
{
}

/// Reading a file back goes on exactly while pieces come. An interruption stops it
/// as cancelled and any other fault as failed; all of these give up the service,
/// and nothing is hashed of a piece that did not come.
pub proof fn only_pieces_that_came_are_hashed(
    before: ContentStream,
    reply: Timed<Result<usize, String>>,
    buffer: Seq<u8>,
    more: Result<bool, TransferFailure>,
    after: ContentStream,
)
    requires
        piece_leads_to(before, reply, buffer, more, after),
    ensures
        more is Ok <==> reply matches Timed::Finished(Ok(_)),
        reply matches Timed::Finished(Ok(count)) ==> more == Ok::<bool, TransferFailure>(count > 0)
            && after.digest.content() == before.digest.content() + buffer.take(count as int),
        more matches Err(stopped) ==> after.digest == before.digest && stopped.invalidate_operator && stopped.status == (
        if reply is TransferCancelled || reply is ConnectionRemoved {
            failure::FailureStatus::Cancelled
        } else {
            failure::FailureStatus::Failed
        }),
        reply matches Timed::Finished(Err(error)) ==> more->Err_0.message@ == error@,
        after.before == before.before && after.path@ == before.path@,
{
}

/// A file that was read counts exactly where it looks the same before and behind
/// the reading and as many bytes were read as it has.
pub proof fn changed_files_do_not_count(
    read: ContentRead,
    reply: Result<RemoteFileFingerprint, String>,
    verified: Result<VerifiedRemoteContent, TransferFailure>,
)
    requires
        after_leads_to(read, reply, verified),
    ensures
        verified is Ok <==> (reply matches Ok(after) && after@ == read.before@ && read.bytes_read == read.before.size),
        verified matches Ok(content) ==> content.fingerprint == reply->Ok_0 && content.sha256@ == read.sha256@,
        verified matches Err(stopped) ==> stopped.invalidate_operator && stopped.status
            == failure::FailureStatus::Failed,
        reply matches Err(error) ==> verified->Err_0.message@ == error@,
{
}

/// Reading ends with the digest of what was read and with its length, unless the
/// reader could not be closed.
pub proof fn readers_are_closed_behind_the_content(
    stream: ContentStream,
    closed: Bounded<Result<(), String>>,
    next: Result<ContentRead, TransferFailure>,
)
    requires
        end_leads_to(stream, closed, next),
    ensures
        next is Ok <==> closed matches Bounded::Finished(Ok(_)),
        next matches Ok(read) ==> read.before == stream.before && read.bytes_read == stream.digest.length()
            && read.sha256@ == digest::hex_text(digest::sha256(stream.digest.content())),
        next matches Err(stopped) ==> stopped.invalidate_operator && stopped.status == failure::FailureStatus::Failed,
{
}

/// A verification that stops is told why: it was cancelled, its connection was
/// removed, nothing came for too long, or the file changed.
pub proof fn stopped_verifications_are_told_why(
    before: ContentStream,
    reply: Timed<Result<usize, String>>,
    buffer: Seq<u8>,
    more: Result<bool, TransferFailure>,
    after: ContentStream,
    closed: Bounded<Result<(), String>>,
    next: Result<ContentRead, TransferFailure>,
    read: ContentRead,
    stat: Result<RemoteFileFingerprint, String>,
    verified: Result<VerifiedRemoteContent, TransferFailure>,
)
    requires
        piece_leads_to(before, reply, buffer, more, after),
        end_leads_to(after, closed, next),
        after_leads_to(read, stat, verified),
    ensures
        reply is TransferCancelled ==> more is Err && more->Err_0.status == failure::FailureStatus::Cancelled
            && more->Err_0.message@ == "Download cancelled"@,
        reply is ConnectionRemoved ==> more is Err && more->Err_0.status == failure::FailureStatus::Cancelled
            && more->Err_0.message@ == "The file connection was removed during remote content verification"@,
        reply is TimedOut ==> more is Err && more->Err_0.status == failure::FailureStatus::Failed
            && more->Err_0.message@
            == "Remote content verification made no progress before the I/O watchdog expired"@,
        reply matches Timed::Finished(Err(error)) ==> more is Err && more->Err_0.status
            == failure::FailureStatus::Failed && more->Err_0.message@ == error@,
        more matches Err(stopped) ==> stopped.invalidate_operator,
        closed is TimedOut ==> next is Err && next->Err_0.message@
            == "Finalizing the remote verification reader timed out"@,
        closed matches Bounded::Finished(Err(error)) ==> next is Err && next->Err_0.message@ == error@,
        stat matches Err(error) ==> verified is Err && verified->Err_0.message@ == error@,
        stat is Ok && verified is Err ==> verified->Err_0.message@
            == "Remote file changed while its content hash was being verified; source deletion was not attempted"@,
{
}

} // verus!
