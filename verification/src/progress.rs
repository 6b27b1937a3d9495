//! How far a transfer has come, and how often that is told.
use vstd::prelude::*;

verus! {

/// Progress is written down this often, in milliseconds.
pub const PROGRESS_INTERVAL_MILLIS: u64 = 200;

/// Progress of all transfers together is shown this often, in milliseconds.
pub const GLOBAL_PROGRESS_INTERVAL_MILLIS: u64 = 50;

/// The time has come to write progress down again. A clock that went backwards
/// counts as one that stood still.
pub open spec fn is_due(last: u64, now: u64) -> bool {
    now - last >= PROGRESS_INTERVAL_MILLIS
}

/// Says whether the time has come to write progress down again.
pub fn progress_is_due(last: u64, now: u64) -> (due: bool)
    ensures
        due == is_due(last, now),
{
    now >= last && now - last >= PROGRESS_INTERVAL_MILLIS
}

/// A count of bytes and the size of a chunk, as far as the count can go.
pub open spec fn saturating_sum(count: int, more: int) -> int {
    let added = if more > i64::MAX {
        i64::MAX as int
    } else {
        more
    };
    if count + added > i64::MAX {
        i64::MAX as int
    } else {
        count + added
    }
}

/// Adds the size of a chunk to a count of bytes.
pub fn saturating_count(count: i64, more: usize) -> (sum: i64)
    ensures
        sum == saturating_sum(count as int, more as int),
{
    let chunk: i128 = more as i128;
    let added: i128 = if chunk > i64::MAX as i128 {
        i64::MAX as i128
    } else {
        chunk
    };
    let summed: i128 = count as i128 + added;
    if summed > i64::MAX as i128 {
        i64::MAX
    } else {
        summed as i64
    }
}

/// A number of bytes, as far as the count can go.
pub open spec fn countable(bytes: int) -> int {
    if bytes > i64::MAX {
        i64::MAX as int
    } else {
        bytes
    }
}

/// The count after some pieces, one behind the other.
pub open spec fn counted_pieces(pieces: Seq<usize>) -> int
    decreases pieces.len(),
{
    if pieces.len() == 0 {
        0
    } else {
        saturating_sum(counted_pieces(pieces.drop_last()), pieces.last() as int)
    }
}

/// The bytes of some pieces.
pub open spec fn bytes_of(pieces: Seq<usize>) -> int
    decreases pieces.len(),
{
    if pieces.len() == 0 {
        0
    } else {
        bytes_of(pieces.drop_last()) + pieces.last()
    }
}

/// A transfer counts exactly the bytes of the pieces that were moved, however
/// they were cut, as far as the count can go.
pub proof fn pieces_are_counted_exactly(pieces: Seq<usize>)
    ensures
        counted_pieces(pieces) == countable(bytes_of(pieces)),
        bytes_of(pieces) >= 0,
    decreases pieces.len(),
{
    if pieces.len() > 0 {
        pieces_are_counted_exactly(pieces.drop_last());
    }
}

/// The size of a whole, where it is one.
pub open spec fn usable_total(total: Option<i64>) -> Option<i64> {
    match total {
        Some(size) => if size >= 0 {
            Some(size)
        } else {
            None
        },
        None => None,
    }
}

/// The size of the whole was learned, and the count stayed.
pub open spec fn total_recorded(
    before: TransferProgressSnapshot,
    total: Option<i64>,
    after: TransferProgressSnapshot,
) -> bool {
    after.counted_bytes() == before.counted_bytes() && after.known_total() == usable_total(total)
}

/// The count of bytes was learned, unless it was higher before, and the size of
/// the whole stayed.
pub open spec fn bytes_recorded(
    before: TransferProgressSnapshot,
    bytes: i64,
    after: TransferProgressSnapshot,
) -> bool {
    after.known_total() == before.known_total() && after.counted_bytes() == (if bytes > before.counted_bytes() {
        bytes
    } else {
        before.counted_bytes()
    })
}

/// What is counted of a running transfer: the bytes that were moved, and the
/// size of the whole where it is known.
pub struct TransferProgressSnapshot {
    bytes_transferred: i64,
    total_bytes: i64,
}

impl TransferProgressSnapshot {
    /// The bytes that were moved.
    pub closed spec fn counted_bytes(&self) -> i64 {
        self.bytes_transferred
    }

    /// The size of the whole, where it is known.
    pub closed spec fn known_total(&self) -> Option<i64> {
        if self.total_bytes >= 0 {
            Some(self.total_bytes)
        } else {
            None
        }
    }

    /// Nothing was moved, and the size is not known.
    pub fn new() -> (snapshot: TransferProgressSnapshot)
        ensures
            snapshot.counted_bytes() == 0,
            snapshot.known_total() is None,
    {
        TransferProgressSnapshot { bytes_transferred: 0, total_bytes: -1 }
    }

    /// Learns the size of the whole. A negative size is none.
    pub fn record_total(&mut self, total_bytes: Option<i64>)
        ensures
            total_recorded(*old(self), total_bytes, *final(self)),
    {
        self.total_bytes = match total_bytes {
            Some(total) => total,
            None => -1,
        };
    }

    /// Learns how many bytes were moved. The count never goes back.
    pub fn record_bytes(&mut self, bytes_transferred: i64)
        ensures
            bytes_recorded(*old(self), bytes_transferred, *final(self)),
    {
        if bytes_transferred > self.bytes_transferred {
            self.bytes_transferred = bytes_transferred;
        }
    }

    /// Learns how many bytes were sent, as far as the count can go.
    pub fn record_sent(&mut self, bytes: u64)
        ensures
            bytes_recorded(
                *old(self),
                if bytes > i64::MAX {
                    i64::MAX
                } else {
                    bytes as i64
                },
                *final(self),
            ),
    {
        let counted: i64 = if bytes > i64::MAX as u64 {
            i64::MAX
        } else {
            bytes as i64
        };
        self.record_bytes(counted);
    }

    /// The bytes that were moved.
    pub fn bytes(&self) -> (bytes: i64)
        ensures
            bytes == self.counted_bytes(),
    {
        self.bytes_transferred
    }

    /// The size of the whole, where it is known.
    pub fn total(&self) -> (total: Option<i64>)
        ensures
            total == self.known_total(),
    {
        if self.total_bytes >= 0 {
            Some(self.total_bytes)
        } else {
            None
        }
    }
}

/// Progress is not written down again within a fifth of a second, and from then
/// on it is.
pub proof fn progress_is_told_five_times_a_second(last: u64, now: u64)
    ensures
        now < last + 200 <==> !is_due(last, now),
{
}

/// What is told of a transfer never goes back and never runs ahead: it is what
/// was told before or what was moved, whichever is more, and the size of the
/// whole stays.
pub proof fn told_bytes_never_go_back(
    before: TransferProgressSnapshot,
    bytes: i64,
    after: TransferProgressSnapshot,
)
    requires
        bytes_recorded(before, bytes, after),
    ensures
        after.counted_bytes() >= before.counted_bytes(),
        after.counted_bytes() >= bytes,
        after.counted_bytes() == before.counted_bytes() || after.counted_bytes() == bytes,
        after.known_total() == before.known_total(),
{
}

/// The size of a transfer is told once it is known, without a change of what was
/// moved: a size that is none is not told.
pub proof fn told_sizes_are_sizes(
    before: TransferProgressSnapshot,
    total: Option<i64>,
    after: TransferProgressSnapshot,
)
    requires
        total_recorded(before, total, after),
    ensures
        after.counted_bytes() == before.counted_bytes(),
        after.known_total() matches Some(size) ==> size >= 0 && total == Some(size),
        total matches Some(size) && size >= 0 ==> after.known_total() == total,
        total is None ==> after.known_total() is None,
{
}

/// A count grows by exactly the size of a chunk until it reaches the highest
/// number that it can hold, where it stays.
pub proof fn counts_grow_by_what_is_added(count: int, more: int)
    requires
        0 <= count <= i64::MAX,
        0 <= more,
    ensures
        count + more <= i64::MAX ==> saturating_sum(count, more) == count + more,
        count + more > i64::MAX ==> saturating_sum(count, more) == i64::MAX,
        countable(count) == count,
        countable(count + more) <= i64::MAX,
        count + more <= i64::MAX ==> countable(count + more) == count + more,
        count + more > i64::MAX ==> countable(count + more) == i64::MAX,
{
}

} // verus!
