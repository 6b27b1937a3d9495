//! Replies to requests that may be dropped before they are answered.
use vstd::prelude::*;

verus! {

/// The reply to a request that is dropped when the transfer is cancelled or its
/// connection is removed.
#[derive(Debug)]
pub enum Watched<T> {
    TransferCancelled,
    ConnectionRemoved,
    Finished(T),
}

/// The reply to a request that is dropped when it takes too long.
#[derive(Debug)]
pub enum Bounded<T> {
    TimedOut,
    Finished(T),
}

/// The reply to a request that is dropped in any of these cases.
#[derive(Debug)]
pub enum Timed<T> {
    TransferCancelled,
    ConnectionRemoved,
    TimedOut,
    Finished(T),
}

} // verus!
