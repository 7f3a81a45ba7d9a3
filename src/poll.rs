//! Results of operations that may have to wait for the peripheral.
use vstd::prelude::*;

verus! {

/// An operation could not complete now (`WouldBlock`, to be retried) or
/// failed (`Other`).
#[derive(Clone, Copy, Debug, PartialEq, Eq, Structural)]
pub enum PollError<E> {
    /// The operation has to wait for the peripheral: a queue is empty or
    /// full, a buffer is in use, a cancellation is not yet confirmed
    WouldBlock,
    /// A hard error
    Other(E),
}

/// Result of an operation that may have to wait for the peripheral.
pub type PollResult<T, E> = Result<T, PollError<E>>;

/// Index is out of bounds
#[derive(Clone, Copy, Debug, PartialEq, Eq, Structural)]
pub struct OutOfBounds;

} // verus!
