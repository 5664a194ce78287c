//! Small result types shared by the non-blocking register operations and
//! the cooperative transfer objects.

use vstd::prelude::*;

verus! {

/// Outcome of a single non-blocking register operation: either the
/// operation completed, or the hardware queue it needed was not ready
/// (transmit FIFO full, receive FIFO empty) and the caller should retry.
#[derive(Clone, Copy, PartialEq, Eq, Debug)]
pub enum Nb<T> {
    /// The operation completed with this value.
    Ready(T),
    /// The FIFO was not ready; nothing was done.
    WouldBlock,
}

/// Outcome of polling a cooperative transfer object.
#[derive(Clone, Copy, PartialEq, Eq, Debug)]
pub enum PollStatus {
    /// Some bytes are still outstanding; the object must be polled again.
    Pending,
    /// Every byte has been pumped; the transfer is finished.
    Complete,
}

} // verus!
