//! The ways in which a run of the probe can fail.

use vstd::prelude::*;

verus! {

/// The three numbers that shape a send session.
#[derive(Clone, Copy, Debug, PartialEq, Eq, Structural)]
pub enum Argument {
    Amount,
    Interval,
    Size,
}

/// Every failure ends the run. The first four and the sixth are found before any
/// socket is opened; the others name the socket operation that failed.
#[derive(Clone, Copy, Debug, PartialEq, Eq, Structural)]
pub enum Error {
    /// The address text is no address of either family.
    InvalidAddress,
    /// The address is outside the multicast range of its family.
    NotMulticast,
    /// The port text is no number from 0 to 65535.
    InvalidPort,
    /// The named argument is no number of its type, or is zero.
    InvalidNumericArgument(Argument),
    /// The payload would not fit the buffer that every receiver reads into.
    PayloadTooLarge,
    BindError,
    JoinGroupError,
    LeaveGroupError,
    SendError,
    ReceiveError,
}

} // verus!
