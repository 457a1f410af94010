//! A reference model for a 16-bit accumulator-register CPU subset:
//! a verified instruction decoder and a verified execution engine over a
//! simulated machine state (registers, flags, byte-addressable memory).

pub mod decoder;
pub mod sim;
pub mod text;

use vstd::prelude::*;

verus! {

/// A fatal decode or execution fault. The engine never recovers from one of
/// these: malformed input is treated as a hard stop, not a condition to route
/// around.
#[derive(Clone, Copy, Debug, PartialEq, Eq, Structural)]
pub enum Error {
    /// No decode rule matches the leading byte; carries the offending byte.
    UnknownOpcode(u8),
    /// A byte offset or memory address exceeds the buffer or memory extent.
    OutOfBounds,
    /// An operation met an operand shape its rule does not cover, such as a
    /// write to an immediate.
    InvalidOperand,
    /// A register lookup was asked for the wrong register width.
    UnknownRegister,
}

} // verus!
