//! Error values returned by the fallible operations of the crate.
//!
//! Every validation failure is reported as a value of [`Error`]; no public
//! operation of the crate panics on bad input.

use vstd::prelude::*;

verus! {

/// The ways a request to this crate can be rejected.
///
/// Each variant carries the data a caller needs to see what was wrong.
#[derive(Clone, Copy, Debug, PartialEq, Eq, Structural)]
pub enum Error {
    /// A matrix element type was requested with too many channels.
    /// `supplied` is the requested channel count, `max` the first count
    /// that is rejected.
    UnsupportedChannelCount { supplied: u32, max: u32 },
    /// A packed element-type tag could not be decoded.
    InvalidTypeValue { value: i64 },
    /// A buffer was requested with a negative row or column count.
    InvalidDimensions { rows: i64, cols: i64 },
    /// The byte source handed to a buffer constructor is shorter than the
    /// requested dimensions demand.  The required count is kept wide, since
    /// a request can ask for more bytes than the machine can address.
    BufferTooSmall { required: u128, available: usize },
    /// A region-of-interest rectangle does not lie inside the buffer.
    RoiOutOfBounds,
    /// Two buffers were combined whose dimensions or element types differ.
    SizeMismatch,
    /// A window name contains an embedded terminator byte and cannot be
    /// handed to the windowing system.
    EmbeddedNul,
}

} // verus!
