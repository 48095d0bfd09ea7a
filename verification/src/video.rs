//! Values used by the video-tracking collaborators: termination criteria
//! for iterative searches.
//!
//! The iterative searches themselves run in the native layer outside this
//! crate; only the plain values handed to them are defined here.

use vstd::prelude::*;

verus! {

/// Termination criterion kind for an iterative algorithm: a maximum
/// iteration count, a desired accuracy, or both.
#[derive(Clone, Copy, Debug, PartialEq, Eq, Structural)]
pub enum TermType {
    /// Stop after a maximum number of iterations or computed elements.
    Count,
    /// Stop once the change between iterations falls below an accuracy
    /// bound.
    EPS,
}

/// The native tag of a termination criterion kind.
pub open spec fn term_type_value(t: TermType) -> int {
    match t {
        TermType::Count => 1,
        TermType::EPS => 2,
    }
}

impl TermType {
    /// Returns the native tag this kind stands for.
    pub fn as_value(&self) -> (r: i32)
        ensures
            r == term_type_value(*self),
    {
        match *self {
            TermType::Count => 1,
            TermType::EPS => 2,
        }
    }
}

} // verus!
