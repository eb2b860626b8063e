//! The status that a failed call is answered with.

use vstd::prelude::*;

verus! {

/// The category of a failed call.
#[derive(Clone, Copy, Debug, PartialEq, Eq, Structural)]
pub enum Code {
    /// The callee itself failed while it worked on the call.
    Internal,
    /// The call never reached the callee, or its answer never came back.
    Unavailable,
}

/// A failed call: its category and a message for the caller.
#[derive(Clone, Debug, PartialEq, Eq)]
pub struct Status {
    pub code: Code,
    pub message: String,
}

} // verus!
