//! The two messages of the control channel.
//!
//! A call is one [`Request`] answered by one [`Response`]. Both carry a
//! single string and nothing else, and both are viewed as that string.

use vstd::prelude::*;

verus! {

/// What a caller sends: a single string.
#[derive(Clone, Debug, PartialEq, Eq)]
pub struct Request {
    pub value: String,
}

/// What the caller gets back: a single string.
#[derive(Clone, Debug, PartialEq, Eq)]
pub struct Response {
    pub value: String,
}

impl View for Request {
    type V = Seq<char>;

    open spec fn view(&self) -> Seq<char> {
        self.value@
    }
}

impl View for Response {
    type V = Seq<char>;

    open spec fn view(&self) -> Seq<char> {
        self.value@
    }
}

} // verus!
