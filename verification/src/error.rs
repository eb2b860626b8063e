//! The faults that serving and stopping a listener can end in.

use tonic::transport::Error as TransportError;
use vstd::prelude::*;
use vstd::string::to_string_from_display_ensures;

verus! {

/// The transport's own error type, `Error` in `tonic::transport`. Nothing
/// is known of what it holds: it is only carried to the caller.
#[verifier::external_type_specification]
#[verifier::external_body]
pub struct ExTransportError(TransportError);

/// `tokio::task::JoinError`, which says that a task panicked or was
/// cancelled. Nothing is known of what it holds: it is only carried to the
/// caller.
#[verifier::external_type_specification]
#[verifier::external_body]
pub struct ExJoinError(tokio::task::JoinError);

/// Everything that serving or stopping a listener can fail with.
#[derive(Debug)]
pub enum Error {
    /// The transport could not bind the address, or failed while it served.
    Tonic(TransportError),
    /// The shutdown signal found nobody left to receive it.
    Channel,
    /// The background task did not run to its end.
    JoinError(tokio::task::JoinError),
}

impl From<TransportError> for Error {
    fn from(value: TransportError) -> (error: Self) {
        Error::Tonic(value)
    }
}

impl vstd::std_specs::convert::FromSpecImpl<TransportError> for Error {
    open spec fn obeys_from_spec() -> bool {
        true
    }

    open spec fn from_spec(value: TransportError) -> Self {
        Error::Tonic(value)
    }
}

impl Error {
    /// The text that stands for a signal nobody received.
    pub open spec fn channel_text() -> Seq<char> {
        "shutdown signal not delivered: the listener is gone"@
    }

    /// Whether `text` is how this error reads: for a fault of the transport
    /// or of the task, the way that fault displays itself; for an
    /// undelivered signal, [`Error::channel_text`].
    pub open spec fn reads_as(&self, text: String) -> bool {
        match self {
            Error::Tonic(e) => to_string_from_display_ensures::<TransportError>(e, text),
            Error::Channel => text@ == Self::channel_text(),
            Error::JoinError(e) => to_string_from_display_ensures::<tokio::task::JoinError>(
                e,
                text,
            ),
        }
    }

    /// The error as a line of text for a person to read.
    pub fn message(&self) -> (text: String)
        ensures
            self.reads_as(text),
    {
        match self {
            Error::Tonic(e) => e.to_string(),
            Error::Channel => "shutdown signal not delivered: the listener is gone".to_string(),
            Error::JoinError(e) => e.to_string(),
        }
    }
}

} // verus!
