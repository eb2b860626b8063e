//! A minimal inter-process command channel: one process exposes a single
//! entry point that takes a string and answers with a string, and another
//! process calls it.
//!
//! This crate holds what is decided on the serving side: how one call is
//! answered, what a shutdown signal means to a listener, and what stopping
//! a listener in the background ends in. Binding an address, accepting
//! connections and waiting are left to the caller's transport and runtime.

pub mod error;
pub mod handle;
pub mod message;
pub mod server;
pub mod shutdown;
pub mod status;

pub use error::Error;
pub use handle::{JoinHandler, Stopping};
pub use message::{Request, Response};
pub use server::Server;
pub use status::{Code, Status};
