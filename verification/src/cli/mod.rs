//! The command line client: what it asks the server, and how it reads the
//! answers and reports them.
use vstd::prelude::*;

pub mod client;
pub mod operations;
pub mod session;

pub use client::Client;
pub use session::Session;

verus! {

} // verus!
