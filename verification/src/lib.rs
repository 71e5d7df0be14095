//! A paste service: pastes with their owners and visibility, user accounts
//! with hashed passwords, login sessions, API keys, and the command line
//! client that talks to the server.
use vstd::prelude::*;

pub mod cli;
pub mod common;
pub mod error;
pub mod ids;
pub mod laws;
pub mod routes;
pub mod schema;
pub mod status;
pub mod style;
pub mod syntax;
pub mod text;
pub mod time;

pub use common::Created;

verus! {

/// The version of the service.
pub const VERSION: &'static str = "0.1.0";

} // verus!
