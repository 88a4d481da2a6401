//! The client side of a language-server session.
//!
//! - `types`: the values exchanged with the server and their conversions
//! - `client`: the configuration and the session, with the requests it plans
//! - `handshake`: the stages from a configuration to a session
//! - `gateway`: one request at a time, and how its outcome is classified
//! - `documents`: the documents that the server holds open

use crate::error::LspError;
use vstd::prelude::*;

pub mod client;
pub mod documents;
pub mod gateway;
pub mod handshake;
pub mod types;

verus! {

/// The result of an operation of the language-server session.
pub type LspResult<T> = std::result::Result<T, LspError>;

} // verus!
