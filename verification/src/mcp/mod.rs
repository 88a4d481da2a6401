//! The tools offered to the calling protocol.
//!
//! - `tools`: the parameters of the tools
//! - `router`: the course of a tool call, step by step
//! - `resolver`: how a symbol given by name is found
//! - `server`: how the results are rendered as text

use crate::error::McpError;
use vstd::prelude::*;

pub mod resolver;
pub mod router;
pub mod server;
pub mod tools;

verus! {

/// The result of an operation of the tool server.
pub type McpResult<T> = std::result::Result<T, McpError>;

} // verus!
