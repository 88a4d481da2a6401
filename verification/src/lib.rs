//! Session and request orchestration for a bridge between a tool-calling
//! protocol and a language server.
//!
//! Everything here is a decision or a computation on plain values: which
//! message to send next, how an outcome is classified, which symbol a name
//! denotes, how a result is rendered as text. Spawning the server, waiting on
//! it and reading files are left to the caller, which performs the actions
//! that these functions hand out and feeds back what happened.
//!
//! - [`error`]: the error types
//! - [`lsp`]: the session with the language server
//! - [`mcp`]: the tools and how their results are rendered
//! - [`text`], [`time`]: text and time as the other modules need them

pub mod error;
pub mod lsp;
pub mod mcp;
pub mod text;
pub mod time;

pub use crate::error::Error;
