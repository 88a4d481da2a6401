//! Error types, by subsystem: language-server session, tool protocol,
//! transport and tools, and one type that unifies them.
//!
//! Each type renders itself as text through `to_string`; the text is stated
//! by the spec function `message`.

use crate::text::{decimal, push_decimal, push_signed_decimal, signed_decimal};
use crate::time::TimeSpan;
use vstd::prelude::*;
use vstd::std_specs::convert::FromSpecImpl;

verus! {

/// Errors of the language-server session.
#[derive(Debug)]
pub enum LspError {
    /// The language server process failed to start.
    ServerStartFailed(String),
    /// The language server process exited unexpectedly.
    ServerExited(String),
    /// The handshake with the language server failed.
    InitializationFailed(String),
    /// The language server answered with an error response.
    ServerError {
        /// The error code from the language server.
        code: i32,
        /// The error message from the language server.
        message: String,
    },
    /// A request to the language server was not answered in time.
    Timeout(TimeSpan),
    /// The language server is not initialized.
    NotInitialized,
    /// A request or notification could not be sent, or was refused.
    RequestFailed(String),
    /// The response from the language server could not be read.
    ParseError(String),
    /// The language server does not support the requested capability.
    CapabilityNotSupported(String),
    /// A position whose line or column is zero.
    InvalidPosition {
        /// The line number.
        line: u32,
        /// The column number.
        column: u32,
    },
    /// The document is missing or not open.
    DocumentNotFound(String),
}

impl LspError {
    /// The text of the error.
    pub open spec fn message(self) -> Seq<char> {
        match self {
            LspError::ServerStartFailed(detail) => "failed to start language server: "@ + detail@,
            LspError::ServerExited(detail) => "language server exited unexpectedly: "@ + detail@,
            LspError::InitializationFailed(detail) => "language server initialization failed: "@
                + detail@,
            LspError::ServerError { code, message } => "language server error: "@ + message@
                + " (code: "@ + signed_decimal(code as int) + ")"@,
            LspError::Timeout(span) => "language server request timed out after "@
                + span.debug_text(),
            LspError::NotInitialized => "language server not initialized"@,
            LspError::RequestFailed(detail) => "failed to send request to language server: "@
                + detail@,
            LspError::ParseError(detail) => "failed to parse language server response: "@
                + detail@,
            LspError::CapabilityNotSupported(name) => "capability not supported: "@ + name@,
            LspError::InvalidPosition { line, column } => "invalid position: line "@ + decimal(
                line as nat,
            ) + ", column "@ + decimal(column as nat),
            LspError::DocumentNotFound(detail) => "document not found: "@ + detail@,
        }
    }

    /// Renders the error as text.
    pub fn to_string(&self) -> (text: String)
        ensures
            text@ == self.message(),
    {
        let mut text = String::new();
        match self {
            LspError::ServerStartFailed(detail) => {
                text.append("failed to start language server: ");
                text.append(detail.as_str());
            },
            LspError::ServerExited(detail) => {
                text.append("language server exited unexpectedly: ");
                text.append(detail.as_str());
            },
            LspError::InitializationFailed(detail) => {
                text.append("language server initialization failed: ");
                text.append(detail.as_str());
            },
            LspError::ServerError { code, message } => {
                text.append("language server error: ");
                text.append(message.as_str());
                text.append(" (code: ");
                push_signed_decimal(&mut text, *code as i64);
                text.append(")");
            },
            LspError::Timeout(span) => {
                text.append("language server request timed out after ");
                text.append(span.to_debug_string().as_str());
            },
            LspError::NotInitialized => {
                text.append("language server not initialized");
            },
            LspError::RequestFailed(detail) => {
                text.append("failed to send request to language server: ");
                text.append(detail.as_str());
            },
            LspError::ParseError(detail) => {
                text.append("failed to parse language server response: ");
                text.append(detail.as_str());
            },
            LspError::CapabilityNotSupported(name) => {
                text.append("capability not supported: ");
                text.append(name.as_str());
            },
            LspError::InvalidPosition { line, column } => {
                text.append("invalid position: line ");
                push_decimal(&mut text, *line as u64);
                text.append(", column ");
                push_decimal(&mut text, *column as u64);
            },
            LspError::DocumentNotFound(detail) => {
                text.append("document not found: ");
                text.append(detail.as_str());
            },
        }
        text
    }
}

/// Errors of tool execution.
#[derive(Debug)]
pub enum ToolError {
    /// The requested tool was not found.
    NotFound(String),
    /// The arguments of the tool call are invalid.
    InvalidArguments(String),
    /// The tool ran and failed.
    ExecutionFailed(String),
    /// The file named in the arguments was not found.
    FileNotFound(String),
    /// The file could not be read.
    FileReadError(String),
    /// No symbol was found for the query.
    SymbolNotFound,
    /// The language-server session failed during the tool call.
    LspError(LspError),
}

impl ToolError {
    /// The text of the error.
    pub open spec fn message(self) -> Seq<char> {
        match self {
            ToolError::NotFound(name) => "tool not found: "@ + name@,
            ToolError::InvalidArguments(detail) => "invalid tool arguments: "@ + detail@,
            ToolError::ExecutionFailed(detail) => "tool execution failed: "@ + detail@,
            ToolError::FileNotFound(path) => "file not found: "@ + path@,
            ToolError::FileReadError(detail) => "failed to read file: "@ + detail@,
            ToolError::SymbolNotFound => "symbol not found at position"@,
            ToolError::LspError(inner) => "LSP error: "@ + inner.message(),
        }
    }

    /// Renders the error as text.
    pub fn to_string(&self) -> (text: String)
        ensures
            text@ == self.message(),
    {
        let mut text = String::new();
        match self {
            ToolError::NotFound(name) => {
                text.append("tool not found: ");
                text.append(name.as_str());
            },
            ToolError::InvalidArguments(detail) => {
                text.append("invalid tool arguments: ");
                text.append(detail.as_str());
            },
            ToolError::ExecutionFailed(detail) => {
                text.append("tool execution failed: ");
                text.append(detail.as_str());
            },
            ToolError::FileNotFound(path) => {
                text.append("file not found: ");
                text.append(path.as_str());
            },
            ToolError::FileReadError(detail) => {
                text.append("failed to read file: ");
                text.append(detail.as_str());
            },
            ToolError::SymbolNotFound => {
                text.append("symbol not found at position");
            },
            ToolError::LspError(inner) => {
                text.append("LSP error: ");
                text.append(inner.to_string().as_str());
            },
        }
        text
    }
}

impl From<LspError> for ToolError {
    fn from(inner: LspError) -> (error: ToolError) {
        ToolError::LspError(inner)
    }
}

impl FromSpecImpl<LspError> for ToolError {
    open spec fn obeys_from_spec() -> bool {
        true
    }

    open spec fn from_spec(inner: LspError) -> ToolError {
        ToolError::LspError(inner)
    }
}

/// Errors of the tool protocol server.
#[derive(Debug)]
pub enum McpError {
    /// A request could not be parsed.
    ParseError(String),
    /// The requested method is not supported.
    MethodNotFound(String),
    /// The parameters of the request are invalid.
    InvalidParams(String),
    /// The server failed while it handled the request.
    InternalError(String),
    /// The server is shutting down.
    ShuttingDown,
    /// A tool failed.
    ToolError(ToolError),
    /// The two sides speak different protocol versions.
    ProtocolVersionMismatch {
        /// The protocol version that was expected.
        expected: String,
        /// The protocol version that was received.
        actual: String,
    },
}

impl McpError {
    /// The text of the error.
    pub open spec fn message(self) -> Seq<char> {
        match self {
            McpError::ParseError(detail) => "failed to parse MCP request: "@ + detail@,
            McpError::MethodNotFound(name) => "method not found: "@ + name@,
            McpError::InvalidParams(detail) => "invalid parameters: "@ + detail@,
            McpError::InternalError(detail) => "internal error: "@ + detail@,
            McpError::ShuttingDown => "server is shutting down"@,
            McpError::ToolError(inner) => "tool error: "@ + inner.message(),
            McpError::ProtocolVersionMismatch { expected, actual } =>
                "protocol version mismatch: expected "@ + expected@ + ", got "@ + actual@,
        }
    }

    /// Renders the error as text.
    pub fn to_string(&self) -> (text: String)
        ensures
            text@ == self.message(),
    {
        let mut text = String::new();
        match self {
            McpError::ParseError(detail) => {
                text.append("failed to parse MCP request: ");
                text.append(detail.as_str());
            },
            McpError::MethodNotFound(name) => {
                text.append("method not found: ");
                text.append(name.as_str());
            },
            McpError::InvalidParams(detail) => {
                text.append("invalid parameters: ");
                text.append(detail.as_str());
            },
            McpError::InternalError(detail) => {
                text.append("internal error: ");
                text.append(detail.as_str());
            },
            McpError::ShuttingDown => {
                text.append("server is shutting down");
            },
            McpError::ToolError(inner) => {
                text.append("tool error: ");
                text.append(inner.to_string().as_str());
            },
            McpError::ProtocolVersionMismatch { expected, actual } => {
                text.append("protocol version mismatch: expected ");
                text.append(expected.as_str());
                text.append(", got ");
                text.append(actual.as_str());
            },
        }
        text
    }
}

impl From<ToolError> for McpError {
    fn from(inner: ToolError) -> (error: McpError) {
        McpError::ToolError(inner)
    }
}

impl FromSpecImpl<ToolError> for McpError {
    open spec fn obeys_from_spec() -> bool {
        true
    }

    open spec fn from_spec(inner: ToolError) -> McpError {
        McpError::ToolError(inner)
    }
}

/// Errors of the transport layer.
#[derive(Debug)]
pub enum TransportError {
    /// Reading from standard input failed.
    StdinReadError(String),
    /// Writing to standard output failed.
    StdoutWriteError(String),
    /// The connection was closed unexpectedly.
    ConnectionClosed,
    /// A message could not be serialized.
    SerializationError(String),
    /// A message could not be deserialized.
    DeserializationError(String),
    /// A message has an invalid format.
    InvalidFormat(String),
    /// An input or output operation failed; the text is that of the failure.
    IoError(String),
}

impl TransportError {
    /// The text of the error.
    pub open spec fn message(self) -> Seq<char> {
        match self {
            TransportError::StdinReadError(detail) => "stdin read error: "@ + detail@,
            TransportError::StdoutWriteError(detail) => "stdout write error: "@ + detail@,
            TransportError::ConnectionClosed => "connection closed"@,
            TransportError::SerializationError(detail) => "serialization error: "@ + detail@,
            TransportError::DeserializationError(detail) => "deserialization error: "@ + detail@,
            TransportError::InvalidFormat(detail) => "invalid message format: "@ + detail@,
            TransportError::IoError(detail) => "IO error: "@ + detail@,
        }
    }

    /// Renders the error as text.
    pub fn to_string(&self) -> (text: String)
        ensures
            text@ == self.message(),
    {
        let mut text = String::new();
        match self {
            TransportError::StdinReadError(detail) => {
                text.append("stdin read error: ");
                text.append(detail.as_str());
            },
            TransportError::StdoutWriteError(detail) => {
                text.append("stdout write error: ");
                text.append(detail.as_str());
            },
            TransportError::ConnectionClosed => {
                text.append("connection closed");
            },
            TransportError::SerializationError(detail) => {
                text.append("serialization error: ");
                text.append(detail.as_str());
            },
            TransportError::DeserializationError(detail) => {
                text.append("deserialization error: ");
                text.append(detail.as_str());
            },
            TransportError::InvalidFormat(detail) => {
                text.append("invalid message format: ");
                text.append(detail.as_str());
            },
            TransportError::IoError(detail) => {
                text.append("IO error: ");
                text.append(detail.as_str());
            },
        }
        text
    }
}

/// One error type for the whole application.
#[derive(Debug)]
pub enum Error {
    /// An error of the language-server session.
    Lsp(LspError),
    /// An error of the tool protocol server.
    Mcp(McpError),
    /// An error of the transport layer.
    Transport(TransportError),
    /// An error of a tool.
    Tool(ToolError),
    /// A configuration error.
    Config(String),
    /// An input or output operation failed; the text is that of the failure.
    Io(String),
}

impl Error {
    /// The text of the error.
    pub open spec fn message(self) -> Seq<char> {
        match self {
            Error::Lsp(inner) => "LSP error: "@ + inner.message(),
            Error::Mcp(inner) => "MCP error: "@ + inner.message(),
            Error::Transport(inner) => "transport error: "@ + inner.message(),
            Error::Tool(inner) => "tool error: "@ + inner.message(),
            Error::Config(detail) => "configuration error: "@ + detail@,
            Error::Io(detail) => "IO error: "@ + detail@,
        }
    }

    /// Renders the error as text.
    pub fn to_string(&self) -> (text: String)
        ensures
            text@ == self.message(),
    {
        let mut text = String::new();
        match self {
            Error::Lsp(inner) => {
                text.append("LSP error: ");
                text.append(inner.to_string().as_str());
            },
            Error::Mcp(inner) => {
                text.append("MCP error: ");
                text.append(inner.to_string().as_str());
            },
            Error::Transport(inner) => {
                text.append("transport error: ");
                text.append(inner.to_string().as_str());
            },
            Error::Tool(inner) => {
                text.append("tool error: ");
                text.append(inner.to_string().as_str());
            },
            Error::Config(detail) => {
                text.append("configuration error: ");
                text.append(detail.as_str());
            },
            Error::Io(detail) => {
                text.append("IO error: ");
                text.append(detail.as_str());
            },
        }
        text
    }
}

impl From<LspError> for Error {
    fn from(inner: LspError) -> (error: Error) {
        Error::Lsp(inner)
    }
}

impl FromSpecImpl<LspError> for Error {
    open spec fn obeys_from_spec() -> bool {
        true
    }

    open spec fn from_spec(inner: LspError) -> Error {
        Error::Lsp(inner)
    }
}

impl From<McpError> for Error {
    fn from(inner: McpError) -> (error: Error) {
        Error::Mcp(inner)
    }
}

impl FromSpecImpl<McpError> for Error {
    open spec fn obeys_from_spec() -> bool {
        true
    }

    open spec fn from_spec(inner: McpError) -> Error {
        Error::Mcp(inner)
    }
}

impl From<TransportError> for Error {
    fn from(inner: TransportError) -> (error: Error) {
        Error::Transport(inner)
    }
}

impl FromSpecImpl<TransportError> for Error {
    open spec fn obeys_from_spec() -> bool {
        true
    }

    open spec fn from_spec(inner: TransportError) -> Error {
        Error::Transport(inner)
    }
}

impl From<ToolError> for Error {
    fn from(inner: ToolError) -> (error: Error) {
        Error::Tool(inner)
    }
}

impl FromSpecImpl<ToolError> for Error {
    open spec fn obeys_from_spec() -> bool {
        true
    }

    open spec fn from_spec(inner: ToolError) -> Error {
        Error::Tool(inner)
    }
}

} // verus!
