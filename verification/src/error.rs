//! The server's error type.
use vstd::prelude::*;

verus! {

/// Everything that can go wrong while serving a request. Each variant carries the
/// detail text that its message ends with.
#[derive(Debug, Clone, PartialEq, Eq)]
pub enum McpError {
    Config(String),
    Bridge(String),
    Process(String),
    Protocol(String),
    ToolExecution(String),
    Validation(String),
    /// An I/O failure, by the text of the underlying error.
    Io(String),
    /// A JSON (de)serialisation failure, by the text of the underlying error.
    Json(String),
}

impl McpError {
    /// The label that starts the message of each kind of error.
    pub open spec fn label(self) -> Seq<char> {
        match self {
            McpError::Config(_) => "Configuration error: "@,
            McpError::Bridge(_) => "Bridge connection error: "@,
            McpError::Process(_) => "Engine process error: "@,
            McpError::Protocol(_) => "Protocol error: "@,
            McpError::ToolExecution(_) => "Tool execution error: "@,
            McpError::Validation(_) => "Validation error: "@,
            McpError::Io(_) => "I/O error: "@,
            McpError::Json(_) => "JSON serialization error: "@,
        }
    }

    /// The detail text the error carries.
    pub open spec fn detail(self) -> Seq<char> {
        match self {
            McpError::Config(s) => s@,
            McpError::Bridge(s) => s@,
            McpError::Process(s) => s@,
            McpError::Protocol(s) => s@,
            McpError::ToolExecution(s) => s@,
            McpError::Validation(s) => s@,
            McpError::Io(s) => s@,
            McpError::Json(s) => s@,
        }
    }

    /// The human-readable message: the label followed by the detail.
    pub open spec fn message(self) -> Seq<char> {
        self.label() + self.detail()
    }

    /// The human-readable message of the error (what its `Display` prints).
    pub fn to_string(&self) -> (s: String)
        ensures
            s@ == self.message(),
    {
        let (label, detail) = match self {
            McpError::Config(s) => ("Configuration error: ", s),
            McpError::Bridge(s) => ("Bridge connection error: ", s),
            McpError::Process(s) => ("Engine process error: ", s),
            McpError::Protocol(s) => ("Protocol error: ", s),
            McpError::ToolExecution(s) => ("Tool execution error: ", s),
            McpError::Validation(s) => ("Validation error: ", s),
            McpError::Io(s) => ("I/O error: ", s),
            McpError::Json(s) => ("JSON serialization error: ", s),
        };
        let mut out = String::from_str(label);
        out.append(detail.as_str());
        out
    }
}

} // verus!
