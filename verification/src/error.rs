//! The failures that the service reports.

use vstd::prelude::*;
use vstd::string::StringExecFns;

verus! {

/// Why a request could not be served.  Each variant carries the detail that
/// follows its heading in the displayed text.
#[derive(Debug, PartialEq, Eq)]
pub enum McpImageError {
    /// The host failed to prepare or to start a conversion.
    Io(String),
    /// A document could not be read or written as JSON.
    Json(String),
    /// The requested converter, or every converter, is absent.
    ConverterNotAvailable(String),
    /// The external program ended in failure.
    ConversionFailed(String),
    /// The input is not what the tool accepts.
    InvalidInput(String),
    /// The input file does not exist.
    FileNotFound(String),
    /// The request broke the protocol.
    Mcp(String),
}

/// The mathematical value of a `McpImageError`.
pub enum Failure {
    Io(Seq<char>),
    Json(Seq<char>),
    ConverterNotAvailable(Seq<char>),
    ConversionFailed(Seq<char>),
    InvalidInput(Seq<char>),
    FileNotFound(Seq<char>),
    Mcp(Seq<char>),
}

impl Failure {
    /// The heading that the displayed text starts with.
    pub open spec fn heading(self) -> Seq<char> {
        match self {
            Failure::Io(_) => "IO error: "@,
            Failure::Json(_) => "JSON error: "@,
            Failure::ConverterNotAvailable(_) => "Converter not available: "@,
            Failure::ConversionFailed(_) => "Conversion failed: "@,
            Failure::InvalidInput(_) => "Invalid input: "@,
            Failure::FileNotFound(_) => "File not found: "@,
            Failure::Mcp(_) => "MCP error: "@,
        }
    }

    /// The detail that the failure carries.
    pub open spec fn detail(self) -> Seq<char> {
        match self {
            Failure::Io(d) => d,
            Failure::Json(d) => d,
            Failure::ConverterNotAvailable(d) => d,
            Failure::ConversionFailed(d) => d,
            Failure::InvalidInput(d) => d,
            Failure::FileNotFound(d) => d,
            Failure::Mcp(d) => d,
        }
    }

    /// The displayed text: the heading, then the detail.
    pub open spec fn text(self) -> Seq<char> {
        self.heading() + self.detail()
    }
}

impl View for McpImageError {
    type V = Failure;

    open spec fn view(&self) -> Failure {
        match self {
            McpImageError::Io(d) => Failure::Io(d@),
            McpImageError::Json(d) => Failure::Json(d@),
            McpImageError::ConverterNotAvailable(d) => Failure::ConverterNotAvailable(d@),
            McpImageError::ConversionFailed(d) => Failure::ConversionFailed(d@),
            McpImageError::InvalidInput(d) => Failure::InvalidInput(d@),
            McpImageError::FileNotFound(d) => Failure::FileNotFound(d@),
            McpImageError::Mcp(d) => Failure::Mcp(d@),
        }
    }
}

impl McpImageError {
    /// The text that describes the failure: its heading, then its detail.
    pub fn to_string(&self) -> (s: String)
        ensures
            s@ == self@.text(),
    {
        match self {
            McpImageError::Io(d) => String::from_str("IO error: ").concat(d.as_str()),
            McpImageError::Json(d) => String::from_str("JSON error: ").concat(d.as_str()),
            McpImageError::ConverterNotAvailable(d) => String::from_str(
                "Converter not available: ",
            ).concat(d.as_str()),
            McpImageError::ConversionFailed(d) => String::from_str("Conversion failed: ").concat(
                d.as_str(),
            ),
            McpImageError::InvalidInput(d) => String::from_str("Invalid input: ").concat(
                d.as_str(),
            ),
            McpImageError::FileNotFound(d) => String::from_str("File not found: ").concat(
                d.as_str(),
            ),
            McpImageError::Mcp(d) => String::from_str("MCP error: ").concat(d.as_str()),
        }
    }
}

} // verus!
