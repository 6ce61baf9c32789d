//! The ways in which a handshake fails.

use httparse::Error as SyntaxError;
use vstd::prelude::*;

verus! {

/// The error of a read or a write on the transport, as `std::io` reports it.
/// It is carried to the caller and never looked into.
#[verifier::external_type_specification]
#[verifier::external_body]
pub struct ExIoError(std::io::Error);

/// The error of `httparse` on bytes that are no HTTP response. It is carried
/// to the caller and never looked into.
#[verifier::external_type_specification]
#[verifier::external_body]
pub struct ExSyntaxError(SyntaxError);

/// Why the bytes received are no response that the handshake can go on with.
#[derive(Debug)]
pub enum ParseError {
    /// The bytes are malformed: they are no status line and headers.
    Syntax(SyntaxError),
    /// The response is complete, but its version is not HTTP/1.1.
    Version,
    /// The response has more headers than the limit allows.
    TooManyHeaders,
}

/// Why a handshake failed. Every failure is final.
#[derive(Debug)]
pub enum Error {
    /// The transport failed to read or to write.
    Io(std::io::Error),
    /// The status line or the headers could not be parsed.
    ParseError(ParseError),
    /// The size of a chunk could not be parsed.
    ChunkParseError,
    /// The peer closed the connection before the headers were complete.
    PrematureResponseHeaders,
    /// The authorizer turned the response down, for the reason given.
    Custom(String),
}

impl Error {
    /// A short name for the kind of failure.
    pub open spec fn describe(self) -> &'static str {
        match self {
            Error::Io(_) => "I/O error",
            Error::ParseError(_) => "parse error",
            Error::ChunkParseError => "chunk size parse error",
            Error::PrematureResponseHeaders => "premature response headers",
            Error::Custom(_) => "custom error",
        }
    }

    /// A short name for the kind of failure.
    pub fn description(&self) -> (s: &'static str)
        ensures
            s == self.describe(),
    {
        match self {
            Error::Io(_) => "I/O error",
            Error::ParseError(_) => "parse error",
            Error::ChunkParseError => "chunk size parse error",
            Error::PrematureResponseHeaders => "premature response headers",
            Error::Custom(_) => "custom error",
        }
    }
}

} // verus!
