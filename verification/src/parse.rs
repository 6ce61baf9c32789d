//! Reading the head of a response out of the bytes received: the call of the
//! parser, the two sizes of its header table, and what each result means for
//! the handshake.

use crate::error::ParseError;
use crate::head::{headers_view, Head, HeadView, Header, HeaderView};
use crate::status::Version;
use httparse::Error as SyntaxError;
use vstd::prelude::*;

verus! {

/// The size of the header table that is tried first.
pub const MIN_HEADERS: u16 = 16;

/// The largest number of headers that a response may have, unless the
/// handshake is given another limit.
pub const MAX_HEADERS: u16 = 1024;

/// A response that the parser read in full. The texts are borrowed from the
/// bytes that were parsed.
#[derive(Debug)]
pub struct Response<'a> {
    /// The number of bytes that the status line, the headers and the empty
    /// line take.
    pub consumed: usize,
    /// The digit behind `HTTP/1.`.
    pub version: Option<u8>,
    /// The status code.
    pub code: Option<u16>,
    /// The reason phrase; empty where the response has none.
    pub reason: Option<&'a str>,
    /// The headers, in the order received.
    pub headers: Vec<Header<'a>>,
}

/// A complete response as plain values.
pub struct ResponseView {
    pub consumed: nat,
    pub version: Option<u8>,
    pub code: Option<u16>,
    pub reason: Option<Seq<char>>,
    pub headers: Seq<HeaderView>,
}

impl<'a> View for Response<'a> {
    type V = ResponseView;

    open spec fn view(&self) -> ResponseView {
        ResponseView {
            consumed: self.consumed as nat,
            version: self.version,
            code: self.code,
            reason: match self.reason {
                Some(reason) => Some(reason@),
                None => None,
            },
            headers: headers_view(self.headers@),
        }
    }
}

/// What one run of the parser found in the bytes received.
#[derive(Debug)]
pub enum Parsed<'a> {
    /// A whole response stands at the start of the bytes.
    Complete(Response<'a>),
    /// The bytes are the beginning of a response; more are needed.
    Partial,
    /// The response has more headers than the table has room for.
    TooManyHeaders,
    /// The bytes are no response.
    Invalid(SyntaxError),
}

/// The result of a parse as plain values.
pub enum ParsedView {
    Complete(ResponseView),
    Partial,
    TooManyHeaders,
    Invalid(SyntaxError),
}

impl<'a> View for Parsed<'a> {
    type V = ParsedView;

    open spec fn view(&self) -> ParsedView {
        match *self {
            Parsed::Complete(response) => ParsedView::Complete(response@),
            Parsed::Partial => ParsedView::Partial,
            Parsed::TooManyHeaders => ParsedView::TooManyHeaders,
            Parsed::Invalid(e) => ParsedView::Invalid(e),
        }
    }
}

impl ResponseView {
    /// What the parser leaves behind when it has read a response in full
    /// from `len` bytes, into a table of `capacity` headers: the number of
    /// bytes is within those given, version, code and reason are all there,
    /// and the headers are no more than the table holds.
    pub open spec fn wf(self, len: nat, capacity: nat) -> bool {
        &&& self.consumed <= len
        &&& self.version is Some
        &&& self.code is Some
        &&& self.reason is Some
        &&& self.headers.len() <= capacity
    }
}

impl ParsedView {
    /// A complete response in it is well formed for `len` bytes of input and
    /// a table of `capacity` headers.
    pub open spec fn wf(self, len: nat, capacity: nat) -> bool {
        self matches ParsedView::Complete(response) ==> response.wf(len, capacity)
    }
}

/// What `httparse` makes of `input` as a response, with a table of `capacity`
/// headers.
pub uninterp spec fn httparse_response(input: Seq<u8>, capacity: nat) -> ParsedView;

/// Runs `httparse::Response::parse` on `buf`, with a fresh table of `capacity`
/// empty headers, and hands out what it found as values of this library.
///
/// The parser is a function of the bytes and the size of the table, so its
/// result has a name, `httparse_response`. Of a complete response its source
/// shows three things more, which are claimed here: the count of bytes is the
/// distance it went into `buf`, so within `buf`; version, code and reason
/// are set before any header is read; and the headers it hands out are those
/// it wrote into the table, so no more than the table has slots.
#[verifier::external_body]
fn parse_response<'a>(buf: &'a [u8], capacity: u16) -> (parsed: Parsed<'a>)
    ensures
        parsed@ == httparse_response(buf@, capacity as nat),
        parsed@.wf(buf@.len(), capacity as nat),
{
    let mut table = vec![httparse::EMPTY_HEADER; capacity as usize];
    let mut raw = httparse::Response::new(&mut table);
    match raw.parse(buf) {
        Ok(httparse::Status::Complete(consumed)) => Parsed::Complete(Response {
            consumed,
            version: raw.version,
            code: raw.code,
            reason: raw.reason,
            headers: raw.headers.iter().map(|h| Header { name: h.name, value: h.value }).collect(),
        }),
        Ok(httparse::Status::Partial) => Parsed::Partial,
        Err(SyntaxError::TooManyHeaders) => Parsed::TooManyHeaders,
        Err(e) => Parsed::Invalid(e),
    }
}

/// The size of the table that is tried first under `limit`.
pub open spec fn first_capacity(limit: u16) -> u16 {
    if limit < MIN_HEADERS {
        limit
    } else {
        MIN_HEADERS
    }
}

/// The result of parsing `input` with at most `limit` headers: that of the
/// small table, unless the small table overflows and the limit allows a
/// larger one; then that of a table of `limit` headers.
pub open spec fn parse_within(input: Seq<u8>, limit: u16) -> ParsedView {
    let first = httparse_response(input, first_capacity(limit) as nat);
    if first is TooManyHeaders && first_capacity(limit) < limit {
        httparse_response(input, limit as nat)
    } else {
        first
    }
}

/// Parses `buf` as a response with at most `limit` headers. The small table
/// is tried first; the large one only where the small one overflows. The
/// limit is a hard ceiling: no response with more headers comes out complete.
pub fn parse_two_tier<'a>(buf: &'a [u8], limit: u16) -> (parsed: Parsed<'a>)
    ensures
        parsed@ == parse_within(buf@, limit),
        parsed@.wf(buf@.len(), limit as nat),
        parsed matches Parsed::Complete(response) ==> response.headers@.len() <= limit,
{
    let small: u16 = if limit < MIN_HEADERS {
        limit
    } else {
        MIN_HEADERS
    };
    let first = parse_response(buf, small);
    if small < limit && matches!(first, Parsed::TooManyHeaders) {
        parse_response(buf, limit)
    } else {
        first
    }
}

/// What a parse result means for the handshake: a response to act on, with
/// the number of bytes it takes; nothing yet; or a failure.
pub open spec fn verdict(parsed: ParsedView) -> Result<Option<ResponseView>, ParseError> {
    match parsed {
        ParsedView::Complete(response) => if response.version == Some(1u8) {
            Ok(Some(response))
        } else {
            Err(ParseError::Version)
        },
        ParsedView::Partial => Ok(None),
        ParsedView::TooManyHeaders => Err(ParseError::TooManyHeaders),
        ParsedView::Invalid(e) => Err(ParseError::Syntax(e)),
    }
}

/// The view of what `accept` returns.
pub open spec fn accepted_view(r: Result<Option<Response>, ParseError>) -> Result<
    Option<ResponseView>,
    ParseError,
> {
    match r {
        Ok(Some(response)) => Ok(Some(response@)),
        Ok(None) => Ok(None),
        Err(e) => Err(e),
    }
}

impl<'a> Parsed<'a> {
    /// Decides on a parse result: a complete response is taken if it is
    /// HTTP/1.1 and refused if it is not; a partial one asks for more bytes;
    /// an overflow of the table and malformed bytes are failures.
    pub fn accept(self) -> (r: Result<Option<Response<'a>>, ParseError>)
        ensures
            accepted_view(r) == verdict(self@),
    {
        match self {
            Parsed::Complete(response) => {
                match response.version {
                    Some(1) => Ok(Some(response)),
                    _ => Err(ParseError::Version),
                }
            },
            Parsed::Partial => Ok(None),
            Parsed::TooManyHeaders => Err(ParseError::TooManyHeaders),
            Parsed::Invalid(e) => Err(ParseError::Syntax(e)),
        }
    }
}

/// The head that a complete HTTP/1.1 response shows to an authorizer.
pub open spec fn head_view(response: ResponseView) -> HeadView {
    HeadView {
        version: Version::Http11,
        code: response.code->0,
        reason: response.reason->0,
        headers: response.headers,
    }
}

impl ResponseView {
    /// The response is HTTP/1.1 and has a status: it has a head to show.
    pub open spec fn has_head(self) -> bool {
        self.version == Some(1u8) && self.code is Some && self.reason is Some
    }
}

impl<'a> Response<'a> {
    /// The head of this response, borrowed from it; `None` where the response
    /// is not HTTP/1.1 or has no status.
    pub fn head<'b>(&'b self) -> (head: Option<Head<'b>>)
        ensures
            head is Some <==> self@.has_head(),
            head matches Some(h) ==> h@ == head_view(self@),
    {
        match (self.version, self.code, self.reason) {
            (Some(1), Some(code), Some(reason)) => Some(
                Head::new(Version::Http11, code, reason, self.headers.as_slice()),
            ),
            _ => None,
        }
    }
}

} // verus!
