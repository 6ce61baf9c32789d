//! The order in which the parts of a request are written, and the bytes that
//! each part adds to the output buffer.

use crate::status::Version;
use crate::text::{
    bytes_eq_ignore_ascii_case, contains_line_break, eq_ignore_ascii_case, has_line_break, text,
};
use vstd::prelude::*;
use vstd::string::to_string_from_display_ensures;

verus! {

/// How far a request has been written.
#[derive(Debug, Clone, Copy, PartialEq, Eq, Structural)]
pub enum MessageState {
    /// Nothing has been written.
    RequestStart,
    /// The request line stands in the buffer; headers may follow.
    Headers,
    /// The header block is closed, and the request has no body.
    Bodyless,
    /// The request is complete.
    Done,
}

/// Why a header was not written.
#[derive(Debug, Clone, Copy, PartialEq, Eq, Structural)]
pub enum HeaderError {
    /// The name holds a carriage return or a line feed.
    InvalidHeaderName,
    /// The value holds a carriage return or a line feed.
    InvalidHeaderValue,
    /// `Content-Length` and `Transfer-Encoding` say how long the body is; a
    /// caller may not set them as plain headers.
    BodyLengthHeader,
}

/// The request line for `method`, `path` and `version`.
pub open spec fn request_line(method: Seq<u8>, path: Seq<u8>, version: Version) -> Seq<u8> {
    method + text(" "@) + path + text(" "@) + text(version.text()@) + text("\r\n"@)
}

/// One header as it stands on the wire.
pub open spec fn header_line(name: Seq<u8>, value: Seq<u8>) -> Seq<u8> {
    name + text(": "@) + value + text("\r\n"@)
}

/// The name is one of the two that give the length of the body.
pub open spec fn is_body_length_header(name: Seq<u8>) -> bool {
    eq_ignore_ascii_case(name, text("Content-Length"@)) || eq_ignore_ascii_case(
        name,
        text("Transfer-Encoding"@),
    )
}

/// Whether a header may be written, and if not, why.
pub open spec fn header_verdict(name: Seq<u8>, value: Seq<u8>) -> Result<(), HeaderError> {
    if is_body_length_header(name) {
        Err(HeaderError::BodyLengthHeader)
    } else if has_line_break(name) {
        Err(HeaderError::InvalidHeaderName)
    } else if has_line_break(value) {
        Err(HeaderError::InvalidHeaderValue)
    } else {
        Ok(())
    }
}

impl MessageState {
    /// Writes the request line.
    pub fn request_line(&mut self, buf: &mut Vec<u8>, method: &str, path: &str, version: Version)
        requires
            *old(self) is RequestStart,
        ensures
            *final(self) is Headers,
            final(buf)@ == old(buf)@ + request_line(text(method@), text(path@), version),
    {
        let ghost before = buf@;
        buf.extend_from_slice(method.as_bytes());
        buf.extend_from_slice(" ".as_bytes());
        buf.extend_from_slice(path.as_bytes());
        buf.extend_from_slice(" ".as_bytes());
        buf.extend_from_slice(version.as_str().as_bytes());
        buf.extend_from_slice("\r\n".as_bytes());
        assert(buf@ =~= before + request_line(text(method@), text(path@), version));
        *self = MessageState::Headers;
    }

    /// Writes one header, unless `header_verdict` is against it; the buffer
    /// then stays as it was.
    pub fn add_header(&mut self, buf: &mut Vec<u8>, name: &str, value: &[u8]) -> (r: Result<
        (),
        HeaderError,
    >)
        requires
            *old(self) is Headers,
        ensures
            *final(self) == *old(self),
            r == header_verdict(text(name@), value@),
            r is Ok ==> final(buf)@ == old(buf)@ + header_line(text(name@), value@),
            r is Err ==> final(buf)@ == old(buf)@,
    {
        let name_bytes = name.as_bytes();
        if bytes_eq_ignore_ascii_case(name_bytes, "Content-Length".as_bytes())
            || bytes_eq_ignore_ascii_case(name_bytes, "Transfer-Encoding".as_bytes()) {
            return Err(HeaderError::BodyLengthHeader);
        }
        if contains_line_break(name_bytes) {
            return Err(HeaderError::InvalidHeaderName);
        }
        if contains_line_break(value) {
            return Err(HeaderError::InvalidHeaderValue);
        }
        let ghost before = buf@;
        buf.extend_from_slice(name_bytes);
        buf.extend_from_slice(": ".as_bytes());
        buf.extend_from_slice(value);
        buf.extend_from_slice("\r\n".as_bytes());
        assert(buf@ =~= before + header_line(text(name@), value@));
        Ok(())
    }

    /// Writes one header whose value is what `value` displays as.
    pub fn format_header<D: core::fmt::Display>(
        &mut self,
        buf: &mut Vec<u8>,
        name: &str,
        value: D,
    ) -> (r: Result<(), HeaderError>)
        requires
            *old(self) is Headers,
        ensures
            *final(self) == *old(self),
            exists|shown: String|
                {
                    &&& #[trigger] to_string_from_display_ensures::<D>(&value, shown)
                    &&& r == header_verdict(text(name@), text(shown@))
                    &&& r is Ok ==> final(buf)@ == old(buf)@ + header_line(
                        text(name@),
                        text(shown@),
                    )
                    &&& r is Err ==> final(buf)@ == old(buf)@
                },
    {
        let shown = value.to_string();
        self.add_header(buf, name, shown.as_str().as_bytes())
    }

    /// Closes the header block. The answer says that no body is expected
    /// after it, which holds of every request written here.
    pub fn done_headers(&mut self, buf: &mut Vec<u8>) -> (ignore_body: bool)
        requires
            *old(self) is Headers,
        ensures
            *final(self) is Bodyless,
            final(buf)@ == old(buf)@ + text("\r\n"@),
            ignore_body,
    {
        buf.extend_from_slice("\r\n".as_bytes());
        *self = MessageState::Bodyless;
        true
    }

    /// Completes the request. Nothing is written: there is no body.
    pub fn done(&mut self, buf: &mut Vec<u8>)
        requires
            *old(self) is Bodyless || *old(self) is Done,
        ensures
            *final(self) is Done,
            final(buf)@ == old(buf)@,
    {
        *self = MessageState::Done;
    }

    /// The request line has been written.
    pub fn is_started(&self) -> (r: bool)
        ensures
            r == !(*self is RequestStart),
    {
        !matches!(self, MessageState::RequestStart)
    }

    /// The header block has been closed.
    pub fn is_after_headers(&self) -> (r: bool)
        ensures
            r == (*self is Bodyless || *self is Done),
    {
        matches!(self, MessageState::Bodyless | MessageState::Done)
    }

    /// The request is complete.
    pub fn is_complete(&self) -> (r: bool)
        ensures
            r == (*self is Done),
    {
        matches!(self, MessageState::Done)
    }
}

} // verus!
