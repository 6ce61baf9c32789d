//! The status line and headers of a response, as an authorizer sees them.

use crate::status::{status_of, Status, Version};
use vstd::prelude::*;

verus! {

/// One header of a response. Name and value are borrowed from the bytes
/// received.
#[derive(Debug, Clone, Copy, PartialEq, Eq)]
pub struct Header<'a> {
    /// The name, as the peer wrote it.
    pub name: &'a str,
    /// The value, without the white space around it.
    pub value: &'a [u8],
}

/// A header as a pair of plain values.
pub struct HeaderView {
    pub name: Seq<char>,
    pub value: Seq<u8>,
}

impl<'a> View for Header<'a> {
    type V = HeaderView;

    open spec fn view(&self) -> HeaderView {
        HeaderView { name: self.name@, value: self.value@ }
    }
}

/// The headers of a list as plain values, in their order.
pub open spec fn headers_view(headers: Seq<Header>) -> Seq<HeaderView> {
    headers.map_values(|h: Header| h@)
}

/// The head of a response: version, status code, reason phrase, and every
/// header, those that concern only this connection too.
///
/// It is borrowed: an authorizer copies out of it what it wants to keep.
#[derive(Debug)]
pub struct Head<'a> {
    version: Version,
    code: u16,
    reason: &'a str,
    headers: &'a [Header<'a>],
}

/// A head as plain values.
pub struct HeadView {
    pub version: Version,
    pub code: u16,
    pub reason: Seq<char>,
    pub headers: Seq<HeaderView>,
}

impl<'a> View for Head<'a> {
    type V = HeadView;

    closed spec fn view(&self) -> HeadView {
        HeadView {
            version: self.version,
            code: self.code,
            reason: self.reason@,
            headers: headers_view(self.headers@),
        }
    }
}

impl<'a> Head<'a> {
    /// The head with these parts.
    pub fn new(version: Version, code: u16, reason: &'a str, headers: &'a [Header<'a>]) -> (head:
        Head<'a>)
        ensures
            head@ == (HeadView {
                version,
                code,
                reason: reason@,
                headers: headers_view(headers@),
            }),
    {
        Head { version, code, reason, headers }
    }

    /// The version of the response.
    pub fn version(&self) -> (version: Version)
        ensures
            version == self@.version,
    {
        self.version
    }

    /// The status, where the code is one that has a name, else `None`.
    ///
    /// Only the code counts: the reason phrase is not looked at.
    pub fn status(&self) -> (status: Option<Status>)
        ensures
            status == status_of(self@.code),
    {
        Status::from(self.code)
    }

    /// The code and the reason phrase as they were received. The phrase may
    /// be empty, and it may be another than the code's usual one.
    pub fn raw_status(&self) -> (raw: (u16, &'a str))
        ensures
            raw.0 == self@.code,
            raw.1@ == self@.reason,
    {
        (self.code, self.reason)
    }

    /// All headers of the response, in the order received.
    pub fn all_headers(&self) -> (headers: &'a [Header<'a>])
        ensures
            headers_view(headers@) == self@.headers,
    {
        self.headers
    }
}

} // verus!
