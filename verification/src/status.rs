//! HTTP versions and the status codes that have a name.

use vstd::prelude::*;

verus! {

/// The version of HTTP that a message is written in.
#[derive(Debug, Clone, Copy, PartialEq, Eq, Structural)]
pub enum Version {
    Http10,
    Http11,
}

impl Version {
    /// The version as it stands in a request line.
    pub open spec fn text(self) -> &'static str {
        match self {
            Version::Http10 => "HTTP/1.0",
            Version::Http11 => "HTTP/1.1",
        }
    }

    /// The version as it stands in a request line.
    pub fn as_str(&self) -> (s: &'static str)
        ensures
            s == self.text(),
    {
        match self {
            Version::Http10 => "HTTP/1.0",
            Version::Http11 => "HTTP/1.1",
        }
    }
}

/// The status codes that have a name here. A response may carry any other
/// code; it then has no `Status`.
#[derive(Debug, Clone, Copy, PartialEq, Eq, Structural)]
pub enum Status {
    Continue,
    SwitchingProtocols,
    Okay,
    Created,
    Accepted,
    NonAuthoritativeInformation,
    NoContent,
    ResetContent,
    PartialContent,
    MultipleChoices,
    MovedPermanently,
    Found,
    SeeOther,
    NotModified,
    UseProxy,
    TemporaryRedirect,
    PermanentRedirect,
    BadRequest,
    Unauthorized,
    PaymentRequired,
    Forbidden,
    NotFound,
    MethodNotAllowed,
    NotAcceptable,
    ProxyAuthenticationRequired,
    RequestTimeout,
    Conflict,
    Gone,
    LengthRequired,
    PreconditionFailed,
    RequestEntityTooLarge,
    RequestUriTooLong,
    UnsupportedMediaType,
    RequestRangeNotSatisfiable,
    ExpectationFailed,
    UpgradeRequired,
    TooManyRequests,
    InternalServerError,
    NotImplemented,
    BadGateway,
    ServiceUnavailable,
    GatewayTimeout,
    VersionNotSupported,
}

impl Status {
    /// The number that stands for this status on the wire.
    pub open spec fn number(self) -> u16 {
        match self {
            Status::Continue => 100,
            Status::SwitchingProtocols => 101,
            Status::Okay => 200,
            Status::Created => 201,
            Status::Accepted => 202,
            Status::NonAuthoritativeInformation => 203,
            Status::NoContent => 204,
            Status::ResetContent => 205,
            Status::PartialContent => 206,
            Status::MultipleChoices => 300,
            Status::MovedPermanently => 301,
            Status::Found => 302,
            Status::SeeOther => 303,
            Status::NotModified => 304,
            Status::UseProxy => 305,
            Status::TemporaryRedirect => 307,
            Status::PermanentRedirect => 308,
            Status::BadRequest => 400,
            Status::Unauthorized => 401,
            Status::PaymentRequired => 402,
            Status::Forbidden => 403,
            Status::NotFound => 404,
            Status::MethodNotAllowed => 405,
            Status::NotAcceptable => 406,
            Status::ProxyAuthenticationRequired => 407,
            Status::RequestTimeout => 408,
            Status::Conflict => 409,
            Status::Gone => 410,
            Status::LengthRequired => 411,
            Status::PreconditionFailed => 412,
            Status::RequestEntityTooLarge => 413,
            Status::RequestUriTooLong => 414,
            Status::UnsupportedMediaType => 415,
            Status::RequestRangeNotSatisfiable => 416,
            Status::ExpectationFailed => 417,
            Status::UpgradeRequired => 426,
            Status::TooManyRequests => 429,
            Status::InternalServerError => 500,
            Status::NotImplemented => 501,
            Status::BadGateway => 502,
            Status::ServiceUnavailable => 503,
            Status::GatewayTimeout => 504,
            Status::VersionNotSupported => 505,
        }
    }

    /// The number that stands for this status on the wire.
    pub fn code(&self) -> (code: u16)
        ensures
            code == self.number(),
    {
        match self {
            Status::Continue => 100,
            Status::SwitchingProtocols => 101,
            Status::Okay => 200,
            Status::Created => 201,
            Status::Accepted => 202,
            Status::NonAuthoritativeInformation => 203,
            Status::NoContent => 204,
            Status::ResetContent => 205,
            Status::PartialContent => 206,
            Status::MultipleChoices => 300,
            Status::MovedPermanently => 301,
            Status::Found => 302,
            Status::SeeOther => 303,
            Status::NotModified => 304,
            Status::UseProxy => 305,
            Status::TemporaryRedirect => 307,
            Status::PermanentRedirect => 308,
            Status::BadRequest => 400,
            Status::Unauthorized => 401,
            Status::PaymentRequired => 402,
            Status::Forbidden => 403,
            Status::NotFound => 404,
            Status::MethodNotAllowed => 405,
            Status::NotAcceptable => 406,
            Status::ProxyAuthenticationRequired => 407,
            Status::RequestTimeout => 408,
            Status::Conflict => 409,
            Status::Gone => 410,
            Status::LengthRequired => 411,
            Status::PreconditionFailed => 412,
            Status::RequestEntityTooLarge => 413,
            Status::RequestUriTooLong => 414,
            Status::UnsupportedMediaType => 415,
            Status::RequestRangeNotSatisfiable => 416,
            Status::ExpectationFailed => 417,
            Status::UpgradeRequired => 426,
            Status::TooManyRequests => 429,
            Status::InternalServerError => 500,
            Status::NotImplemented => 501,
            Status::BadGateway => 502,
            Status::ServiceUnavailable => 503,
            Status::GatewayTimeout => 504,
            Status::VersionNotSupported => 505,
        }
    }

    /// The status that `code` stands for, or `None` where the code has no name.
    pub fn from(code: u16) -> (status: Option<Status>)
        ensures
            status == status_of(code),
    {
        let status = match code {
            100 => Some(Status::Continue),
            101 => Some(Status::SwitchingProtocols),
            200 => Some(Status::Okay),
            201 => Some(Status::Created),
            202 => Some(Status::Accepted),
            203 => Some(Status::NonAuthoritativeInformation),
            204 => Some(Status::NoContent),
            205 => Some(Status::ResetContent),
            206 => Some(Status::PartialContent),
            300 => Some(Status::MultipleChoices),
            301 => Some(Status::MovedPermanently),
            302 => Some(Status::Found),
            303 => Some(Status::SeeOther),
            304 => Some(Status::NotModified),
            305 => Some(Status::UseProxy),
            307 => Some(Status::TemporaryRedirect),
            308 => Some(Status::PermanentRedirect),
            400 => Some(Status::BadRequest),
            401 => Some(Status::Unauthorized),
            402 => Some(Status::PaymentRequired),
            403 => Some(Status::Forbidden),
            404 => Some(Status::NotFound),
            405 => Some(Status::MethodNotAllowed),
            406 => Some(Status::NotAcceptable),
            407 => Some(Status::ProxyAuthenticationRequired),
            408 => Some(Status::RequestTimeout),
            409 => Some(Status::Conflict),
            410 => Some(Status::Gone),
            411 => Some(Status::LengthRequired),
            412 => Some(Status::PreconditionFailed),
            413 => Some(Status::RequestEntityTooLarge),
            414 => Some(Status::RequestUriTooLong),
            415 => Some(Status::UnsupportedMediaType),
            416 => Some(Status::RequestRangeNotSatisfiable),
            417 => Some(Status::ExpectationFailed),
            426 => Some(Status::UpgradeRequired),
            429 => Some(Status::TooManyRequests),
            500 => Some(Status::InternalServerError),
            501 => Some(Status::NotImplemented),
            502 => Some(Status::BadGateway),
            503 => Some(Status::ServiceUnavailable),
            504 => Some(Status::GatewayTimeout),
            505 => Some(Status::VersionNotSupported),
            _ => None,
        };
        proof {
            lemma_status_of(code, status);
        }
        status
    }
}

/// The status whose number is `code`, if there is one.
pub open spec fn status_of(code: u16) -> Option<Status> {
    if exists|s: Status| s.number() == code {
        Some(choose|s: Status| s.number() == code)
    } else {
        None
    }
}

/// No two statuses share a number.
pub proof fn lemma_number_injective(a: Status, b: Status)
    requires
        a.number() == b.number(),
    ensures
        a == b,
{
}

/// `status_of` is the inverse of `number`: it finds a status exactly where one
/// has the code, and then that one.
pub proof fn lemma_status_of(code: u16, status: Option<Status>)
    requires
        match status {
            Some(s) => s.number() == code,
            None => forall|s: Status| s.number() != code,
        },
    ensures
        status_of(code) == status,
{
    match status {
        Some(s) => {
            let t = choose|t: Status| t.number() == code;
            lemma_number_injective(s, t);
        },
        None => {},
    }
}

/// A status is found again from its own number.
pub proof fn lemma_status_round_trip(s: Status)
    ensures
        status_of(s.number()) == Some(s),
{
    lemma_status_of(s.number(), Some(s));
}

} // verus!
