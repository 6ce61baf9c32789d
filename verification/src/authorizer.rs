//! The policy of a handshake: which headers the request carries besides
//! those of the handshake, and whether the response is accepted.

use crate::encoder::{
    is_reserved_header, upgrade_fields, Encoder, EncoderDone, Field, Request,
};
use crate::error::Error;
use crate::head::{Head, HeadView};
use crate::message::{header_verdict, is_body_length_header};
use crate::text::{contains_line_break, has_line_break, lemma_ascii_text, text};
use vstd::prelude::*;

verus! {

/// What a handshake needs from its caller.
///
/// `write_headers` gets the encoder before anything is written: it writes the
/// request line and the headers that this connection needs (`Host`, `Origin`,
/// `User-Agent`, a cookie), and closes the request with `Encoder::done`, which
/// adds the headers of the handshake. `headers_received` gets the response
/// once, when its head is complete; its result is the handshake's.
///
/// The three spec functions let an authorizer say what it does. Each has a
/// default that says nothing, so an authorizer need not define any.
pub trait Authorizer: Sized {
    /// What `headers_received` hands to the caller of the handshake.
    type Result;

    /// The authorizer is able to write its headers. `write_headers` is called
    /// only where this holds.
    open spec fn ready(&self) -> bool {
        true
    }

    /// What `write_headers` does: `request` is what it wrote, `pre` and
    /// `post` the authorizer before and after.
    open spec fn wrote(pre: Self, request: Request, post: Self) -> bool {
        true
    }

    /// What `headers_received` does: `r` is its answer to `head`, `pre` and
    /// `post` the authorizer before and after.
    open spec fn answered(pre: Self, head: HeadView, post: Self, r: Result<
        Self::Result,
        Error,
    >) -> bool {
        true
    }

    /// Writes the request into `e` and closes it.
    fn write_headers(&mut self, e: Encoder) -> (done: EncoderDone)
        requires
            old(self).ready(),
            e.wf(),
            e.state() is RequestStart,
        ensures
            done.wf(),
            done.base() == e.base(),
            Self::wrote(*old(self), done.request(), *final(self)),
    ;

    /// Looks at the head of the response, and accepts or refuses it.
    fn headers_received(&mut self, headers: &Head) -> (r: Result<Self::Result, Error>)
        ensures
            Self::answered(*old(self), headers@, *final(self), r),
    ;
}

/// What `SimpleAuthorizer` names itself in `User-Agent`.
pub const USER_AGENT: &'static str = "tk-http/0.8.4";

/// The authorizer for a plain connection: it sends `Host`, `Origin` and
/// `User-Agent`, and accepts every response.
pub struct SimpleAuthorizer {
    host: String,
    path: String,
}

/// The headers that `SimpleAuthorizer` writes for `host` and `path`.
pub open spec fn simple_fields(host: Seq<char>, path: Seq<char>) -> Seq<Field> {
    seq![
        Field { name: text("Host"@), value: text(host) },
        Field { name: text("Origin"@), value: text("http://"@) + text(host) + text(path) },
        Field { name: text("User-Agent"@), value: text(USER_AGENT@) },
    ]
}

/// Host and path can stand in a header: neither holds a line break.
pub open spec fn is_valid_target(host: Seq<char>, path: Seq<char>) -> bool {
    !has_line_break(text(host)) && !has_line_break(text(path))
}

impl SimpleAuthorizer {
    /// The host that the request names.
    pub closed spec fn host(&self) -> Seq<char> {
        self.host@
    }

    /// The path that the request asks for.
    pub closed spec fn path(&self) -> Seq<char> {
        self.path@
    }

    /// An authorizer that asks `host` for `path`.
    pub fn new(host: &str, path: &str) -> (a: SimpleAuthorizer)
        ensures
            a.host() == host@,
            a.path() == path@,
    {
        SimpleAuthorizer { host: host.to_owned(), path: path.to_owned() }
    }

    /// Says whether host and path can be written: `write_headers` asks for it.
    pub fn is_valid(&self) -> (valid: bool)
        ensures
            valid == self.ready(),
    {
        !contains_line_break(self.host.as_str().as_bytes()) && !contains_line_break(
            self.path.as_str().as_bytes(),
        )
    }
}

/// A byte string made of three parts holds a line break where one of the
/// parts does.
pub proof fn lemma_line_break_concat(a: Seq<u8>, b: Seq<u8>, c: Seq<u8>)
    ensures
        has_line_break(a + b + c) <==> has_line_break(a) || has_line_break(b) || has_line_break(c),
{
    let s = a + b + c;
    if has_line_break(s) {
        let i: int = choose|i: int| 0 <= i < s.len() && (#[trigger] s[i] == 0x0d || s[i] == 0x0a);
        if i < a.len() {
            assert(a[i] == s[i]);
        } else if i < a.len() + b.len() {
            assert(b[i - a.len()] == s[i]);
        } else {
            assert(c[i - a.len() - b.len()] == s[i]);
        }
    }
    if has_line_break(a) {
        let i: int = choose|i: int| 0 <= i < a.len() && (#[trigger] a[i] == 0x0d || a[i] == 0x0a);
        assert(s[i] == a[i]);
    }
    if has_line_break(b) {
        let i: int = choose|i: int| 0 <= i < b.len() && (#[trigger] b[i] == 0x0d || b[i] == 0x0a);
        assert(s[i + a.len()] == b[i]);
    }
    if has_line_break(c) {
        let i: int = choose|i: int| 0 <= i < c.len() && (#[trigger] c[i] == 0x0d || c[i] == 0x0a);
        assert(s[i + a.len() + b.len()] == c[i]);
    }
}

/// The three names that `SimpleAuthorizer` writes are a caller's to write,
/// and its fixed texts hold no line break.
pub proof fn lemma_simple_names()
    ensures
        !is_reserved_header(text("Host"@)),
        !is_reserved_header(text("Origin"@)),
        !is_reserved_header(text("User-Agent"@)),
        !is_body_length_header(text("Host"@)),
        !is_body_length_header(text("Origin"@)),
        !is_body_length_header(text("User-Agent"@)),
        !has_line_break(text("Host"@)),
        !has_line_break(text("Origin"@)),
        !has_line_break(text("User-Agent"@)),
        !has_line_break(text("http://"@)),
        !has_line_break(text(USER_AGENT@)),
{
    reveal_strlit("Host");
    reveal_strlit("Origin");
    reveal_strlit("User-Agent");
    reveal_strlit("http://");
    reveal_strlit("tk-http/0.8.4");
    reveal_strlit("Connection");
    reveal_strlit("Upgrade");
    reveal_strlit("Sec-WebSocket-");
    reveal_strlit("Content-Length");
    reveal_strlit("Transfer-Encoding");
    lemma_ascii_text("Host"@);
    lemma_ascii_text("Origin"@);
    lemma_ascii_text("User-Agent"@);
    lemma_ascii_text("http://"@);
    lemma_ascii_text("tk-http/0.8.4"@);
    lemma_ascii_text("Connection"@);
    lemma_ascii_text("Upgrade"@);
    lemma_ascii_text("Sec-WebSocket-"@);
    lemma_ascii_text("Content-Length"@);
    lemma_ascii_text("Transfer-Encoding"@);
    assert(text("User-Agent"@)[0] == 0x55);
    assert(text("Connection"@)[0] == 0x43);
}

/// The names of `fields`, in their order.
pub open spec fn field_names(fields: Seq<Field>) -> Seq<Seq<u8>> {
    fields.map_values(|f: Field| f.name)
}

/// The seven names of a request by `SimpleAuthorizer`, in their order.
pub open spec fn simple_request_names() -> Seq<Seq<u8>> {
    seq![
        text("Host"@),
        text("Origin"@),
        text("User-Agent"@),
        text("Connection"@),
        text("Upgrade"@),
        text("Sec-WebSocket-Key"@),
        text("Sec-WebSocket-Version"@),
    ]
}

/// For a host and a path without line breaks, the request that
/// `SimpleAuthorizer` writes has these headers and no others: `Host`,
/// `Origin`, `User-Agent`, `Connection`, `Upgrade`, `Sec-WebSocket-Key`,
/// `Sec-WebSocket-Version`, in this order, each once.
pub proof fn lemma_simple_request_headers(
    authorizer: SimpleAuthorizer,
    request: Request,
    after: SimpleAuthorizer,
)
    requires
        authorizer.ready(),
        SimpleAuthorizer::wrote(authorizer, request, after),
    ensures
        request.path == text(authorizer.path()),
        field_names(request.fields + upgrade_fields(request.key)) == simple_request_names(),
        forall|i: int, j: int|
            0 <= i < j < 7 ==> simple_request_names()[i] != simple_request_names()[j],
        forall|i: int|
            0 <= i < 3 ==> header_verdict(
                (#[trigger] request.fields[i]).name,
                request.fields[i].value,
            ) is Ok,
{
    let host = authorizer.host();
    let path = authorizer.path();
    let all = request.fields + upgrade_fields(request.key);
    assert(field_names(all) =~= simple_request_names());
    lemma_simple_names();
    lemma_line_break_concat(text("http://"@), text(host), text(path));
    reveal_strlit("Host");
    reveal_strlit("Origin");
    reveal_strlit("User-Agent");
    reveal_strlit("Connection");
    reveal_strlit("Upgrade");
    reveal_strlit("Sec-WebSocket-Key");
    reveal_strlit("Sec-WebSocket-Version");
    lemma_ascii_text("Host"@);
    lemma_ascii_text("Origin"@);
    lemma_ascii_text("User-Agent"@);
    lemma_ascii_text("Connection"@);
    lemma_ascii_text("Upgrade"@);
    lemma_ascii_text("Sec-WebSocket-Key"@);
    lemma_ascii_text("Sec-WebSocket-Version"@);
    assert(text("User-Agent"@)[0] == 0x55);
    assert(text("Connection"@)[0] == 0x43);
}

impl Authorizer for SimpleAuthorizer {
    type Result = ();

    open spec fn ready(&self) -> bool {
        is_valid_target(self.host(), self.path())
    }

    open spec fn wrote(pre: Self, request: Request, post: Self) -> bool {
        &&& post == pre
        &&& request.path == text(pre.path())
        &&& request.fields == simple_fields(pre.host(), pre.path())
    }

    open spec fn answered(pre: Self, head: HeadView, post: Self, r: Result<(), Error>) -> bool {
        post == pre && r is Ok
    }

    fn write_headers(&mut self, e: Encoder) -> (done: EncoderDone) {
        let mut e = e;
        let host = self.host.as_str().as_bytes();
        let path = self.path.as_str().as_bytes();
        proof {
            lemma_simple_names();
            lemma_line_break_concat(text("http://"@), host@, path@);
        }
        e.request_line(self.path.as_str());
        e.add_header("Host", host).unwrap();
        let mut origin: Vec<u8> = Vec::new();
        origin.extend_from_slice("http://".as_bytes());
        origin.extend_from_slice(host);
        origin.extend_from_slice(path);
        assert(origin@ =~= text("http://"@) + host@ + path@);
        e.add_header("Origin", origin.as_slice()).unwrap();
        e.add_header("User-Agent", USER_AGENT.as_bytes()).unwrap();
        assert(e.fields() =~= simple_fields(self.host(), self.path()));
        e.done()
    }

    fn headers_received(&mut self, headers: &Head) -> (r: Result<(), Error>) {
        Ok(())
    }
}

} // verus!
