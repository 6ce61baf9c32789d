//! The writer of the upgrade request. It lets a caller write the request line
//! and headers of its own, keeps the headers of the handshake to itself, and
//! adds those when the request is closed.

use crate::key::{base64, lemma_base64_alphabet, Key, KEY_LEN};
use crate::message::{
    header_line, header_verdict, is_body_length_header, request_line, HeaderError, MessageState,
};
use crate::status::Version;
use crate::text::{
    ascii_lower, bytes_eq_ignore_ascii_case, bytes_start_with_ignore_ascii_case,
    eq_ignore_ascii_case, has_line_break, lemma_ascii_text, starts_with_ignore_ascii_case, text,
};
use vstd::prelude::*;
use vstd::string::to_string_from_display_ensures;

verus! {

/// A header as it is written: a name and a value, both as bytes.
pub struct Field {
    pub name: Seq<u8>,
    pub value: Seq<u8>,
}

/// The header lines of `fields`, one after the other.
pub open spec fn fields_bytes(fields: Seq<Field>) -> Seq<u8>
    decreases fields.len(),
{
    if fields.len() == 0 {
        Seq::empty()
    } else {
        fields_bytes(fields.drop_last()) + header_line(fields.last().name, fields.last().value)
    }
}

/// The name belongs to the handshake: `Connection`, `Upgrade`, or one that
/// begins with `Sec-WebSocket-`, in any case of letters.
pub open spec fn is_reserved_header(name: Seq<u8>) -> bool {
    ||| eq_ignore_ascii_case(name, text("Connection"@))
    ||| eq_ignore_ascii_case(name, text("Upgrade"@))
    ||| starts_with_ignore_ascii_case(name, text("Sec-WebSocket-"@))
}

/// A header that a caller may write, and that was written.
pub open spec fn is_caller_field(field: Field) -> bool {
    &&& !is_reserved_header(field.name)
    &&& header_verdict(field.name, field.value) is Ok
}

/// The four headers that make a request an upgrade request, in their order.
pub open spec fn upgrade_fields(key: Seq<u8>) -> Seq<Field> {
    seq![
        Field { name: text("Connection"@), value: text("upgrade"@) },
        Field { name: text("Upgrade"@), value: text("websocket"@) },
        Field { name: text("Sec-WebSocket-Key"@), value: base64(key) },
        Field { name: text("Sec-WebSocket-Version"@), value: text("13"@) },
    ]
}

/// The whole upgrade request: the request line, the caller's headers, the
/// four headers of the handshake, and the empty line.
pub open spec fn upgrade_request(path: Seq<u8>, fields: Seq<Field>, key: Seq<u8>) -> Seq<u8> {
    request_line(text("GET"@), path, Version::Http11) + fields_bytes(fields + upgrade_fields(key))
        + text("\r\n"@)
}

/// What an upgrade request is made of: the path, the headers that the caller
/// wrote, and the key.
pub struct Request {
    pub path: Seq<u8>,
    pub fields: Seq<Field>,
    pub key: Seq<u8>,
}

impl Request {
    /// The request on the wire.
    pub open spec fn bytes(self) -> Seq<u8> {
        upgrade_request(self.path, self.fields, self.key)
    }

    /// The key has sixteen bytes, and every header of the caller is one that
    /// a caller may write.
    pub open spec fn wf(self) -> bool {
        &&& self.key.len() == KEY_LEN
        &&& forall|i: int| 0 <= i < self.fields.len() ==> is_caller_field(#[trigger] self.fields[i])
    }
}

/// The lines of a list of headers with one more are the lines of the list and
/// then the line of that one.
pub proof fn lemma_fields_push(fields: Seq<Field>, field: Field)
    ensures
        fields_bytes(fields.push(field)) == fields_bytes(fields) + header_line(
            field.name,
            field.value,
        ),
{
    assert(fields.push(field).drop_last() =~= fields);
}

/// The four headers that the handshake writes itself are reserved, however
/// their letters are cased: no caller can write one of them, whatever the
/// value.
pub proof fn lemma_handshake_names_reserved(name: Seq<u8>)
    requires
        eq_ignore_ascii_case(name, text("Connection"@)) || eq_ignore_ascii_case(
            name,
            text("Upgrade"@),
        ) || eq_ignore_ascii_case(name, text("Sec-WebSocket-Key"@)) || eq_ignore_ascii_case(
            name,
            text("Sec-WebSocket-Version"@),
        ),
    ensures
        is_reserved_header(name),
{
    reveal_strlit("Sec-WebSocket-");
    reveal_strlit("Sec-WebSocket-Key");
    reveal_strlit("Sec-WebSocket-Version");
    lemma_ascii_text("Sec-WebSocket-"@);
    lemma_ascii_text("Sec-WebSocket-Key"@);
    lemma_ascii_text("Sec-WebSocket-Version"@);
    let prefix = text("Sec-WebSocket-"@);
    if eq_ignore_ascii_case(name, text("Sec-WebSocket-Key"@)) {
        let full = text("Sec-WebSocket-Key"@);
        assert forall|i: int| 0 <= i < prefix.len() implies ascii_lower(
            #[trigger] name.subrange(0, prefix.len() as int)[i],
        ) == ascii_lower(prefix[i]) by {
            assert(name.subrange(0, prefix.len() as int)[i] == name[i]);
            assert(ascii_lower(name[i]) == ascii_lower(full[i]));
            assert(full[i] == "Sec-WebSocket-Key"@[i] as u8);
            assert(prefix[i] == "Sec-WebSocket-"@[i] as u8);
        }
    } else if eq_ignore_ascii_case(name, text("Sec-WebSocket-Version"@)) {
        let full = text("Sec-WebSocket-Version"@);
        assert forall|i: int| 0 <= i < prefix.len() implies ascii_lower(
            #[trigger] name.subrange(0, prefix.len() as int)[i],
        ) == ascii_lower(prefix[i]) by {
            assert(name.subrange(0, prefix.len() as int)[i] == name[i]);
            assert(ascii_lower(name[i]) == ascii_lower(full[i]));
            assert(full[i] == "Sec-WebSocket-Version"@[i] as u8);
            assert(prefix[i] == "Sec-WebSocket-"@[i] as u8);
        }
    }
}

/// In an upgrade request the headers of the handshake are the last four and
/// no others: none of the caller's headers before them bears a reserved name.
pub proof fn lemma_handshake_fields_last(request: Request)
    requires
        request.wf(),
    ensures
        ({
            let all = request.fields + upgrade_fields(request.key);
            &&& all.len() == request.fields.len() + 4
            &&& forall|i: int|
                0 <= i < all.len() ==> (is_reserved_header((#[trigger] all[i]).name) <==> i
                    >= request.fields.len())
        }),
{
    let all = request.fields + upgrade_fields(request.key);
    let own = upgrade_fields(request.key);
    assert forall|i: int| 0 <= i < all.len() implies (is_reserved_header((#[trigger] all[i]).name)
        <==> i >= request.fields.len()) by {
        if i < request.fields.len() {
            assert(all[i] == request.fields[i]);
            assert(is_caller_field(request.fields[i]));
        } else {
            let k: int = i - request.fields.len();
            assert(all[i] == own[k]);
            assert(eq_ignore_ascii_case(own[k].name, own[k].name));
            lemma_handshake_names_reserved(own[k].name);
        }
    }
}

/// Says whether `name` belongs to the handshake, so that no caller may set
/// it: `Connection`, `Upgrade` and every `Sec-WebSocket-` name, in any case of
/// letters.
pub fn is_reserved(name: &str) -> (reserved: bool)
    ensures
        reserved == is_reserved_header(text(name@)),
{
    let name = name.as_bytes();
    bytes_eq_ignore_ascii_case(name, "Connection".as_bytes()) || bytes_eq_ignore_ascii_case(
        name,
        "Upgrade".as_bytes(),
    ) || bytes_start_with_ignore_ascii_case(name, "Sec-WebSocket-".as_bytes())
}

/// Passes a header name that a caller may set. A name of the handshake is
/// not to come here: to set one is an error of the caller, whatever the
/// value.
pub fn check_header(name: &str)
    requires
        !is_reserved_header(text(name@)),
{
}

/// The writer of one upgrade request.
pub struct Encoder {
    message: MessageState,
    buf: Vec<u8>,
    base: Ghost<Seq<u8>>,
    path: Ghost<Seq<u8>>,
    fields: Ghost<Seq<Field>>,
}

/// A request that is written in full. Only closing an `Encoder` makes one.
pub struct EncoderDone {
    buf: Vec<u8>,
    base: Ghost<Seq<u8>>,
    request: Ghost<Request>,
}

/// An encoder that writes behind what `io` holds already.
pub fn encoder(io: Vec<u8>) -> (e: Encoder)
    ensures
        e.wf(),
        e.state() is RequestStart,
        e.base() == io@,
        e.buffer() == io@,
{
    Encoder {
        message: MessageState::RequestStart,
        base: Ghost(io@),
        buf: io,
        path: Ghost(Seq::empty()),
        fields: Ghost(Seq::empty()),
    }
}

impl Encoder {
    /// How far the request is written.
    pub closed spec fn state(&self) -> MessageState {
        self.message
    }

    /// The bytes in the output buffer.
    pub closed spec fn buffer(&self) -> Seq<u8> {
        self.buf@
    }

    /// What the buffer held before this encoder wrote to it.
    pub closed spec fn base(&self) -> Seq<u8> {
        self.base@
    }

    /// The path of the request line, once that is written.
    pub closed spec fn path(&self) -> Seq<u8> {
        self.path@
    }

    /// The headers written so far, in their order.
    pub closed spec fn fields(&self) -> Seq<Field> {
        self.fields@
    }

    /// The buffer holds what was written and nothing else, and every header
    /// in it is one that a caller may write.
    pub open spec fn wf(&self) -> bool {
        &&& match self.state() {
            MessageState::RequestStart => self.buffer() == self.base() && self.fields().len() == 0,
            MessageState::Headers => self.buffer() == self.base() + request_line(
                text("GET"@),
                self.path(),
                Version::Http11,
            ) + fields_bytes(self.fields()),
            _ => false,
        }
        &&& forall|i: int| 0 <= i < self.fields().len() ==> is_caller_field(#[trigger] self.fields()[i])
    }

    /// The request line can be written: nothing has been written yet.
    pub open spec fn accepts_request_line(&self) -> bool {
        self.state() is RequestStart
    }

    /// Headers can be written: the request line stands, and the request is
    /// not closed.
    pub open spec fn accepts_headers(&self) -> bool {
        self.state() is Headers
    }

    /// Says whether the request line is still to be written. Once it is
    /// written, headers can be.
    pub fn is_fresh(&self) -> (r: bool)
        ensures
            r == self.accepts_request_line(),
            self.wf() ==> r == !self.accepts_headers(),
    {
        !self.message.is_started()
    }

    /// The bytes written so far, behind what the buffer held before.
    pub fn written(&self) -> (bytes: &[u8])
        ensures
            bytes@ == self.buffer(),
    {
        self.buf.as_slice()
    }

    /// Writes the request line `GET <path> HTTP/1.1`.
    ///
    /// A request has one request line: after this call the encoder accepts
    /// headers, and no second request line.
    pub fn request_line(&mut self, path: &str)
        requires
            old(self).wf(),
            old(self).accepts_request_line(),
        ensures
            final(self).wf(),
            final(self).accepts_headers(),
            !final(self).accepts_request_line(),
            final(self).base() == old(self).base(),
            final(self).path() == text(path@),
            final(self).fields() == old(self).fields(),
            final(self).buffer() == old(self).buffer() + request_line(
                text("GET"@),
                text(path@),
                Version::Http11,
            ),
    {
        self.message.request_line(&mut self.buf, "GET", path, Version::Http11);
        self.path = Ghost(text(path@));
        proof {
            assert(fields_bytes(self.fields@) =~= Seq::<u8>::empty());
            assert(self.buf@ =~= self.base@ + request_line(
                text("GET"@),
                self.path@,
                Version::Http11,
            ) + fields_bytes(self.fields@));
        }
    }

    /// Writes the header `name: value`, or says why it cannot be written.
    ///
    /// The names of the handshake are not the caller's to set.
    pub fn add_header(&mut self, name: &str, value: &[u8]) -> (r: Result<(), HeaderError>)
        requires
            old(self).wf(),
            old(self).accepts_headers(),
            !is_reserved_header(text(name@)),
        ensures
            final(self).wf(),
            final(self).state() == old(self).state(),
            final(self).base() == old(self).base(),
            final(self).path() == old(self).path(),
            r == header_verdict(text(name@), value@),
            r is Ok ==> final(self).fields() == old(self).fields().push(
                Field { name: text(name@), value: value@ },
            ) && final(self).buffer() == old(self).buffer() + header_line(text(name@), value@),
            r is Err ==> final(self).fields() == old(self).fields() && final(self).buffer() == old(self).buffer(),
    {
        check_header(name);
        let r = self.message.add_header(&mut self.buf, name, value);
        if r.is_ok() {
            let ghost field = Field { name: text(name@), value: value@ };
            proof {
                lemma_fields_push(self.fields@, field);
            }
            self.fields = Ghost(self.fields@.push(field));
            assert(self.buf@ =~= self.base@ + request_line(
                text("GET"@),
                self.path@,
                Version::Http11,
            ) + fields_bytes(self.fields@));
        }
        r
    }

    /// Writes the header `name` with the value that `value` displays as.
    pub fn format_header<D: core::fmt::Display>(&mut self, name: &str, value: D) -> (r: Result<
        (),
        HeaderError,
    >)
        requires
            old(self).wf(),
            old(self).accepts_headers(),
            !is_reserved_header(text(name@)),
        ensures
            final(self).wf(),
            final(self).state() == old(self).state(),
            final(self).base() == old(self).base(),
            final(self).path() == old(self).path(),
            exists|shown: String|
                {
                    &&& #[trigger] to_string_from_display_ensures::<D>(&value, shown)
                    &&& r == header_verdict(text(name@), text(shown@))
                    &&& r is Ok ==> final(self).fields() == old(self).fields().push(
                        Field { name: text(name@), value: text(shown@) },
                    ) && final(self).buffer() == old(self).buffer() + header_line(
                        text(name@),
                        text(shown@),
                    )
                    &&& r is Err ==> final(self).fields() == old(self).fields() && final(self).buffer() == old(self).buffer()
                },
    {
        let shown = value.to_string();
        self.add_header(name, shown.as_str().as_bytes())
    }

    /// Closes the request with a fresh random key.
    pub fn done(self) -> (done: EncoderDone)
        requires
            self.wf(),
            self.accepts_headers(),
        ensures
            done.wf(),
            done.base() == self.base(),
            done.path() == self.path(),
            done.fields() == self.fields(),
    {
        self.done_with_key(Key::new())
    }

    /// Closes the request: writes the four headers of the handshake, with
    /// `key` in `Sec-WebSocket-Key`, and the empty line.
    ///
    /// The key has to be fresh for every connection; `done` draws one.
    pub fn done_with_key(self, key: Key) -> (done: EncoderDone)
        requires
            self.wf(),
            self.accepts_headers(),
        ensures
            done.wf(),
            done.base() == self.base(),
            done.path() == self.path(),
            done.fields() == self.fields(),
            done.key() == key@,
    {
        let mut this = self;
        let encoded = key.encode();
        proof {
            key.lemma_len();
            lemma_upgrade_fields_accepted(key@);
            lemma_upgrade_request(this.path@, this.fields@, key@);
        }
        this.message.add_header(&mut this.buf, "Connection", "upgrade".as_bytes()).unwrap();
        this.message.add_header(&mut this.buf, "Upgrade", "websocket".as_bytes()).unwrap();
        this.message.add_header(&mut this.buf, "Sec-WebSocket-Key", encoded.as_slice()).unwrap();
        this.message.add_header(&mut this.buf, "Sec-WebSocket-Version", "13".as_bytes()).unwrap();
        let ignore_body = this.message.done_headers(&mut this.buf);
        assert(ignore_body);
        this.message.done(&mut this.buf);
        let ghost request = Request { path: this.path@, fields: this.fields@, key: key@ };
        assert(this.buf@ =~= this.base@ + request.bytes());
        EncoderDone { buf: this.buf, base: this.base, request: Ghost(request) }
    }
}

/// The four headers of the handshake pass every check but the one on their
/// names: they hold no line break and say nothing of the body's length.
pub proof fn lemma_upgrade_fields_accepted(key: Seq<u8>)
    ensures
        forall|i: int|
            0 <= i < 4 ==> header_verdict(
                (#[trigger] upgrade_fields(key)[i]).name,
                upgrade_fields(key)[i].value,
            ) is Ok,
{
    reveal_strlit("Connection");
    reveal_strlit("upgrade");
    reveal_strlit("Upgrade");
    reveal_strlit("websocket");
    reveal_strlit("Sec-WebSocket-Key");
    reveal_strlit("Sec-WebSocket-Version");
    reveal_strlit("13");
    reveal_strlit("Content-Length");
    reveal_strlit("Transfer-Encoding");
    lemma_ascii_text("Connection"@);
    lemma_ascii_text("upgrade"@);
    lemma_ascii_text("Upgrade"@);
    lemma_ascii_text("websocket"@);
    lemma_ascii_text("Sec-WebSocket-Key"@);
    lemma_ascii_text("Sec-WebSocket-Version"@);
    lemma_ascii_text("13"@);
    lemma_ascii_text("Content-Length"@);
    lemma_ascii_text("Transfer-Encoding"@);
    assert forall|i: int| 0 <= i < base64(key).len() implies #[trigger] base64(key)[i] != 0x0d
        && base64(key)[i] != 0x0a by {
        lemma_base64_alphabet(key, i);
    }
    assert(!has_line_break(text("Connection"@)));
    assert(!has_line_break(text("upgrade"@)));
    assert(!has_line_break(text("Upgrade"@)));
    assert(!has_line_break(text("websocket"@)));
    assert(!has_line_break(text("Sec-WebSocket-Key"@)));
    assert(!has_line_break(text("Sec-WebSocket-Version"@)));
    assert(!has_line_break(text("13"@)));
    assert(!is_body_length_header(text("Connection"@)));
    assert(!is_body_length_header(text("Upgrade"@)));
    assert(!is_body_length_header(text("Sec-WebSocket-Key"@))) by {
        assert(text("Sec-WebSocket-Key"@)[0] == 0x53);
        assert(text("Transfer-Encoding"@)[0] == 0x54);
    }
    assert(!is_body_length_header(text("Sec-WebSocket-Version"@)));
}

/// The request with the four headers written one by one is the upgrade
/// request.
pub proof fn lemma_upgrade_request(path: Seq<u8>, fields: Seq<Field>, key: Seq<u8>)
    ensures
        upgrade_request(path, fields, key) == request_line(text("GET"@), path, Version::Http11)
            + fields_bytes(fields) + header_line(text("Connection"@), text("upgrade"@))
            + header_line(text("Upgrade"@), text("websocket"@)) + header_line(
            text("Sec-WebSocket-Key"@),
            base64(key),
        ) + header_line(text("Sec-WebSocket-Version"@), text("13"@)) + text("\r\n"@),
{
    let u = upgrade_fields(key);
    let f1 = fields.push(u[0]);
    let f2 = f1.push(u[1]);
    let f3 = f2.push(u[2]);
    let f4 = f3.push(u[3]);
    assert(fields + u =~= f4);
    lemma_fields_push(fields, u[0]);
    lemma_fields_push(f1, u[1]);
    lemma_fields_push(f2, u[2]);
    lemma_fields_push(f3, u[3]);
}

impl EncoderDone {
    /// The bytes in the output buffer.
    pub closed spec fn buffer(&self) -> Seq<u8> {
        self.buf@
    }

    /// What the buffer held before the request was written.
    pub closed spec fn base(&self) -> Seq<u8> {
        self.base@
    }

    /// The request that was written.
    pub closed spec fn request(&self) -> Request {
        self.request@
    }

    /// The path of the request line.
    pub open spec fn path(&self) -> Seq<u8> {
        self.request().path
    }

    /// The headers that the caller wrote, in their order.
    pub open spec fn fields(&self) -> Seq<Field> {
        self.request().fields
    }

    /// The key that the request carries.
    pub open spec fn key(&self) -> Seq<u8> {
        self.request().key
    }

    /// The buffer holds one upgrade request behind what it held before: the
    /// caller's headers, none of them one of the handshake's, then the four of
    /// the handshake, with a key of sixteen bytes.
    pub open spec fn wf(&self) -> bool {
        &&& self.buffer() == self.base() + self.request().bytes()
        &&& self.request().wf()
    }

    /// The bytes of the buffer.
    pub fn as_bytes(&self) -> (bytes: &[u8])
        ensures
            bytes@ == self.buffer(),
    {
        self.buf.as_slice()
    }

    /// Gives the buffer back.
    pub fn into_bytes(self) -> (bytes: Vec<u8>)
        ensures
            bytes@ == self.buffer(),
    {
        self.buf
    }
}

} // verus!
