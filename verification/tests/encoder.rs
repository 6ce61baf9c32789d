use tk_http::encoder::encoder;
use tk_http::key::encode_base64;
use tk_http::{check_header, is_reserved, HeaderError, Key, MessageState, Version};

fn key_of_counting_bytes() -> Key {
    let mut bytes = [0u8; 16];
    for (i, b) in bytes.iter_mut().enumerate() {
        *b = i as u8;
    }
    Key::from_bytes(bytes)
}

#[test]
fn names_of_the_handshake_are_reserved() {
    for name in [
        "Connection",
        "connection",
        "CONNECTION",
        "Upgrade",
        "uPgRaDe",
        "Sec-WebSocket-Key",
        "sec-websocket-key",
        "Sec-WebSocket-Version",
        "SEC-WEBSOCKET-VERSION",
        "Sec-WebSocket-Protocol",
        "Sec-Websocket-Extensions",
        "Sec-WebSocket-",
    ] {
        assert!(is_reserved(name), "{} is reserved", name);
    }
}

#[test]
fn other_names_are_free() {
    for name in [
        "Host",
        "Origin",
        "User-Agent",
        "Cookie",
        "Authorization",
        "Sec-Fetch-Mode",
        "Sec-WebSocket",
        "Connections",
        "Upgrad",
        "",
    ] {
        assert!(!is_reserved(name), "{} is free", name);
        check_header(name);
    }
}

#[test]
fn request_line_is_written_once() {
    let mut e = encoder(Vec::new());
    assert!(e.is_fresh());
    e.request_line("/chat");
    assert!(!e.is_fresh());
    assert_eq!(e.written(), b"GET /chat HTTP/1.1\r\n");
}

#[test]
fn encoder_writes_behind_what_the_buffer_holds() {
    let mut e = encoder(b"pending".to_vec());
    assert_eq!(e.written(), b"pending");
    e.request_line("/");
    assert_eq!(e.written(), b"pendingGET / HTTP/1.1\r\n");
}

#[test]
fn add_header_writes_one_line() {
    let mut e = encoder(Vec::new());
    e.request_line("/");
    assert_eq!(e.add_header("Host", b"example.com"), Ok(()));
    assert_eq!(e.add_header("Cookie", b"a=b; c=d"), Ok(()));
    assert_eq!(
        e.written(),
        b"GET / HTTP/1.1\r\nHost: example.com\r\nCookie: a=b; c=d\r\n"
    );
}

#[test]
fn add_header_refuses_a_line_break_in_the_value() {
    let mut e = encoder(Vec::new());
    e.request_line("/");
    assert_eq!(
        e.add_header("Host", b"example.com\r\nX-Injected: 1"),
        Err(HeaderError::InvalidHeaderValue)
    );
    assert_eq!(e.add_header("Host", b"a\nb"), Err(HeaderError::InvalidHeaderValue));
    assert_eq!(e.add_header("Host", b"a\rb"), Err(HeaderError::InvalidHeaderValue));
    assert_eq!(e.written(), b"GET / HTTP/1.1\r\n");
}

#[test]
fn add_header_refuses_a_line_break_in_the_name() {
    let mut e = encoder(Vec::new());
    e.request_line("/");
    assert_eq!(e.add_header("Ho\nst", b"example.com"), Err(HeaderError::InvalidHeaderName));
    assert_eq!(e.written(), b"GET / HTTP/1.1\r\n");
}

#[test]
fn add_header_refuses_the_length_of_the_body() {
    let mut e = encoder(Vec::new());
    e.request_line("/");
    assert_eq!(e.add_header("Content-Length", b"10"), Err(HeaderError::BodyLengthHeader));
    assert_eq!(e.add_header("content-length", b"10"), Err(HeaderError::BodyLengthHeader));
    assert_eq!(
        e.add_header("Transfer-Encoding", b"chunked"),
        Err(HeaderError::BodyLengthHeader)
    );
    assert_eq!(e.written(), b"GET / HTTP/1.1\r\n");
}

#[test]
fn format_header_writes_what_the_value_displays() {
    let mut e = encoder(Vec::new());
    e.request_line("/");
    assert_eq!(e.format_header("X-Attempt", 42), Ok(()));
    assert_eq!(e.format_header("X-Host", 'h'), Ok(()));
    assert_eq!(e.format_header("X-Bad", "a\r\nb"), Err(HeaderError::InvalidHeaderValue));
    assert_eq!(
        e.written(),
        b"GET / HTTP/1.1\r\nX-Attempt: 42\r\nX-Host: h\r\n"
    );
}

#[test]
fn done_with_key_adds_the_four_headers_in_order() {
    let mut e = encoder(Vec::new());
    e.request_line("/chat");
    e.add_header("Host", b"example.com").unwrap();
    let done = e.done_with_key(key_of_counting_bytes());
    let expected: &[u8] = b"GET /chat HTTP/1.1\r\n\
        Host: example.com\r\n\
        Connection: upgrade\r\n\
        Upgrade: websocket\r\n\
        Sec-WebSocket-Key: AAECAwQFBgcICQoLDA0ODw==\r\n\
        Sec-WebSocket-Version: 13\r\n\
        \r\n";
    assert_eq!(done.as_bytes(), expected);
    assert_eq!(done.into_bytes(), expected.to_vec());
}

#[test]
fn done_draws_a_fresh_key_each_time() {
    let mut first = encoder(Vec::new());
    first.request_line("/");
    let first = first.done().into_bytes();
    let mut second = encoder(Vec::new());
    second.request_line("/");
    let second = second.done().into_bytes();
    assert_eq!(first.len(), second.len());
    assert_ne!(first, second);
    let prefix: &[u8] = b"GET / HTTP/1.1\r\nConnection: upgrade\r\nUpgrade: websocket\r\nSec-WebSocket-Key: ";
    let suffix: &[u8] = b"\r\nSec-WebSocket-Version: 13\r\n\r\n";
    for request in [&first, &second] {
        assert!(request.starts_with(prefix));
        assert!(request.ends_with(suffix));
        assert_eq!(request.len(), prefix.len() + 24 + suffix.len());
    }
}

#[test]
fn base64_of_the_usual_vectors() {
    assert_eq!(encode_base64(b""), b"");
    assert_eq!(encode_base64(b"f"), b"Zg==");
    assert_eq!(encode_base64(b"fo"), b"Zm8=");
    assert_eq!(encode_base64(b"foo"), b"Zm9v");
    assert_eq!(encode_base64(b"foob"), b"Zm9vYg==");
    assert_eq!(encode_base64(b"fooba"), b"Zm9vYmE=");
    assert_eq!(encode_base64(b"foobar"), b"Zm9vYmFy");
    assert_eq!(encode_base64(&[0xfb, 0xff]), b"+/8=");
    assert_eq!(encode_base64(&[0xff, 0xff, 0xff, 0x00, 0x00, 0x00]), b"////AAAA");
}

#[test]
fn key_is_sixteen_bytes_and_twenty_four_characters() {
    let key = key_of_counting_bytes();
    assert_eq!(key.as_bytes().len(), 16);
    assert_eq!(key.encode(), b"AAECAwQFBgcICQoLDA0ODw==");
    let zero = Key::from_bytes([0u8; 16]);
    assert_eq!(zero.encode(), b"AAAAAAAAAAAAAAAAAAAAAA==");
    let ones = Key::from_bytes([0xffu8; 16]);
    assert_eq!(ones.encode(), b"/////////////////////w==");
}

#[test]
fn fresh_keys_differ() {
    let a = Key::new();
    let b = Key::new();
    assert_ne!(a.as_bytes(), b.as_bytes());
    assert_eq!(a.encode().len(), 24);
}

#[test]
fn message_state_goes_through_its_four_states() {
    let mut buf = Vec::new();
    let mut state = MessageState::RequestStart;
    assert!(!state.is_started());
    state.request_line(&mut buf, "GET", "/x", Version::Http11);
    assert_eq!(state, MessageState::Headers);
    assert!(state.is_started());
    assert!(!state.is_after_headers());
    assert_eq!(state.add_header(&mut buf, "A", b"1"), Ok(()));
    assert_eq!(state.format_header(&mut buf, "B", 2u8), Ok(()));
    assert!(state.done_headers(&mut buf));
    assert_eq!(state, MessageState::Bodyless);
    assert!(state.is_after_headers());
    assert!(!state.is_complete());
    state.done(&mut buf);
    assert_eq!(state, MessageState::Done);
    assert!(state.is_complete());
    state.done(&mut buf);
    assert_eq!(state, MessageState::Done);
    assert_eq!(buf, b"GET /x HTTP/1.1\r\nA: 1\r\nB: 2\r\n\r\n");
}

#[test]
fn request_line_names_the_version() {
    let mut buf = Vec::new();
    let mut state = MessageState::RequestStart;
    state.request_line(&mut buf, "HEAD", "/", Version::Http10);
    assert_eq!(buf, b"HEAD / HTTP/1.0\r\n");
}
