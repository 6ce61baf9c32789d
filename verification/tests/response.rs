use tk_http::parse::{parse_two_tier, Parsed};
use tk_http::text::{
    bytes_eq_ignore_ascii_case, bytes_start_with_ignore_ascii_case, contains_line_break,
    to_ascii_lower,
};
use tk_http::{Error, Head, Header, ParseError, Status, Version, MAX_HEADERS};

fn response_with_headers(count: usize) -> Vec<u8> {
    let mut bytes = b"HTTP/1.1 101 Switching Protocols\r\n".to_vec();
    for i in 0..count {
        bytes.extend_from_slice(format!("X-Header-{}: value-{}\r\n", i, i).as_bytes());
    }
    bytes.extend_from_slice(b"\r\n");
    bytes
}

#[test]
fn status_of_a_named_code() {
    assert_eq!(Status::from(101), Some(Status::SwitchingProtocols));
    assert_eq!(Status::from(200), Some(Status::Okay));
    assert_eq!(Status::from(404), Some(Status::NotFound));
    assert_eq!(Status::from(505), Some(Status::VersionNotSupported));
}

#[test]
fn status_of_a_code_without_a_name() {
    assert_eq!(Status::from(799), None);
    assert_eq!(Status::from(0), None);
    assert_eq!(Status::from(306), None);
    assert_eq!(Status::from(u16::MAX), None);
}

#[test]
fn status_is_found_again_from_its_code() {
    let mut named = 0;
    for code in 0..=u16::MAX {
        if let Some(status) = Status::from(code) {
            assert_eq!(status.code(), code);
            named += 1;
        }
    }
    assert_eq!(named, 43);
    assert_eq!(Status::SwitchingProtocols.code(), 101);
    assert_eq!(Status::TooManyRequests.code(), 429);
}

#[test]
fn version_as_text() {
    assert_eq!(Version::Http10.as_str(), "HTTP/1.0");
    assert_eq!(Version::Http11.as_str(), "HTTP/1.1");
}

#[test]
fn head_hands_out_what_it_was_given() {
    let headers = [
        Header { name: "Upgrade", value: b"websocket" },
        Header { name: "Connection", value: b"Upgrade" },
    ];
    let head = Head::new(Version::Http11, 101, "Switching Protocols", &headers);
    assert_eq!(head.version(), Version::Http11);
    assert_eq!(head.raw_status(), (101, "Switching Protocols"));
    assert_eq!(head.status(), Some(Status::SwitchingProtocols));
    assert_eq!(head.all_headers(), &headers);
}

#[test]
fn head_with_an_unknown_code_keeps_code_and_reason() {
    let head = Head::new(Version::Http11, 799, "Whatever", &[]);
    assert_eq!(head.status(), None);
    assert_eq!(head.raw_status(), (799, "Whatever"));
    assert!(head.all_headers().is_empty());
}

#[test]
fn head_does_not_match_the_reason_with_the_code() {
    let head = Head::new(Version::Http11, 101, "", &[]);
    assert_eq!(head.status(), Some(Status::SwitchingProtocols));
    assert_eq!(head.raw_status(), (101, ""));
}

#[test]
fn parse_finds_a_complete_response() {
    let bytes = b"HTTP/1.1 101 Switching Protocols\r\nUpgrade: websocket\r\n\r\nrest";
    match parse_two_tier(bytes, MAX_HEADERS) {
        Parsed::Complete(response) => {
            assert_eq!(response.consumed, bytes.len() - 4);
            assert_eq!(response.version, Some(1));
            assert_eq!(response.code, Some(101));
            assert_eq!(response.reason, Some("Switching Protocols"));
            assert_eq!(response.headers, vec![Header { name: "Upgrade", value: b"websocket" }]);
        }
        other => panic!("not complete: {:?}", other),
    }
}

#[test]
fn parse_of_an_incomplete_response_is_partial() {
    for bytes in [&b""[..], b"HTTP/1.1", b"HTTP/1.1 101", b"HTTP/1.1 101 Switching Protocols\r\nUpgrade: web"] {
        assert!(matches!(parse_two_tier(bytes, MAX_HEADERS), Parsed::Partial));
    }
}

#[test]
fn parse_of_malformed_bytes_is_invalid() {
    assert!(matches!(
        parse_two_tier(b"GET / HTTP/1.1\r\n\r\n", MAX_HEADERS),
        Parsed::Invalid(httparse::Error::Version)
    ));
    assert!(matches!(
        parse_two_tier(b"HTTP/1.1 abc\r\n\r\n", MAX_HEADERS),
        Parsed::Invalid(httparse::Error::Status)
    ));
    assert!(matches!(
        parse_two_tier(b"HTTP/1.1 200 OK\r\nBad Name: x\r\n\r\n", MAX_HEADERS),
        Parsed::Invalid(httparse::Error::HeaderName)
    ));
}

#[test]
fn parse_takes_the_large_table_where_the_small_one_overflows() {
    for count in [0, 1, 16, 17, 20, 1024] {
        match parse_two_tier(&response_with_headers(count), MAX_HEADERS) {
            Parsed::Complete(response) => {
                assert_eq!(response.headers.len(), count);
                if count > 0 {
                    let last = response.headers[count - 1];
                    assert_eq!(last.name, format!("X-Header-{}", count - 1));
                    assert_eq!(last.value, format!("value-{}", count - 1).as_bytes());
                }
            }
            other => panic!("{} headers: {:?}", count, other),
        }
    }
}

#[test]
fn parse_fails_beyond_the_limit() {
    assert!(matches!(
        parse_two_tier(&response_with_headers(1025), MAX_HEADERS),
        Parsed::TooManyHeaders
    ));
    assert!(matches!(parse_two_tier(&response_with_headers(3), 2), Parsed::TooManyHeaders));
    assert!(matches!(parse_two_tier(&response_with_headers(17), 16), Parsed::TooManyHeaders));
    assert!(matches!(parse_two_tier(&response_with_headers(1), 0), Parsed::TooManyHeaders));
    assert!(matches!(parse_two_tier(&response_with_headers(2), 2), Parsed::Complete(_)));
    assert!(matches!(parse_two_tier(&response_with_headers(0), 0), Parsed::Complete(_)));
}

#[test]
fn accept_takes_http_1_1_only() {
    let accepted = parse_two_tier(b"HTTP/1.1 200 OK\r\n\r\n", MAX_HEADERS).accept();
    match accepted {
        Ok(Some(response)) => {
            let head = response.head().unwrap();
            assert_eq!(head.raw_status(), (200, "OK"));
            assert_eq!(head.version(), Version::Http11);
        }
        other => panic!("not accepted: {:?}", other),
    }
    let refused = parse_two_tier(b"HTTP/1.0 200 OK\r\n\r\n", MAX_HEADERS).accept();
    assert!(matches!(refused, Err(ParseError::Version)));
}

#[test]
fn response_of_another_version_has_no_head() {
    match parse_two_tier(b"HTTP/1.0 200 OK\r\nA: b\r\n\r\n", MAX_HEADERS) {
        Parsed::Complete(response) => {
            assert_eq!(response.version, Some(0));
            assert!(response.head().is_none());
        }
        other => panic!("not complete: {:?}", other),
    }
}

#[test]
fn accept_of_the_other_results() {
    assert!(matches!(Parsed::Partial.accept(), Ok(None)));
    assert!(matches!(Parsed::TooManyHeaders.accept(), Err(ParseError::TooManyHeaders)));
    assert!(matches!(
        Parsed::Invalid(httparse::Error::Token).accept(),
        Err(ParseError::Syntax(httparse::Error::Token))
    ));
}

#[test]
fn error_descriptions() {
    let io = Error::Io(std::io::Error::new(std::io::ErrorKind::Other, "down"));
    assert_eq!(io.description(), "I/O error");
    assert_eq!(Error::ParseError(ParseError::Version).description(), "parse error");
    assert_eq!(Error::ChunkParseError.description(), "chunk size parse error");
    assert_eq!(Error::PrematureResponseHeaders.description(), "premature response headers");
    assert_eq!(Error::Custom("no".to_string()).description(), "custom error");
}

#[test]
fn ascii_case_is_ignored_for_letters_only() {
    assert_eq!(to_ascii_lower(b'A'), b'a');
    assert_eq!(to_ascii_lower(b'Z'), b'z');
    assert_eq!(to_ascii_lower(b'a'), b'a');
    assert_eq!(to_ascii_lower(b'@'), b'@');
    assert_eq!(to_ascii_lower(b'['), b'[');
    assert_eq!(to_ascii_lower(0xc4), 0xc4);
    assert!(bytes_eq_ignore_ascii_case(b"Upgrade", b"uPGRADE"));
    assert!(!bytes_eq_ignore_ascii_case(b"Upgrade", b"Upgrades"));
    assert!(!bytes_eq_ignore_ascii_case(b"@", b"`"));
    assert!(bytes_start_with_ignore_ascii_case(b"sec-websocket-key", b"Sec-WebSocket-"));
    assert!(!bytes_start_with_ignore_ascii_case(b"sec-web", b"Sec-WebSocket-"));
    assert!(bytes_start_with_ignore_ascii_case(b"anything", b""));
}

#[test]
fn line_breaks_are_found() {
    assert!(contains_line_break(b"a\rb"));
    assert!(contains_line_break(b"a\nb"));
    assert!(contains_line_break(b"\n"));
    assert!(!contains_line_break(b"a b\t"));
    assert!(!contains_line_break(b""));
}
