use http_proxy::error::Failure;
use http_proxy::error::HttpProxyError;
use http_proxy::head::parse_headers;
use http_proxy::head::read_head;
use http_proxy::head::Header;
use http_proxy::head::ParsedRequestHead;
use http_proxy::head::MAX_HEADERS;

fn head(method: Option<&str>, path: Option<&str>, headers: &[(&str, &[u8])]) -> ParsedRequestHead {
    ParsedRequestHead {
        method: method.map(String::from),
        path: path.map(String::from),
        version: Some(1),
        headers: headers
            .iter()
            .map(|(name, value)| Header { name: name.to_string(), value: value.to_vec() })
            .collect(),
    }
}

#[test]
fn head_holds_at_most_sixty_four_headers() {
    assert_eq!(MAX_HEADERS, 64);
}

#[test]
fn complete_head_is_read() {
    let parsed = read_head(b"GET /index.html HTTP/1.1\r\nHost: api.example.com\r\nAccept: */*\r\n\r\nbody")
        .expect("a request head");
    assert_eq!(parsed.method.as_deref(), Some("GET"));
    assert_eq!(parsed.path.as_deref(), Some("/index.html"));
    assert_eq!(parsed.version, Some(1));
    assert_eq!(parsed.headers.len(), 2);
    assert_eq!(parsed.headers[0].name, "Host");
    assert_eq!(parsed.headers[0].value, b"api.example.com");
    assert_eq!(parsed.headers[1].name, "Accept");
    assert_eq!(parsed.headers[1].value, b"*/*");
}

#[test]
fn version_zero_is_read() {
    let parsed = read_head(b"GET / HTTP/1.0\r\n\r\n").expect("a request head");
    assert_eq!(parsed.version, Some(0));
    assert!(parsed.headers.is_empty());
}

#[test]
fn connect_head_is_read() {
    let parsed = read_head(b"CONNECT tracker.ads.net:443 HTTP/1.1\r\n\r\n").expect("a request head");
    assert_eq!(parsed.method.as_deref(), Some("CONNECT"));
    assert_eq!(parsed.path.as_deref(), Some("tracker.ads.net:443"));
    assert!(parsed.is_tunnel());
    assert!(parsed.headers.is_empty());
}

#[test]
fn partial_head_keeps_what_was_read() {
    let parsed = read_head(b"GET / HTTP/1.1\r\nHost: early.example\r\nAccept: te").expect("a partial head");
    assert_eq!(parsed.method.as_deref(), Some("GET"));
    assert_eq!(parsed.path.as_deref(), Some("/"));
    assert_eq!(parsed.headers.len(), 64);
    assert_eq!(parsed.headers[0].name, "Host");
    assert_eq!(parsed.headers[0].value, b"early.example");
    assert_eq!(parsed.headers[1].name, "");
    assert!(parsed.headers[63].value.is_empty());
    let found = parse_headers(&parsed).expect("text");
    assert_eq!(found.as_deref(), Some("early.example"));
}

#[test]
fn partial_request_line_has_no_path() {
    let parsed = read_head(b"CONNECT exam").expect("a partial head");
    assert_eq!(parsed.method.as_deref(), Some("CONNECT"));
    assert_eq!(parsed.path, None);
    assert_eq!(parsed.version, None);
    assert_eq!(parse_headers(&parsed).expect("no failure"), None);
}

#[test]
fn garbage_is_a_protocol_failure() {
    let error = read_head(b"\x16\x03\x01\x02\x00\x01\x00\x01\xfc\x03\x03 not http at all").unwrap_err();
    assert!(matches!(error, HttpProxyError::HttpParse(_)));
    assert_eq!(error.class(), Failure::Protocol);
    assert!(!error.is_reported());
}

#[test]
fn wrong_version_is_a_protocol_failure() {
    let error = read_head(b"GET / HTTP/2.0\r\nHost: a\r\n\r\n").unwrap_err();
    assert!(matches!(error, HttpProxyError::HttpParse(httparse::Error::Version)));
}

#[test]
fn too_many_headers_is_a_protocol_failure() {
    let mut bytes = b"GET / HTTP/1.1\r\n".to_vec();
    for i in 0..65 {
        bytes.extend_from_slice(format!("X-{}: v\r\n", i).as_bytes());
    }
    bytes.extend_from_slice(b"\r\n");
    let error = read_head(&bytes).unwrap_err();
    assert!(matches!(error, HttpProxyError::HttpParse(httparse::Error::TooManyHeaders)));
}

#[test]
fn sixty_four_headers_fit() {
    let mut bytes = b"GET / HTTP/1.1\r\n".to_vec();
    for i in 0..64 {
        bytes.extend_from_slice(format!("X-{}: v\r\n", i).as_bytes());
    }
    bytes.extend_from_slice(b"\r\n");
    let parsed = read_head(&bytes).expect("a request head");
    assert_eq!(parsed.headers.len(), 64);
    assert_eq!(parsed.headers[63].name, "X-63");
}

#[test]
fn host_header_names_the_destination() {
    let request = head(Some("GET"), Some("/"), &[("Accept", b"*/*"), ("Host", b"api.example.com")]);
    assert_eq!(parse_headers(&request).expect("text").as_deref(), Some("api.example.com"));
}

#[test]
fn first_host_header_wins() {
    let request = head(Some("GET"), Some("/"), &[("Host", b"first.example"), ("Host", b"second.example")]);
    assert_eq!(parse_headers(&request).expect("text").as_deref(), Some("first.example"));
}

#[test]
fn host_header_wins_over_the_connect_target() {
    let request = head(Some("CONNECT"), Some("target.example:443"), &[("Host", b"host.example:443")]);
    assert_eq!(parse_headers(&request).expect("text").as_deref(), Some("host.example:443"));
}

#[test]
fn host_header_name_is_matched_letter_for_letter() {
    let request = head(Some("GET"), Some("/"), &[("host", b"a.example"), ("HOST", b"b.example")]);
    assert_eq!(parse_headers(&request).expect("no failure"), None);
}

#[test]
fn connect_without_host_uses_its_target() {
    let request = head(Some("CONNECT"), Some("tracker.ads.net:443"), &[("User-Agent", b"x")]);
    assert_eq!(parse_headers(&request).expect("text").as_deref(), Some("tracker.ads.net:443"));
}

#[test]
fn other_methods_without_host_name_nothing() {
    for method in ["GET", "POST", "connect", "CONNECTX", ""] {
        let request = head(Some(method), Some("http://example.com/"), &[]);
        assert_eq!(parse_headers(&request).expect("no failure"), None, "{}", method);
        assert!(!request.is_tunnel());
    }
    let request = head(None, Some("example.com:443"), &[]);
    assert_eq!(parse_headers(&request).expect("no failure"), None);
}

#[test]
fn host_value_that_is_no_text_is_an_encoding_failure() {
    let request = head(Some("GET"), Some("/"), &[("Host", b"caf\xe9.example")]);
    let error = parse_headers(&request).unwrap_err();
    assert!(matches!(error, HttpProxyError::FromUtf8(_)));
    assert_eq!(error.class(), Failure::Encoding);
    assert!(error.is_reported());
}

#[test]
fn host_value_is_decoded_as_utf8() {
    let request = head(Some("GET"), Some("/"), &[("Host", "café.example".as_bytes())]);
    assert_eq!(parse_headers(&request).expect("text").as_deref(), Some("café.example"));
    let request = head(Some("GET"), Some("/"), &[("Host", b"")]);
    assert_eq!(parse_headers(&request).expect("text").as_deref(), Some(""));
}

#[test]
fn encoding_failure_comes_from_the_wire_too() {
    let parsed = read_head(b"GET / HTTP/1.1\r\nHost: \xff\xfe.example\r\n\r\n").expect("a request head");
    assert!(matches!(parse_headers(&parsed), Err(HttpProxyError::FromUtf8(_))));
}

#[test]
fn host_value_must_be_well_formed_utf8() {
    let bad: [&[u8]; 7] = [
        b"\xc0\x80",
        b"\xc1\xbf",
        b"\xed\xa0\x80",
        b"\xf4\x90\x80\x80",
        b"\xe2\x82",
        b"\x80",
        b"a\xf8b",
    ];
    for value in bad {
        let request = head(Some("GET"), Some("/"), &[("Host", value)]);
        assert!(matches!(parse_headers(&request), Err(HttpProxyError::FromUtf8(_))), "{:?}", value);
    }
    let good: [&str; 5] = ["\u{7f}", "\u{80}", "\u{7ff}\u{800}", "\u{d7ff}\u{e000}\u{ffff}", "\u{10000}\u{10ffff}"];
    for value in good {
        let request = head(Some("GET"), Some("/"), &[("Host", value.as_bytes())]);
        assert_eq!(parse_headers(&request).expect("text").as_deref(), Some(value));
    }
}
