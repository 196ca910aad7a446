use http_proxy::config::SiteControl;
use http_proxy::conn::accept_conn;
use http_proxy::conn::dispatch_request;
use http_proxy::conn::serve_conn;
use http_proxy::conn::ConnAction;
use http_proxy::conn::ConnEvent;
use http_proxy::conn::ConnState;
use http_proxy::conn::Note;
use http_proxy::conn::Step;
use http_proxy::conn::Target;
use http_proxy::conn::HTTP_MINIMUM_BYTES;
use http_proxy::conn::READ_BUFFER_BYTES;
use http_proxy::error::HttpProxyError;
use http_proxy::head::Header;
use http_proxy::head::ParsedRequestHead;
use http_proxy::policy::AuditKind;
use http_proxy::resolver::SocketLiteral;

const TUNNEL_ANSWER: &[u8] = b"HTTP/1.1 200 Tunnel established\r\nProxy: SuperHacker HTTP Proxy/0.1.0\r\n\r\n";

fn transport() -> ConnEvent {
    ConnEvent::Failed { error: std::io::Error::new(std::io::ErrorKind::Other, "reset") }
}

fn read(policy: &SiteControl, data: &[u8]) -> Step {
    let start = accept_conn();
    serve_conn(policy, start.next, ConnEvent::Read { data: data.to_vec() })
}

fn identified(policy: &SiteControl, data: &[u8], source: &str) -> Step {
    let step = read(policy, data);
    assert!(matches!(step.action, ConnAction::QueryPeer));
    serve_conn(policy, step.next, ConnEvent::Peer { source: source.to_string() })
}

fn resolved(policy: &SiteControl, data: &[u8], literal: Option<SocketLiteral>) -> Step {
    let step = identified(policy, data, "10.0.0.1:5000");
    assert!(matches!(step.action, ConnAction::ReadLiteral { .. }), "{:?}", step.action);
    serve_conn(policy, step.next, ConnEvent::Literal { literal })
}

#[test]
fn handler_begins_with_one_read() {
    let start = accept_conn();
    assert!(matches!(start.next, ConnState::Reading));
    assert!(matches!(start.action, ConnAction::Read { capacity: 4096 }));
    assert!(start.note.is_none());
    assert_eq!(READ_BUFFER_BYTES, 4096);
    assert_eq!(HTTP_MINIMUM_BYTES, 23);
}

#[test]
fn short_read_is_dropped_in_silence() {
    let policy = SiteControl::Allow(vec!["example.com".to_string()]);
    for len in [0usize, 1, 22] {
        let data = &b"GET / HTTP/1.1\r\nHost: a\r\n\r\n"[..len];
        let step = read(&policy, data);
        assert!(matches!(step.next, ConnState::Closed));
        assert!(matches!(step.action, ConnAction::Close { outcome: Ok(()) }));
        assert!(step.note.is_none());
    }
}

#[test]
fn shortest_request_is_taken() {
    let data = b"CONNECT a.jp HTTP/2\r\n\r\n";
    assert_eq!(data.len(), 23);
    let step = read(&SiteControl::Disable, data);
    assert!(matches!(step.action, ConnAction::QueryPeer));
    match step.next {
        ConnState::Identifying { request } => assert_eq!(request, data),
        other => panic!("{:?}", other),
    }
}

#[test]
fn closed_connection_stays_closed() {
    let step = read(&SiteControl::Disable, b"short");
    let step = serve_conn(&SiteControl::Disable, step.next, ConnEvent::Peer { source: "c".to_string() });
    assert!(matches!(step.next, ConnState::Closed));
    assert!(matches!(step.action, ConnAction::Close { outcome: Ok(()) }));
    let step = serve_conn(&SiteControl::Disable, step.next, ConnEvent::Connected);
    assert!(matches!(step.next, ConnState::Closed));
    assert!(matches!(step.action, ConnAction::Close { outcome: Ok(()) }));
    assert!(step.note.is_none());
}

#[test]
fn unparseable_request_is_a_protocol_failure() {
    let step = identified(&SiteControl::Disable, b"\x16\x03\x01 this is surely not http \x00\x01", "c");
    assert!(matches!(step.next, ConnState::Closed));
    match step.action {
        ConnAction::Close { outcome: Err(error) } => {
            assert!(matches!(error, HttpProxyError::HttpParse(_)));
            assert!(!error.is_reported());
        },
        other => panic!("{:?}", other),
    }
    assert!(step.note.is_none());
}

#[test]
fn request_without_host_is_dropped_with_a_note() {
    let step = identified(&SiteControl::Disable, b"GET /somewhere HTTP/1.1\r\nAccept: */*\r\n\r\n", "10.9.8.7:65");
    assert!(matches!(step.next, ConnState::Closed));
    assert!(matches!(step.action, ConnAction::Close { outcome: Ok(()) }));
    match step.note {
        Some(Note::NoHost { method, path, version, source }) => {
            assert_eq!(method.as_deref(), Some("GET"));
            assert_eq!(path.as_deref(), Some("/somewhere"));
            assert_eq!(version, Some(1));
            assert_eq!(source, "10.9.8.7:65");
        },
        other => panic!("{:?}", other),
    }
}

#[test]
fn request_with_a_garbled_host_is_an_encoding_failure() {
    let step = identified(&SiteControl::Disable, b"GET / HTTP/1.1\r\nHost: \xff\xff.example\r\n\r\n", "c");
    assert!(matches!(step.next, ConnState::Closed));
    assert!(matches!(step.action, ConnAction::Close { outcome: Err(HttpProxyError::FromUtf8(_)) }));
}

#[test]
fn dispatch_takes_a_head_as_it_is_given() {
    let head = ParsedRequestHead {
        method: Some("POST".to_string()),
        path: Some("/submit".to_string()),
        version: Some(0),
        headers: vec![Header { name: "Host".to_string(), value: b"forms.example:8080".to_vec() }],
    };
    let step = dispatch_request(head, b"raw".to_vec(), "c".to_string());
    match step.action {
        ConnAction::ReadLiteral { authority } => assert_eq!(authority, "forms.example:8080"),
        other => panic!("{:?}", other),
    }
    match step.next {
        ConnState::Resolving { request, tunnel, authority, source } => {
            assert_eq!(request, b"raw");
            assert!(!tunnel);
            assert_eq!(authority, "forms.example:8080");
            assert_eq!(source, "c");
        },
        other => panic!("{:?}", other),
    }
    let head = ParsedRequestHead { method: Some("PUT".to_string()), path: None, version: None, headers: Vec::new() };
    let step = dispatch_request(head, Vec::new(), "c".to_string());
    assert!(matches!(step.next, ConnState::Closed));
    assert!(matches!(step.note, Some(Note::NoHost { .. })));
}

#[test]
fn allowed_get_is_forwarded_verbatim() {
    let policy = SiteControl::Allow(vec!["example.com".to_string()]);
    let data = b"GET / HTTP/1.1\r\nHost: api.example.com\r\n\r\n";
    let step = identified(&policy, data, "10.0.0.1:5000");
    match &step.action {
        ConnAction::ReadLiteral { authority } => assert_eq!(authority, "api.example.com"),
        other => panic!("{:?}", other),
    }
    let step = serve_conn(&policy, step.next, ConnEvent::Literal { literal: None });
    match &step.action {
        ConnAction::Lookup { host, port } => {
            assert_eq!(host, "api.example.com");
            assert_eq!(*port, 80);
        },
        other => panic!("{:?}", other),
    }
    match &step.note {
        Some(Note::Audit { event }) => {
            assert_eq!(event.kind, AuditKind::Accept);
            assert_eq!(event.host, "api.example.com");
            assert_eq!(event.port, 80);
            assert_eq!(event.source, "10.0.0.1:5000");
        },
        other => panic!("{:?}", other),
    }
    let step = serve_conn(&policy, step.next, ConnEvent::Resolved { candidates: 2 });
    assert!(matches!(step.action, ConnAction::Connect { target: Target::Candidate { index: 0 } }));
    assert!(step.note.is_none());
    let step = serve_conn(&policy, step.next, ConnEvent::Connected);
    match &step.action {
        ConnAction::SendToTarget { bytes } => assert_eq!(bytes.as_slice(), &data[..]),
        other => panic!("{:?}", other),
    }
    assert!(matches!(step.next, ConnState::Starting));
    let step = serve_conn(&policy, step.next, ConnEvent::Written);
    assert!(matches!(step.action, ConnAction::Relay));
    assert!(matches!(step.next, ConnState::Relaying));
    let step = serve_conn(&policy, step.next, ConnEvent::RelayEnded);
    assert!(matches!(step.action, ConnAction::Close { outcome: Ok(()) }));
    assert!(matches!(step.next, ConnState::Closed));
}

#[test]
fn blocked_connect_is_denied_without_an_answer() {
    let policy = SiteControl::Block(vec!["ads.net".to_string()]);
    let step = identified(&policy, b"CONNECT tracker.ads.net:443 HTTP/1.1\r\n\r\n", "10.0.0.4:4444");
    match &step.action {
        ConnAction::ReadLiteral { authority } => assert_eq!(authority, "tracker.ads.net:443"),
        other => panic!("{:?}", other),
    }
    let step = serve_conn(&policy, step.next, ConnEvent::Literal { literal: None });
    assert!(matches!(step.next, ConnState::Closed));
    assert!(matches!(step.action, ConnAction::Close { outcome: Ok(()) }));
    match &step.note {
        Some(Note::Audit { event }) => {
            assert_eq!(event.kind, AuditKind::Denied);
            assert_eq!(event.host, "tracker.ads.net");
            assert_eq!(event.port, 443);
            assert_eq!(event.source, "10.0.0.4:4444");
        },
        other => panic!("{:?}", other),
    }
    let step = serve_conn(&policy, step.next, ConnEvent::Connected);
    assert!(matches!(step.action, ConnAction::Close { .. }));
}

#[test]
fn permitted_connect_gets_the_tunnel_answer() {
    let step = resolved(&SiteControl::Disable, b"CONNECT secure.example:443 HTTP/1.1\r\n\r\n", None);
    match &step.action {
        ConnAction::Lookup { host, port } => {
            assert_eq!(host, "secure.example");
            assert_eq!(*port, 443);
        },
        other => panic!("{:?}", other),
    }
    assert!(step.note.is_none());
    let step = serve_conn(&SiteControl::Disable, step.next, ConnEvent::Resolved { candidates: 1 });
    let step = serve_conn(&SiteControl::Disable, step.next, ConnEvent::Connected);
    match &step.action {
        ConnAction::SendToClient { bytes } => assert_eq!(bytes.as_slice(), TUNNEL_ANSWER),
        other => panic!("{:?}", other),
    }
    let step = serve_conn(&SiteControl::Disable, step.next, ConnEvent::Written);
    assert!(matches!(step.action, ConnAction::Relay));
}

#[test]
fn literal_destination_is_connected_directly() {
    let literal = SocketLiteral { ip: "192.0.2.7".to_string(), port: 8080 };
    let data = b"GET / HTTP/1.1\r\nHost: 192.0.2.7:8080\r\n\r\n";
    let step = resolved(&SiteControl::Disable, data, Some(literal));
    assert!(matches!(step.action, ConnAction::Connect { target: Target::Literal }));
    let step = serve_conn(&SiteControl::Disable, step.next, ConnEvent::Connected);
    match &step.action {
        ConnAction::SendToTarget { bytes } => assert_eq!(bytes.as_slice(), &data[..]),
        other => panic!("{:?}", other),
    }
}

#[test]
fn unresolvable_name_is_dropped_in_silence() {
    let step = resolved(&SiteControl::Disable, b"GET / HTTP/1.1\r\nHost: nowhere.invalid\r\n\r\n", None);
    let step = serve_conn(&SiteControl::Disable, step.next, ConnEvent::Resolved { candidates: 0 });
    assert!(matches!(step.next, ConnState::Closed));
    assert!(matches!(step.action, ConnAction::Close { outcome: Ok(()) }));
    assert!(step.note.is_none());
}

#[test]
fn transport_failure_ends_the_connection_in_every_state() {
    let states = [
        ConnState::Reading,
        ConnState::Identifying { request: b"x".to_vec() },
        ConnState::Resolving {
            request: b"x".to_vec(),
            tunnel: false,
            authority: "a".to_string(),
            source: "c".to_string(),
        },
        ConnState::LookingUp { request: b"x".to_vec(), tunnel: true },
        ConnState::Connecting { request: b"x".to_vec(), tunnel: true },
        ConnState::Starting,
        ConnState::Relaying,
        ConnState::Closed,
    ];
    for state in states {
        let step = serve_conn(&SiteControl::Disable, state, transport());
        assert!(matches!(step.next, ConnState::Closed));
        match step.action {
            ConnAction::Close { outcome: Err(error) } => {
                assert!(matches!(error, HttpProxyError::Io(_)));
                assert!(error.is_reported());
            },
            other => panic!("{:?}", other),
        }
    }
}

#[test]
fn relay_ends_on_whatever_comes() {
    for event in [ConnEvent::RelayEnded, ConnEvent::Written, ConnEvent::Connected, transport()] {
        let step = serve_conn(&SiteControl::Disable, ConnState::Relaying, event);
        assert!(matches!(step.next, ConnState::Closed));
        assert!(matches!(step.action, ConnAction::Close { .. }));
    }
}

#[test]
fn stray_event_ends_the_connection() {
    let step = serve_conn(&SiteControl::Disable, ConnState::Reading, ConnEvent::Connected);
    assert!(matches!(step.next, ConnState::Closed));
    assert!(matches!(step.action, ConnAction::Close { outcome: Ok(()) }));
    let step = serve_conn(
        &SiteControl::Disable,
        ConnState::Connecting { request: b"x".to_vec(), tunnel: false },
        ConnEvent::Written,
    );
    assert!(matches!(step.next, ConnState::Closed));
}
