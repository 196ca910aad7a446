//! The request head of a connection and the destination it names.

use crate::error::HttpProxyError;
use crate::text::same_text;
use crate::text::string_from_utf8;
use crate::text::text_of;
use vstd::prelude::*;
use vstd::string::*;
use vstd::utf8::*;

verus! {

/// The most header lines that a request head may hold.
pub const MAX_HEADERS: usize = 64;

/// One header line: its name and its value, the value as raw bytes.
#[derive(Debug)]
pub struct Header {
    pub name: String,
    pub value: Vec<u8>,
}

/// The mathematical content of a [`Header`].
pub struct HeaderLine {
    pub name: Seq<char>,
    pub value: Seq<u8>,
}

impl View for Header {
    type V = HeaderLine;

    open spec fn view(&self) -> HeaderLine {
        HeaderLine { name: self.name@, value: self.value@ }
    }
}

/// What was read of a request head: a part is `None` while the bytes end
/// before it.
#[derive(Debug)]
pub struct ParsedRequestHead {
    pub method: Option<String>,
    pub path: Option<String>,
    pub version: Option<u8>,
    pub headers: Vec<Header>,
}

/// The mathematical content of a [`ParsedRequestHead`].
pub struct RequestHead {
    pub method: Option<Seq<char>>,
    pub path: Option<Seq<char>>,
    pub version: Option<u8>,
    pub headers: Seq<HeaderLine>,
}

impl View for ParsedRequestHead {
    type V = RequestHead;

    open spec fn view(&self) -> RequestHead {
        RequestHead {
            method: text_of(self.method),
            path: text_of(self.path),
            version: self.version,
            headers: Seq::new(self.headers@.len(), |i: int| self.headers@[i]@),
        }
    }
}

/// What `httparse::Request::parse` makes of `buf` when the request starts
/// out with `slots` empty header slots: the request as the call leaves it, or
/// `None` where the call reports an error.
pub uninterp spec fn parsed_head(buf: Seq<u8>, slots: usize) -> Option<RequestHead>;

/// Runs `httparse::Request::parse` over `buf`, on a new request with `slots`
/// empty header slots, and copies out what the request then holds. The
/// contract names the outcome and claims no more than that it depends on the
/// two arguments alone. A complete and a partial head both count as read;
/// after a partial one all `slots` header slots are handed back, those that
/// were not reached still empty.
#[verifier::external_body]
fn parse_request(buf: &[u8], slots: usize) -> (parsed: Result<ParsedRequestHead, httparse::Error>)
    requires
        slots <= u16::MAX,
    ensures
        match parsed {
            Ok(head) => parsed_head(buf@, slots) == Some(head@),
            Err(_) => parsed_head(buf@, slots) is None,
        },
{
    let mut table = vec![httparse::EMPTY_HEADER; slots];
    let mut request = httparse::Request::new(&mut table);
    request.parse(buf)?;
    let headers = request.headers.iter();
    Ok(
        ParsedRequestHead {
            method: request.method.map(String::from),
            path: request.path.map(String::from),
            version: request.version,
            headers: headers.map(|h| Header { name: h.name.into(), value: h.value.into() }).collect(),
        },
    )
}

/// Reads `buf` as an HTTP request head of at most [`MAX_HEADERS`] header
/// lines. Bytes that are no request head give the protocol failure.
pub fn read_head(buf: &[u8]) -> (parsed: Result<ParsedRequestHead, HttpProxyError>)
    ensures
        match parsed {
            Ok(head) => parsed_head(buf@, MAX_HEADERS) == Some(head@),
            Err(error) => error is HttpParse && parsed_head(buf@, MAX_HEADERS) is None,
        },
{
    match parse_request(buf, MAX_HEADERS) {
        Ok(head) => Ok(head),
        Err(error) => Err(HttpProxyError::HttpParse(error)),
    }
}

/// The destination that a request head names.
pub enum Destination {
    /// The authority: `host` or `host:port`.
    Named(Seq<char>),
    /// The head names no destination.
    Missing,
    /// The `Host` header does not hold UTF-8 text.
    Garbled,
}

/// The value of the first header line named `Host`, letter for letter.
pub open spec fn host_value(headers: Seq<HeaderLine>) -> Option<Seq<u8>>
    decreases headers.len(),
{
    if headers.len() == 0 {
        None
    } else if headers[0].name == "Host"@ {
        Some(headers[0].value)
    } else {
        host_value(headers.drop_first())
    }
}

/// Whether the request asks for a tunnel.
pub open spec fn is_connect(head: RequestHead) -> bool {
    head.method == Some("CONNECT"@)
}

/// The destination of a request: the value of its `Host` header where it has
/// one; else, for `CONNECT` alone, its request target.
pub open spec fn destination_of(head: RequestHead) -> Destination {
    match host_value(head.headers) {
        Some(value) => if valid_utf8(value) {
            Destination::Named(decode_utf8(value))
        } else {
            Destination::Garbled
        },
        None => if is_connect(head) && head.path is Some {
            Destination::Named(head.path->0)
        } else {
            Destination::Missing
        },
    }
}

/// The destination that an outcome of [`parse_headers`] stands for.
pub open spec fn destination_view(found: Result<Option<String>, HttpProxyError>) -> Destination {
    match found {
        Ok(Some(authority)) => Destination::Named(authority@),
        Ok(None) => Destination::Missing,
        Err(_) => Destination::Garbled,
    }
}

impl ParsedRequestHead {
    /// Whether the request asks for a tunnel: its method is `CONNECT`.
    pub fn is_tunnel(&self) -> (tunnel: bool)
        ensures
            tunnel == is_connect(self@),
    {
        match &self.method {
            Some(method) => same_text(method.as_str(), "CONNECT"),
            None => false,
        }
    }
}

/// Takes the destination authority from a request head. A `Host` header wins;
/// a value of it that is not UTF-8 is the encoding failure. Without a `Host`
/// header only a `CONNECT` request has a destination, its request target.
pub fn parse_headers(request: &ParsedRequestHead) -> (found: Result<Option<String>, HttpProxyError>)
    ensures
        destination_view(found) == destination_of(request@),
        found matches Err(error) ==> error is FromUtf8,
{
    let ghost lines = request@.headers;
    let mut i: usize = 0;
    assert(lines.skip(0) =~= lines);
    while i < request.headers.len()
        invariant
            i <= request.headers.len(),
            lines == request@.headers,
            lines.len() == request.headers@.len(),
            host_value(lines) == host_value(lines.skip(i as int)),
        decreases request.headers.len() - i,
    {
        let header = &request.headers[i];
        assert(lines.skip(i as int)[0] == header@);
        if same_text(header.name.as_str(), "Host") {
            return match string_from_utf8(header.value.clone()) {
                Ok(authority) => Ok(Some(authority)),
                Err(error) => Err(HttpProxyError::FromUtf8(error)),
            };
        }
        assert(lines.skip(i as int).drop_first() =~= lines.skip(i as int + 1));
        i += 1;
    }
    assert(lines.skip(i as int).len() == 0);
    if request.is_tunnel() {
        match &request.path {
            Some(path) => Ok(Some(path.clone())),
            None => Ok(None),
        }
    } else {
        Ok(None)
    }
}

} // verus!
