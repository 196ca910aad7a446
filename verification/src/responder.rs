//! The protocol responder: the one answer that the proxy itself writes.

use vstd::prelude::*;
use vstd::string::*;
use vstd::utf8::*;

verus! {

/// The product name that the proxy gives in its `Proxy` header.
pub const PRODUCT: &'static str = "SuperHacker HTTP Proxy";

/// The version that the proxy gives in its `Proxy` header.
pub const VERSION: &'static str = "0.1.0";

/// The status line that answers a `CONNECT` request.
pub const TUNNEL_ESTABLISHED: &'static str = "HTTP/1.1 200 Tunnel established";

/// The end of a line on the wire.
pub const NEW_LINE: &'static str = "\r\n";

/// The answer to a `CONNECT` request: the status line, the `Proxy` header
/// with product name and version, and the empty line that ends the head.
/// There is no body.
pub open spec fn connect_response() -> Seq<char> {
    TUNNEL_ESTABLISHED@ + NEW_LINE@ + "Proxy: "@ + PRODUCT@ + "/"@ + VERSION@ + NEW_LINE@ + NEW_LINE@
}

/// The bytes to write to the client once its tunnel stands.
pub fn response_connect() -> (bytes: Vec<u8>)
    ensures
        bytes@ == encode_utf8(connect_response()),
{
    let mut response = String::from_str(TUNNEL_ESTABLISHED);
    response.append(NEW_LINE);
    response.append("Proxy: ");
    response.append(PRODUCT);
    response.append("/");
    response.append(VERSION);
    response.append(NEW_LINE);
    response.append(NEW_LINE);
    response.as_str().as_bytes_vec()
}

/// The answer to a `CONNECT` request, written out.
pub proof fn connect_response_text()
    ensures
        connect_response()
            == "HTTP/1.1 200 Tunnel established\r\nProxy: SuperHacker HTTP Proxy/0.1.0\r\n\r\n"@,
{
    reveal_strlit("HTTP/1.1 200 Tunnel established");
    reveal_strlit("\r\n");
    reveal_strlit("Proxy: ");
    reveal_strlit("SuperHacker HTTP Proxy");
    reveal_strlit("/");
    reveal_strlit("0.1.0");
    reveal_strlit("HTTP/1.1 200 Tunnel established\r\nProxy: SuperHacker HTTP Proxy/0.1.0\r\n\r\n");
    assert(connect_response()
        =~= "HTTP/1.1 200 Tunnel established\r\nProxy: SuperHacker HTTP Proxy/0.1.0\r\n\r\n"@);
}

} // verus!
