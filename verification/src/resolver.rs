//! The host resolver: from the authority of a request to the way its
//! destination is reached, with the policy engine asked on the way.

use crate::config::SiteControl;
use crate::config::SitePolicy;
use crate::policy::audit_of;
use crate::policy::audit_view;
use crate::policy::check_valid;
use crate::policy::permits;
use crate::policy::AuditEvent;
use crate::text::chars_of;
use crate::text::find_char;
use crate::text::first_index;
use crate::text::string_of;
use vstd::prelude::*;
use vstd::string::*;

verus! {

/// The port of an authority that names none, or none that can be read.
pub const DEFAULT_PORT: u16 = 80;

/// The value of a decimal digit.
pub open spec fn digit_value(c: char) -> nat {
    (c as u32 - '0' as u32) as nat
}

/// Whether `c` is one of the digits `0` to `9`.
pub open spec fn is_digit(c: char) -> bool {
    '0' <= c <= '9'
}

/// Whether `text` holds decimal digits only.
pub open spec fn all_digits(text: Seq<char>) -> bool {
    forall|i: int| 0 <= i < text.len() ==> is_digit(#[trigger] text[i])
}

/// The number that a string of decimal digits writes.
pub open spec fn decimal_value(digits: Seq<char>) -> nat
    decreases digits.len(),
{
    if digits.len() == 0 {
        0
    } else {
        decimal_value(digits.drop_last()) * 10 + digit_value(digits.last())
    }
}

/// The port that `digits` write: decimal digits only, at least one, with a
/// value that fits a port.
pub open spec fn unsigned_port(digits: Seq<char>) -> Option<u16> {
    if digits.len() > 0 && all_digits(digits) && decimal_value(digits) <= u16::MAX {
        Some(decimal_value(digits) as u16)
    } else {
        None
    }
}

/// The port that `text` writes: as [`unsigned_port`], after an optional `+`.
pub open spec fn port_number(text: Seq<char>) -> Option<u16> {
    if text.len() > 0 && text[0] == '+' {
        unsigned_port(text.drop_first())
    } else {
        unsigned_port(text)
    }
}

/// The number of characters of `authority` before its first `:`; its whole
/// length where it has none.
pub open spec fn name_len(authority: Seq<char>) -> int {
    first_index(authority, ':')
}

/// The host of an authority: what stands before its first `:`.
pub open spec fn name_of(authority: Seq<char>) -> Seq<char> {
    authority.take(name_len(authority))
}

/// The port of an authority: the number after its first `:`, and
/// [`DEFAULT_PORT`] where there is no `:` or no number can be read there.
pub open spec fn port_of(authority: Seq<char>) -> u16 {
    let n = name_len(authority);
    if n < authority.len() {
        match port_number(authority.skip(n + 1)) {
            Some(port) => port,
            None => DEFAULT_PORT,
        }
    } else {
        DEFAULT_PORT
    }
}

/// A longer string of digits writes no smaller a number than its beginning.
pub proof fn decimal_value_grows(digits: Seq<char>, i: int)
    requires
        0 <= i <= digits.len(),
    ensures
        decimal_value(digits.take(i)) <= decimal_value(digits),
    decreases digits.len() - i,
{
    if i == digits.len() {
        assert(digits.take(i) =~= digits);
    } else {
        decimal_value_grows(digits, i + 1);
        assert(digits.take(i + 1).drop_last() =~= digits.take(i));
    }
}

/// Reads the characters of `text` from position `from` on as a port.
pub fn parse_port(text: &Vec<char>, from: usize) -> (port: Option<u16>)
    requires
        from <= text@.len(),
    ensures
        port == port_number(text@.skip(from as int)),
{
    let ghost whole = text@.skip(from as int);
    let mut start = from;
    if start < text.len() && text[start] == '+' {
        start += 1;
    }
    let ghost digits = text@.skip(start as int);
    assert(digits =~= if whole.len() > 0 && whole[0] == '+' {
        whole.drop_first()
    } else {
        whole
    });
    assert(port_number(whole) == unsigned_port(digits));
    if start == text.len() {
        return None;
    }
    let mut value: u32 = 0;
    let mut i: usize = start;
    assert(digits.take(0) =~= Seq::<char>::empty());
    while i < text.len()
        invariant
            start <= i <= text@.len(),
            digits == text@.skip(start as int),
            port_number(text@.skip(from as int)) == unsigned_port(digits),
            all_digits(digits.take(i - start)),
            value == decimal_value(digits.take(i - start)),
            value <= u16::MAX,
        decreases text.len() - i,
    {
        let c = text[i];
        assert(digits[i - start] == c);
        if c < '0' || c > '9' {
            assert(!is_digit(digits[i - start]));
            return None;
        }
        let ghost longer = digits.take(i - start + 1);
        assert(longer.drop_last() =~= digits.take(i - start));
        assert(longer.last() == c);
        assert forall|j: int| 0 <= j < longer.len() implies is_digit(#[trigger] longer[j]) by {
            if j < i - start {
                assert(longer[j] == digits.take(i - start)[j]);
            }
        }
        let digit = c as u32 - '0' as u32;
        value = value * 10 + digit;
        if value > 65535 {
            proof {
                decimal_value_grows(digits, i - start + 1);
            }
            return None;
        }
        i += 1;
    }
    assert(digits.take(i - start) =~= digits);
    Some(value as u16)
}

/// An `IP:port` literal: the address as it is printed, and the port.
#[derive(Debug)]
pub struct SocketLiteral {
    pub ip: String,
    pub port: u16,
}

/// The mathematical content of a [`SocketLiteral`].
pub struct LiteralAddr {
    pub ip: Seq<char>,
    pub port: u16,
}

impl View for SocketLiteral {
    type V = LiteralAddr;

    open spec fn view(&self) -> LiteralAddr {
        LiteralAddr { ip: self.ip@, port: self.port }
    }
}

/// The content of an optional literal.
pub open spec fn literal_view(literal: Option<SocketLiteral>) -> Option<LiteralAddr> {
    match literal {
        Some(addr) => Some(addr@),
        None => None,
    }
}

/// How a destination is reached.
#[derive(Debug)]
pub enum Route {
    /// The policy refuses the destination: it is not reached at all.
    Denied,
    /// The authority is an address literal: connect to it as it stands.
    Direct,
    /// Resolve `host:port` and connect to the first address found.
    Lookup { host: String, port: u16 },
}

/// The mathematical content of a [`Route`].
pub enum RoutePlan {
    Denied,
    Direct,
    Lookup { host: Seq<char>, port: u16 },
}

impl View for Route {
    type V = RoutePlan;

    open spec fn view(&self) -> RoutePlan {
        match self {
            Route::Denied => RoutePlan::Denied,
            Route::Direct => RoutePlan::Direct,
            Route::Lookup { host, port } => RoutePlan::Lookup { host: host@, port: *port },
        }
    }
}

/// The host that the policy engine is asked about: the printed address of a
/// literal, else the name of the authority.
pub open spec fn checked_host(authority: Seq<char>, literal: Option<LiteralAddr>) -> Seq<char> {
    match literal {
        Some(addr) => addr.ip,
        None => name_of(authority),
    }
}

/// The port that goes with [`checked_host`].
pub open spec fn checked_port(authority: Seq<char>, literal: Option<LiteralAddr>) -> u16 {
    match literal {
        Some(addr) => addr.port,
        None => port_of(authority),
    }
}

/// The way to the destination that `authority` names, where `literal` says
/// what the authority holds when it is read as an `IP:port` literal.
pub open spec fn route_of(policy: SitePolicy, authority: Seq<char>, literal: Option<LiteralAddr>) -> RoutePlan {
    if !permits(policy, checked_host(authority, literal)) {
        RoutePlan::Denied
    } else if literal is Some {
        RoutePlan::Direct
    } else {
        RoutePlan::Lookup { host: name_of(authority), port: port_of(authority) }
    }
}

/// The result of [`parse_host`]: the way to the destination, and what the
/// policy engine recorded.
#[derive(Debug)]
pub struct Resolved {
    pub route: Route,
    pub audit: Option<AuditEvent>,
}

/// Splits an authority at its first `:` into host and port.
pub fn split_authority(authority: &str) -> (parts: (String, u16))
    ensures
        parts.0@ == name_of(authority@),
        parts.1 == port_of(authority@),
{
    let chars = chars_of(authority);
    let k = find_char(&chars, 0, ':');
    assert(chars@.skip(0) =~= chars@);
    let host = string_of(&chars, 0, k);
    let port = if k < chars.len() {
        match parse_port(&chars, k + 1) {
            Some(port) => port,
            None => DEFAULT_PORT,
        }
    } else {
        DEFAULT_PORT
    };
    (host, port)
}

/// The host resolver. `literal` holds the address and port of `host` where
/// it reads as an `IP:port` literal. The policy engine is asked once, about
/// the printed address of a literal or else about the name before the first
/// `:`. A refused destination has no route; a permitted literal is its own
/// address; a permitted name is to be resolved with its port.
pub fn parse_host(policy: &SiteControl, host: &str, literal: Option<SocketLiteral>, from: &str) -> (resolved:
    Resolved)
    ensures
        resolved.route@ == route_of(policy@, host@, literal_view(literal)),
        audit_view(resolved.audit) == audit_of(
            policy@,
            checked_host(host@, literal_view(literal)),
            checked_port(host@, literal_view(literal)),
            from@,
        ),
{
    match literal {
        Some(addr) => {
            let verdict = check_valid(policy, addr.ip.as_str(), addr.port, from);
            let route = if verdict.permit {
                Route::Direct
            } else {
                Route::Denied
            };
            Resolved { route, audit: verdict.audit }
        },
        None => {
            let (name, port) = split_authority(host);
            let verdict = check_valid(policy, name.as_str(), port, from);
            let route = if verdict.permit {
                Route::Lookup { host: name, port }
            } else {
                Route::Denied
            };
            Resolved { route, audit: verdict.audit }
        },
    }
}

} // verus!
