//! The connection handler: one accepted connection from its first read to
//! the relay, as a machine of states, events and actions.
//!
//! The handler never touches a socket. It is given what happened as a
//! [`ConnEvent`] and answers with the next [`ConnState`], the [`ConnAction`]
//! to perform and, at times, a [`Note`] for the log. Whoever holds the
//! sockets performs the action and comes back with the event that tells how
//! it went.

use crate::config::SiteControl;
use crate::config::SitePolicy;
use crate::error::Failure;
use crate::error::HttpProxyError;
use crate::head::destination_of;
use crate::head::is_connect;
use crate::head::parse_headers;
use crate::head::parsed_head;
use crate::head::read_head;
use crate::head::Destination;
use crate::head::ParsedRequestHead;
use crate::head::RequestHead;
use crate::head::MAX_HEADERS;
use crate::policy::audit_of;
use crate::policy::AuditEvent;
use crate::policy::AuditRecord;
use crate::resolver::checked_host;
use crate::resolver::checked_port;
use crate::resolver::literal_view;
use crate::resolver::parse_host;
use crate::resolver::route_of;
use crate::resolver::LiteralAddr;
use crate::resolver::Route;
use crate::resolver::RoutePlan;
use crate::resolver::SocketLiteral;
use crate::responder::connect_response;
use crate::responder::response_connect;
use crate::text::text_of;
use vstd::prelude::*;
use vstd::string::*;
use vstd::utf8::*;

verus! {

/// A connection that delivers fewer bytes than this with its first read is
/// no HTTP request: `CONNECT a.jp HTTP/2` with its two line ends is the
/// shortest one there is.
pub const HTTP_MINIMUM_BYTES: usize = 23;

/// The size of the buffer for the first read.
pub const READ_BUFFER_BYTES: usize = 4096;

/// Where a connection stands.
#[derive(Debug)]
pub enum ConnState {
    /// The first read is under way.
    Reading,
    /// The request is here; the client's address is being asked for.
    Identifying { request: Vec<u8> },
    /// The destination is known; it is being read as an address literal.
    Resolving { request: Vec<u8>, tunnel: bool, authority: String, source: String },
    /// The policy let the name through; its addresses are being looked up.
    LookingUp { request: Vec<u8>, tunnel: bool },
    /// The outbound connection is being opened.
    Connecting { request: Vec<u8>, tunnel: bool },
    /// The first write is under way: the tunnel answer or the request.
    Starting,
    /// Bytes flow in both directions.
    Relaying,
    /// The connection is over.
    Closed,
}

/// The mathematical content of a [`ConnState`].
pub enum Phase {
    Reading,
    Identifying { request: Seq<u8> },
    Resolving { request: Seq<u8>, tunnel: bool, authority: Seq<char>, source: Seq<char> },
    LookingUp { request: Seq<u8>, tunnel: bool },
    Connecting { request: Seq<u8>, tunnel: bool },
    Starting,
    Relaying,
    Closed,
}

impl View for ConnState {
    type V = Phase;

    open spec fn view(&self) -> Phase {
        match self {
            ConnState::Reading => Phase::Reading,
            ConnState::Identifying { request } => Phase::Identifying { request: request@ },
            ConnState::Resolving { request, tunnel, authority, source } => Phase::Resolving {
                request: request@,
                tunnel: *tunnel,
                authority: authority@,
                source: source@,
            },
            ConnState::LookingUp { request, tunnel } => Phase::LookingUp {
                request: request@,
                tunnel: *tunnel,
            },
            ConnState::Connecting { request, tunnel } => Phase::Connecting {
                request: request@,
                tunnel: *tunnel,
            },
            ConnState::Starting => Phase::Starting,
            ConnState::Relaying => Phase::Relaying,
            ConnState::Closed => Phase::Closed,
        }
    }
}

/// What happened on a connection.
#[derive(Debug)]
pub enum ConnEvent {
    /// The first read delivered `data`.
    Read { data: Vec<u8> },
    /// The client's address, printed.
    Peer { source: String },
    /// The authority, read as an `IP:port` literal: what it holds, or `None`
    /// where it is no literal.
    Literal { literal: Option<SocketLiteral> },
    /// Name resolution ended with this many addresses; none where it failed.
    Resolved { candidates: usize },
    /// The outbound connection stands.
    Connected,
    /// The first write is through.
    Written,
    /// One direction of the relay reached the end of its stream.
    RelayEnded,
    /// The operation under way failed.
    Failed { error: std::io::Error },
}

/// The mathematical content of a [`ConnEvent`].
pub enum Signal {
    Read { data: Seq<u8> },
    Peer { source: Seq<char> },
    Literal { literal: Option<LiteralAddr> },
    Resolved { candidates: usize },
    Connected,
    Written,
    RelayEnded,
    Failed,
}

impl View for ConnEvent {
    type V = Signal;

    open spec fn view(&self) -> Signal {
        match self {
            ConnEvent::Read { data } => Signal::Read { data: data@ },
            ConnEvent::Peer { source } => Signal::Peer { source: source@ },
            ConnEvent::Literal { literal } => Signal::Literal { literal: literal_view(*literal) },
            ConnEvent::Resolved { candidates } => Signal::Resolved { candidates: *candidates },
            ConnEvent::Connected => Signal::Connected,
            ConnEvent::Written => Signal::Written,
            ConnEvent::RelayEnded => Signal::RelayEnded,
            ConnEvent::Failed { error } => Signal::Failed,
        }
    }
}

/// The address to connect to.
#[derive(Debug, Clone, Copy, PartialEq, Eq, Structural)]
pub enum Target {
    /// The address that the authority itself writes.
    Literal,
    /// The address at this place among those that name resolution found.
    Candidate { index: usize },
}

/// What is to be done next on a connection.
#[derive(Debug)]
pub enum ConnAction {
    /// Read once from the client, into a buffer of `capacity` bytes.
    Read { capacity: usize },
    /// Ask for the client's address.
    QueryPeer,
    /// Read `authority` as an `IP:port` literal.
    ReadLiteral { authority: String },
    /// Resolve `host:port`.
    Lookup { host: String, port: u16 },
    /// Open the outbound connection.
    Connect { target: Target },
    /// Write `bytes` to the client, in one piece.
    SendToClient { bytes: Vec<u8> },
    /// Write `bytes` to the target, in one piece.
    SendToTarget { bytes: Vec<u8> },
    /// Copy client to target and target to client at once, until the first
    /// of the two directions ends or fails.
    Relay,
    /// Close both sockets and end the handler with `outcome`.
    Close { outcome: Result<(), HttpProxyError> },
}

/// The mathematical content of a [`ConnAction`].
pub enum Command {
    Read { capacity: usize },
    QueryPeer,
    ReadLiteral { authority: Seq<char> },
    Lookup { host: Seq<char>, port: u16 },
    Connect { target: Target },
    SendToClient { bytes: Seq<u8> },
    SendToTarget { bytes: Seq<u8> },
    Relay,
    Close { failure: Option<Failure> },
}

/// The class of failure that an outcome stands for, if any.
pub open spec fn failure_of(outcome: Result<(), HttpProxyError>) -> Option<Failure> {
    match outcome {
        Ok(_) => None,
        Err(error) => Some(error.failure()),
    }
}

impl View for ConnAction {
    type V = Command;

    open spec fn view(&self) -> Command {
        match self {
            ConnAction::Read { capacity } => Command::Read { capacity: *capacity },
            ConnAction::QueryPeer => Command::QueryPeer,
            ConnAction::ReadLiteral { authority } => Command::ReadLiteral { authority: authority@ },
            ConnAction::Lookup { host, port } => Command::Lookup { host: host@, port: *port },
            ConnAction::Connect { target } => Command::Connect { target: *target },
            ConnAction::SendToClient { bytes } => Command::SendToClient { bytes: bytes@ },
            ConnAction::SendToTarget { bytes } => Command::SendToTarget { bytes: bytes@ },
            ConnAction::Relay => Command::Relay,
            ConnAction::Close { outcome } => Command::Close { failure: failure_of(*outcome) },
        }
    }
}

/// A line for the log.
#[derive(Debug)]
pub enum Note {
    /// The policy engine decided on a destination.
    Audit { event: AuditEvent },
    /// The request names no destination.
    NoHost { method: Option<String>, path: Option<String>, version: Option<u8>, source: String },
}

/// The mathematical content of a [`Note`].
pub enum Remark {
    Audit { record: AuditRecord },
    NoHost { method: Option<Seq<char>>, path: Option<Seq<char>>, version: Option<u8>, source: Seq<char> },
}

impl View for Note {
    type V = Remark;

    open spec fn view(&self) -> Remark {
        match self {
            Note::Audit { event } => Remark::Audit { record: event@ },
            Note::NoHost { method, path, version, source } => Remark::NoHost {
                method: text_of(*method),
                path: text_of(*path),
                version: *version,
                source: source@,
            },
        }
    }
}

/// The content of an optional note.
pub open spec fn note_view(note: Option<Note>) -> Option<Remark> {
    match note {
        Some(n) => Some(n@),
        None => None,
    }
}

/// One move of the handler.
#[derive(Debug)]
pub struct Step {
    pub next: ConnState,
    pub action: ConnAction,
    pub note: Option<Note>,
}

/// The mathematical content of a [`Step`].
pub struct Move {
    pub next: Phase,
    pub command: Command,
    pub remark: Option<Remark>,
}

impl View for Step {
    type V = Move;

    open spec fn view(&self) -> Move {
        Move { next: self.next@, command: self.action@, remark: note_view(self.note) }
    }
}

/// The move that ends a connection.
pub open spec fn halt(failure: Option<Failure>) -> Move {
    Move { next: Phase::Closed, command: Command::Close { failure }, remark: None }
}

/// The move that follows without a word for the log.
pub open spec fn go(next: Phase, command: Command) -> Move {
    Move { next, command, remark: None }
}

/// What the policy engine has recorded, as a remark.
pub open spec fn audit_remark(record: Option<AuditRecord>) -> Option<Remark> {
    match record {
        Some(r) => Some(Remark::Audit { record: r }),
        None => None,
    }
}

/// The move for a request head that has been read: without a destination
/// the connection ends with a word for the log, with one that is no text it
/// ends as an encoding failure, and else the destination goes on to be read
/// as an address literal.
pub open spec fn dispatch(head: RequestHead, request: Seq<u8>, source: Seq<char>) -> Move {
    match destination_of(head) {
        Destination::Garbled => halt(Some(Failure::Encoding)),
        Destination::Missing => Move {
            next: Phase::Closed,
            command: Command::Close { failure: None },
            remark: Some(
                Remark::NoHost { method: head.method, path: head.path, version: head.version, source },
            ),
        },
        Destination::Named(authority) => go(
            Phase::Resolving { request, tunnel: is_connect(head), authority, source },
            Command::ReadLiteral { authority },
        ),
    }
}

/// The move once the request and the client's address are known: bytes that
/// are no request head end the connection as a protocol failure.
pub open spec fn identify(request: Seq<u8>, source: Seq<char>) -> Move {
    match parsed_head(request, MAX_HEADERS) {
        None => halt(Some(Failure::Protocol)),
        Some(head) => dispatch(head, request, source),
    }
}

/// The move once it is known whether the authority is an address literal:
/// the policy engine decides, and its decision is final.
pub open spec fn resolve(
    policy: SitePolicy,
    request: Seq<u8>,
    tunnel: bool,
    authority: Seq<char>,
    source: Seq<char>,
    literal: Option<LiteralAddr>,
) -> Move {
    let remark = audit_remark(
        audit_of(policy, checked_host(authority, literal), checked_port(authority, literal), source),
    );
    match route_of(policy, authority, literal) {
        RoutePlan::Denied => Move {
            next: Phase::Closed,
            command: Command::Close { failure: None },
            remark,
        },
        RoutePlan::Direct => Move {
            next: Phase::Connecting { request, tunnel },
            command: Command::Connect { target: Target::Literal },
            remark,
        },
        RoutePlan::Lookup { host, port } => Move {
            next: Phase::LookingUp { request, tunnel },
            command: Command::Lookup { host, port },
            remark,
        },
    }
}

/// The move of the handler in `phase` when `signal` arrives. An event that
/// the phase does not wait for ends the connection without a word.
pub open spec fn conn_step(policy: SitePolicy, phase: Phase, signal: Signal) -> Move {
    match (phase, signal) {
        (_, Signal::Failed) => halt(Some(Failure::Transport)),
        (Phase::Reading, Signal::Read { data }) => if data.len() < HTTP_MINIMUM_BYTES {
            halt(None)
        } else {
            go(Phase::Identifying { request: data }, Command::QueryPeer)
        },
        (Phase::Identifying { request }, Signal::Peer { source }) => identify(request, source),
        (Phase::Resolving { request, tunnel, authority, source }, Signal::Literal { literal }) => resolve(
            policy,
            request,
            tunnel,
            authority,
            source,
            literal,
        ),
        (Phase::LookingUp { request, tunnel }, Signal::Resolved { candidates }) => if candidates == 0 {
            halt(None)
        } else {
            go(
                Phase::Connecting { request, tunnel },
                Command::Connect { target: Target::Candidate { index: 0 } },
            )
        },
        (Phase::Connecting { request, tunnel }, Signal::Connected) => if tunnel {
            go(Phase::Starting, Command::SendToClient { bytes: encode_utf8(connect_response()) })
        } else {
            go(Phase::Starting, Command::SendToTarget { bytes: request })
        },
        (Phase::Starting, Signal::Written) => go(Phase::Relaying, Command::Relay),
        _ => halt(None),
    }
}

/// The move that opens a connection: the first read.
pub open spec fn conn_start() -> Move {
    go(Phase::Reading, Command::Read { capacity: READ_BUFFER_BYTES })
}

/// The step that ends a connection.
fn finish(outcome: Result<(), HttpProxyError>) -> (step: Step)
    ensures
        step@ == halt(failure_of(outcome)),
{
    Step { next: ConnState::Closed, action: ConnAction::Close { outcome }, note: None }
}

/// The step that follows without a note.
fn proceed(next: ConnState, action: ConnAction) -> (step: Step)
    ensures
        step@ == go(next@, action@),
{
    Step { next, action, note: None }
}

/// The note that carries what the policy engine recorded.
fn audit_note(audit: Option<AuditEvent>) -> (note: Option<Note>)
    ensures
        note_view(note) == audit_remark(crate::policy::audit_view(audit)),
{
    match audit {
        Some(event) => Some(Note::Audit { event }),
        None => None,
    }
}

/// Begins the handling of an accepted connection.
pub fn accept_conn() -> (step: Step)
    ensures
        step@ == conn_start(),
{
    proceed(ConnState::Reading, ConnAction::Read { capacity: READ_BUFFER_BYTES })
}

/// The step for a request whose head has been read.
pub fn dispatch_request(head: ParsedRequestHead, request: Vec<u8>, source: String) -> (step: Step)
    ensures
        step@ == dispatch(head@, request@, source@),
{
    let authority = match parse_headers(&head) {
        Ok(Some(authority)) => authority,
        Ok(None) => {
            return Step {
                next: ConnState::Closed,
                action: ConnAction::Close { outcome: Ok(()) },
                note: Some(
                    Note::NoHost { method: head.method, path: head.path, version: head.version, source },
                ),
            };
        },
        Err(error) => {
            return finish(Err(error));
        },
    };
    let tunnel = head.is_tunnel();
    proceed(
        ConnState::Resolving { request, tunnel, authority: authority.clone(), source },
        ConnAction::ReadLiteral { authority },
    )
}

/// The step for a request whose sender is now known.
fn identify_request(request: Vec<u8>, source: String) -> (step: Step)
    ensures
        step@ == identify(request@, source@),
{
    match read_head(request.as_slice()) {
        Ok(head) => dispatch_request(head, request, source),
        Err(error) => finish(Err(error)),
    }
}

/// The step for a destination that has been read as a literal, or found to
/// be none.
fn resolve_request(
    policy: &SiteControl,
    request: Vec<u8>,
    tunnel: bool,
    authority: String,
    source: String,
    literal: Option<SocketLiteral>,
) -> (step: Step)
    ensures
        step@ == resolve(policy@, request@, tunnel, authority@, source@, literal_view(literal)),
{
    let resolved = parse_host(policy, authority.as_str(), literal, source.as_str());
    let note = audit_note(resolved.audit);
    match resolved.route {
        Route::Denied => Step {
            next: ConnState::Closed,
            action: ConnAction::Close { outcome: Ok(()) },
            note,
        },
        Route::Direct => Step {
            next: ConnState::Connecting { request, tunnel },
            action: ConnAction::Connect { target: Target::Literal },
            note,
        },
        Route::Lookup { host, port } => Step {
            next: ConnState::LookingUp { request, tunnel },
            action: ConnAction::Lookup { host, port },
            note,
        },
    }
}

/// The connection handler. Given where the connection stands and what
/// happened, it says where the connection stands now, what to do next and
/// what to put in the log.
pub fn serve_conn(policy: &SiteControl, state: ConnState, event: ConnEvent) -> (step: Step)
    ensures
        step@ == conn_step(policy@, state@, event@),
{
    match (state, event) {
        (_, ConnEvent::Failed { error }) => finish(Err(HttpProxyError::Io(error))),
        (ConnState::Reading, ConnEvent::Read { data }) => {
            if data.len() < HTTP_MINIMUM_BYTES {
                finish(Ok(()))
            } else {
                proceed(ConnState::Identifying { request: data }, ConnAction::QueryPeer)
            }
        },
        (ConnState::Identifying { request }, ConnEvent::Peer { source }) => identify_request(
            request,
            source,
        ),
        (
            ConnState::Resolving { request, tunnel, authority, source },
            ConnEvent::Literal { literal },
        ) => resolve_request(policy, request, tunnel, authority, source, literal),
        (ConnState::LookingUp { request, tunnel }, ConnEvent::Resolved { candidates }) => {
            if candidates == 0 {
                finish(Ok(()))
            } else {
                proceed(
                    ConnState::Connecting { request, tunnel },
                    ConnAction::Connect { target: Target::Candidate { index: 0 } },
                )
            }
        },
        (ConnState::Connecting { request, tunnel }, ConnEvent::Connected) => {
            if tunnel {
                proceed(ConnState::Starting, ConnAction::SendToClient { bytes: response_connect() })
            } else {
                proceed(ConnState::Starting, ConnAction::SendToTarget { bytes: request })
            }
        },
        (ConnState::Starting, ConnEvent::Written) => proceed(ConnState::Relaying, ConnAction::Relay),
        _ => finish(Ok(())),
    }
}

} // verus!
