//! What holds of every course that a connection can take: the handler's
//! moves, one after the other, whatever events arrive.

use crate::config::SitePolicy;
use crate::conn::conn_step;
use crate::conn::halt;
use crate::conn::dispatch;
use crate::conn::Remark;
use crate::conn::Command;
use crate::conn::Move;
use crate::conn::Phase;
use crate::conn::Signal;
use crate::conn::HTTP_MINIMUM_BYTES;
use crate::head::host_value;
use crate::head::is_connect;
use crate::head::parsed_head;
use crate::head::RequestHead;
use crate::head::MAX_HEADERS;
use crate::policy::permits;
use crate::resolver::checked_host;
use crate::responder::connect_response;
use vstd::prelude::*;
use vstd::utf8::*;

verus! {

/// How far a connection has come: each phase counts one more than the one
/// before it.
pub open spec fn rank(phase: Phase) -> nat {
    match phase {
        Phase::Reading => 0,
        Phase::Identifying { .. } => 1,
        Phase::Resolving { .. } => 2,
        Phase::LookingUp { .. } => 3,
        Phase::Connecting { .. } => 4,
        Phase::Starting => 5,
        Phase::Relaying => 6,
        Phase::Closed => 7,
    }
}

/// The phase of a connection that began in `Reading`, after the first `k`
/// of `signals` have arrived.
pub open spec fn phase_at(policy: SitePolicy, signals: Seq<Signal>, k: int) -> Phase
    decreases k,
{
    if k <= 0 {
        Phase::Reading
    } else {
        conn_step(policy, phase_at(policy, signals, k - 1), signals[k - 1]).next
    }
}

/// The move that the handler makes when the signal at place `k` arrives.
pub open spec fn move_at(policy: SitePolicy, signals: Seq<Signal>, k: int) -> Move {
    conn_step(policy, phase_at(policy, signals, k), signals[k])
}

/// A command that reaches out towards the destination: a lookup, a
/// connection, a first write or the relay.
pub open spec fn outbound(command: Command) -> bool {
    command is Lookup || command is Connect || command is SendToClient || command is SendToTarget
        || command is Relay
}

/// The policy engine is asked at place `k` and lets the destination through.
pub open spec fn permitted_at(policy: SitePolicy, signals: Seq<Signal>, k: int) -> bool {
    &&& phase_at(policy, signals, k) matches Phase::Resolving { authority, .. }
    &&& signals[k] matches Signal::Literal { literal }
    &&& permits(policy, checked_host(authority, literal))
}

/// Every move takes a connection forward or ends it.
pub proof fn step_moves_forward(policy: SitePolicy, phase: Phase, signal: Signal)
    ensures
        conn_step(policy, phase, signal).next is Closed || rank(conn_step(policy, phase, signal).next)
            == rank(phase) + 1 || (phase is Resolving && conn_step(policy, phase, signal).next
            is Connecting),
{
}

/// A closed connection stays closed: whatever arrives, nothing is done and
/// nothing is logged.
pub proof fn closed_stays_closed(policy: SitePolicy, signal: Signal)
    ensures
        conn_step(policy, Phase::Closed, signal).next is Closed,
        conn_step(policy, Phase::Closed, signal).command is Close,
        conn_step(policy, Phase::Closed, signal).remark is None,
{
}

/// A failure of the operation under way ends the connection as a transport
/// failure, in every phase.
pub proof fn failure_closes(policy: SitePolicy, phase: Phase)
    ensures
        conn_step(policy, phase, Signal::Failed) == halt(Some(crate::error::Failure::Transport)),
{
}

/// A first read of fewer than [`HTTP_MINIMUM_BYTES`] bytes ends the
/// connection at once, without a failure and without a word.
pub proof fn short_read_is_dropped(policy: SitePolicy, data: Seq<u8>)
    requires
        data.len() < HTTP_MINIMUM_BYTES,
    ensures
        conn_step(policy, Phase::Reading, Signal::Read { data }) == halt(None),
{
}

/// A request without a `Host` header that is no `CONNECT` is dropped: the
/// connection ends without a failure, with a word for the log, and its
/// destination is never looked for.
pub proof fn request_without_host_is_dropped(head: RequestHead, request: Seq<u8>, source: Seq<char>)
    requires
        host_value(head.headers) is None,
        !is_connect(head),
    ensures
        dispatch(head, request, source).next is Closed,
        dispatch(head, request, source).command == (Command::Close { failure: None }),
        dispatch(head, request, source).remark == Some(
            Remark::NoHost { method: head.method, path: head.path, version: head.version, source },
        ),
{
}

/// Once the outbound connection stands, a tunnel is answered to the client
/// with the one fixed answer, and any other request is passed on to the
/// target as it was read. Either way the relay comes next.
pub proof fn connected_request_is_started(policy: SitePolicy, request: Seq<u8>, tunnel: bool)
    ensures
        tunnel ==> conn_step(policy, Phase::Connecting { request, tunnel }, Signal::Connected).command
            == (Command::SendToClient { bytes: encode_utf8(connect_response()) }),
        !tunnel ==> conn_step(policy, Phase::Connecting { request, tunnel }, Signal::Connected).command
            == (Command::SendToTarget { bytes: request }),
        conn_step(policy, Phase::Connecting { request, tunnel }, Signal::Connected).next is Starting,
        conn_step(policy, Phase::Starting, Signal::Written).command is Relay,
{
}

/// Once the relay runs, whatever comes next ends the connection: the end of
/// either direction, a failure, anything else. The one command is to close.
pub proof fn relay_end_closes(policy: SitePolicy, signal: Signal)
    ensures
        conn_step(policy, Phase::Relaying, signal).next is Closed,
        conn_step(policy, Phase::Relaying, signal).command is Close,
{
}

/// Along a course no phase comes back: later in the course the connection
/// has come further, or it is closed.
pub proof fn phases_do_not_repeat(policy: SitePolicy, signals: Seq<Signal>, j: int, k: int)
    requires
        0 <= j < k,
    ensures
        phase_at(policy, signals, k) is Closed || rank(phase_at(policy, signals, j)) < rank(
            phase_at(policy, signals, k),
        ),
    decreases k - j,
{
    step_moves_forward(policy, phase_at(policy, signals, k - 1), signals[k - 1]);
    if j < k - 1 {
        phases_do_not_repeat(policy, signals, j, k - 1);
    }
}

/// A connection is over after seven events at the most.
pub proof fn course_ends(policy: SitePolicy, signals: Seq<Signal>, k: int)
    requires
        0 <= k,
    ensures
        phase_at(policy, signals, k) is Closed || rank(phase_at(policy, signals, k)) >= k,
        k >= 7 ==> phase_at(policy, signals, k) is Closed,
    decreases k,
{
    if k > 0 {
        course_ends(policy, signals, k - 1);
        step_moves_forward(policy, phase_at(policy, signals, k - 1), signals[k - 1]);
    }
}

/// After a short first read no move of the course does anything but close:
/// no address is asked for, no policy is consulted, nothing is resolved or
/// connected.
pub proof fn short_read_ends_the_course(policy: SitePolicy, signals: Seq<Signal>, k: int)
    requires
        0 <= k,
        signals.len() > 0,
        signals[0] matches Signal::Read { data } && data.len() < HTTP_MINIMUM_BYTES,
    ensures
        move_at(policy, signals, k).command is Close,
        move_at(policy, signals, k).remark is None,
        k >= 1 ==> phase_at(policy, signals, k) is Closed,
    decreases k,
{
    if k > 0 {
        short_read_ends_the_course(policy, signals, k - 1);
    }
}

/// While a connection is past the policy engine and not yet closed, the
/// engine has let its destination through at some earlier place.
pub proof fn cleared_before(policy: SitePolicy, signals: Seq<Signal>, k: int)
    requires
        0 <= k,
        3 <= rank(phase_at(policy, signals, k)) <= 6,
    ensures
        exists|j: int| 0 <= j < k && permitted_at(policy, signals, j),
    decreases k,
{
    if k > 0 {
        let before = phase_at(policy, signals, k - 1);
        if 3 <= rank(before) <= 6 {
            cleared_before(policy, signals, k - 1);
            let j = choose|j: int| 0 <= j < k - 1 && permitted_at(policy, signals, j);
            assert(permitted_at(policy, signals, j));
        } else if before is Resolving {
            assert(permitted_at(policy, signals, k - 1));
        }
    }
}

/// Nothing reaches out towards a destination before the policy engine has
/// let it through: each lookup, connection, first write and relay of a course
/// has a place at or before it where the engine was asked and permitted.
pub proof fn no_outbound_without_permit(policy: SitePolicy, signals: Seq<Signal>, k: int)
    requires
        0 <= k,
        outbound(move_at(policy, signals, k).command),
    ensures
        exists|j: int| 0 <= j <= k && permitted_at(policy, signals, j),
{
    let phase = phase_at(policy, signals, k);
    if phase is Resolving {
        assert(permitted_at(policy, signals, k));
    } else {
        cleared_before(policy, signals, k);
        let j = choose|j: int| 0 <= j < k && permitted_at(policy, signals, j);
        assert(permitted_at(policy, signals, j));
    }
}

/// The policy engine is asked once in a course at the most: its decision is
/// final.
pub proof fn policy_is_asked_once(policy: SitePolicy, signals: Seq<Signal>, j: int, k: int)
    requires
        0 <= j < k,
        phase_at(policy, signals, j) is Resolving,
    ensures
        !(phase_at(policy, signals, k) is Resolving),
        !(move_at(policy, signals, k).remark matches Some(r) && r is Audit),
{
    phases_do_not_repeat(policy, signals, j, k);
}

/// What a connection carries with it of the request that its first read
/// delivered.
pub open spec fn carries(phase: Phase, data: Seq<u8>) -> bool {
    match phase {
        Phase::Reading => false,
        Phase::Identifying { request } => request == data,
        Phase::Resolving { request, tunnel, .. } => request == data && tunnel == requests_tunnel(
            data,
        ),
        Phase::LookingUp { request, tunnel } => request == data && tunnel == requests_tunnel(data),
        Phase::Connecting { request, tunnel } => request == data && tunnel == requests_tunnel(data),
        _ => true,
    }
}

/// Whether `data` holds a request head whose method is `CONNECT`.
pub open spec fn requests_tunnel(data: Seq<u8>) -> bool {
    parsed_head(data, MAX_HEADERS) matches Some(head) && is_connect(head)
}

/// The request stays with the connection as it was read, together with the
/// answer to whether it asks for a tunnel.
pub proof fn request_is_carried(policy: SitePolicy, signals: Seq<Signal>, data: Seq<u8>, k: int)
    requires
        1 <= k,
        signals.len() > 0,
        signals[0] == (Signal::Read { data }),
    ensures
        carries(phase_at(policy, signals, k), data),
    decreases k,
{
    if k > 1 {
        request_is_carried(policy, signals, data, k - 1);
    }
}

/// The first write of a course is fixed by the request. To the client goes
/// the tunnel answer, and only for a `CONNECT` request; to the target goes
/// the request as it was read, byte for byte, and only where it is no
/// `CONNECT` request.
pub proof fn first_write_is_fixed(policy: SitePolicy, signals: Seq<Signal>, data: Seq<u8>, k: int)
    requires
        0 <= k,
        signals.len() > 0,
        signals[0] == (Signal::Read { data }),
    ensures
        move_at(policy, signals, k).command matches Command::SendToClient { bytes } ==> bytes
            == encode_utf8(connect_response()) && requests_tunnel(data),
        move_at(policy, signals, k).command matches Command::SendToTarget { bytes } ==> bytes == data
            && !requests_tunnel(data),
{
    if k >= 1 {
        request_is_carried(policy, signals, data, k);
    }
}

/// The relay begins right after the first write, and after nothing else.
pub proof fn relay_follows_first_write(policy: SitePolicy, signals: Seq<Signal>, k: int)
    requires
        0 <= k,
        move_at(policy, signals, k).command is Relay,
    ensures
        k >= 1,
        move_at(policy, signals, k - 1).command is SendToClient || move_at(
            policy,
            signals,
            k - 1,
        ).command is SendToTarget,
{
}

/// A course holds one first write at the most: the tunnel answer is never
/// written twice, nor the request forwarded twice, nor one after the other.
pub proof fn first_write_happens_once(policy: SitePolicy, signals: Seq<Signal>, j: int, k: int)
    requires
        0 <= j < k,
        move_at(policy, signals, j).command is SendToClient || move_at(policy, signals, j).command
            is SendToTarget,
    ensures
        !(move_at(policy, signals, k).command is SendToClient),
        !(move_at(policy, signals, k).command is SendToTarget),
{
    phases_do_not_repeat(policy, signals, j, k);
}

} // verus!
