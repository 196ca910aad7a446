//! The listener: binding the listen address and taking connections, as a
//! machine of states, events and actions.
//!
//! Each accepted connection is served on its own, apart from the listener
//! and from every other connection. How a connection ends is no event for
//! the listener: only a failure of the listen socket stops it.

use crate::config::Config;
use crate::conn::failure_of;
use crate::error::Failure;
use crate::error::HttpProxyError;
use vstd::prelude::*;
use vstd::string::*;

verus! {

/// Where the listener stands.
#[derive(Debug, Clone, Copy, PartialEq, Eq, Structural)]
pub enum Listener {
    /// The listen socket is being bound.
    Binding,
    /// The next connection is being waited for.
    Accepting,
    /// The listener is over.
    Stopped,
}

/// What happened on the listen socket.
#[derive(Debug)]
pub enum ListenerEvent {
    /// The socket is bound.
    Bound,
    /// A connection came in.
    Incoming,
    /// No connection will come any more.
    Exhausted,
    /// Binding or accepting failed.
    Failed { error: std::io::Error },
}

/// The mathematical content of a [`ListenerEvent`].
#[derive(PartialEq, Eq, Structural)]
pub enum Arrival {
    Bound,
    Incoming,
    Exhausted,
    Failed,
}

impl View for ListenerEvent {
    type V = Arrival;

    open spec fn view(&self) -> Arrival {
        match self {
            ListenerEvent::Bound => Arrival::Bound,
            ListenerEvent::Incoming => Arrival::Incoming,
            ListenerEvent::Exhausted => Arrival::Exhausted,
            ListenerEvent::Failed { error } => Arrival::Failed,
        }
    }
}

/// What the listener is to do next.
#[derive(Debug)]
pub enum ListenerAction {
    /// Bind a TCP listener to `address`.
    Bind { address: String },
    /// Wait for the next connection.
    Accept,
    /// Hand the new connection to a handler task of its own, then wait for
    /// the next one.
    Serve,
    /// Leave the accept loop with `outcome`.
    Exit { outcome: Result<(), HttpProxyError> },
}

/// The mathematical content of a [`ListenerAction`].
pub enum Order {
    Bind { address: Seq<char> },
    Accept,
    Serve,
    Exit { failure: Option<Failure> },
}

impl View for ListenerAction {
    type V = Order;

    open spec fn view(&self) -> Order {
        match self {
            ListenerAction::Bind { address } => Order::Bind { address: address@ },
            ListenerAction::Accept => Order::Accept,
            ListenerAction::Serve => Order::Serve,
            ListenerAction::Exit { outcome } => Order::Exit { failure: failure_of(*outcome) },
        }
    }
}

/// The move of the listener in `state` when `arrival` comes. A failure of
/// the listen socket stops the listener with that failure; so does, without
/// one, the end of the incoming connections and an event that the state does
/// not wait for.
pub open spec fn listener_step(state: Listener, arrival: Arrival) -> (Listener, Order) {
    match (state, arrival) {
        (_, Arrival::Failed) => (Listener::Stopped, Order::Exit { failure: Some(Failure::Transport) }),
        (Listener::Binding, Arrival::Bound) => (Listener::Accepting, Order::Accept),
        (Listener::Accepting, Arrival::Incoming) => (Listener::Accepting, Order::Serve),
        _ => (Listener::Stopped, Order::Exit { failure: None }),
    }
}

/// Starts the listener: it binds the address of the configuration.
pub fn listen(config: &Config) -> (start: (Listener, ListenerAction))
    ensures
        start.0 == Listener::Binding,
        start.1@ == (Order::Bind { address: config@.listen }),
{
    (Listener::Binding, ListenerAction::Bind { address: config.listen.clone() })
}

/// The accept loop, one event at a time.
pub fn run(state: Listener, event: ListenerEvent) -> (step: (Listener, ListenerAction))
    ensures
        (step.0, step.1@) == listener_step(state, event@),
{
    match (state, event) {
        (_, ListenerEvent::Failed { error }) => (
            Listener::Stopped,
            ListenerAction::Exit { outcome: Err(HttpProxyError::Io(error)) },
        ),
        (Listener::Binding, ListenerEvent::Bound) => (Listener::Accepting, ListenerAction::Accept),
        (Listener::Accepting, ListenerEvent::Incoming) => (Listener::Accepting, ListenerAction::Serve),
        _ => (Listener::Stopped, ListenerAction::Exit { outcome: Ok(()) }),
    }
}

/// Whether the way a connection ended goes to the error log: a failure
/// does, unless it is that the request head did not parse.
pub fn reports(outcome: &Result<(), HttpProxyError>) -> (reported: bool)
    ensures
        reported == (failure_of(*outcome) matches Some(failure) && failure != Failure::Protocol),
{
    match outcome {
        Ok(_) => false,
        Err(error) => error.is_reported(),
    }
}

/// While it accepts, the listener goes on accepting whatever number of
/// connections come in; it stops on a failure of its socket, and with that
/// failure.
pub proof fn listener_stops_on_failure_only(arrival: Arrival)
    ensures
        arrival == Arrival::Incoming ==> listener_step(Listener::Accepting, arrival) == (
            Listener::Accepting,
            Order::Serve,
        ),
        arrival == Arrival::Failed ==> listener_step(Listener::Accepting, arrival) == (
            Listener::Stopped,
            Order::Exit { failure: Some(Failure::Transport) },
        ),
        listener_step(Listener::Accepting, arrival).1 is Exit ==> listener_step(
            Listener::Accepting,
            arrival,
        ).0 == Listener::Stopped && arrival != Arrival::Incoming,
{
}

} // verus!
