//! The decision core of a forwarding HTTP proxy with host-based site control.
//!
//! The library holds every rule of the proxy as verified code: how a site
//! list is read, which hosts a policy permits, how a destination is taken from
//! a request head, and how one connection moves from its first read to the
//! relay. Sockets, name resolution and logging stay with the caller, which
//! feeds the outcomes of that work back as events.

pub mod config;
pub mod conn;
pub mod daemon;
pub mod error;
pub mod head;
pub mod listener;
pub mod policy;
pub mod resolver;
pub mod sites;
pub mod responder;
pub mod text;
pub mod trace;
