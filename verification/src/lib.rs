//! Coordination core for a reverse-direction TCP tunnel.
//!
//! An "inside" node that cannot dial out exposes a client-facing listener and
//! a control/data listener.  An "outside" node with network reachability dials
//! the control connection once, keeps it alive with heartbeats, and answers
//! each signal with a fresh data connection that is paired, in FIFO order,
//! with the waiting local client.  This crate holds the verified logic of
//! that protocol: the wire encodings, the heartbeat liveness rule, the
//! bounded queues, the pairing state machines on both nodes, the relay byte
//! model, and the HTTP egress request rewriting.  The sockets themselves are
//! driven by an unverified front end that consults these functions for every
//! decision.

pub mod control;
pub mod http;
pub mod inside;
pub mod outside;
pub mod queue;
pub mod relay;
