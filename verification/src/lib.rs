//! Calling conventions for RPCs over one multiplexed, authenticated connection.
//!
//! A call is made under one of three conventions: `sync` and `async` expect
//! exactly one reply, `source` expects any number of replies followed by an
//! explicit end of stream. This crate holds the decisions of that layer as
//! verified code: how reply traffic is classified, how one invocation moves
//! from its request to its outcome, and what a harness that drives an
//! invocation has to do with that outcome. Sockets, the handshake and the
//! multiplexer itself are the caller's business; they reach this crate as
//! plain values.

pub mod convention;
pub mod envelope;
pub mod invocation;
pub mod dispatcher;
pub mod harness;
pub mod setup;
