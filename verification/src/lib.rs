//! Core of a binary, length-prefixed, full-duplex, multiplexed RPC stack.
//!
//! A connection carries an arbitrary interleaving of requests and responses,
//! correlated by a per-connection monotonically assigned sequence number.
//! This crate holds the protocol logic itself: the wire codec, the
//! sliding-window throttler, the pending-task registry with its timeout
//! sweep, the client send/receive engine, and the server reader, writer and
//! lifecycle state machines.  Socket I/O, timers and channels live outside;
//! they hand the engines plain values (bytes read, write outcomes, clock
//! readings) and perform the actions the engines decide on.

pub mod client;
pub mod dispatch;
pub mod error;
pub mod notifier;
pub mod proto;
pub mod server;
pub mod task;
pub mod throttler;
