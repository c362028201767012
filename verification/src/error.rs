//! The error taxonomy of the RPC core.

use vstd::prelude::*;

verus! {

/// Outcome of a failed task or connection operation.
///
/// - `Timeout`: the task exceeded its deadline in the pending registry.
/// - `Closed`: the connection was closed; no I/O was attempted.
/// - `Comm`: socket I/O failed (read, write, flush, or a malformed frame
///   header).
/// - `Decode`: a frame parsed but its contents were malformed (bad magic,
///   invalid error-text UTF-8, missing blob buffer on the task).
/// - `Method`: the action did not map to any known handler.
/// - `Posix(errno)`: the remote returned a numeric errno (response flag 1).
/// - `Remote(text)`: the remote returned an error string (response flag 2).
#[derive(Debug, Clone, PartialEq, Eq)]
pub enum RpcError {
    Timeout,
    Closed,
    Comm,
    Decode,
    Method,
    Posix(u32),
    Remote(String),
}

} // verus!
