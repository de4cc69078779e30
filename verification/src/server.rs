//! The server loop and forwarding relay, as decisions over plain values.
//!
//! The loop itself waits on sockets and signals, which this library does
//! not do; it feeds each observed event to [`server_step`] and performs
//! the action it is handed back. Decoding an inbound datagram is purely
//! observational: the action for a datagram carries the raw bytes
//! verbatim, whatever its decode outcome was. One relay attempt is made
//! per inbound datagram, bounded by [`RELAY_TIMEOUT_SECS`]; its outcome is
//! fed to [`reply_for`], which hands back the raw reply to send, or
//! nothing when the attempt failed and the client is left to its own
//! timeout.

use vstd::prelude::*;
use vstd::slice::slice_subrange;
use vstd::slice::slice_to_vec;

verus! {

/// Seconds the relay waits for the upstream reply before giving up.
pub const RELAY_TIMEOUT_SECS: u64 = 5;

/// Bytes of the receive buffer: one datagram is read up to this length.
pub const MAX_DATAGRAM_LEN: usize = 512;

/// The server loop's state: it runs until a shutdown signal is observed,
/// and `ShuttingDown` is terminal.
#[derive(Debug, Clone, Copy, PartialEq, Eq, Structural)]
pub enum ServerState {
    Running,
    ShuttingDown,
}

/// One event observed by the server loop between iterations.
#[derive(Debug, Clone, PartialEq, Eq)]
pub enum ServerEvent {
    /// The external shutdown signal fired.
    ShutdownRequested,
    /// One inbound datagram arrived, carrying its raw bytes.
    Datagram(Vec<u8>),
    /// Receiving from the listening socket failed.
    ReceiveFailed,
}

/// The action the loop performs after a step.
#[derive(Debug, Clone, PartialEq, Eq)]
pub enum ServerAction {
    /// Exit the loop.
    Stop,
    /// Relay these bytes to the upstream resolver, verbatim.
    Forward(Vec<u8>),
    /// Log and continue with the next iteration.
    Ignore,
}

/// The ways one relay attempt can fail; each is logged and costs only
/// that one request its reply.
#[derive(Debug, Clone, Copy, PartialEq, Eq, Structural)]
pub enum RelayError {
    /// Sending the query bytes upstream failed.
    SendFailed,
    /// Receiving the upstream reply failed.
    ReceiveFailed,
    /// No reply arrived within [`RELAY_TIMEOUT_SECS`].
    TimedOut,
}

/// Advances the server loop by one observed event.
///
/// A shutdown signal moves the loop to `ShuttingDown` and stops it; in
/// `Running`, an inbound datagram is forwarded with exactly its raw bytes
/// — decoding never blocks or alters forwarding — and a receive failure
/// is ignored. `ShuttingDown` is terminal: every further event stops the
/// loop.
pub fn server_step(state: ServerState, event: ServerEvent) -> (r: (ServerState, ServerAction))
    ensures
        state is ShuttingDown ==> r.0 is ShuttingDown && r.1 is Stop,
        state is Running && event is ShutdownRequested ==> r.0 is ShuttingDown && r.1 is Stop,
        state is Running ==> (event matches ServerEvent::Datagram(bytes) ==> (r.0 is Running && (
        r.1 matches ServerAction::Forward(forwarded) && forwarded@ == bytes@))),
        state is Running && event is ReceiveFailed ==> r.0 is Running && r.1 is Ignore,
{
    match state {
        ServerState::ShuttingDown => (ServerState::ShuttingDown, ServerAction::Stop),
        ServerState::Running => match event {
            ServerEvent::ShutdownRequested => (ServerState::ShuttingDown, ServerAction::Stop),
            ServerEvent::Datagram(bytes) => (ServerState::Running, ServerAction::Forward(bytes)),
            ServerEvent::ReceiveFailed => (ServerState::Running, ServerAction::Ignore),
        },
    }
}

/// The reply owed to the client for one relay outcome: on success exactly
/// the bytes the upstream sent back, on any failure nothing — the client
/// never receives a substitute reply.
pub fn reply_for(outcome: Result<Vec<u8>, RelayError>) -> (r: Option<Vec<u8>>)
    ensures
        outcome matches Ok(response) ==> r matches Some(reply) && reply@ == response@,
        outcome is Err ==> r is None,
{
    match outcome {
        Ok(response) => Some(response),
        Err(_) => None,
    }
}

/// The upstream reply as the relay returns it: exactly the `received`
/// bytes that arrived, not the full receive buffer.
pub fn relay_reply(buffer: &[u8], received: usize) -> (r: Vec<u8>)
    requires
        received <= buffer@.len(),
    ensures
        r@ == buffer@.subrange(0, received as int),
{
    slice_to_vec(slice_subrange(buffer, 0, received))
}

} // verus!
