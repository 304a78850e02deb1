//! Connection lifecycle as an explicit finite-state machine.
//!
//! One logical connection exists per session.  Any connect failure,
//! unexpected close or disconnect moves it to `Reconnecting` — retried
//! with the same configuration, never fatal to the process — unless a
//! shutdown was requested, which is absorbing.  What a loss of the
//! connection does to the session's data (outbound preserved, partial
//! dropped) is the device façade's contract.

use vstd::prelude::*;

verus! {

/// State of the session's one logical connection.
#[derive(Clone, Copy, PartialEq, Eq, Structural, Debug)]
pub enum ConnState {
    Connecting,
    Open,
    Reconnecting,
    Closing,
}

/// Lifecycle event reported by the transport.
#[derive(Clone, Copy, PartialEq, Eq, Structural, Debug)]
pub enum ConnEvent {
    /// The connection was established.
    Connected,
    /// An attempt to establish it failed.
    ConnectFailed,
    /// The peer closed the connection.
    Closed,
    /// The connection dropped without a close.
    Disconnected,
    /// The session is being torn down.
    ShutdownRequested,
}

/// Whether the event means the wire was lost: these drop the partial
/// message under assembly, while outbound items are preserved.
pub open spec fn is_loss(e: ConnEvent) -> bool {
    match e {
        ConnEvent::ConnectFailed | ConnEvent::Closed | ConnEvent::Disconnected => true,
        ConnEvent::Connected | ConnEvent::ShutdownRequested => false,
    }
}

/// The state after an event: a successful connect opens the connection,
/// any loss leads to reconnecting, and a requested shutdown is final.
pub open spec fn next_state(s: ConnState, e: ConnEvent) -> ConnState {
    if s is Closing {
        ConnState::Closing
    } else {
        match e {
            ConnEvent::Connected => ConnState::Open,
            ConnEvent::ConnectFailed | ConnEvent::Closed | ConnEvent::Disconnected
                => ConnState::Reconnecting,
            ConnEvent::ShutdownRequested => ConnState::Closing,
        }
    }
}

/// Apply one lifecycle event to a connection state.
pub fn conn_transition(s: ConnState, e: ConnEvent) -> (r: ConnState)
    ensures
        r == next_state(s, e),
{
    if let ConnState::Closing = s {
        ConnState::Closing
    } else {
        match e {
            ConnEvent::Connected => ConnState::Open,
            ConnEvent::ConnectFailed => ConnState::Reconnecting,
            ConnEvent::Closed => ConnState::Reconnecting,
            ConnEvent::Disconnected => ConnState::Reconnecting,
            ConnEvent::ShutdownRequested => ConnState::Closing,
        }
    }
}

/// A lost connection is always retried: unless the session is closing,
/// every loss event lands in `Reconnecting`, never in a stuck state.
pub proof fn lemma_loss_reconnects(s: ConnState, e: ConnEvent)
    requires
        !(s is Closing),
        is_loss(e),
    ensures
        next_state(s, e) == ConnState::Reconnecting,
{
}

} // verus!
