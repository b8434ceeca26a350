//! The life of the server: it accepts connections until it is told to
//! stop, lets the requests under way finish within a period of grace, and
//! is stopped only when its listener has ended.

use vstd::prelude::*;

verus! {

/// Where the server stands.
#[derive(Clone, Copy, Debug, PartialEq, Eq, Structural)]
pub enum ServerPhase {
    /// New connections are accepted.
    Accepting,
    /// No new connections; the requests under way may finish.
    Draining,
    /// No requests are under way any more; the listener is ending.
    Closing,
    /// The listener has ended.
    Stopped,
}

/// The server's phase and the number of requests under way.
#[derive(Clone, Copy, Debug, PartialEq, Eq, Structural)]
pub struct ServerState {
    pub phase: ServerPhase,
    pub in_flight: u64,
}

/// What happened to the server.
#[derive(Clone, Copy, Debug, PartialEq, Eq, Structural)]
pub enum ServerEvent {
    ConnectionOffered,
    RequestFinished,
    StopRequested,
    GraceExpired,
    ListenerEnded,
}

/// What the server does next.
#[derive(Clone, Copy, Debug, PartialEq, Eq, Structural)]
pub enum ServerAction {
    /// Nothing.
    Carry,
    /// Take the connection.
    Accept,
    /// Turn the connection away.
    Refuse,
    /// Stop listening and start the period of grace.
    StopListening,
    /// End the listener: nothing is under way.
    EndListener,
    /// Cancel what is still under way, then end the listener.
    CancelAndEndListener,
    /// Let the call that asked for the stop return.
    Return,
}

/// Requests are under way only while the server accepts or drains.
pub open spec fn settled(state: ServerState) -> bool {
    (state.phase is Closing || state.phase is Stopped) ==> state.in_flight == 0
}

/// The state that follows `state` on `event`, and what to do then.
pub open spec fn server_next(state: ServerState, event: ServerEvent) -> (ServerState, ServerAction) {
    match (state.phase, event) {
        (ServerPhase::Accepting, ServerEvent::ConnectionOffered) => if state.in_flight < u64::MAX {
            (
                ServerState { in_flight: (state.in_flight + 1) as u64, ..state },
                ServerAction::Accept,
            )
        } else {
            (state, ServerAction::Refuse)
        },
        (_, ServerEvent::ConnectionOffered) => (state, ServerAction::Refuse),
        (ServerPhase::Accepting, ServerEvent::RequestFinished) => (
            ServerState { in_flight: if state.in_flight > 0 {
                (state.in_flight - 1) as u64
            } else {
                0
            }, ..state },
            ServerAction::Carry,
        ),
        (ServerPhase::Draining, ServerEvent::RequestFinished) => if state.in_flight <= 1 {
            (ServerState { phase: ServerPhase::Closing, in_flight: 0 }, ServerAction::EndListener)
        } else {
            (
                ServerState { in_flight: (state.in_flight - 1) as u64, ..state },
                ServerAction::Carry,
            )
        },
        (ServerPhase::Accepting, ServerEvent::StopRequested) => if state.in_flight == 0 {
            (ServerState { phase: ServerPhase::Closing, in_flight: 0 }, ServerAction::EndListener)
        } else {
            (ServerState { phase: ServerPhase::Draining, ..state }, ServerAction::StopListening)
        },
        (ServerPhase::Draining, ServerEvent::GraceExpired) => (
            ServerState { phase: ServerPhase::Closing, in_flight: 0 },
            ServerAction::CancelAndEndListener,
        ),
        (ServerPhase::Closing, ServerEvent::ListenerEnded) => (
            ServerState { phase: ServerPhase::Stopped, in_flight: 0 },
            ServerAction::Return,
        ),
        _ => (state, ServerAction::Carry),
    }
}

/// Once a stop was asked for, no connection is accepted any more, and the
/// call that asked for the stop returns only when the listener has ended.
pub proof fn lemma_stop_is_final(state: ServerState, event: ServerEvent)
    requires
        settled(state),
    ensures
        settled(server_next(state, event).0),
        !(state.phase is Accepting) ==> server_next(state, event).1 != ServerAction::Accept,
        !(state.phase is Accepting) ==> !(server_next(state, event).0.phase is Accepting),
        !(state.phase is Accepting) ==> server_next(state, event).0.in_flight <= state.in_flight,
        server_next(state, event).1 == ServerAction::Return <==> state.phase is Closing
            && event is ListenerEnded,
        server_next(state, event).1 == ServerAction::Return ==> server_next(state, event).0.phase
            is Stopped,
        state.phase is Stopped ==> server_next(state, event).0 == state,
{
}

impl ServerState {
    /// A server that has just bound its listener.
    pub fn new() -> (state: ServerState)
        ensures
            state == (ServerState { phase: ServerPhase::Accepting, in_flight: 0 }),
    {
        ServerState { phase: ServerPhase::Accepting, in_flight: 0 }
    }

    /// Tells the server what happened; it moves on and answers what to do
    /// next.
    pub fn on(&mut self, event: ServerEvent) -> (action: ServerAction)
        ensures
            (*final(self), action) == server_next(*old(self), event),
    {
        match (self.phase, event) {
            (ServerPhase::Accepting, ServerEvent::ConnectionOffered) => {
                if self.in_flight < u64::MAX {
                    self.in_flight = self.in_flight + 1;
                    ServerAction::Accept
                } else {
                    ServerAction::Refuse
                }
            },
            (_, ServerEvent::ConnectionOffered) => ServerAction::Refuse,
            (ServerPhase::Accepting, ServerEvent::RequestFinished) => {
                if self.in_flight > 0 {
                    self.in_flight = self.in_flight - 1;
                }
                ServerAction::Carry
            },
            (ServerPhase::Draining, ServerEvent::RequestFinished) => {
                if self.in_flight <= 1 {
                    self.phase = ServerPhase::Closing;
                    self.in_flight = 0;
                    ServerAction::EndListener
                } else {
                    self.in_flight = self.in_flight - 1;
                    ServerAction::Carry
                }
            },
            (ServerPhase::Accepting, ServerEvent::StopRequested) => {
                if self.in_flight == 0 {
                    self.phase = ServerPhase::Closing;
                    ServerAction::EndListener
                } else {
                    self.phase = ServerPhase::Draining;
                    ServerAction::StopListening
                }
            },
            (ServerPhase::Draining, ServerEvent::GraceExpired) => {
                self.phase = ServerPhase::Closing;
                self.in_flight = 0;
                ServerAction::CancelAndEndListener
            },
            (ServerPhase::Closing, ServerEvent::ListenerEnded) => {
                self.phase = ServerPhase::Stopped;
                self.in_flight = 0;
                ServerAction::Return
            },
            _ => ServerAction::Carry,
        }
    }
}

} // verus!
