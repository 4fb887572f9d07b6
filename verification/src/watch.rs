//! The watch session as a state machine: what the client does next, given
//! what just happened on the connection.
//!
//! The caller owns the connection. It reports each event to [`step`] and
//! carries out the action that comes back.

use vstd::prelude::*;
use crate::job_status::JobStatusMsg;

verus! {

/// Where a watch session stands.
#[derive(Clone, Copy, Debug, PartialEq, Eq, Structural)]
pub enum WatchState {
    /// The connection is being opened; the handshake is not complete.
    Connecting,
    /// The handshake is complete; the hello frame has not been sent.
    Authenticated,
    /// The hello frame is out; frames are being received.
    Watching,
    /// A status message is with the handler; `terminal` tells whether it ends the job.
    Delivering { terminal: bool },
    /// The close handshake is under way.
    Closing,
    /// The session is over.
    Terminal,
}

/// What happened on the connection, or what the handler answered.
#[derive(Debug)]
pub enum WatchEvent {
    /// The handshake completed.
    Connected,
    /// The hello frame was sent.
    HelloSent,
    /// A text frame arrived and was decoded.
    Status(JobStatusMsg),
    /// A ping frame arrived with this payload.
    Ping(Vec<u8>),
    /// A pong frame arrived.
    Pong,
    /// A frame of any other kind arrived: binary, close or raw.
    Unexpected,
    /// The connection ended: there is no frame to read any more.
    Ended,
    /// The handler returned; `true` asks to stop watching.
    Answered(bool),
    /// The close handshake was sent.
    Closed,
}

/// What the caller has to do next.
#[derive(Debug)]
pub enum WatchAction {
    /// Send the hello frame, then report `HelloSent`.
    SendHello,
    /// Read the next frame and report it.
    Receive,
    /// Hand the message to the handler and report its answer.
    Deliver(JobStatusMsg),
    /// Send a pong frame with this payload, then read the next frame and report it.
    SendPong(Vec<u8>),
    /// Send the close handshake, then report `Closed`.
    Close,
    /// Return to the caller: the session is over. The messages that were
    /// delivered are all there will be.
    Finish,
}

impl WatchState {
    /// Whether `event` may happen in this state. A frame of an unexpected kind
    /// may happen in none: the session has no answer to it.
    pub open spec fn accepts(self, event: WatchEvent) -> bool {
        match (self, event) {
            (WatchState::Connecting, WatchEvent::Connected) => true,
            (WatchState::Authenticated, WatchEvent::HelloSent) => true,
            (WatchState::Watching, WatchEvent::Status(_)) => true,
            (WatchState::Watching, WatchEvent::Ping(_)) => true,
            (WatchState::Watching, WatchEvent::Pong) => true,
            (WatchState::Watching, WatchEvent::Ended) => true,
            (WatchState::Delivering { .. }, WatchEvent::Answered(_)) => true,
            (WatchState::Closing, WatchEvent::Closed) => true,
            _ => false,
        }
    }

    /// The state after `event`, and the action that it calls for.
    pub open spec fn next(self, event: WatchEvent) -> (WatchState, WatchAction) {
        match (self, event) {
            (WatchState::Connecting, WatchEvent::Connected) => (
                WatchState::Authenticated,
                WatchAction::SendHello,
            ),
            (WatchState::Authenticated, WatchEvent::HelloSent) => (
                WatchState::Watching,
                WatchAction::Receive,
            ),
            (WatchState::Watching, WatchEvent::Status(msg)) => (
                WatchState::Delivering { terminal: msg.is_terminal() },
                WatchAction::Deliver(msg),
            ),
            (WatchState::Watching, WatchEvent::Ping(payload)) => (
                WatchState::Watching,
                WatchAction::SendPong(payload),
            ),
            (WatchState::Watching, WatchEvent::Pong) => (WatchState::Watching, WatchAction::Receive),
            (WatchState::Watching, WatchEvent::Ended) => (
                WatchState::Terminal,
                WatchAction::Finish,
            ),
            (WatchState::Delivering { terminal }, WatchEvent::Answered(stop)) => if stop
                || terminal {
                (WatchState::Closing, WatchAction::Close)
            } else {
                (WatchState::Watching, WatchAction::Receive)
            },
            (WatchState::Closing, WatchEvent::Closed) => (
                WatchState::Terminal,
                WatchAction::Finish,
            ),
            _ => (self, WatchAction::Finish),
        }
    }

    /// Tells whether `event` may happen in this state.
    pub fn is_expected(&self, event: &WatchEvent) -> (r: bool)
        ensures
            r == self.accepts(*event),
    {
        match (self, event) {
            (WatchState::Connecting, WatchEvent::Connected) => true,
            (WatchState::Authenticated, WatchEvent::HelloSent) => true,
            (WatchState::Watching, WatchEvent::Status(_)) => true,
            (WatchState::Watching, WatchEvent::Ping(_)) => true,
            (WatchState::Watching, WatchEvent::Pong) => true,
            (WatchState::Watching, WatchEvent::Ended) => true,
            (WatchState::Delivering { .. }, WatchEvent::Answered(_)) => true,
            (WatchState::Closing, WatchEvent::Closed) => true,
            _ => false,
        }
    }
}

/// A fresh session: the connection is about to be opened.
pub fn start() -> (r: WatchState)
    ensures
        r == WatchState::Connecting,
{
    WatchState::Connecting
}

/// Takes `event` in `state`: gives the next state and what to do now.
pub fn step(state: WatchState, event: WatchEvent) -> (r: (WatchState, WatchAction))
    requires
        state.accepts(event),
    ensures
        r == state.next(event),
{
    match (state, event) {
        (WatchState::Connecting, WatchEvent::Connected) => (
            WatchState::Authenticated,
            WatchAction::SendHello,
        ),
        (WatchState::Authenticated, WatchEvent::HelloSent) => (
            WatchState::Watching,
            WatchAction::Receive,
        ),
        (WatchState::Watching, WatchEvent::Status(msg)) => {
            let terminal = msg.is_final();
            (WatchState::Delivering { terminal }, WatchAction::Deliver(msg))
        },
        (WatchState::Watching, WatchEvent::Ping(payload)) => (
            WatchState::Watching,
            WatchAction::SendPong(payload),
        ),
        (WatchState::Watching, WatchEvent::Pong) => (WatchState::Watching, WatchAction::Receive),
        (WatchState::Delivering { terminal }, WatchEvent::Answered(stop)) => {
            if stop || terminal {
                (WatchState::Closing, WatchAction::Close)
            } else {
                (WatchState::Watching, WatchAction::Receive)
            }
        },
        (_, _) => (WatchState::Terminal, WatchAction::Finish),
    }
}

/// A terminal message ends the watch whatever the handler answers: it is
/// handed to the handler, and the answer is followed by the close handshake.
pub proof fn lemma_terminal_message_closes(msg: JobStatusMsg, stop: bool)
    requires
        msg.is_terminal(),
    ensures
        WatchState::Watching.next(WatchEvent::Status(msg)).1 == WatchAction::Deliver(msg),
        WatchState::Watching.next(WatchEvent::Status(msg)).0.next(WatchEvent::Answered(stop))
            == (WatchState::Closing, WatchAction::Close),
{
}

/// Under a handler that asks to stop, the watch ends after the message at
/// hand, whatever its type.
pub proof fn lemma_stop_request_closes(msg: JobStatusMsg)
    ensures
        WatchState::Watching.next(WatchEvent::Status(msg)).0.next(WatchEvent::Answered(true))
            == (WatchState::Closing, WatchAction::Close),
{
}

/// Under a handler that never asks to stop, only a message of type `result`
/// or `error` ends the watch; after any other the next frame is read.
pub proof fn lemma_wait_ends_on_terminal_only(msg: JobStatusMsg)
    ensures
        msg.is_terminal() ==> WatchState::Watching.next(WatchEvent::Status(msg)).0.next(
            WatchEvent::Answered(false),
        ) == (WatchState::Closing, WatchAction::Close),
        !msg.is_terminal() ==> WatchState::Watching.next(WatchEvent::Status(msg)).0.next(
            WatchEvent::Answered(false),
        ) == (WatchState::Watching, WatchAction::Receive),
{
}

/// A ping is answered by a pong with the same payload, a pong is passed over,
/// and either way the session goes on watching.
pub proof fn lemma_ping_pong(payload: Vec<u8>)
    ensures
        WatchState::Watching.next(WatchEvent::Ping(payload)) == (
            WatchState::Watching,
            WatchAction::SendPong(payload),
        ),
        WatchState::Watching.next(WatchEvent::Pong) == (WatchState::Watching, WatchAction::Receive),
{
}

/// Where the connection ends while a frame is awaited, the session is over
/// at once: nothing more is delivered, and nothing is sent.
pub proof fn lemma_connection_end()
    ensures
        WatchState::Watching.accepts(WatchEvent::Ended),
        WatchState::Watching.next(WatchEvent::Ended) == (WatchState::Terminal, WatchAction::Finish),
{
}

/// The session is left in two ways only: through the close handshake, or
/// because the connection ended. The closing state is entered only together
/// with the action that sends the close handshake.
pub proof fn lemma_close_before_finish(state: WatchState, event: WatchEvent)
    requires
        state.accepts(event),
    ensures
        state.next(event).1 == WatchAction::Finish <==> (state == WatchState::Closing || event
            == WatchEvent::Ended),
        state.next(event).0 == WatchState::Terminal <==> (state == WatchState::Closing || event
            == WatchEvent::Ended),
        state.next(event).0 == WatchState::Closing <==> state.next(event).1 == WatchAction::Close,
{
}

/// No frame of an unexpected kind is ever taken, and a session that is over
/// takes no event at all.
pub proof fn lemma_nothing_unexpected(state: WatchState, event: WatchEvent)
    ensures
        !state.accepts(WatchEvent::Unexpected),
        !WatchState::Terminal.accepts(event),
{
}

} // verus!
