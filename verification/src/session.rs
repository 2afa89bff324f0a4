use vstd::prelude::*;
use vstd::string::StringExecFns;

verus! {

/// Lifecycle of one client connection: the secure handshake, then the
/// relaying loop, then termination.
#[derive(Clone, Copy, Debug, PartialEq, Eq, Structural)]
pub enum SessionState {
    /// The secure handshake is still in progress; the session is not yet
    /// subscribed and observes nothing.
    Handshaking,
    /// The handshake succeeded; the session relays in both directions.
    Active,
    /// Terminal: the connection is finished and the subscription ends.
    Closed,
}

/// One of the things a session can wake up on.  Exactly one event is
/// handled per step.
#[derive(Debug)]
pub enum SessionEvent {
    /// The secure handshake completed.
    HandshakeDone,
    /// The secure handshake was rejected or aborted.
    HandshakeFailed,
    /// A complete newline-terminated line arrived from the peer (without
    /// its terminator).
    LineArrived(String),
    /// The peer closed its write side; no further input will arrive.
    EndOfStream,
    /// Reading from the peer failed.
    ReadFailed,
    /// A message arrived on this session's receive handle.
    HubDelivery(String),
    /// The receive handle reported discarded history instead of a message.
    DeliveryGap,
    /// Writing a delivery out to the peer failed.
    WriteFailed,
}

/// What the caller must do after a step.
#[derive(Debug)]
pub enum SessionAction {
    /// Subscribe to the hub now: the session only ever observes messages
    /// published from this point forward.
    OpenSubscription,
    /// Publish this already-formatted line to the hub.
    PublishLine(String),
    /// Write this text to the peer, followed by a newline terminator.
    WriteLine(String),
    /// Nothing to do; keep waiting on both event sources.
    Stay,
    /// Release the stream halves and drop the receive handle.
    EndSession,
}

/// The separator between the peer's address and the relayed text.
pub open spec fn separator() -> Seq<char> {
    seq![':', ' ']
}

/// The line relayed on behalf of `peer`: the peer's address, a colon and a
/// space, then the text the peer sent.
pub open spec fn formatted(peer: Seq<char>, line: Seq<char>) -> Seq<char> {
    peer + separator() + line
}

/// Format one received line for publication.
pub fn format_message(peer: &String, line: &String) -> (r: String)
    ensures
        r@ == formatted(peer@, line@),
{
    let mut s: String = peer.clone();
    s.append(": ");
    s.append(line.as_str());
    proof {
        reveal_strlit(": ");
        assert(s@ =~= formatted(peer@, line@));
    }
    s
}

/// How a session reacts to one event: the relation every step of
/// `session_step` satisfies.  Each reachable pair of state and event pins
/// the next state and the action exactly; an event that cannot occur in a
/// state leaves the state unchanged and asks for nothing.
pub open spec fn step_spec(
    s: SessionState,
    peer: Seq<char>,
    e: SessionEvent,
    s2: SessionState,
    a: SessionAction,
) -> bool {
    match (s, e) {
        (SessionState::Handshaking, SessionEvent::HandshakeDone) => s2 is Active
            && a is OpenSubscription,
        (SessionState::Handshaking, SessionEvent::HandshakeFailed) => s2 is Closed
            && a is EndSession,
        (SessionState::Active, SessionEvent::LineArrived(line)) => s2 is Active && (a
            matches SessionAction::PublishLine(m) && m@ == formatted(peer, line@)),
        (SessionState::Active, SessionEvent::EndOfStream) => s2 is Closed && a is EndSession,
        (SessionState::Active, SessionEvent::ReadFailed) => s2 is Closed && a is EndSession,
        (SessionState::Active, SessionEvent::HubDelivery(msg)) => s2 is Active && (a
            matches SessionAction::WriteLine(w) && w@ == msg@),
        (SessionState::Active, SessionEvent::DeliveryGap) => s2 is Active && a is Stay,
        (SessionState::Active, SessionEvent::WriteFailed) => s2 is Closed && a is EndSession,
        (SessionState::Closed, _) => s2 is Closed && a is Stay,
        (_, _) => s2 == s && a is Stay,
    }
}

/// Advance a session by exactly one event.  While `Active` the session
/// multiplexes its two event sources: a line from the peer is formatted and
/// published, a hub delivery is written back out, a gap notice is absorbed
/// silently, and end-of-stream or any I/O failure closes only this session.
pub fn session_step(state: SessionState, peer: &String, event: SessionEvent) -> (r: (
    SessionState,
    SessionAction,
))
    ensures
        step_spec(state, peer@, event, r.0, r.1),
{
    match (state, event) {
        (SessionState::Handshaking, SessionEvent::HandshakeDone) => (
            SessionState::Active,
            SessionAction::OpenSubscription,
        ),
        (SessionState::Handshaking, SessionEvent::HandshakeFailed) => (
            SessionState::Closed,
            SessionAction::EndSession,
        ),
        (SessionState::Active, SessionEvent::LineArrived(line)) => (
            SessionState::Active,
            SessionAction::PublishLine(format_message(peer, &line)),
        ),
        (SessionState::Active, SessionEvent::EndOfStream) => (
            SessionState::Closed,
            SessionAction::EndSession,
        ),
        (SessionState::Active, SessionEvent::ReadFailed) => (
            SessionState::Closed,
            SessionAction::EndSession,
        ),
        (SessionState::Active, SessionEvent::HubDelivery(msg)) => (
            SessionState::Active,
            SessionAction::WriteLine(msg),
        ),
        (SessionState::Active, SessionEvent::DeliveryGap) => (
            SessionState::Active,
            SessionAction::Stay,
        ),
        (SessionState::Active, SessionEvent::WriteFailed) => (
            SessionState::Closed,
            SessionAction::EndSession,
        ),
        (SessionState::Closed, _) => (SessionState::Closed, SessionAction::Stay),
        (s0, _) => (s0, SessionAction::Stay),
    }
}

/// Non-starvation for a silent peer: in the `Active` state a hub delivery
/// is always written out, and the session stays `Active`, whether or not
/// the peer ever produces input — so a session that sends nothing still
/// receives every delivery its handle surfaces.
pub proof fn lemma_delivery_needs_no_input(
    peer: Seq<char>,
    msg: String,
    s2: SessionState,
    a: SessionAction,
)
    requires
        step_spec(SessionState::Active, peer, SessionEvent::HubDelivery(msg), s2, a),
    ensures
        s2 is Active,
        (a matches SessionAction::WriteLine(w) && w@ == msg@),
{
}

/// Non-starvation for a peer that receives nothing: in the `Active` state a
/// complete input line is always formatted and published, and the session
/// stays `Active`, whether or not any delivery ever arrives — so a session
/// can keep publishing indefinitely.
pub proof fn lemma_publish_needs_no_delivery(
    peer: Seq<char>,
    line: String,
    s2: SessionState,
    a: SessionAction,
)
    requires
        step_spec(SessionState::Active, peer, SessionEvent::LineArrived(line), s2, a),
    ensures
        s2 is Active,
        (a matches SessionAction::PublishLine(m) && m@ == formatted(peer, line@)),
{
}

} // verus!
