//! The decisions of a server's accept loop; the loop itself, with its
//! listener and the peers it starts, runs outside.
use vstd::prelude::*;

verus! {

/// What the accept loop has just seen: a connection accepted, an accept that
/// failed, or a change of the close signal (`None` when its sender is gone,
/// else its new value).
pub enum AcceptEvent {
    Accepted,
    AcceptFailed,
    CloseSignal(Option<bool>),
}

/// What the accept loop does next.
pub enum AcceptAction {
    /// Build a peer on the new connection, run its connect hook, start it, and
    /// keep it until it closes or the server closes; then accept again.
    StartPeer,
    /// Accept the next connection.
    KeepAccepting,
    /// Return: the server is closed.
    Stop,
}

/// Whether the close signal asks to stop: it was raised, or its sender is gone.
pub open spec fn close_requested(signal: Option<bool>) -> bool {
    match signal {
        None => true,
        Some(raised) => raised,
    }
}

/// Whether the close signal asks to stop (see [`close_requested`]).
pub fn should_stop(signal: Option<bool>) -> (r: bool)
    ensures
        r == close_requested(signal),
{
    match signal {
        None => true,
        Some(raised) => raised,
    }
}

/// The next step of the accept loop after `event`: a peer for an accepted
/// connection, the next accept after a failed one, and a stop only when
/// closing is requested.
pub open spec fn next_action(event: AcceptEvent) -> AcceptAction {
    match event {
        AcceptEvent::Accepted => AcceptAction::StartPeer,
        AcceptEvent::AcceptFailed => AcceptAction::KeepAccepting,
        AcceptEvent::CloseSignal(signal) => if close_requested(signal) {
            AcceptAction::Stop
        } else {
            AcceptAction::KeepAccepting
        },
    }
}

/// The next step of the accept loop (see [`next_action`]).
pub fn accept_step(event: AcceptEvent) -> (r: AcceptAction)
    ensures
        r == next_action(event),
{
    match event {
        AcceptEvent::Accepted => AcceptAction::StartPeer,
        AcceptEvent::AcceptFailed => AcceptAction::KeepAccepting,
        AcceptEvent::CloseSignal(signal) => if should_stop(signal) {
            AcceptAction::Stop
        } else {
            AcceptAction::KeepAccepting
        },
    }
}

/// The number of connections accepted along `events`.
pub open spec fn accepted_count(events: Seq<AcceptEvent>) -> nat
    decreases events.len(),
{
    if events.len() == 0 {
        0
    } else {
        accepted_count(events.drop_last()) + if events.last() is Accepted { 1nat } else { 0nat }
    }
}

/// The number of peers the accept loop starts along `events`.
pub open spec fn started_count(events: Seq<AcceptEvent>) -> nat
    decreases events.len(),
{
    if events.len() == 0 {
        0
    } else {
        started_count(events.drop_last()) + if next_action(events.last()) is StartPeer { 1nat } else { 0nat }
    }
}

/// One peer per accepted connection: along any run of the accept loop, it
/// starts exactly as many peers as it accepts connections, one for each;
/// and it stops at a close request and at nothing else, so a failed accept
/// never ends it.
pub proof fn lemma_one_peer_per_connection(events: Seq<AcceptEvent>)
    ensures
        started_count(events) == accepted_count(events),
        forall|i: int| 0 <= i < events.len() ==> (next_action(#[trigger] events[i]) is StartPeer <==> events[i] is Accepted),
        forall|i: int| 0 <= i < events.len() ==> (next_action(#[trigger] events[i]) is Stop <==> (events[i] matches AcceptEvent::CloseSignal(s) && close_requested(s))),
    decreases events.len(),
{
    if events.len() > 0 {
        lemma_one_peer_per_connection(events.drop_last());
    }
}

} // verus!
