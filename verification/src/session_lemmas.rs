//! What holds of every session, whatever happens on the outside.

use crate::codec::{parse_request, status_line, DecodeFault, TunnelResult};
use crate::session::{
    is_terminal, transition, ActionView, ConnectAttempt, EventView, SessionView,
    PROXY_CONNECT_TARGET_TIMEOUT_MS,
};
use vstd::prelude::*;

verus! {

/// How far a session has come: each state counts for more than the states
/// before it, and the two ways of ending count alike.
pub open spec fn progress(state: SessionView) -> nat {
    match state {
        SessionView::AwaitingRequest { .. } => 0,
        SessionView::Resolving => 1,
        SessionView::Connecting => 2,
        SessionView::Responding { .. } => 3,
        SessionView::Relaying { .. } => 4,
        SessionView::Closed => 5,
        SessionView::Aborted => 5,
    }
}

/// A session never goes back: a step leaves it where it is or takes it on.
pub proof fn lemma_sessions_move_forward(state: SessionView, event: EventView)
    ensures
        progress(state) <= progress(transition(state, event).0),
{
}

/// A session that has ended stays as it ended, and all that is left to do
/// is to close the sockets.
pub proof fn lemma_ended_sessions_stay_ended(state: SessionView, event: EventView)
    requires
        is_terminal(state),
    ensures
        transition(state, event) == (state, ActionView::Close),
{
}

/// A session ends exactly where it is told to close the sockets.
pub proof fn lemma_close_means_ended(state: SessionView, event: EventView)
    ensures
        transition(state, event).1 is Close <==> is_terminal(transition(state, event).0),
{
}

/// From every state in which a session has not ended it can be aborted.
pub proof fn lemma_every_session_can_abort(state: SessionView)
    requires
        !is_terminal(state),
    ensures
        transition(state, EventView::EndOfStream) == (SessionView::Aborted, ActionView::Close),
{
}

/// A target is resolved only once a request has been decoded, and the target
/// resolved is the one that the gathered bytes hold.
pub proof fn lemma_resolve_follows_decoding(state: SessionView, event: EventView)
    requires
        transition(state, event).1 is Resolve,
    ensures
        state matches SessionView::AwaitingRequest { buffered } && event matches EventView::Received(
            bytes,
        ) && parse_request(buffered + bytes) == Ok::<Option<Seq<char>>, DecodeFault>(
            Some(transition(state, event).1->Resolve_0),
        ),
{
}

/// A connection is attempted only once the target has resolved, to the
/// address it resolved to, and under the fixed deadline.
pub proof fn lemma_connect_follows_resolution(state: SessionView, event: EventView)
    requires
        transition(state, event).1 is Connect,
    ensures
        state is Resolving,
        event matches EventView::Resolved(address) && transition(state, event).1 == (
        ActionView::Connect {
            address,
            timeout_ms: PROXY_CONNECT_TARGET_TIMEOUT_MS,
        }),
{
}

/// A reply is written only once the connection attempt has ended, and it is
/// the reply for the way the attempt ended.
pub proof fn lemma_reply_follows_connecting(state: SessionView, event: EventView)
    requires
        transition(state, event).1 is Respond,
    ensures
        state is Connecting,
        event matches EventView::ConnectFinished(attempt) && transition(state, event).1
            == ActionView::Respond(status_line(attempt.outcome_spec())),
{
}

/// Bytes are relayed only once the reply that the tunnel stands has been
/// written.
pub proof fn lemma_relay_follows_established_reply(state: SessionView, event: EventView)
    requires
        transition(state, event).1 is Relay,
    ensures
        state == (SessionView::Responding { outcome: TunnelResult::Established }),
        event is ResponseWritten,
{
}

/// A request that cannot be decoded ends the session without a reply.
pub proof fn lemma_decode_fault_aborts(held: Seq<u8>, bytes: Seq<u8>)
    requires
        parse_request(held + bytes) is Err,
    ensures
        transition(SessionView::AwaitingRequest { buffered: held }, EventView::Received(bytes)) == (
            SessionView::Aborted,
            ActionView::Close,
        ),
{
}

/// A target that does not resolve ends the session without a reply.
pub proof fn lemma_resolve_failure_aborts()
    ensures
        transition(SessionView::Resolving, EventView::ResolveFailed) == (
            SessionView::Aborted,
            ActionView::Close,
        ),
{
}

/// However the connection attempt ends, the session goes on to reply.
pub proof fn lemma_connecting_always_replies(attempt: ConnectAttempt)
    ensures
        transition(SessionView::Connecting, EventView::ConnectFinished(attempt)).0
            is Responding,
        transition(SessionView::Connecting, EventView::ConnectFinished(attempt)).1
            is Respond,
{
}

/// Where the connection does not stand, the session closes once its reply
/// is written, and nothing is relayed.
pub proof fn lemma_failed_connection_closes_after_reply(attempt: ConnectAttempt)
    requires
        attempt != ConnectAttempt::Connected,
    ensures
        transition(
            transition(SessionView::Connecting, EventView::ConnectFinished(attempt)).0,
            EventView::ResponseWritten,
        ) == (SessionView::Closed, ActionView::Close),
{
}

} // verus!
