//! One tunnel session as a state machine.
//!
//! The session decides; whoever owns the sockets acts. Each step takes what
//! just happened on the outside (an [`Event`]) and answers with the next
//! state and the one thing to do now (an [`Action`]). The order is fixed:
//! the request is decoded, then the target is resolved, then the destination
//! is connected to, then the reply is written, and only then are bytes
//! relayed.

use crate::buffer::{buffered, room};
use crate::codec::{parse_request, status_line, HttpCodec, TunnelResult};
use crate::codec_lemmas::lemma_status_line_fits;
use crate::dns::SocketAddress;
use bytes::BytesMut;
use vstd::prelude::*;

verus! {

/// The capacity a reply buffer starts with.
pub const PROXY_INITIAL_RESPONSE_SIZE: usize = 64;

/// How long, in milliseconds, the connection to the destination may take.
pub const PROXY_CONNECT_TARGET_TIMEOUT_MS: u64 = 200;

/// One of the two directions in which bytes are relayed.
#[derive(Clone, Copy, Debug, PartialEq, Eq, Structural)]
pub enum Direction {
    /// From the client to the destination.
    ClientToDestination,
    /// From the destination to the client.
    DestinationToClient,
}

/// How the attempt to connect to the destination ended.
#[derive(Clone, Copy, Debug, PartialEq, Eq, Structural)]
pub enum ConnectAttempt {
    /// The connection stands.
    Connected,
    /// The connection was refused or failed otherwise, within the deadline.
    Failed,
    /// The deadline passed first.
    TimedOut,
}

impl ConnectAttempt {
    /// The outcome reported to the client for each way the attempt can end.
    pub open spec fn outcome_spec(self) -> TunnelResult {
        match self {
            ConnectAttempt::Connected => TunnelResult::Established,
            ConnectAttempt::Failed => TunnelResult::Timeout,
            ConnectAttempt::TimedOut => TunnelResult::BadRequest,
        }
    }

    /// The outcome reported to the client for this attempt.
    pub fn outcome(&self) -> (outcome: TunnelResult)
        ensures
            outcome == self.outcome_spec(),
    {
        match self {
            ConnectAttempt::Connected => TunnelResult::Established,
            ConnectAttempt::Failed => TunnelResult::Timeout,
            ConnectAttempt::TimedOut => TunnelResult::BadRequest,
        }
    }
}

/// Where a session stands.
#[derive(Debug)]
pub enum Session {
    /// Bytes are being gathered until they hold a request.
    AwaitingRequest { buffer: BytesMut },
    /// The target is being resolved.
    Resolving,
    /// The destination is being connected to.
    Connecting,
    /// The reply for `outcome` is being written.
    Responding { outcome: TunnelResult },
    /// Bytes are being relayed; each flag tells whether that direction is done.
    Relaying { client_to_destination_done: bool, destination_to_client_done: bool },
    /// The session ended after its reply.
    Closed,
    /// The session ended without a reply.
    Aborted,
}

/// A session as contracts see it.
pub enum SessionView {
    AwaitingRequest { buffered: Seq<u8> },
    Resolving,
    Connecting,
    Responding { outcome: TunnelResult },
    Relaying { client_to_destination_done: bool, destination_to_client_done: bool },
    Closed,
    Aborted,
}

impl View for Session {
    type V = SessionView;

    open spec fn view(&self) -> SessionView {
        match self {
            Session::AwaitingRequest { buffer } => SessionView::AwaitingRequest {
                buffered: buffered(*buffer),
            },
            Session::Resolving => SessionView::Resolving,
            Session::Connecting => SessionView::Connecting,
            Session::Responding { outcome } => SessionView::Responding { outcome: *outcome },
            Session::Relaying {
                client_to_destination_done,
                destination_to_client_done,
            } => SessionView::Relaying {
                client_to_destination_done: *client_to_destination_done,
                destination_to_client_done: *destination_to_client_done,
            },
            Session::Closed => SessionView::Closed,
            Session::Aborted => SessionView::Aborted,
        }
    }
}

/// What happened on the outside since the last step.
#[derive(Debug)]
pub enum Event {
    /// These bytes arrived from the client.
    Received(Vec<u8>),
    /// The client closed its side, or reading from it failed.
    EndOfStream,
    /// The target resolved to this address.
    Resolved(SocketAddress),
    /// The target did not resolve.
    ResolveFailed,
    /// The attempt to connect to the destination ended.
    ConnectFinished(ConnectAttempt),
    /// The reply has been written to the client.
    ResponseWritten,
    /// Writing the reply failed.
    WriteFailed,
    /// Relaying in this direction has come to its end.
    RelayFinished(Direction),
}

/// An event as contracts see it.
pub enum EventView {
    Received(Seq<u8>),
    EndOfStream,
    Resolved(SocketAddress),
    ResolveFailed,
    ConnectFinished(ConnectAttempt),
    ResponseWritten,
    WriteFailed,
    RelayFinished(Direction),
}

impl View for Event {
    type V = EventView;

    open spec fn view(&self) -> EventView {
        match self {
            Event::Received(bytes) => EventView::Received(bytes@),
            Event::EndOfStream => EventView::EndOfStream,
            Event::Resolved(address) => EventView::Resolved(*address),
            Event::ResolveFailed => EventView::ResolveFailed,
            Event::ConnectFinished(attempt) => EventView::ConnectFinished(*attempt),
            Event::ResponseWritten => EventView::ResponseWritten,
            Event::WriteFailed => EventView::WriteFailed,
            Event::RelayFinished(direction) => EventView::RelayFinished(*direction),
        }
    }
}

/// The one thing to do next.
#[derive(Debug)]
pub enum Action {
    /// Read more bytes from the client.
    Read,
    /// Resolve this target.
    Resolve(String),
    /// Connect to this address, giving up after the deadline.
    Connect { address: SocketAddress, timeout_ms: u64 },
    /// Write these bytes to the client.
    Respond(BytesMut),
    /// Start relaying in both directions.
    Relay,
    /// Nothing yet: relaying goes on in the other direction.
    Wait,
    /// Close the sockets: the session has ended.
    Close,
}

/// An action as contracts see it.
pub enum ActionView {
    Read,
    Resolve(Seq<char>),
    Connect { address: SocketAddress, timeout_ms: u64 },
    Respond(Seq<u8>),
    Relay,
    Wait,
    Close,
}

impl View for Action {
    type V = ActionView;

    open spec fn view(&self) -> ActionView {
        match self {
            Action::Read => ActionView::Read,
            Action::Resolve(target) => ActionView::Resolve(target@),
            Action::Connect { address, timeout_ms } => ActionView::Connect {
                address: *address,
                timeout_ms: *timeout_ms,
            },
            Action::Respond(bytes) => ActionView::Respond(buffered(*bytes)),
            Action::Relay => ActionView::Relay,
            Action::Wait => ActionView::Wait,
            Action::Close => ActionView::Close,
        }
    }
}

/// A session that has ended, with or without a reply.
pub open spec fn is_terminal(state: SessionView) -> bool {
    state is Closed || state is Aborted
}

/// The step taken while bytes are gathered. More bytes are appended to what
/// is held and the whole is read as a request: no request yet means read on,
/// a request means resolve its target, and a fault ends the session without
/// a reply. So does the end of the client's stream, and a buffer that cannot
/// grow by what arrived.
pub open spec fn on_awaiting_request(held: Seq<u8>, event: EventView) -> (SessionView, ActionView) {
    match event {
        EventView::Received(bytes) => if held.len() + bytes.len() > isize::MAX {
            (SessionView::Aborted, ActionView::Close)
        } else {
            match parse_request(held + bytes) {
                Ok(None) => (
                    SessionView::AwaitingRequest { buffered: held + bytes },
                    ActionView::Read,
                ),
                Ok(Some(target)) => (SessionView::Resolving, ActionView::Resolve(target)),
                Err(_) => (SessionView::Aborted, ActionView::Close),
            }
        },
        _ => (SessionView::Aborted, ActionView::Close),
    }
}

/// The step taken while relaying: the direction that ended is marked, and
/// once both have ended the session closes.
pub open spec fn on_relaying(
    client_to_destination_done: bool,
    destination_to_client_done: bool,
    event: EventView,
) -> (SessionView, ActionView) {
    match event {
        EventView::RelayFinished(direction) => {
            let up = client_to_destination_done || direction == Direction::ClientToDestination;
            let down = destination_to_client_done || direction == Direction::DestinationToClient;
            if up && down {
                (SessionView::Closed, ActionView::Close)
            } else {
                (
                    SessionView::Relaying {
                        client_to_destination_done: up,
                        destination_to_client_done: down,
                    },
                    ActionView::Wait,
                )
            }
        },
        _ => (SessionView::Aborted, ActionView::Close),
    }
}

/// The state a session moves to on an event, and what is to be done then.
/// An event that the state does not expect ends the session without a reply;
/// a session that has ended stays as it is.
pub open spec fn transition(state: SessionView, event: EventView) -> (SessionView, ActionView) {
    match state {
        SessionView::AwaitingRequest { buffered } => on_awaiting_request(buffered, event),
        SessionView::Resolving => match event {
            EventView::Resolved(address) => (
                SessionView::Connecting,
                ActionView::Connect { address, timeout_ms: PROXY_CONNECT_TARGET_TIMEOUT_MS },
            ),
            _ => (SessionView::Aborted, ActionView::Close),
        },
        SessionView::Connecting => match event {
            EventView::ConnectFinished(attempt) => (
                SessionView::Responding { outcome: attempt.outcome_spec() },
                ActionView::Respond(status_line(attempt.outcome_spec())),
            ),
            _ => (SessionView::Aborted, ActionView::Close),
        },
        SessionView::Responding { outcome } => match event {
            EventView::ResponseWritten => if outcome == TunnelResult::Established {
                (
                    SessionView::Relaying {
                        client_to_destination_done: false,
                        destination_to_client_done: false,
                    },
                    ActionView::Relay,
                )
            } else {
                (SessionView::Closed, ActionView::Close)
            },
            _ => (SessionView::Aborted, ActionView::Close),
        },
        SessionView::Relaying {
            client_to_destination_done,
            destination_to_client_done,
        } => on_relaying(client_to_destination_done, destination_to_client_done, event),
        SessionView::Closed => (SessionView::Closed, ActionView::Close),
        SessionView::Aborted => (SessionView::Aborted, ActionView::Close),
    }
}

impl Session {
    /// A session that has received nothing yet. Its first action is to read.
    pub fn new() -> (session: Session)
        ensures
            session@ == (SessionView::AwaitingRequest { buffered: Seq::<u8>::empty() }),
    {
        Session::AwaitingRequest { buffer: BytesMut::with_capacity(0) }
    }

    /// Whether the session has ended.
    pub fn is_finished(&self) -> (finished: bool)
        ensures
            finished == is_terminal(self@),
    {
        match self {
            Session::Closed => true,
            Session::Aborted => true,
            _ => false,
        }
    }

    /// Takes the bytes that arrived into the buffer and reads it as a request.
    fn receive(buffer: BytesMut, bytes: Vec<u8>) -> (next: (Session, Action))
        ensures
            (next.0@, next.1@) == on_awaiting_request(
                buffered(buffer),
                EventView::Received(bytes@),
            ),
    {
        let mut buffer = buffer;
        if room(&buffer) < bytes.len() {
            return (Session::Aborted, Action::Close);
        }
        buffer.extend_from_slice(bytes.as_slice());
        let mut codec = HttpCodec {  };
        match codec.decode(&mut buffer) {
            Ok(None) => (Session::AwaitingRequest { buffer }, Action::Read),
            Ok(Some(target)) => (Session::Resolving, Action::Resolve(target)),
            Err(_) => (Session::Aborted, Action::Close),
        }
    }

    /// Encodes the reply for the way the connection attempt ended. A reply
    /// always fits a fresh buffer, so encoding it cannot fail.
    fn respond(attempt: ConnectAttempt) -> (next: (Session, Action))
        ensures
            next.0@ == (SessionView::Responding { outcome: attempt.outcome_spec() }),
            next.1@ == ActionView::Respond(status_line(attempt.outcome_spec())),
    {
        let outcome = attempt.outcome();
        let mut response = BytesMut::with_capacity(PROXY_INITIAL_RESPONSE_SIZE);
        let mut codec = HttpCodec {  };
        proof {
            lemma_status_line_fits(outcome);
        }
        match codec.encode(outcome, &mut response) {
            Ok(()) => {
                assert(buffered(response) =~= status_line(outcome));
                (Session::Responding { outcome }, Action::Respond(response))
            },
            Err(_) => (Session::Aborted, Action::Close),
        }
    }

    /// Moves the session on by one event and says what is to be done next.
    pub fn step(self, event: Event) -> (next: (Session, Action))
        ensures
            (next.0@, next.1@) == transition(self@, event@),
    {
        match self {
            Session::AwaitingRequest { buffer } => match event {
                Event::Received(bytes) => Self::receive(buffer, bytes),
                _ => (Session::Aborted, Action::Close),
            },
            Session::Resolving => match event {
                Event::Resolved(address) => (
                    Session::Connecting,
                    Action::Connect { address, timeout_ms: PROXY_CONNECT_TARGET_TIMEOUT_MS },
                ),
                _ => (Session::Aborted, Action::Close),
            },
            Session::Connecting => match event {
                Event::ConnectFinished(attempt) => Self::respond(attempt),
                _ => (Session::Aborted, Action::Close),
            },
            Session::Responding { outcome } => match event {
                Event::ResponseWritten => match outcome {
                    TunnelResult::Established => (
                        Session::Relaying {
                            client_to_destination_done: false,
                            destination_to_client_done: false,
                        },
                        Action::Relay,
                    ),
                    _ => (Session::Closed, Action::Close),
                },
                _ => (Session::Aborted, Action::Close),
            },
            Session::Relaying { client_to_destination_done, destination_to_client_done } => {
                match event {
                    Event::RelayFinished(direction) => {
                        let up = client_to_destination_done || matches!(
                            direction,
                            Direction::ClientToDestination
                        );
                        let down = destination_to_client_done || matches!(
                            direction,
                            Direction::DestinationToClient
                        );
                        if up && down {
                            (Session::Closed, Action::Close)
                        } else {
                            (
                                Session::Relaying {
                                    client_to_destination_done: up,
                                    destination_to_client_done: down,
                                },
                                Action::Wait,
                            )
                        }
                    },
                    _ => (Session::Aborted, Action::Close),
                }
            },
            Session::Closed => (Session::Closed, Action::Close),
            Session::Aborted => (Session::Aborted, Action::Close),
        }
    }
}

} // verus!
