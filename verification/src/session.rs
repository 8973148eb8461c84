//! One peer session as a state machine.
//!
//! A session is `Connecting` while an outbound dial is under way,
//! `Established` once a stream exists, and `Closed` when the stream has
//! ended. The driver performs the I/O: it hands each outcome to
//! [`SessionState::step`] as an event and carries out the action that comes
//! back. Messages of every kind are accepted as soon as the session is
//! established; no handshake is awaited.

use vstd::prelude::*;
use crate::block::{Block, BlockView, Transaction, TransactionView};
use crate::message::{handshake, handshake_of, message_views, MessageView, NetworkMessage};

verus! {

/// Seconds after which a read on a peer's stream times out.
pub const READ_TIMEOUT_SECS: u64 = 30;

/// Milliseconds the acceptor waits before it polls the listener again.
pub const ACCEPT_BACKOFF_MILLIS: u64 = 100;

/// Where a session stands.
#[derive(Clone, Copy, Debug, PartialEq, Eq, Structural)]
pub enum SessionState {
    Connecting,
    Established,
    Closed,
}

/// What happened on a session's stream.
#[derive(Clone, Debug, PartialEq, Eq)]
pub enum SessionEvent {
    /// The outbound dial succeeded; `height` is the chain's height now.
    Connected { height: u64 },
    /// The outbound dial failed.
    ConnectFailed,
    /// A read failed, by an I/O error or by timing out.
    ReadFailed,
    /// A read returned `len` bytes; `message` is what they decode to, if
    /// they decode to anything.
    Read { len: usize, message: Option<NetworkMessage> },
}

/// The contents of a [`SessionEvent`].
pub enum EventView {
    Connected { height: u64 },
    ConnectFailed,
    ReadFailed,
    Read { len: usize, message: Option<MessageView> },
}

impl View for SessionEvent {
    type V = EventView;

    open spec fn view(&self) -> EventView {
        match self {
            SessionEvent::Connected { height } => EventView::Connected { height: *height },
            SessionEvent::ConnectFailed => EventView::ConnectFailed,
            SessionEvent::ReadFailed => EventView::ReadFailed,
            SessionEvent::Read { len, message } => EventView::Read {
                len: *len,
                message: match message {
                    Some(m) => Some(m@),
                    None => None,
                },
            },
        }
    }
}

/// What the driver of a session has to do next.
#[derive(Clone, Debug, PartialEq, Eq)]
pub enum SessionAction {
    /// Nothing: read on if the session is established.
    Idle,
    /// Send these messages in order, then register the peer.
    Greet(Vec<NetworkMessage>),
    /// Send this message to the peer.
    Reply(NetworkMessage),
    /// Send the peer the `Addr` message that the peer table gives.
    ShareAddresses,
    /// Hand the block to the chain to validate and add. The outcome is not
    /// acted upon.
    AddBlock(Block),
    /// Hand the transaction to the validator, with the chain's unspent
    /// outputs and height. The outcome is not acted upon.
    ValidateTransaction(Transaction),
    /// Remove the peer's entry from the peer table, under the address that
    /// the socket reports.
    Forget,
}

/// The contents of a [`SessionAction`].
pub enum ActionView {
    Idle,
    Greet(Seq<MessageView>),
    Reply(MessageView),
    ShareAddresses,
    AddBlock(BlockView),
    ValidateTransaction(TransactionView),
    Forget,
}

impl View for SessionAction {
    type V = ActionView;

    open spec fn view(&self) -> ActionView {
        match self {
            SessionAction::Idle => ActionView::Idle,
            SessionAction::Greet(messages) => ActionView::Greet(message_views(messages@)),
            SessionAction::Reply(message) => ActionView::Reply(message@),
            SessionAction::ShareAddresses => ActionView::ShareAddresses,
            SessionAction::AddBlock(block) => ActionView::AddBlock(block@),
            SessionAction::ValidateTransaction(tx) => ActionView::ValidateTransaction(tx@),
            SessionAction::Forget => ActionView::Forget,
        }
    }
}

/// Whether a read ended the stream: it failed, or it returned no bytes.
pub open spec fn ends_stream(event: EventView) -> bool {
    match event {
        EventView::ReadFailed => true,
        EventView::Read { len, message } => len == 0,
        _ => false,
    }
}

/// The answer of an established session to a message.
pub open spec fn dispatch_of(message: MessageView) -> ActionView {
    match message {
        MessageView::GetAddr => ActionView::ShareAddresses,
        MessageView::Block(block) => ActionView::AddBlock(block),
        MessageView::Transaction(tx) => ActionView::ValidateTransaction(tx),
        MessageView::Ping => ActionView::Reply(MessageView::Pong),
        _ => ActionView::Idle,
    }
}

/// The state of a session after `event`.
pub open spec fn next_state(state: SessionState, event: EventView) -> SessionState {
    match state {
        SessionState::Connecting => match event {
            EventView::Connected { height } => SessionState::Established,
            EventView::ConnectFailed => SessionState::Closed,
            _ => SessionState::Connecting,
        },
        SessionState::Established => if ends_stream(event) {
            SessionState::Closed
        } else {
            SessionState::Established
        },
        SessionState::Closed => SessionState::Closed,
    }
}

/// What a session in `state` has its driver do on `event`.
pub open spec fn action_of(state: SessionState, event: EventView) -> ActionView {
    match state {
        SessionState::Connecting => match event {
            EventView::Connected { height } => ActionView::Greet(handshake_of(height)),
            _ => ActionView::Idle,
        },
        SessionState::Established => match event {
            EventView::ReadFailed => ActionView::Forget,
            EventView::Read { len, message } => if len == 0 {
                ActionView::Forget
            } else {
                match message {
                    Some(m) => dispatch_of(m),
                    None => ActionView::Idle,
                }
            },
            _ => ActionView::Idle,
        },
        SessionState::Closed => ActionView::Idle,
    }
}

/// Decides what an established session does with a decoded message.
pub fn dispatch(message: NetworkMessage) -> (action: SessionAction)
    ensures
        action@ == dispatch_of(message@),
{
    match message {
        NetworkMessage::GetAddr => SessionAction::ShareAddresses,
        NetworkMessage::Block(block) => SessionAction::AddBlock(block),
        NetworkMessage::Transaction(tx) => SessionAction::ValidateTransaction(tx),
        NetworkMessage::Ping => SessionAction::Reply(NetworkMessage::Pong),
        _ => SessionAction::Idle,
    }
}

impl SessionState {
    /// Takes one step of the session: the state after `event`, and what
    /// the driver has to do.
    pub fn step(self, event: SessionEvent) -> (out: (SessionState, SessionAction))
        ensures
            out.0 == next_state(self, event@),
            out.1@ == action_of(self, event@),
    {
        match self {
            SessionState::Connecting => match event {
                SessionEvent::Connected { height } => (
                    SessionState::Established,
                    SessionAction::Greet(handshake(height)),
                ),
                SessionEvent::ConnectFailed => (SessionState::Closed, SessionAction::Idle),
                _ => (SessionState::Connecting, SessionAction::Idle),
            },
            SessionState::Established => match event {
                SessionEvent::ReadFailed => (SessionState::Closed, SessionAction::Forget),
                SessionEvent::Read { len, message } => {
                    if len == 0 {
                        (SessionState::Closed, SessionAction::Forget)
                    } else {
                        match message {
                            Some(m) => (SessionState::Established, dispatch(m)),
                            None => (SessionState::Established, SessionAction::Idle),
                        }
                    }
                },
                _ => (SessionState::Established, SessionAction::Idle),
            },
            SessionState::Closed => (SessionState::Closed, SessionAction::Idle),
        }
    }
}

/// A payload that decodes to no message does not end an established
/// session: the session stays established and does nothing, and a `Ping`
/// that follows is still answered with a `Pong`.
pub proof fn undecodable_payload_keeps_session_open(bad_len: usize, ping_len: usize)
    requires
        bad_len > 0,
        ping_len > 0,
    ensures
        ({
            let bad = EventView::Read { len: bad_len, message: None };
            let ping = EventView::Read { len: ping_len, message: Some(MessageView::Ping) };
            let after_bad = next_state(SessionState::Established, bad);
            &&& after_bad == SessionState::Established
            &&& action_of(SessionState::Established, bad) == ActionView::Idle
            &&& action_of(after_bad, ping) == ActionView::Reply(MessageView::Pong)
            &&& next_state(after_bad, ping) == SessionState::Established
        }),
{
}

/// When the remote side closes the connection, which shows as a read of
/// no bytes, or when a read fails, an established session closes and has
/// its peer forgotten.
pub proof fn end_of_stream_closes_session(event: EventView)
    requires
        ends_stream(event),
    ensures
        next_state(SessionState::Established, event) == SessionState::Closed,
        action_of(SessionState::Established, event) == ActionView::Forget,
{
}

/// A session is established, and stays so, exactly until its stream ends:
/// no message closes it, whatever it holds.
pub proof fn only_end_of_stream_closes_session(event: EventView)
    ensures
        next_state(SessionState::Established, event) == SessionState::Closed <==> ends_stream(
            event,
        ),
        next_state(SessionState::Established, event) != SessionState::Connecting,
{
}

/// A closed session stays closed and asks for nothing.
pub proof fn closed_session_is_final(event: EventView)
    ensures
        next_state(SessionState::Closed, event) == SessionState::Closed,
        action_of(SessionState::Closed, event) == ActionView::Idle,
{
}

} // verus!
