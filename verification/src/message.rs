//! The messages that peers exchange.

use vstd::prelude::*;
use crate::block::{Block, BlockView, Transaction, TransactionView};

verus! {

/// The protocol version announced in a handshake.
pub const PROTOCOL_VERSION: u32 = 1;

/// Upper bound on the size of one message: a message is what one read of
/// at most this many bytes decodes to.
pub const MAX_MESSAGE_SIZE: usize = 1024 * 1024;

/// Upper bound on the number of addresses in one `Addr` message.
pub const MAX_ADDRS: usize = 32;

/// The agent string announced in a handshake.
pub const AGENT: &'static str = "bitcoin-revelation-seed";

/// A message of the wire protocol.
#[derive(Clone, Debug, PartialEq, Eq)]
pub enum NetworkMessage {
    /// Announces the sender after an outbound connection is made.
    Hello { version: u32, height: u64, agent: String },
    /// Asks for the addresses of known peers.
    GetAddr,
    /// Answers `GetAddr` with at most [`MAX_ADDRS`] addresses.
    Addr(Vec<String>),
    /// Propagates a block.
    Block(Block),
    /// Propagates a transaction.
    Transaction(Transaction),
    /// Probes for liveness.
    Ping,
    /// Answers `Ping`.
    Pong,
}

/// The contents of a [`NetworkMessage`].
pub enum MessageView {
    Hello { version: u32, height: u64, agent: Seq<char> },
    GetAddr,
    Addr(Seq<Seq<char>>),
    Block(BlockView),
    Transaction(TransactionView),
    Ping,
    Pong,
}

/// The character strings held by a vector of strings.
pub open spec fn texts(v: Seq<String>) -> Seq<Seq<char>> {
    Seq::new(v.len(), |i: int| v[i]@)
}

impl View for NetworkMessage {
    type V = MessageView;

    open spec fn view(&self) -> MessageView {
        match self {
            NetworkMessage::Hello { version, height, agent } => MessageView::Hello {
                version: *version,
                height: *height,
                agent: agent@,
            },
            NetworkMessage::GetAddr => MessageView::GetAddr,
            NetworkMessage::Addr(addresses) => MessageView::Addr(texts(addresses@)),
            NetworkMessage::Block(block) => MessageView::Block(block@),
            NetworkMessage::Transaction(tx) => MessageView::Transaction(tx@),
            NetworkMessage::Ping => MessageView::Ping,
            NetworkMessage::Pong => MessageView::Pong,
        }
    }
}

/// The handshake of an outbound connection at chain height `height`: a
/// `Hello` followed by a `GetAddr`.
pub open spec fn handshake_of(height: u64) -> Seq<MessageView> {
    seq![
        MessageView::Hello { version: PROTOCOL_VERSION, height, agent: AGENT@ },
        MessageView::GetAddr,
    ]
}

/// The contents of a vector of messages.
pub open spec fn message_views(v: Seq<NetworkMessage>) -> Seq<MessageView> {
    Seq::new(v.len(), |i: int| v[i]@)
}

/// Builds the messages that open an outbound connection.
pub fn handshake(height: u64) -> (messages: Vec<NetworkMessage>)
    ensures
        message_views(messages@) == handshake_of(height),
{
    let hello = NetworkMessage::Hello {
        version: PROTOCOL_VERSION,
        height,
        agent: AGENT.to_owned(),
    };
    let mut messages: Vec<NetworkMessage> = Vec::new();
    messages.push(hello);
    messages.push(NetworkMessage::GetAddr);
    messages
}

} // verus!
