//! Consensus and peer-session core of a blockchain node.
//!
//! The crate holds the rules that every participant has to apply in the
//! same way: the identity of a block (the double digest of its header), the
//! Merkle root over its transactions, the proof-of-work check, and the
//! decisions of the peer-to-peer layer (who is registered as a peer, what a
//! session answers to each message). Sockets, threads and the chain itself
//! live outside; they hand plain values in and carry the decisions out.

pub mod block;
pub mod digest;
pub mod encoding;
pub mod message;
pub mod p2p;
pub mod session;
