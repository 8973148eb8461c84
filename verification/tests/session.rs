use node_core::block::{Block, BlockHeader, Transaction};
use node_core::message::{handshake, NetworkMessage, AGENT, MAX_MESSAGE_SIZE, PROTOCOL_VERSION};
use node_core::session::{
    dispatch, SessionAction, SessionEvent, SessionState, ACCEPT_BACKOFF_MILLIS, READ_TIMEOUT_SECS,
};

fn read(len: usize, message: Option<NetworkMessage>) -> SessionEvent {
    SessionEvent::Read { len, message }
}

fn sample_block() -> Block {
    Block {
        header: BlockHeader {
            height: 3,
            timestamp: 1_700_000_000,
            prev_hash: vec![1u8; 32],
            nonce: 9,
            difficulty: 4,
            merkle_root: vec![2u8; 32],
        },
        transactions: vec![sample_transaction()],
        hash: vec![3u8; 32],
    }
}

fn sample_transaction() -> Transaction {
    Transaction { id: vec![7u8; 32], payload: vec![1, 2, 3, 4] }
}

fn hello() -> NetworkMessage {
    NetworkMessage::Hello { version: PROTOCOL_VERSION, height: 5, agent: "other".to_string() }
}

#[test]
fn constants_have_their_values() {
    assert_eq!(MAX_MESSAGE_SIZE, 1_048_576);
    assert_eq!(READ_TIMEOUT_SECS, 30);
    assert_eq!(ACCEPT_BACKOFF_MILLIS, 100);
    assert_eq!(AGENT, "bitcoin-revelation-seed");
}

#[test]
fn handshake_is_hello_then_get_addr() {
    let messages = handshake(77);
    assert_eq!(
        messages,
        vec![
            NetworkMessage::Hello {
                version: PROTOCOL_VERSION,
                height: 77,
                agent: "bitcoin-revelation-seed".to_string(),
            },
            NetworkMessage::GetAddr,
        ]
    );
}

#[test]
fn successful_dial_establishes_and_greets() {
    let (state, action) = SessionState::Connecting.step(SessionEvent::Connected { height: 12 });
    assert_eq!(state, SessionState::Established);
    assert_eq!(action, SessionAction::Greet(handshake(12)));
}

#[test]
fn failed_dial_closes_without_more() {
    let (state, action) = SessionState::Connecting.step(SessionEvent::ConnectFailed);
    assert_eq!(state, SessionState::Closed);
    assert_eq!(action, SessionAction::Idle);
}

#[test]
fn connecting_session_reads_nothing() {
    let (state, action) = SessionState::Connecting.step(read(4, Some(NetworkMessage::Ping)));
    assert_eq!(state, SessionState::Connecting);
    assert_eq!(action, SessionAction::Idle);
    let (state, action) = SessionState::Connecting.step(SessionEvent::ReadFailed);
    assert_eq!(state, SessionState::Connecting);
    assert_eq!(action, SessionAction::Idle);
}

#[test]
fn ping_is_answered_with_pong() {
    let (state, action) = SessionState::Established.step(read(4, Some(NetworkMessage::Ping)));
    assert_eq!(state, SessionState::Established);
    assert_eq!(action, SessionAction::Reply(NetworkMessage::Pong));
}

#[test]
fn get_addr_is_answered_from_the_peer_table() {
    let (state, action) = SessionState::Established.step(read(4, Some(NetworkMessage::GetAddr)));
    assert_eq!(state, SessionState::Established);
    assert_eq!(action, SessionAction::ShareAddresses);
}

#[test]
fn block_is_handed_to_the_chain() {
    let (state, action) =
        SessionState::Established.step(read(500, Some(NetworkMessage::Block(sample_block()))));
    assert_eq!(state, SessionState::Established);
    assert_eq!(action, SessionAction::AddBlock(sample_block()));
}

#[test]
fn transaction_is_handed_to_the_validator() {
    let (state, action) = SessionState::Established
        .step(read(80, Some(NetworkMessage::Transaction(sample_transaction()))));
    assert_eq!(state, SessionState::Established);
    assert_eq!(action, SessionAction::ValidateTransaction(sample_transaction()));
}

#[test]
fn hello_addr_and_pong_do_nothing() {
    let quiet = vec![
        hello(),
        NetworkMessage::Addr(vec!["10.0.0.2:8333".to_string()]),
        NetworkMessage::Addr(Vec::new()),
        NetworkMessage::Pong,
    ];
    for message in quiet {
        let (state, action) = SessionState::Established.step(read(10, Some(message)));
        assert_eq!(state, SessionState::Established);
        assert_eq!(action, SessionAction::Idle);
    }
}

#[test]
fn messages_are_taken_before_any_hello() {
    let state = SessionState::Established;
    let (state, action) = state.step(read(4, Some(NetworkMessage::Ping)));
    assert_eq!(action, SessionAction::Reply(NetworkMessage::Pong));
    let (state, action) = state.step(read(40, Some(hello())));
    assert_eq!(action, SessionAction::Idle);
    let (state, action) = state.step(read(4, Some(NetworkMessage::GetAddr)));
    assert_eq!(action, SessionAction::ShareAddresses);
    assert_eq!(state, SessionState::Established);
}

#[test]
fn undecodable_payload_then_ping_still_gets_pong() {
    let state = SessionState::Established;
    let (state, action) = state.step(read(17, None));
    assert_eq!(state, SessionState::Established);
    assert_eq!(action, SessionAction::Idle);
    let (state, action) = state.step(read(4, Some(NetworkMessage::Ping)));
    assert_eq!(state, SessionState::Established);
    assert_eq!(action, SessionAction::Reply(NetworkMessage::Pong));
}

#[test]
fn many_undecodable_payloads_do_not_close() {
    let mut state = SessionState::Established;
    for len in 1..50usize {
        let (next, action) = state.step(read(len, None));
        assert_eq!(next, SessionState::Established);
        assert_eq!(action, SessionAction::Idle);
        state = next;
    }
    let (_, action) = state.step(read(MAX_MESSAGE_SIZE, None));
    assert_eq!(action, SessionAction::Idle);
}

#[test]
fn zero_length_read_closes_and_forgets() {
    let (state, action) = SessionState::Established.step(read(0, None));
    assert_eq!(state, SessionState::Closed);
    assert_eq!(action, SessionAction::Forget);
}

#[test]
fn zero_length_read_closes_whatever_was_decoded() {
    let (state, action) = SessionState::Established.step(read(0, Some(NetworkMessage::Ping)));
    assert_eq!(state, SessionState::Closed);
    assert_eq!(action, SessionAction::Forget);
}

#[test]
fn failed_read_closes_and_forgets() {
    let (state, action) = SessionState::Established.step(SessionEvent::ReadFailed);
    assert_eq!(state, SessionState::Closed);
    assert_eq!(action, SessionAction::Forget);
}

#[test]
fn closed_session_stays_closed() {
    let events = vec![
        read(4, Some(NetworkMessage::Ping)),
        read(0, None),
        read(9, None),
        SessionEvent::ReadFailed,
        SessionEvent::Connected { height: 1 },
        SessionEvent::ConnectFailed,
    ];
    for event in events {
        let (state, action) = SessionState::Closed.step(event);
        assert_eq!(state, SessionState::Closed);
        assert_eq!(action, SessionAction::Idle);
    }
}

#[test]
fn established_session_ignores_dial_outcomes() {
    let (state, action) = SessionState::Established.step(SessionEvent::Connected { height: 1 });
    assert_eq!(state, SessionState::Established);
    assert_eq!(action, SessionAction::Idle);
    let (state, action) = SessionState::Established.step(SessionEvent::ConnectFailed);
    assert_eq!(state, SessionState::Established);
    assert_eq!(action, SessionAction::Idle);
}

#[test]
fn dispatch_by_variant() {
    assert_eq!(dispatch(NetworkMessage::GetAddr), SessionAction::ShareAddresses);
    assert_eq!(dispatch(NetworkMessage::Ping), SessionAction::Reply(NetworkMessage::Pong));
    assert_eq!(dispatch(NetworkMessage::Pong), SessionAction::Idle);
    assert_eq!(dispatch(hello()), SessionAction::Idle);
    assert_eq!(dispatch(NetworkMessage::Addr(Vec::new())), SessionAction::Idle);
    assert_eq!(
        dispatch(NetworkMessage::Block(sample_block())),
        SessionAction::AddBlock(sample_block())
    );
    assert_eq!(
        dispatch(NetworkMessage::Transaction(sample_transaction())),
        SessionAction::ValidateTransaction(sample_transaction())
    );
}

#[test]
fn outbound_session_from_dial_to_close() {
    let state = SessionState::Connecting;
    let (state, action) = state.step(SessionEvent::Connected { height: 0 });
    assert_eq!(action, SessionAction::Greet(handshake(0)));
    let (state, action) = state.step(read(30, Some(NetworkMessage::Addr(Vec::new()))));
    assert_eq!(action, SessionAction::Idle);
    let (state, action) = state.step(read(3, None));
    assert_eq!(action, SessionAction::Idle);
    let (state, action) = state.step(read(4, Some(NetworkMessage::Ping)));
    assert_eq!(action, SessionAction::Reply(NetworkMessage::Pong));
    let (state, action) = state.step(read(0, None));
    assert_eq!(action, SessionAction::Forget);
    assert_eq!(state, SessionState::Closed);
}
