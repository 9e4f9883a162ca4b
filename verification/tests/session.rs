use realtime_hub::event::{
    CallRecord, CallStatus, ChatMessage, Delivery, Outcome, Record, ServerMessage, SignalMessage,
};
use realtime_hub::session::{Session, SessionPhase};
use realtime_hub::ws::{AppState, ClientMessage, Frame};

const NOTHING: Outcome = Outcome { message: None, deliveries: Vec::new(), record: None };

fn opened(state: &mut AppState, identity: &str, connection: u64) -> Session {
    let mut session = Session::new(identity.to_string());
    session.open(state, connection);
    session
}

fn join_group(user: &str, group: &str) -> Frame {
    Frame::Message(ClientMessage::JoinGroup { user_id: user.to_string(), group_id: group.to_string() })
}

fn leave_group(user: &str, group: &str) -> Frame {
    Frame::Message(ClientMessage::LeaveGroup { user_id: user.to_string(), group_id: group.to_string() })
}

fn chat_to(target: &str, is_group: bool, content: &str) -> Frame {
    Frame::Message(ClientMessage::Chat {
        target_id: target.to_string(),
        is_group,
        content: Some(content.to_string()),
        attachments: None,
        kind: "text".to_string(),
    })
}

fn signal_to(target: &str, payload: &str) -> Frame {
    Frame::Message(ClientMessage::Signal {
        target_id: target.to_string(),
        payload: serde_json::from_str(payload).unwrap(),
    })
}

fn stamped(sender: &str, target: &str, is_group: bool, content: &str, timestamp: i64) -> ChatMessage {
    ChatMessage {
        sender_id: sender.to_string(),
        target_id: target.to_string(),
        is_group,
        content: Some(content.to_string()),
        attachments: None,
        kind: "text".to_string(),
        timestamp,
    }
}

fn to(recipient: &str, connection: u64) -> Delivery {
    Delivery { recipient: recipient.to_string(), connection }
}

fn sorted(mut list: Vec<String>) -> Vec<String> {
    list.sort();
    list
}

fn sorted_deliveries(mut list: Vec<Delivery>) -> Vec<Delivery> {
    list.sort_by(|a, b| a.recipient.cmp(&b.recipient));
    list
}

#[test]
fn a_new_hub_is_empty() {
    let state = AppState::new();
    assert_eq!(state.connections.lookup("alice"), None);
    assert_eq!(state.groups.members("room"), Vec::<String>::new());
}

#[test]
fn a_new_session_is_not_registered() {
    let state = AppState::new();
    let session = Session::new("alice".to_string());
    assert_eq!(session.phase(), SessionPhase::Authenticating);
    assert_eq!(session.identity(), "alice");
    assert_eq!(session.connection(), 0);
    assert_eq!(session.groups(), &Vec::<String>::new());
    assert_eq!(state.connections.lookup("alice"), None);
}

#[test]
fn open_registers_the_session_and_makes_it_active() {
    let mut state = AppState::new();
    let session = opened(&mut state, "alice", 11);
    assert_eq!(session.phase(), SessionPhase::Active);
    assert_eq!(session.connection(), 11);
    assert_eq!(state.connections.lookup("alice"), Some(11));
}

#[test]
fn open_of_a_later_session_takes_the_entry() {
    let mut state = AppState::new();
    let _first = opened(&mut state, "alice", 1);
    let _second = opened(&mut state, "alice", 2);
    assert_eq!(state.connections.lookup("alice"), Some(2));
}

#[test]
fn open_happens_once() {
    let mut state = AppState::new();
    let mut session = opened(&mut state, "alice", 1);
    session.open(&mut state, 2);
    assert_eq!(session.connection(), 1);
    assert_eq!(session.phase(), SessionPhase::Active);
    assert_eq!(state.connections.lookup("alice"), Some(1));
    session.close(&mut state);
    session.open(&mut state, 3);
    assert_eq!(session.phase(), SessionPhase::Closed);
    assert_eq!(state.connections.lookup("alice"), None);
}

#[test]
fn a_session_that_is_not_open_handles_nothing() {
    let mut state = AppState::new();
    let mut session = Session::new("alice".to_string());
    assert_eq!(session.receive(&mut state, join_group("alice", "room"), 1), NOTHING);
    assert_eq!(session.receive(&mut state, chat_to("bob", false, "hi"), 1), NOTHING);
    assert_eq!(session.receive(&mut state, Frame::End, 1), NOTHING);
    assert_eq!(session.phase(), SessionPhase::Authenticating);
    assert_eq!(state.groups.members("room"), Vec::<String>::new());
}

#[test]
fn join_group_in_the_own_name_joins_and_is_noted() {
    let mut state = AppState::new();
    let mut session = opened(&mut state, "alice", 1);
    assert_eq!(session.receive(&mut state, join_group("alice", "room"), 5), NOTHING);
    assert_eq!(state.groups.members("room"), vec!["alice".to_string()]);
    assert_eq!(session.groups(), &vec!["room".to_string()]);
}

#[test]
fn join_group_twice_leaves_one_member_and_two_notes() {
    let mut state = AppState::new();
    let mut session = opened(&mut state, "alice", 1);
    session.receive(&mut state, join_group("alice", "room"), 5);
    session.receive(&mut state, join_group("alice", "room"), 6);
    assert_eq!(state.groups.members("room"), vec!["alice".to_string()]);
    assert_eq!(session.groups(), &vec!["room".to_string(), "room".to_string()]);
}

#[test]
fn join_group_in_the_name_of_another_changes_nothing() {
    let mut state = AppState::new();
    let mut mallory = opened(&mut state, "mallory", 1);
    let _alice = opened(&mut state, "alice", 2);
    assert_eq!(mallory.receive(&mut state, join_group("alice", "room"), 5), NOTHING);
    assert_eq!(state.groups.members("room"), Vec::<String>::new());
    assert_eq!(mallory.groups(), &Vec::<String>::new());
    assert_eq!(state.connections.lookup("alice"), Some(2));
    assert_eq!(state.connections.lookup("mallory"), Some(1));
}

#[test]
fn leave_group_in_the_own_name_leaves() {
    let mut state = AppState::new();
    let mut alice = opened(&mut state, "alice", 1);
    let mut bob = opened(&mut state, "bob", 2);
    alice.receive(&mut state, join_group("alice", "room"), 5);
    bob.receive(&mut state, join_group("bob", "room"), 5);
    assert_eq!(alice.receive(&mut state, leave_group("alice", "room"), 6), NOTHING);
    assert_eq!(state.groups.members("room"), vec!["bob".to_string()]);
    assert_eq!(alice.groups(), &vec!["room".to_string()]);
}

#[test]
fn leave_group_in_the_name_of_another_changes_nothing() {
    let mut state = AppState::new();
    let mut alice = opened(&mut state, "alice", 1);
    let mut mallory = opened(&mut state, "mallory", 2);
    alice.receive(&mut state, join_group("alice", "room"), 5);
    assert_eq!(mallory.receive(&mut state, leave_group("alice", "room"), 6), NOTHING);
    assert_eq!(state.groups.members("room"), vec!["alice".to_string()]);
}

#[test]
fn the_old_join_message_changes_nothing() {
    let mut state = AppState::new();
    let mut session = opened(&mut state, "alice", 1);
    let frame = Frame::Message(ClientMessage::Join { user_id: "bob".to_string() });
    assert_eq!(session.receive(&mut state, frame, 5), NOTHING);
    assert_eq!(session.identity(), "alice");
    assert_eq!(state.connections.lookup("alice"), Some(1));
    assert_eq!(state.connections.lookup("bob"), None);
}

#[test]
fn a_malformed_frame_is_dropped_and_the_session_stays_active() {
    let mut state = AppState::new();
    let mut session = opened(&mut state, "alice", 1);
    assert_eq!(session.receive(&mut state, Frame::Malformed, 5), NOTHING);
    assert_eq!(session.phase(), SessionPhase::Active);
    assert_eq!(state.connections.lookup("alice"), Some(1));
}

#[test]
fn chat_between_two_active_sessions_reaches_both_and_is_stored() {
    let mut state = AppState::new();
    let mut alice = opened(&mut state, "alice", 1);
    let _bob = opened(&mut state, "bob", 2);
    let outcome = alice.receive(&mut state, chat_to("bob", false, "hi"), 1_700_000_000_000);
    assert_eq!(
        outcome,
        Outcome {
            message: Some(ServerMessage::Chat(stamped("alice", "bob", false, "hi", 1_700_000_000_000))),
            deliveries: vec![to("bob", 2), to("alice", 1)],
            record: Some(Record::Message(stamped("alice", "bob", false, "hi", 1_700_000_000_000))),
        }
    );
}

#[test]
fn chat_is_sent_in_the_name_of_the_session() {
    let mut state = AppState::new();
    let mut mallory = opened(&mut state, "mallory", 1);
    let _bob = opened(&mut state, "bob", 2);
    let outcome = mallory.receive(&mut state, chat_to("bob", false, "I am alice"), 10);
    match outcome.message {
        Some(ServerMessage::Chat(chat)) => assert_eq!(chat.sender_id, "mallory"),
        other => panic!("expected a chat message, got {:?}", other),
    }
    match outcome.record {
        Some(Record::Message(chat)) => assert_eq!(chat.sender_id, "mallory"),
        other => panic!("expected a message record, got {:?}", other),
    }
}

#[test]
fn chat_to_a_target_without_connection_is_stored_and_only_echoed() {
    let mut state = AppState::new();
    let mut alice = opened(&mut state, "alice", 1);
    let outcome = alice.receive(&mut state, chat_to("nobody", false, "hi"), 7);
    assert_eq!(outcome.deliveries, vec![to("alice", 1)]);
    assert_eq!(outcome.record, Some(Record::Message(stamped("alice", "nobody", false, "hi", 7))));
}

#[test]
fn group_chat_reaches_the_live_members_and_the_sender() {
    let mut state = AppState::new();
    let mut alice = opened(&mut state, "alice", 1);
    let mut bob = opened(&mut state, "bob", 2);
    let mut carol = opened(&mut state, "carol", 3);
    let _dave = opened(&mut state, "dave", 4);
    alice.receive(&mut state, join_group("alice", "room"), 1);
    bob.receive(&mut state, join_group("bob", "room"), 1);
    carol.receive(&mut state, join_group("carol", "room"), 1);
    carol.receive(&mut state, Frame::End, 2);
    let outcome = alice.receive(&mut state, chat_to("room", true, "all"), 3);
    // carol has not been torn down yet: she is still registered and a member
    assert_eq!(
        sorted_deliveries(outcome.deliveries),
        vec![to("alice", 1), to("bob", 2), to("carol", 3)]
    );
    carol.close(&mut state);
    let outcome = alice.receive(&mut state, chat_to("room", true, "all"), 4);
    assert_eq!(sorted_deliveries(outcome.deliveries), vec![to("alice", 1), to("bob", 2)]);
    assert_eq!(outcome.record, Some(Record::Message(stamped("alice", "room", true, "all", 4))));
    assert_eq!(outcome.message, Some(ServerMessage::Chat(stamped("alice", "room", true, "all", 4))));
}

#[test]
fn chat_changes_neither_hub_nor_session() {
    let mut state = AppState::new();
    let mut alice = opened(&mut state, "alice", 1);
    alice.receive(&mut state, join_group("alice", "room"), 1);
    alice.receive(&mut state, chat_to("room", true, "x"), 2);
    alice.receive(&mut state, chat_to("bob", false, "y"), 3);
    assert_eq!(state.connections.lookup("alice"), Some(1));
    assert_eq!(state.connections.lookup("bob"), None);
    assert_eq!(state.groups.members("room"), vec!["alice".to_string()]);
    assert_eq!(state.groups.members("bob"), Vec::<String>::new());
    assert_eq!(alice.groups(), &vec!["room".to_string()]);
    assert_eq!(alice.phase(), SessionPhase::Active);
}

#[test]
fn signal_bye_from_caller_to_callee() {
    let mut state = AppState::new();
    let mut carol = opened(&mut state, "carol", 3);
    let _dave = opened(&mut state, "dave", 4);
    let outcome = carol.receive(&mut state, signal_to("dave", r#"{"type":"bye"}"#), 42);
    let payload: serde_json::Value = serde_json::from_str(r#"{"type":"bye"}"#).unwrap();
    assert_eq!(
        outcome,
        Outcome {
            message: Some(ServerMessage::Signal(SignalMessage {
                sender_id: "carol".to_string(),
                payload: payload.clone(),
            })),
            deliveries: vec![to("dave", 4)],
            record: Some(Record::Call(CallRecord {
                caller_id: "carol".to_string(),
                callee_id: "dave".to_string(),
                status: CallStatus::Bye,
                timestamp: 42,
                payload,
            })),
        }
    );
}

#[test]
fn signal_offer_is_forwarded_without_a_call_record() {
    let mut state = AppState::new();
    let mut carol = opened(&mut state, "carol", 3);
    let _dave = opened(&mut state, "dave", 4);
    let outcome = carol.receive(&mut state, signal_to("dave", r#"{"type":"offer"}"#), 42);
    assert_eq!(outcome.record, None);
    assert_eq!(outcome.deliveries, vec![to("dave", 4)]);
}

#[test]
fn signal_to_a_target_without_connection_goes_nowhere() {
    let mut state = AppState::new();
    let mut carol = opened(&mut state, "carol", 3);
    let outcome = carol.receive(&mut state, signal_to("dave", r#"{"type":"offer"}"#), 42);
    assert_eq!(outcome.deliveries, Vec::<Delivery>::new());
    assert_eq!(outcome.record, None);
}

#[test]
fn the_end_of_the_stream_moves_the_session_to_closing() {
    let mut state = AppState::new();
    let mut alice = opened(&mut state, "alice", 1);
    assert_eq!(alice.receive(&mut state, Frame::End, 9), NOTHING);
    assert_eq!(alice.phase(), SessionPhase::Closing);
    // the teardown has not happened yet
    assert_eq!(state.connections.lookup("alice"), Some(1));
    // and nothing is handled any more
    assert_eq!(alice.receive(&mut state, join_group("alice", "room"), 10), NOTHING);
    assert_eq!(state.groups.members("room"), Vec::<String>::new());
    assert_eq!(alice.phase(), SessionPhase::Closing);
}

#[test]
fn close_unregisters_and_leaves_every_joined_group() {
    let mut state = AppState::new();
    let mut alice = opened(&mut state, "alice", 1);
    let mut bob = opened(&mut state, "bob", 2);
    alice.receive(&mut state, join_group("alice", "room"), 1);
    alice.receive(&mut state, join_group("alice", "hall"), 1);
    alice.receive(&mut state, join_group("alice", "room"), 1);
    bob.receive(&mut state, join_group("bob", "room"), 1);
    alice.receive(&mut state, Frame::End, 2);
    alice.close(&mut state);
    assert_eq!(alice.phase(), SessionPhase::Closed);
    assert_eq!(state.connections.lookup("alice"), None);
    assert_eq!(state.connections.lookup("bob"), Some(2));
    assert_eq!(state.groups.members("room"), vec!["bob".to_string()]);
    assert_eq!(state.groups.members("hall"), Vec::<String>::new());
    assert_eq!(alice.groups(), &vec!["room".to_string(), "hall".to_string(), "room".to_string()]);
}

#[test]
fn close_of_an_active_session_tears_it_down_too() {
    let mut state = AppState::new();
    let mut alice = opened(&mut state, "alice", 1);
    alice.receive(&mut state, join_group("alice", "room"), 1);
    alice.close(&mut state);
    assert_eq!(alice.phase(), SessionPhase::Closed);
    assert_eq!(state.connections.lookup("alice"), None);
    assert_eq!(state.groups.members("room"), Vec::<String>::new());
}

#[test]
fn close_leaves_the_entry_of_a_later_session_of_the_same_identity() {
    let mut state = AppState::new();
    let mut old = opened(&mut state, "alice", 1);
    let mut new = opened(&mut state, "alice", 2);
    old.receive(&mut state, join_group("alice", "room"), 1);
    new.receive(&mut state, join_group("alice", "hall"), 1);
    old.receive(&mut state, Frame::End, 2);
    old.close(&mut state);
    assert_eq!(state.connections.lookup("alice"), Some(2));
    // the groups that the old session joined are left, the others are not
    assert_eq!(state.groups.members("room"), Vec::<String>::new());
    assert_eq!(state.groups.members("hall"), vec!["alice".to_string()]);
    new.close(&mut state);
    assert_eq!(state.connections.lookup("alice"), None);
    assert_eq!(state.groups.members("hall"), Vec::<String>::new());
}

#[test]
fn close_of_a_session_that_was_never_opened_changes_nothing() {
    let mut state = AppState::new();
    let _alice = opened(&mut state, "alice", 0);
    let mut ghost = Session::new("alice".to_string());
    ghost.close(&mut state);
    assert_eq!(ghost.phase(), SessionPhase::Closed);
    assert_eq!(state.connections.lookup("alice"), Some(0));
}

#[test]
fn a_closed_session_handles_nothing_and_close_is_idempotent() {
    let mut state = AppState::new();
    let mut alice = opened(&mut state, "alice", 1);
    alice.close(&mut state);
    let _again = opened(&mut state, "alice", 1);
    alice.close(&mut state);
    assert_eq!(state.connections.lookup("alice"), Some(1));
    assert_eq!(alice.receive(&mut state, chat_to("alice", false, "late"), 3), NOTHING);
    assert_eq!(alice.receive(&mut state, join_group("alice", "room"), 3), NOTHING);
    assert_eq!(state.groups.members("room"), Vec::<String>::new());
    assert_eq!(alice.phase(), SessionPhase::Closed);
}

#[test]
fn a_group_left_by_hand_and_joined_by_another_keeps_the_other() {
    let mut state = AppState::new();
    let mut alice = opened(&mut state, "alice", 1);
    let mut bob = opened(&mut state, "bob", 2);
    alice.receive(&mut state, join_group("alice", "room"), 1);
    alice.receive(&mut state, leave_group("alice", "room"), 2);
    bob.receive(&mut state, join_group("bob", "room"), 3);
    alice.close(&mut state);
    assert_eq!(sorted(state.groups.members("room")), vec!["bob".to_string()]);
}
