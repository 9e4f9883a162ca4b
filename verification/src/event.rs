//! What the hub sends, what it asks to have stored, and to whom it delivers.

use vstd::prelude::*;
use crate::registry::ConnectionId;
use crate::text::{copy_texts, texts};

verus! {

/// The text of a string that may be absent.
pub open spec fn option_text(value: Option<String>) -> Option<Seq<char>> {
    match value {
        Some(inner) => Some(inner@),
        None => None,
    }
}

/// The texts of a list of strings that may be absent.
pub open spec fn option_texts(value: Option<Vec<String>>) -> Option<Seq<Seq<char>>> {
    match value {
        Some(inner) => Some(texts(inner@)),
        None => None,
    }
}

/// One chat message, as it goes out to its recipients and into the store.
#[derive(Debug, PartialEq, Eq)]
pub struct ChatMessage {
    /// The identity of the session that sent it.
    pub sender_id: String,
    /// An identity, or the name of a group where `is_group` holds.
    pub target_id: String,
    pub is_group: bool,
    pub content: Option<String>,
    pub attachments: Option<Vec<String>>,
    pub kind: String,
    /// Milliseconds since the epoch, taken when the hub handled the message.
    pub timestamp: i64,
}

/// What a [`ChatMessage`] says.
pub struct ChatMessageView {
    pub sender_id: Seq<char>,
    pub target_id: Seq<char>,
    pub is_group: bool,
    pub content: Option<Seq<char>>,
    pub attachments: Option<Seq<Seq<char>>>,
    pub kind: Seq<char>,
    pub timestamp: i64,
}

impl View for ChatMessage {
    type V = ChatMessageView;

    open spec fn view(&self) -> ChatMessageView {
        ChatMessageView {
            sender_id: self.sender_id@,
            target_id: self.target_id@,
            is_group: self.is_group,
            content: option_text(self.content),
            attachments: option_texts(self.attachments),
            kind: self.kind@,
            timestamp: self.timestamp,
        }
    }
}

impl Clone for ChatMessage {
    fn clone(&self) -> (copy: Self)
        ensures
            copy@ == self@,
    {
        let content = match &self.content {
            Some(inner) => Some(inner.clone()),
            None => None,
        };
        let attachments = match &self.attachments {
            Some(inner) => Some(copy_texts(inner)),
            None => None,
        };
        ChatMessage {
            sender_id: self.sender_id.clone(),
            target_id: self.target_id.clone(),
            is_group: self.is_group,
            content,
            attachments,
            kind: self.kind.clone(),
            timestamp: self.timestamp,
        }
    }
}

/// One call-signalling message, as it goes out to the callee.
#[derive(Debug, PartialEq, Eq)]
pub struct SignalMessage {
    /// The identity of the session that sent it.
    pub sender_id: String,
    /// The payload as the sender gave it.
    pub payload: serde_json::Value,
}

/// What a [`SignalMessage`] says.
pub struct SignalMessageView {
    pub sender_id: Seq<char>,
    pub payload: serde_json::Value,
}

impl View for SignalMessage {
    type V = SignalMessageView;

    open spec fn view(&self) -> SignalMessageView {
        SignalMessageView { sender_id: self.sender_id@, payload: self.payload }
    }
}

/// A message from the hub to a client.
#[derive(Debug, PartialEq, Eq)]
pub enum ServerMessage {
    Chat(ChatMessage),
    Signal(SignalMessage),
}

/// What a [`ServerMessage`] says.
pub enum ServerMessageView {
    Chat(ChatMessageView),
    Signal(SignalMessageView),
}

impl View for ServerMessage {
    type V = ServerMessageView;

    open spec fn view(&self) -> ServerMessageView {
        match self {
            ServerMessage::Chat(chat) => ServerMessageView::Chat(chat@),
            ServerMessage::Signal(signal) => ServerMessageView::Signal(signal@),
        }
    }
}

/// How a call ended, as a signal's payload says it.
#[derive(Debug, Clone, Copy, PartialEq, Eq, Structural)]
pub enum CallStatus {
    Bye,
    EndCall,
    Reject,
}

/// The record of a call that ended.
#[derive(Debug, PartialEq, Eq)]
pub struct CallRecord {
    pub caller_id: String,
    pub callee_id: String,
    pub status: CallStatus,
    /// Milliseconds since the epoch, taken when the hub handled the signal.
    pub timestamp: i64,
    /// The whole payload of the signal that ended the call.
    pub payload: serde_json::Value,
}

/// What a [`CallRecord`] says.
pub struct CallRecordView {
    pub caller_id: Seq<char>,
    pub callee_id: Seq<char>,
    pub status: CallStatus,
    pub timestamp: i64,
    pub payload: serde_json::Value,
}

impl View for CallRecord {
    type V = CallRecordView;

    open spec fn view(&self) -> CallRecordView {
        CallRecordView {
            caller_id: self.caller_id@,
            callee_id: self.callee_id@,
            status: self.status,
            timestamp: self.timestamp,
            payload: self.payload,
        }
    }
}

/// A document that the caller is to write to the store.
#[derive(Debug, PartialEq, Eq)]
pub enum Record {
    Message(ChatMessage),
    Call(CallRecord),
}

/// What a [`Record`] says.
pub enum RecordView {
    Message(ChatMessageView),
    Call(CallRecordView),
}

impl View for Record {
    type V = RecordView;

    open spec fn view(&self) -> RecordView {
        match self {
            Record::Message(chat) => RecordView::Message(chat@),
            Record::Call(call) => RecordView::Call(call@),
        }
    }
}

/// One recipient of a message: an identity and the connection that the
/// registry names for it.
#[derive(Debug, PartialEq, Eq)]
pub struct Delivery {
    pub recipient: String,
    pub connection: ConnectionId,
}

/// What a [`Delivery`] says.
pub struct DeliveryView {
    pub recipient: Seq<char>,
    pub connection: ConnectionId,
}

impl View for Delivery {
    type V = DeliveryView;

    open spec fn view(&self) -> DeliveryView {
        DeliveryView { recipient: self.recipient@, connection: self.connection }
    }
}

/// What a list of deliveries says, in the order of the list.
pub open spec fn delivery_views(list: Seq<Delivery>) -> Seq<DeliveryView> {
    list.map_values(|d: Delivery| d@)
}

/// What handling one inbound event asks of the caller: put `message` on
/// the send queue of every connection in `deliveries`, in that order, and
/// write `record` to the store. The two are independent of each other.
#[derive(Debug, PartialEq, Eq)]
pub struct Outcome {
    pub message: Option<ServerMessage>,
    pub deliveries: Vec<Delivery>,
    pub record: Option<Record>,
}

/// What an [`Outcome`] says.
pub struct OutcomeView {
    pub message: Option<ServerMessageView>,
    pub deliveries: Seq<DeliveryView>,
    pub record: Option<RecordView>,
}

impl View for Outcome {
    type V = OutcomeView;

    open spec fn view(&self) -> OutcomeView {
        OutcomeView {
            message: match self.message {
                Some(message) => Some(message@),
                None => None,
            },
            deliveries: delivery_views(self.deliveries@),
            record: match self.record {
                Some(record) => Some(record@),
                None => None,
            },
        }
    }
}

/// The outcome that asks for nothing.
pub open spec fn no_outcome() -> OutcomeView {
    OutcomeView { message: None, deliveries: Seq::empty(), record: None }
}

impl Outcome {
    /// An outcome that asks for nothing: no message, no recipient, no record.
    pub fn nothing() -> (outcome: Outcome)
        ensures
            outcome@ == no_outcome(),
    {
        let outcome = Outcome { message: None, deliveries: Vec::new(), record: None };
        assert(outcome@.deliveries =~= Seq::empty());
        outcome
    }
}

} // verus!
