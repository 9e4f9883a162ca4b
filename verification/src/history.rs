//! Queries for what the store holds: which records a request for history
//! asks for, how many of them, and in what order they are handed out.

use vstd::prelude::*;
use crate::event::{option_text, CallRecord, CallRecordView, ChatMessage, ChatMessageView};

verus! {

/// How many chat messages a request gets where it names no limit.
pub const DEFAULT_MESSAGE_LIMIT: i64 = 50;

/// How many call records a request gets where it names no limit.
pub const DEFAULT_CALL_LIMIT: i64 = 20;

/// A request for history, as a client makes it.
#[derive(Debug, PartialEq, Eq)]
pub struct HistoryQuery {
    /// The identity that asks.
    pub user_id: String,
    /// The other side of a conversation between two.
    pub target_id: Option<String>,
    /// A group. Where it is given, `target_id` does not count.
    pub group_id: Option<String>,
    pub limit: Option<i64>,
}

/// What a [`HistoryQuery`] says.
pub struct HistoryQueryView {
    pub user_id: Seq<char>,
    pub target_id: Option<Seq<char>>,
    pub group_id: Option<Seq<char>>,
    pub limit: Option<i64>,
}

impl View for HistoryQuery {
    type V = HistoryQueryView;

    open spec fn view(&self) -> HistoryQueryView {
        HistoryQueryView {
            user_id: self.user_id@,
            target_id: option_text(self.target_id),
            group_id: option_text(self.group_id),
            limit: self.limit,
        }
    }
}

/// Which chat messages a request for history asks for.
#[derive(Debug, PartialEq, Eq)]
pub enum MessageFilter {
    /// The messages sent to one group.
    Group { group_id: String },
    /// The messages that two identities sent to each other.
    Conversation { user_id: String, peer_id: String },
    /// The messages that one identity sent or received.
    Involving { user_id: String },
}

/// What a [`MessageFilter`] says.
pub enum MessageFilterView {
    Group { group_id: Seq<char> },
    Conversation { user_id: Seq<char>, peer_id: Seq<char> },
    Involving { user_id: Seq<char> },
}

impl View for MessageFilter {
    type V = MessageFilterView;

    open spec fn view(&self) -> MessageFilterView {
        match self {
            MessageFilter::Group { group_id } => MessageFilterView::Group { group_id: group_id@ },
            MessageFilter::Conversation { user_id, peer_id } => MessageFilterView::Conversation {
                user_id: user_id@,
                peer_id: peer_id@,
            },
            MessageFilter::Involving { user_id } => MessageFilterView::Involving { user_id: user_id@ },
        }
    }
}

impl MessageFilterView {
    /// Whether the filter lets `message` through.
    pub open spec fn admits(self, message: ChatMessageView) -> bool {
        match self {
            MessageFilterView::Group { group_id } => message.is_group && message.target_id == group_id,
            MessageFilterView::Conversation { user_id, peer_id } => {
                ||| message.sender_id == user_id && message.target_id == peer_id
                ||| message.sender_id == peer_id && message.target_id == user_id
            },
            MessageFilterView::Involving { user_id } => message.sender_id == user_id || message.target_id
                == user_id,
        }
    }
}

impl MessageFilter {
    /// Whether the filter lets `message` through.
    pub fn admits(&self, message: &ChatMessage) -> (admitted: bool)
        ensures
            admitted == self@.admits(message@),
    {
        match self {
            MessageFilter::Group { group_id } => message.is_group && message.target_id == *group_id,
            MessageFilter::Conversation { user_id, peer_id } => {
                (message.sender_id == *user_id && message.target_id == *peer_id) || (message.sender_id
                    == *peer_id && message.target_id == *user_id)
            },
            MessageFilter::Involving { user_id } => message.sender_id == *user_id || message.target_id
                == *user_id,
        }
    }
}

/// The filter that a request stands for: a group where it names one, else
/// the conversation with the identity that it names, else whatever the
/// asking identity sent or received.
pub open spec fn message_filter_of(query: HistoryQueryView) -> MessageFilterView {
    match query.group_id {
        Some(group_id) => MessageFilterView::Group { group_id },
        None => match query.target_id {
            Some(peer_id) => MessageFilterView::Conversation { user_id: query.user_id, peer_id },
            None => MessageFilterView::Involving { user_id: query.user_id },
        },
    }
}

/// A request that names no group asks only for messages that the asking
/// identity sent or received, whether it names the other side or not.
pub proof fn lemma_history_involves_the_user(query: HistoryQueryView, message: ChatMessageView)
    requires
        query.group_id is None,
        message_filter_of(query).admits(message),
    ensures
        message.sender_id == query.user_id || message.target_id == query.user_id,
{
}

/// A request that names a group asks for the messages to that group and
/// for no others, whoever sent them.
pub proof fn lemma_history_of_a_group(query: HistoryQueryView, message: ChatMessageView)
    requires
        query.group_id is Some,
    ensures
        message_filter_of(query).admits(message) <==> message.is_group && Some(message.target_id)
            == query.group_id,
{
}

/// Whether `record` is of a call that `user_id` made or received.
pub open spec fn call_of(user_id: Seq<char>, record: CallRecordView) -> bool {
    record.caller_id == user_id || record.callee_id == user_id
}

impl HistoryQuery {
    /// Which chat messages the request asks for.
    pub fn message_filter(&self) -> (filter: MessageFilter)
        ensures
            filter@ == message_filter_of(self@),
    {
        match &self.group_id {
            Some(group_id) => MessageFilter::Group { group_id: group_id.clone() },
            None => match &self.target_id {
                Some(peer_id) => MessageFilter::Conversation {
                    user_id: self.user_id.clone(),
                    peer_id: peer_id.clone(),
                },
                None => MessageFilter::Involving { user_id: self.user_id.clone() },
            },
        }
    }

    /// How many chat messages the request asks for at most.
    pub fn message_limit(&self) -> (limit: i64)
        ensures
            limit == (match self.limit {
                Some(limit) => limit,
                None => DEFAULT_MESSAGE_LIMIT,
            }),
    {
        match self.limit {
            Some(limit) => limit,
            None => DEFAULT_MESSAGE_LIMIT,
        }
    }

    /// How many call records the request asks for at most.
    pub fn call_limit(&self) -> (limit: i64)
        ensures
            limit == (match self.limit {
                Some(limit) => limit,
                None => DEFAULT_CALL_LIMIT,
            }),
    {
        match self.limit {
            Some(limit) => limit,
            None => DEFAULT_CALL_LIMIT,
        }
    }

    /// Whether `record` is of a call that the asking identity made or
    /// received: the calls that a request for call history asks for.
    pub fn asks_for_call(&self, record: &CallRecord) -> (asked: bool)
        ensures
            asked == call_of(self@.user_id, record@),
    {
        record.caller_id == self.user_id || record.callee_id == self.user_id
    }
}

/// Turns a list that came newest first into one that goes oldest first.
pub fn chronological<T>(newest_first: Vec<T>) -> (oldest_first: Vec<T>)
    ensures
        oldest_first@ == newest_first@.reverse(),
{
    let ghost all = newest_first@;
    let mut rest = newest_first;
    let mut oldest_first: Vec<T> = Vec::new();
    while rest.len() > 0
        invariant
            rest@.len() + oldest_first@.len() == all.len(),
            rest@ == all.subrange(0, rest@.len() as int),
            forall|k: int| 0 <= k < oldest_first@.len() ==> oldest_first@[k] == all[all.len() - 1 - k],
        decreases rest.len(),
    {
        match rest.pop() {
            Some(item) => {
                oldest_first.push(item);
            },
            None => {},
        }
    }
    assert(oldest_first@ =~= all.reverse());
    oldest_first
}

} // verus!
