//! The message router: who receives an event, and what is stored of it.

use vstd::prelude::*;
use crate::dash::members_of;
use crate::event::{
    delivery_views, CallRecord, CallRecordView, CallStatus, ChatMessage, ChatMessageView, Delivery,
    DeliveryView, Outcome, OutcomeView, Record, RecordView, ServerMessage, ServerMessageView,
    SignalMessage, SignalMessageView,
};
use crate::json::{copy, json_member, json_text, member, text};
use crate::membership::GroupState;
use crate::registry::{ConnectionId, ConnectionState};
use crate::text::{same_text, texts};

verus! {

/// The status that a type tag stands for: `bye`, `end-call` and `reject`
/// end a call, and no other tag does.
pub open spec fn status_of(tag: Seq<char>) -> Option<CallStatus> {
    if tag == "bye"@ {
        Some(CallStatus::Bye)
    } else if tag == "end-call"@ {
        Some(CallStatus::EndCall)
    } else if tag == "reject"@ {
        Some(CallStatus::Reject)
    } else {
        None
    }
}

/// The status that a signal's payload carries: that of its member `type`,
/// where the payload is an object that has one and it is a string.
pub open spec fn payload_status(payload: serde_json::Value) -> Option<CallStatus> {
    match json_member(payload, "type"@) {
        Some(tag) => match json_text(tag) {
            Some(tag_text) => status_of(tag_text),
            None => None,
        },
        None => None,
    }
}

impl CallStatus {
    /// The tag by which a payload names this status.
    pub open spec fn tag(self) -> Seq<char> {
        match self {
            CallStatus::Bye => "bye"@,
            CallStatus::EndCall => "end-call"@,
            CallStatus::Reject => "reject"@,
        }
    }

    /// The status that `tag` stands for, if it ends a call.
    pub fn parse(tag: &str) -> (status: Option<CallStatus>)
        ensures
            status == status_of(tag@),
    {
        if same_text(tag, "bye") {
            Some(CallStatus::Bye)
        } else if same_text(tag, "end-call") {
            Some(CallStatus::EndCall)
        } else if same_text(tag, "reject") {
            Some(CallStatus::Reject)
        } else {
            None
        }
    }

    /// The tag of this status, as it is written into a call record.
    pub fn as_str(&self) -> (tag: &'static str)
        ensures
            tag@ == self.tag(),
    {
        match self {
            CallStatus::Bye => "bye",
            CallStatus::EndCall => "end-call",
            CallStatus::Reject => "reject",
        }
    }
}

/// Every status is the one that its own tag stands for.
pub proof fn lemma_status_of_tag(status: CallStatus)
    ensures
        status_of(status.tag()) == Some(status),
{
    reveal_strlit("bye");
    reveal_strlit("end-call");
    reveal_strlit("reject");
    assert("bye"@.len() == 3);
    assert("end-call"@.len() == 8);
    assert("reject"@.len() == 6);
}

/// The status that a signal's payload carries, if it ends a call.
pub fn call_status(payload: &serde_json::Value) -> (status: Option<CallStatus>)
    ensures
        status == payload_status(*payload),
{
    match member(payload, "type") {
        Some(tag) => match text(tag) {
            Some(tag_text) => CallStatus::parse(tag_text),
            None => None,
        },
        None => None,
    }
}

/// The delivery to `identity` over the connection that the registry names
/// for it.
pub open spec fn delivery(connections: Map<Seq<char>, ConnectionId>, identity: Seq<char>) -> DeliveryView {
    DeliveryView { recipient: identity, connection: connections[identity] }
}

/// The deliveries to `identity`: one where it is reachable, none where it
/// is not.
pub open spec fn reachable(connections: Map<Seq<char>, ConnectionId>, identity: Seq<char>) -> Seq<DeliveryView> {
    if connections.dom().contains(identity) {
        seq![delivery(connections, identity)]
    } else {
        Seq::empty()
    }
}

/// The deliveries of a message between two identities: first to the
/// target, then the echo to the sender, each where it is reachable.
pub open spec fn peer_deliveries(
    connections: Map<Seq<char>, ConnectionId>,
    target: Seq<char>,
    sender: Seq<char>,
) -> Seq<DeliveryView> {
    reachable(connections, target) + reachable(connections, sender)
}

/// The deliveries to `names`, in their order, each where it is reachable.
pub open spec fn deliveries_among(names: Seq<Seq<char>>, connections: Map<Seq<char>, ConnectionId>) -> Seq<DeliveryView>
    decreases names.len(),
{
    if names.len() == 0 {
        Seq::empty()
    } else {
        deliveries_among(names.drop_last(), connections) + reachable(connections, names.last())
    }
}

/// Whether `deliveries` reach every reachable member once and nobody else:
/// no recipient occurs twice, each is a member with the connection that the
/// registry names for it, and each reachable member is a recipient.
pub open spec fn is_fan_out(
    deliveries: Seq<DeliveryView>,
    connections: Map<Seq<char>, ConnectionId>,
    members: Set<Seq<char>>,
) -> bool {
    &&& forall|a: int, b: int|
        0 <= a < b < deliveries.len() ==> (#[trigger] deliveries[a]).recipient != (#[trigger] deliveries[b]).recipient
    &&& forall|a: int|
        0 <= a < deliveries.len() ==> {
            &&& members.contains((#[trigger] deliveries[a]).recipient)
            &&& connections.dom().contains(deliveries[a].recipient)
            &&& deliveries[a].connection == connections[deliveries[a].recipient]
        }
    &&& forall|identity: Seq<char>|
        #[trigger] members.contains(identity) && connections.dom().contains(identity) ==> exists|a: int|
            0 <= a < deliveries.len() && (#[trigger] deliveries[a]).recipient == identity
}

/// The deliveries to a list of distinct names reach every reachable one of
/// them once, and nobody else.
pub proof fn lemma_deliveries_among(names: Seq<Seq<char>>, connections: Map<Seq<char>, ConnectionId>)
    requires
        names.no_duplicates(),
    ensures
        is_fan_out(deliveries_among(names, connections), connections, names.to_set()),
    decreases names.len(),
{
    let all = deliveries_among(names, connections);
    if names.len() == 0 {
        assert forall|identity: Seq<char>| !names.to_set().contains(identity) by {}
    } else {
        let front = names.drop_last();
        let last = names.last();
        let before = deliveries_among(front, connections);
        lemma_deliveries_among(front, connections);
        assert(!front.to_set().contains(last)) by {
            if front.to_set().contains(last) {
                let k = choose|k: int| 0 <= k < front.len() && front[k] == last;
                assert(names[k] == names[names.len() - 1]);
            }
        }
        assert forall|identity: Seq<char>| names.to_set().contains(identity) <==> (front.to_set().contains(identity) || identity == last) by {
            if names.to_set().contains(identity) {
                let k = choose|k: int| 0 <= k < names.len() && names[k] == identity;
                if k < names.len() - 1 {
                    assert(front[k] == identity);
                }
            }
            if front.to_set().contains(identity) {
                let k = choose|k: int| 0 <= k < front.len() && front[k] == identity;
                assert(names[k] == identity);
            }
            if identity == last {
                assert(names[names.len() - 1] == identity);
            }
        }
        assert forall|a: int| 0 <= a < all.len() implies {
            &&& names.to_set().contains((#[trigger] all[a]).recipient)
            &&& connections.dom().contains(all[a].recipient)
            &&& all[a].connection == connections[all[a].recipient]
        } by {
            if a < before.len() {
                assert(all[a] == before[a]);
            }
        }
        assert forall|a: int, b: int| 0 <= a < b < all.len() implies (#[trigger] all[a]).recipient != (#[trigger] all[b]).recipient by {
            assert(all[a] == before[a]);
            if b < before.len() {
                assert(all[b] == before[b]);
            } else {
                assert(front.to_set().contains(before[a].recipient));
            }
        }
        assert forall|identity: Seq<char>| #[trigger] names.to_set().contains(identity) && connections.dom().contains(identity) implies exists|a: int|
            0 <= a < all.len() && (#[trigger] all[a]).recipient == identity by {
            if front.to_set().contains(identity) {
                let a = choose|a: int| 0 <= a < before.len() && (#[trigger] before[a]).recipient == identity;
                assert(all[a] == before[a]);
            } else {
                assert(all[before.len() as int].recipient == identity);
            }
        }
    }
}

/// Adds the delivery to `identity` to `deliveries` where it is reachable.
fn deliver_to(connections: &ConnectionState, identity: &str, deliveries: &mut Vec<Delivery>)
    ensures
        delivery_views(final(deliveries)@) == delivery_views(old(deliveries)@) + reachable(connections@, identity@),
{
    match connections.lookup(identity) {
        Some(connection) => {
            deliveries.push(Delivery { recipient: identity.to_owned(), connection });
        },
        None => {},
    }
    assert(delivery_views(deliveries@) =~= delivery_views(old(deliveries)@) + reachable(connections@, identity@));
}

/// The deliveries of a message to a group: one to each member that is
/// reachable, the sender among them where it is one.
pub fn group_deliveries(connections: &ConnectionState, groups: &GroupState, group: &str) -> (deliveries: Vec<Delivery>)
    ensures
        is_fan_out(delivery_views(deliveries@), connections@, members_of(groups@, group@)),
{
    let members = groups.members(group);
    let mut deliveries: Vec<Delivery> = Vec::new();
    let mut i: usize = 0;
    assert(texts(members@).take(0) =~= Seq::empty());
    assert(delivery_views(deliveries@) =~= Seq::empty());
    while i < members.len()
        invariant
            i <= members.len(),
            delivery_views(deliveries@) == deliveries_among(texts(members@).take(i as int), connections@),
        decreases members.len() - i,
    {
        deliver_to(connections, members[i].as_str(), &mut deliveries);
        proof {
            let names = texts(members@);
            assert(names.take(i + 1).drop_last() =~= names.take(i as int));
            assert(names.take(i + 1).last() == members@[i as int]@);
        }
        i = i + 1;
    }
    proof {
        assert(texts(members@).take(i as int) =~= texts(members@));
        lemma_deliveries_among(texts(members@), connections@);
    }
    deliveries
}

/// What routing a chat message comes to: the message goes out as it is
/// and is stored, whoever is reachable; a group message goes to every
/// reachable member of the group, any other to the target and back to
/// the sender.
pub open spec fn chat_routed(
    connections: Map<Seq<char>, ConnectionId>,
    groups: Map<Seq<char>, Set<Seq<char>>>,
    message: ChatMessageView,
    outcome: OutcomeView,
) -> bool {
    &&& outcome.message == Some(ServerMessageView::Chat(message))
    &&& outcome.record == Some(RecordView::Message(message))
    &&& if message.is_group {
        is_fan_out(outcome.deliveries, connections, members_of(groups, message.target_id))
    } else {
        outcome.deliveries == peer_deliveries(connections, message.target_id, message.sender_id)
    }
}

/// Routes one chat message.
pub fn route_chat(connections: &ConnectionState, groups: &GroupState, message: ChatMessage) -> (outcome: Outcome)
    ensures
        chat_routed(connections@, groups@, message@, outcome@),
{
    let deliveries = if message.is_group {
        group_deliveries(connections, groups, message.target_id.as_str())
    } else {
        let mut deliveries: Vec<Delivery> = Vec::new();
        assert(delivery_views(deliveries@) =~= Seq::empty());
        deliver_to(connections, message.target_id.as_str(), &mut deliveries);
        deliver_to(connections, message.sender_id.as_str(), &mut deliveries);
        deliveries
    };
    let stored = message.clone();
    Outcome {
        message: Some(ServerMessage::Chat(message)),
        deliveries,
        record: Some(Record::Message(stored)),
    }
}

/// The call record that a signal leaves: one where its payload carries a
/// status that ends a call, with the sender as caller and the target as
/// callee, and none otherwise.
pub open spec fn call_record_of(
    sender: Seq<char>,
    target: Seq<char>,
    payload: serde_json::Value,
    timestamp: i64,
) -> Option<RecordView> {
    match payload_status(payload) {
        Some(status) => Some(
            RecordView::Call(
                CallRecordView { caller_id: sender, callee_id: target, status, timestamp, payload },
            ),
        ),
        None => None,
    }
}

/// What routing a signal comes to: the payload goes to the target where it
/// is reachable and to nobody else, and a call record is stored where
/// the payload ends a call, whether the target is reachable or not.
pub open spec fn signal_routed(
    connections: Map<Seq<char>, ConnectionId>,
    sender: Seq<char>,
    target: Seq<char>,
    payload: serde_json::Value,
    timestamp: i64,
    outcome: OutcomeView,
) -> bool {
    &&& outcome.message == Some(ServerMessageView::Signal(SignalMessageView { sender_id: sender, payload }))
    &&& outcome.deliveries == reachable(connections, target)
    &&& outcome.record == call_record_of(sender, target, payload, timestamp)
}

/// Routes one signal from `sender` to `target`.
pub fn route_signal(
    connections: &ConnectionState,
    sender: &str,
    target: &str,
    payload: serde_json::Value,
    timestamp: i64,
) -> (outcome: Outcome)
    ensures
        signal_routed(connections@, sender@, target@, payload, timestamp, outcome@),
{
    let record = match call_status(&payload) {
        Some(status) => Some(
            Record::Call(
                CallRecord {
                    caller_id: sender.to_owned(),
                    callee_id: target.to_owned(),
                    status,
                    timestamp,
                    payload: copy(&payload),
                },
            ),
        ),
        None => None,
    };
    let mut deliveries: Vec<Delivery> = Vec::new();
    assert(delivery_views(deliveries@) =~= Seq::empty());
    deliver_to(connections, target, &mut deliveries);
    Outcome {
        message: Some(ServerMessage::Signal(SignalMessage { sender_id: sender.to_owned(), payload })),
        deliveries,
        record,
    }
}

} // verus!
