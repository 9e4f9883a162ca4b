//! What holds of sessions and the hub, whatever the clients send.

use vstd::prelude::*;
use crate::dash::{members_of, without_member};
use crate::event::{
    no_outcome, ChatMessageView, DeliveryView, OutcomeView, RecordView, ServerMessageView,
    SignalMessageView,
};
use crate::json::{json_member, json_text};
use crate::registry::ConnectionId;
use crate::router::{call_record_of, delivery, payload_status, reachable};
use crate::session::{
    handled, opened, received, torn_down, without_member_of_all, SessionPhase, SessionView,
};
use crate::ws::{AppStateView, ClientMessageView, FrameView};

verus! {

/// After its teardown a session is in none of the groups that it had
/// joined. Nobody else has left or joined a group by it, and no group has
/// come or gone.
pub proof fn lemma_left_every_group(groups: Map<Seq<char>, Set<Seq<char>>>, names: Seq<Seq<char>>, identity: Seq<char>)
    ensures
        forall|k: int|
            0 <= k < names.len() ==> !members_of(
                without_member_of_all(groups, names, identity),
                #[trigger] names[k],
            ).contains(identity),
        forall|group: Seq<char>, other: Seq<char>|
            other != identity ==> (#[trigger] members_of(
                without_member_of_all(groups, names, identity),
                group,
            ).contains(other) <==> members_of(groups, group).contains(other)),
        forall|group: Seq<char>|
            !members_of(groups, group).contains(identity) ==> !(#[trigger] members_of(
                without_member_of_all(groups, names, identity),
                group,
            )).contains(identity),
        without_member_of_all(groups, names, identity).dom() == groups.dom(),
    decreases names.len(),
{
    if names.len() > 0 {
        let front = names.drop_last();
        lemma_left_every_group(groups, front, identity);
        let before = without_member_of_all(groups, front, identity);
        let after = without_member_of_all(groups, names, identity);
        assert(after == without_member(before, names.last(), identity));
        assert(after.dom() =~= groups.dom());
        assert forall|k: int| 0 <= k < names.len() implies !members_of(after, #[trigger] names[k]).contains(
            identity,
        ) by {
            if k < names.len() - 1 {
                assert(front[k] == names[k]);
            }
        }
        assert forall|group: Seq<char>, other: Seq<char>| other != identity implies (#[trigger] members_of(
            after,
            group,
        ).contains(other) <==> members_of(groups, group).contains(other)) by {
            assert(members_of(before, group).contains(other) <==> members_of(groups, group).contains(other));
        }
        assert forall|group: Seq<char>| !members_of(groups, group).contains(identity) implies !(#[trigger] members_of(
            after,
            group,
        )).contains(identity) by {
            assert(!members_of(before, group).contains(identity));
        }
    }
}

/// A session that has been torn down is gone from the hub: nobody finds
/// its connection under its identity, and it is in none of the groups that
/// it had joined. Where a later session of the same identity holds the
/// entry by then, that entry stays as it is.
pub proof fn lemma_teardown(session: SessionView, state: AppStateView, state_after: AppStateView)
    requires
        session.phase == SessionPhase::Active || session.phase == SessionPhase::Closing,
        torn_down(session, state, state_after),
    ensures
        !(state_after.connections.dom().contains(session.identity)
            && state_after.connections[session.identity] == session.connection),
        state.connections.dom().contains(session.identity) && state.connections[session.identity]
            != session.connection ==> state_after.connections == state.connections,
        !state.connections.dom().contains(session.identity) || state.connections[session.identity]
            == session.connection ==> !state_after.connections.dom().contains(session.identity),
        forall|other: Seq<char>|
            other != session.identity ==> (state_after.connections.dom().contains(other)
                <==> state.connections.dom().contains(other)),
        forall|k: int|
            0 <= k < session.groups.len() ==> !members_of(state_after.groups, #[trigger] session.groups[k]).contains(
                session.identity,
            ),
{
    lemma_left_every_group(state.groups, session.groups, session.identity);
}

/// Whether `session` is open and the registry names its connection for its
/// identity.
pub open spec fn holds_entry(session: SessionView, connections: Map<Seq<char>, ConnectionId>) -> bool {
    &&& session.phase == SessionPhase::Active || session.phase == SessionPhase::Closing
    &&& connections.dom().contains(session.identity)
    &&& connections[session.identity] == session.connection
}

/// Whether no entry of the registry is stale: each names the connection of
/// one of `sessions` that is open under that identity.
pub open spec fn no_stale_entry(connections: Map<Seq<char>, ConnectionId>, sessions: Seq<SessionView>) -> bool {
    forall|identity: Seq<char>| #[trigger]
        connections.dom().contains(identity) ==> exists|i: int|
            0 <= i < sessions.len() && (#[trigger] sessions[i]).identity == identity && holds_entry(
                sessions[i],
                connections,
            )
}

/// Opening one of the sessions leaves no stale entry in the registry.
pub proof fn lemma_open_leaves_no_stale_entry(
    sessions: Seq<SessionView>,
    which: int,
    state: AppStateView,
    connection: ConnectionId,
    session_after: SessionView,
    state_after: AppStateView,
)
    requires
        0 <= which < sessions.len(),
        no_stale_entry(state.connections, sessions),
        opened(sessions[which], state, connection, session_after, state_after),
    ensures
        no_stale_entry(state_after.connections, sessions.update(which, session_after)),
{
    let after = sessions.update(which, session_after);
    assert forall|identity: Seq<char>| #[trigger]
        state_after.connections.dom().contains(identity) implies exists|i: int|
        0 <= i < after.len() && (#[trigger] after[i]).identity == identity && holds_entry(
            after[i],
            state_after.connections,
        ) by {
        if sessions[which].phase == SessionPhase::Authenticating && identity == sessions[which].identity {
            assert(after[which].identity == identity && holds_entry(after[which], state_after.connections));
        } else {
            assert(state.connections.dom().contains(identity));
            let i = choose|i: int|
                0 <= i < sessions.len() && (#[trigger] sessions[i]).identity == identity && holds_entry(
                    sessions[i],
                    state.connections,
                );
            assert(after[i].identity == identity && holds_entry(after[i], state_after.connections));
        }
    }
}

/// Whatever one of the sessions receives, no entry of the registry gets
/// stale by it.
pub proof fn lemma_receive_leaves_no_stale_entry(
    sessions: Seq<SessionView>,
    which: int,
    state: AppStateView,
    frame: FrameView,
    timestamp: i64,
    session_after: SessionView,
    state_after: AppStateView,
    outcome: OutcomeView,
)
    requires
        0 <= which < sessions.len(),
        no_stale_entry(state.connections, sessions),
        received(sessions[which], state, frame, timestamp, session_after, state_after, outcome),
    ensures
        no_stale_entry(state_after.connections, sessions.update(which, session_after)),
        state_after.connections == state.connections,
{
    let after = sessions.update(which, session_after);
    assert(state_after.connections == state.connections);
    assert(session_after.identity == sessions[which].identity);
    assert(session_after.connection == sessions[which].connection);
    assert forall|identity: Seq<char>| #[trigger]
        state_after.connections.dom().contains(identity) implies exists|i: int|
        0 <= i < after.len() && (#[trigger] after[i]).identity == identity && holds_entry(
            after[i],
            state_after.connections,
        ) by {
        let i = choose|i: int|
            0 <= i < sessions.len() && (#[trigger] sessions[i]).identity == identity && holds_entry(
                sessions[i],
                state.connections,
            );
        assert(after[i].identity == identity && holds_entry(after[i], state_after.connections));
    }
}

/// Tearing one of the sessions down leaves no stale entry in the registry:
/// its own entry goes with it, and every other entry still names an open
/// session.
pub proof fn lemma_close_leaves_no_stale_entry(
    sessions: Seq<SessionView>,
    which: int,
    state: AppStateView,
    state_after: AppStateView,
)
    requires
        0 <= which < sessions.len(),
        no_stale_entry(state.connections, sessions),
        torn_down(sessions[which], state, state_after),
    ensures
        no_stale_entry(
            state_after.connections,
            sessions.update(which, (SessionView { phase: SessionPhase::Closed, ..sessions[which] })),
        ),
{
    let closed = SessionView { phase: SessionPhase::Closed, ..sessions[which] };
    let after = sessions.update(which, closed);
    assert forall|identity: Seq<char>| #[trigger]
        state_after.connections.dom().contains(identity) implies exists|i: int|
        0 <= i < after.len() && (#[trigger] after[i]).identity == identity && holds_entry(
            after[i],
            state_after.connections,
        ) by {
        assert(state.connections.dom().contains(identity));
        assert(state_after.connections[identity] == state.connections[identity]);
        let i = choose|i: int|
            0 <= i < sessions.len() && (#[trigger] sessions[i]).identity == identity && holds_entry(
                sessions[i],
                state.connections,
            );
        assert(i != which);
        assert(after[i].identity == identity && holds_entry(after[i], state_after.connections));
    }
}

/// The teardown of one session does not cost another its entry: a session
/// that holds its entry under another identity, or under the same identity
/// with another connection, holds it afterwards as well.
pub proof fn lemma_close_spares_other_sessions(
    session: SessionView,
    other: SessionView,
    state: AppStateView,
    state_after: AppStateView,
)
    requires
        torn_down(session, state, state_after),
        holds_entry(other, state.connections),
        other.identity != session.identity || other.connection != session.connection,
    ensures
        holds_entry(other, state_after.connections),
{
}

/// What a chat event says once the session of `sender` has stamped it.
pub open spec fn stamped(
    sender: Seq<char>,
    target_id: Seq<char>,
    is_group: bool,
    content: Option<Seq<char>>,
    attachments: Option<Seq<Seq<char>>>,
    kind: Seq<char>,
    timestamp: i64,
) -> ChatMessageView {
    ChatMessageView { sender_id: sender, target_id, is_group, content, attachments, kind, timestamp }
}

/// A chat message from one reachable identity to another goes to each of
/// the two once, first to the target and then back to the sender, in the
/// sender's name, and is stored once.
pub proof fn lemma_peer_chat_reaches_both(
    session: SessionView,
    state: AppStateView,
    target_id: Seq<char>,
    content: Option<Seq<char>>,
    attachments: Option<Seq<Seq<char>>>,
    kind: Seq<char>,
    timestamp: i64,
    session_after: SessionView,
    state_after: AppStateView,
    outcome: OutcomeView,
)
    requires
        handled(
            session,
            state,
            (ClientMessageView::Chat { target_id, is_group: false, content, attachments, kind }),
            timestamp,
            session_after,
            state_after,
            outcome,
        ),
        session.identity != target_id,
        state.connections.dom().contains(session.identity),
        state.connections.dom().contains(target_id),
    ensures
        outcome.deliveries == seq![
            delivery(state.connections, target_id),
            delivery(state.connections, session.identity),
        ],
        outcome.message == Some(
            ServerMessageView::Chat(
                stamped(session.identity, target_id, false, content, attachments, kind, timestamp),
            ),
        ),
        outcome.record == Some(
            RecordView::Message(
                stamped(session.identity, target_id, false, content, attachments, kind, timestamp),
            ),
        ),
        state_after == state,
{
    assert(outcome.deliveries =~= seq![
        delivery(state.connections, target_id),
        delivery(state.connections, session.identity),
    ]);
}

/// A chat message to a group goes once to every member of the group that
/// is reachable, over the connection that the registry names for it, and to
/// nobody else. The sender gets it too where it is such a member. The
/// message is stored once, however many members there are.
pub proof fn lemma_group_chat_reaches_members(
    session: SessionView,
    state: AppStateView,
    group_id: Seq<char>,
    content: Option<Seq<char>>,
    attachments: Option<Seq<Seq<char>>>,
    kind: Seq<char>,
    timestamp: i64,
    session_after: SessionView,
    state_after: AppStateView,
    outcome: OutcomeView,
)
    requires
        handled(
            session,
            state,
            (ClientMessageView::Chat { target_id: group_id, is_group: true, content, attachments, kind }),
            timestamp,
            session_after,
            state_after,
            outcome,
        ),
    ensures
        forall|member: Seq<char>|
            #[trigger] members_of(state.groups, group_id).contains(member) && state.connections.dom().contains(
                member,
            ) ==> exists|a: int|
                0 <= a < outcome.deliveries.len() && #[trigger] outcome.deliveries[a] == delivery(
                    state.connections,
                    member,
                ),
        forall|a: int, b: int|
            0 <= a < outcome.deliveries.len() && 0 <= b < outcome.deliveries.len() && (
            #[trigger] outcome.deliveries[a]).recipient == (#[trigger] outcome.deliveries[b]).recipient ==> a
                == b,
        forall|a: int|
            0 <= a < outcome.deliveries.len() ==> members_of(state.groups, group_id).contains(
                (#[trigger] outcome.deliveries[a]).recipient,
            ) && state.connections.dom().contains(outcome.deliveries[a].recipient),
        members_of(state.groups, group_id).contains(session.identity) && state.connections.dom().contains(
            session.identity,
        ) ==> exists|a: int|
            0 <= a < outcome.deliveries.len() && #[trigger] outcome.deliveries[a] == delivery(
                state.connections,
                session.identity,
            ),
        outcome.message == Some(
            ServerMessageView::Chat(
                stamped(session.identity, group_id, true, content, attachments, kind, timestamp),
            ),
        ),
        outcome.record == Some(
            RecordView::Message(
                stamped(session.identity, group_id, true, content, attachments, kind, timestamp),
            ),
        ),
        state_after == state,
{
    let members = members_of(state.groups, group_id);
    assert forall|member: Seq<char>| #[trigger]
        members.contains(member) && state.connections.dom().contains(member) implies exists|a: int|
        0 <= a < outcome.deliveries.len() && #[trigger] outcome.deliveries[a] == delivery(
            state.connections,
            member,
        ) by {
        let a = choose|a: int|
            0 <= a < outcome.deliveries.len() && (#[trigger] outcome.deliveries[a]).recipient == member;
        assert(outcome.deliveries[a].connection == state.connections[member]);
    }
    assert forall|a: int, b: int|
        0 <= a < outcome.deliveries.len() && 0 <= b < outcome.deliveries.len() && (
        #[trigger] outcome.deliveries[a]).recipient == (#[trigger] outcome.deliveries[b]).recipient implies a
        == b by {
        if a < b {
            assert(outcome.deliveries[a].recipient != outcome.deliveries[b].recipient);
        }
        if b < a {
            assert(outcome.deliveries[b].recipient != outcome.deliveries[a].recipient);
        }
    }
    if members.contains(session.identity) && state.connections.dom().contains(session.identity) {
        let a = choose|a: int|
            0 <= a < outcome.deliveries.len() && (#[trigger] outcome.deliveries[a]).recipient
                == session.identity;
        assert(outcome.deliveries[a].connection == state.connections[session.identity]);
    }
}

/// A chat message to an identity that is not reachable is not delivered to
/// it: the only delivery is the echo to the sender, where the sender is
/// reachable. The message is stored all the same.
pub proof fn lemma_chat_to_unreachable_target(
    session: SessionView,
    state: AppStateView,
    target_id: Seq<char>,
    content: Option<Seq<char>>,
    attachments: Option<Seq<Seq<char>>>,
    kind: Seq<char>,
    timestamp: i64,
    session_after: SessionView,
    state_after: AppStateView,
    outcome: OutcomeView,
)
    requires
        handled(
            session,
            state,
            (ClientMessageView::Chat { target_id, is_group: false, content, attachments, kind }),
            timestamp,
            session_after,
            state_after,
            outcome,
        ),
        !state.connections.dom().contains(target_id),
    ensures
        outcome.deliveries == reachable(state.connections, session.identity),
        forall|a: int| 0 <= a < outcome.deliveries.len() ==> (#[trigger] outcome.deliveries[a]).recipient != target_id,
        outcome.record == Some(
            RecordView::Message(
                stamped(session.identity, target_id, false, content, attachments, kind, timestamp),
            ),
        ),
{
    assert(outcome.deliveries =~= reachable(state.connections, session.identity));
}

/// A signal to an identity that is not reachable is delivered to nobody.
pub proof fn lemma_signal_to_unreachable_target(
    session: SessionView,
    state: AppStateView,
    target_id: Seq<char>,
    payload: serde_json::Value,
    timestamp: i64,
    session_after: SessionView,
    state_after: AppStateView,
    outcome: OutcomeView,
)
    requires
        handled(
            session,
            state,
            (ClientMessageView::Signal { target_id, payload }),
            timestamp,
            session_after,
            state_after,
            outcome,
        ),
        !state.connections.dom().contains(target_id),
    ensures
        outcome.deliveries.len() == 0,
{
}

/// A signal leaves a call record exactly if its payload has a member
/// `type` that is one of the strings `bye`, `end-call` and `reject`. The
/// record names the sender as caller and the target as callee. With or
/// without a record, the signal goes to the target once where it is
/// reachable, to nobody else, and never back to the sender.
pub proof fn lemma_call_record_detection(
    session: SessionView,
    state: AppStateView,
    target_id: Seq<char>,
    payload: serde_json::Value,
    timestamp: i64,
    session_after: SessionView,
    state_after: AppStateView,
    outcome: OutcomeView,
)
    requires
        handled(
            session,
            state,
            (ClientMessageView::Signal { target_id, payload }),
            timestamp,
            session_after,
            state_after,
            outcome,
        ),
    ensures
        outcome.record is Some <==> (json_member(payload, "type"@) matches Some(tag) && json_text(tag) matches Some(
            tag_text,
        ) && (tag_text == "bye"@ || tag_text == "end-call"@ || tag_text == "reject"@)),
        outcome.record == call_record_of(session.identity, target_id, payload, timestamp),
        outcome.record matches Some(record) ==> record matches RecordView::Call(call) && call.caller_id
            == session.identity && call.callee_id == target_id && call.timestamp == timestamp && call.payload
            == payload && Some(call.status) == payload_status(payload),
        state.connections.dom().contains(target_id) ==> outcome.deliveries == seq![
            delivery(state.connections, target_id),
        ],
        !state.connections.dom().contains(target_id) ==> outcome.deliveries == Seq::<DeliveryView>::empty(),
        outcome.message == Some(
            ServerMessageView::Signal((SignalMessageView { sender_id: session.identity, payload })),
        ),
        state_after == state,
{
}

/// An event that joins a group in the name of anyone but the session's own
/// identity changes nothing: not the groups, not the registry, not the
/// session, and nothing goes out or is stored.
pub proof fn lemma_spoofed_join_changes_nothing(
    session: SessionView,
    state: AppStateView,
    user_id: Seq<char>,
    group_id: Seq<char>,
    timestamp: i64,
    session_after: SessionView,
    state_after: AppStateView,
    outcome: OutcomeView,
)
    requires
        handled(
            session,
            state,
            (ClientMessageView::JoinGroup { user_id, group_id }),
            timestamp,
            session_after,
            state_after,
            outcome,
        ),
        user_id != session.identity,
    ensures
        state_after == state,
        session_after == session,
        outcome == no_outcome(),
{
}

/// An event that leaves a group in the name of anyone but the session's
/// own identity changes nothing either.
pub proof fn lemma_spoofed_leave_changes_nothing(
    session: SessionView,
    state: AppStateView,
    user_id: Seq<char>,
    group_id: Seq<char>,
    timestamp: i64,
    session_after: SessionView,
    state_after: AppStateView,
    outcome: OutcomeView,
)
    requires
        handled(
            session,
            state,
            (ClientMessageView::LeaveGroup { user_id, group_id }),
            timestamp,
            session_after,
            state_after,
            outcome,
        ),
        user_id != session.identity,
    ensures
        state_after == state,
        session_after == session,
        outcome == no_outcome(),
{
}

} // verus!
