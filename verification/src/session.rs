//! Sessions: what one connection does to the hub from the moment its token
//! has been verified until it is torn down.

use vstd::prelude::*;
use crate::dash::{with_member, without_member};
use crate::event::{no_outcome, ChatMessage, ChatMessageView, Outcome, OutcomeView};
use crate::registry::{unregistered, ConnectionId};
use crate::router::{chat_routed, route_chat, route_signal, signal_routed};
use crate::text::texts;
use crate::ws::{AppState, AppStateView, ClientMessage, ClientMessageView, Frame, FrameView};

verus! {

/// Where a session stands in its life.
#[derive(Debug, Clone, Copy, PartialEq, Eq, Structural)]
pub enum SessionPhase {
    /// The token is verified; the connection is not yet registered.
    Authenticating,
    /// Registered, and handling what the client sends.
    Active,
    /// The receive loop has ended; the teardown is still to come.
    Closing,
    /// Torn down. Nothing is handled any more.
    Closed,
}

/// One connection of one authenticated identity.
pub struct Session {
    identity: String,
    connection: ConnectionId,
    joined: Vec<String>,
    phase: SessionPhase,
}

/// What a [`Session`] holds.
pub struct SessionView {
    /// The identity that the token named.
    pub identity: Seq<char>,
    /// The connection that the session was opened with.
    pub connection: ConnectionId,
    /// The groups that the session has joined, in the order of the joins.
    /// A group that it joined twice is there twice.
    pub groups: Seq<Seq<char>>,
    pub phase: SessionPhase,
}

impl View for Session {
    type V = SessionView;

    closed spec fn view(&self) -> SessionView {
        SessionView {
            identity: self.identity@,
            connection: self.connection,
            groups: texts(self.joined@),
            phase: self.phase,
        }
    }
}

/// What handling one event in an active session comes to.
///
/// A group is joined or left only in the session's own name: an event that
/// names another identity changes nothing. A join is noted in the session,
/// a leave is not. Chat messages and signals go out in the session's name
/// and leave session and hub as they were.
pub open spec fn handled(
    session: SessionView,
    state: AppStateView,
    message: ClientMessageView,
    timestamp: i64,
    session_after: SessionView,
    state_after: AppStateView,
    outcome: OutcomeView,
) -> bool {
    match message {
        ClientMessageView::Join { user_id } => {
            &&& session_after == session
            &&& state_after == state
            &&& outcome == no_outcome()
        },
        ClientMessageView::JoinGroup { user_id, group_id } => {
            &&& outcome == no_outcome()
            &&& state_after.connections == state.connections
            &&& if user_id == session.identity {
                &&& session_after == SessionView { groups: session.groups.push(group_id), ..session }
                &&& state_after.groups == with_member(state.groups, group_id, user_id)
            } else {
                &&& session_after == session
                &&& state_after.groups == state.groups
            }
        },
        ClientMessageView::LeaveGroup { user_id, group_id } => {
            &&& outcome == no_outcome()
            &&& session_after == session
            &&& state_after.connections == state.connections
            &&& if user_id == session.identity {
                state_after.groups == without_member(state.groups, group_id, user_id)
            } else {
                state_after.groups == state.groups
            }
        },
        ClientMessageView::Chat { target_id, is_group, content, attachments, kind } => {
            &&& session_after == session
            &&& state_after == state
            &&& chat_routed(
                state.connections,
                state.groups,
                ChatMessageView {
                    sender_id: session.identity,
                    target_id,
                    is_group,
                    content,
                    attachments,
                    kind,
                    timestamp,
                },
                outcome,
            )
        },
        ClientMessageView::Signal { target_id, payload } => {
            &&& session_after == session
            &&& state_after == state
            &&& signal_routed(state.connections, session.identity, target_id, payload, timestamp, outcome)
        },
    }
}

/// What receiving one frame comes to: only an active session handles
/// anything; a frame that did not decode is dropped; the end of the stream
/// moves the session on to its teardown.
pub open spec fn received(
    session: SessionView,
    state: AppStateView,
    frame: FrameView,
    timestamp: i64,
    session_after: SessionView,
    state_after: AppStateView,
    outcome: OutcomeView,
) -> bool {
    if session.phase != SessionPhase::Active {
        session_after == session && state_after == state && outcome == no_outcome()
    } else {
        match frame {
            FrameView::Message(message) => handled(
                session,
                state,
                message,
                timestamp,
                session_after,
                state_after,
                outcome,
            ),
            FrameView::Malformed => session_after == session && state_after == state && outcome == no_outcome(),
            FrameView::End => {
                &&& session_after == SessionView { phase: SessionPhase::Closing, ..session }
                &&& state_after == state
                &&& outcome == no_outcome()
            },
        }
    }
}

/// What opening a session comes to: a session that has not been opened
/// yet is bound to `connection`, registered under its identity and active;
/// any other stays as it is, and so does the registry. The groups are as
/// they were in either case.
pub open spec fn opened(
    session: SessionView,
    state: AppStateView,
    connection: ConnectionId,
    session_after: SessionView,
    state_after: AppStateView,
) -> bool {
    &&& state_after.groups == state.groups
    &&& if session.phase == SessionPhase::Authenticating {
        &&& session_after == SessionView { connection, phase: SessionPhase::Active, ..session }
        &&& state_after.connections == state.connections.insert(session.identity, connection)
    } else {
        &&& session_after == session
        &&& state_after.connections == state.connections
    }
}

/// `groups` after `identity` has left each of `names`.
pub open spec fn without_member_of_all(
    groups: Map<Seq<char>, Set<Seq<char>>>,
    names: Seq<Seq<char>>,
    identity: Seq<char>,
) -> Map<Seq<char>, Set<Seq<char>>>
    decreases names.len(),
{
    if names.len() == 0 {
        groups
    } else {
        without_member(without_member_of_all(groups, names.drop_last(), identity), names.last(), identity)
    }
}

/// What the teardown of a session does to the hub: a session that was
/// opened gives up its entry in the registry, unless a later session of
/// the same identity holds it by now, and leaves every group that it has
/// joined. A session that was never opened, or is torn down already,
/// changes nothing.
pub open spec fn torn_down(session: SessionView, state: AppStateView, state_after: AppStateView) -> bool {
    if session.phase == SessionPhase::Active || session.phase == SessionPhase::Closing {
        &&& state_after.connections == unregistered(state.connections, session.identity, session.connection)
        &&& state_after.groups == without_member_of_all(state.groups, session.groups, session.identity)
    } else {
        state_after == state
    }
}

impl Session {
    /// A session for `identity`, not yet registered and in no group.
    pub fn new(identity: String) -> (session: Session)
        ensures
            session@ == (SessionView {
                identity: identity@,
                connection: 0,
                groups: Seq::empty(),
                phase: SessionPhase::Authenticating,
            }),
    {
        let session = Session { identity, connection: 0, joined: Vec::new(), phase: SessionPhase::Authenticating };
        assert(session@.groups =~= Seq::empty());
        session
    }

    /// The identity that the session acts for.
    pub fn identity(&self) -> (identity: &str)
        ensures
            identity@ == self@.identity,
    {
        self.identity.as_str()
    }

    /// The connection that the session was opened with.
    pub fn connection(&self) -> (connection: ConnectionId)
        ensures
            connection == self@.connection,
    {
        self.connection
    }

    /// Where the session stands.
    pub fn phase(&self) -> (phase: SessionPhase)
        ensures
            phase == self@.phase,
    {
        self.phase
    }

    /// The groups that the session has joined, in the order of the joins.
    pub fn groups(&self) -> (groups: &Vec<String>)
        ensures
            texts(groups@) == self@.groups,
    {
        &self.joined
    }

    /// Binds the session to `connection` and registers it, which makes it
    /// active. An earlier session of the same identity loses its entry in
    /// the registry. A session that was opened before stays as it is.
    pub fn open(&mut self, state: &mut AppState, connection: ConnectionId)
        ensures
            opened(old(self)@, old(state)@, connection, final(self)@, final(state)@),
    {
        match self.phase {
            SessionPhase::Authenticating => {
                state.connections.register(self.identity.as_str(), connection);
                self.connection = connection;
                self.phase = SessionPhase::Active;
            },
            _ => {},
        }
    }

    /// Handles one event of the client in an active session.
    fn dispatch(&mut self, state: &mut AppState, message: ClientMessage, timestamp: i64) -> (outcome: Outcome)
        requires
            old(self)@.phase == SessionPhase::Active,
        ensures
            handled(old(self)@, old(state)@, message@, timestamp, final(self)@, final(state)@, outcome@),
    {
        match message {
            ClientMessage::Join { user_id: _ } => Outcome::nothing(),
            ClientMessage::JoinGroup { user_id, group_id } => {
                if user_id == self.identity {
                    state.groups.join(group_id.as_str(), user_id.as_str());
                    self.joined.push(group_id);
                    assert(texts(self.joined@) =~= texts(old(self).joined@).push(group_id@));
                }
                Outcome::nothing()
            },
            ClientMessage::LeaveGroup { user_id, group_id } => {
                if user_id == self.identity {
                    state.groups.leave(group_id.as_str(), user_id.as_str());
                }
                Outcome::nothing()
            },
            ClientMessage::Chat { target_id, is_group, content, attachments, kind } => {
                let chat = ChatMessage {
                    sender_id: self.identity.clone(),
                    target_id,
                    is_group,
                    content,
                    attachments,
                    kind,
                    timestamp,
                };
                route_chat(&state.connections, &state.groups, chat)
            },
            ClientMessage::Signal { target_id, payload } => {
                route_signal(&state.connections, self.identity.as_str(), target_id.as_str(), payload, timestamp)
            },
        }
    }

    /// Takes one frame from the receive loop.
    ///
    /// `timestamp` is the time at which the frame is handled, in
    /// milliseconds since the epoch; it is stamped on what goes out and on
    /// what is stored.
    pub fn receive(&mut self, state: &mut AppState, frame: Frame, timestamp: i64) -> (outcome: Outcome)
        ensures
            received(old(self)@, old(state)@, frame@, timestamp, final(self)@, final(state)@, outcome@),
    {
        match self.phase {
            SessionPhase::Active => match frame {
                Frame::Message(message) => self.dispatch(state, message, timestamp),
                Frame::Malformed => Outcome::nothing(),
                Frame::End => {
                    self.phase = SessionPhase::Closing;
                    Outcome::nothing()
                },
            },
            _ => Outcome::nothing(),
        }
    }

    /// Tears the session down, whatever phase it is in, and leaves it
    /// closed.
    ///
    /// Membership goes by identity: where a later session of the same
    /// identity has joined one of the groups that this one had joined, the
    /// identity is taken out of that group too.
    pub fn close(&mut self, state: &mut AppState)
        ensures
            final(self)@ == (SessionView { phase: SessionPhase::Closed, ..old(self)@ }),
            torn_down(old(self)@, old(state)@, final(state)@),
    {
        match self.phase {
            SessionPhase::Active | SessionPhase::Closing => {
                state.connections.unregister(self.identity.as_str(), self.connection);
                let mut i: usize = 0;
                assert(texts(self.joined@).take(0) =~= Seq::empty());
                while i < self.joined.len()
                    invariant
                        i <= self.joined.len(),
                        *self == *old(self),
                        state.connections@ == unregistered(
                            old(state)@.connections,
                            self.identity@,
                            self.connection,
                        ),
                        state.groups@ == without_member_of_all(
                            old(state)@.groups,
                            texts(self.joined@).take(i as int),
                            self.identity@,
                        ),
                    decreases self.joined.len() - i,
                {
                    state.groups.leave(self.joined[i].as_str(), self.identity.as_str());
                    proof {
                        let names = texts(self.joined@);
                        assert(names.take(i + 1).drop_last() =~= names.take(i as int));
                        assert(names.take(i + 1).last() == self.joined@[i as int]@);
                    }
                    i = i + 1;
                }
                assert(texts(self.joined@).take(i as int) =~= texts(self.joined@));
            },
            _ => {},
        }
        self.phase = SessionPhase::Closed;
    }
}

} // verus!
