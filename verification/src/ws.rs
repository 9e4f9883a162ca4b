//! What a client presents and sends, and the state that all sessions share.

use vstd::prelude::*;
use crate::event::{option_text, option_texts};
use crate::json::{json_member, json_text, json_unsigned, member, text, unsigned};
use crate::membership::GroupState;
use crate::registry::{ConnectionId, ConnectionState};
use crate::session::{Session, SessionPhase, SessionView};
use crate::token::decode_hs256;

verus! {

/// The state that all sessions share: who is reachable, and who is in
/// which group.
pub struct AppState {
    pub connections: ConnectionState,
    pub groups: GroupState,
}

/// What an [`AppState`] holds.
pub struct AppStateView {
    pub connections: Map<Seq<char>, ConnectionId>,
    pub groups: Map<Seq<char>, Set<Seq<char>>>,
}

impl View for AppState {
    type V = AppStateView;

    open spec fn view(&self) -> AppStateView {
        AppStateView { connections: self.connections@, groups: self.groups@ }
    }
}

impl AppState {
    /// A hub with nobody reachable and no group.
    pub fn new() -> (state: AppState)
        ensures
            state@.connections == Map::<Seq<char>, ConnectionId>::empty(),
            state@.groups == Map::<Seq<char>, Set<Seq<char>>>::empty(),
    {
        AppState { connections: ConnectionState::new(), groups: GroupState::new() }
    }
}

/// What a token says of its bearer.
#[allow(non_snake_case)]
#[derive(Debug, PartialEq, Eq)]
pub struct Claims {
    /// The identity of the bearer.
    pub userId: String,
    pub email: String,
    /// When the token expires, in seconds since the epoch.
    pub exp: usize,
}

/// What [`Claims`] say.
pub struct ClaimsView {
    pub user_id: Seq<char>,
    pub email: Seq<char>,
    pub exp: usize,
}

impl View for Claims {
    type V = ClaimsView;

    open spec fn view(&self) -> ClaimsView {
        ClaimsView { user_id: self.userId@, email: self.email@, exp: self.exp }
    }
}

/// The claims that the JSON value of a token's claims holds: the strings
/// under `userId` and `email` and the number under `exp`. There are none
/// where one of the three is missing or of another type, or where the
/// number does not fit `usize`.
pub open spec fn claims_of(value: serde_json::Value) -> Option<ClaimsView> {
    match (json_member(value, "userId"@), json_member(value, "email"@), json_member(value, "exp"@)) {
        (Some(user_id), Some(email), Some(exp)) => match (json_text(user_id), json_text(email), json_unsigned(exp)) {
            (Some(user_id), Some(email), Some(exp)) => if exp <= usize::MAX {
                Some(ClaimsView { user_id, email, exp: exp as usize })
            } else {
                None
            },
            _ => None,
        },
        _ => None,
    }
}

impl Claims {
    /// Reads the claims out of the JSON value of a token's claims.
    pub fn from_json(value: &serde_json::Value) -> (claims: Option<Claims>)
        ensures
            (match claims {
                Some(claims) => claims_of(*value) == Some(claims@),
                None => claims_of(*value) is None,
            }),
    {
        let user_id = match member(value, "userId") {
            Some(inner) => match text(inner) {
                Some(user_id) => user_id,
                None => return None,
            },
            None => return None,
        };
        let email = match member(value, "email") {
            Some(inner) => match text(inner) {
                Some(email) => email,
                None => return None,
            },
            None => return None,
        };
        let exp = match member(value, "exp") {
            Some(inner) => match unsigned(inner) {
                Some(exp) => exp,
                None => return None,
            },
            None => return None,
        };
        if exp <= usize::MAX as u64 {
            Some(Claims { userId: user_id.to_owned(), email: email.to_owned(), exp: exp as usize })
        } else {
            None
        }
    }
}

/// What a client presents when it asks for a connection.
#[derive(Debug, PartialEq, Eq)]
pub struct AuthParams {
    pub token: String,
}

/// Why a client is not given a connection.
#[derive(Debug, Clone, Copy, PartialEq, Eq, Structural)]
pub enum Rejection {
    /// The token did not pass: its signature or its claims are wrong, or
    /// it has expired.
    Unauthorized,
}

impl Rejection {
    /// The HTTP status that answers the rejected request.
    pub fn status_code(&self) -> (code: u16)
        ensures
            code == 401,
    {
        401
    }
}

/// An event that a client sends over its connection.
#[derive(Debug, PartialEq, Eq)]
pub enum ClientMessage {
    /// Kept for old clients: the session is bound to its identity by its
    /// token, and this message changes nothing.
    Join { user_id: String },
    JoinGroup { user_id: String, group_id: String },
    LeaveGroup { user_id: String, group_id: String },
    Chat {
        /// An identity, or the name of a group where `is_group` holds.
        target_id: String,
        is_group: bool,
        content: Option<String>,
        attachments: Option<Vec<String>>,
        kind: String,
    },
    Signal { target_id: String, payload: serde_json::Value },
}

/// What a [`ClientMessage`] says.
pub enum ClientMessageView {
    Join { user_id: Seq<char> },
    JoinGroup { user_id: Seq<char>, group_id: Seq<char> },
    LeaveGroup { user_id: Seq<char>, group_id: Seq<char> },
    Chat {
        target_id: Seq<char>,
        is_group: bool,
        content: Option<Seq<char>>,
        attachments: Option<Seq<Seq<char>>>,
        kind: Seq<char>,
    },
    Signal { target_id: Seq<char>, payload: serde_json::Value },
}

impl View for ClientMessage {
    type V = ClientMessageView;

    open spec fn view(&self) -> ClientMessageView {
        match self {
            ClientMessage::Join { user_id } => ClientMessageView::Join { user_id: user_id@ },
            ClientMessage::JoinGroup { user_id, group_id } => ClientMessageView::JoinGroup {
                user_id: user_id@,
                group_id: group_id@,
            },
            ClientMessage::LeaveGroup { user_id, group_id } => ClientMessageView::LeaveGroup {
                user_id: user_id@,
                group_id: group_id@,
            },
            ClientMessage::Chat { target_id, is_group, content, attachments, kind } => ClientMessageView::Chat {
                target_id: target_id@,
                is_group: *is_group,
                content: option_text(*content),
                attachments: option_texts(*attachments),
                kind: kind@,
            },
            ClientMessage::Signal { target_id, payload } => ClientMessageView::Signal {
                target_id: target_id@,
                payload: *payload,
            },
        }
    }
}

/// What the receive loop of a connection hands to its session.
#[derive(Debug, PartialEq, Eq)]
pub enum Frame {
    /// A text frame that decoded to an event.
    Message(ClientMessage),
    /// A text frame that did not decode. It is dropped.
    Malformed,
    /// Anything else: a frame that is not text, a close frame, an error on
    /// the socket, or the end of the stream.
    End,
}

/// What a [`Frame`] says.
pub enum FrameView {
    Message(ClientMessageView),
    Malformed,
    End,
}

impl View for Frame {
    type V = FrameView;

    open spec fn view(&self) -> FrameView {
        match self {
            Frame::Message(message) => FrameView::Message(message@),
            Frame::Malformed => FrameView::Malformed,
            Frame::End => FrameView::End,
        }
    }
}

/// The session that a decoded token opens the way for: one for the identity
/// in its claims, not yet registered. A token that did not decode, or whose
/// claims are not as they must be, is rejected.
pub open spec fn authorized(decoded: Result<serde_json::Value, jsonwebtoken::errors::Error>) -> Result<
    SessionView,
    Rejection,
> {
    match decoded {
        Ok(value) => match claims_of(value) {
            Some(claims) => Ok(
                SessionView {
                    identity: claims.user_id,
                    connection: 0,
                    groups: Seq::empty(),
                    phase: SessionPhase::Authenticating,
                },
            ),
            None => Err(Rejection::Unauthorized),
        },
        Err(_) => Err(Rejection::Unauthorized),
    }
}

/// Decides on a request for a connection from what decoding its token
/// gave.
pub fn authorize(decoded: Result<serde_json::Value, jsonwebtoken::errors::Error>) -> (decision: Result<
    Session,
    Rejection,
>)
    ensures
        (match decision {
            Ok(session) => authorized(decoded) == Ok::<SessionView, Rejection>(session@),
            Err(rejection) => authorized(decoded) == Err::<SessionView, Rejection>(rejection),
        }),
{
    match decoded {
        Ok(value) => match Claims::from_json(&value) {
            Some(claims) => Ok(Session::new(claims.userId)),
            None => Err(Rejection::Unauthorized),
        },
        Err(_) => Err(Rejection::Unauthorized),
    }
}

/// Answers a request for a connection: checks the token of `params`
/// against `secret` and, where it passes, hands out the session of its
/// bearer, which the caller opens once the connection stands.
///
/// Whether a token passes depends on the time of the call. Whatever it is,
/// a session that is handed out is new: it is registered nowhere and in no
/// group.
pub fn ws_handler(params: &AuthParams, secret: &str) -> (answer: Result<Session, Rejection>)
    ensures
        (match answer {
            Ok(session) => session@.phase == SessionPhase::Authenticating && session@.groups.len() == 0
                && session@.connection == 0,
            Err(rejection) => rejection == Rejection::Unauthorized,
        }),
{
    authorize(decode_hs256(params.token.as_str(), secret.as_bytes()))
}

} // verus!
