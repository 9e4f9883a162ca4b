//! A real-time presence and message-relay hub.
//!
//! The hub keeps a registry of live connections and the membership of chat
//! groups, routes chat and call-signalling events between sessions, and says
//! which events are to be written to durable storage. Sockets, the document
//! store and the clock stay with the caller: every function here takes plain
//! values and hands plain values back.

pub mod dash;
pub mod event;
pub mod history;
pub mod json;
pub mod membership;
pub mod registry;
pub mod router;
pub mod session;
pub mod text;
pub mod theorems;
pub mod token;
pub mod ws;
