//! The connection registry: which identity is reachable over which connection.

use vstd::prelude::*;
use crate::dash::{connection_entries, connections_get, connections_insert, connections_new, connections_remove};

verus! {

/// The number by which the caller knows one live connection. The caller
/// gives every connection a number of its own.
pub type ConnectionId = u64;

/// Maps each reachable identity to the connection that serves it.
///
/// An identity without an entry is unreachable for the moment. The registry
/// never owns a connection: it holds the number only.
///
/// The registry is changed through an exclusive reference. Callers on
/// several threads share it behind a lock of their own.
pub struct ConnectionState {
    entries: dashmap::DashMap<String, u64>,
}

impl View for ConnectionState {
    type V = Map<Seq<char>, ConnectionId>;

    closed spec fn view(&self) -> Map<Seq<char>, ConnectionId> {
        connection_entries(self.entries)
    }
}

/// `connections` after the session on `connection` has given up
/// `identity`: the entry goes if it names that connection, and stays if it
/// names another.
pub open spec fn unregistered(
    connections: Map<Seq<char>, ConnectionId>,
    identity: Seq<char>,
    connection: ConnectionId,
) -> Map<Seq<char>, ConnectionId> {
    if connections.dom().contains(identity) && connections[identity] == connection {
        connections.remove(identity)
    } else {
        connections
    }
}

impl ConnectionState {
    /// A registry in which nobody is reachable.
    pub fn new() -> (registry: ConnectionState)
        ensures
            registry@ == Map::<Seq<char>, ConnectionId>::empty(),
    {
        let registry = ConnectionState { entries: connections_new() };
        assert(registry@ =~= Map::<Seq<char>, ConnectionId>::empty());
        registry
    }

    /// Binds `identity` to `connection`. An earlier entry for the same
    /// identity is overwritten: the last writer wins.
    pub fn register(&mut self, identity: &str, connection: ConnectionId)
        ensures
            final(self)@ == old(self)@.insert(identity@, connection),
    {
        connections_insert(&mut self.entries, identity.to_owned(), connection);
    }

    /// The connection that serves `identity`, if it is reachable.
    pub fn lookup(&self, identity: &str) -> (found: Option<ConnectionId>)
        ensures
            found == (if self@.dom().contains(identity@) {
                Some(self@[identity@])
            } else {
                None
            }),
    {
        connections_get(&self.entries, identity)
    }

    /// Removes the entry of `identity` if it still names `connection`, and
    /// says whether it did. An entry that a later session has installed for
    /// the same identity names another connection and stays.
    pub fn unregister(&mut self, identity: &str, connection: ConnectionId) -> (removed: bool)
        ensures
            removed == (old(self)@.dom().contains(identity@) && old(self)@[identity@] == connection),
            final(self)@ == unregistered(old(self)@, identity@, connection),
    {
        match connections_get(&self.entries, identity) {
            Some(current) => {
                if current == connection {
                    connections_remove(&mut self.entries, identity);
                    true
                } else {
                    false
                }
            },
            None => false,
        }
    }
}

} // verus!
