//! Group membership: which identities belong to which group.

use vstd::prelude::*;
use crate::dash::{
    group_entries, groups_contains, groups_insert_member, groups_members, groups_new,
    groups_remove_member, members_of, with_member, without_member,
};
use crate::text::texts;

verus! {

/// Maps each group to the set of its members.
///
/// A group comes into being with its first member and is never dropped: a
/// group that everybody has left stays, with no members. Members are
/// identities, never connections, so membership outlasts any one connection.
///
/// The table is changed through an exclusive reference. Callers on several
/// threads share it behind a lock of their own.
pub struct GroupState {
    groups: dashmap::DashMap<String, dashmap::DashSet<String>>,
}

impl View for GroupState {
    type V = Map<Seq<char>, Set<Seq<char>>>;

    closed spec fn view(&self) -> Map<Seq<char>, Set<Seq<char>>> {
        group_entries(self.groups)
    }
}

impl GroupState {
    /// A membership table without any group.
    pub fn new() -> (table: GroupState)
        ensures
            table@ == Map::<Seq<char>, Set<Seq<char>>>::empty(),
    {
        let table = GroupState { groups: groups_new() };
        assert(table@ =~= Map::<Seq<char>, Set<Seq<char>>>::empty());
        table
    }

    /// Adds `identity` to `group`, which is made if it does not exist.
    pub fn join(&mut self, group: &str, identity: &str)
        ensures
            final(self)@ == with_member(old(self)@, group@, identity@),
    {
        groups_insert_member(&mut self.groups, group.to_owned(), identity.to_owned());
    }

    /// Takes `identity` out of `group`. Nothing happens where the group
    /// does not exist or the identity is not in it.
    pub fn leave(&mut self, group: &str, identity: &str)
        ensures
            final(self)@ == without_member(old(self)@, group@, identity@),
    {
        if groups_contains(&self.groups, group) {
            groups_remove_member(&mut self.groups, group, identity);
        }
    }

    /// The members of `group`, each once, in no particular order. A group
    /// that does not exist has none.
    pub fn members(&self, group: &str) -> (list: Vec<String>)
        ensures
            texts(list@).no_duplicates(),
            texts(list@).to_set() == members_of(self@, group@),
    {
        if groups_contains(&self.groups, group) {
            groups_members(&self.groups, group)
        } else {
            let list: Vec<String> = Vec::new();
            assert(texts(list@) =~= Seq::<Seq<char>>::empty());
            assert(texts(list@).to_set() =~= Set::<Seq<char>>::empty());
            list
        }
    }
}

/// Joining a group a second time changes nothing: the member is in the
/// group once.
pub proof fn lemma_join_is_idempotent(groups: Map<Seq<char>, Set<Seq<char>>>, group: Seq<char>, identity: Seq<char>)
    ensures
        with_member(with_member(groups, group, identity), group, identity) == with_member(groups, group, identity),
        members_of(with_member(groups, group, identity), group).contains(identity),
{
    let once = with_member(groups, group, identity);
    assert(members_of(once, group).insert(identity) =~= members_of(once, group));
    assert(with_member(once, group, identity) =~= once);
}

/// Leaving a group that one is not a member of changes nothing.
pub proof fn lemma_leave_of_non_member(groups: Map<Seq<char>, Set<Seq<char>>>, group: Seq<char>, identity: Seq<char>)
    requires
        !members_of(groups, group).contains(identity),
    ensures
        without_member(groups, group, identity) == groups,
{
    if groups.dom().contains(group) {
        assert(groups[group].remove(identity) =~= groups[group]);
        assert(without_member(groups, group, identity) =~= groups);
    }
}

/// Leaving a group that was never made changes nothing, and does not make
/// the group.
pub proof fn lemma_leave_of_missing_group(groups: Map<Seq<char>, Set<Seq<char>>>, group: Seq<char>, identity: Seq<char>)
    requires
        !groups.dom().contains(group),
    ensures
        without_member(groups, group, identity) == groups,
        !without_member(groups, group, identity).dom().contains(group),
{
}

/// Whoever has left a group is not a member of it, and everybody else is a
/// member exactly if they were before.
pub proof fn lemma_leave_removes_only_the_leaver(groups: Map<Seq<char>, Set<Seq<char>>>, group: Seq<char>, identity: Seq<char>, other: Seq<char>)
    ensures
        !members_of(without_member(groups, group, identity), group).contains(identity),
        other != identity ==> (members_of(without_member(groups, group, identity), group).contains(other)
            <==> members_of(groups, group).contains(other)),
{
}

} // verus!
