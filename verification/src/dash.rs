//! The concurrent maps of the `dashmap` crate, as far as the hub uses them.
//!
//! Nothing in this file is proved. Each function makes the calls into
//! `dashmap` that its comment names and states what they do to the contents
//! of the map. A `DashMap` can be changed through a shared reference; the
//! functions here that change one take it by exclusive reference all the
//! same, so that nobody else changes it while a statement is relied on.

use vstd::prelude::*;
use crate::text::texts;

verus! {

/// `dashmap::DashMap`, carried as an opaque value.
#[verifier::external_type_specification]
#[verifier::external_body]
#[verifier::reject_recursive_types(K)]
#[verifier::reject_recursive_types(V)]
#[verifier::reject_recursive_types(S)]
pub struct ExDashMap<K, V, S>(dashmap::DashMap<K, V, S>);

/// `dashmap::DashSet`, carried as an opaque value.
#[verifier::external_type_specification]
#[verifier::external_body]
#[verifier::reject_recursive_types(K)]
#[verifier::reject_recursive_types(S)]
pub struct ExDashSet<K, S>(dashmap::DashSet<K, S>);

/// The entries that a map from identities to connection numbers holds.
pub uninterp spec fn connection_entries(map: dashmap::DashMap<String, u64>) -> Map<Seq<char>, u64>;

/// `DashMap::new`: the new map holds no entry.
#[verifier::external_body]
pub(crate) fn connections_new() -> (created: dashmap::DashMap<String, u64>)
    ensures
        forall|key: Seq<char>| !connection_entries(created).dom().contains(key),
{
    dashmap::DashMap::new()
}

/// `DashMap::insert`: afterwards `key` is bound to `value`, whatever it was
/// bound to before, and every other entry is as it was.
#[verifier::external_body]
pub(crate) fn connections_insert(map: &mut dashmap::DashMap<String, u64>, key: String, value: u64)
    ensures
        connection_entries(*final(map)) == connection_entries(*old(map)).insert(key@, value),
{
    map.insert(key, value);
}

/// `DashMap::get`: the value bound to `key`, if there is one.
#[verifier::external_body]
pub(crate) fn connections_get(map: &dashmap::DashMap<String, u64>, key: &str) -> (value: Option<u64>)
    ensures
        value == (if connection_entries(*map).dom().contains(key@) {
            Some(connection_entries(*map)[key@])
        } else {
            None
        }),
{
    map.get(key).map(|entry| *entry.value())
}

/// `DashMap::remove`: afterwards `key` is bound to nothing, and every other
/// entry is as it was.
#[verifier::external_body]
pub(crate) fn connections_remove(map: &mut dashmap::DashMap<String, u64>, key: &str)
    ensures
        connection_entries(*final(map)) == connection_entries(*old(map)).remove(key@),
{
    map.remove(key);
}

/// The groups that a map from group names to member sets holds, each with
/// the identities that are its members.
pub uninterp spec fn group_entries(map: dashmap::DashMap<String, dashmap::DashSet<String>>) -> Map<Seq<char>, Set<Seq<char>>>;

/// The members of `group`: those of its entry, and nobody where it has none.
pub open spec fn members_of(groups: Map<Seq<char>, Set<Seq<char>>>, group: Seq<char>) -> Set<Seq<char>> {
    if groups.dom().contains(group) {
        groups[group]
    } else {
        Set::empty()
    }
}

/// `groups` after `member` has joined `group`: a group without an entry
/// gets one.
pub open spec fn with_member(groups: Map<Seq<char>, Set<Seq<char>>>, group: Seq<char>, member: Seq<char>) -> Map<Seq<char>, Set<Seq<char>>> {
    groups.insert(group, members_of(groups, group).insert(member))
}

/// `groups` after `member` has left `group`: a group without an entry
/// gets none.
pub open spec fn without_member(groups: Map<Seq<char>, Set<Seq<char>>>, group: Seq<char>, member: Seq<char>) -> Map<Seq<char>, Set<Seq<char>>> {
    if groups.dom().contains(group) {
        groups.insert(group, groups[group].remove(member))
    } else {
        groups
    }
}

/// `DashMap::new`: the new map holds no group.
#[verifier::external_body]
pub(crate) fn groups_new() -> (created: dashmap::DashMap<String, dashmap::DashSet<String>>)
    ensures
        forall|key: Seq<char>| !group_entries(created).dom().contains(key),
{
    dashmap::DashMap::new()
}

/// `DashMap::entry`, `Entry::or_insert_with` and `DashSet::insert`: the
/// entry of `group` is made with an empty set where there was none, and
/// `member` is then in its set. Nothing else changes.
#[verifier::external_body]
pub(crate) fn groups_insert_member(
    map: &mut dashmap::DashMap<String, dashmap::DashSet<String>>,
    group: String,
    member: String,
)
    ensures
        group_entries(*final(map)) == with_member(group_entries(*old(map)), group@, member@),
{
    map.entry(group).or_insert_with(dashmap::DashSet::new).insert(member);
}

/// `DashMap::contains_key`: whether `group` has an entry.
#[verifier::external_body]
pub(crate) fn groups_contains(
    map: &dashmap::DashMap<String, dashmap::DashSet<String>>,
    group: &str,
) -> (present: bool)
    ensures
        present == group_entries(*map).dom().contains(group@),
{
    map.contains_key(group)
}

/// `DashMap::get` and `DashSet::remove`, for a group that has an entry:
/// `member` is afterwards not in its set. Nothing else changes, and no entry
/// is made or dropped.
#[verifier::external_body]
pub(crate) fn groups_remove_member(
    map: &mut dashmap::DashMap<String, dashmap::DashSet<String>>,
    group: &str,
    member: &str,
)
    requires
        group_entries(*old(map)).dom().contains(group@),
    ensures
        group_entries(*final(map)) == group_entries(*old(map)).insert(
            group@,
            group_entries(*old(map))[group@].remove(member@),
        ),
{
    map.get(group).unwrap().remove(member);
}

/// `DashMap::get` and `DashSet::iter`, for a group that has an entry: its
/// members, each once, in the order in which the set hands them out, which
/// is not fixed.
#[verifier::external_body]
pub(crate) fn groups_members(
    map: &dashmap::DashMap<String, dashmap::DashSet<String>>,
    group: &str,
) -> (list: Vec<String>)
    requires
        group_entries(*map).dom().contains(group@),
    ensures
        texts(list@).no_duplicates(),
        texts(list@).to_set() == group_entries(*map)[group@],
{
    let list = map.get(group).unwrap().iter().map(|member| member.key().clone()).collect();
    list
}

} // verus!
