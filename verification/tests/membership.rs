use realtime_hub::membership::GroupState;

fn sorted(mut list: Vec<String>) -> Vec<String> {
    list.sort();
    list
}

#[test]
fn a_group_that_was_never_made_has_no_members() {
    let groups = GroupState::new();
    assert_eq!(groups.members("room"), Vec::<String>::new());
}

#[test]
fn join_makes_the_group_and_adds_the_member() {
    let mut groups = GroupState::new();
    groups.join("room", "alice");
    assert_eq!(groups.members("room"), vec!["alice".to_string()]);
    assert_eq!(groups.members("other"), Vec::<String>::new());
}

#[test]
fn joining_twice_leaves_a_single_entry() {
    let mut groups = GroupState::new();
    groups.join("room", "alice");
    groups.join("room", "alice");
    assert_eq!(groups.members("room"), vec!["alice".to_string()]);
}

#[test]
fn members_lists_everybody_once() {
    let mut groups = GroupState::new();
    groups.join("room", "carol");
    groups.join("room", "alice");
    groups.join("room", "bob");
    groups.join("room", "alice");
    groups.join("hall", "dave");
    assert_eq!(
        sorted(groups.members("room")),
        vec!["alice".to_string(), "bob".to_string(), "carol".to_string()]
    );
    assert_eq!(groups.members("hall"), vec!["dave".to_string()]);
}

#[test]
fn leave_removes_only_the_leaver() {
    let mut groups = GroupState::new();
    groups.join("room", "alice");
    groups.join("room", "bob");
    groups.leave("room", "alice");
    assert_eq!(groups.members("room"), vec!["bob".to_string()]);
}

#[test]
fn leaving_as_a_non_member_changes_nothing() {
    let mut groups = GroupState::new();
    groups.join("room", "alice");
    groups.leave("room", "bob");
    assert_eq!(groups.members("room"), vec!["alice".to_string()]);
}

#[test]
fn leaving_a_group_that_was_never_made_changes_nothing() {
    let mut groups = GroupState::new();
    groups.join("room", "alice");
    groups.leave("hall", "alice");
    assert_eq!(groups.members("hall"), Vec::<String>::new());
    assert_eq!(groups.members("room"), vec!["alice".to_string()]);
}

#[test]
fn an_emptied_group_can_be_joined_again() {
    let mut groups = GroupState::new();
    groups.join("room", "alice");
    groups.leave("room", "alice");
    assert_eq!(groups.members("room"), Vec::<String>::new());
    groups.leave("room", "alice");
    groups.join("room", "bob");
    assert_eq!(groups.members("room"), vec!["bob".to_string()]);
}

#[test]
fn membership_does_not_leak_between_groups() {
    let mut groups = GroupState::new();
    groups.join("room", "alice");
    groups.join("hall", "alice");
    groups.leave("room", "alice");
    assert_eq!(groups.members("room"), Vec::<String>::new());
    assert_eq!(groups.members("hall"), vec!["alice".to_string()]);
}
