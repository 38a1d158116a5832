use libwmgr::workspace::{
    get_next_workspace_logical_id, get_previous_workspace_logical_id, get_workspace_logical_id,
    WorkspaceGroup,
};

/// Two displays with five workspaces each.
fn ten_workspaces() -> WorkspaceGroup {
    WorkspaceGroup::new(vec![vec![8, 11, 12, 13, 24], vec![519, 77, 15, 249, 414]]).unwrap()
}

#[test]
fn logical_ids_count_across_displays() {
    let groups = ten_workspaces();
    let ids = [8, 11, 12, 13, 24, 519, 77, 15, 249, 414];
    for (k, id) in ids.iter().enumerate() {
        assert_eq!(get_workspace_logical_id(*id, &groups), k + 1);
    }
}

#[test]
fn first_workspace_of_second_display_is_not_one() {
    let groups = ten_workspaces();
    assert_eq!(get_workspace_logical_id(8, &groups), 1);
    assert_eq!(get_workspace_logical_id(519, &groups), 6);
    let groups = WorkspaceGroup::new(vec![vec![3], vec![4], vec![5, 6]]).unwrap();
    assert_eq!(get_workspace_logical_id(4, &groups), 2);
    assert_eq!(get_workspace_logical_id(5, &groups), 3);
}

#[test]
fn first_workspace_after_empty_displays_is_one() {
    let groups = WorkspaceGroup::new(vec![vec![], vec![5, 6]]).unwrap();
    assert_eq!(get_workspace_logical_id(5, &groups), 1);
    assert_eq!(get_previous_workspace_logical_id(5, &groups), None);
    assert_eq!(get_next_workspace_logical_id(5, &groups), Some(2));
}

#[test]
fn next_within_a_display() {
    let groups = ten_workspaces();
    assert_eq!(get_next_workspace_logical_id(8, &groups), Some(2));
    assert_eq!(get_next_workspace_logical_id(13, &groups), Some(5));
    assert_eq!(get_next_workspace_logical_id(519, &groups), Some(7));
    assert_eq!(get_next_workspace_logical_id(249, &groups), Some(10));
}

#[test]
fn no_next_at_the_last_workspace_of_a_display() {
    let groups = ten_workspaces();
    assert_eq!(get_next_workspace_logical_id(24, &groups), None);
    assert_eq!(get_next_workspace_logical_id(414, &groups), None);
}

#[test]
fn previous_within_a_display() {
    let groups = ten_workspaces();
    assert_eq!(get_previous_workspace_logical_id(11, &groups), Some(1));
    assert_eq!(get_previous_workspace_logical_id(24, &groups), Some(4));
    assert_eq!(get_previous_workspace_logical_id(77, &groups), Some(6));
    assert_eq!(get_previous_workspace_logical_id(414, &groups), Some(9));
}

#[test]
fn no_previous_at_the_first_workspace_of_a_display() {
    let groups = ten_workspaces();
    assert_eq!(get_previous_workspace_logical_id(8, &groups), None);
    assert_eq!(get_previous_workspace_logical_id(519, &groups), None);
}

#[test]
fn a_display_with_one_workspace_has_no_neighbours() {
    let groups = WorkspaceGroup::new(vec![vec![1, 2], vec![7], vec![9, 10]]).unwrap();
    assert_eq!(get_workspace_logical_id(7, &groups), 3);
    assert_eq!(get_next_workspace_logical_id(7, &groups), None);
    assert_eq!(get_previous_workspace_logical_id(7, &groups), None);
}

#[test]
fn contains_tells_known_workspaces() {
    let groups = ten_workspaces();
    assert!(groups.contains(8));
    assert!(groups.contains(414));
    assert!(!groups.contains(9));
    assert!(!groups.contains(0));
    let empty = WorkspaceGroup::new(vec![]).unwrap();
    assert!(!empty.contains(8));
    let empty = WorkspaceGroup::new(vec![vec![], vec![]]).unwrap();
    assert!(!empty.contains(8));
}

#[test]
fn a_workspace_listed_twice_counts_where_it_is_met_first() {
    let groups = WorkspaceGroup::new(vec![vec![1, 2], vec![2, 3]]).unwrap();
    assert_eq!(get_workspace_logical_id(2, &groups), 2);
    assert_eq!(get_next_workspace_logical_id(2, &groups), None);
    assert_eq!(get_previous_workspace_logical_id(2, &groups), Some(1));
}

#[test]
fn negative_identifiers_are_identifiers() {
    let groups = WorkspaceGroup::new(vec![vec![-1, i32::MIN, i32::MAX]]).unwrap();
    assert_eq!(get_workspace_logical_id(i32::MIN, &groups), 2);
    assert_eq!(get_next_workspace_logical_id(i32::MIN, &groups), Some(3));
    assert_eq!(get_previous_workspace_logical_id(i32::MIN, &groups), Some(1));
}
