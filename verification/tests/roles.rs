use block_copy_command::roles::role_in_list;

#[test]
fn single_entry_matches_exactly() {
    assert!(role_in_list("alice", "alice"));
    assert!(!role_in_list("alice", "alic"));
    assert!(!role_in_list("alice", "alicex"));
    assert!(!role_in_list("alice", "Alice"));
}

#[test]
fn entries_split_on_commas() {
    assert!(role_in_list("alice,bob,etl_user", "etl_user"));
    assert!(role_in_list("alice,bob,etl_user", "bob"));
    assert!(!role_in_list("alice,bob,etl_user", "alice,bob"));
}

#[test]
fn entries_are_trimmed() {
    assert!(role_in_list("alice, bob", "bob"));
    assert!(role_in_list("  alice  ", "alice"));
    assert!(role_in_list("x,\n\t bob \r", "bob"));
    assert!(role_in_list("x,\u{a0}bob\u{2003}", "bob"));
    assert!(!role_in_list("al ice", "alice"));
    assert!(role_in_list("al ice", "al ice"));
}

#[test]
fn empty_entries_match_only_empty_name() {
    assert!(!role_in_list("", "alice"));
    assert!(role_in_list("", ""));
    assert!(role_in_list("alice,,bob", ""));
    assert!(role_in_list("alice, ", ""));
    assert!(!role_in_list("alice,bob", ""));
}

#[test]
fn non_ascii_role_names() {
    assert!(role_in_list("jürgen, zoë", "zoë"));
    assert!(!role_in_list("jürgen, zoë", "zoe"));
}
