use block_copy_command::policy::{block_reason, listed_role, BlockReason, CopyCommand, Settings};

fn copy_to() -> CopyCommand {
    CopyCommand { is_from: false, is_program: false }
}

fn copy_from() -> CopyCommand {
    CopyCommand { is_from: true, is_program: false }
}

fn copy_to_program() -> CopyCommand {
    CopyCommand { is_from: false, is_program: true }
}

fn copy_from_program() -> CopyCommand {
    CopyCommand { is_from: true, is_program: true }
}

fn with_roles(list: &str) -> Settings {
    let mut s = Settings::default();
    s.blocked_roles = Some(list.to_string());
    s
}

#[test]
fn defaults_turn_every_switch_on() {
    let s = Settings::default();
    assert!(s.enabled);
    assert!(s.block_to);
    assert!(s.block_from);
    assert!(s.block_program);
    assert!(s.audit_log_enabled);
    assert_eq!(s.blocked_roles, None);
    assert_eq!(s.hint, None);
}

#[test]
fn defaults_block_copy_for_regular_user() {
    let s = Settings::default();
    assert_eq!(block_reason(&s, copy_to(), false, "someuser"), Some(BlockReason::DirectionBlocked));
    assert_eq!(block_reason(&s, copy_from(), false, "someuser"), Some(BlockReason::DirectionBlocked));
}

#[test]
fn defaults_let_superuser_copy() {
    let s = Settings::default();
    assert_eq!(block_reason(&s, copy_to(), true, "postgres"), None);
    assert_eq!(block_reason(&s, copy_from(), true, "postgres"), None);
}

#[test]
fn program_blocked_even_for_superuser() {
    let s = Settings::default();
    assert_eq!(block_reason(&s, copy_to_program(), true, "postgres"), Some(BlockReason::ProgramBlocked));
    assert_eq!(block_reason(&s, copy_from_program(), true, "postgres"), Some(BlockReason::ProgramBlocked));
}

#[test]
fn program_allowed_for_superuser_when_block_program_off() {
    let mut s = Settings::default();
    s.block_program = false;
    assert_eq!(block_reason(&s, copy_to_program(), true, "postgres"), None);
    assert_eq!(block_reason(&s, copy_to_program(), false, "someuser"), Some(BlockReason::DirectionBlocked));
}

#[test]
fn listed_superuser_is_blocked() {
    let s = with_roles("alice");
    assert_eq!(block_reason(&s, copy_to(), true, "alice"), Some(BlockReason::RoleListed));
    assert_eq!(block_reason(&s, copy_to(), true, "bob"), None);
}

#[test]
fn listed_role_blocked_when_disabled() {
    let mut s = with_roles("alice, bob, etl_user");
    s.enabled = false;
    s.block_program = false;
    s.block_to = false;
    s.block_from = false;
    assert_eq!(block_reason(&s, copy_from(), false, "bob"), Some(BlockReason::RoleListed));
    assert_eq!(block_reason(&s, copy_from(), false, "carol"), None);
}

#[test]
fn listed_role_wins_over_program_rule() {
    let s = with_roles("alice");
    assert_eq!(block_reason(&s, copy_to_program(), false, "alice"), Some(BlockReason::RoleListed));
}

#[test]
fn enabled_off_allows_regular_user() {
    let mut s = Settings::default();
    s.enabled = false;
    assert_eq!(block_reason(&s, copy_to(), false, "someuser"), None);
    assert_eq!(block_reason(&s, copy_from(), false, "someuser"), None);
    assert_eq!(block_reason(&s, copy_to_program(), false, "someuser"), Some(BlockReason::ProgramBlocked));
}

#[test]
fn block_from_off_allows_import_only() {
    let mut s = Settings::default();
    s.block_from = false;
    assert_eq!(block_reason(&s, copy_from(), false, "etl_user"), None);
    assert_eq!(block_reason(&s, copy_to(), false, "etl_user"), Some(BlockReason::DirectionBlocked));
}

#[test]
fn block_to_off_allows_export_only() {
    let mut s = Settings::default();
    s.block_to = false;
    assert_eq!(block_reason(&s, copy_to(), false, "etl_user"), None);
    assert_eq!(block_reason(&s, copy_from(), false, "etl_user"), Some(BlockReason::DirectionBlocked));
}

#[test]
fn directions_are_independent() {
    let mut a = Settings::default();
    let mut b = Settings::default();
    a.block_to = false;
    b.block_to = true;
    assert_eq!(block_reason(&a, copy_from(), false, "u"), block_reason(&b, copy_from(), false, "u"));
    a.block_from = false;
    b.block_from = true;
    a.block_to = true;
    assert_eq!(block_reason(&a, copy_to(), false, "u"), block_reason(&b, copy_to(), false, "u"));
}

#[test]
fn listed_role_ignores_whitespace_around_entries() {
    let s = with_roles(" alice ,\tbob\u{3000}, etl_user ");
    assert!(listed_role(&s, "alice"));
    assert!(listed_role(&s, "bob"));
    assert!(listed_role(&s, "etl_user"));
    assert!(!listed_role(&s, " alice"));
    assert!(!listed_role(&s, "carol"));
}

#[test]
fn unset_list_blocks_nobody() {
    let s = Settings::default();
    assert!(!listed_role(&s, "alice"));
}

#[test]
fn adding_a_role_keeps_earlier_roles() {
    let s1 = with_roles("alice");
    let s2 = with_roles("alice, bob");
    assert!(listed_role(&s1, "alice"));
    assert!(!listed_role(&s1, "bob"));
    assert!(listed_role(&s2, "alice"));
    assert!(listed_role(&s2, "bob"));
}

#[test]
fn blocked_roles_only_add_refusals() {
    let mut s = with_roles("bob");
    s.enabled = false;
    s.block_program = false;
    let mut unset = Settings::default();
    unset.enabled = false;
    unset.block_program = false;
    assert_eq!(block_reason(&unset, copy_to(), false, "bob"), None);
    assert_eq!(block_reason(&s, copy_to(), false, "bob"), Some(BlockReason::RoleListed));
}
