use block_copy_command::hook::{intercept, Invocation, UtilityCommand};
use block_copy_command::policy::{BlockReason, CopyCommand, Settings};
use block_copy_command::report::{
    blocked_log_line, blocked_message, copy_direction, hint_to_show, log_message,
    query_text_or_placeholder, user_name_or_unknown, ErrorClass,
};

fn copy(is_from: bool, is_program: bool, user: &str, superuser: bool) -> Invocation {
    Invocation {
        command: UtilityCommand::Copy(CopyCommand { is_from, is_program }),
        query_text: Some("COPY my_table TO STDOUT".to_string()),
        current_user: Some(user.to_string()),
        session_user: Some("login_role".to_string()),
        is_superuser: superuser,
    }
}

#[test]
fn messages_name_direction_and_program() {
    assert_eq!(blocked_message(CopyCommand { is_from: false, is_program: false }), "COPY TO command is not allowed");
    assert_eq!(blocked_message(CopyCommand { is_from: true, is_program: false }), "COPY FROM command is not allowed");
    assert_eq!(blocked_message(CopyCommand { is_from: false, is_program: true }), "COPY TO PROGRAM command is not allowed");
    assert_eq!(blocked_message(CopyCommand { is_from: true, is_program: true }), "COPY FROM PROGRAM command is not allowed");
}

#[test]
fn direction_and_reason_labels() {
    assert_eq!(copy_direction(true), "FROM");
    assert_eq!(copy_direction(false), "TO");
    assert_eq!(BlockReason::RoleListed.label(), "role_listed");
    assert_eq!(BlockReason::ProgramBlocked.label(), "program_blocked");
    assert_eq!(BlockReason::DirectionBlocked.label(), "direction_blocked");
}

#[test]
fn hint_shown_only_when_set_and_not_empty() {
    assert_eq!(hint_to_show(&None), None);
    assert_eq!(hint_to_show(&Some(String::new())), None);
    assert_eq!(
        hint_to_show(&Some("Contact DBA to request access".to_string())),
        Some("Contact DBA to request access".to_string())
    );
}

#[test]
fn fallbacks_for_unreadable_names_and_queries() {
    assert_eq!(user_name_or_unknown(&None), "unknown");
    assert_eq!(user_name_or_unknown(&Some("bob".to_string())), "bob");
    assert_eq!(query_text_or_placeholder(&None), "<non-utf8 query>");
    assert_eq!(query_text_or_placeholder(&Some("COPY t TO STDOUT".to_string())), "COPY t TO STDOUT");
}

#[test]
fn other_statements_pass_untouched() {
    let s = Settings::default();
    let inv = Invocation {
        command: UtilityCommand::Other,
        query_text: Some("CREATE TABLE t (id int)".to_string()),
        current_user: Some("someuser".to_string()),
        session_user: Some("someuser".to_string()),
        is_superuser: false,
    };
    let out = intercept(&s, &inv);
    assert!(out.audit.is_none());
    assert!(out.refusal.is_none());
}

#[test]
fn regular_user_copy_to_refused_and_recorded() {
    let mut s = Settings::default();
    s.hint = Some("Contact DBA to request access".to_string());
    let out = intercept(&s, &copy(false, false, "someuser", false));
    let r = out.refusal.expect("refused");
    assert_eq!(r.reason, BlockReason::DirectionBlocked);
    assert_eq!(r.message, "COPY TO command is not allowed");
    assert_eq!(r.hint, Some("Contact DBA to request access".to_string()));
    assert_eq!(r.error_class, ErrorClass::InsufficientPrivilege);
    assert_eq!(r.error_class.sqlstate(), "42501");
    assert_eq!(r.log_line, "blocked COPY TO program=false user=\"someuser\" reason=\"direction_blocked\"");
    let a = out.audit.expect("recorded");
    assert_eq!(a.session_user_name, "login_role");
    assert_eq!(a.current_user_name, "someuser");
    assert_eq!(a.query_text, "COPY my_table TO STDOUT");
    assert_eq!(a.copy_direction, "TO");
    assert!(!a.copy_is_program);
    assert!(a.blocked);
    assert_eq!(a.block_reason, Some("direction_blocked".to_string()));
}

#[test]
fn superuser_copy_allowed_and_recorded() {
    let s = Settings::default();
    let out = intercept(&s, &copy(true, false, "postgres", true));
    assert!(out.refusal.is_none());
    let a = out.audit.expect("recorded");
    assert_eq!(a.copy_direction, "FROM");
    assert!(!a.blocked);
    assert_eq!(a.block_reason, None);
}

#[test]
fn program_refused_for_superuser_with_program_message() {
    let s = Settings::default();
    let out = intercept(&s, &copy(false, true, "postgres", true));
    let r = out.refusal.expect("refused");
    assert_eq!(r.reason, BlockReason::ProgramBlocked);
    assert_eq!(r.message, "COPY TO PROGRAM command is not allowed");
    assert_eq!(r.hint, None);
    assert_eq!(r.error_class, ErrorClass::InsufficientPrivilege);
    assert_eq!(r.log_line, "blocked COPY TO program=true user=\"postgres\" reason=\"program_blocked\"");
    let a = out.audit.expect("recorded");
    assert!(a.copy_is_program);
    assert_eq!(a.block_reason, Some("program_blocked".to_string()));
}

#[test]
fn listed_role_refused_with_role_listed() {
    let mut s = Settings::default();
    s.blocked_roles = Some("alice".to_string());
    let out = intercept(&s, &copy(false, false, "alice", true));
    assert_eq!(out.refusal.expect("refused").reason, BlockReason::RoleListed);
    assert_eq!(out.audit.expect("recorded").block_reason, Some("role_listed".to_string()));
}

#[test]
fn audit_off_writes_no_row() {
    let mut s = Settings::default();
    s.audit_log_enabled = false;
    let out = intercept(&s, &copy(false, false, "someuser", false));
    assert!(out.audit.is_none());
    assert!(out.refusal.is_some());
}

#[test]
fn unknown_user_and_non_utf8_query() {
    let mut s = Settings::default();
    s.blocked_roles = Some("unknown".to_string());
    let inv = Invocation {
        command: UtilityCommand::Copy(CopyCommand { is_from: true, is_program: false }),
        query_text: None,
        current_user: None,
        session_user: None,
        is_superuser: true,
    };
    let out = intercept(&s, &inv);
    assert_eq!(
        out.refusal.as_ref().expect("refused").log_line,
        "blocked COPY FROM program=false user=\"unknown\" reason=\"role_listed\""
    );
    assert_eq!(out.refusal.expect("refused").reason, BlockReason::RoleListed);
    let a = out.audit.expect("recorded");
    assert_eq!(a.session_user_name, "unknown");
    assert_eq!(a.current_user_name, "unknown");
    assert_eq!(a.query_text, "<non-utf8 query>");
}

#[test]
fn listed_superuser_in_list_of_three() {
    let mut s = Settings::default();
    s.blocked_roles = Some("alice, bob, etl_user".to_string());
    let out = intercept(&s, &copy(false, false, "bob", true));
    let r = out.refusal.expect("refused");
    assert_eq!(r.reason, BlockReason::RoleListed);
    assert_eq!(r.error_class.sqlstate(), "42501");
    assert_eq!(r.message, "COPY TO command is not allowed");
    assert_eq!(r.hint, None);
    let a = out.audit.expect("recorded");
    assert!(a.blocked);
    assert_eq!(a.block_reason, Some("role_listed".to_string()));
}

#[test]
fn error_class_does_not_depend_on_hint() {
    let mut with_hint = Settings::default();
    with_hint.hint = Some("Contact DBA to request access".to_string());
    let without_hint = Settings::default();
    let a = intercept(&with_hint, &copy(true, false, "u", false)).refusal.expect("refused");
    let b = intercept(&without_hint, &copy(true, false, "u", false)).refusal.expect("refused");
    assert_eq!(a.error_class, b.error_class);
    assert_eq!(a.message, b.message);
    assert_eq!(a.hint, Some("Contact DBA to request access".to_string()));
    assert_eq!(b.hint, None);
}

#[test]
fn log_line_quotes_user_as_debug_does() {
    let cmd = CopyCommand { is_from: true, is_program: true };
    assert_eq!(
        blocked_log_line(cmd, "someuser", BlockReason::ProgramBlocked),
        "blocked COPY FROM program=true user=\"someuser\" reason=\"program_blocked\""
    );
    let odd = "we\"ird\\na\tme";
    assert_eq!(
        blocked_log_line(cmd, odd, BlockReason::RoleListed),
        format!("blocked COPY FROM program=true user={:?} reason=\"role_listed\"", odd)
    );
    assert_eq!(
        blocked_log_line(cmd, odd, BlockReason::RoleListed),
        "blocked COPY FROM program=true user=\"we\\\"ird\\\\na\\tme\" reason=\"role_listed\""
    );
}

#[test]
fn log_message_inserts_quoted_user() {
    let cmd = CopyCommand { is_from: false, is_program: false };
    assert_eq!(
        log_message(cmd, "<q>", BlockReason::DirectionBlocked),
        "blocked COPY TO program=false user=<q> reason=\"direction_blocked\""
    );
}
