//! What the utility hook does with one statement: for a `COPY`, the audit row
//! to write and, when the statement is refused, the error to raise; any other
//! statement is handed on untouched.

use vstd::prelude::*;
use crate::policy::{BlockReason, CopyCommand, Settings, block_reason, reason_for};
use crate::report::{
    begins_with,
    law_found_name_is_kept,
    law_hint_shown_as_written,
    law_texts_name_the_direction,
    blocked_log_line,
    blocked_message,
    debug_plain,
    debug_quoted,
    log_text,
    ErrorClass,
    copy_direction,
    direction_text,
    hint_shown,
    hint_to_show,
    message_text,
    name_or_unknown,
    opt_view,
    query_or_placeholder,
    query_text_or_placeholder,
    reason_label,
    user_name_or_unknown,
};

verus! {

/// The kind of utility statement the hook sees.
pub enum UtilityCommand {
    /// A `COPY` statement.
    Copy(CopyCommand),
    /// Any other utility statement (DDL and the like).
    Other,
}

/// What the server tells the hook about one statement and the session that
/// runs it.
pub struct Invocation {
    /// The statement.
    pub command: UtilityCommand,
    /// The statement's text; `None` when it is not valid UTF-8.
    pub query_text: Option<String>,
    /// The effective role's name; `None` when it cannot be found.
    pub current_user: Option<String>,
    /// The authenticated role's name; `None` when it cannot be found.
    pub session_user: Option<String>,
    /// Whether the effective role is a superuser.
    pub is_superuser: bool,
}

/// One row of the audit table.
pub struct AuditRecord {
    pub session_user_name: String,
    pub current_user_name: String,
    pub query_text: String,
    /// `"TO"` or `"FROM"`.
    pub copy_direction: String,
    pub copy_is_program: bool,
    pub blocked: bool,
    /// `None` when the statement is allowed, else the reason's label.
    pub block_reason: Option<String>,
}

/// The error to raise for a refused statement, and the line written to the
/// server log before it.
pub struct Refusal {
    pub reason: BlockReason,
    /// The error's class (its SQLSTATE).
    pub error_class: ErrorClass,
    /// The error message.
    pub message: String,
    /// The hint shown beside the error, if any.
    pub hint: Option<String>,
    /// The line written to the server log at `LOG` level.
    pub log_line: String,
}

/// What the hook does with a statement: write `audit` when it is present,
/// then raise `refusal` when it is present, else hand the statement on.
pub struct Outcome {
    pub audit: Option<AuditRecord>,
    pub refusal: Option<Refusal>,
}

/// The optional reason label as written to the audit log.
pub open spec fn label_of(reason: Option<BlockReason>) -> Option<Seq<char>> {
    match reason {
        Some(r) => Some(reason_label(r)),
        None => None,
    }
}

/// The outcome's audit row is the one the hook owes for `cmd`, refused for
/// `reason` (or allowed when it is `None`).
pub open spec fn audit_matches(
    audit: AuditRecord,
    inv: Invocation,
    cmd: CopyCommand,
    reason: Option<BlockReason>,
) -> bool {
    &&& audit.session_user_name@ == name_or_unknown(inv.session_user)
    &&& audit.current_user_name@ == name_or_unknown(inv.current_user)
    &&& audit.query_text@ == query_or_placeholder(inv.query_text)
    &&& audit.copy_direction@ == direction_text(cmd.is_from)
    &&& audit.copy_is_program == cmd.is_program
    &&& audit.blocked == (reason is Some)
    &&& opt_view(audit.block_reason) == label_of(reason)
}

/// The refusal is the error the hook owes for `cmd`, refused for `reason`.
pub open spec fn refusal_matches(
    refusal: Refusal,
    settings: Settings,
    inv: Invocation,
    cmd: CopyCommand,
    reason: BlockReason,
) -> bool {
    let user = name_or_unknown(inv.current_user);
    &&& refusal.reason == reason
    &&& refusal.error_class == ErrorClass::InsufficientPrivilege
    &&& refusal.message@ == message_text(cmd)
    &&& opt_view(refusal.hint) == hint_shown(settings.hint)
    &&& refusal.log_line@ == log_text(cmd, debug_quoted(user), reason)
    &&& (debug_plain(user) ==> refusal.log_line@ == log_text(
        cmd,
        seq!['"'] + user + seq!['"'],
        reason,
    ))
}

/// The audit row keeps what the statement and session were, whatever the
/// decision: the statement's own program flag and direction, the role names
/// that were found (each as found), and `blocked` exactly when there is a
/// reason.
pub proof fn law_audit_row_keeps_the_statement(
    audit: AuditRecord,
    inv: Invocation,
    cmd: CopyCommand,
    reason: Option<BlockReason>,
)
    requires
        audit_matches(audit, inv, cmd, reason),
    ensures
        audit.copy_is_program == cmd.is_program,
        audit.copy_direction@ == (if cmd.is_from {
            "FROM"@
        } else {
            "TO"@
        }),
        audit.blocked == (reason is Some),
        audit.block_reason is Some == (reason is Some),
        inv.current_user matches Some(n) ==> audit.current_user_name@ == n@,
        inv.session_user matches Some(n) ==> audit.session_user_name@ == n@,
        inv.query_text matches Some(q) ==> audit.query_text@ == q@,
{
    law_found_name_is_kept(inv.current_user);
    law_found_name_is_kept(inv.session_user);
}

/// The audit row for `cmd`, refused for `reason` or allowed.
fn audit_record(inv: &Invocation, cmd: CopyCommand, reason: Option<BlockReason>) -> (a:
    AuditRecord)
    ensures
        audit_matches(a, *inv, cmd, reason),
{
    let label: Option<String> = match reason {
        Some(r) => Some(String::from_str(r.label())),
        None => None,
    };
    AuditRecord {
        session_user_name: user_name_or_unknown(&inv.session_user),
        current_user_name: user_name_or_unknown(&inv.current_user),
        query_text: query_text_or_placeholder(&inv.query_text),
        copy_direction: String::from_str(copy_direction(cmd.is_from)),
        copy_is_program: cmd.is_program,
        blocked: reason.is_some(),
        block_reason: label,
    }
}

/// Decides what the hook does with `inv` under `settings`: a `COPY` is
/// recorded when `audit_log_enabled` is on and refused, with an
/// `insufficient_privilege` error and a server log line, exactly when
/// `reason_for` gives a reason; any other statement is neither recorded nor
/// refused.
pub fn intercept(settings: &Settings, inv: &Invocation) -> (out: Outcome)
    ensures
        match inv.command {
            UtilityCommand::Other => out.audit is None && out.refusal is None,
            UtilityCommand::Copy(cmd) => {
                let reason = reason_for(
                    *settings,
                    cmd,
                    inv.is_superuser,
                    name_or_unknown(inv.current_user),
                );
                &&& (out.audit is Some) == settings.audit_log_enabled
                &&& (out.audit matches Some(a) ==> audit_matches(a, *inv, cmd, reason))
                &&& (out.refusal is Some) == (reason is Some)
                &&& (out.refusal matches Some(r) ==> refusal_matches(
                    r,
                    *settings,
                    *inv,
                    cmd,
                    reason->0,
                ))
                &&& (out.audit matches Some(a) ==> a.copy_is_program == cmd.is_program)
                &&& (out.audit matches Some(a) ==> a.blocked == (out.refusal is Some))
                &&& (out.audit matches Some(a) ==> a.copy_direction@ == (if cmd.is_from {
                    "FROM"@
                } else {
                    "TO"@
                }))
                &&& (inv.current_user matches Some(n) ==> ((out.refusal is Some) == (reason_for(
                    *settings,
                    cmd,
                    inv.is_superuser,
                    n@,
                ) is Some)))
                &&& (inv.current_user matches Some(n) ==> (out.audit matches Some(a)
                    ==> a.current_user_name@ == n@))
                &&& (inv.session_user matches Some(n) ==> (out.audit matches Some(a)
                    ==> a.session_user_name@ == n@))
                &&& (settings.hint matches Some(h) ==> (h@.len() > 0 ==> (out.refusal matches Some(
                    r,
                ) ==> opt_view(r.hint) == Some(h@))))
                &&& (out.refusal matches Some(r) ==> begins_with(
                    r.log_line@,
                    "blocked COPY "@ + (if cmd.is_from {
                        "FROM"@
                    } else {
                        "TO"@
                    }) + " program="@ + (if cmd.is_program {
                        "true"@
                    } else {
                        "false"@
                    }),
                ))
                &&& (out.refusal matches Some(r) ==> begins_with(
                    r.message@,
                    "COPY "@ + (if cmd.is_from {
                        "FROM"@
                    } else {
                        "TO"@
                    }),
                ))
            },
        },
{
    match inv.command {
        UtilityCommand::Other => Outcome { audit: None, refusal: None },
        UtilityCommand::Copy(cmd) => {
            proof {
                law_found_name_is_kept(inv.current_user);
                law_found_name_is_kept(inv.session_user);
                law_hint_shown_as_written(settings.hint);
            }
            let current_user: String = user_name_or_unknown(&inv.current_user);
            let reason: Option<BlockReason> = block_reason(
                settings,
                cmd,
                inv.is_superuser,
                current_user.as_str(),
            );
            let audit: Option<AuditRecord> = if settings.audit_log_enabled {
                Some(audit_record(inv, cmd, reason))
            } else {
                None
            };
            let refusal: Option<Refusal> = match reason {
                Some(r) => Some(
                    Refusal {
                        reason: r,
                        error_class: ErrorClass::InsufficientPrivilege,
                        message: blocked_message(cmd),
                        hint: hint_to_show(&settings.hint),
                        log_line: blocked_log_line(cmd, current_user.as_str(), r),
                    },
                ),
                None => None,
            };
            proof {
                if let Some(r) = reason {
                    law_texts_name_the_direction(
                        cmd,
                        debug_quoted(name_or_unknown(inv.current_user)),
                        r,
                    );
                }
            }
            Outcome { audit, refusal }
        },
    }
}

} // verus!
