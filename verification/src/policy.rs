//! The extension's settings and the rule that decides whether a `COPY`
//! statement is refused, and for which reason.

use vstd::prelude::*;
use crate::roles::{law_blank_list_lists_nobody, law_listed_role_appears_in_list, occurs_in, role_in_list, role_listed};
use crate::text::is_white_space;

verus! {

/// The extension's settings (`block_copy_command.*`).
pub struct Settings {
    /// `enabled`: refuse `COPY` to roles that are not superusers.
    pub enabled: bool,
    /// `blocked_roles`: comma-separated roles that are always refused; `None`
    /// when the setting is unset (or not valid UTF-8).
    pub blocked_roles: Option<String>,
    /// `block_to`: refuse `COPY TO` (export) to roles that are not superusers.
    pub block_to: bool,
    /// `block_from`: refuse `COPY FROM` (import) to roles that are not superusers.
    pub block_from: bool,
    /// `block_program`: refuse `COPY ... PROGRAM` to every role.
    pub block_program: bool,
    /// `hint`: text shown as a hint beside the error; `None` when unset (or
    /// not valid UTF-8).
    pub hint: Option<String>,
    /// `audit_log_enabled`: record each intercepted `COPY` in the audit table.
    pub audit_log_enabled: bool,
}

/// What the rule reads of a `COPY` statement.
#[derive(Clone, Copy, Debug, PartialEq, Eq, Structural)]
pub struct CopyCommand {
    /// `COPY ... FROM` (import) rather than `COPY ... TO` (export).
    pub is_from: bool,
    /// `COPY ... TO/FROM PROGRAM`.
    pub is_program: bool,
}

/// Why a `COPY` statement is refused.
#[derive(Clone, Copy, Debug, PartialEq, Eq, Structural)]
pub enum BlockReason {
    /// The current role is in `blocked_roles`.
    RoleListed,
    /// The statement runs a program and `block_program` is on.
    ProgramBlocked,
    /// The role is not a superuser, `enabled` is on, and the statement's
    /// direction is blocked.
    DirectionBlocked,
}

/// Default of `enabled`.
pub const DEFAULT_ENABLED: bool = true;
/// Default of `block_to`.
pub const DEFAULT_BLOCK_TO: bool = true;
/// Default of `block_from`.
pub const DEFAULT_BLOCK_FROM: bool = true;
/// Default of `block_program`.
pub const DEFAULT_BLOCK_PROGRAM: bool = true;
/// Default of `audit_log_enabled`.
pub const DEFAULT_AUDIT_LOG_ENABLED: bool = true;

/// The settings a fresh server starts with: every switch on, no blocked
/// roles, no hint.
pub open spec fn default_settings(s: Settings) -> bool {
    &&& s.enabled
    &&& s.blocked_roles is None
    &&& s.block_to
    &&& s.block_from
    &&& s.block_program
    &&& s.hint is None
    &&& s.audit_log_enabled
}

impl Default for Settings {
    fn default() -> (s: Settings)
        ensures
            default_settings(s),
    {
        Settings {
            enabled: DEFAULT_ENABLED,
            blocked_roles: None,
            block_to: DEFAULT_BLOCK_TO,
            block_from: DEFAULT_BLOCK_FROM,
            block_program: DEFAULT_BLOCK_PROGRAM,
            hint: None,
            audit_log_enabled: DEFAULT_AUDIT_LOG_ENABLED,
        }
    }
}

/// Whether `user` is in the settings' list of always-blocked roles.
pub open spec fn is_listed(settings: Settings, user: Seq<char>) -> bool {
    match settings.blocked_roles {
        Some(list) => role_listed(list@, user),
        None => false,
    }
}

/// Whether the settings block the statement's direction.
pub open spec fn direction_blocked(settings: Settings, cmd: CopyCommand) -> bool {
    if cmd.is_from {
        settings.block_from
    } else {
        settings.block_to
    }
}

/// The reason a `COPY` statement is refused, or `None` when it is allowed;
/// the rules are tried in order: listed role, program, then direction for a
/// role that is not a superuser while `enabled` is on.
pub open spec fn reason_for(
    settings: Settings,
    cmd: CopyCommand,
    is_superuser: bool,
    current_user: Seq<char>,
) -> Option<BlockReason> {
    if is_listed(settings, current_user) {
        Some(BlockReason::RoleListed)
    } else if cmd.is_program && settings.block_program {
        Some(BlockReason::ProgramBlocked)
    } else if settings.enabled && !is_superuser && direction_blocked(settings, cmd) {
        Some(BlockReason::DirectionBlocked)
    } else {
        None
    }
}

/// Whether `user` is in the settings' list of always-blocked roles.
pub fn listed_role(settings: &Settings, user: &str) -> (b: bool)
    ensures
        b == is_listed(*settings, user@),
        settings.blocked_roles is None ==> !b,
        settings.blocked_roles matches Some(list) ==> (b <==> role_listed(list@, user@)),
{
    match &settings.blocked_roles {
        Some(list) => role_in_list(list.as_str(), user),
        None => false,
    }
}

/// The reason `cmd`, run by `current_user`, is refused under `settings`, or
/// `None` when it is allowed.
pub fn block_reason(settings: &Settings, cmd: CopyCommand, is_superuser: bool, current_user: &str) -> (r:
    Option<BlockReason>)
    ensures
        r == reason_for(*settings, cmd, is_superuser, current_user@),
        (r == Some(BlockReason::RoleListed)) <==> (settings.blocked_roles matches Some(list)
            && role_listed(list@, current_user@)),
{
    let in_blocked_list: bool = listed_role(settings, current_user);
    let program_blocked: bool = cmd.is_program && settings.block_program;
    let direction: bool = if cmd.is_from {
        settings.block_from
    } else {
        settings.block_to
    };
    if in_blocked_list {
        Some(BlockReason::RoleListed)
    } else if program_blocked {
        Some(BlockReason::ProgramBlocked)
    } else if settings.enabled && !is_superuser && direction {
        Some(BlockReason::DirectionBlocked)
    } else {
        None
    }
}

/// Whether a role is listed follows the `blocked_roles` list alone: nobody
/// when it is unset; otherwise exactly the roles that are entries of the
/// list, each of which appears in the list's text. An empty or blank list
/// (only white space and commas) lists no non-empty role name.
pub proof fn law_listing_follows_the_list(settings: Settings, user: Seq<char>)
    ensures
        settings.blocked_roles is None ==> !is_listed(settings, user),
        settings.blocked_roles matches Some(list) ==> (is_listed(settings, user) <==> role_listed(
            list@,
            user,
        )),
        settings.blocked_roles matches Some(list) ==> (is_listed(settings, user) ==> occurs_in(
            user,
            list@,
        )),
        settings.blocked_roles matches Some(list) ==> (user.len() > 0 && (forall|k: int|
            0 <= k < list@.len() ==> is_white_space(#[trigger] list@[k]) || list@[k] == ',')
            ==> !is_listed(settings, user)),
{
    if let Some(list) = settings.blocked_roles {
        if is_listed(settings, user) {
            law_listed_role_appears_in_list(list@, user);
        }
        if user.len() > 0 && (forall|k: int|
            0 <= k < list@.len() ==> is_white_space(#[trigger] list@[k]) || list@[k] == ',') {
            law_blank_list_lists_nobody(list@, user);
        }
    }
}

/// A role in `blocked_roles` is refused every `COPY`, superuser or not, whatever
/// the other settings.
pub proof fn law_listed_role_always_blocked(
    settings: Settings,
    cmd: CopyCommand,
    is_superuser: bool,
    user: Seq<char>,
)
    requires
        is_listed(settings, user),
    ensures
        reason_for(settings, cmd, is_superuser, user) == Some(BlockReason::RoleListed),
{
}

/// With `block_program` on, `COPY ... PROGRAM` is refused to every role,
/// superusers and roles exempt by `enabled = off` included.
pub proof fn law_program_blocked_for_everyone(
    settings: Settings,
    cmd: CopyCommand,
    is_superuser: bool,
    user: Seq<char>,
)
    requires
        cmd.is_program,
        settings.block_program,
    ensures
        reason_for(settings, cmd, is_superuser, user) is Some,
        !is_listed(settings, user) ==> reason_for(settings, cmd, is_superuser, user) == Some(
            BlockReason::ProgramBlocked,
        ),
{
}

/// With `enabled` off, a role that is not listed may run any `COPY` that the
/// program rule does not catch.
pub proof fn law_disabled_allows(
    settings: Settings,
    cmd: CopyCommand,
    is_superuser: bool,
    user: Seq<char>,
)
    requires
        !settings.enabled,
        !is_listed(settings, user),
        !(cmd.is_program && settings.block_program),
    ensures
        reason_for(settings, cmd, is_superuser, user) is None,
{
}

/// A superuser that is not listed may run any `COPY` that the program rule
/// does not catch.
pub proof fn law_superuser_bypass(settings: Settings, cmd: CopyCommand, user: Seq<char>)
    requires
        !is_listed(settings, user),
        !(cmd.is_program && settings.block_program),
    ensures
        reason_for(settings, cmd, true, user) is None,
{
}

/// For a role that is neither listed nor a superuser, with `enabled` on and
/// the program rule not applying, `COPY TO` is refused exactly when
/// `block_to` is on and `COPY FROM` exactly when `block_from` is on.
pub proof fn law_direction_rule(settings: Settings, cmd: CopyCommand, user: Seq<char>)
    requires
        settings.enabled,
        !is_listed(settings, user),
        !(cmd.is_program && settings.block_program),
    ensures
        reason_for(settings, cmd, false, user) == (if (if cmd.is_from {
            settings.block_from
        } else {
            settings.block_to
        }) {
            Some(BlockReason::DirectionBlocked)
        } else {
            None
        }),
{
}

/// `block_to` has no bearing on `COPY FROM`, and `block_from` none on
/// `COPY TO`.
pub proof fn law_directions_independent(
    settings: Settings,
    other: Settings,
    cmd: CopyCommand,
    is_superuser: bool,
    user: Seq<char>,
)
    requires
        other.enabled == settings.enabled,
        other.blocked_roles == settings.blocked_roles,
        other.block_program == settings.block_program,
        cmd.is_from ==> other.block_from == settings.block_from,
        !cmd.is_from ==> other.block_to == settings.block_to,
    ensures
        reason_for(other, cmd, is_superuser, user) == reason_for(settings, cmd, is_superuser, user),
{
}

/// Naming roles in `blocked_roles` only ever adds refusals: a statement
/// refused with the list unset is refused with any list.
pub proof fn law_blocked_roles_only_add_refusals(
    settings: Settings,
    unset: Settings,
    cmd: CopyCommand,
    is_superuser: bool,
    user: Seq<char>,
)
    requires
        unset.blocked_roles is None,
        unset.enabled == settings.enabled,
        unset.block_to == settings.block_to,
        unset.block_from == settings.block_from,
        unset.block_program == settings.block_program,
        reason_for(unset, cmd, is_superuser, user) is Some,
    ensures
        reason_for(settings, cmd, is_superuser, user) is Some,
{
}

/// Under the default settings every `COPY` of a role that is not a superuser
/// is refused, a superuser's `COPY` is allowed unless it runs a program, and
/// `COPY ... PROGRAM` is refused to everyone.
pub proof fn law_defaults(settings: Settings, cmd: CopyCommand, is_superuser: bool, user: Seq<char>)
    requires
        default_settings(settings),
    ensures
        !is_superuser ==> reason_for(settings, cmd, is_superuser, user) is Some,
        is_superuser ==> (reason_for(settings, cmd, is_superuser, user) is Some
            <==> cmd.is_program),
        cmd.is_program ==> reason_for(settings, cmd, is_superuser, user) == Some(
            BlockReason::ProgramBlocked,
        ),
{
}

} // verus!
