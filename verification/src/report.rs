//! The texts the hook shows or records: the statement's direction, the
//! reason label, the error class, the error message, the hint, the server log
//! line, and the fallbacks for names and query texts that cannot be read.

use vstd::prelude::*;
use crate::policy::{BlockReason, CopyCommand};

verus! {

/// `"FROM"` for `COPY FROM`, `"TO"` for `COPY TO`.
pub open spec fn direction_text(is_from: bool) -> Seq<char> {
    if is_from {
        "FROM"@
    } else {
        "TO"@
    }
}

/// The label of a reason, as written to the audit log.
pub open spec fn reason_label(reason: BlockReason) -> Seq<char> {
    match reason {
        BlockReason::RoleListed => "role_listed"@,
        BlockReason::ProgramBlocked => "program_blocked"@,
        BlockReason::DirectionBlocked => "direction_blocked"@,
    }
}

/// The error shown when `cmd` is refused:
/// `COPY TO|FROM [PROGRAM ]command is not allowed`.
pub open spec fn message_text(cmd: CopyCommand) -> Seq<char> {
    if cmd.is_program {
        "COPY "@ + direction_text(cmd.is_from) + " PROGRAM"@ + " command is not allowed"@
    } else {
        "COPY "@ + direction_text(cmd.is_from) + " command is not allowed"@
    }
}

/// The hint shown beside the error: the `hint` setting when it is set and not
/// empty, else none.
pub open spec fn hint_shown(hint: Option<String>) -> Option<Seq<char>> {
    match hint {
        Some(h) => if h@.len() > 0 {
            Some(h@)
        } else {
            None
        },
        None => None,
    }
}

/// A role's name, or `"unknown"` when it cannot be found.
pub open spec fn name_or_unknown(name: Option<String>) -> Seq<char> {
    match name {
        Some(n) => n@,
        None => "unknown"@,
    }
}

/// The statement's text, or `"<non-utf8 query>"` when it is not valid UTF-8.
pub open spec fn query_or_placeholder(query: Option<String>) -> Seq<char> {
    match query {
        Some(q) => q@,
        None => "<non-utf8 query>"@,
    }
}

/// The view of an optional string.
pub open spec fn opt_view(s: Option<String>) -> Option<Seq<char>> {
    match s {
        Some(t) => Some(t@),
        None => None,
    }
}

/// The class of the error raised for a refused statement.
#[derive(Clone, Copy, Debug, PartialEq, Eq, Structural)]
pub enum ErrorClass {
    /// SQLSTATE `42501`, `insufficient_privilege`.
    InsufficientPrivilege,
}

/// The five-character SQLSTATE of an error class.
pub open spec fn sqlstate_text(class: ErrorClass) -> Seq<char> {
    match class {
        ErrorClass::InsufficientPrivilege => "42501"@,
    }
}

impl ErrorClass {
    /// The five-character SQLSTATE of this error class.
    pub fn sqlstate(&self) -> (s: &'static str)
        ensures
            s@ == sqlstate_text(*self),
    {
        match self {
            ErrorClass::InsufficientPrivilege => "42501",
        }
    }
}

/// `"true"` or `"false"`, as a `bool` is displayed.
pub open spec fn bool_text(b: bool) -> Seq<char> {
    if b {
        "true"@
    } else {
        "false"@
    }
}

/// Characters that `{:?}` writes unchanged inside the quotes of a string:
/// printable ASCII other than `"`, `\` and `'`.
pub open spec fn debug_plain(s: Seq<char>) -> bool {
    forall|i: int|
        0 <= i < s.len() ==> {
            let u = #[trigger] s[i] as u32;
            &&& 0x20 <= u <= 0x7e
            &&& s[i] != '"'
            &&& s[i] != '\\'
            &&& s[i] != '\''
        }
}

/// What `format!("{:?}", s)` gives for a string `s`: `s` between double
/// quotes, with escapes for quotes, backslashes and characters that are not
/// printable.
pub uninterp spec fn debug_quoted(s: Seq<char>) -> Seq<char>;

/// Formats `s` with `{:?}` (std's `Debug` for `str`, through `format!`).
/// Claims: the result is `debug_quoted(s)`, a function of `s` alone; it is
/// `s` between double quotes when every character is printable ASCII other
/// than `"`, `\` and `'` (these `Debug` leaves as they are). What escapes
/// other characters get is not stated.
#[verifier::external_body]
fn quote_debug(s: &str) -> (r: String)
    ensures
        r@ == debug_quoted(s@),
        debug_plain(s@) ==> r@ == seq!['"'] + s@ + seq!['"'],
{
    format!("{:?}", s)
}

/// The server log line for a refused statement, given the role's name
/// already quoted as `{:?}` quotes it:
/// `blocked COPY <TO|FROM> program=<true|false> user=<quoted> reason="<label>"`.
pub open spec fn log_text(cmd: CopyCommand, quoted_user: Seq<char>, reason: BlockReason) -> Seq<
    char,
> {
    "blocked COPY "@ + direction_text(cmd.is_from) + " program="@ + bool_text(cmd.is_program)
        + " user="@ + quoted_user + " reason="@ + seq!['"'] + reason_label(reason) + seq!['"']
}

/// The server log line for `cmd` refused for `reason`, with the role's name
/// as `{:?}` quotes it already in `quoted_user`.
pub fn log_message(cmd: CopyCommand, quoted_user: &str, reason: BlockReason) -> (line: String)
    ensures
        line@ == log_text(cmd, quoted_user@, reason),
        begins_with(
            line@,
            "blocked COPY "@ + (if cmd.is_from {
                "FROM"@
            } else {
                "TO"@
            }) + " program="@ + (if cmd.is_program {
                "true"@
            } else {
                "false"@
            }),
        ),
{
    proof {
        law_texts_name_the_direction(cmd, quoted_user@, reason);
    }
    let mut line: String = String::from_str("blocked COPY ");
    line.append(copy_direction(cmd.is_from));
    line.append(" program=");
    if cmd.is_program {
        line.append("true");
    } else {
        line.append("false");
    }
    line.append(" user=");
    line.append(quoted_user);
    line.append(" reason=");
    line.append("\"");
    line.append(reason.label());
    line.append("\"");
    proof {
        reveal_strlit("\"");
        assert("\""@ =~= seq!['"']);
    }
    line
}

/// The server log line for `cmd`, run by `user`, refused for `reason`.
pub fn blocked_log_line(cmd: CopyCommand, user: &str, reason: BlockReason) -> (line: String)
    ensures
        line@ == log_text(cmd, debug_quoted(user@), reason),
        debug_plain(user@) ==> line@ == log_text(cmd, seq!['"'] + user@ + seq!['"'], reason),
{
    let quoted: String = quote_debug(user);
    log_message(cmd, quoted.as_str(), reason)
}

/// `s` begins with `prefix`.
pub open spec fn begins_with(s: Seq<char>, prefix: Seq<char>) -> bool {
    prefix.len() <= s.len() && s.subrange(0, prefix.len() as int) == prefix
}

/// A role name that was found is kept as it is, whatever characters it
/// holds; `"unknown"` stands only for a name that was not found.
pub proof fn law_found_name_is_kept(name: Option<String>)
    ensures
        name matches Some(n) ==> name_or_unknown(name) == n@,
        name is None ==> name_or_unknown(name) == "unknown"@,
{
}

/// A hint that is set and not empty is shown exactly as written, whatever
/// its length; an unset or empty hint shows none.
pub proof fn law_hint_shown_as_written(hint: Option<String>)
    ensures
        hint matches Some(h) ==> (h@.len() > 0 ==> hint_shown(hint) == Some(h@)),
        hint matches Some(h) ==> (h@.len() == 0 ==> hint_shown(hint) is None),
        hint is None ==> hint_shown(hint) is None,
{
}

/// The error message and the log line both name the statement's direction
/// (`FROM` for `COPY FROM`, `TO` for `COPY TO`) right after their fixed
/// opening, whatever the reason and the program flag; the log line then
/// gives the program flag as `true` or `false`.
pub proof fn law_texts_name_the_direction(cmd: CopyCommand, quoted_user: Seq<char>, reason: BlockReason)
    ensures
        direction_text(cmd.is_from) == (if cmd.is_from {
            "FROM"@
        } else {
            "TO"@
        }),
        begins_with(
            log_text(cmd, quoted_user, reason),
            "blocked COPY "@ + (if cmd.is_from {
                "FROM"@
            } else {
                "TO"@
            }) + " program="@ + (if cmd.is_program {
                "true"@
            } else {
                "false"@
            }),
        ),
        begins_with(
            message_text(cmd),
            "COPY "@ + (if cmd.is_from {
                "FROM"@
            } else {
                "TO"@
            }),
        ),
{
    let d = if cmd.is_from {
        "FROM"@
    } else {
        "TO"@
    };
    let p = "blocked COPY "@ + d + " program="@ + bool_text(cmd.is_program);
    let rest = " user="@ + quoted_user + " reason="@ + seq!['"'] + reason_label(reason) + seq!['"'];
    assert(log_text(cmd, quoted_user, reason) =~= p + rest);
    assert((p + rest).subrange(0, p.len() as int) =~= p);
    let m = "COPY "@ + d;
    let tail = if cmd.is_program {
        " PROGRAM"@ + " command is not allowed"@
    } else {
        " command is not allowed"@
    };
    assert(message_text(cmd) =~= m + tail);
    assert((m + tail).subrange(0, m.len() as int) =~= m);
}

/// `"FROM"` for `COPY FROM`, `"TO"` for `COPY TO`.
pub fn copy_direction(is_from: bool) -> (s: &'static str)
    ensures
        s@ == direction_text(is_from),
{
    if is_from {
        "FROM"
    } else {
        "TO"
    }
}

impl BlockReason {
    /// The label written to the audit log for this reason.
    pub fn label(&self) -> (s: &'static str)
        ensures
            s@ == reason_label(*self),
    {
        match self {
            BlockReason::RoleListed => "role_listed",
            BlockReason::ProgramBlocked => "program_blocked",
            BlockReason::DirectionBlocked => "direction_blocked",
        }
    }
}

/// The error message shown when `cmd` is refused.
pub fn blocked_message(cmd: CopyCommand) -> (m: String)
    ensures
        m@ == message_text(cmd),
        begins_with(
            m@,
            "COPY "@ + (if cmd.is_from {
                "FROM"@
            } else {
                "TO"@
            }),
        ),
{
    proof {
        law_texts_name_the_direction(cmd, Seq::<char>::empty(), BlockReason::RoleListed);
    }
    let mut m: String = String::from_str("COPY ");
    m.append(copy_direction(cmd.is_from));
    if cmd.is_program {
        m.append(" PROGRAM");
    }
    m.append(" command is not allowed");
    m
}

/// The hint to show beside the error, from the `hint` setting.
pub fn hint_to_show(hint: &Option<String>) -> (h: Option<String>)
    ensures
        opt_view(h) == hint_shown(*hint),
        hint is None ==> h is None,
        hint matches Some(t) ==> (t@.len() > 0 ==> opt_view(h) == Some(t@)),
        hint matches Some(t) ==> (t@.len() == 0 ==> h is None),
{
    match hint {
        Some(text) => {
            if text.as_str().is_empty() {
                None
            } else {
                Some(text.clone())
            }
        },
        None => None,
    }
}

/// A role's name, or `"unknown"` when none was found.
pub fn user_name_or_unknown(name: &Option<String>) -> (s: String)
    ensures
        s@ == name_or_unknown(*name),
        name matches Some(n) ==> s@ == n@,
        name is None ==> s@ == "unknown"@,
{
    match name {
        Some(n) => n.clone(),
        None => String::from_str("unknown"),
    }
}

/// The statement's text, or a placeholder when it is not valid UTF-8.
pub fn query_text_or_placeholder(query: &Option<String>) -> (s: String)
    ensures
        s@ == query_or_placeholder(*query),
{
    match query {
        Some(q) => q.clone(),
        None => String::from_str("<non-utf8 query>"),
    }
}

} // verus!
