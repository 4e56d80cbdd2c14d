//! Decision logic of a PostgreSQL utility hook that blocks `COPY` commands.
//!
//! The library decides, from the extension's settings and what is known of a
//! `COPY` statement and the role running it, whether the statement is refused,
//! why, what error and hint are shown, and what row is written to the audit log.
//! The server side (reading settings, raising the error, writing the row,
//! handing the statement on) stands outside this crate.

pub mod hook;
pub mod policy;
pub mod report;
pub mod roles;
pub mod text;
