//! Execution core of a POSIX-style command shell.
//!
//! A parsed command tree ([`cmd::Cmd`]) is evaluated by a state machine
//! ([`eval::Shell`]): each step consumes one [`eval::Event`] and yields one
//! [`eval::Action`] for the caller to perform (fork and exec a program, run a
//! pipeline, change directory, and so on). All decisions — dispatch over the
//! node kinds, `&&`/`||` short-circuiting, pipeline flattening and the
//! rightmost-failure rule, the builtin directory stack, exit-status decoding —
//! are made here and verified; the caller only performs the requested system
//! operations and reports what happened.

pub mod cmd;
pub mod eval;
pub mod flatten;
pub mod laws;
pub mod list;
pub mod numfmt;
pub mod plan;
pub mod status;
