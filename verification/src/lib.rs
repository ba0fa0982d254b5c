//! A small helper for reading typed, validated values from a console.
//!
//! An [`Input`] accumulates a configuration — prompt text with optional
//! prefix and suffix, an optional default value, an optional validator —
//! through chained, consuming setters. Resolving input against such a
//! configuration is specified and proved here line by line: [`Input::advance`]
//! decides what one line of input yields (the default on a blank line, a
//! parsed and validated value, or a retry with its advisory message), and
//! [`Input::resolve_script`] resolves a finite queue of lines the same way.
//! [`confirm_config`] pre-configures a builder for yes/no answers, whose
//! rules [`is_yes`] and [`is_yes_or_no`] decide.
//!
//! Reading from the console itself is left to the thin shell around this
//! crate: the blocking loop that re-prompts until a line resolves can retry
//! without bound, so it carries no termination proof; it feeds every line it
//! reads to [`Input::advance`] and prints what [`feedback_message`] says.

mod acquire;
mod answer;
mod builder;
mod text;

pub use acquire::Feedback;
pub use acquire::Outcome;
pub use acquire::ScriptEnd;
pub use acquire::feedback_message;
pub use answer::confirm_config;
pub use answer::is_yes;
pub use answer::is_yes_or_no;
pub use builder::Input;
pub use builder::input;
pub use builder::prompt;
pub use text::trim_text;
