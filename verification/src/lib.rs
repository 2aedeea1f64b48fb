//! Bulk migration of git `origin` remotes.
//!
//! Every immediate subdirectory of a working directory that is a git checkout
//! gets its `origin` rewritten to the new hosting location, keeping the
//! repository's base name.
//!
//! The library holds the decisions and does no I/O. A driver lists the
//! directory and runs `git`; between the two stands [`machine::step`]: the
//! driver starts in [`protocol::State::Start`], reports an
//! [`protocol::Event`], announces the [`protocol::Notice`] of the move it
//! gets back, does what its [`protocol::Action`] asks, and reports the
//! outcome as the next event, until the action is `Finish` or `Abort`.
//!
//! - [`entry`]: directory entries and the filter on them;
//! - [`url`]: the new URL, derived from what `git remote get-url` printed;
//! - [`protocol`]: states, events, actions and notices;
//! - [`machine`]: the move for each state and event;
//! - [`command`]: the command lines of the actions;
//! - [`notice`]: the wording of notices and failures;
//! - [`episode`]: what holds of the moves made on one entry;
//! - [`run`]: what holds of a whole run.

pub mod command;
pub mod entry;
pub mod episode;
pub mod machine;
pub mod notice;
pub mod protocol;
pub mod run;
pub mod url;
