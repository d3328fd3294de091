//! Dry-run-capable command and template execution: run a script only when a
//! check script says it is not yet applied, run commands for real, passively
//! or after asking, and render `@@key@@` templates whose result is compared
//! with the destination before it is written. The side effects themselves
//! (spawning, prompting, copying, probing the disk) are carried out by the
//! caller as the state machines and plans of this crate direct.

pub mod apply;
pub mod cmd;
pub mod diff;
pub mod dryrun;
pub mod error;
pub mod files;
pub mod text;
pub mod passive;
pub mod probe;
pub mod template;
pub mod vars;

