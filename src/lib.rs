//! Start new projects from skeleton repositories, and run configured scripts.
//!
//! The library decides; the program around it performs. `dispatch` checks the
//! two namespaces of subcommands and resolves an invocation, `pipeline` is the
//! provisioning sequence as a state machine that asks for one outside step at a
//! time, and `pipeline_laws` states what every run of it does.
pub mod commit_id;
pub mod config;
pub mod dispatch;
pub mod error;
pub mod pipeline;
pub mod pipeline_laws;
pub mod process;
