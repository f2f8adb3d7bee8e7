//! A one-shot remote-provisioning orchestrator library.
//!
//! The library holds the orchestration logic: the validated catalog of
//! playbook sources, the playbook locator, the credential-bootstrap state
//! machine, the subprocess invocation builders with their exit-code
//! interpretation, and the decoder for the engine's structured report.
//! Reading files, prompting the operator, binding sockets and spawning the
//! engine are left to the surrounding program.

pub mod ansible;
pub mod config;
pub mod doc;
pub mod exec;
pub mod load;
pub mod pattern;
pub mod probe;
pub mod setup;
pub mod sources;
pub mod ui;
pub mod util;
