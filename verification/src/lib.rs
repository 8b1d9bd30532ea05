//! Bootstrap workflow for a local data-science project.
//!
//! The crate verifies the decision logic of the workflow: sanitising a
//! user-supplied project name into a safe identifier, and the orchestration
//! state machine that sequences the interpreter check, the package
//! presence-and-install loop, the project scaffolding call and the
//! provisioning of auxiliary folders. All process spawning and console I/O
//! live outside the library and feed their outcomes back in as events.

pub mod flow;
pub mod name;
