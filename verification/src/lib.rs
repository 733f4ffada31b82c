//! Backend launcher: the logic a desktop shell uses to locate its bundled
//! backend server, decide whether it can be started, and classify the result
//! of the one spawn attempt.
//!
//! The launcher itself performs no I/O. A host program resolves the resource
//! directory from the running executable's path, asks which files exist,
//! drives the launch state machine with the events it observes, and renders
//! the terminal outcome as a log line. Every decision along the way is made
//! here, with a contract.

pub mod launcher;
pub mod paths;
