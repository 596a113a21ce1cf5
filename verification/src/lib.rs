//! A priority-based task scheduler core for a single-core microcontroller.
//!
//! The crate owns the task table, the readiness and blocking bitmasks, the
//! stack-frame initializer that makes a freshly created task resumable by the
//! hardware's exception-return path, and the constant-time highest-ready-task
//! selector. Hardware-level concerns (the context-switch trampoline, privilege
//! transitions, the periodic timer) are external collaborators: they consume
//! the scheduler's decisions through its public methods.

pub mod config;
pub mod errors;
pub mod helper;
pub mod privilege;
pub mod scheduler;
