//! Machine-mode trap dispatching for a RISC-V kernel, as a verified decision core.
//!
//! The hardware-facing trap entry hands every event to [`dispatch::step`], performs
//! the action it names, and feeds the outcome back until a terminal action is reached.
//! Nothing in this crate touches hardware: registers and collaborators are plain values.

pub mod bridge;
pub mod cause;
pub mod dispatch;
pub mod laws;
pub mod timer;
