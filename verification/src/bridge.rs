//! The synchronous call bridge: what to do once the system-call handler has answered.
//!
//! The handler answers with the address at which the caller resumes, or with zero
//! when the caller yields or blocks. Zero is therefore never a resume address.

use vstd::prelude::*;

verus! {

/// Width of the environment-call instruction, in address units.
pub const CALL_WIDTH: u64 = 4u64;

/// The part of a saved register frame that trap handling reads and writes.
#[derive(Clone, Copy, Debug, PartialEq, Eq)]
pub struct TrapFrame {
    /// The saved program counter of the context.
    pub pc: u64,
}

/// What the bridge decides from the handler's answer.
#[derive(Clone, Copy, Debug, PartialEq, Eq)]
pub enum BridgeDecision {
    /// The call completed; the caller resumes at `pc`.
    Resume { pc: u64 },
    /// The caller gives up the core; another context must be chosen.
    Yield,
}

/// The address just past a call instruction at `pc`, wrapping at 2^64.
pub open spec fn spec_past_call(pc: u64) -> u64 {
    if pc + CALL_WIDTH > u64::MAX {
        (pc + CALL_WIDTH - 0x1_0000_0000_0000_0000) as u64
    } else {
        (pc + CALL_WIDTH) as u64
    }
}

/// The decision for a handler's answer.
pub open spec fn spec_decision(answer: u64) -> BridgeDecision {
    if answer == 0 {
        BridgeDecision::Yield
    } else {
        BridgeDecision::Resume { pc: answer }
    }
}

/// The frame as the bridge leaves it: moved past the call when the caller yields,
/// untouched otherwise.
pub open spec fn spec_frame_after(answer: u64, frame: TrapFrame) -> TrapFrame {
    if answer == 0 {
        TrapFrame { pc: spec_past_call(frame.pc) }
    } else {
        frame
    }
}

/// Interprets the system-call handler's answer. A nonzero answer is the resume
/// address and the frame is left alone. Zero means the caller yields: its saved
/// program counter is moved past the call instruction, so that it continues after
/// the call when it runs again.
pub fn bridge(answer: u64, frame: &mut TrapFrame) -> (d: BridgeDecision)
    ensures
        d == spec_decision(answer),
        *final(frame) == spec_frame_after(answer, *old(frame)),
        answer == 0 && old(frame).pc <= u64::MAX - 4 ==> final(frame).pc == old(frame).pc + 4,
{
    if answer == 0 {
        frame.pc = frame.pc.wrapping_add(CALL_WIDTH);
        BridgeDecision::Yield
    } else {
        BridgeDecision::Resume { pc: answer }
    }
}

} // verus!
