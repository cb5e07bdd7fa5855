//! The context-switch timer: a free-running counter and a compare register.
//!
//! Arming the timer sets the compare register to the counter's current value plus
//! a number of scheduling quanta. The counter may overflow, so the sum wraps.

use vstd::prelude::*;

verus! {

/// The compare value that arms the timer `qm` quanta of `quantum` ticks past `counter`:
/// their sum modulo 2^64.
pub open spec fn spec_compare_value(counter: u64, quantum: u64, qm: u16) -> int {
    (counter + qm * quantum) % 0x1_0000_0000_0000_0000
}

/// Computes the compare value for the next forced context switch, `qm` quanta after
/// the given counter reading.
pub fn schedule_next_context_switch(counter: u64, quantum: u64, qm: u16) -> (compare: u64)
    ensures
        compare == spec_compare_value(counter, quantum, qm),
        counter + qm * quantum <= u64::MAX ==> compare == counter + qm * quantum,
{
    let span: u64 = quantum.wrapping_mul(qm as u64);
    let compare: u64 = counter.wrapping_add(span);
    proof {
        let r: int = 0x1_0000_0000_0000_0000;
        assert(quantum as nat * (qm as u64) as nat == qm * quantum) by (nonlinear_arith);
        assert(0 <= qm * quantum) by (nonlinear_arith);
        assert(span == (qm * quantum) % r);
        assert(compare == (counter + span) % r);
        vstd::arithmetic::div_mod::lemma_add_mod_noop_right(counter as int, qm * quantum, r);
    }
    compare
}

/// A snapshot of the two timer registers of one core.
#[derive(Clone, Copy, Debug, PartialEq, Eq)]
pub struct TimerRegisters {
    /// The free-running counter; never written from here.
    pub counter: u64,
    /// The compare register; an interrupt is due once the counter reaches it.
    pub compare: u64,
}

impl TimerRegisters {
    /// Arms the timer for `n` quanta: the compare register becomes the counter plus
    /// `n` times `quantum`, wrapping; the counter is left as it is.
    pub fn arm_timer(&mut self, quantum: u64, n: u16)
        ensures
            final(self).compare == spec_compare_value(old(self).counter, quantum, n),
            final(self).counter == old(self).counter,
    {
        self.compare = schedule_next_context_switch(self.counter, quantum, n);
    }
}

} // verus!
