//! Decoding of the hardware cause word.
//!
//! The top bit of the word tells an interrupt from a synchronous trap; the low
//! twelve bits number the cause. A number has no meaning without the flag, so the
//! two families are kept as separate enumerations.

use vstd::prelude::*;

verus! {

/// Mask of the interrupt flag, bit 63 of the cause word.
pub const ASYNC_BIT: u64 = 0x8000_0000_0000_0000u64;

/// Mask of the cause code, the low twelve bits of the cause word.
pub const CODE_MASK: u64 = 0xFFFu64;

/// A cause word split into its flag and its code.
#[derive(Clone, Copy, Debug, PartialEq, Eq)]
pub struct DecodedCause {
    pub is_async: bool,
    pub code: u16,
}

/// Asynchronous causes (interrupts).
#[derive(Clone, Copy, Debug, PartialEq, Eq)]
pub enum AsyncCause {
    /// Inter-core software interrupt.
    Software,
    /// The scheduling quantum expired.
    Timer,
    /// A device interrupt routed through the interrupt controller.
    External,
    /// Any other code.
    Unrecognized(u16),
}

/// Synchronous causes (faults and calls).
#[derive(Clone, Copy, Debug, PartialEq, Eq)]
pub enum SyncCause {
    IllegalInstruction,
    /// Environment call from user mode.
    UserCall,
    /// Environment call from supervisor mode.
    SupervisorCall,
    /// Environment call from machine mode.
    MachineCall,
    InstructionPageFault,
    LoadPageFault,
    StorePageFault,
    /// Any other code.
    Unrecognized(u16),
}

/// A cause, tagged by its family.
#[derive(Clone, Copy, Debug, PartialEq, Eq)]
pub enum Cause {
    Async(AsyncCause),
    Sync(SyncCause),
}

/// The flag and code held by a cause word.
pub open spec fn spec_classify(raw: u64) -> DecodedCause {
    DecodedCause { is_async: raw & ASYNC_BIT != 0, code: (raw & CODE_MASK) as u16 }
}

/// The cause word that holds exactly the given flag and code, all other bits clear.
pub open spec fn spec_encode(d: DecodedCause) -> u64 {
    if d.is_async {
        ASYNC_BIT | (d.code as u64)
    } else {
        d.code as u64
    }
}

/// The meaning of a code within the interrupt family.
pub open spec fn spec_async_cause(code: u16) -> AsyncCause {
    if code == 3 {
        AsyncCause::Software
    } else if code == 7 {
        AsyncCause::Timer
    } else if code == 11 {
        AsyncCause::External
    } else {
        AsyncCause::Unrecognized(code)
    }
}

/// The meaning of a code within the synchronous family.
pub open spec fn spec_sync_cause(code: u16) -> SyncCause {
    if code == 2 {
        SyncCause::IllegalInstruction
    } else if code == 8 {
        SyncCause::UserCall
    } else if code == 9 {
        SyncCause::SupervisorCall
    } else if code == 11 {
        SyncCause::MachineCall
    } else if code == 12 {
        SyncCause::InstructionPageFault
    } else if code == 13 {
        SyncCause::LoadPageFault
    } else if code == 15 {
        SyncCause::StorePageFault
    } else {
        SyncCause::Unrecognized(code)
    }
}

impl SyncCause {
    /// Whether the cause is an environment call, from whichever mode.
    pub open spec fn is_environment_call(self) -> bool {
        self is UserCall || self is SupervisorCall || self is MachineCall
    }
}

impl DecodedCause {
    /// The code fits in twelve bits.
    pub open spec fn wf(self) -> bool {
        self.code < 0x1000
    }

    /// The tagged cause that the flag and code denote together.
    pub open spec fn spec_cause(self) -> Cause {
        if self.is_async {
            Cause::Async(spec_async_cause(self.code))
        } else {
            Cause::Sync(spec_sync_cause(self.code))
        }
    }

    /// Selects the family by the flag, then reads the code within that family.
    pub fn cause(&self) -> (c: Cause)
        ensures
            c == self.spec_cause(),
    {
        let code: u16 = self.code;
        if self.is_async {
            Cause::Async(
                match code {
                    3 => AsyncCause::Software,
                    7 => AsyncCause::Timer,
                    11 => AsyncCause::External,
                    _ => AsyncCause::Unrecognized(code),
                },
            )
        } else {
            Cause::Sync(
                match code {
                    2 => SyncCause::IllegalInstruction,
                    8 => SyncCause::UserCall,
                    9 => SyncCause::SupervisorCall,
                    11 => SyncCause::MachineCall,
                    12 => SyncCause::InstructionPageFault,
                    13 => SyncCause::LoadPageFault,
                    15 => SyncCause::StorePageFault,
                    _ => SyncCause::Unrecognized(code),
                },
            )
        }
    }

    /// Builds the cause word that holds this flag and code and nothing else.
    pub fn encode(&self) -> (raw: u64)
        requires
            self.wf(),
        ensures
            raw == spec_encode(*self),
            spec_classify(raw) == *self,
    {
        proof {
            lemma_classify_encode(*self);
        }
        let code: u64 = self.code as u64;
        if self.is_async {
            ASYNC_BIT | code
        } else {
            code
        }
    }
}

/// Splits a cause word into the interrupt flag and the cause code.
pub fn classify(raw: u64) -> (d: DecodedCause)
    ensures
        d == spec_classify(raw),
        d.wf(),
        d.is_async == (raw >= 0x8000_0000_0000_0000u64),
        d.code == raw % 0x1000,
{
    proof {
        lemma_classify_arithmetic(raw);
    }
    let is_async: bool = (raw >> 63) & 1 == 1;
    let low: u64 = raw & CODE_MASK;
    assert(((raw >> 63) & 1 == 1) == (raw & 0x8000_0000_0000_0000u64 != 0)) by (bit_vector);
    assert(raw & 0xFFFu64 < 0x1000u64) by (bit_vector);
    DecodedCause { is_async, code: low as u16 }
}

/// The flag is set exactly for words of at least 2^63, and the code is the word
/// modulo 2^12.
pub proof fn lemma_classify_arithmetic(raw: u64)
    ensures
        spec_classify(raw).is_async == (raw >= 0x8000_0000_0000_0000u64),
        spec_classify(raw).code == raw % 0x1000,
        spec_classify(raw).wf(),
{
    assert((raw & 0x8000_0000_0000_0000u64 != 0) == (raw >= 0x8000_0000_0000_0000u64))
        by (bit_vector);
    assert(raw & 0xFFFu64 == raw % 0x1000u64) by (bit_vector);
    assert(raw & 0xFFFu64 < 0x1000u64) by (bit_vector);
}

/// Classifying the word built from a flag and a twelve-bit code gives back that
/// flag and that code.
pub proof fn lemma_classify_encode(d: DecodedCause)
    requires
        d.wf(),
    ensures
        spec_classify(spec_encode(d)) == d,
{
    let c: u64 = d.code as u64;
    assert(c < 0x1000u64 ==> (c & 0x8000_0000_0000_0000u64 == 0 && c & 0xFFFu64 == c
        && (0x8000_0000_0000_0000u64 | c) & 0x8000_0000_0000_0000u64 != 0
        && (0x8000_0000_0000_0000u64 | c) & 0xFFFu64 == c)) by (bit_vector);
}

} // verus!
