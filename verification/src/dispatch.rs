//! The trap dispatcher, as a state machine driven by the trap entry path.
//!
//! The dispatcher never calls the scheduler, the system-call handler, the interrupt
//! controller or the timer itself. Each [`step`] names one action; the caller
//! performs it and reports back with the matching event. A dispatch starts in
//! [`Phase::Trapped`] and ends with an action that does not report back:
//! [`Action::Resume`], [`Action::Enter`] or [`Action::Halt`].

use vstd::prelude::*;
use crate::bridge::{bridge, spec_decision, spec_frame_after, BridgeDecision, TrapFrame};
use crate::cause::{classify, spec_classify, AsyncCause, Cause, SyncCause};

verus! {

/// What the hardware hands over on trap entry.
#[derive(Clone, Copy, Debug, PartialEq, Eq)]
pub struct TrapEvent {
    /// Address at which the trap occurred; also the default resume address.
    pub program_counter: u64,
    /// Faulting address or instruction encoding, depending on the cause.
    pub trap_value: u64,
    /// The hardware cause word.
    pub raw_cause: u64,
    /// The core that trapped.
    pub core_id: u64,
    /// The status word; carried along, not interpreted.
    pub status: u64,
}

/// A reference to a register frame owned by the scheduler.
#[derive(Clone, Copy, Debug, PartialEq, Eq)]
pub struct FrameRef {
    pub address: u64,
}

/// Why a core is halted.
#[derive(Clone, Copy, Debug, PartialEq, Eq)]
pub enum FaultKind {
    UnhandledAsync,
    IllegalInstruction,
    InstructionPageFault,
    LoadPageFault,
    StorePageFault,
    UnhandledSync,
}

/// What is reported when a core is halted.
#[derive(Clone, Copy, Debug, PartialEq, Eq)]
pub struct FaultReport {
    pub kind: FaultKind,
    pub core_id: u64,
    pub program_counter: u64,
    pub trap_value: u64,
    pub raw_cause: u64,
    pub code: u16,
}

/// How a dispatch ended.
#[derive(Clone, Copy, Debug, PartialEq, Eq)]
pub enum Outcome {
    /// The trapped context resumes at `pc`.
    ResumeHere { pc: u64 },
    /// Control went to another context.
    Transfer,
    /// The core was halted.
    Fatal,
}

/// Where a dispatch stands.
#[derive(Clone, Copy, Debug, PartialEq, Eq)]
pub enum Phase {
    /// Entered from hardware; nothing decided yet.
    Trapped,
    /// A software interrupt is being announced.
    Announcing { resume_pc: u64 },
    /// The interrupt controller is servicing a device interrupt.
    Servicing { resume_pc: u64 },
    /// The system-call handler is running.
    InSyscall,
    /// The scheduler is choosing the next context.
    Selecting,
    /// The timer is being armed before control goes to `next`.
    Arming { next: FrameRef },
    /// The dispatch is over.
    Finished(Outcome),
}

/// What the caller is asked to do next.
#[derive(Clone, Copy, Debug, PartialEq, Eq)]
pub enum Action {
    /// Report that a software interrupt arrived on `core_id`.
    Announce { core_id: u64 },
    /// Let the interrupt controller claim, route and complete one pending interrupt.
    ServicePending,
    /// Run the system-call handler on the trapped frame, with `pc` as the call site.
    HandleSyscall { pc: u64 },
    /// Ask the scheduler for the next runnable frame.
    SelectNext,
    /// Arm the context-switch timer for `quanta` quanta.
    ArmTimer { quanta: u16 },
    /// Switch to the context of `frame`. Does not come back.
    Enter { frame: FrameRef },
    /// Return `pc` to the hardware trap-return path.
    Resume { pc: u64 },
    /// Report and halt the core. Does not come back.
    Halt { report: FaultReport },
}

/// What the caller reports to the dispatcher.
#[derive(Clone, Copy, Debug, PartialEq, Eq)]
pub enum Event {
    /// The hardware trapped.
    Trap(TrapEvent),
    /// The software interrupt was announced.
    Announced,
    /// The interrupt controller is done.
    Serviced,
    /// The system-call handler answered `pc`.
    SyscallReturned { pc: u64 },
    /// The scheduler chose `frame`.
    FrameSelected { frame: FrameRef },
    /// The timer is armed.
    TimerArmed,
}

/// One transition: the phase reached and the action to perform.
#[derive(Clone, Copy, Debug, PartialEq, Eq)]
pub struct Step {
    pub next: Phase,
    pub action: Action,
}

/// Why an event was refused.
#[derive(Clone, Copy, Debug, PartialEq, Eq)]
pub enum StepError {
    /// The dispatch is over; no event is accepted any more.
    Finished,
    /// The event does not answer the action that is outstanding.
    Unexpected,
}

/// The report for a trap that halts the core.
pub open spec fn spec_report(kind: FaultKind, trap: TrapEvent) -> FaultReport {
    FaultReport {
        kind,
        core_id: trap.core_id,
        program_counter: trap.program_counter,
        trap_value: trap.trap_value,
        raw_cause: trap.raw_cause,
        code: spec_classify(trap.raw_cause).code,
    }
}

/// The step that halts the core with the given report.
pub open spec fn spec_halt(report: FaultReport) -> Step {
    Step { next: Phase::Finished(Outcome::Fatal), action: Action::Halt { report } }
}

/// The step that opens a reschedule: the scheduler is consulted first.
pub open spec fn spec_begin_reschedule() -> Step {
    Step { next: Phase::Selecting, action: Action::SelectNext }
}

/// The step that ends a dispatch by resuming the trapped context at `pc`.
pub open spec fn spec_resume(pc: u64) -> Step {
    Step { next: Phase::Finished(Outcome::ResumeHere { pc }), action: Action::Resume { pc } }
}

/// Why a synchronous cause halts the core, if it does.
pub open spec fn spec_fault_kind(cause: SyncCause) -> Option<FaultKind> {
    match cause {
        SyncCause::IllegalInstruction => Some(FaultKind::IllegalInstruction),
        SyncCause::InstructionPageFault => Some(FaultKind::InstructionPageFault),
        SyncCause::LoadPageFault => Some(FaultKind::LoadPageFault),
        SyncCause::StorePageFault => Some(FaultKind::StorePageFault),
        SyncCause::Unrecognized(_) => Some(FaultKind::UnhandledSync),
        SyncCause::UserCall | SyncCause::SupervisorCall | SyncCause::MachineCall => None,
    }
}

/// The first step of a dispatch: the transition table, cause by cause.
pub open spec fn spec_dispatch(trap: TrapEvent) -> Step {
    match spec_classify(trap.raw_cause).spec_cause() {
        Cause::Async(AsyncCause::Software) => Step {
            next: Phase::Announcing { resume_pc: trap.program_counter },
            action: Action::Announce { core_id: trap.core_id },
        },
        Cause::Async(AsyncCause::Timer) => spec_begin_reschedule(),
        Cause::Async(AsyncCause::External) => Step {
            next: Phase::Servicing { resume_pc: trap.program_counter },
            action: Action::ServicePending,
        },
        Cause::Async(AsyncCause::Unrecognized(_)) => spec_halt(
            spec_report(FaultKind::UnhandledAsync, trap),
        ),
        Cause::Sync(cause) => match spec_fault_kind(cause) {
            Some(kind) => spec_halt(spec_report(kind, trap)),
            None => Step {
                next: Phase::InSyscall,
                action: Action::HandleSyscall { pc: trap.program_counter },
            },
        },
    }
}

/// The step taken once the system-call handler has answered.
pub open spec fn spec_after_syscall(answer: u64) -> Step {
    match spec_decision(answer) {
        BridgeDecision::Resume { pc } => spec_resume(pc),
        BridgeDecision::Yield => spec_begin_reschedule(),
    }
}

/// The transition relation on phases: each phase accepts one kind of event, and a
/// finished dispatch accepts none.
pub open spec fn spec_next(phase: Phase, event: Event) -> Result<Step, StepError> {
    match (phase, event) {
        (Phase::Finished(_), _) => Err(StepError::Finished),
        (Phase::Trapped, Event::Trap(trap)) => Ok(spec_dispatch(trap)),
        (Phase::Announcing { resume_pc }, Event::Announced) => Ok(spec_resume(resume_pc)),
        (Phase::Servicing { resume_pc }, Event::Serviced) => Ok(spec_resume(resume_pc)),
        (Phase::InSyscall, Event::SyscallReturned { pc }) => Ok(spec_after_syscall(pc)),
        (Phase::Selecting, Event::FrameSelected { frame }) => Ok(
            Step { next: Phase::Arming { next: frame }, action: Action::ArmTimer { quanta: 1 } },
        ),
        (Phase::Arming { next }, Event::TimerArmed) => Ok(
            Step { next: Phase::Finished(Outcome::Transfer), action: Action::Enter { frame: next } },
        ),
        _ => Err(StepError::Unexpected),
    }
}

/// The trapped frame after an event: only an accepted system-call answer touches it.
pub open spec fn spec_frame_next(phase: Phase, event: Event, frame: TrapFrame) -> TrapFrame {
    match (phase, event) {
        (Phase::InSyscall, Event::SyscallReturned { pc }) => spec_frame_after(pc, frame),
        _ => frame,
    }
}

/// One transition together with its effect on the trapped frame.
pub open spec fn spec_step(phase: Phase, event: Event, frame: TrapFrame) -> Result<
    (Step, TrapFrame),
    StepError,
> {
    match spec_next(phase, event) {
        Ok(s) => Ok((s, spec_frame_next(phase, event, frame))),
        Err(e) => Err(e),
    }
}

/// The phase reached and the actions named, in order, when the events are fed to
/// the dispatcher one after another, starting in `phase`.
pub open spec fn spec_run(phase: Phase, events: Seq<Event>) -> Result<
    (Phase, Seq<Action>),
    StepError,
>
    decreases events.len(),
{
    if events.len() == 0 {
        Ok((phase, Seq::empty()))
    } else {
        match spec_run(phase, events.drop_last()) {
            Ok((reached, actions)) => match spec_next(reached, events.last()) {
                Ok(s) => Ok((s.next, actions.push(s.action))),
                Err(e) => Err(e),
            },
            Err(e) => Err(e),
        }
    }
}

/// The policy for conditions that cannot be handled: the core reports and halts.
pub fn fault_policy(kind: FaultKind, trap: &TrapEvent) -> (s: Step)
    ensures
        s == spec_halt(spec_report(kind, *trap)),
{
    let report = FaultReport {
        kind,
        core_id: trap.core_id,
        program_counter: trap.program_counter,
        trap_value: trap.trap_value,
        raw_cause: trap.raw_cause,
        code: classify(trap.raw_cause).code,
    };
    Step { next: Phase::Finished(Outcome::Fatal), action: Action::Halt { report } }
}

/// Classifies the cause of a fresh trap and picks the handler's first action.
pub fn dispatch(trap: &TrapEvent) -> (s: Step)
    ensures
        s == spec_dispatch(*trap),
{
    let begin_reschedule = Step { next: Phase::Selecting, action: Action::SelectNext };
    match classify(trap.raw_cause).cause() {
        Cause::Async(AsyncCause::Software) => Step {
            next: Phase::Announcing { resume_pc: trap.program_counter },
            action: Action::Announce { core_id: trap.core_id },
        },
        Cause::Async(AsyncCause::Timer) => begin_reschedule,
        Cause::Async(AsyncCause::External) => Step {
            next: Phase::Servicing { resume_pc: trap.program_counter },
            action: Action::ServicePending,
        },
        Cause::Async(AsyncCause::Unrecognized(_)) => fault_policy(FaultKind::UnhandledAsync, trap),
        Cause::Sync(SyncCause::IllegalInstruction) => fault_policy(
            FaultKind::IllegalInstruction,
            trap,
        ),
        Cause::Sync(SyncCause::InstructionPageFault) => fault_policy(
            FaultKind::InstructionPageFault,
            trap,
        ),
        Cause::Sync(SyncCause::LoadPageFault) => fault_policy(FaultKind::LoadPageFault, trap),
        Cause::Sync(SyncCause::StorePageFault) => fault_policy(FaultKind::StorePageFault, trap),
        Cause::Sync(SyncCause::Unrecognized(_)) => fault_policy(FaultKind::UnhandledSync, trap),
        Cause::Sync(
            SyncCause::UserCall | SyncCause::SupervisorCall | SyncCause::MachineCall,
        ) => Step {
            next: Phase::InSyscall,
            action: Action::HandleSyscall { pc: trap.program_counter },
        },
    }
}

/// Advances a dispatch by one event. `frame` is the register frame of the trapped
/// context. On success the result names the phase reached and the action to
/// perform; a refused event changes nothing.
pub fn step(phase: Phase, event: Event, frame: &mut TrapFrame) -> (r: Result<Step, StepError>)
    ensures
        match spec_step(phase, event, *old(frame)) {
            Ok((s, f)) => r == Ok::<Step, StepError>(s) && *final(frame) == f,
            Err(e) => r == Err::<Step, StepError>(e) && *final(frame) == *old(frame),
        },
{
    match (phase, event) {
        (Phase::Finished(_), _) => Err(StepError::Finished),
        (Phase::Trapped, Event::Trap(trap)) => Ok(dispatch(&trap)),
        (Phase::Announcing { resume_pc }, Event::Announced) => Ok(
            Step {
                next: Phase::Finished(Outcome::ResumeHere { pc: resume_pc }),
                action: Action::Resume { pc: resume_pc },
            },
        ),
        (Phase::Servicing { resume_pc }, Event::Serviced) => Ok(
            Step {
                next: Phase::Finished(Outcome::ResumeHere { pc: resume_pc }),
                action: Action::Resume { pc: resume_pc },
            },
        ),
        (Phase::InSyscall, Event::SyscallReturned { pc }) => {
            match bridge(pc, frame) {
                BridgeDecision::Resume { pc } => Ok(
                    Step {
                        next: Phase::Finished(Outcome::ResumeHere { pc }),
                        action: Action::Resume { pc },
                    },
                ),
                BridgeDecision::Yield => Ok(
                    Step { next: Phase::Selecting, action: Action::SelectNext },
                ),
            }
        },
        (Phase::Selecting, Event::FrameSelected { frame: next }) => Ok(
            Step { next: Phase::Arming { next }, action: Action::ArmTimer { quanta: 1 } },
        ),
        (Phase::Arming { next }, Event::TimerArmed) => Ok(
            Step { next: Phase::Finished(Outcome::Transfer), action: Action::Enter { frame: next } },
        ),
        _ => Err(StepError::Unexpected),
    }
}

} // verus!
