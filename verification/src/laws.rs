//! What holds of every dispatch, stated over whole runs of the state machine.

use vstd::prelude::*;
use crate::bridge::{spec_past_call, TrapFrame};
use crate::cause::{spec_classify, AsyncCause, Cause, SyncCause};
use crate::dispatch::{
    spec_begin_reschedule, spec_fault_kind, spec_next, spec_report, spec_run, spec_step, Action,
    Event, FaultKind, FrameRef, Outcome, Phase, Step, StepError, TrapEvent,
};

verus! {

/// Feeding one more event to a run that succeeded takes one more transition.
pub proof fn lemma_run_push(phase: Phase, events: Seq<Event>, event: Event)
    ensures
        spec_run(phase, events.push(event)) == match spec_run(phase, events) {
            Ok((reached, actions)) => match spec_next(reached, event) {
                Ok(s) => Ok::<(Phase, Seq<Action>), StepError>((s.next, actions.push(s.action))),
                Err(e) => Err(e),
            },
            Err(e) => Err(e),
        },
{
    assert(events.push(event).drop_last() =~= events);
    assert(events.push(event).last() == event);
}

/// A run of one event is one transition.
pub proof fn lemma_run_one(phase: Phase, event: Event)
    ensures
        spec_run(phase, seq![event]) == match spec_next(phase, event) {
            Ok(s) => Ok::<(Phase, Seq<Action>), StepError>((s.next, seq![s.action])),
            Err(e) => Err(e),
        },
{
    let none: Seq<Event> = Seq::empty();
    lemma_run_push(phase, none, event);
    assert(none.push(event) =~= seq![event]);
    assert(spec_run(phase, none) == Ok::<(Phase, Seq<Action>), StepError>(
        (phase, Seq::empty()),
    ));
    assert(Seq::<Action>::empty().push(spec_next(phase, event).unwrap().action)
        =~= seq![spec_next(phase, event).unwrap().action]);
}

/// The largest number of actions that a dispatch in `phase` can still name.
pub open spec fn spec_actions_left(phase: Phase) -> nat {
    match phase {
        Phase::Trapped => 4,
        Phase::InSyscall => 3,
        Phase::Selecting => 2,
        Phase::Arming { .. } => 1,
        Phase::Announcing { .. } => 1,
        Phase::Servicing { .. } => 1,
        Phase::Finished(_) => 0,
    }
}

/// All the actions of one dispatch, in order, for a trap, the answer that the
/// system-call handler gives if it is asked, and the frame that the scheduler
/// gives if it is asked.
pub open spec fn spec_plan(trap: TrapEvent, answer: u64, next: FrameRef) -> Seq<Action> {
    let pc = trap.program_counter;
    match spec_classify(trap.raw_cause).spec_cause() {
        Cause::Async(AsyncCause::Software) => seq![
            Action::Announce { core_id: trap.core_id },
            Action::Resume { pc },
        ],
        Cause::Async(AsyncCause::Timer) => seq![
            Action::SelectNext,
            Action::ArmTimer { quanta: 1 },
            Action::Enter { frame: next },
        ],
        Cause::Async(AsyncCause::External) => seq![Action::ServicePending, Action::Resume { pc }],
        Cause::Async(AsyncCause::Unrecognized(_)) => seq![
            Action::Halt { report: spec_report(FaultKind::UnhandledAsync, trap) },
        ],
        Cause::Sync(cause) => match spec_fault_kind(cause) {
            Some(kind) => seq![Action::Halt { report: spec_report(kind, trap) }],
            None => if answer != 0 {
                seq![Action::HandleSyscall { pc }, Action::Resume { pc: answer }]
            } else {
                seq![
                    Action::HandleSyscall { pc },
                    Action::SelectNext,
                    Action::ArmTimer { quanta: 1 },
                    Action::Enter { frame: next },
                ]
            },
        },
    }
}

/// The events of one dispatch, in order: the trap, then the report that answers
/// each action of the plan but the last, which does not report back.
pub open spec fn spec_reports(trap: TrapEvent, answer: u64, next: FrameRef) -> Seq<Event> {
    match spec_classify(trap.raw_cause).spec_cause() {
        Cause::Async(AsyncCause::Software) => seq![Event::Trap(trap), Event::Announced],
        Cause::Async(AsyncCause::Timer) => seq![
            Event::Trap(trap),
            Event::FrameSelected { frame: next },
            Event::TimerArmed,
        ],
        Cause::Async(AsyncCause::External) => seq![Event::Trap(trap), Event::Serviced],
        Cause::Async(AsyncCause::Unrecognized(_)) => seq![Event::Trap(trap)],
        Cause::Sync(cause) => match spec_fault_kind(cause) {
            Some(_) => seq![Event::Trap(trap)],
            None => if answer != 0 {
                seq![Event::Trap(trap), Event::SyscallReturned { pc: answer }]
            } else {
                seq![
                    Event::Trap(trap),
                    Event::SyscallReturned { pc: 0 },
                    Event::FrameSelected { frame: next },
                    Event::TimerArmed,
                ]
            },
        },
    }
}

/// How a dispatch ends, for a trap and the answer of the system-call handler.
pub open spec fn spec_outcome(trap: TrapEvent, answer: u64) -> Outcome {
    match spec_classify(trap.raw_cause).spec_cause() {
        Cause::Async(AsyncCause::Software) | Cause::Async(AsyncCause::External) => {
            Outcome::ResumeHere { pc: trap.program_counter }
        },
        Cause::Async(AsyncCause::Timer) => Outcome::Transfer,
        Cause::Async(AsyncCause::Unrecognized(_)) => Outcome::Fatal,
        Cause::Sync(cause) => match spec_fault_kind(cause) {
            Some(_) => Outcome::Fatal,
            None => if answer != 0 {
                Outcome::ResumeHere { pc: answer }
            } else {
                Outcome::Transfer
            },
        },
    }
}

/// Every accepted event names one action and brings the dispatch strictly nearer
/// to its end: no run is longer than what its first phase leaves room for.
pub proof fn law_run_bounded(phase: Phase, events: Seq<Event>)
    requires
        spec_run(phase, events) is Ok,
    ensures
        spec_run(phase, events) matches Ok((reached, actions)) && actions.len() == events.len()
            && spec_actions_left(reached) + events.len() <= spec_actions_left(phase),
    decreases events.len(),
{
    if events.len() > 0 {
        law_run_bounded(phase, events.drop_last());
    }
}

/// Whatever the trap and whatever the collaborators answer, the dispatcher accepts
/// the reports in their order, names exactly the actions of the plan, and ends
/// with the outcome that the transition table gives.
pub proof fn law_plan_is_run(trap: TrapEvent, answer: u64, next: FrameRef)
    ensures
        spec_run(Phase::Trapped, spec_reports(trap, answer, next)) == Ok::<
            (Phase, Seq<Action>),
            StepError,
        >((Phase::Finished(spec_outcome(trap, answer)), spec_plan(trap, answer, next))),
{
    let frame = TrapFrame { pc: 0 };
    match spec_classify(trap.raw_cause).spec_cause() {
        Cause::Async(AsyncCause::Software) => law_software_interrupt(trap),
        Cause::Async(AsyncCause::Timer) => law_timer_interrupt(trap, next, frame),
        Cause::Async(AsyncCause::External) => law_external_interrupt(trap),
        Cause::Async(AsyncCause::Unrecognized(_)) => lemma_run_one(
            Phase::Trapped,
            Event::Trap(trap),
        ),
        Cause::Sync(cause) => match spec_fault_kind(cause) {
            Some(_) => lemma_run_one(Phase::Trapped, Event::Trap(trap)),
            None => if answer != 0 {
                law_syscall_resume(trap, answer, frame)
            } else {
                law_syscall_yield(trap, next, frame)
            },
        },
    }
}

/// A dispatch that has run to its end was fed exactly the reports of the plan for
/// its trap, so that it named exactly the plan's actions: in particular a transfer
/// is always the scheduler, then the timer armed for one quantum, then the entry
/// into the frame that the scheduler gave, each once and with nothing after it.
pub proof fn law_complete_run(events: Seq<Event>)
    requires
        spec_run(Phase::Trapped, events) matches Ok((reached, _)) && reached is Finished,
    ensures
        1 <= events.len() <= 4,
        events[0] is Trap,
        exists|answer: u64, next: FrameRef|
            events == #[trigger] spec_reports(events[0]->Trap_0, answer, next),
{
    law_run_bounded(Phase::Trapped, events);
    reveal_with_fuel(spec_run, 6);
    let n = events.len();
    let trap = events[0]->Trap_0;
    let none = FrameRef { address: 0 };
    if n == 1 {
        assert(events.drop_last().len() == 0);
        assert(events =~= spec_reports(trap, 0, none));
    } else if n == 2 {
        let d1 = events.drop_last();
        assert(d1.drop_last().len() == 0);
        assert(d1[0] == events[0]);
        let answer: u64 = match events[1] {
            Event::SyscallReturned { pc } => pc,
            _ => 0,
        };
        assert(events =~= spec_reports(trap, answer, none));
    } else if n == 3 {
        let d1 = events.drop_last();
        let d2 = d1.drop_last();
        assert(d2.drop_last().len() == 0);
        assert(d2[0] == events[0]);
        assert(d1[1] == events[1]);
        let next: FrameRef = match events[1] {
            Event::FrameSelected { frame } => frame,
            _ => none,
        };
        assert(events =~= spec_reports(trap, 0, next));
    } else {
        let d1 = events.drop_last();
        let d2 = d1.drop_last();
        let d3 = d2.drop_last();
        assert(d3.drop_last().len() == 0);
        assert(d3[0] == events[0]);
        assert(d2[1] == events[1]);
        assert(d1[2] == events[2]);
        let next: FrameRef = match events[2] {
            Event::FrameSelected { frame } => frame,
            _ => none,
        };
        assert(events =~= spec_reports(trap, 0, next));
    }
}

/// Once a dispatch has finished, no further event is accepted: nothing is named
/// beyond the terminal action.
pub proof fn law_finished_is_final(phase: Phase, events: Seq<Event>, event: Event)
    requires
        spec_run(phase, events) matches Ok((reached, _)) && reached is Finished,
    ensures
        spec_run(phase, events.push(event)) == Err::<(Phase, Seq<Action>), StepError>(
            StepError::Finished,
        ),
{
    lemma_run_push(phase, events, event);
}

/// A timer interrupt leads to exactly three actions: the scheduler is asked for the
/// next frame, the timer is armed for one quantum, and control goes to the frame
/// that the scheduler gave. The dispatch ends in a transfer, and the trapped frame
/// is untouched.
pub proof fn law_timer_interrupt(trap: TrapEvent, next: FrameRef, frame: TrapFrame)
    requires
        spec_classify(trap.raw_cause).spec_cause() == Cause::Async(AsyncCause::Timer),
    ensures
        spec_run(
            Phase::Trapped,
            seq![Event::Trap(trap), Event::FrameSelected { frame: next }, Event::TimerArmed],
        ) == Ok::<(Phase, Seq<Action>), StepError>(
            (
                Phase::Finished(Outcome::Transfer),
                seq![
                    Action::SelectNext,
                    Action::ArmTimer { quanta: 1 },
                    Action::Enter { frame: next },
                ],
            ),
        ),
        spec_step(Phase::Trapped, Event::Trap(trap), frame) == Ok::<(Step, TrapFrame), StepError>(
            (spec_begin_reschedule(), frame),
        ),
{
    let e0 = Event::Trap(trap);
    let e1 = Event::FrameSelected { frame: next };
    let e2 = Event::TimerArmed;
    lemma_run_one(Phase::Trapped, e0);
    lemma_run_push(Phase::Trapped, seq![e0], e1);
    lemma_run_push(Phase::Trapped, seq![e0, e1], e2);
    assert(seq![e0].push(e1) =~= seq![e0, e1]);
    assert(seq![e0, e1].push(e2) =~= seq![e0, e1, e2]);
    let a0 = Action::SelectNext;
    let a1 = Action::ArmTimer { quanta: 1 };
    let a2 = Action::Enter { frame: next };
    assert(seq![a0].push(a1) =~= seq![a0, a1]);
    assert(seq![a0, a1].push(a2) =~= seq![a0, a1, a2]);
}

/// An environment call whose handler answers a nonzero address resumes at exactly
/// that address. The only actions are the call of the handler and the resume: the
/// scheduler, the timer and the control transfer are not involved, and the bridge
/// leaves the frame as the handler left it.
pub proof fn law_syscall_resume(trap: TrapEvent, answer: u64, frame: TrapFrame)
    requires
        spec_classify(trap.raw_cause).spec_cause() matches Cause::Sync(c)
            && c.is_environment_call(),
        answer != 0,
    ensures
        spec_run(Phase::Trapped, seq![Event::Trap(trap), Event::SyscallReturned { pc: answer }])
            == Ok::<(Phase, Seq<Action>), StepError>(
            (
                Phase::Finished(Outcome::ResumeHere { pc: answer }),
                seq![
                    Action::HandleSyscall { pc: trap.program_counter },
                    Action::Resume { pc: answer },
                ],
            ),
        ),
        spec_step(Phase::InSyscall, Event::SyscallReturned { pc: answer }, frame)
            matches Ok((_, after)) && after == frame,
{
    let e0 = Event::Trap(trap);
    let e1 = Event::SyscallReturned { pc: answer };
    lemma_run_one(Phase::Trapped, e0);
    lemma_run_push(Phase::Trapped, seq![e0], e1);
    assert(seq![e0].push(e1) =~= seq![e0, e1]);
    let a0 = Action::HandleSyscall { pc: trap.program_counter };
    let a1 = Action::Resume { pc: answer };
    assert(seq![a0].push(a1) =~= seq![a0, a1]);
}

/// An environment call whose handler answers zero yields the core. The saved
/// program counter of the trapped frame moves past the call instruction in the very
/// step that names the scheduler, so before the scheduler is consulted; then the
/// scheduler, the timer (one quantum) and the control transfer follow, once each.
pub proof fn law_syscall_yield(trap: TrapEvent, next: FrameRef, frame: TrapFrame)
    requires
        spec_classify(trap.raw_cause).spec_cause() matches Cause::Sync(c)
            && c.is_environment_call(),
    ensures
        spec_run(
            Phase::Trapped,
            seq![
                Event::Trap(trap),
                Event::SyscallReturned { pc: 0 },
                Event::FrameSelected { frame: next },
                Event::TimerArmed,
            ],
        ) == Ok::<(Phase, Seq<Action>), StepError>(
            (
                Phase::Finished(Outcome::Transfer),
                seq![
                    Action::HandleSyscall { pc: trap.program_counter },
                    Action::SelectNext,
                    Action::ArmTimer { quanta: 1 },
                    Action::Enter { frame: next },
                ],
            ),
        ),
        spec_step(Phase::InSyscall, Event::SyscallReturned { pc: 0 }, frame) == Ok::<
            (Step, TrapFrame),
            StepError,
        >((spec_begin_reschedule(), TrapFrame { pc: spec_past_call(frame.pc) })),
        frame.pc <= u64::MAX - 4 ==> spec_past_call(frame.pc) == frame.pc + 4,
{
    let e0 = Event::Trap(trap);
    let e1 = Event::SyscallReturned { pc: 0 };
    let e2 = Event::FrameSelected { frame: next };
    let e3 = Event::TimerArmed;
    lemma_run_one(Phase::Trapped, e0);
    lemma_run_push(Phase::Trapped, seq![e0], e1);
    lemma_run_push(Phase::Trapped, seq![e0, e1], e2);
    lemma_run_push(Phase::Trapped, seq![e0, e1, e2], e3);
    assert(seq![e0].push(e1) =~= seq![e0, e1]);
    assert(seq![e0, e1].push(e2) =~= seq![e0, e1, e2]);
    assert(seq![e0, e1, e2].push(e3) =~= seq![e0, e1, e2, e3]);
    let a0 = Action::HandleSyscall { pc: trap.program_counter };
    let a1 = Action::SelectNext;
    let a2 = Action::ArmTimer { quanta: 1 };
    let a3 = Action::Enter { frame: next };
    assert(seq![a0].push(a1) =~= seq![a0, a1]);
    assert(seq![a0, a1].push(a2) =~= seq![a0, a1, a2]);
    assert(seq![a0, a1, a2].push(a3) =~= seq![a0, a1, a2, a3]);
}

/// An external interrupt has the interrupt controller service one pending
/// interrupt, once, and then resumes at the trapped program counter, unchanged.
pub proof fn law_external_interrupt(trap: TrapEvent)
    requires
        spec_classify(trap.raw_cause).spec_cause() == Cause::Async(AsyncCause::External),
    ensures
        spec_run(Phase::Trapped, seq![Event::Trap(trap), Event::Serviced]) == Ok::<
            (Phase, Seq<Action>),
            StepError,
        >(
            (
                Phase::Finished(Outcome::ResumeHere { pc: trap.program_counter }),
                seq![Action::ServicePending, Action::Resume { pc: trap.program_counter }],
            ),
        ),
{
    let e0 = Event::Trap(trap);
    let e1 = Event::Serviced;
    lemma_run_one(Phase::Trapped, e0);
    lemma_run_push(Phase::Trapped, seq![e0], e1);
    assert(seq![e0].push(e1) =~= seq![e0, e1]);
    let a0 = Action::ServicePending;
    let a1 = Action::Resume { pc: trap.program_counter };
    assert(seq![a0].push(a1) =~= seq![a0, a1]);
}

/// A software interrupt is announced with the core's id, once, and the trapped
/// context resumes at the trapped program counter, unchanged.
pub proof fn law_software_interrupt(trap: TrapEvent)
    requires
        spec_classify(trap.raw_cause).spec_cause() == Cause::Async(AsyncCause::Software),
    ensures
        spec_run(Phase::Trapped, seq![Event::Trap(trap), Event::Announced]) == Ok::<
            (Phase, Seq<Action>),
            StepError,
        >(
            (
                Phase::Finished(Outcome::ResumeHere { pc: trap.program_counter }),
                seq![
                    Action::Announce { core_id: trap.core_id },
                    Action::Resume { pc: trap.program_counter },
                ],
            ),
        ),
{
    let e0 = Event::Trap(trap);
    let e1 = Event::Announced;
    lemma_run_one(Phase::Trapped, e0);
    lemma_run_push(Phase::Trapped, seq![e0], e1);
    assert(seq![e0].push(e1) =~= seq![e0, e1]);
    let a0 = Action::Announce { core_id: trap.core_id };
    let a1 = Action::Resume { pc: trap.program_counter };
    assert(seq![a0].push(a1) =~= seq![a0, a1]);
}

/// An illegal instruction halts the core at once: the single action is the halt,
/// whose report carries the core's id, the trapped program counter and the trap
/// value, and the dispatch is over.
pub proof fn law_illegal_instruction(trap: TrapEvent)
    requires
        spec_classify(trap.raw_cause).spec_cause() == Cause::Sync(SyncCause::IllegalInstruction),
    ensures
        spec_run(Phase::Trapped, seq![Event::Trap(trap)]) == Ok::<(Phase, Seq<Action>), StepError>(
            (
                Phase::Finished(Outcome::Fatal),
                seq![Action::Halt { report: spec_report(FaultKind::IllegalInstruction, trap) }],
            ),
        ),
        spec_report(FaultKind::IllegalInstruction, trap).core_id == trap.core_id,
        spec_report(FaultKind::IllegalInstruction, trap).program_counter == trap.program_counter,
        spec_report(FaultKind::IllegalInstruction, trap).trap_value == trap.trap_value,
{
    lemma_run_one(Phase::Trapped, Event::Trap(trap));
}

/// Every cause outside the recognised interrupts and the environment calls halts
/// the core at once, with a report of the trap.
pub proof fn law_unhandled_is_fatal(trap: TrapEvent)
    requires
        match spec_classify(trap.raw_cause).spec_cause() {
            Cause::Async(a) => a is Unrecognized,
            Cause::Sync(c) => !c.is_environment_call(),
        },
    ensures
        spec_run(Phase::Trapped, seq![Event::Trap(trap)]) matches Ok((reached, actions))
            && reached == Phase::Finished(Outcome::Fatal) && actions.len() == 1
            && (actions[0] matches Action::Halt { report } && report.core_id == trap.core_id
            && report.program_counter == trap.program_counter && report.trap_value
            == trap.trap_value && report.raw_cause == trap.raw_cause),
{
    lemma_run_one(Phase::Trapped, Event::Trap(trap));
}

} // verus!
