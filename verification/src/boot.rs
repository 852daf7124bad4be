//! The order of the boot: which step the kernel takes next, and what it
//! does when one fails.
//!
//! The interrupt controllers, the descriptor tables and the interrupt table
//! are set up first. Then the entry point of the user code is mapped, then
//! the heap. Only with all of that done does the kernel drop to user
//! privilege. Every step is needed, so the first failure halts the machine.

use vstd::prelude::*;

verus! {

/// A step of the boot.
#[derive(Clone, Copy, PartialEq, Eq, Structural, Debug)]
pub enum BootStep {
    /// Move the interrupt controllers to their vectors.
    InterruptControllers,
    /// Build and load the segment table and the task state.
    DescriptorTables,
    /// Fill and load the interrupt table.
    InterruptTable,
    /// Map the page that holds the entry point of the user code.
    UserEntry,
    /// Map the heap and hand it to the dynamic allocator.
    Heap,
}

impl BootStep {
    /// The step that follows this one, or `None` after the last.
    pub open spec fn successor(self) -> Option<BootStep> {
        match self {
            BootStep::InterruptControllers => Some(BootStep::DescriptorTables),
            BootStep::DescriptorTables => Some(BootStep::InterruptTable),
            BootStep::InterruptTable => Some(BootStep::UserEntry),
            BootStep::UserEntry => Some(BootStep::Heap),
            BootStep::Heap => None,
        }
    }

    /// The step's place in the boot, counted from zero.
    pub open spec fn position(self) -> int {
        match self {
            BootStep::InterruptControllers => 0,
            BootStep::DescriptorTables => 1,
            BootStep::InterruptTable => 2,
            BootStep::UserEntry => 3,
            BootStep::Heap => 4,
        }
    }

    /// The step that follows this one, or `None` after the last.
    pub fn next(self) -> (step: Option<BootStep>)
        ensures
            step == self.successor(),
    {
        match self {
            BootStep::InterruptControllers => Some(BootStep::DescriptorTables),
            BootStep::DescriptorTables => Some(BootStep::InterruptTable),
            BootStep::InterruptTable => Some(BootStep::UserEntry),
            BootStep::UserEntry => Some(BootStep::Heap),
            BootStep::Heap => None,
        }
    }
}

/// How far the boot has come.
#[derive(Clone, Copy, PartialEq, Eq, Structural, Debug)]
pub enum BootPhase {
    /// Nothing has been done yet.
    Idle,
    /// The step is under way and its outcome is awaited.
    Running(BootStep),
    /// Every step is done and the kernel has been told to drop to user
    /// privilege. There is no way back.
    UserMode,
    /// The step failed and the machine is halted.
    Halted(BootStep),
}

/// What the kernel reports to the boot sequence.
#[derive(Clone, Copy, PartialEq, Eq, Structural, Debug)]
pub enum BootEvent {
    /// The boot is to begin.
    Begin,
    /// The step under way is done.
    Done,
    /// The step under way failed.
    Failed,
}

/// What the boot sequence asks the kernel to do next.
#[derive(Clone, Copy, PartialEq, Eq, Structural, Debug)]
pub enum BootAction {
    /// Take the step and report `Done` or `Failed`.
    Perform(BootStep),
    /// Drop to user privilege. This does not return.
    EnterUserMode,
    /// Report that the step failed, once, and halt for good.
    Halt(BootStep),
    /// Nothing is to be done: the event does not fit the state.
    Nothing,
}

/// The transition of the boot: the phase and the action that follow from
/// `phase` on `event`.
pub open spec fn boot_step(phase: BootPhase, event: BootEvent) -> (BootPhase, BootAction) {
    match (phase, event) {
        (BootPhase::Idle, BootEvent::Begin) => (
            BootPhase::Running(BootStep::InterruptControllers),
            BootAction::Perform(BootStep::InterruptControllers),
        ),
        (BootPhase::Running(step), BootEvent::Done) => match step.successor() {
            Some(next) => (BootPhase::Running(next), BootAction::Perform(next)),
            None => (BootPhase::UserMode, BootAction::EnterUserMode),
        },
        (BootPhase::Running(step), BootEvent::Failed) => (
            BootPhase::Halted(step),
            BootAction::Halt(step),
        ),
        _ => (phase, BootAction::Nothing),
    }
}

/// The phase after the events `events`, one after the other from `phase` on.
pub open spec fn boot_run(phase: BootPhase, events: Seq<BootEvent>) -> BootPhase
    decreases events.len(),
{
    if events.len() == 0 {
        phase
    } else {
        boot_step(boot_run(phase, events.drop_last()), events.last()).0
    }
}

/// How many of `events` report a step as done.
pub open spec fn steps_done(events: Seq<BootEvent>) -> nat
    decreases events.len(),
{
    if events.len() == 0 {
        0
    } else {
        steps_done(events.drop_last()) + if events.last() == BootEvent::Done {
            1nat
        } else {
            0nat
        }
    }
}

/// Takes the boot one step further: the result is that of [`boot_step`].
///
/// The kernel calls this with `Begin`, performs the action returned and
/// reports its outcome with the next call, until the action is
/// `EnterUserMode` or `Halt`.
pub fn init(phase: &mut BootPhase, event: BootEvent) -> (action: BootAction)
    ensures
        (*final(phase), action) == boot_step(*old(phase), event),
{
    match *phase {
        BootPhase::Idle => match event {
            BootEvent::Begin => {
                *phase = BootPhase::Running(BootStep::InterruptControllers);
                BootAction::Perform(BootStep::InterruptControllers)
            },
            _ => BootAction::Nothing,
        },
        BootPhase::Running(step) => match event {
            BootEvent::Done => match step.next() {
                Some(next) => {
                    *phase = BootPhase::Running(next);
                    BootAction::Perform(next)
                },
                None => {
                    *phase = BootPhase::UserMode;
                    BootAction::EnterUserMode
                },
            },
            BootEvent::Failed => {
                *phase = BootPhase::Halted(step);
                BootAction::Halt(step)
            },
            BootEvent::Begin => BootAction::Nothing,
        },
        _ => BootAction::Nothing,
    }
}

/// The kernel is told to drop to user privilege only when the last step,
/// the heap, is done, and a step is asked for only when the one before it
/// is done. After the drop, and after a halt, nothing is asked for again.
pub proof fn lemma_boot_order(phase: BootPhase, event: BootEvent)
    ensures
        boot_step(phase, event).1 == BootAction::EnterUserMode ==> phase == BootPhase::Running(
            BootStep::Heap,
        ) && event == BootEvent::Done,
        forall|next: BootStep|
            boot_step(phase, event).1 == BootAction::Perform(next) ==> {
                ||| next == BootStep::InterruptControllers && phase == BootPhase::Idle
                ||| exists|step: BootStep|
                    phase == BootPhase::Running(step) && event == BootEvent::Done
                        && #[trigger] step.successor() == Some(next)
            },
        phase == BootPhase::UserMode || phase is Halted ==> boot_step(phase, event) == (
            phase,
            BootAction::Nothing,
        ),
{
    if let BootPhase::Running(step) = phase {
        if event == BootEvent::Done {
            let next = step.successor();
            assert(next is Some ==> step.successor() == Some(next->0));
        }
    }
}

/// Whatever the kernel reports, a boot that has reached user privilege has
/// seen all five steps done, and one that waits for a step has seen every
/// step before it done.
pub proof fn lemma_boot_progress(events: Seq<BootEvent>)
    ensures
        match boot_run(BootPhase::Idle, events) {
            BootPhase::Idle => true,
            BootPhase::Running(step) => steps_done(events) >= step.position(),
            BootPhase::UserMode => steps_done(events) >= 5,
            BootPhase::Halted(step) => steps_done(events) >= step.position(),
        },
    decreases events.len(),
{
    if events.len() > 0 {
        lemma_boot_progress(events.drop_last());
    }
}

} // verus!
