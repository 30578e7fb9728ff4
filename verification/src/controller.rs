//! The Tor invocation controller: a deterministic state machine that drives
//! one native configuration handle through its lifecycle
//! (allocate → set verify args → run verify → set run args → run → free)
//! and produces the single host-visible result string.
//!
//! The controller itself performs no native call. The unverified
//! host-boundary shim repeatedly asks [`Controller::next_action`] what to do,
//! performs exactly that one native operation, and reports what happened
//! through the matching `note_*` method. The contracts pin every transition,
//! so the shim cannot skip, retry or reorder a step, and the handle is always
//! directed to be freed before a result is reported whenever it was
//! allocated.

use vstd::prelude::*;
use vstd::pervasive::unreached;

verus! {

/// Which of the two argument vectors a set-command-line directive refers to.
#[derive(Clone, Copy, Debug, PartialEq, Eq)]
pub enum ArgSet {
    /// The verify vector: `[tor, --verify-config, host tokens...]`.
    Verify,
    /// The run vector: `[tor, host tokens...]`.
    Run,
}

/// The four native steps, in the order the lifecycle issues them.
#[derive(Clone, Copy, Debug, PartialEq, Eq)]
pub enum Step {
    /// Set the command line to the verify vector.
    SetVerifyArgs,
    /// Run the main entrypoint to verify the configuration.
    RunVerify,
    /// Set the command line to the run vector.
    SetRunArgs,
    /// Run the main entrypoint for the actual Tor session.
    RunTor,
}

/// How a lifecycle that reached the free point got there.
#[derive(Clone, Copy, Debug, PartialEq, Eq)]
pub enum Completion {
    /// All four steps returned zero.
    AllStepsPassed,
    /// This step returned a non-zero code; the later steps never ran.
    FailedAt(Step),
}

/// The final outcome of one bridge invocation.
#[derive(Clone, Copy, Debug, PartialEq, Eq)]
pub enum Outcome {
    /// All four steps returned zero; the result string is empty.
    Success,
    /// The native library returned a null configuration handle.
    NullConfig,
    /// This step returned a non-zero code.
    StepFailed(Step),
}

/// The controller's position in the lifecycle.
///
/// The configuration handle is live exactly in `AtStep` and `AwaitFree`:
/// those phases are entered only after a successful allocation and left only
/// through the free directive.
#[derive(Clone, Copy, Debug, PartialEq, Eq)]
pub enum Phase {
    /// Before allocation; no handle exists yet.
    AwaitAlloc,
    /// The handle is live and this step is the next native call.
    AtStep(Step),
    /// The handle is live and must now be freed.
    AwaitFree(Completion),
    /// The lifecycle is over; only the result string remains to be read.
    Done(Outcome),
}

/// The one native operation the shim must perform next.
#[derive(Clone, Copy, Debug, PartialEq, Eq)]
pub enum Action {
    /// Allocate a fresh configuration handle.
    Allocate,
    /// Set the handle's command line to this argument vector.
    SetCommandLine(ArgSet),
    /// Run the native main entrypoint on the handle.
    RunMain,
    /// Free the configuration handle.
    FreeConfig,
    /// Nothing native is left to do: read the result string.
    Report,
}

/// What the shim observed when it performed the directed operation.
#[derive(Clone, Copy, Debug, PartialEq, Eq)]
pub enum Event {
    /// Allocation finished; the payload is true iff the handle is non-null.
    Allocated(bool),
    /// A set-command-line or run-main call returned this code.
    StepReturned(i32),
    /// The handle was freed.
    Freed,
}

/// The step that follows `s` when `s` returns zero, or `None` after the
/// last step.
pub open spec fn successor_step(s: Step) -> Option<Step> {
    match s {
        Step::SetVerifyArgs => Some(Step::RunVerify),
        Step::RunVerify => Some(Step::SetRunArgs),
        Step::SetRunArgs => Some(Step::RunTor),
        Step::RunTor => None,
    }
}

/// The native operation a step stands for.
pub open spec fn step_action(s: Step) -> Action {
    match s {
        Step::SetVerifyArgs => Action::SetCommandLine(ArgSet::Verify),
        Step::RunVerify => Action::RunMain,
        Step::SetRunArgs => Action::SetCommandLine(ArgSet::Run),
        Step::RunTor => Action::RunMain,
    }
}

/// The action the controller directs in a given phase.
pub open spec fn phase_action(p: Phase) -> Action {
    match p {
        Phase::AwaitAlloc => Action::Allocate,
        Phase::AtStep(s) => step_action(s),
        Phase::AwaitFree(_) => Action::FreeConfig,
        Phase::Done(_) => Action::Report,
    }
}

/// The outcome a completed lifecycle reports after the free.
pub open spec fn completion_outcome(c: Completion) -> Outcome {
    match c {
        Completion::AllStepsPassed => Outcome::Success,
        Completion::FailedAt(s) => Outcome::StepFailed(s),
    }
}

/// Whether an event can happen in a phase. `Done` is terminal: nothing is
/// enabled there.
pub open spec fn event_enabled(p: Phase, e: Event) -> bool {
    match (p, e) {
        (Phase::AwaitAlloc, Event::Allocated(_)) => true,
        (Phase::AtStep(_), Event::StepReturned(_)) => true,
        (Phase::AwaitFree(_), Event::Freed) => true,
        _ => false,
    }
}

/// The lifecycle's transition relation. Zero is the only success code: a
/// step that returns any non-zero value fails the call, and the handle is
/// then freed before the result is reported.
pub open spec fn transition(p: Phase, e: Event) -> Phase
    recommends
        event_enabled(p, e),
{
    match (p, e) {
        (Phase::AwaitAlloc, Event::Allocated(non_null)) => if non_null {
            Phase::AtStep(Step::SetVerifyArgs)
        } else {
            Phase::Done(Outcome::NullConfig)
        },
        (Phase::AtStep(s), Event::StepReturned(code)) => if code == 0 {
            match successor_step(s) {
                Some(next) => Phase::AtStep(next),
                None => Phase::AwaitFree(Completion::AllStepsPassed),
            }
        } else {
            Phase::AwaitFree(Completion::FailedAt(s))
        },
        (Phase::AwaitFree(c), Event::Freed) => Phase::Done(completion_outcome(c)),
        _ => p,
    }
}

/// The outcome carried by a `Done` phase.
pub open spec fn done_outcome(p: Phase) -> Outcome
    recommends
        p is Done,
{
    match p {
        Phase::Done(o) => o,
        _ => arbitrary(),
    }
}

/// The exact result string for an outcome. The empty string is reserved for
/// success; every failure text is fixed and non-empty.
pub open spec fn outcome_text(o: Outcome) -> Seq<char> {
    match o {
        Outcome::Success => ""@,
        Outcome::NullConfig => "TorConfig was null."@,
        Outcome::StepFailed(s) => step_failure_text(s),
    }
}

/// The fixed diagnostic for a failing step.
pub open spec fn step_failure_text(s: Step) -> Seq<char> {
    match s {
        Step::SetVerifyArgs => "Failed to set args for verification."@,
        Step::RunVerify => "Failed to verify args. Tor does not like a setting."@,
        Step::SetRunArgs => "Failed to set args to run."@,
        Step::RunTor => "Failed to run args."@,
    }
}

/// The lifecycle driver for one bridge invocation.
pub struct Controller {
    phase: Phase,
}

impl View for Controller {
    type V = Phase;

    closed spec fn view(&self) -> Phase {
        self.phase
    }
}

impl Controller {
    /// A fresh controller, before any native call.
    pub fn new() -> (c: Controller)
        ensures
            c@ == Phase::AwaitAlloc,
    {
        Controller { phase: Phase::AwaitAlloc }
    }

    /// The one native operation the shim must perform next.
    pub fn next_action(&self) -> (a: Action)
        ensures
            a == phase_action(self@),
    {
        match self.phase {
            Phase::AwaitAlloc => Action::Allocate,
            Phase::AtStep(Step::SetVerifyArgs) => Action::SetCommandLine(ArgSet::Verify),
            Phase::AtStep(Step::RunVerify) => Action::RunMain,
            Phase::AtStep(Step::SetRunArgs) => Action::SetCommandLine(ArgSet::Run),
            Phase::AtStep(Step::RunTor) => Action::RunMain,
            Phase::AwaitFree(_) => Action::FreeConfig,
            Phase::Done(_) => Action::Report,
        }
    }

    /// Records the allocation result. A null handle ends the call at once:
    /// no step runs and there is nothing to free.
    pub fn note_allocated(&mut self, non_null: bool)
        requires
            old(self)@ is AwaitAlloc,
        ensures
            final(self)@ == transition(old(self)@, Event::Allocated(non_null)),
    {
        if non_null {
            self.phase = Phase::AtStep(Step::SetVerifyArgs);
        } else {
            self.phase = Phase::Done(Outcome::NullConfig);
        }
    }

    /// Records the return code of the step the controller directed. Zero
    /// advances the lifecycle; anything else fails the call, and the next
    /// directive is to free the handle.
    pub fn note_step_code(&mut self, code: i32)
        requires
            old(self)@ is AtStep,
        ensures
            final(self)@ == transition(old(self)@, Event::StepReturned(code)),
    {
        match self.phase {
            Phase::AtStep(s) => {
                if code == 0 {
                    self.phase = match s {
                        Step::SetVerifyArgs => Phase::AtStep(Step::RunVerify),
                        Step::RunVerify => Phase::AtStep(Step::SetRunArgs),
                        Step::SetRunArgs => Phase::AtStep(Step::RunTor),
                        Step::RunTor => Phase::AwaitFree(Completion::AllStepsPassed),
                    };
                } else {
                    self.phase = Phase::AwaitFree(Completion::FailedAt(s));
                }
            },
            _ => unreached(),
        }
    }

    /// Records that the handle was freed. The lifecycle is then done and the
    /// result string is fixed by how the free point was reached.
    pub fn note_freed(&mut self)
        requires
            old(self)@ is AwaitFree,
        ensures
            final(self)@ == transition(old(self)@, Event::Freed),
    {
        match self.phase {
            Phase::AwaitFree(c) => {
                self.phase = match c {
                    Completion::AllStepsPassed => Phase::Done(Outcome::Success),
                    Completion::FailedAt(s) => Phase::Done(Outcome::StepFailed(s)),
                };
            },
            _ => unreached(),
        }
    }

    /// Whether the lifecycle is over and the result string can be read.
    pub fn finished(&self) -> (done: bool)
        ensures
            done == (self@ is Done),
    {
        match self.phase {
            Phase::Done(_) => true,
            _ => false,
        }
    }

    /// The single host-visible result string: empty exactly on success,
    /// otherwise the fixed diagnostic of the first failure.
    pub fn report(&self) -> (msg: &'static str)
        requires
            self@ is Done,
        ensures
            msg@ == outcome_text(done_outcome(self@)),
    {
        match self.phase {
            Phase::Done(o) => outcome_message(o),
            _ => unreached(),
        }
    }
}

/// The host-visible result string for an outcome, byte-for-byte.
pub fn outcome_message(o: Outcome) -> (msg: &'static str)
    ensures
        msg@ == outcome_text(o),
{
    match o {
        Outcome::Success => "",
        Outcome::NullConfig => "TorConfig was null.",
        Outcome::StepFailed(s) => step_failure_message(s),
    }
}

/// The fixed diagnostic for a failing step, byte-for-byte.
pub fn step_failure_message(s: Step) -> (msg: &'static str)
    ensures
        msg@ == step_failure_text(s),
{
    match s {
        Step::SetVerifyArgs => "Failed to set args for verification.",
        Step::RunVerify => "Failed to verify args. Tor does not like a setting.",
        Step::SetRunArgs => "Failed to set args to run.",
        Step::RunTor => "Failed to run args.",
    }
}

} // verus!
