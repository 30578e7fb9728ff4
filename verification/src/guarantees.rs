//! Proved guarantees of the invocation lifecycle.
//!
//! The controller's contracts pin each single transition; the proofs here
//! state what holds of a whole invocation: any sequence of events that the
//! machine accepts, replayed from the initial phase. The shim obeys the
//! controller's `requires`, so every run it can perform is such a sequence.

use vstd::prelude::*;
use crate::controller::{
    completion_outcome, done_outcome, event_enabled, outcome_text, step_failure_text, transition,
    Completion, Event, Outcome, Phase, Step,
};

verus! {

/// Whether the lifecycle accepts this event sequence when started in `p`:
/// each event in turn is enabled in the phase reached so far.
pub open spec fn events_enabled_from(p: Phase, events: Seq<Event>) -> bool
    decreases events.len(),
{
    events.len() == 0 || (event_enabled(p, events[0]) && events_enabled_from(
        transition(p, events[0]),
        events.drop_first(),
    ))
}

/// The phase reached by replaying an event sequence from `p`.
pub open spec fn replay(p: Phase, events: Seq<Event>) -> Phase
    decreases events.len(),
{
    if events.len() == 0 {
        p
    } else {
        replay(transition(p, events[0]), events.drop_first())
    }
}

/// Whether the configuration handle is live in a phase: it is, exactly
/// between a successful allocation and the free.
pub open spec fn handle_live(p: Phase) -> bool {
    p is AtStep || p is AwaitFree
}

/// `Done` is terminal: the lifecycle accepts no event there, so a finished
/// invocation stays finished.
pub proof fn lemma_done_stops(o: Outcome, events: Seq<Event>)
    requires
        events_enabled_from(Phase::Done(o), events),
    ensures
        events.len() == 0,
        replay(Phase::Done(o), events) == Phase::Done(o),
{
    if events.len() > 0 {
        assert(event_enabled(Phase::Done(o), events[0]));
    }
}

/// From the free point, the only run the lifecycle accepts that reaches an
/// end is the single free event, and the outcome is fixed by how the free
/// point was reached.
pub proof fn lemma_await_free_run(c: Completion, events: Seq<Event>)
    requires
        events_enabled_from(Phase::AwaitFree(c), events),
        replay(Phase::AwaitFree(c), events) is Done,
    ensures
        events.len() == 1,
        events[0] == Event::Freed,
        replay(Phase::AwaitFree(c), events) == Phase::Done(completion_outcome(c)),
{
    assert(events.len() > 0);
    let e0 = events[0];
    assert(event_enabled(Phase::AwaitFree(c), e0));
    assert(e0 == Event::Freed);
    lemma_done_stops(completion_outcome(c), events.drop_first());
}

/// Once the handle is live, any accepted run that reaches an end contains a
/// free event: the lifecycle cannot finish around the free.
proof fn lemma_live_run_frees(p: Phase, events: Seq<Event>)
    requires
        handle_live(p),
        events_enabled_from(p, events),
        replay(p, events) is Done,
    ensures
        exists|k: int| 0 <= k < events.len() && events[k] == Event::Freed,
    decreases events.len(),
{
    assert(events.len() > 0);
    let e0 = events[0];
    let rest = events.drop_first();
    match p {
        Phase::AwaitFree(_) => {
            assert(e0 == Event::Freed);
            assert(events[0] == Event::Freed);
        },
        Phase::AtStep(_) => {
            let p1 = transition(p, e0);
            assert(handle_live(p1));
            lemma_live_run_frees(p1, rest);
            let k = choose|k: int| 0 <= k < rest.len() && rest[k] == Event::Freed;
            assert(events[k + 1] == Event::Freed);
        },
        _ => {
            assert(false);
        },
    }
}

/// No configuration handle is leaked: whenever the allocation produced a
/// handle and the lifecycle ran to its end — success or any failure — the
/// run contains the free event.
pub proof fn law_no_handle_leak(events: Seq<Event>)
    requires
        events_enabled_from(Phase::AwaitAlloc, events),
        replay(Phase::AwaitAlloc, events) is Done,
        events.len() > 0,
        events[0] == Event::Allocated(true),
    ensures
        exists|k: int| 0 <= k < events.len() && events[k] == Event::Freed,
{
    let rest = events.drop_first();
    lemma_live_run_frees(Phase::AtStep(Step::SetVerifyArgs), rest);
    let k = choose|k: int| 0 <= k < rest.len() && rest[k] == Event::Freed;
    assert(events[k + 1] == Event::Freed);
}

/// The free ends the lifecycle: a free event can only be the last event of
/// an accepted run, so the handle is freed exactly once and the result is
/// only ever read after the free.
pub proof fn law_free_ends_run(events: Seq<Event>, k: int)
    requires
        events_enabled_from(Phase::AwaitAlloc, events),
        0 <= k < events.len(),
        events[k] == Event::Freed,
    ensures
        k == events.len() - 1,
{
    lemma_freed_is_last(Phase::AwaitAlloc, events, k);
}

/// In any accepted run from any phase, a free event is the last event.
proof fn lemma_freed_is_last(p: Phase, events: Seq<Event>, k: int)
    requires
        events_enabled_from(p, events),
        0 <= k < events.len(),
        events[k] == Event::Freed,
    ensures
        k == events.len() - 1,
    decreases events.len(),
{
    let e0 = events[0];
    let rest = events.drop_first();
    if k == 0 {
        assert(event_enabled(p, Event::Freed));
        assert(p is AwaitFree);
        match p {
            Phase::AwaitFree(c) => {
                lemma_done_stops(completion_outcome(c), rest);
            },
            _ => {
                assert(false);
            },
        }
    } else {
        assert(rest[k - 1] == events[k]);
        lemma_freed_is_last(transition(p, e0), rest, k - 1);
    }
}

/// Whether every native step observed in the run returned zero.
pub open spec fn all_step_codes_zero(events: Seq<Event>) -> bool {
    forall|k: int|
        0 <= k < events.len() ==> (#[trigger] events[k] matches Event::StepReturned(code)
            ==> code == 0)
}

/// From any step of the lifecycle, a run whose native steps all return zero
/// can only end in success.
proof fn lemma_zero_run_succeeds(p: Phase, events: Seq<Event>)
    requires
        p is AtStep || p == Phase::AwaitFree(Completion::AllStepsPassed),
        events_enabled_from(p, events),
        replay(p, events) is Done,
        all_step_codes_zero(events),
    ensures
        replay(p, events) == Phase::Done(Outcome::Success),
    decreases events.len(),
{
    assert(events.len() > 0);
    let e0 = events[0];
    let rest = events.drop_first();
    assert(all_step_codes_zero(rest)) by {
        assert(forall|k: int| 0 <= k < rest.len() ==> rest[k] == events[k + 1]);
    }
    match p {
        Phase::AtStep(s) => {
            let p1 = transition(p, e0);
            assert(e0 matches Event::StepReturned(code) ==> code == 0);
            assert(p1 is AtStep || p1 == Phase::AwaitFree(Completion::AllStepsPassed));
            lemma_zero_run_succeeds(p1, rest);
        },
        _ => {
            lemma_await_free_run(Completion::AllStepsPassed, events);
        },
    }
}

/// A call whose allocation produced a handle and whose native steps all
/// returned zero ends in success, and the result string of that outcome is
/// the empty string.
pub proof fn law_all_zero_is_success(events: Seq<Event>)
    requires
        events_enabled_from(Phase::AwaitAlloc, events),
        replay(Phase::AwaitAlloc, events) is Done,
        events.len() > 0,
        events[0] == Event::Allocated(true),
        all_step_codes_zero(events),
    ensures
        replay(Phase::AwaitAlloc, events) == Phase::Done(Outcome::Success),
        outcome_text(done_outcome(replay(Phase::AwaitAlloc, events))) == ""@,
{
    let rest = events.drop_first();
    assert(all_step_codes_zero(rest)) by {
        assert(forall|k: int| 0 <= k < rest.len() ==> rest[k] == events[k + 1]);
    }
    lemma_zero_run_succeeds(Phase::AtStep(Step::SetVerifyArgs), rest);
}

/// A success is only ever reported when every native step returned zero:
/// the lifecycle never partially reports success.
pub proof fn law_success_means_all_zero(events: Seq<Event>)
    requires
        events_enabled_from(Phase::AwaitAlloc, events),
        replay(Phase::AwaitAlloc, events) == Phase::Done(Outcome::Success),
    ensures
        all_step_codes_zero(events),
{
    lemma_nonzero_never_succeeds(Phase::AwaitAlloc, events);
}

/// If some observed step code is non-zero, the run cannot end in success.
proof fn lemma_nonzero_never_succeeds(p: Phase, events: Seq<Event>)
    requires
        events_enabled_from(p, events),
        replay(p, events) == Phase::Done(Outcome::Success),
        !(p matches Phase::AwaitFree(c) && c is FailedAt),
        !(p matches Phase::Done(o) && o != Outcome::Success),
    ensures
        all_step_codes_zero(events),
    decreases events.len(),
{
    if events.len() > 0 {
        let e0 = events[0];
        let rest = events.drop_first();
        let p1 = transition(p, e0);
        assert(!(p1 matches Phase::AwaitFree(c) && c is FailedAt)) by {
            if p1 matches Phase::AwaitFree(c) && c is FailedAt {
                match p1 {
                    Phase::AwaitFree(Completion::FailedAt(s)) => {
                        lemma_await_free_run(Completion::FailedAt(s), rest);
                    },
                    _ => {},
                }
            }
        }
        assert(!(p1 matches Phase::Done(o) && o != Outcome::Success)) by {
            if p1 matches Phase::Done(o) && o != Outcome::Success {
                match p1 {
                    Phase::Done(o) => {
                        lemma_done_stops(o, rest);
                    },
                    _ => {},
                }
            }
        }
        lemma_nonzero_never_succeeds(p1, rest);
        assert(e0 matches Event::StepReturned(code) ==> code == 0) by {
            if e0 matches Event::StepReturned(code) && code != 0 {
                assert(p1 matches Phase::AwaitFree(c) && c is FailedAt);
            }
        }
        assert(forall|k: int| 1 <= k < events.len() ==> events[k] == rest[k - 1]);
    }
}

/// Each native-step failure surfaces exactly the fixed diagnostic of that
/// step: a non-zero return code sends the lifecycle to the free point, the
/// free ends it with the step's failure outcome, and that outcome's result
/// string is the step's fixed text.
pub proof fn law_step_failure_diagnostic(s: Step, code: i32)
    requires
        code != 0,
    ensures
        transition(Phase::AtStep(s), Event::StepReturned(code)) == Phase::AwaitFree(
            Completion::FailedAt(s),
        ),
        transition(Phase::AwaitFree(Completion::FailedAt(s)), Event::Freed) == Phase::Done(
            Outcome::StepFailed(s),
        ),
        outcome_text(Outcome::StepFailed(s)) == step_failure_text(s),
{
}

/// A failure outcome for a step is only ever reached through a non-zero
/// return code of exactly that step.
pub proof fn law_failure_names_the_failing_step(events: Seq<Event>, s: Step)
    requires
        events_enabled_from(Phase::AwaitAlloc, events),
        replay(Phase::AwaitAlloc, events) == Phase::Done(Outcome::StepFailed(s)),
    ensures
        exists|k: int|
            0 <= k < events.len() && replay(Phase::AwaitAlloc, events.take(k)) == Phase::AtStep(s)
                && (#[trigger] events[k] matches Event::StepReturned(code) && code != 0),
{
    lemma_failure_witness(Phase::AwaitAlloc, events, s);
}

/// Replaying a one-longer prefix is one transition further.
proof fn lemma_replay_take_shift(p: Phase, events: Seq<Event>, k: int)
    requires
        0 <= k,
        k + 1 <= events.len(),
        events.len() > 0,
    ensures
        replay(p, events.take(k + 1)) == replay(
            transition(p, events[0]),
            events.drop_first().take(k),
        ),
    decreases k,
{
    let pre = events.take(k + 1);
    assert(pre.len() == k + 1);
    assert(pre[0] == events[0]);
    assert(pre.drop_first() =~= events.drop_first().take(k));
}

/// In any accepted run that ends in a step failure, some prefix leaves the
/// lifecycle at exactly that step and the next event is its non-zero code.
proof fn lemma_failure_witness(p: Phase, events: Seq<Event>, s: Step)
    requires
        events_enabled_from(p, events),
        replay(p, events) == Phase::Done(Outcome::StepFailed(s)),
        p is AwaitAlloc || p is AtStep,
    ensures
        exists|k: int|
            0 <= k < events.len() && replay(p, events.take(k)) == Phase::AtStep(s) && (
            #[trigger] events[k] matches Event::StepReturned(code) && code != 0),
    decreases events.len(),
{
    assert(events.len() > 0);
    let e0 = events[0];
    let rest = events.drop_first();
    let p1 = transition(p, e0);
    match p {
        Phase::AwaitAlloc => {
            match e0 {
                Event::Allocated(non_null) => {
                    if non_null {
                        lemma_failure_witness(p1, rest, s);
                        let k = choose|k: int|
                            0 <= k < rest.len() && replay(p1, rest.take(k)) == Phase::AtStep(s) && (
                            #[trigger] rest[k] matches Event::StepReturned(code) && code != 0);
                        lemma_replay_take_shift(p, events, k);
                        assert(replay(p, events.take(k + 1)) == Phase::AtStep(s));
                        assert(events[k + 1] == rest[k]);
                        assert(events[k + 1] matches Event::StepReturned(code) && code != 0);
                    } else {
                        lemma_done_stops(Outcome::NullConfig, rest);
                        assert(false);
                    }
                },
                _ => {
                    assert(false);
                },
            }
        },
        Phase::AtStep(here) => {
            match e0 {
                Event::StepReturned(code) => {
                    if code != 0 {
                        lemma_await_free_run(Completion::FailedAt(here), rest);
                        assert(here == s);
                        assert(events.take(0) =~= Seq::<Event>::empty());
                        assert(replay(p, events.take(0)) == Phase::AtStep(s));
                        assert(events[0] matches Event::StepReturned(c) && c != 0);
                    } else {
                        match p1 {
                            Phase::AwaitFree(c) => {
                                lemma_await_free_run(c, rest);
                                assert(false);
                            },
                            _ => {
                                lemma_failure_witness(p1, rest, s);
                                let k = choose|k: int|
                                    0 <= k < rest.len() && replay(p1, rest.take(k))
                                        == Phase::AtStep(s) && (#[trigger] rest[k] matches Event::StepReturned(c2)
                                        && c2 != 0);
                                lemma_replay_take_shift(p, events, k);
                                assert(replay(p, events.take(k + 1)) == Phase::AtStep(s));
                                assert(events[k + 1] == rest[k]);
                                assert(events[k + 1] matches Event::StepReturned(c2) && c2 != 0);
                            },
                        }
                    }
                },
                _ => {
                    assert(false);
                },
            }
        },
        _ => {
            assert(false);
        },
    }
}

/// Allocation failure short-circuits the whole call: the lifecycle ends at
/// once with the null-configuration outcome, so no step runs and the free is
/// never directed either.
pub proof fn law_null_alloc_short_circuits(events: Seq<Event>)
    requires
        events_enabled_from(Phase::AwaitAlloc, events),
        events.len() > 0,
        events[0] == Event::Allocated(false),
    ensures
        events.len() == 1,
        replay(Phase::AwaitAlloc, events) == Phase::Done(Outcome::NullConfig),
        forall|k: int| 0 <= k < events.len() ==> !(#[trigger] events[k] is StepReturned),
        forall|k: int| 0 <= k < events.len() ==> !(#[trigger] events[k] is Freed),
{
    lemma_done_stops(Outcome::NullConfig, events.drop_first());
}

/// How far a phase still is from the end of the lifecycle.
pub open spec fn phase_rank(p: Phase) -> nat {
    match p {
        Phase::AwaitAlloc => 6,
        Phase::AtStep(s) => match s {
            Step::SetVerifyArgs => 5,
            Step::RunVerify => 4,
            Step::SetRunArgs => 3,
            Step::RunTor => 2,
        },
        Phase::AwaitFree(_) => 1,
        Phase::Done(_) => 0,
    }
}

/// Every enabled event moves the lifecycle strictly closer to its end: no
/// step is ever retried, skipped or reordered, and the shim's driving loop
/// terminates.
pub proof fn law_lifecycle_progresses(p: Phase, e: Event)
    requires
        event_enabled(p, e),
    ensures
        phase_rank(transition(p, e)) < phase_rank(p),
{
}

/// Any run the lifecycle accepts is bounded by the phase's distance from the
/// end: a whole invocation observes at most six events, one per native
/// operation.
pub proof fn law_run_is_bounded(p: Phase, events: Seq<Event>)
    requires
        events_enabled_from(p, events),
    ensures
        events.len() <= phase_rank(p),
    decreases events.len(),
{
    if events.len() > 0 {
        law_lifecycle_progresses(p, events[0]);
        law_run_is_bounded(transition(p, events[0]), events.drop_first());
    }
}

/// The empty result string is reserved for success: every failure outcome
/// reports a non-empty diagnostic, and the success report is empty.
pub proof fn law_empty_report_means_success(o: Outcome)
    ensures
        outcome_text(o).len() == 0 <==> o == Outcome::Success,
{
    reveal_strlit("");
    reveal_strlit("TorConfig was null.");
    reveal_strlit("Failed to set args for verification.");
    reveal_strlit("Failed to verify args. Tor does not like a setting.");
    reveal_strlit("Failed to set args to run.");
    reveal_strlit("Failed to run args.");
}

/// Every outcome reports its own result string: no two distinct outcomes
/// share one, so the host can tell from the string alone what happened.
pub proof fn law_distinct_diagnostics(o1: Outcome, o2: Outcome)
    requires
        o1 != o2,
    ensures
        outcome_text(o1) != outcome_text(o2),
{
    reveal_strlit("");
    reveal_strlit("TorConfig was null.");
    reveal_strlit("Failed to set args for verification.");
    reveal_strlit("Failed to verify args. Tor does not like a setting.");
    reveal_strlit("Failed to set args to run.");
    reveal_strlit("Failed to run args.");
    assert(outcome_text(Outcome::Success).len() == 0);
    assert(outcome_text(Outcome::NullConfig).len() == 19);
    assert(outcome_text(Outcome::StepFailed(Step::SetVerifyArgs)).len() == 36);
    assert(outcome_text(Outcome::StepFailed(Step::RunVerify)).len() == 51);
    assert(outcome_text(Outcome::StepFailed(Step::SetRunArgs)).len() == 26);
    assert(outcome_text(Outcome::StepFailed(Step::RunTor)).len() == 19);
    assert(outcome_text(Outcome::NullConfig)[0] == 'T');
    assert(outcome_text(Outcome::StepFailed(Step::RunTor))[0] == 'F');
}

} // verus!
