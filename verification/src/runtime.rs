//! Runtime orchestration decisions: what a cycler does with the event its
//! wait-for-trigger returned, and how the terminations of all cyclers
//! aggregate into one process exit status.
//!
//! The blocking wait itself, the execution flows and the shared
//! cancellation token live outside the framework core; they feed events in
//! and carry the decisions out, so every decision here is checked for
//! every event that can arrive.

use vstd::prelude::*;

use crate::node::NodeId;

verus! {

/// A failure that ends a cycler, and with it the whole process.
#[derive(Clone, Copy, Debug, PartialEq, Eq, Structural)]
pub enum FatalError {
    /// The trigger source closed: the hardware event stream is gone.
    TriggerSourceClosed,
    /// A node's construction failed while the cycler started up.
    NodeConstructionFailed { node: NodeId },
}

/// What the wait at the top of a cycle returned.
#[derive(Clone, Copy, Debug, PartialEq, Eq, Structural)]
pub enum TriggerEvent {
    /// The trigger fired at the given time.
    Triggered { now_ms: u64 },
    /// The shared cancellation token was observed set.
    CancellationObserved,
    /// The trigger source is permanently gone.
    SourceClosed,
}

/// What the cycler does next.
#[derive(Clone, Copy, Debug, PartialEq, Eq, Structural)]
pub enum CyclerStep {
    /// Run all nodes once for the trigger at the given time.
    RunCycle { now_ms: u64 },
    /// Unwind cleanly: cancellation is not an error.
    StopClean,
    /// Unwind and escalate the error to the orchestrator.
    StopFatal { error: FatalError },
}

/// How one cycler's execution flow ended.
#[derive(Clone, Copy, Debug, PartialEq, Eq, Structural)]
pub enum Termination {
    /// The cycler unwound cleanly (cancellation or an orderly stop).
    Clean,
    /// The cycler died of the given error.
    Fatal { error: FatalError },
}

/// The decision for each event: a trigger runs one cycle, observed
/// cancellation stops cleanly within the current cycle, a closed source is
/// fatal.
pub open spec fn spec_plan_step(event: TriggerEvent) -> CyclerStep {
    match event {
        TriggerEvent::Triggered { now_ms } => CyclerStep::RunCycle { now_ms },
        TriggerEvent::CancellationObserved => CyclerStep::StopClean,
        TriggerEvent::SourceClosed => CyclerStep::StopFatal {
            error: FatalError::TriggerSourceClosed,
        },
    }
}

/// Decides what a cycler does with the event its wait returned.
pub fn plan_step(event: TriggerEvent) -> (step: CyclerStep)
    ensures
        step == spec_plan_step(event),
{
    match event {
        TriggerEvent::Triggered { now_ms } => CyclerStep::RunCycle { now_ms },
        TriggerEvent::CancellationObserved => CyclerStep::StopClean,
        TriggerEvent::SourceClosed => CyclerStep::StopFatal {
            error: FatalError::TriggerSourceClosed,
        },
    }
}

/// The first fatal error at or after position `i`, if any.
pub open spec fn spec_first_fatal_from(terms: Seq<Termination>, i: int) -> Option<FatalError>
    decreases terms.len() - i,
{
    if i < 0 || i >= terms.len() {
        None
    } else {
        match terms[i] {
            Termination::Fatal { error } => Some(error),
            Termination::Clean => spec_first_fatal_from(terms, i + 1),
        }
    }
}

/// The process exit condition: the first fatal error among the cyclers'
/// terminations, or none for a fully clean shutdown.
pub open spec fn spec_exit_error(terms: Seq<Termination>) -> Option<FatalError> {
    spec_first_fatal_from(terms, 0)
}

/// Aggregates all cyclers' terminations, once every flow has reported:
/// clean exactly when every cycler unwound cleanly, otherwise the first
/// fatal error surfaces as the process exit condition.
pub fn exit_status(terminations: &Vec<Termination>) -> (r: Result<(), FatalError>)
    ensures
        match r {
            Ok(()) => spec_exit_error(terminations@) is None,
            Err(e) => spec_exit_error(terminations@) == Some(e),
        },
{
    let mut i: usize = 0;
    while i < terminations.len()
        invariant
            i <= terminations@.len(),
            spec_first_fatal_from(terminations@, 0) == spec_first_fatal_from(
                terminations@,
                i as int,
            ),
        decreases terminations@.len() - i,
    {
        match terminations[i] {
            Termination::Fatal { error } => {
                return Err(error);
            },
            Termination::Clean => {},
        }
        i += 1;
    }
    Ok(())
}

/// Whether a reported termination obliges the orchestrator to cancel all
/// sibling cyclers: exactly the fatal ones (fail fast); a clean unwind
/// cancels nothing.
pub fn should_cancel_siblings(termination: &Termination) -> (r: bool)
    ensures
        r == (termination is Fatal),
{
    match termination {
        Termination::Fatal { .. } => true,
        Termination::Clean => false,
    }
}

/// Law: a clean, cancellation-induced shutdown reports no fatal error —
/// observing the cancellation token stops a cycler cleanly at its next
/// cycle boundary, and when every cycler so terminated the aggregate exit
/// is clean.
pub proof fn lemma_clean_cancellation_shutdown(terms: Seq<Termination>)
    requires
        forall|i: int| 0 <= i < terms.len() ==> terms[i] is Clean,
    ensures
        spec_plan_step(TriggerEvent::CancellationObserved) == CyclerStep::StopClean,
        spec_exit_error(terms) is None,
{
    lemma_no_fatal_from(terms, 0);
}

/// No fatal error is found past a point after which every termination is
/// clean.
proof fn lemma_no_fatal_from(terms: Seq<Termination>, i: int)
    requires
        forall|j: int| 0 <= j < terms.len() ==> terms[j] is Clean,
        0 <= i,
    ensures
        spec_first_fatal_from(terms, i) is None,
    decreases terms.len() - i,
{
    if i < terms.len() {
        lemma_no_fatal_from(terms, i + 1);
    }
}

/// Law: the orchestrator fails fast — if any cycler died, the aggregate
/// exit surfaces a fatal error.
pub proof fn lemma_fatal_termination_surfaces(terms: Seq<Termination>, k: int)
    requires
        0 <= k < terms.len(),
        terms[k] is Fatal,
    ensures
        spec_exit_error(terms) is Some,
{
    lemma_some_fatal_from(terms, 0, k);
}

/// A fatal termination at or after `i` forces a fatal result from `i`.
proof fn lemma_some_fatal_from(terms: Seq<Termination>, i: int, k: int)
    requires
        0 <= i <= k < terms.len(),
        terms[k] is Fatal,
    ensures
        spec_first_fatal_from(terms, i) is Some,
    decreases terms.len() - i,
{
    if i < k && terms[i] is Clean {
        lemma_some_fatal_from(terms, i + 1, k);
    }
}

} // verus!
