//! The orchestrator as a state machine.
//!
//! A `Run` walks through a plan. At each moment it names the operation that
//! is due; it is then told whether that operation succeeded and moves on.
//! No failure stops it: a failed step is recorded and the next one is due.
//! When every step has been recorded, the run states its verdict.

use vstd::prelude::*;
use crate::config::{Config, ConfigView};
use crate::model::Direction;
use crate::plan::{plan, plan_steps, step_views, Operation, OperationView, Phase, Step, StepView};

verus! {

/// Whether the plan has a step of the phase.
pub open spec fn phase_present(steps: Seq<StepView>, phase: Phase) -> bool {
    exists|i: int| 0 <= i < steps.len() && (#[trigger] steps[i]).phase == phase
}

/// Whether every recorded step of the phase succeeded.
pub open spec fn phase_holds(steps: Seq<StepView>, outcomes: Seq<bool>, phase: Phase) -> bool {
    forall|i: int|
        0 <= i < steps.len() && i < outcomes.len() && (#[trigger] steps[i]).phase == phase
            ==> outcomes[i]
}

/// Whether some recorded step of the phase succeeded.
pub open spec fn phase_any(steps: Seq<StepView>, outcomes: Seq<bool>, phase: Phase) -> bool {
    exists|i: int|
        0 <= i < steps.len() && i < outcomes.len() && (#[trigger] steps[i]).phase == phase
            && outcomes[i]
}

/// The result of one phase. Refreshing the policy caches succeeds if either
/// refresh does; every other phase succeeds if all of its steps do.
pub open spec fn phase_succeeded(steps: Seq<StepView>, outcomes: Seq<bool>, phase: Phase) -> bool {
    if phase == Phase::RefreshPolicy {
        phase_any(steps, outcomes, phase)
    } else {
        phase_holds(steps, outcomes, phase)
    }
}

/// The overall result of a toggle.
///
/// A disable succeeds if the policy was written, or if the plan corrupts the
/// executable path and that took effect: one durable mechanism is enough. A
/// restore succeeds only if the policy was cleared and the path, where the
/// plan restores it, was restored. No other phase has a say.
pub open spec fn verdict(direction: Direction, steps: Seq<StepView>, outcomes: Seq<bool>) -> bool {
    match direction {
        Direction::Disable => phase_holds(steps, outcomes, Phase::WritePolicy) || (phase_present(
            steps,
            Phase::CorruptPath,
        ) && phase_holds(steps, outcomes, Phase::CorruptPath)),
        Direction::Restore => phase_holds(steps, outcomes, Phase::ClearPolicy) && phase_holds(
            steps,
            outcomes,
            Phase::RestorePath,
        ),
    }
}

/// A toggle in progress.
pub struct Run {
    direction: Direction,
    steps: Vec<Step>,
    outcomes: Vec<bool>,
    retrying: bool,
}

pub struct RunView {
    pub direction: Direction,
    pub steps: Seq<StepView>,
    /// The results of the steps that are over, in order.
    pub outcomes: Seq<bool>,
    /// Whether the first attempt of the current step has failed and its
    /// second attempt is due.
    pub retrying: bool,
}

impl RunView {
    pub open spec fn wf(self) -> bool {
        &&& self.outcomes.len() <= self.steps.len()
        &&& self.retrying ==> self.outcomes.len() < self.steps.len()
            && self.steps[self.outcomes.len() as int].fallback.is_some()
    }

    pub open spec fn start(config: ConfigView, direction: Direction) -> RunView {
        RunView {
            direction,
            steps: plan_steps(config, direction),
            outcomes: Seq::empty(),
            retrying: false,
        }
    }

    pub open spec fn finished(self) -> bool {
        self.outcomes.len() >= self.steps.len()
    }

    /// The step that is in progress.
    pub open spec fn current(self) -> StepView
        recommends
            !self.finished(),
    {
        self.steps[self.outcomes.len() as int]
    }

    /// The operation that is due, if the run is not over.
    pub open spec fn pending(self) -> Option<OperationView> {
        if self.finished() {
            None
        } else if self.retrying {
            self.current().fallback
        } else {
            Some(self.current().primary)
        }
    }

    /// The run after the pending operation has succeeded or failed. A
    /// success closes the step. A failure of the first attempt makes the
    /// second attempt due where the step has one, and closes the step as
    /// failed otherwise. A run that is over stays as it is.
    pub open spec fn advance(self, succeeded: bool) -> RunView {
        if self.finished() {
            self
        } else if succeeded {
            RunView { outcomes: self.outcomes.push(true), retrying: false, ..self }
        } else if !self.retrying && self.current().fallback.is_some() {
            RunView { retrying: true, ..self }
        } else {
            RunView { outcomes: self.outcomes.push(false), retrying: false, ..self }
        }
    }

    /// The verdict, once the run is over.
    pub open spec fn verdict(self) -> Option<bool> {
        if self.finished() {
            Some(verdict(self.direction, self.steps, self.outcomes))
        } else {
            None
        }
    }

    /// The run after a series of outcomes was recorded one by one, each for
    /// the operation that was pending at its time.
    pub open spec fn feed(self, outcomes: Seq<bool>) -> RunView
        decreases outcomes.len(),
    {
        if outcomes.len() == 0 {
            self
        } else {
            self.feed(outcomes.drop_last()).advance(outcomes.last())
        }
    }

    /// The number of operations that can still become due, at most.
    pub open spec fn remaining(self) -> nat {
        if self.finished() {
            0
        } else if self.retrying {
            (2 * (self.steps.len() - self.outcomes.len()) - 1) as nat
        } else {
            (2 * (self.steps.len() - self.outcomes.len())) as nat
        }
    }
}

/// Recording an outcome keeps a run well-formed and brings it closer to its
/// end.
pub proof fn lemma_advance(run: RunView, succeeded: bool)
    requires
        run.wf(),
    ensures
        run.advance(succeeded).wf(),
        run.advance(succeeded).steps == run.steps,
        run.advance(succeeded).direction == run.direction,
        !run.finished() ==> run.advance(succeeded).remaining() < run.remaining(),
        !run.finished() ==> run.pending().is_some(),
{
}

/// No series of outcomes stalls a run: the plan stays what it was, and once
/// as many outcomes are recorded as operations could become due, the run is
/// over. A plan of `n` steps is over after `2 * n` outcomes at the latest,
/// however many of them are failures.
pub proof fn lemma_run_ends(run: RunView, outcomes: Seq<bool>)
    requires
        run.wf(),
    ensures
        run.feed(outcomes).wf(),
        run.feed(outcomes).steps == run.steps,
        run.feed(outcomes).direction == run.direction,
        run.feed(outcomes).finished() || run.feed(outcomes).remaining() + outcomes.len()
            <= run.remaining(),
        outcomes.len() >= run.remaining() ==> run.feed(outcomes).finished(),
    decreases outcomes.len(),
{
    if outcomes.len() > 0 {
        lemma_run_ends(run, outcomes.drop_last());
        lemma_advance(run.feed(outcomes.drop_last()), outcomes.last());
    }
}

fn holds(steps: &Vec<Step>, outcomes: &Vec<bool>, phase: Phase) -> (all: bool)
    requires
        outcomes.len() <= steps.len(),
    ensures
        all == phase_holds(step_views(steps@), outcomes@, phase),
{
    let mut i: usize = 0;
    while i < outcomes.len()
        invariant
            i <= outcomes.len() <= steps.len(),
            forall|j: int|
                0 <= j < i && (#[trigger] step_views(steps@)[j]).phase == phase ==> outcomes@[j],
        decreases outcomes.len() - i,
    {
        if steps[i].phase == phase && !outcomes[i] {
            assert(step_views(steps@)[i as int].phase == phase);
            return false;
        }
        i += 1;
    }
    true
}

fn any(steps: &Vec<Step>, outcomes: &Vec<bool>, phase: Phase) -> (some: bool)
    requires
        outcomes.len() <= steps.len(),
    ensures
        some == phase_any(step_views(steps@), outcomes@, phase),
{
    let mut i: usize = 0;
    while i < outcomes.len()
        invariant
            i <= outcomes.len() <= steps.len(),
            forall|j: int|
                0 <= j < i && (#[trigger] step_views(steps@)[j]).phase == phase ==> !outcomes@[j],
        decreases outcomes.len() - i,
    {
        if steps[i].phase == phase && outcomes[i] {
            assert(step_views(steps@)[i as int].phase == phase);
            return true;
        }
        i += 1;
    }
    false
}

fn present(steps: &Vec<Step>, phase: Phase) -> (some: bool)
    ensures
        some == phase_present(step_views(steps@), phase),
{
    let mut i: usize = 0;
    while i < steps.len()
        invariant
            i <= steps.len(),
            forall|j: int| 0 <= j < i ==> (#[trigger] step_views(steps@)[j]).phase != phase,
        decreases steps.len() - i,
    {
        if steps[i].phase == phase {
            assert(step_views(steps@)[i as int].phase == phase);
            return true;
        }
        i += 1;
    }
    false
}

impl View for Run {
    type V = RunView;

    closed spec fn view(&self) -> RunView {
        RunView {
            direction: self.direction,
            steps: step_views(self.steps@),
            outcomes: self.outcomes@,
            retrying: self.retrying,
        }
    }
}

impl Run {
    #[verifier::type_invariant]
    spec fn inv(self) -> bool {
        self@.wf()
    }

    /// Starts a toggle in the given direction, with the first operation of
    /// its plan due.
    pub fn begin(config: &Config, direction: Direction) -> (run: Run)
        ensures
            run@ == RunView::start(config@, direction),
            run@.wf(),
    {
        let steps = plan(config, direction);
        Run { direction, steps, outcomes: Vec::new(), retrying: false }
    }

    pub fn direction(&self) -> (direction: Direction)
        ensures
            direction == self@.direction,
    {
        self.direction
    }

    pub fn is_finished(&self) -> (finished: bool)
        ensures
            finished == self@.finished(),
            self@.wf(),
    {
        proof {
            use_type_invariant(self);
        }
        self.outcomes.len() >= self.steps.len()
    }

    /// The operation that is due.
    pub fn pending(&self) -> (operation: Option<Operation>)
        ensures
            self@.wf(),
            match operation {
                Some(operation) => self@.pending() == Some(operation@),
                None => self@.pending().is_none(),
            },
    {
        proof {
            use_type_invariant(self);
        }
        let at: usize = self.outcomes.len();
        if at >= self.steps.len() {
            None
        } else if self.retrying {
            match &self.steps[at].fallback {
                Some(operation) => Some(operation.duplicate()),
                None => None,
            }
        } else {
            Some(self.steps[at].primary.duplicate())
        }
    }

    /// Takes note of how the pending operation went.
    pub fn record(&mut self, succeeded: bool)
        ensures
            final(self)@ == old(self)@.advance(succeeded),
            final(self)@.wf(),
    {
        proof {
            use_type_invariant(&*self);
        }
        let at: usize = self.outcomes.len();
        if at >= self.steps.len() {
        } else if !succeeded && !self.retrying && self.steps[at].fallback.is_some() {
            self.retrying = true;
        } else {
            self.retrying = false;
            let mut outcomes: Vec<bool> = Vec::new();
            std::mem::swap(&mut self.outcomes, &mut outcomes);
            outcomes.push(succeeded);
            std::mem::swap(&mut self.outcomes, &mut outcomes);
        }
    }

    /// The results of the steps that are over, in the order of the plan.
    pub fn outcomes(&self) -> (outcomes: Vec<bool>)
        ensures
            outcomes@ == self@.outcomes,
    {
        self.outcomes.clone()
    }

    /// The phases of the plan's steps, in order.
    pub fn phases(&self) -> (phases: Vec<Phase>)
        ensures
            phases@ == self@.steps.map_values(|step: StepView| step.phase),
    {
        let mut phases: Vec<Phase> = Vec::new();
        let mut i: usize = 0;
        while i < self.steps.len()
            invariant
                i <= self.steps.len(),
                phases@ == self@.steps.map_values(|step: StepView| step.phase).take(i as int),
            decreases self.steps.len() - i,
        {
            phases.push(self.steps[i].phase);
            assert(phases@ =~= self@.steps.map_values(|step: StepView| step.phase).take(i + 1));
            i += 1;
        }
        assert(phases@ =~= self@.steps.map_values(|step: StepView| step.phase));
        phases
    }

    /// Whether a phase has succeeded, as far as its steps are over.
    pub fn phase_succeeded(&self, phase: Phase) -> (succeeded: bool)
        ensures
            succeeded == phase_succeeded(self@.steps, self@.outcomes, phase),
    {
        proof {
            use_type_invariant(self);
        }
        if phase == Phase::RefreshPolicy {
            any(&self.steps, &self.outcomes, phase)
        } else {
            holds(&self.steps, &self.outcomes, phase)
        }
    }

    /// The overall result: `None` while operations are still due.
    pub fn verdict(&self) -> (result: Option<bool>)
        ensures
            result == self@.verdict(),
    {
        proof {
            use_type_invariant(self);
        }
        if self.outcomes.len() < self.steps.len() {
            return None;
        }
        let result = match self.direction {
            Direction::Disable => holds(&self.steps, &self.outcomes, Phase::WritePolicy) || (
            present(&self.steps, Phase::CorruptPath) && holds(
                &self.steps,
                &self.outcomes,
                Phase::CorruptPath,
            )),
            Direction::Restore => holds(&self.steps, &self.outcomes, Phase::ClearPolicy) && holds(
                &self.steps,
                &self.outcomes,
                Phase::RestorePath,
            ),
        };
        Some(result)
    }
}

} // verus!
