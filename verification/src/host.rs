//! An in-memory host.
//!
//! The host holds what the probe can read, and a record of what it refuses:
//! whole control surfaces, as for a caller without elevated privilege, and
//! single operations, so that any step of a plan can be made to fail on its
//! own. It performs the operations of a plan on that state alone, so that a
//! toggle can be followed from the first step to the probe that comes after
//! it.
//!
//! An operation on this host either is refused and changes nothing, or
//! succeeds and leaves its mark, whether or not the mark was there before:
//! deleting what is absent, or disabling what is disabled, succeeds.

use vstd::prelude::*;
use crate::config::{key_is_within, key_within, Config, ConfigView};
use crate::engine::{lemma_advance, verdict, Run};
use crate::model::{Direction, MacroState};
use crate::plan::{plan_steps, Channel, Operation, OperationView, StepView};
use crate::probe::{macro_state, probe, Snapshot, SnapshotView};

verus! {

/// The control surfaces that refuse every request.
#[derive(Clone, Copy, Debug, PartialEq, Eq, Structural)]
pub struct Denials {
    pub service_control: bool,
    pub legacy_service: bool,
    pub task_scheduler: bool,
    pub policy_refresh: bool,
    pub service_registry: bool,
    pub policy_registry: bool,
}

impl Denials {
    pub open spec fn denies(self, channel: Channel) -> bool {
        match channel {
            Channel::ServiceControl => self.service_control,
            Channel::LegacyService => self.legacy_service,
            Channel::TaskScheduler => self.task_scheduler,
            Channel::PolicyRefresh => self.policy_refresh,
            Channel::ServiceRegistry => self.service_registry,
            Channel::PolicyRegistry => self.policy_registry,
        }
    }

    /// A host on which every control surface works.
    pub fn none() -> (denials: Denials)
        ensures
            forall|channel: Channel| !denials.denies(channel),
    {
        Denials {
            service_control: false,
            legacy_service: false,
            task_scheduler: false,
            policy_refresh: false,
            service_registry: false,
            policy_registry: false,
        }
    }

    /// A host on which no control surface works.
    pub fn all() -> (denials: Denials)
        ensures
            forall|channel: Channel| denials.denies(channel),
    {
        Denials {
            service_control: true,
            legacy_service: true,
            task_scheduler: true,
            policy_refresh: true,
            service_registry: true,
            policy_registry: true,
        }
    }

    pub fn is_denied(&self, channel: Channel) -> (denied: bool)
        ensures
            denied == self.denies(channel),
    {
        match channel {
            Channel::ServiceControl => self.service_control,
            Channel::LegacyService => self.legacy_service,
            Channel::TaskScheduler => self.task_scheduler,
            Channel::PolicyRefresh => self.policy_refresh,
            Channel::ServiceRegistry => self.service_registry,
            Channel::PolicyRegistry => self.policy_registry,
        }
    }
}

/// Everything that a host refuses: whole control surfaces, and single
/// operations on surfaces that work otherwise.
pub struct Refusals {
    pub channels: Denials,
    pub operations: Seq<OperationView>,
}

impl Refusals {
    /// Whether an operation is carried out. This depends on the operation
    /// alone, never on what the host holds.
    pub open spec fn permits(self, operation: OperationView) -> bool {
        !self.channels.denies(operation.channel()) && !self.operations.contains(operation)
    }

    /// Whether nothing at all is refused.
    pub open spec fn none(self) -> bool {
        forall|operation: OperationView| self.permits(operation)
    }
}

/// What an operation changes in the readings: for each reading, either
/// nothing (`None`) or its new content.
pub struct Effect {
    pub policy_flag: Option<Option<u32>>,
    pub image_path: Option<Option<Seq<char>>>,
    pub start_value: Option<Option<u32>>,
}

impl Effect {
    pub open spec fn nothing() -> Effect {
        Effect { policy_flag: None, image_path: None, start_value: None }
    }

    /// This effect followed by a later one, which prevails where both
    /// change the same reading.
    pub open spec fn before(self, later: Effect) -> Effect {
        Effect {
            policy_flag: if later.policy_flag.is_some() {
                later.policy_flag
            } else {
                self.policy_flag
            },
            image_path: if later.image_path.is_some() {
                later.image_path
            } else {
                self.image_path
            },
            start_value: if later.start_value.is_some() {
                later.start_value
            } else {
                self.start_value
            },
        }
    }

    pub open spec fn apply(self, readings: SnapshotView) -> SnapshotView {
        SnapshotView {
            policy_flag: match self.policy_flag {
                Some(flag) => flag,
                None => readings.policy_flag,
            },
            image_path: match self.image_path {
                Some(path) => path,
                None => readings.image_path,
            },
            start_value: match self.start_value {
                Some(value) => value,
                None => readings.start_value,
            },
        }
    }
}

/// What an operation that succeeds changes in the readings.
///
/// Only an operation aimed at the flag's location or at the primary service
/// changes a reading. A string stored where the flag is makes the flag read
/// as absent, as does deleting it or removing a key that it lies within.
pub open spec fn effect_of(config: ConfigView, operation: OperationView) -> Effect {
    match operation {
        OperationView::WritePolicy { key_path, value_name, value } => if config.is_flag(
            key_path,
            value_name,
        ) {
            Effect { policy_flag: Some(value.as_dword()), ..Effect::nothing() }
        } else {
            Effect::nothing()
        },
        OperationView::DeletePolicy { key_path, value_name } => if config.is_flag(
            key_path,
            value_name,
        ) {
            Effect { policy_flag: Some(None), ..Effect::nothing() }
        } else {
            Effect::nothing()
        },
        OperationView::RemovePolicyTree { key_path } => if key_within(config.flag_key, key_path) {
            Effect { policy_flag: Some(None), ..Effect::nothing() }
        } else {
            Effect::nothing()
        },
        OperationView::WriteImagePath { service, path } => if config.is_primary(service) {
            Effect { image_path: Some(Some(path)), ..Effect::nothing() }
        } else {
            Effect::nothing()
        },
        OperationView::WriteStartMode { service, mode } => if config.is_primary(service) {
            Effect { start_value: Some(Some(mode.code_of())), ..Effect::nothing() }
        } else {
            Effect::nothing()
        },
        OperationView::ConfigureStartMode { service, mode } => if config.is_primary(service) {
            Effect { start_value: Some(Some(mode.code_of())), ..Effect::nothing() }
        } else {
            Effect::nothing()
        },
        OperationView::StopService { .. } => Effect::nothing(),
        OperationView::SetTaskEnabled { .. } => Effect::nothing(),
        OperationView::RefreshPolicy { .. } => Effect::nothing(),
    }
}

/// The host: what can be read of it, and what it refuses.
#[derive(Clone, Debug, PartialEq, Eq)]
pub struct Host {
    pub readings: Snapshot,
    /// The control surfaces that refuse every request.
    pub denied: Denials,
    /// The single operations that are refused.
    pub refused: Vec<Operation>,
}

pub struct HostView {
    pub readings: SnapshotView,
    pub refusals: Refusals,
}

impl View for Host {
    type V = HostView;

    open spec fn view(&self) -> HostView {
        HostView {
            readings: self.readings@,
            refusals: Refusals {
                channels: self.denied,
                operations: self.refused@.map_values(|operation: Operation| operation@),
            },
        }
    }
}

impl HostView {
    /// Whether the host carries the operation out.
    pub open spec fn permits(self, operation: OperationView) -> bool {
        self.refusals.permits(operation)
    }

    /// The host after an operation that it carried out.
    pub open spec fn after(self, config: ConfigView, operation: OperationView) -> HostView {
        HostView { readings: effect_of(config, operation).apply(self.readings), ..self }
    }

    /// The host after an operation was requested, and whether it succeeded.
    pub open spec fn perform(self, config: ConfigView, operation: OperationView) -> (HostView, bool) {
        if self.permits(operation) {
            (self.after(config, operation), true)
        } else {
            (self, false)
        }
    }

    /// The host after one step of a plan, and whether the step succeeded:
    /// the second attempt is made only if the first was refused.
    pub open spec fn step(self, config: ConfigView, step: StepView) -> (HostView, bool) {
        if self.permits(step.primary) {
            (self.after(config, step.primary), true)
        } else {
            match step.fallback {
                Some(second) => self.perform(config, second),
                None => (self, false),
            }
        }
    }

    /// The host after the steps were taken in order, with the result of each.
    pub open spec fn run(self, config: ConfigView, steps: Seq<StepView>) -> (HostView, Seq<bool>)
        decreases steps.len(),
    {
        if steps.len() == 0 {
            (self, Seq::empty())
        } else {
            let (host, outcomes) = self.run(config, steps.drop_last());
            let (next, succeeded) = host.step(config, steps.last());
            (next, outcomes.push(succeeded))
        }
    }

    /// The host after a whole toggle, and the toggle's verdict.
    pub open spec fn toggle(self, config: ConfigView, direction: Direction) -> (HostView, bool) {
        let steps = plan_steps(config, direction);
        let (host, outcomes) = self.run(config, steps);
        (host, verdict(direction, steps, outcomes))
    }

    /// The macro-state that a probe of the host shows.
    pub open spec fn state(self, config: ConfigView) -> MacroState {
        macro_state(config, self.readings)
    }
}

impl Host {
    /// A host with the given readings that refuses nothing.
    pub fn new(readings: Snapshot) -> (host: Host)
        ensures
            host@.readings == readings@,
            host@.refusals.none(),
    {
        let host = Host { readings, denied: Denials::none(), refused: Vec::new() };
        assert forall|operation: OperationView| host@.refusals.permits(operation) by {
            assert(host@.refusals.operations.len() == 0);
        }
        host
    }

    /// Probes the host afresh.
    pub fn probe(&self, config: &Config) -> (state: MacroState)
        ensures
            state == self@.state(config@),
    {
        probe(config, &self.readings)
    }

    /// Whether the host would carry an operation out.
    pub fn permits(&self, operation: &Operation) -> (permitted: bool)
        ensures
            permitted == self@.permits(operation@),
    {
        if self.denied.is_denied(operation.channel()) {
            return false;
        }
        let ghost listed = self@.refusals.operations;
        let mut i: usize = 0;
        while i < self.refused.len()
            invariant
                i <= self.refused.len(),
                listed == self@.refusals.operations,
                forall|j: int| 0 <= j < i ==> listed[j] != operation@,
            decreases self.refused.len() - i,
        {
            if self.refused[i].same_as(operation) {
                assert(listed[i as int] == operation@);
                return false;
            }
            i += 1;
        }
        true
    }

    /// Carries one operation out, or refuses it.
    pub fn perform(&mut self, config: &Config, operation: &Operation) -> (succeeded: bool)
        ensures
            (final(self)@, succeeded) == old(self)@.perform(config@, operation@),
    {
        if !self.permits(operation) {
            return false;
        }
        match operation {
            Operation::WritePolicy { key_path, value_name, value } => {
                if config.is_flag(key_path, value_name) {
                    self.readings.policy_flag = value.as_dword();
                }
            },
            Operation::DeletePolicy { key_path, value_name } => {
                if config.is_flag(key_path, value_name) {
                    self.readings.policy_flag = None;
                }
            },
            Operation::RemovePolicyTree { key_path } => {
                if key_is_within(&config.flag_key, key_path) {
                    self.readings.policy_flag = None;
                }
            },
            Operation::WriteImagePath { service, path } => {
                if config.is_primary(service) {
                    self.readings.image_path = Some(path.clone());
                }
            },
            Operation::WriteStartMode { service, mode } => {
                if config.is_primary(service) {
                    self.readings.start_value = Some(mode.code());
                }
            },
            Operation::ConfigureStartMode { service, mode } => {
                if config.is_primary(service) {
                    self.readings.start_value = Some(mode.code());
                }
            },
            Operation::StopService { .. } => {},
            Operation::SetTaskEnabled { .. } => {},
            Operation::RefreshPolicy { .. } => {},
        }
        true
    }
}

/// Running a plan up to and including step `k` is running it up to `k` and
/// then taking step `k`.
pub proof fn lemma_run_prefix(host: HostView, config: ConfigView, steps: Seq<StepView>, k: int)
    requires
        0 <= k < steps.len(),
    ensures
        host.run(config, steps.take(k + 1)) == ({
            let (before, outcomes) = host.run(config, steps.take(k));
            let (next, succeeded) = before.step(config, steps[k]);
            (next, outcomes.push(succeeded))
        }),
{
    assert(steps.take(k + 1).drop_last() =~= steps.take(k));
    assert(steps.take(k + 1).last() == steps[k]);
}

/// Drives a whole toggle against the host: every operation of the plan is
/// requested in turn, whatever became of the ones before it.
pub fn execute(config: &Config, direction: Direction, host: &mut Host) -> (run: Run)
    ensures
        run@.finished(),
        run@.direction == direction,
        run@.steps == plan_steps(config@, direction),
        (final(host)@, run@.outcomes) == old(host)@.run(config@, plan_steps(config@, direction)),
        final(host)@.refusals == old(host)@.refusals,
{
    let ghost steps = plan_steps(config@, direction);
    let mut run = Run::begin(config, direction);
    assert(steps.take(0) =~= Seq::<StepView>::empty());
    loop
        invariant
            run@.wf(),
            run@.direction == direction,
            run@.steps == steps,
            steps == plan_steps(config@, direction),
            (host@, run@.outcomes) == old(host)@.run(
                config@,
                steps.take(run@.outcomes.len() as int),
            ),
            run@.retrying ==> !host@.permits(run@.current().primary),
            host@.refusals == old(host)@.refusals,
        ensures
            run@.finished(),
        decreases run@.remaining(),
    {
        let ghost before = run@;
        let ghost at = before.outcomes.len() as int;
        match run.pending() {
            None => {
                break ;
            },
            Some(operation) => {
                let succeeded = host.perform(config, &operation);
                run.record(succeeded);
                proof {
                    lemma_advance(before, succeeded);
                    if run@.outcomes.len() > at {
                        lemma_run_prefix(old(host)@, config@, steps, at);
                    }
                }
            },
        }
    }
    assert(steps.take(run@.outcomes.len() as int) =~= steps);
    run
}

/// Suppresses updates on the host. Returns whether the policy was written
/// or, where the configuration corrupts the path, the path was corrupted.
pub fn disable(config: &Config, host: &mut Host) -> (succeeded: bool)
    ensures
        (final(host)@, succeeded) == old(host)@.toggle(config@, Direction::Disable),
        final(host)@.refusals == old(host)@.refusals,
{
    let run = execute(config, Direction::Disable, host);
    match run.verdict() {
        Some(result) => result,
        None => false,
    }
}

/// Gives updates back on the host. Returns whether the policy was cleared
/// and, where the configuration corrupts the path, the path was restored.
pub fn restore(config: &Config, host: &mut Host) -> (succeeded: bool)
    ensures
        (final(host)@, succeeded) == old(host)@.toggle(config@, Direction::Restore),
        final(host)@.refusals == old(host)@.refusals,
{
    let run = execute(config, Direction::Restore, host);
    match run.verdict() {
        Some(result) => result,
        None => false,
    }
}

} // verus!
