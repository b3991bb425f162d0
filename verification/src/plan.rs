//! The two fixed, ordered sequences of operations: the one that suppresses
//! updates and the one that gives them back.
//!
//! A plan only names operations. Whoever drives it performs each one against
//! the host and reports how it went.

use vstd::prelude::*;
use crate::config::{Config, ConfigView};
use crate::model::{Direction, PolicyValue, PolicyValueView, StartMode};

verus! {

/// The utility that is asked to stop a service.
#[derive(Clone, Copy, Debug, PartialEq, Eq, Structural)]
pub enum Utility {
    /// The service-control utility, which is tried first.
    ServiceControl,
    /// The legacy service utility, which is tried if the first one fails.
    LegacyService,
}

/// The scope of a policy cache.
#[derive(Clone, Copy, Debug, PartialEq, Eq, Structural)]
pub enum Scope {
    Machine,
    User,
}

/// The control surface through which an operation reaches the host.
#[derive(Clone, Copy, Debug, PartialEq, Eq, Structural)]
pub enum Channel {
    /// The service-control utility.
    ServiceControl,
    /// The legacy service utility.
    LegacyService,
    /// The scheduled-task utility.
    TaskScheduler,
    /// The group-policy-refresh utility.
    PolicyRefresh,
    /// The registry accessor, on the control entries of services.
    ServiceRegistry,
    /// The registry accessor, on the policy root.
    PolicyRegistry,
}

/// One request to the host. The first four are carried out by running a
/// control utility, the others by the registry accessor.
#[derive(Clone, Debug, PartialEq, Eq)]
pub enum Operation {
    /// Stop a running service.
    StopService { service: String, utility: Utility },
    /// Assign a service's persistent start mode through the service-control
    /// utility.
    ConfigureStartMode { service: String, mode: StartMode },
    /// Enable or disable a scheduled task.
    SetTaskEnabled { task: String, enabled: bool },
    /// Refresh a policy cache.
    RefreshPolicy { scope: Scope },
    /// Store the executable path in a service's control entry.
    WriteImagePath { service: String, path: String },
    /// Store the start mode in a service's control entry.
    WriteStartMode { service: String, mode: StartMode },
    /// Store a policy value.
    WritePolicy { key_path: String, value_name: String, value: PolicyValue },
    /// Delete a policy value.
    DeletePolicy { key_path: String, value_name: String },
    /// Remove a policy key with everything below it.
    RemovePolicyTree { key_path: String },
}

pub enum OperationView {
    StopService { service: Seq<char>, utility: Utility },
    ConfigureStartMode { service: Seq<char>, mode: StartMode },
    SetTaskEnabled { task: Seq<char>, enabled: bool },
    RefreshPolicy { scope: Scope },
    WriteImagePath { service: Seq<char>, path: Seq<char> },
    WriteStartMode { service: Seq<char>, mode: StartMode },
    WritePolicy { key_path: Seq<char>, value_name: Seq<char>, value: PolicyValueView },
    DeletePolicy { key_path: Seq<char>, value_name: Seq<char> },
    RemovePolicyTree { key_path: Seq<char> },
}

impl View for Operation {
    type V = OperationView;

    open spec fn view(&self) -> OperationView {
        match self {
            Operation::StopService { service, utility } => OperationView::StopService {
                service: service@,
                utility: *utility,
            },
            Operation::ConfigureStartMode { service, mode } => OperationView::ConfigureStartMode {
                service: service@,
                mode: *mode,
            },
            Operation::SetTaskEnabled { task, enabled } => OperationView::SetTaskEnabled {
                task: task@,
                enabled: *enabled,
            },
            Operation::RefreshPolicy { scope } => OperationView::RefreshPolicy { scope: *scope },
            Operation::WriteImagePath { service, path } => OperationView::WriteImagePath {
                service: service@,
                path: path@,
            },
            Operation::WriteStartMode { service, mode } => OperationView::WriteStartMode {
                service: service@,
                mode: *mode,
            },
            Operation::WritePolicy { key_path, value_name, value } => OperationView::WritePolicy {
                key_path: key_path@,
                value_name: value_name@,
                value: value@,
            },
            Operation::DeletePolicy { key_path, value_name } => OperationView::DeletePolicy {
                key_path: key_path@,
                value_name: value_name@,
            },
            Operation::RemovePolicyTree { key_path } => OperationView::RemovePolicyTree {
                key_path: key_path@,
            },
        }
    }
}

impl OperationView {
    /// The control surface that carries the operation out.
    pub open spec fn channel(self) -> Channel {
        match self {
            OperationView::StopService { service, utility } => match utility {
                Utility::ServiceControl => Channel::ServiceControl,
                Utility::LegacyService => Channel::LegacyService,
            },
            OperationView::ConfigureStartMode { .. } => Channel::ServiceControl,
            OperationView::SetTaskEnabled { .. } => Channel::TaskScheduler,
            OperationView::RefreshPolicy { .. } => Channel::PolicyRefresh,
            OperationView::WriteImagePath { .. } => Channel::ServiceRegistry,
            OperationView::WriteStartMode { .. } => Channel::ServiceRegistry,
            OperationView::WritePolicy { .. } => Channel::PolicyRegistry,
            OperationView::DeletePolicy { .. } => Channel::PolicyRegistry,
            OperationView::RemovePolicyTree { .. } => Channel::PolicyRegistry,
        }
    }
}

impl Operation {
    pub fn channel(&self) -> (channel: Channel)
        ensures
            channel == self@.channel(),
    {
        match self {
            Operation::StopService { service, utility } => match utility {
                Utility::ServiceControl => Channel::ServiceControl,
                Utility::LegacyService => Channel::LegacyService,
            },
            Operation::ConfigureStartMode { .. } => Channel::ServiceControl,
            Operation::SetTaskEnabled { .. } => Channel::TaskScheduler,
            Operation::RefreshPolicy { .. } => Channel::PolicyRefresh,
            Operation::WriteImagePath { .. } => Channel::ServiceRegistry,
            Operation::WriteStartMode { .. } => Channel::ServiceRegistry,
            Operation::WritePolicy { .. } => Channel::PolicyRegistry,
            Operation::DeletePolicy { .. } => Channel::PolicyRegistry,
            Operation::RemovePolicyTree { .. } => Channel::PolicyRegistry,
        }
    }

    /// Whether two operations ask for the same.
    pub fn same_as(&self, other: &Operation) -> (same: bool)
        ensures
            same == (self@ == other@),
    {
        match (self, other) {
            (
                Operation::StopService { service: a, utility: u },
                Operation::StopService { service: b, utility: v },
            ) => *a == *b && *u == *v,
            (
                Operation::ConfigureStartMode { service: a, mode: m },
                Operation::ConfigureStartMode { service: b, mode: n },
            ) => *a == *b && *m == *n,
            (
                Operation::SetTaskEnabled { task: a, enabled: e },
                Operation::SetTaskEnabled { task: b, enabled: f },
            ) => *a == *b && *e == *f,
            (Operation::RefreshPolicy { scope: s }, Operation::RefreshPolicy { scope: t }) => *s
                == *t,
            (
                Operation::WriteImagePath { service: a, path: p },
                Operation::WriteImagePath { service: b, path: q },
            ) => *a == *b && *p == *q,
            (
                Operation::WriteStartMode { service: a, mode: m },
                Operation::WriteStartMode { service: b, mode: n },
            ) => *a == *b && *m == *n,
            (
                Operation::WritePolicy { key_path: a, value_name: c, value: x },
                Operation::WritePolicy { key_path: b, value_name: d, value: y },
            ) => *a == *b && *c == *d && x.same_as(y),
            (
                Operation::DeletePolicy { key_path: a, value_name: c },
                Operation::DeletePolicy { key_path: b, value_name: d },
            ) => *a == *b && *c == *d,
            (
                Operation::RemovePolicyTree { key_path: a },
                Operation::RemovePolicyTree { key_path: b },
            ) => *a == *b,
            _ => false,
        }
    }

    pub fn duplicate(&self) -> (copy: Operation)
        ensures
            copy@ == self@,
    {
        match self {
            Operation::StopService { service, utility } => Operation::StopService {
                service: service.clone(),
                utility: *utility,
            },
            Operation::ConfigureStartMode { service, mode } => Operation::ConfigureStartMode {
                service: service.clone(),
                mode: *mode,
            },
            Operation::SetTaskEnabled { task, enabled } => Operation::SetTaskEnabled {
                task: task.clone(),
                enabled: *enabled,
            },
            Operation::RefreshPolicy { scope } => Operation::RefreshPolicy { scope: *scope },
            Operation::WriteImagePath { service, path } => Operation::WriteImagePath {
                service: service.clone(),
                path: path.clone(),
            },
            Operation::WriteStartMode { service, mode } => Operation::WriteStartMode {
                service: service.clone(),
                mode: *mode,
            },
            Operation::WritePolicy { key_path, value_name, value } => Operation::WritePolicy {
                key_path: key_path.clone(),
                value_name: value_name.clone(),
                value: value.duplicate(),
            },
            Operation::DeletePolicy { key_path, value_name } => Operation::DeletePolicy {
                key_path: key_path.clone(),
                value_name: value_name.clone(),
            },
            Operation::RemovePolicyTree { key_path } => Operation::RemovePolicyTree {
                key_path: key_path.clone(),
            },
        }
    }
}

/// The part of a plan that a step belongs to. The first five make up a
/// disable, the last five a restore.
#[derive(Clone, Copy, Debug, PartialEq, Eq, Structural)]
pub enum Phase {
    StopServices,
    CorruptPath,
    WritePolicy,
    DisableServices,
    DisableTasks,
    ClearPolicy,
    RestorePath,
    RefreshPolicy,
    ResetServices,
    EnableTasks,
}

/// One step of a plan: an operation, and possibly a second one that is
/// attempted only if the first fails. The step succeeds if either does.
#[derive(Clone, Debug, PartialEq, Eq)]
pub struct Step {
    pub phase: Phase,
    pub primary: Operation,
    pub fallback: Option<Operation>,
}

pub struct StepView {
    pub phase: Phase,
    pub primary: OperationView,
    pub fallback: Option<OperationView>,
}

impl View for Step {
    type V = StepView;

    open spec fn view(&self) -> StepView {
        StepView {
            phase: self.phase,
            primary: self.primary@,
            fallback: match self.fallback {
                Some(operation) => Some(operation@),
                None => None,
            },
        }
    }
}

pub open spec fn step_views(steps: Seq<Step>) -> Seq<StepView> {
    steps.map_values(|step: Step| step@)
}

/// A step without a second attempt.
pub open spec fn single(phase: Phase, operation: OperationView) -> StepView {
    StepView { phase, primary: operation, fallback: None }
}

/// Stopping each service of the roster: the service-control utility first,
/// the legacy utility if that fails.
pub open spec fn stop_steps(config: ConfigView) -> Seq<StepView> {
    Seq::new(
        config.services.len(),
        |i: int|
            StepView {
                phase: Phase::StopServices,
                primary: OperationView::StopService {
                    service: config.services[i].name,
                    utility: Utility::ServiceControl,
                },
                fallback: Some(
                    OperationView::StopService {
                        service: config.services[i].name,
                        utility: Utility::LegacyService,
                    },
                ),
            },
    )
}

/// Corrupting the primary service's executable path and disabling it in its
/// control entry, where the configuration uses that mechanism.
pub open spec fn corrupt_steps(config: ConfigView) -> Seq<StepView> {
    if config.corrupt_path {
        seq![
            single(
                Phase::CorruptPath,
                OperationView::WriteImagePath {
                    service: config.primary_service,
                    path: config.corrupted_path,
                },
            ),
            single(
                Phase::CorruptPath,
                OperationView::WriteStartMode {
                    service: config.primary_service,
                    mode: StartMode::Disabled,
                },
            ),
        ]
    } else {
        Seq::empty()
    }
}

/// Setting the no-automatic-update flag, then writing every further policy
/// value.
pub open spec fn policy_write_steps(config: ConfigView) -> Seq<StepView> {
    seq![
        single(
            Phase::WritePolicy,
            OperationView::WritePolicy {
                key_path: config.flag_key,
                value_name: config.flag_name,
                value: PolicyValueView::Dword(1),
            },
        ),
    ] + Seq::new(
        config.policies.len(),
        |i: int|
            single(
                Phase::WritePolicy,
                OperationView::WritePolicy {
                    key_path: config.policies[i].key_path,
                    value_name: config.policies[i].value_name,
                    value: config.policies[i].value,
                },
            ),
    )
}

/// Assigning each service of the roster the disabled start mode.
pub open spec fn disable_service_steps(config: ConfigView) -> Seq<StepView> {
    Seq::new(
        config.services.len(),
        |i: int|
            single(
                Phase::DisableServices,
                OperationView::ConfigureStartMode {
                    service: config.services[i].name,
                    mode: StartMode::Disabled,
                },
            ),
    )
}

/// Switching each scheduled task of the roster off, one step per task.
pub open spec fn disable_task_steps(config: ConfigView) -> Seq<StepView> {
    Seq::new(
        config.tasks.len(),
        |i: int|
            single(
                Phase::DisableTasks,
                OperationView::SetTaskEnabled { task: config.tasks[i].path, enabled: false },
            ),
    )
}

/// Zeroing the no-automatic-update flag, deleting every further policy value
/// and, where the configuration says so, removing the policy root.
pub open spec fn policy_clear_steps(config: ConfigView) -> Seq<StepView> {
    seq![
        single(
            Phase::ClearPolicy,
            OperationView::WritePolicy {
                key_path: config.flag_key,
                value_name: config.flag_name,
                value: PolicyValueView::Dword(0),
            },
        ),
    ] + Seq::new(
        config.policies.len(),
        |i: int|
            single(
                Phase::ClearPolicy,
                OperationView::DeletePolicy {
                    key_path: config.policies[i].key_path,
                    value_name: config.policies[i].value_name,
                },
            ),
    ) + if config.purge_policy_root {
        seq![
            single(
                Phase::ClearPolicy,
                OperationView::RemovePolicyTree { key_path: config.policy_root },
            ),
        ]
    } else {
        Seq::empty()
    }
}

/// Putting the genuine executable path back and setting the primary service
/// to start on demand, where the configuration corrupts the path.
pub open spec fn path_restore_steps(config: ConfigView) -> Seq<StepView> {
    if config.corrupt_path {
        seq![
            single(
                Phase::RestorePath,
                OperationView::WriteImagePath {
                    service: config.primary_service,
                    path: config.genuine_path,
                },
            ),
            single(
                Phase::RestorePath,
                OperationView::WriteStartMode {
                    service: config.primary_service,
                    mode: StartMode::Demand,
                },
            ),
        ]
    } else {
        Seq::empty()
    }
}

/// Refreshing the machine-scope and the user-scope policy cache.
pub open spec fn refresh_steps() -> Seq<StepView> {
    seq![
        single(Phase::RefreshPolicy, OperationView::RefreshPolicy { scope: Scope::Machine }),
        single(Phase::RefreshPolicy, OperationView::RefreshPolicy { scope: Scope::User }),
    ]
}

/// Giving each service of the roster its own start mode back.
pub open spec fn reset_service_steps(config: ConfigView) -> Seq<StepView> {
    Seq::new(
        config.services.len(),
        |i: int|
            single(
                Phase::ResetServices,
                OperationView::ConfigureStartMode {
                    service: config.services[i].name,
                    mode: config.services[i].start_mode,
                },
            ),
    )
}

/// Switching each scheduled task of the roster on again.
pub open spec fn enable_task_steps(config: ConfigView) -> Seq<StepView> {
    Seq::new(
        config.tasks.len(),
        |i: int|
            single(
                Phase::EnableTasks,
                OperationView::SetTaskEnabled { task: config.tasks[i].path, enabled: true },
            ),
    )
}

/// The steps of a disable, in order.
pub open spec fn disable_steps(config: ConfigView) -> Seq<StepView> {
    stop_steps(config) + corrupt_steps(config) + policy_write_steps(config)
        + disable_service_steps(config) + disable_task_steps(config)
}

/// The steps of a restore, in order.
pub open spec fn restore_steps(config: ConfigView) -> Seq<StepView> {
    policy_clear_steps(config) + path_restore_steps(config) + refresh_steps()
        + reset_service_steps(config) + enable_task_steps(config)
}

/// The steps of a toggle in the given direction.
pub open spec fn plan_steps(config: ConfigView, direction: Direction) -> Seq<StepView> {
    match direction {
        Direction::Disable => disable_steps(config),
        Direction::Restore => restore_steps(config),
    }
}

fn push_single(steps: &mut Vec<Step>, phase: Phase, operation: Operation)
    ensures
        step_views(final(steps)@) == step_views(old(steps)@).push(single(phase, operation@)),
{
    let step = Step { phase, primary: operation, fallback: None };
    steps.push(step);
    assert(step_views(steps@) =~= step_views(old(steps)@).push(single(phase, operation@)));
}

fn append_stops(steps: &mut Vec<Step>, config: &Config)
    ensures
        step_views(final(steps)@) == step_views(old(steps)@) + stop_steps(config@),
{
    let mut i: usize = 0;
    while i < config.services.len()
        invariant
            i <= config.services.len(),
            step_views(steps@) == step_views(old(steps)@) + stop_steps(config@).take(i as int),
        decreases config.services.len() - i,
    {
        let ghost before = steps@;
        let step = Step {
            phase: Phase::StopServices,
            primary: Operation::StopService {
                service: config.services[i].name.clone(),
                utility: Utility::ServiceControl,
            },
            fallback: Some(
                Operation::StopService {
                    service: config.services[i].name.clone(),
                    utility: Utility::LegacyService,
                },
            ),
        };
        steps.push(step);
        assert(step_views(steps@) =~= step_views(before).push(stop_steps(config@)[i as int]));
        assert(stop_steps(config@).take(i + 1) =~= stop_steps(config@).take(i as int).push(
            stop_steps(config@)[i as int],
        ));
        i += 1;
    }
    assert(stop_steps(config@).take(i as int) =~= stop_steps(config@));
}

fn append_service_modes(steps: &mut Vec<Step>, config: &Config, direction: Direction)
    ensures
        step_views(final(steps)@) == step_views(old(steps)@) + match direction {
            Direction::Disable => disable_service_steps(config@),
            Direction::Restore => reset_service_steps(config@),
        },
{
    let ghost segment = match direction {
        Direction::Disable => disable_service_steps(config@),
        Direction::Restore => reset_service_steps(config@),
    };
    let mut i: usize = 0;
    while i < config.services.len()
        invariant
            i <= config.services.len(),
            segment.len() == config.services.len(),
            segment == match direction {
                Direction::Disable => disable_service_steps(config@),
                Direction::Restore => reset_service_steps(config@),
            },
            step_views(steps@) == step_views(old(steps)@) + segment.take(i as int),
        decreases config.services.len() - i,
    {
        let ghost before = step_views(steps@);
        let (phase, mode) = match direction {
            Direction::Disable => (Phase::DisableServices, StartMode::Disabled),
            Direction::Restore => (Phase::ResetServices, config.services[i].start_mode),
        };
        push_single(
            steps,
            phase,
            Operation::ConfigureStartMode { service: config.services[i].name.clone(), mode },
        );
        assert(step_views(steps@) == before.push(segment[i as int]));
        assert(segment.take(i + 1) =~= segment.take(i as int).push(segment[i as int]));
        i += 1;
    }
    assert(segment.take(i as int) =~= segment);
}

fn append_tasks(steps: &mut Vec<Step>, config: &Config, direction: Direction)
    ensures
        step_views(final(steps)@) == step_views(old(steps)@) + match direction {
            Direction::Disable => disable_task_steps(config@),
            Direction::Restore => enable_task_steps(config@),
        },
{
    let ghost segment = match direction {
        Direction::Disable => disable_task_steps(config@),
        Direction::Restore => enable_task_steps(config@),
    };
    let mut i: usize = 0;
    while i < config.tasks.len()
        invariant
            i <= config.tasks.len(),
            segment.len() == config.tasks.len(),
            segment == match direction {
                Direction::Disable => disable_task_steps(config@),
                Direction::Restore => enable_task_steps(config@),
            },
            step_views(steps@) == step_views(old(steps)@) + segment.take(i as int),
        decreases config.tasks.len() - i,
    {
        let ghost before = step_views(steps@);
        let (phase, enabled) = match direction {
            Direction::Disable => (Phase::DisableTasks, false),
            Direction::Restore => (Phase::EnableTasks, true),
        };
        push_single(
            steps,
            phase,
            Operation::SetTaskEnabled { task: config.tasks[i].path.clone(), enabled },
        );
        assert(step_views(steps@) == before.push(segment[i as int]));
        assert(segment.take(i + 1) =~= segment.take(i as int).push(segment[i as int]));
        i += 1;
    }
    assert(segment.take(i as int) =~= segment);
}

fn append_path_steps(steps: &mut Vec<Step>, config: &Config, direction: Direction)
    ensures
        step_views(final(steps)@) == step_views(old(steps)@) + match direction {
            Direction::Disable => corrupt_steps(config@),
            Direction::Restore => path_restore_steps(config@),
        },
{
    let ghost before = step_views(steps@);
    if config.corrupt_path {
        let (phase, path, mode) = match direction {
            Direction::Disable => (
                Phase::CorruptPath,
                config.corrupted_path.clone(),
                StartMode::Disabled,
            ),
            Direction::Restore => (
                Phase::RestorePath,
                config.genuine_path.clone(),
                StartMode::Demand,
            ),
        };
        push_single(
            steps,
            phase,
            Operation::WriteImagePath { service: config.primary_service.clone(), path },
        );
        push_single(
            steps,
            phase,
            Operation::WriteStartMode { service: config.primary_service.clone(), mode },
        );
    }
    assert(step_views(steps@) =~= before + match direction {
        Direction::Disable => corrupt_steps(config@),
        Direction::Restore => path_restore_steps(config@),
    });
}

fn append_policy_writes(steps: &mut Vec<Step>, config: &Config)
    ensures
        step_views(final(steps)@) == step_views(old(steps)@) + policy_write_steps(config@),
{
    let ghost before = step_views(steps@);
    let ghost segment = policy_write_steps(config@);
    push_single(
        steps,
        Phase::WritePolicy,
        Operation::WritePolicy {
            key_path: config.flag_key.clone(),
            value_name: config.flag_name.clone(),
            value: PolicyValue::Dword(1),
        },
    );
    assert(step_views(steps@) =~= before + segment.take(1));
    let mut i: usize = 0;
    while i < config.policies.len()
        invariant
            i <= config.policies.len(),
            segment == policy_write_steps(config@),
            segment.len() == config.policies.len() + 1,
            step_views(steps@) == before + segment.take(i + 1),
        decreases config.policies.len() - i,
    {
        let ghost sofar = step_views(steps@);
        push_single(
            steps,
            Phase::WritePolicy,
            Operation::WritePolicy {
                key_path: config.policies[i].key_path.clone(),
                value_name: config.policies[i].value_name.clone(),
                value: config.policies[i].value.duplicate(),
            },
        );
        assert(step_views(steps@) == sofar.push(segment[i + 1]));
        assert(segment.take(i + 2) =~= segment.take(i + 1).push(segment[i + 1]));
        i += 1;
    }
    assert(segment.take(i + 1) =~= segment);
}

fn append_policy_clears(steps: &mut Vec<Step>, config: &Config)
    ensures
        step_views(final(steps)@) == step_views(old(steps)@) + policy_clear_steps(config@),
{
    let ghost before = step_views(steps@);
    let ghost count = config.policies.len() + 1;
    let ghost segment = policy_clear_steps(config@);
    push_single(
        steps,
        Phase::ClearPolicy,
        Operation::WritePolicy {
            key_path: config.flag_key.clone(),
            value_name: config.flag_name.clone(),
            value: PolicyValue::Dword(0),
        },
    );
    assert(step_views(steps@) =~= before + segment.take(1));
    let mut i: usize = 0;
    while i < config.policies.len()
        invariant
            i <= config.policies.len(),
            segment == policy_clear_steps(config@),
            count == config.policies.len() + 1,
            segment.len() >= count,
            step_views(steps@) == before + segment.take(i + 1),
        decreases config.policies.len() - i,
    {
        let ghost sofar = step_views(steps@);
        push_single(
            steps,
            Phase::ClearPolicy,
            Operation::DeletePolicy {
                key_path: config.policies[i].key_path.clone(),
                value_name: config.policies[i].value_name.clone(),
            },
        );
        assert(step_views(steps@) == sofar.push(segment[i + 1]));
        assert(segment.take(i + 2) =~= segment.take(i + 1).push(segment[i + 1]));
        i += 1;
    }
    if config.purge_policy_root {
        let ghost sofar = step_views(steps@);
        push_single(
            steps,
            Phase::ClearPolicy,
            Operation::RemovePolicyTree { key_path: config.policy_root.clone() },
        );
        assert(step_views(steps@) == sofar.push(segment[count as int]));
        assert(segment =~= segment.take(count as int).push(segment[count as int]));
    } else {
        assert(segment.take(count as int) =~= segment);
    }
}

fn append_refreshes(steps: &mut Vec<Step>)
    ensures
        step_views(final(steps)@) == step_views(old(steps)@) + refresh_steps(),
{
    let ghost before = step_views(steps@);
    push_single(steps, Phase::RefreshPolicy, Operation::RefreshPolicy { scope: Scope::Machine });
    push_single(steps, Phase::RefreshPolicy, Operation::RefreshPolicy { scope: Scope::User });
    assert(step_views(steps@) =~= before + refresh_steps());
}

/// Lays out the steps of a toggle in the given direction.
pub fn plan(config: &Config, direction: Direction) -> (steps: Vec<Step>)
    ensures
        step_views(steps@) == plan_steps(config@, direction),
{
    let mut steps: Vec<Step> = Vec::new();
    assert(step_views(steps@) =~= Seq::<StepView>::empty());
    match direction {
        Direction::Disable => {
            append_stops(&mut steps, config);
            append_path_steps(&mut steps, config, Direction::Disable);
            append_policy_writes(&mut steps, config);
            append_service_modes(&mut steps, config, Direction::Disable);
            append_tasks(&mut steps, config, Direction::Disable);
            assert(step_views(steps@) =~= disable_steps(config@));
        },
        Direction::Restore => {
            append_policy_clears(&mut steps, config);
            append_path_steps(&mut steps, config, Direction::Restore);
            append_refreshes(&mut steps);
            append_service_modes(&mut steps, config, Direction::Restore);
            append_tasks(&mut steps, config, Direction::Restore);
            assert(step_views(steps@) =~= restore_steps(config@));
        },
    }
    steps
}

} // verus!
