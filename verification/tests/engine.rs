use noupdater::config::Config;
use noupdater::engine::Run;
use noupdater::model::{Direction, ScheduledTaskTarget, ServiceTarget, SignalSet, StartMode};
use noupdater::plan::{plan, Operation, Phase, Utility};

fn config(corrupt_path: bool) -> Config {
    Config {
        primary_service: "agent".to_string(),
        services: vec![ServiceTarget { name: "agent".to_string(), start_mode: StartMode::Demand }],
        tasks: vec![
            ScheduledTaskTarget { path: "\\Updates\\Scan".to_string() },
            ScheduledTaskTarget { path: "\\Updates\\Repair".to_string() },
        ],
        policy_root: "Policies\\Update".to_string(),
        flag_key: "Policies\\Update\\AU".to_string(),
        flag_name: "NoAutoUpdate".to_string(),
        policies: Vec::new(),
        purge_policy_root: false,
        corrupt_path,
        genuine_path: "svchost.exe -k netsvcs".to_string(),
        corrupted_path: "svchost.exe.off".to_string(),
        signals: SignalSet::all(),
    }
}

/// Drives a run to its end; `decide` says how each operation goes. Returns
/// the operations in the order in which they became due.
fn drive(run: &mut Run, decide: &dyn Fn(&Operation) -> bool) -> Vec<Operation> {
    let mut seen = Vec::new();
    let mut rounds = 0;
    while let Some(operation) = run.pending() {
        rounds += 1;
        assert!(rounds < 1000);
        let succeeded = decide(&operation);
        seen.push(operation);
        run.record(succeeded);
    }
    seen
}

fn primaries(config: &Config, direction: Direction) -> Vec<Operation> {
    plan(config, direction).into_iter().map(|step| step.primary).collect()
}

#[test]
fn a_run_offers_every_step_when_all_succeed() {
    let config = config(true);
    let mut run = Run::begin(&config, Direction::Disable);
    assert!(!run.is_finished());
    assert_eq!(run.verdict(), None);
    let seen = drive(&mut run, &|_| true);
    assert_eq!(seen, primaries(&config, Direction::Disable));
    assert!(run.is_finished());
    assert_eq!(run.pending(), None);
    assert_eq!(run.outcomes(), vec![true; 7]);
    assert_eq!(run.verdict(), Some(true));
    assert_eq!(run.direction(), Direction::Disable);
}

#[test]
fn a_run_goes_on_after_every_failure() {
    let config = config(true);
    let mut run = Run::begin(&config, Direction::Disable);
    let seen = drive(&mut run, &|_| false);
    // One service: its stop is attempted twice. Every other step once.
    assert_eq!(seen.len(), 8);
    assert_eq!(
        seen[1],
        Operation::StopService { service: "agent".to_string(), utility: Utility::LegacyService }
    );
    assert!(run.is_finished());
    assert_eq!(run.outcomes(), vec![false; 7]);
    assert_eq!(run.verdict(), Some(false));
}

#[test]
fn the_second_stop_attempt_is_made_only_after_a_failed_first() {
    let config = config(false);
    let legacy = |operation: &Operation| {
        matches!(operation, Operation::StopService { utility: Utility::LegacyService, .. })
    };
    let mut smooth = Run::begin(&config, Direction::Disable);
    let seen = drive(&mut smooth, &|_| true);
    assert!(!seen.iter().any(|operation| legacy(operation)));

    let mut rough = Run::begin(&config, Direction::Disable);
    let seen = drive(&mut rough, &|operation| {
        !matches!(operation, Operation::StopService { utility: Utility::ServiceControl, .. })
    });
    assert_eq!(seen.iter().filter(|operation| legacy(operation)).count(), 1);
    // The step counts as done: either utility is enough.
    assert_eq!(rough.outcomes()[0], true);
    assert!(rough.phase_succeeded(Phase::StopServices));
}

#[test]
fn a_stop_fails_only_if_both_utilities_fail() {
    let config = config(false);
    let mut run = Run::begin(&config, Direction::Disable);
    drive(&mut run, &|operation| !matches!(operation, Operation::StopService { .. }));
    assert_eq!(run.outcomes()[0], false);
    assert!(!run.phase_succeeded(Phase::StopServices));
    // Stopping has no say in the verdict.
    assert_eq!(run.verdict(), Some(true));
}

#[test]
fn recording_step_by_step_moves_the_cursor() {
    let config = config(false);
    let mut run = Run::begin(&config, Direction::Disable);
    let first = run.pending().unwrap();
    assert_eq!(
        first,
        Operation::StopService { service: "agent".to_string(), utility: Utility::ServiceControl }
    );
    // Asking again without recording gives the same operation.
    assert_eq!(run.pending().unwrap(), first);
    run.record(false);
    assert_eq!(run.outcomes(), Vec::<bool>::new());
    assert_eq!(
        run.pending().unwrap(),
        Operation::StopService { service: "agent".to_string(), utility: Utility::LegacyService }
    );
    run.record(true);
    assert_eq!(run.outcomes(), vec![true]);
    assert!(matches!(run.pending().unwrap(), Operation::WritePolicy { .. }));
    assert_eq!(run.verdict(), None);
}

#[test]
fn a_finished_run_ignores_further_outcomes() {
    let config = config(false);
    let mut run = Run::begin(&config, Direction::Restore);
    drive(&mut run, &|_| true);
    let outcomes = run.outcomes();
    run.record(false);
    run.record(true);
    assert_eq!(run.outcomes(), outcomes);
    assert_eq!(run.verdict(), Some(true));
    assert!(run.is_finished());
}

#[test]
fn disable_succeeds_if_either_mechanism_took_effect() {
    let config = config(true);
    let policy = |operation: &Operation| matches!(operation, Operation::WritePolicy { .. });
    let path = |operation: &Operation| {
        matches!(operation, Operation::WriteImagePath { .. } | Operation::WriteStartMode { .. })
    };
    let mut only_policy = Run::begin(&config, Direction::Disable);
    drive(&mut only_policy, &|operation| policy(operation));
    assert_eq!(only_policy.verdict(), Some(true));

    let mut only_path = Run::begin(&config, Direction::Disable);
    drive(&mut only_path, &|operation| path(operation));
    assert_eq!(only_path.verdict(), Some(true));

    let mut neither = Run::begin(&config, Direction::Disable);
    drive(&mut neither, &|operation| !policy(operation) && !path(operation));
    assert_eq!(neither.verdict(), Some(false));
}

#[test]
fn disable_without_path_corruption_rests_on_the_policy_alone() {
    let config = config(false);
    let mut run = Run::begin(&config, Direction::Disable);
    drive(&mut run, &|operation| !matches!(operation, Operation::WritePolicy { .. }));
    assert_eq!(run.verdict(), Some(false));
}

#[test]
fn a_half_corrupted_path_does_not_count() {
    let config = config(true);
    let mut run = Run::begin(&config, Direction::Disable);
    drive(&mut run, &|operation| matches!(operation, Operation::WriteImagePath { .. }));
    assert!(!run.phase_succeeded(Phase::CorruptPath));
    assert_eq!(run.verdict(), Some(false));
}

#[test]
fn restore_needs_both_policy_and_path() {
    let config = config(true);
    let policy = |operation: &Operation| {
        matches!(operation, Operation::WritePolicy { .. } | Operation::DeletePolicy { .. })
    };
    let path = |operation: &Operation| {
        matches!(operation, Operation::WriteImagePath { .. } | Operation::WriteStartMode { .. })
    };
    let mut both = Run::begin(&config, Direction::Restore);
    drive(&mut both, &|operation| policy(operation) || path(operation));
    assert_eq!(both.verdict(), Some(true));

    let mut only_policy = Run::begin(&config, Direction::Restore);
    drive(&mut only_policy, &|operation| policy(operation));
    assert_eq!(only_policy.verdict(), Some(false));

    let mut only_path = Run::begin(&config, Direction::Restore);
    drive(&mut only_path, &|operation| path(operation));
    assert_eq!(only_path.verdict(), Some(false));
}

#[test]
fn restore_without_path_corruption_needs_the_policy_alone() {
    let config = config(false);
    let mut run = Run::begin(&config, Direction::Restore);
    drive(&mut run, &|operation| matches!(operation, Operation::WritePolicy { .. }));
    assert_eq!(run.verdict(), Some(true));
}

#[test]
fn failing_tasks_leave_the_verdict_alone() {
    let config = config(true);
    let mut smooth = Run::begin(&config, Direction::Disable);
    drive(&mut smooth, &|_| true);
    let mut rough = Run::begin(&config, Direction::Disable);
    let seen = drive(&mut rough, &|operation| {
        !matches!(operation, Operation::SetTaskEnabled { .. })
    });
    // Both tasks were attempted although the first one failed.
    let attempted = seen
        .iter()
        .filter(|operation| matches!(operation, Operation::SetTaskEnabled { .. }))
        .count();
    assert_eq!(attempted, 2);
    assert!(!rough.phase_succeeded(Phase::DisableTasks));
    assert_eq!(rough.verdict(), smooth.verdict());
    assert_eq!(rough.verdict(), Some(true));
}

#[test]
fn refreshing_the_policy_succeeds_if_either_scope_does() {
    let config = config(false);
    let outcome = |machine: bool, user: bool| {
        let mut run = Run::begin(&config, Direction::Restore);
        drive(&mut run, &|operation| match operation {
            Operation::RefreshPolicy { scope } => match scope {
                noupdater::plan::Scope::Machine => machine,
                noupdater::plan::Scope::User => user,
            },
            _ => true,
        });
        run.phase_succeeded(Phase::RefreshPolicy)
    };
    assert!(outcome(true, true));
    assert!(outcome(true, false));
    assert!(outcome(false, true));
    assert!(!outcome(false, false));
}

#[test]
fn phases_line_up_with_outcomes() {
    let config = config(true);
    let mut run = Run::begin(&config, Direction::Disable);
    drive(&mut run, &|_| true);
    assert_eq!(
        run.phases(),
        vec![
            Phase::StopServices,
            Phase::CorruptPath,
            Phase::CorruptPath,
            Phase::WritePolicy,
            Phase::DisableServices,
            Phase::DisableTasks,
            Phase::DisableTasks,
        ]
    );
    assert_eq!(run.phases().len(), run.outcomes().len());
}

#[test]
fn a_phase_without_recorded_steps_holds_trivially() {
    let config = config(false);
    let run = Run::begin(&config, Direction::Disable);
    assert!(run.phase_succeeded(Phase::WritePolicy));
    assert!(run.phase_succeeded(Phase::CorruptPath));
    assert!(!run.phase_succeeded(Phase::RefreshPolicy));
}
