use noupdater::config::Config;
use noupdater::host::{disable, execute, restore, Denials, Host};
use noupdater::model::{Direction, MacroState, PolicyValue, SignalSet, StartMode};
use noupdater::plan::{Channel, Operation, Phase, Utility};
use noupdater::probe::Snapshot;
use noupdater::standard::standard;

const GENUINE: &str = "%systemroot%\\system32\\svchost.exe -k netsvcs -p";

fn healthy() -> Snapshot {
    Snapshot { policy_flag: None, image_path: Some(GENUINE.to_string()), start_value: Some(3) }
}

fn privileged() -> Host {
    Host::new(healthy())
}

fn unprivileged() -> Host {
    Host { readings: healthy(), denied: Denials::all(), refused: Vec::new() }
}

fn flag_write(config: &Config, number: u32) -> Operation {
    Operation::WritePolicy {
        key_path: config.flag_key.clone(),
        value_name: config.flag_name.clone(),
        value: PolicyValue::Dword(number),
    }
}

fn task_operations(config: &Config, enabled: bool) -> Vec<Operation> {
    config
        .tasks
        .iter()
        .map(|task| Operation::SetTaskEnabled { task: task.path.clone(), enabled })
        .collect()
}

fn subsets() -> Vec<SignalSet> {
    let mut sets = Vec::new();
    for policy_flag in [false, true] {
        for service_path in [false, true] {
            for start_mode in [false, true] {
                sets.push(SignalSet { policy_flag, service_path, start_mode });
            }
        }
    }
    sets
}

#[test]
fn disable_on_a_privileged_host_suppresses() {
    for corrupt_path in [false, true] {
        let config = standard(corrupt_path);
        let mut host = privileged();
        assert_eq!(host.probe(&config), MacroState::Active);
        assert!(disable(&config, &mut host));
        assert_eq!(host.probe(&config), MacroState::Suppressed);
        assert_eq!(host.readings.policy_flag, Some(1));
        assert_eq!(host.readings.start_value, Some(4));
        if corrupt_path {
            assert_eq!(host.readings.image_path, Some(config.corrupted_path.clone()));
        } else {
            assert_eq!(host.readings.image_path, Some(GENUINE.to_string()));
        }
    }
}

#[test]
fn disable_twice_is_disable_once() {
    for corrupt_path in [false, true] {
        let config = standard(corrupt_path);
        let mut host = privileged();
        let first = execute(&config, Direction::Disable, &mut host);
        assert_eq!(first.verdict(), Some(true));
        assert_eq!(host.probe(&config), MacroState::Suppressed);
        let once = host.clone();
        let second = execute(&config, Direction::Disable, &mut host);
        assert_eq!(second.verdict(), Some(true));
        assert_eq!(host.probe(&config), MacroState::Suppressed);
        // No step failed for having been applied before.
        assert_eq!(second.outcomes(), first.outcomes());
        assert!(second.outcomes().iter().all(|outcome| *outcome));
        assert_eq!(host, once);
    }
}

#[test]
fn disable_twice_with_partial_privilege_reports_the_same() {
    let config = standard(true);
    let mut host = privileged();
    host.denied.policy_registry = true;
    host.denied.task_scheduler = true;
    let first = execute(&config, Direction::Disable, &mut host);
    let once = host.clone();
    let second = execute(&config, Direction::Disable, &mut host);
    assert_eq!(first.verdict(), Some(true));
    assert_eq!(second.verdict(), Some(true));
    assert_eq!(second.outcomes(), first.outcomes());
    assert_eq!(host, once);
    assert_eq!(host.probe(&config), MacroState::Suppressed);
    assert_eq!(host.readings.policy_flag, None);
}

#[test]
fn round_trip_gives_an_active_host_for_every_set_of_signals() {
    for corrupt_path in [false, true] {
        for signals in subsets() {
            let mut config = standard(corrupt_path);
            config.signals = signals;
            let mut host = privileged();
            assert_eq!(host.probe(&config), MacroState::Active);
            disable(&config, &mut host);
            assert!(restore(&config, &mut host));
            assert_eq!(host.probe(&config), MacroState::Active);
        }
    }
}

#[test]
fn round_trip_puts_the_readings_back() {
    let config = standard(true);
    let mut host = privileged();
    disable(&config, &mut host);
    restore(&config, &mut host);
    assert_eq!(host.readings.policy_flag, Some(0));
    assert_eq!(host.readings.image_path, Some(GENUINE.to_string()));
    assert_eq!(host.readings.start_value, Some(3));
}

#[test]
fn round_trip_from_a_blank_host_is_active() {
    for corrupt_path in [false, true] {
        let config = standard(corrupt_path);
        let mut host = Host::new(Snapshot::blank());
        disable(&config, &mut host);
        assert_eq!(host.probe(&config), MacroState::Suppressed);
        assert!(restore(&config, &mut host));
        assert_eq!(host.probe(&config), MacroState::Active);
    }
}

#[test]
fn failing_tasks_do_not_change_the_result_of_disable() {
    for corrupt_path in [false, true] {
        let config = standard(corrupt_path);
        let mut smooth = privileged();
        let mut rough = privileged();
        rough.denied.task_scheduler = true;
        let smooth_run = execute(&config, Direction::Disable, &mut smooth);
        let rough_run = execute(&config, Direction::Disable, &mut rough);
        assert_eq!(rough_run.verdict(), Some(true));
        assert_eq!(rough_run.verdict(), smooth_run.verdict());
        assert_eq!(rough.readings, smooth.readings);
        assert!(!rough_run.phase_succeeded(Phase::DisableTasks));
        assert!(smooth_run.phase_succeeded(Phase::DisableTasks));
        // All ten tasks were attempted and all ten failed.
        let failed = rough_run.outcomes().iter().filter(|outcome| !**outcome).count();
        assert_eq!(failed, 10);
    }
}

#[test]
fn failing_tasks_do_not_rescue_a_failed_disable() {
    let config = standard(true);
    let mut host = unprivileged();
    host.denied.task_scheduler = false;
    assert!(!disable(&config, &mut host));
    assert_eq!(host.probe(&config), MacroState::Active);
}

#[test]
fn restore_without_any_policy_key_succeeds() {
    for corrupt_path in [false, true] {
        let config = standard(corrupt_path);
        let mut host = privileged();
        assert_eq!(host.readings.policy_flag, None);
        let run = execute(&config, Direction::Restore, &mut host);
        assert_eq!(run.verdict(), Some(true));
        assert!(run.outcomes().iter().all(|outcome| *outcome));
        assert!(run.phase_succeeded(Phase::ClearPolicy));
        assert_eq!(host.probe(&config), MacroState::Active);
    }
}

#[test]
fn deleting_what_is_absent_succeeds() {
    let config = standard(false);
    let mut host = Host::new(Snapshot::blank());
    let delete = Operation::DeletePolicy {
        key_path: config.flag_key.clone(),
        value_name: config.flag_name.clone(),
    };
    assert!(host.perform(&config, &delete));
    assert!(host.perform(&config, &delete));
    let remove = Operation::RemovePolicyTree { key_path: config.policy_root.clone() };
    assert!(host.perform(&config, &remove));
    assert_eq!(host.readings, Snapshot::blank());
}

#[test]
fn nothing_happens_without_privilege() {
    let config = standard(true);
    let mut host = unprivileged();
    let run = execute(&config, Direction::Disable, &mut host);
    assert_eq!(run.verdict(), Some(false));
    assert!(run.outcomes().iter().all(|outcome| !*outcome));
    assert_eq!(host.readings, healthy());
    assert_eq!(host.probe(&config), MacroState::Active);
    assert!(!restore(&config, &mut host));
}

#[test]
fn one_working_mechanism_is_enough_for_disable() {
    let config = standard(true);
    let mut policy_only = unprivileged();
    policy_only.denied.policy_registry = false;
    assert!(disable(&config, &mut policy_only));
    assert_eq!(policy_only.readings.policy_flag, Some(1));
    assert_eq!(policy_only.readings.image_path, Some(GENUINE.to_string()));
    assert_eq!(policy_only.probe(&config), MacroState::Suppressed);

    let mut path_only = unprivileged();
    path_only.denied.service_registry = false;
    assert!(disable(&config, &mut path_only));
    assert_eq!(path_only.readings.policy_flag, None);
    assert_eq!(path_only.readings.image_path, Some(config.corrupted_path.clone()));
    assert_eq!(path_only.readings.start_value, Some(4));
    assert_eq!(path_only.probe(&config), MacroState::Suppressed);
}

#[test]
fn a_restore_that_leaves_remnants_fails_and_shows_suppressed() {
    let config = standard(true);
    let mut host = privileged();
    disable(&config, &mut host);
    host.denied.service_registry = true;
    assert!(!restore(&config, &mut host));
    assert_eq!(host.readings.policy_flag, Some(0));
    assert_eq!(host.readings.image_path, Some(config.corrupted_path.clone()));
    assert_eq!(host.probe(&config), MacroState::Suppressed);
}

#[test]
fn a_probe_that_misses_the_path_can_show_active_after_a_successful_disable() {
    let mut config = standard(true);
    config.signals = SignalSet { policy_flag: true, service_path: false, start_mode: false };
    assert!(!config.probe_sees_mechanisms());
    let mut host = unprivileged();
    host.denied.service_registry = false;
    assert!(disable(&config, &mut host));
    assert_eq!(host.probe(&config), MacroState::Active);
}

#[test]
fn stopping_falls_back_to_the_legacy_utility() {
    let config = standard(false);
    let mut host = privileged();
    host.denied.service_control = true;
    let run = execute(&config, Direction::Disable, &mut host);
    assert!(run.phase_succeeded(Phase::StopServices));
    assert!(!run.phase_succeeded(Phase::DisableServices));
    assert_eq!(run.verdict(), Some(true));
    // The start mode was not reached: the utility that assigns it refused.
    assert_eq!(host.readings.start_value, Some(3));

    host.denied.legacy_service = true;
    let run = execute(&config, Direction::Disable, &mut host);
    assert!(!run.phase_succeeded(Phase::StopServices));
}

#[test]
fn operations_change_only_what_they_aim_at() {
    let config = standard(true);
    let mut host = privileged();
    let elsewhere = Operation::WritePolicy {
        key_path: config.policy_root.clone(),
        value_name: "NoAutoUpdate".to_string(),
        value: PolicyValue::Dword(1),
    };
    assert!(host.perform(&config, &elsewhere));
    assert_eq!(host.readings, healthy());
    let other_service = Operation::WriteStartMode {
        service: "BITS".to_string(),
        mode: StartMode::Disabled,
    };
    assert!(host.perform(&config, &other_service));
    assert_eq!(host.readings, healthy());
    let stop = Operation::StopService {
        service: "wuauserv".to_string(),
        utility: Utility::ServiceControl,
    };
    assert!(host.perform(&config, &stop));
    assert_eq!(host.readings, healthy());
    let flag = Operation::WritePolicy {
        key_path: config.flag_key.clone(),
        value_name: config.flag_name.clone(),
        value: PolicyValue::Dword(1),
    };
    assert!(host.perform(&config, &flag));
    assert_eq!(host.readings.policy_flag, Some(1));
    let configure = Operation::ConfigureStartMode {
        service: "wuauserv".to_string(),
        mode: StartMode::Auto,
    };
    assert!(host.perform(&config, &configure));
    assert_eq!(host.readings.start_value, Some(2));
}

#[test]
fn a_string_where_the_flag_is_reads_as_absent() {
    let config = standard(false);
    let mut host = privileged();
    host.readings.policy_flag = Some(1);
    let text = Operation::WritePolicy {
        key_path: config.flag_key.clone(),
        value_name: config.flag_name.clone(),
        value: PolicyValue::Text("1".to_string()),
    };
    assert!(host.perform(&config, &text));
    assert_eq!(host.readings.policy_flag, None);
}

#[test]
fn a_refused_operation_changes_nothing() {
    let config = standard(true);
    let mut host = unprivileged();
    let flag = Operation::WritePolicy {
        key_path: config.flag_key.clone(),
        value_name: config.flag_name.clone(),
        value: PolicyValue::Dword(1),
    };
    assert!(!host.perform(&config, &flag));
    assert_eq!(host.readings, healthy());
}

#[test]
fn purging_the_policy_root_removes_the_flag() {
    let mut config = standard(false);
    config.purge_policy_root = true;
    let mut host = privileged();
    disable(&config, &mut host);
    assert_eq!(host.readings.policy_flag, Some(1));
    assert!(restore(&config, &mut host));
    assert_eq!(host.readings.policy_flag, None);
    assert_eq!(host.probe(&config), MacroState::Active);
}

#[test]
fn purging_another_root_leaves_the_flag_zeroed() {
    let mut config = standard(false);
    config.purge_policy_root = true;
    config.policy_root = "SOFTWARE\\Policies\\Microsoft\\Windows\\Windows".to_string();
    let mut host = privileged();
    disable(&config, &mut host);
    assert!(restore(&config, &mut host));
    assert_eq!(host.readings.policy_flag, Some(0));
}

#[test]
fn denials_are_looked_up_by_channel() {
    let mut denied = Denials::none();
    for channel in [
        Channel::ServiceControl,
        Channel::LegacyService,
        Channel::TaskScheduler,
        Channel::PolicyRefresh,
        Channel::ServiceRegistry,
        Channel::PolicyRegistry,
    ] {
        assert!(!denied.is_denied(channel));
        assert!(Denials::all().is_denied(channel));
    }
    denied.policy_refresh = true;
    assert!(denied.is_denied(Channel::PolicyRefresh));
    assert!(!denied.is_denied(Channel::PolicyRegistry));
}

#[test]
fn a_toggle_keeps_the_denials() {
    let config: Config = standard(true);
    let mut host = privileged();
    host.denied.legacy_service = true;
    let denied = host.denied;
    disable(&config, &mut host);
    assert_eq!(host.denied, denied);
    restore(&config, &mut host);
    assert_eq!(host.denied, denied);
}

#[test]
fn a_single_failing_task_does_not_stop_the_others() {
    let config = standard(false);
    let mut host = privileged();
    host.refused.push(Operation::SetTaskEnabled {
        task: config.tasks[3].path.clone(),
        enabled: false,
    });
    let run = execute(&config, Direction::Disable, &mut host);
    let phases = run.phases();
    let outcomes = run.outcomes();
    let tasks: Vec<bool> = phases
        .iter()
        .zip(outcomes.iter())
        .filter(|(phase, _)| **phase == Phase::DisableTasks)
        .map(|(_, outcome)| *outcome)
        .collect();
    assert_eq!(
        tasks,
        vec![true, true, true, false, true, true, true, true, true, true]
    );
    assert!(!run.phase_succeeded(Phase::DisableTasks));
    assert_eq!(run.verdict(), Some(true));
    assert_eq!(host.probe(&config), MacroState::Suppressed);
}

#[test]
fn every_failing_task_leaves_the_result_of_disable_alone() {
    for corrupt_path in [false, true] {
        let config = standard(corrupt_path);
        let mut smooth = privileged();
        let mut rough = privileged();
        rough.refused = task_operations(&config, false);
        let smooth_run = execute(&config, Direction::Disable, &mut smooth);
        let rough_run = execute(&config, Direction::Disable, &mut rough);
        assert_eq!(rough_run.verdict(), smooth_run.verdict());
        assert_eq!(rough_run.verdict(), Some(true));
        assert_eq!(rough.readings, smooth.readings);
        assert_eq!(rough_run.outcomes().iter().filter(|outcome| !**outcome).count(), 10);
    }
}

#[test]
fn disable_survives_a_refused_flag_write_only_through_the_path() {
    let with_path = standard(true);
    let mut host = privileged();
    host.refused.push(flag_write(&with_path, 1));
    assert!(disable(&with_path, &mut host));
    assert_eq!(host.readings.policy_flag, None);
    assert_eq!(host.probe(&with_path), MacroState::Suppressed);

    let without_path = standard(false);
    let mut host = privileged();
    host.refused.push(flag_write(&without_path, 1));
    assert!(!disable(&without_path, &mut host));
    assert_eq!(host.readings.policy_flag, None);
}

#[test]
fn one_refused_policy_write_fails_the_policy_phase() {
    let config = standard(false);
    let mut host = privileged();
    host.refused.push(Operation::WritePolicy {
        key_path: config.policies[2].key_path.clone(),
        value_name: config.policies[2].value_name.clone(),
        value: config.policies[2].value.duplicate(),
    });
    let run = execute(&config, Direction::Disable, &mut host);
    assert!(!run.phase_succeeded(Phase::WritePolicy));
    assert_eq!(run.verdict(), Some(false));
    // The flag itself was written: the probe shows what took effect.
    assert_eq!(host.readings.policy_flag, Some(1));
    assert_eq!(host.probe(&config), MacroState::Suppressed);
}

#[test]
fn a_refusal_names_one_operation_exactly() {
    let config = standard(false);
    let mut host = privileged();
    host.refused.push(flag_write(&config, 1));
    assert!(!host.permits(&flag_write(&config, 1)));
    assert!(host.permits(&flag_write(&config, 0)));
    assert!(host.permits(&Operation::DeletePolicy {
        key_path: config.flag_key.clone(),
        value_name: config.flag_name.clone(),
    }));
    assert!(!host.perform(&config, &flag_write(&config, 1)));
    assert_eq!(host.readings, healthy());
    assert!(host.perform(&config, &flag_write(&config, 0)));
    assert_eq!(host.readings.policy_flag, Some(0));
    host.denied.policy_registry = true;
    assert!(!host.permits(&flag_write(&config, 0)));
}

#[test]
fn a_restore_that_cannot_reset_the_service_leaves_it_disabled() {
    let mut config = standard(false);
    config.signals = SignalSet::all();
    let mut host = privileged();
    disable(&config, &mut host);
    assert_eq!(host.readings.start_value, Some(4));
    host.refused.push(Operation::ConfigureStartMode {
        service: "wuauserv".to_string(),
        mode: StartMode::Demand,
    });
    let run = execute(&config, Direction::Restore, &mut host);
    // The policy is cleared, so the restore reports success, but the
    // service could not be reset and the probe still finds a remnant.
    assert_eq!(run.verdict(), Some(true));
    assert!(!run.phase_succeeded(Phase::ResetServices));
    assert_eq!(host.readings.start_value, Some(4));
    assert_eq!(host.probe(&config), MacroState::Suppressed);
}

#[test]
fn round_trip_with_failing_tasks_and_refreshes_is_still_active() {
    for signals in subsets() {
        let mut config = standard(true);
        config.signals = signals;
        let mut host = privileged();
        host.denied.task_scheduler = true;
        host.denied.policy_refresh = true;
        host.denied.legacy_service = true;
        disable(&config, &mut host);
        let run = execute(&config, Direction::Restore, &mut host);
        assert_eq!(run.verdict(), Some(true));
        assert!(run.phase_succeeded(Phase::ResetServices));
        assert_eq!(host.probe(&config), MacroState::Active);
    }
}

#[test]
fn same_operations_are_recognised() {
    let config = standard(true);
    for direction in [Direction::Disable, Direction::Restore] {
        let steps = noupdater::plan::plan(&config, direction);
        for (i, first) in steps.iter().enumerate() {
            for (j, second) in steps.iter().enumerate() {
                assert_eq!(
                    first.primary.same_as(&second.primary),
                    first.primary == second.primary,
                    "steps {} and {}",
                    i,
                    j
                );
            }
        }
    }
    assert!(PolicyValue::Dword(1).same_as(&PolicyValue::Dword(1)));
    assert!(!PolicyValue::Dword(1).same_as(&PolicyValue::Dword(0)));
    assert!(!PolicyValue::Dword(1).same_as(&PolicyValue::Text("1".to_string())));
    assert!(PolicyValue::Text("a".to_string()).same_as(&PolicyValue::Text("a".to_string())));
    assert!(!PolicyValue::Text("a".to_string()).same_as(&PolicyValue::Text("b".to_string())));
}
