use noupdater::config::Config;
use noupdater::model::{
    Direction, PolicySetting, PolicyValue, ScheduledTaskTarget, ServiceTarget, SignalSet,
    StartMode, ValueKind,
};
use noupdater::plan::{plan, Channel, Operation, Phase, Scope, Step, Utility};
use noupdater::standard::standard;

fn small(corrupt_path: bool, purge_policy_root: bool) -> Config {
    Config {
        primary_service: "agent".to_string(),
        services: vec![
            ServiceTarget { name: "agent".to_string(), start_mode: StartMode::Demand },
            ServiceTarget { name: "delivery".to_string(), start_mode: StartMode::Auto },
        ],
        tasks: vec![
            ScheduledTaskTarget { path: "\\Updates\\Scan".to_string() },
            ScheduledTaskTarget { path: "\\Updates\\Repair".to_string() },
        ],
        policy_root: "Policies\\Update".to_string(),
        flag_key: "Policies\\Update\\AU".to_string(),
        flag_name: "NoAutoUpdate".to_string(),
        policies: vec![
            PolicySetting {
                key_path: "Policies\\Update".to_string(),
                value_name: "Server".to_string(),
                value: PolicyValue::Text("http://127.0.0.1".to_string()),
            },
            PolicySetting {
                key_path: "Policies\\Update".to_string(),
                value_name: "BlockInternet".to_string(),
                value: PolicyValue::Dword(1),
            },
        ],
        purge_policy_root,
        corrupt_path,
        genuine_path: "svchost.exe -k netsvcs".to_string(),
        corrupted_path: "svchost.exe.off".to_string(),
        signals: SignalSet::all(),
    }
}

fn single(phase: Phase, primary: Operation) -> Step {
    Step { phase, primary, fallback: None }
}

fn stop(service: &str) -> Step {
    Step {
        phase: Phase::StopServices,
        primary: Operation::StopService {
            service: service.to_string(),
            utility: Utility::ServiceControl,
        },
        fallback: Some(Operation::StopService {
            service: service.to_string(),
            utility: Utility::LegacyService,
        }),
    }
}

fn write_policy(phase: Phase, key: &str, name: &str, value: PolicyValue) -> Step {
    single(
        phase,
        Operation::WritePolicy {
            key_path: key.to_string(),
            value_name: name.to_string(),
            value,
        },
    )
}

fn delete_policy(key: &str, name: &str) -> Step {
    single(
        Phase::ClearPolicy,
        Operation::DeletePolicy { key_path: key.to_string(), value_name: name.to_string() },
    )
}

fn configure(phase: Phase, service: &str, mode: StartMode) -> Step {
    single(phase, Operation::ConfigureStartMode { service: service.to_string(), mode })
}

fn task(phase: Phase, path: &str, enabled: bool) -> Step {
    single(phase, Operation::SetTaskEnabled { task: path.to_string(), enabled })
}

#[test]
fn disable_plan_has_five_phases_in_order() {
    let steps = plan(&small(true, false), Direction::Disable);
    let expected = vec![
        stop("agent"),
        stop("delivery"),
        single(
            Phase::CorruptPath,
            Operation::WriteImagePath {
                service: "agent".to_string(),
                path: "svchost.exe.off".to_string(),
            },
        ),
        single(
            Phase::CorruptPath,
            Operation::WriteStartMode { service: "agent".to_string(), mode: StartMode::Disabled },
        ),
        write_policy(Phase::WritePolicy, "Policies\\Update\\AU", "NoAutoUpdate", PolicyValue::Dword(1)),
        write_policy(
            Phase::WritePolicy,
            "Policies\\Update",
            "Server",
            PolicyValue::Text("http://127.0.0.1".to_string()),
        ),
        write_policy(Phase::WritePolicy, "Policies\\Update", "BlockInternet", PolicyValue::Dword(1)),
        configure(Phase::DisableServices, "agent", StartMode::Disabled),
        configure(Phase::DisableServices, "delivery", StartMode::Disabled),
        task(Phase::DisableTasks, "\\Updates\\Scan", false),
        task(Phase::DisableTasks, "\\Updates\\Repair", false),
    ];
    assert_eq!(steps, expected);
}

#[test]
fn disable_plan_without_path_corruption_leaves_that_phase_out() {
    let steps = plan(&small(false, false), Direction::Disable);
    assert_eq!(steps.len(), 9);
    assert!(steps.iter().all(|step| step.phase != Phase::CorruptPath));
    assert_eq!(steps[2].phase, Phase::WritePolicy);
}

#[test]
fn restore_plan_has_five_phases_in_order() {
    let steps = plan(&small(true, true), Direction::Restore);
    let expected = vec![
        write_policy(Phase::ClearPolicy, "Policies\\Update\\AU", "NoAutoUpdate", PolicyValue::Dword(0)),
        delete_policy("Policies\\Update", "Server"),
        delete_policy("Policies\\Update", "BlockInternet"),
        single(
            Phase::ClearPolicy,
            Operation::RemovePolicyTree { key_path: "Policies\\Update".to_string() },
        ),
        single(
            Phase::RestorePath,
            Operation::WriteImagePath {
                service: "agent".to_string(),
                path: "svchost.exe -k netsvcs".to_string(),
            },
        ),
        single(
            Phase::RestorePath,
            Operation::WriteStartMode { service: "agent".to_string(), mode: StartMode::Demand },
        ),
        single(Phase::RefreshPolicy, Operation::RefreshPolicy { scope: Scope::Machine }),
        single(Phase::RefreshPolicy, Operation::RefreshPolicy { scope: Scope::User }),
        configure(Phase::ResetServices, "agent", StartMode::Demand),
        configure(Phase::ResetServices, "delivery", StartMode::Auto),
        task(Phase::EnableTasks, "\\Updates\\Scan", true),
        task(Phase::EnableTasks, "\\Updates\\Repair", true),
    ];
    assert_eq!(steps, expected);
}

#[test]
fn restore_plan_without_purge_or_path_is_shorter() {
    let steps = plan(&small(false, false), Direction::Restore);
    assert_eq!(steps.len(), 9);
    assert!(steps.iter().all(|step| step.phase != Phase::RestorePath));
    assert!(steps
        .iter()
        .all(|step| !matches!(step.primary, Operation::RemovePolicyTree { .. })));
}

#[test]
fn empty_rosters_still_write_and_clear_the_flag() {
    let mut config = small(false, false);
    config.services = Vec::new();
    config.tasks = Vec::new();
    config.policies = Vec::new();
    let disable = plan(&config, Direction::Disable);
    assert_eq!(
        disable,
        vec![write_policy(
            Phase::WritePolicy,
            "Policies\\Update\\AU",
            "NoAutoUpdate",
            PolicyValue::Dword(1)
        )]
    );
    let restore = plan(&config, Direction::Restore);
    assert_eq!(restore.len(), 3);
    assert_eq!(
        restore[0],
        write_policy(Phase::ClearPolicy, "Policies\\Update\\AU", "NoAutoUpdate", PolicyValue::Dword(0))
    );
}

#[test]
fn standard_plans_cover_the_whole_rosters() {
    let config = standard(true);
    let disable = plan(&config, Direction::Disable);
    let count = |steps: &Vec<Step>, phase: Phase| steps.iter().filter(|s| s.phase == phase).count();
    assert_eq!(count(&disable, Phase::StopServices), 5);
    assert_eq!(count(&disable, Phase::CorruptPath), 2);
    assert_eq!(count(&disable, Phase::WritePolicy), 7);
    assert_eq!(count(&disable, Phase::DisableServices), 5);
    assert_eq!(count(&disable, Phase::DisableTasks), 10);
    assert_eq!(disable.len(), 29);
    let restore = plan(&config, Direction::Restore);
    assert_eq!(count(&restore, Phase::ClearPolicy), 7);
    assert_eq!(count(&restore, Phase::RestorePath), 2);
    assert_eq!(count(&restore, Phase::RefreshPolicy), 2);
    assert_eq!(count(&restore, Phase::ResetServices), 5);
    assert_eq!(count(&restore, Phase::EnableTasks), 10);
    assert_eq!(restore.len(), 26);
    assert_eq!(
        restore[restore.len() - 11],
        configure(Phase::ResetServices, "DoSvc", StartMode::Auto)
    );
}

#[test]
fn only_stopping_a_service_has_a_second_attempt() {
    for direction in [Direction::Disable, Direction::Restore] {
        for step in plan(&standard(true), direction) {
            assert_eq!(step.fallback.is_some(), step.phase == Phase::StopServices);
        }
    }
}

#[test]
fn operations_go_through_their_own_channel() {
    let stop_first = Operation::StopService {
        service: "agent".to_string(),
        utility: Utility::ServiceControl,
    };
    let stop_second = Operation::StopService {
        service: "agent".to_string(),
        utility: Utility::LegacyService,
    };
    assert_eq!(stop_first.channel(), Channel::ServiceControl);
    assert_eq!(stop_second.channel(), Channel::LegacyService);
    assert_eq!(
        Operation::ConfigureStartMode { service: "a".to_string(), mode: StartMode::Auto }.channel(),
        Channel::ServiceControl
    );
    assert_eq!(
        Operation::SetTaskEnabled { task: "t".to_string(), enabled: true }.channel(),
        Channel::TaskScheduler
    );
    assert_eq!(
        Operation::RefreshPolicy { scope: Scope::User }.channel(),
        Channel::PolicyRefresh
    );
    assert_eq!(
        Operation::WriteImagePath { service: "a".to_string(), path: "p".to_string() }.channel(),
        Channel::ServiceRegistry
    );
    assert_eq!(
        Operation::WriteStartMode { service: "a".to_string(), mode: StartMode::Demand }.channel(),
        Channel::ServiceRegistry
    );
    assert_eq!(
        Operation::WritePolicy {
            key_path: "k".to_string(),
            value_name: "n".to_string(),
            value: PolicyValue::Dword(1)
        }
        .channel(),
        Channel::PolicyRegistry
    );
    assert_eq!(
        Operation::DeletePolicy { key_path: "k".to_string(), value_name: "n".to_string() }
            .channel(),
        Channel::PolicyRegistry
    );
    assert_eq!(
        Operation::RemovePolicyTree { key_path: "k".to_string() }.channel(),
        Channel::PolicyRegistry
    );
}

#[test]
fn an_operation_is_duplicated_as_it_is() {
    for direction in [Direction::Disable, Direction::Restore] {
        for step in plan(&small(true, true), direction) {
            assert_eq!(step.primary.duplicate(), step.primary);
        }
    }
}

#[test]
fn start_modes_have_the_codes_of_the_service_entry() {
    assert_eq!(StartMode::Auto.code(), 2);
    assert_eq!(StartMode::Demand.code(), 3);
    assert_eq!(StartMode::Disabled.code(), 4);
    assert_eq!(StartMode::from_code(2), Some(StartMode::Auto));
    assert_eq!(StartMode::from_code(3), Some(StartMode::Demand));
    assert_eq!(StartMode::from_code(4), Some(StartMode::Disabled));
    assert_eq!(StartMode::from_code(0), None);
    assert_eq!(StartMode::from_code(1), None);
    assert_eq!(StartMode::from_code(5), None);
    assert_eq!(StartMode::from_code(u32::MAX), None);
}

#[test]
fn policy_values_know_their_kind() {
    let number = PolicyValue::Dword(7);
    let text = PolicyValue::Text("seven".to_string());
    assert_eq!(number.kind(), ValueKind::Dword);
    assert_eq!(text.kind(), ValueKind::Text);
    assert_eq!(number.as_dword(), Some(7));
    assert_eq!(text.as_dword(), None);
    assert_eq!(number.duplicate(), number);
    assert_eq!(text.duplicate(), text);
    let setting = PolicySetting {
        key_path: "k".to_string(),
        value_name: "n".to_string(),
        value: text,
    };
    assert_eq!(setting.kind(), ValueKind::Text);
}
