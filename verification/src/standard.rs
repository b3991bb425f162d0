//! The configuration for a stock host: the five services that deliver
//! updates, the ten scheduled tasks that scan for them and repair the
//! update agent, and the policy values that switch automatic updates off
//! and point the update client at the loopback address.

use vstd::prelude::*;
use vstd::string::*;
use crate::config::{Config, ConfigView};
use crate::model::{
    PolicySetting, PolicySettingView, PolicyValue, PolicyValueView, ScheduledTaskTarget,
    ScheduledTaskTargetView, ServiceTarget, ServiceTargetView, SignalSet, StartMode,
};

verus! {

pub open spec fn service_of(name: Seq<char>, start_mode: StartMode) -> ServiceTargetView {
    ServiceTargetView { name, start_mode }
}

pub open spec fn task_of(path: Seq<char>) -> ScheduledTaskTargetView {
    ScheduledTaskTargetView { path }
}

pub open spec fn number_at(key_path: Seq<char>, value_name: Seq<char>, number: u32) -> PolicySettingView {
    PolicySettingView { key_path, value_name, value: PolicyValueView::Dword(number) }
}

pub open spec fn text_at(key_path: Seq<char>, value_name: Seq<char>, text: Seq<char>) -> PolicySettingView {
    PolicySettingView { key_path, value_name, value: PolicyValueView::Text(text) }
}

/// The update agent, the update orchestrator, the remediation agent, the
/// background transfer service and the delivery-optimization service. Only
/// the last one starts by itself on a healthy host.
pub open spec fn standard_services() -> Seq<ServiceTargetView> {
    seq![
        service_of("wuauserv"@, StartMode::Demand),
        service_of("UsoSvc"@, StartMode::Demand),
        service_of("WaaSMedicSvc"@, StartMode::Demand),
        service_of("BITS"@, StartMode::Demand),
        service_of("DoSvc"@, StartMode::Auto),
    ]
}

pub open spec fn standard_tasks() -> Seq<ScheduledTaskTargetView> {
    seq![
        task_of("\\Microsoft\\Windows\\UpdateOrchestrator\\Schedule Scan"@),
        task_of("\\Microsoft\\Windows\\UpdateOrchestrator\\Schedule Scan Static Task"@),
        task_of("\\Microsoft\\Windows\\UpdateOrchestrator\\Schedule Work"@),
        task_of("\\Microsoft\\Windows\\UpdateOrchestrator\\Schedule Maintenance Work"@),
        task_of("\\Microsoft\\Windows\\UpdateOrchestrator\\Schedule Wake To Work"@),
        task_of("\\Microsoft\\Windows\\UpdateOrchestrator\\USO_UxBroker"@),
        task_of("\\Microsoft\\Windows\\UpdateOrchestrator\\UpdateModelTask"@),
        task_of("\\Microsoft\\Windows\\UpdateOrchestrator\\Report policies"@),
        task_of("\\Microsoft\\Windows\\WindowsUpdate\\Scheduled Start"@),
        task_of("\\Microsoft\\Windows\\WaaSMedic\\PerformRemediation"@),
    ]
}

/// The policy values besides the no-automatic-update flag: the redirection
/// of the update client to the loopback address, the block on internet
/// update locations and the switch that turns dual scan off.
pub open spec fn standard_policies() -> Seq<PolicySettingView> {
    seq![
        number_at("SOFTWARE\\Policies\\Microsoft\\Windows\\WindowsUpdate\\AU"@, "UseWUServer"@, 1),
        text_at(
            "SOFTWARE\\Policies\\Microsoft\\Windows\\WindowsUpdate"@,
            "WUServer"@,
            "http://127.0.0.1"@,
        ),
        text_at(
            "SOFTWARE\\Policies\\Microsoft\\Windows\\WindowsUpdate"@,
            "WUStatusServer"@,
            "http://127.0.0.1"@,
        ),
        text_at(
            "SOFTWARE\\Policies\\Microsoft\\Windows\\WindowsUpdate"@,
            "UpdateServiceUrlAlternate"@,
            "http://127.0.0.1"@,
        ),
        number_at(
            "SOFTWARE\\Policies\\Microsoft\\Windows\\WindowsUpdate"@,
            "DoNotConnectToWindowsUpdateInternetLocations"@,
            1,
        ),
        number_at("SOFTWARE\\Policies\\Microsoft\\Windows\\WindowsUpdate"@, "DisableDualScan"@, 1),
    ]
}

/// The standard configuration, with or without the corruption of the
/// update agent's executable path as a second mechanism. With it, the probe
/// also consults the path and the start mode; without it, the policy flag
/// alone.
pub open spec fn standard_config(corrupt_path: bool) -> ConfigView {
    ConfigView {
        primary_service: "wuauserv"@,
        services: standard_services(),
        tasks: standard_tasks(),
        policy_root: "SOFTWARE\\Policies\\Microsoft\\Windows\\WindowsUpdate"@,
        flag_key: "SOFTWARE\\Policies\\Microsoft\\Windows\\WindowsUpdate\\AU"@,
        flag_name: "NoAutoUpdate"@,
        policies: standard_policies(),
        purge_policy_root: false,
        corrupt_path,
        genuine_path: "%systemroot%\\system32\\svchost.exe -k netsvcs -p"@,
        corrupted_path: "%systemroot%\\system32\\svchost.exe.disabled -k netsvcs -p"@,
        signals: SignalSet {
            policy_flag: true,
            service_path: corrupt_path,
            start_mode: corrupt_path,
        },
    }
}

/// The standard configuration is coherent, and its probe consults every
/// mechanism that makes a disable succeed.
pub proof fn lemma_standard_is_sound(corrupt_path: bool)
    ensures
        standard_config(corrupt_path).coherent(),
        standard_config(corrupt_path).probe_sees_mechanisms(),
{
    reveal_strlit("%systemroot%\\system32\\svchost.exe -k netsvcs -p");
    reveal_strlit("%systemroot%\\system32\\svchost.exe.disabled -k netsvcs -p");
    reveal_strlit("SOFTWARE\\Policies\\Microsoft\\Windows\\WindowsUpdate");
    reveal_strlit("SOFTWARE\\Policies\\Microsoft\\Windows\\WindowsUpdate\\AU");
    reveal_strlit("NoAutoUpdate");
    reveal_strlit("UseWUServer");
    let config = standard_config(corrupt_path);
    assert(config.genuine_path.len() != config.corrupted_path.len());
    assert("UseWUServer"@.len() != "NoAutoUpdate"@.len());
    assert("SOFTWARE\\Policies\\Microsoft\\Windows\\WindowsUpdate"@.len()
        != "SOFTWARE\\Policies\\Microsoft\\Windows\\WindowsUpdate\\AU"@.len());
    assert forall|i: int| 0 <= i < config.policies.len() implies !config.is_flag(
        #[trigger] config.policies[i].key_path,
        config.policies[i].value_name,
    ) by {
        if i == 0 {
        } else if i == 1 {
        } else if i == 2 {
        } else if i == 3 {
        } else if i == 4 {
        } else {
        }
    }
    assert forall|i: int|
        0 <= i < config.services.len() && config.is_primary(
            #[trigger] config.services[i].name,
        ) implies config.services[i].start_mode != StartMode::Disabled by {
        if i == 0 {
        } else if i == 1 {
        } else if i == 2 {
        } else if i == 3 {
        } else {
        }
    }
}

fn service(name: &str, start_mode: StartMode) -> (target: ServiceTarget)
    ensures
        target@ == service_of(name@, start_mode),
{
    ServiceTarget { name: String::from_str(name), start_mode }
}

fn task(path: &str) -> (target: ScheduledTaskTarget)
    ensures
        target@ == task_of(path@),
{
    ScheduledTaskTarget { path: String::from_str(path) }
}

fn number(key_path: &str, value_name: &str, value: u32) -> (setting: PolicySetting)
    ensures
        setting@ == number_at(key_path@, value_name@, value),
{
    PolicySetting {
        key_path: String::from_str(key_path),
        value_name: String::from_str(value_name),
        value: PolicyValue::Dword(value),
    }
}

fn text(key_path: &str, value_name: &str, value: &str) -> (setting: PolicySetting)
    ensures
        setting@ == text_at(key_path@, value_name@, value@),
{
    PolicySetting {
        key_path: String::from_str(key_path),
        value_name: String::from_str(value_name),
        value: PolicyValue::Text(String::from_str(value)),
    }
}

fn services() -> (roster: Vec<ServiceTarget>)
    ensures
        roster@.map_values(|s: ServiceTarget| s@) == standard_services(),
{
    let mut roster: Vec<ServiceTarget> = Vec::new();
    roster.push(service("wuauserv", StartMode::Demand));
    roster.push(service("UsoSvc", StartMode::Demand));
    roster.push(service("WaaSMedicSvc", StartMode::Demand));
    roster.push(service("BITS", StartMode::Demand));
    roster.push(service("DoSvc", StartMode::Auto));
    assert(roster@.map_values(|s: ServiceTarget| s@) =~= standard_services());
    roster
}

fn tasks() -> (roster: Vec<ScheduledTaskTarget>)
    ensures
        roster@.map_values(|t: ScheduledTaskTarget| t@) == standard_tasks(),
{
    let mut roster: Vec<ScheduledTaskTarget> = Vec::new();
    roster.push(task("\\Microsoft\\Windows\\UpdateOrchestrator\\Schedule Scan"));
    roster.push(task("\\Microsoft\\Windows\\UpdateOrchestrator\\Schedule Scan Static Task"));
    roster.push(task("\\Microsoft\\Windows\\UpdateOrchestrator\\Schedule Work"));
    roster.push(task("\\Microsoft\\Windows\\UpdateOrchestrator\\Schedule Maintenance Work"));
    roster.push(task("\\Microsoft\\Windows\\UpdateOrchestrator\\Schedule Wake To Work"));
    roster.push(task("\\Microsoft\\Windows\\UpdateOrchestrator\\USO_UxBroker"));
    roster.push(task("\\Microsoft\\Windows\\UpdateOrchestrator\\UpdateModelTask"));
    roster.push(task("\\Microsoft\\Windows\\UpdateOrchestrator\\Report policies"));
    roster.push(task("\\Microsoft\\Windows\\WindowsUpdate\\Scheduled Start"));
    roster.push(task("\\Microsoft\\Windows\\WaaSMedic\\PerformRemediation"));
    assert(roster@.map_values(|t: ScheduledTaskTarget| t@) =~= standard_tasks());
    roster
}

fn policies() -> (roster: Vec<PolicySetting>)
    ensures
        roster@.map_values(|p: PolicySetting| p@) == standard_policies(),
{
    let mut roster: Vec<PolicySetting> = Vec::new();
    roster.push(number("SOFTWARE\\Policies\\Microsoft\\Windows\\WindowsUpdate\\AU", "UseWUServer", 1));
    roster.push(
        text("SOFTWARE\\Policies\\Microsoft\\Windows\\WindowsUpdate", "WUServer", "http://127.0.0.1"),
    );
    roster.push(
        text(
            "SOFTWARE\\Policies\\Microsoft\\Windows\\WindowsUpdate",
            "WUStatusServer",
            "http://127.0.0.1",
        ),
    );
    roster.push(
        text(
            "SOFTWARE\\Policies\\Microsoft\\Windows\\WindowsUpdate",
            "UpdateServiceUrlAlternate",
            "http://127.0.0.1",
        ),
    );
    roster.push(
        number(
            "SOFTWARE\\Policies\\Microsoft\\Windows\\WindowsUpdate",
            "DoNotConnectToWindowsUpdateInternetLocations",
            1,
        ),
    );
    roster.push(number("SOFTWARE\\Policies\\Microsoft\\Windows\\WindowsUpdate", "DisableDualScan", 1));
    assert(roster@.map_values(|p: PolicySetting| p@) =~= standard_policies());
    roster
}

/// Builds the standard configuration.
pub fn standard(corrupt_path: bool) -> (config: Config)
    ensures
        config@ == standard_config(corrupt_path),
        config@.coherent(),
        config@.probe_sees_mechanisms(),
{
    proof {
        lemma_standard_is_sound(corrupt_path);
    }
    Config {
        primary_service: String::from_str("wuauserv"),
        services: services(),
        tasks: tasks(),
        policy_root: String::from_str("SOFTWARE\\Policies\\Microsoft\\Windows\\WindowsUpdate"),
        flag_key: String::from_str("SOFTWARE\\Policies\\Microsoft\\Windows\\WindowsUpdate\\AU"),
        flag_name: String::from_str("NoAutoUpdate"),
        policies: policies(),
        purge_policy_root: false,
        corrupt_path,
        genuine_path: String::from_str("%systemroot%\\system32\\svchost.exe -k netsvcs -p"),
        corrupted_path: String::from_str(
            "%systemroot%\\system32\\svchost.exe.disabled -k netsvcs -p",
        ),
        signals: SignalSet {
            policy_flag: true,
            service_path: corrupt_path,
            start_mode: corrupt_path,
        },
    }
}

} // verus!
