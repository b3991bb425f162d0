//! The immutable configuration that is handed to the probe and to the
//! orchestrators: the rosters, the registry locations and the mechanisms in
//! use.

use vstd::prelude::*;
use vstd::string::*;
use crate::model::{
    PolicySetting, PolicySettingView, ScheduledTaskTarget, ScheduledTaskTargetView, ServiceTarget,
    ServiceTargetView, SignalSet, StartMode,
};

verus! {

/// Everything the engine knows about the host it controls.
#[derive(Clone, Debug, PartialEq, Eq)]
pub struct Config {
    /// The name of the primary update service, whose control entry carries
    /// the executable path and the start mode that the probe reads.
    pub primary_service: String,
    /// The services that a disable stops and disables.
    pub services: Vec<ServiceTarget>,
    /// The scheduled tasks that a disable switches off.
    pub tasks: Vec<ScheduledTaskTarget>,
    /// The key under which all update policy is stored.
    pub policy_root: String,
    /// The key that holds the no-automatic-update flag.
    pub flag_key: String,
    /// The value name of the no-automatic-update flag.
    pub flag_name: String,
    /// The further policy values that a disable writes and a restore deletes.
    pub policies: Vec<PolicySetting>,
    /// Whether a restore also removes the whole policy root.
    pub purge_policy_root: bool,
    /// Whether the executable path of the primary service is corrupted as a
    /// second suppression mechanism.
    pub corrupt_path: bool,
    /// The executable path of the primary service on a healthy host.
    pub genuine_path: String,
    /// The invalid executable path that stands for the corruption.
    pub corrupted_path: String,
    /// The signals that the probe consults.
    pub signals: SignalSet,
}

pub struct ConfigView {
    pub primary_service: Seq<char>,
    pub services: Seq<ServiceTargetView>,
    pub tasks: Seq<ScheduledTaskTargetView>,
    pub policy_root: Seq<char>,
    pub flag_key: Seq<char>,
    pub flag_name: Seq<char>,
    pub policies: Seq<PolicySettingView>,
    pub purge_policy_root: bool,
    pub corrupt_path: bool,
    pub genuine_path: Seq<char>,
    pub corrupted_path: Seq<char>,
    pub signals: SignalSet,
}

impl View for Config {
    type V = ConfigView;

    open spec fn view(&self) -> ConfigView {
        ConfigView {
            primary_service: self.primary_service@,
            services: self.services@.map_values(|s: ServiceTarget| s@),
            tasks: self.tasks@.map_values(|t: ScheduledTaskTarget| t@),
            policy_root: self.policy_root@,
            flag_key: self.flag_key@,
            flag_name: self.flag_name@,
            policies: self.policies@.map_values(|p: PolicySetting| p@),
            purge_policy_root: self.purge_policy_root,
            corrupt_path: self.corrupt_path,
            genuine_path: self.genuine_path@,
            corrupted_path: self.corrupted_path@,
            signals: self.signals,
        }
    }
}

/// Whether `key` names the key `root` or a key below it. Levels of a key path
/// are separated by a backslash.
pub open spec fn key_within(key: Seq<char>, root: Seq<char>) -> bool {
    key == root || (key.len() > root.len() && key.subrange(0, root.len() as int) == root
        && key[root.len() as int] == '\\')
}

pub fn key_is_within(key: &String, root: &String) -> (within: bool)
    ensures
        within == key_within(key@, root@),
{
    let key_len: usize = key.as_str().unicode_len();
    let root_len: usize = root.as_str().unicode_len();
    if key_len <= root_len {
        *key == *root
    } else {
        let head = String::from_str(key.as_str().substring_char(0, root_len));
        let separator = key.as_str().get_char(root_len);
        head == *root && separator == '\\'
    }
}

impl ConfigView {
    /// Whether a registry location is that of the no-automatic-update flag.
    pub open spec fn is_flag(self, key_path: Seq<char>, value_name: Seq<char>) -> bool {
        key_path == self.flag_key && value_name == self.flag_name
    }

    /// Whether a service name is that of the primary update service.
    pub open spec fn is_primary(self, service: Seq<char>) -> bool {
        service == self.primary_service
    }

    /// The configuration does not work against itself: the two executable
    /// paths differ, no further policy value is stored where the flag is, and
    /// no restore leaves the primary service disabled.
    pub open spec fn coherent(self) -> bool {
        &&& self.genuine_path != self.corrupted_path
        &&& forall|i: int|
            0 <= i < self.policies.len() ==> !self.is_flag(
                #[trigger] self.policies[i].key_path,
                self.policies[i].value_name,
            )
        &&& forall|i: int|
            0 <= i < self.services.len() && self.is_primary(#[trigger] self.services[i].name)
                ==> self.services[i].start_mode != StartMode::Disabled
    }

    /// Every mechanism whose success makes a disable succeed is also one
    /// that the probe consults.
    pub open spec fn probe_sees_mechanisms(self) -> bool {
        self.signals.policy_flag && (self.corrupt_path ==> self.signals.service_path)
    }
}

impl Config {
    pub fn is_flag(&self, key_path: &String, value_name: &String) -> (flag: bool)
        ensures
            flag == self@.is_flag(key_path@, value_name@),
    {
        *key_path == self.flag_key && *value_name == self.flag_name
    }

    pub fn is_primary(&self, service: &String) -> (primary: bool)
        ensures
            primary == self@.is_primary(service@),
    {
        *service == self.primary_service
    }

    fn policies_avoid_flag(&self) -> (avoid: bool)
        ensures
            avoid == forall|i: int|
                0 <= i < self@.policies.len() ==> !self@.is_flag(
                    #[trigger] self@.policies[i].key_path,
                    self@.policies[i].value_name,
                ),
    {
        let mut i: usize = 0;
        while i < self.policies.len()
            invariant
                i <= self.policies.len(),
                forall|j: int|
                    0 <= j < i ==> !self@.is_flag(
                        #[trigger] self@.policies[j].key_path,
                        self@.policies[j].value_name,
                    ),
            decreases self.policies.len() - i,
        {
            if self.is_flag(&self.policies[i].key_path, &self.policies[i].value_name) {
                assert(self@.is_flag(
                    self@.policies[i as int].key_path,
                    self@.policies[i as int].value_name,
                ));
                return false;
            }
            i += 1;
        }
        true
    }

    fn primary_is_restored(&self) -> (restored: bool)
        ensures
            restored == forall|i: int|
                0 <= i < self@.services.len() && self@.is_primary(
                    #[trigger] self@.services[i].name,
                ) ==> self@.services[i].start_mode != StartMode::Disabled,
    {
        let mut i: usize = 0;
        while i < self.services.len()
            invariant
                i <= self.services.len(),
                forall|j: int|
                    0 <= j < i && self@.is_primary(#[trigger] self@.services[j].name)
                        ==> self@.services[j].start_mode != StartMode::Disabled,
            decreases self.services.len() - i,
        {
            if self.is_primary(&self.services[i].name) && self.services[i].start_mode
                == StartMode::Disabled {
                assert(self@.is_primary(self@.services[i as int].name));
                return false;
            }
            i += 1;
        }
        true
    }

    /// Decides whether the configuration is coherent.
    pub fn is_coherent(&self) -> (coherent: bool)
        ensures
            coherent == self@.coherent(),
    {
        self.genuine_path != self.corrupted_path && self.policies_avoid_flag()
            && self.primary_is_restored()
    }

    /// Decides whether the probe consults every mechanism that can make a
    /// disable succeed.
    pub fn probe_sees_mechanisms(&self) -> (sees: bool)
        ensures
            sees == self@.probe_sees_mechanisms(),
    {
        self.signals.policy_flag && (!self.corrupt_path || self.signals.service_path)
    }
}

} // verus!
