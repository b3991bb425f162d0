//! The vocabulary of the toggle engine: macro-states, suppression signals,
//! start modes and the targets that the orchestrators act on.

use vstd::prelude::*;

verus! {

/// The operator-visible judgment about the update subsystem.
///
/// It is never stored as the truth: it is re-derived from fresh readings
/// whenever it is needed.
#[derive(Clone, Copy, Debug, PartialEq, Eq, Structural)]
pub enum MacroState {
    /// Automatic updates are delivered normally.
    Active,
    /// At least one suppression mechanism is in effect.
    Suppressed,
}

/// The direction of a toggle.
#[derive(Clone, Copy, Debug, PartialEq, Eq, Structural)]
pub enum Direction {
    /// Move the host towards `Suppressed`.
    Disable,
    /// Move the host back towards `Active`.
    Restore,
}

/// A service's persistent boot-time activation setting.
#[derive(Clone, Copy, Debug, PartialEq, Eq, Structural)]
pub enum StartMode {
    Auto,
    Demand,
    Disabled,
}

impl StartMode {
    /// The number under which the service control entry stores the mode.
    pub open spec fn code_of(self) -> u32 {
        match self {
            StartMode::Auto => 2,
            StartMode::Demand => 3,
            StartMode::Disabled => 4,
        }
    }

    /// The mode that a stored number stands for, if it stands for one of the
    /// three modes that the engine assigns.
    pub open spec fn of_code(code: u32) -> Option<StartMode> {
        if code == 2 {
            Some(StartMode::Auto)
        } else if code == 3 {
            Some(StartMode::Demand)
        } else if code == 4 {
            Some(StartMode::Disabled)
        } else {
            None
        }
    }

    pub fn code(self) -> (c: u32)
        ensures
            c == self.code_of(),
    {
        match self {
            StartMode::Auto => 2,
            StartMode::Demand => 3,
            StartMode::Disabled => 4,
        }
    }

    pub fn from_code(code: u32) -> (mode: Option<StartMode>)
        ensures
            mode == StartMode::of_code(code),
    {
        if code == 2 {
            Some(StartMode::Auto)
        } else if code == 3 {
            Some(StartMode::Demand)
        } else if code == 4 {
            Some(StartMode::Disabled)
        } else {
            None
        }
    }
}

/// Decoding a mode's number gives the mode back, and a number that decodes
/// to a mode is that mode's number.
pub proof fn lemma_start_mode_codes(mode: StartMode, code: u32)
    ensures
        StartMode::of_code(mode.code_of()) == Some(mode),
        StartMode::of_code(code) == Some(mode) <==> code == mode.code_of(),
{
}

/// One independently readable indicator that the probe consults.
#[derive(Clone, Copy, Debug, PartialEq, Eq, Structural)]
pub enum Signal {
    /// The no-automatic-update policy flag reads as 1.
    PolicyFlagSet,
    /// The primary update service's executable path is the invalid one.
    ServicePathCorrupted,
    /// The primary update service's start mode reads as disabled.
    ServiceStartModeDisabled,
}

/// The signals that a configuration consults. The set is chosen with the
/// configuration and is not changed afterwards.
#[derive(Clone, Copy, Debug, PartialEq, Eq, Structural)]
pub struct SignalSet {
    pub policy_flag: bool,
    pub service_path: bool,
    pub start_mode: bool,
}

impl SignalSet {
    pub open spec fn has(self, signal: Signal) -> bool {
        match signal {
            Signal::PolicyFlagSet => self.policy_flag,
            Signal::ServicePathCorrupted => self.service_path,
            Signal::ServiceStartModeDisabled => self.start_mode,
        }
    }

    pub fn none() -> (set: SignalSet)
        ensures
            forall|signal: Signal| !set.has(signal),
    {
        SignalSet { policy_flag: false, service_path: false, start_mode: false }
    }

    pub fn all() -> (set: SignalSet)
        ensures
            forall|signal: Signal| set.has(signal),
    {
        SignalSet { policy_flag: true, service_path: true, start_mode: true }
    }

    pub fn contains(&self, signal: Signal) -> (present: bool)
        ensures
            present == self.has(signal),
    {
        match signal {
            Signal::PolicyFlagSet => self.policy_flag,
            Signal::ServicePathCorrupted => self.service_path,
            Signal::ServiceStartModeDisabled => self.start_mode,
        }
    }

    /// The set with one more signal in it.
    pub fn with(self, signal: Signal) -> (set: SignalSet)
        ensures
            forall|other: Signal| set.has(other) == (other == signal || self.has(other)),
    {
        match signal {
            Signal::PolicyFlagSet => SignalSet { policy_flag: true, ..self },
            Signal::ServicePathCorrupted => SignalSet { service_path: true, ..self },
            Signal::ServiceStartModeDisabled => SignalSet { start_mode: true, ..self },
        }
    }
}

/// A named service and the start mode that a restore gives it back.
#[derive(Clone, Debug, PartialEq, Eq)]
pub struct ServiceTarget {
    pub name: String,
    pub start_mode: StartMode,
}

pub struct ServiceTargetView {
    pub name: Seq<char>,
    pub start_mode: StartMode,
}

impl View for ServiceTarget {
    type V = ServiceTargetView;

    open spec fn view(&self) -> ServiceTargetView {
        ServiceTargetView { name: self.name@, start_mode: self.start_mode }
    }
}

/// A task-scheduler entry, named by its path.
#[derive(Clone, Debug, PartialEq, Eq)]
pub struct ScheduledTaskTarget {
    pub path: String,
}

pub struct ScheduledTaskTargetView {
    pub path: Seq<char>,
}

impl View for ScheduledTaskTarget {
    type V = ScheduledTaskTargetView;

    open spec fn view(&self) -> ScheduledTaskTargetView {
        ScheduledTaskTargetView { path: self.path@ }
    }
}

/// The kind of a stored policy value.
#[derive(Clone, Copy, Debug, PartialEq, Eq, Structural)]
pub enum ValueKind {
    /// A 32-bit number.
    Dword,
    /// A string.
    Text,
}

/// A policy value together with its kind.
#[derive(Clone, Debug, PartialEq, Eq)]
pub enum PolicyValue {
    Dword(u32),
    Text(String),
}

pub enum PolicyValueView {
    Dword(u32),
    Text(Seq<char>),
}

impl View for PolicyValue {
    type V = PolicyValueView;

    open spec fn view(&self) -> PolicyValueView {
        match self {
            PolicyValue::Dword(number) => PolicyValueView::Dword(*number),
            PolicyValue::Text(text) => PolicyValueView::Text(text@),
        }
    }
}

impl PolicyValueView {
    pub open spec fn kind(self) -> ValueKind {
        match self {
            PolicyValueView::Dword(_) => ValueKind::Dword,
            PolicyValueView::Text(_) => ValueKind::Text,
        }
    }

    /// What a typed read of a 32-bit number gives for this value: a string
    /// does not read as a number.
    pub open spec fn as_dword(self) -> Option<u32> {
        match self {
            PolicyValueView::Dword(number) => Some(number),
            PolicyValueView::Text(_) => None,
        }
    }
}

impl PolicyValue {
    pub fn kind(&self) -> (kind: ValueKind)
        ensures
            kind == self@.kind(),
    {
        match self {
            PolicyValue::Dword(_) => ValueKind::Dword,
            PolicyValue::Text(_) => ValueKind::Text,
        }
    }

    pub fn as_dword(&self) -> (number: Option<u32>)
        ensures
            number == self@.as_dword(),
    {
        match self {
            PolicyValue::Dword(number) => Some(*number),
            PolicyValue::Text(_) => None,
        }
    }

    pub fn duplicate(&self) -> (copy: PolicyValue)
        ensures
            copy@ == self@,
    {
        match self {
            PolicyValue::Dword(number) => PolicyValue::Dword(*number),
            PolicyValue::Text(text) => PolicyValue::Text(text.clone()),
        }
    }

    /// Whether two values are of the same kind and hold the same.
    pub fn same_as(&self, other: &PolicyValue) -> (same: bool)
        ensures
            same == (self@ == other@),
    {
        match (self, other) {
            (PolicyValue::Dword(mine), PolicyValue::Dword(theirs)) => *mine == *theirs,
            (PolicyValue::Text(mine), PolicyValue::Text(theirs)) => *mine == *theirs,
            _ => false,
        }
    }
}

/// One registry value under the policy root that a disable writes.
#[derive(Clone, Debug, PartialEq, Eq)]
pub struct PolicySetting {
    pub key_path: String,
    pub value_name: String,
    pub value: PolicyValue,
}

pub struct PolicySettingView {
    pub key_path: Seq<char>,
    pub value_name: Seq<char>,
    pub value: PolicyValueView,
}

impl View for PolicySetting {
    type V = PolicySettingView;

    open spec fn view(&self) -> PolicySettingView {
        PolicySettingView {
            key_path: self.key_path@,
            value_name: self.value_name@,
            value: self.value@,
        }
    }
}

impl PolicySetting {
    pub fn kind(&self) -> (kind: ValueKind)
        ensures
            kind == self@.value.kind(),
    {
        self.value.kind()
    }
}

} // verus!
