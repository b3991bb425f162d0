//! The status probe: from fresh readings to a macro-state.
//!
//! Each configured signal is read on its own, and the readings are combined
//! with a logical or, so that a host on which only part of a suppression took
//! effect is still shown as suppressed.

use vstd::prelude::*;
use crate::config::{Config, ConfigView};
use crate::model::{MacroState, Signal};

verus! {

/// What the registry accessor read. A missing key, a missing value and a
/// value of another kind all read as `None`: absence is a reading, not a
/// fault.
#[derive(Clone, Debug, PartialEq, Eq)]
pub struct Snapshot {
    /// The no-automatic-update flag, read as a 32-bit number.
    pub policy_flag: Option<u32>,
    /// The executable path of the primary update service.
    pub image_path: Option<String>,
    /// The stored start mode of the primary update service, as its number.
    pub start_value: Option<u32>,
}

pub struct SnapshotView {
    pub policy_flag: Option<u32>,
    pub image_path: Option<Seq<char>>,
    pub start_value: Option<u32>,
}

impl View for Snapshot {
    type V = SnapshotView;

    open spec fn view(&self) -> SnapshotView {
        SnapshotView {
            policy_flag: self.policy_flag,
            image_path: match self.image_path {
                Some(path) => Some(path@),
                None => None,
            },
            start_value: self.start_value,
        }
    }
}

impl SnapshotView {
    /// The readings of a host on which nothing was found.
    pub open spec fn blank() -> SnapshotView {
        SnapshotView { policy_flag: None, image_path: None, start_value: None }
    }
}

/// Whether one signal is present in the readings.
pub open spec fn signal_present(config: ConfigView, snapshot: SnapshotView, signal: Signal) -> bool {
    match signal {
        Signal::PolicyFlagSet => snapshot.policy_flag == Some(1u32),
        Signal::ServicePathCorrupted => snapshot.image_path == Some(config.corrupted_path),
        Signal::ServiceStartModeDisabled => snapshot.start_value == Some(4u32),
    }
}

/// Whether any configured signal is present.
pub open spec fn suppressed(config: ConfigView, snapshot: SnapshotView) -> bool {
    exists|signal: Signal|
        config.signals.has(signal) && #[trigger] signal_present(config, snapshot, signal)
}

/// The macro-state that the readings show.
pub open spec fn macro_state(config: ConfigView, snapshot: SnapshotView) -> MacroState {
    if suppressed(config, snapshot) {
        MacroState::Suppressed
    } else {
        MacroState::Active
    }
}

impl Snapshot {
    /// The readings of a host on which nothing was found.
    pub fn blank() -> (snapshot: Snapshot)
        ensures
            snapshot@ == SnapshotView::blank(),
    {
        Snapshot { policy_flag: None, image_path: None, start_value: None }
    }

    pub fn duplicate(&self) -> (copy: Snapshot)
        ensures
            copy@ == self@,
    {
        Snapshot {
            policy_flag: self.policy_flag,
            image_path: match &self.image_path {
                Some(path) => Some(path.clone()),
                None => None,
            },
            start_value: self.start_value,
        }
    }
}

/// Reads one signal off the readings.
pub fn read_signal(config: &Config, snapshot: &Snapshot, signal: Signal) -> (present: bool)
    ensures
        present == signal_present(config@, snapshot@, signal),
{
    match signal {
        Signal::PolicyFlagSet => match snapshot.policy_flag {
            Some(flag) => flag == 1,
            None => false,
        },
        Signal::ServicePathCorrupted => match &snapshot.image_path {
            Some(path) => *path == config.corrupted_path,
            None => false,
        },
        Signal::ServiceStartModeDisabled => match snapshot.start_value {
            Some(value) => value == 4,
            None => false,
        },
    }
}

/// Judges the macro-state: `Suppressed` if any configured signal is present,
/// `Active` only if none is.
pub fn probe(config: &Config, snapshot: &Snapshot) -> (state: MacroState)
    ensures
        state == macro_state(config@, snapshot@),
        state == MacroState::Suppressed <==> exists|signal: Signal|
            config@.signals.has(signal) && #[trigger] signal_present(config@, snapshot@, signal),
{
    let policy = config.signals.contains(Signal::PolicyFlagSet) && read_signal(
        config,
        snapshot,
        Signal::PolicyFlagSet,
    );
    let path = config.signals.contains(Signal::ServicePathCorrupted) && read_signal(
        config,
        snapshot,
        Signal::ServicePathCorrupted,
    );
    let start = config.signals.contains(Signal::ServiceStartModeDisabled) && read_signal(
        config,
        snapshot,
        Signal::ServiceStartModeDisabled,
    );
    if policy || path || start {
        proof {
            let witness = if policy {
                Signal::PolicyFlagSet
            } else if path {
                Signal::ServicePathCorrupted
            } else {
                Signal::ServiceStartModeDisabled
            };
            assert(config@.signals.has(witness) && signal_present(config@, snapshot@, witness));
        }
        MacroState::Suppressed
    } else {
        MacroState::Active
    }
}

/// The probe in terms of the single readings: a host is judged suppressed
/// exactly when one of the three signals is both configured and present.
pub proof fn lemma_probe_is_disjunction(config: ConfigView, snapshot: SnapshotView)
    ensures
        suppressed(config, snapshot) <==> (config.signals.policy_flag && snapshot.policy_flag
            == Some(1u32)) || (config.signals.service_path && snapshot.image_path == Some(
            config.corrupted_path,
        )) || (config.signals.start_mode && snapshot.start_value == Some(4u32)),
{
    if suppressed(config, snapshot) {
        let signal = choose|signal: Signal|
            config.signals.has(signal) && #[trigger] signal_present(config, snapshot, signal);
        assert(config.signals.has(signal) && signal_present(config, snapshot, signal));
    }
    if config.signals.policy_flag && snapshot.policy_flag == Some(1u32) {
        assert(signal_present(config, snapshot, Signal::PolicyFlagSet));
    }
    if config.signals.service_path && snapshot.image_path == Some(config.corrupted_path) {
        assert(signal_present(config, snapshot, Signal::ServicePathCorrupted));
    }
    if config.signals.start_mode && snapshot.start_value == Some(4u32) {
        assert(signal_present(config, snapshot, Signal::ServiceStartModeDisabled));
    }
}

/// A set policy flag decides the judgment whatever the service's path and
/// start mode read.
pub proof fn lemma_policy_flag_decides(config: ConfigView, snapshot: SnapshotView)
    requires
        config.signals.policy_flag,
        snapshot.policy_flag == Some(1u32),
    ensures
        macro_state(config, snapshot) == MacroState::Suppressed,
{
    assert(signal_present(config, snapshot, Signal::PolicyFlagSet));
}

} // verus!
