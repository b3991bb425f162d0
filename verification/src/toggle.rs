//! The toggle controller: what the shell shows, which way a toggle request
//! goes, and what is shown once the toggle is over.
//!
//! The shown macro-state is always a probe's judgment. The verdict of a
//! toggle only chooses the notice: a toggle that reports success does not
//! by itself change what is shown.

use vstd::prelude::*;
use vstd::string::*;
use crate::config::{Config, ConfigView};
use crate::host::{execute, Host, HostView};
use crate::model::{Direction, MacroState};

verus! {

/// One toggle, made when the user asks for it and dropped when it is over.
#[derive(Clone, Copy, Debug, PartialEq, Eq, Structural)]
pub struct ToggleOperation {
    pub direction: Direction,
}

/// What the shell tells the user after a toggle.
#[derive(Clone, Copy, Debug, PartialEq, Eq, Structural)]
pub enum Notice {
    Disabled,
    DisableFailed,
    Restored,
    RestoreFailed,
}

/// The direction that leads away from a macro-state.
pub open spec fn direction_from(shown: MacroState) -> Direction {
    match shown {
        MacroState::Active => Direction::Disable,
        MacroState::Suppressed => Direction::Restore,
    }
}

/// The notice for a finished toggle.
pub open spec fn notice_for(direction: Direction, succeeded: bool) -> Notice {
    match direction {
        Direction::Disable => if succeeded {
            Notice::Disabled
        } else {
            Notice::DisableFailed
        },
        Direction::Restore => if succeeded {
            Notice::Restored
        } else {
            Notice::RestoreFailed
        },
    }
}

/// The words of a notice.
pub open spec fn notice_text(notice: Notice) -> Seq<char> {
    match notice {
        Notice::Disabled => "Windows Update disabled"@,
        Notice::DisableFailed => "Failed to disable (run as admin)"@,
        Notice::Restored => "Windows Update restored"@,
        Notice::RestoreFailed => "Failed to restore (run as admin)"@,
    }
}

impl Notice {
    pub fn text(&self) -> (text: String)
        ensures
            text@ == notice_text(*self),
    {
        match self {
            Notice::Disabled => String::from_str("Windows Update disabled"),
            Notice::DisableFailed => String::from_str("Failed to disable (run as admin)"),
            Notice::Restored => String::from_str("Windows Update restored"),
            Notice::RestoreFailed => String::from_str("Failed to restore (run as admin)"),
        }
    }
}

/// What the shell renders.
#[derive(Clone, Copy, Debug, PartialEq, Eq, Structural)]
pub struct Controller {
    /// The judgment of the latest probe.
    pub shown: MacroState,
    /// The notice of the latest toggle, if there was one.
    pub notice: Option<Notice>,
}

impl Controller {
    /// The controller at startup, showing what the first probe found.
    pub fn new(probed: MacroState) -> (controller: Controller)
        ensures
            controller == (Controller { shown: probed, notice: None }),
    {
        Controller { shown: probed, notice: None }
    }

    /// The toggle that a request from the user stands for: away from what
    /// is shown.
    pub fn request(&self) -> (operation: ToggleOperation)
        ensures
            operation.direction == direction_from(self.shown),
    {
        match self.shown {
            MacroState::Active => ToggleOperation { direction: Direction::Disable },
            MacroState::Suppressed => ToggleOperation { direction: Direction::Restore },
        }
    }

    /// Takes in the end of a toggle: the verdict of the orchestrator and the
    /// judgment of the probe that was made after it.
    pub fn complete(&mut self, operation: ToggleOperation, succeeded: bool, probed: MacroState)
        ensures
            *final(self) == (Controller {
                shown: probed,
                notice: Some(notice_for(operation.direction, succeeded)),
            }),
    {
        let notice = match operation.direction {
            Direction::Disable => if succeeded {
                Notice::Disabled
            } else {
                Notice::DisableFailed
            },
            Direction::Restore => if succeeded {
                Notice::Restored
            } else {
                Notice::RestoreFailed
            },
        };
        self.shown = probed;
        self.notice = Some(notice);
    }
}

/// The host and the controller after the user asked for a toggle.
pub open spec fn toggled(controller: Controller, config: ConfigView, host: HostView) -> (
    HostView,
    Controller,
) {
    let direction = direction_from(controller.shown);
    let (after, succeeded) = host.toggle(config, direction);
    (after, Controller { shown: after.state(config), notice: Some(notice_for(direction, succeeded)) })
}

/// Serves one toggle request against the in-memory host: runs the plan that
/// leads away from what is shown, probes the host afresh and shows what the
/// probe found.
pub fn toggle(controller: &mut Controller, config: &Config, host: &mut Host)
    ensures
        (final(host)@, *final(controller)) == toggled(*old(controller), config@, old(host)@),
        final(host)@.refusals == old(host)@.refusals,
{
    let operation = controller.request();
    let run = execute(config, operation.direction, host);
    let succeeded = match run.verdict() {
        Some(result) => result,
        None => false,
    };
    let probed = host.probe(config);
    controller.complete(operation, succeeded, probed);
}

} // verus!
