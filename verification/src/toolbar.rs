//! Toolbar component: a stateless emitter of the settings-open broadcast.

use crate::model::{XMessage, XMessageV};
use vstd::prelude::*;

verus! {

/// Mathematical value of a [`ToolbarCommand`].
pub ghost enum ToolbarCommandV {
    SendXMessage(XMessageV),
    XMessage(XMessageV),
}

/// Message owned by the toolbar. `SendXMessage` asks the root router to turn
/// the carried broadcast loose on every component; `XMessage` is an incoming
/// broadcast, which the toolbar ignores.
#[derive(Clone, Debug)]
pub enum ToolbarCommand {
    SendXMessage(XMessage),
    XMessage(XMessage),
}

impl DeepView for ToolbarCommand {
    type V = ToolbarCommandV;

    open spec fn deep_view(&self) -> ToolbarCommandV {
        match self {
            ToolbarCommand::SendXMessage(m) => ToolbarCommandV::SendXMessage(m.deep_view()),
            ToolbarCommand::XMessage(m) => ToolbarCommandV::XMessage(m.deep_view()),
        }
    }
}

/// Transition of the toolbar: a send-broadcast request passes through so the
/// root router can translate it; incoming broadcasts produce nothing.
pub open spec fn spec_toolbar_update(command: ToolbarCommandV) -> Option<ToolbarCommandV> {
    match command {
        ToolbarCommandV::SendXMessage(m) => Some(ToolbarCommandV::SendXMessage(m)),
        ToolbarCommandV::XMessage(_) => None,
    }
}

/// Render model of the toolbar: a fixed-height bar whose one control emits
/// the settings-open request when pressed.
pub struct ToolbarScene {
    pub settings_control: ToolbarCommand,
}

/// The toolbar owns no state.
pub struct Toolbar;

impl Toolbar {
    pub fn new() -> (r: Self) {
        Self
    }

    /// Dispatch one command, returning the effect as at most one follow-up
    /// command.
    pub fn update(&mut self, command: ToolbarCommand) -> (t: Option<ToolbarCommand>)
        ensures
            t.deep_view() == spec_toolbar_update(command.deep_view()),
    {
        match command {
            ToolbarCommand::SendXMessage(data) => Some(ToolbarCommand::SendXMessage(data)),
            ToolbarCommand::XMessage(_) => None,
        }
    }

    /// Render: the settings control is wired to request the settings-open
    /// broadcast, and nothing else in the bar is interactive.
    pub fn view(&self) -> (r: ToolbarScene)
        ensures
            r.settings_control.deep_view() == ToolbarCommandV::SendXMessage(
                XMessageV::SettingsOpen,
            ),
    {
        ToolbarScene {
            settings_control: ToolbarCommand::SendXMessage(XMessage::SettingsOpen),
        }
    }
}

impl Default for Toolbar {
    fn default() -> (r: Self) {
        Self::new()
    }
}

} // verus!
