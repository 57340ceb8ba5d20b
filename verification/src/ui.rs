//! The dashboard controller's decisions: what a key press means in each view
//! and when the render loop must hand the terminal over during an emergency
//! takeover.

use vstd::prelude::*;
use crate::types::ViewState;

verus! {

/// A key press, as the event loop hands it in.
#[derive(Debug, Clone, Copy, PartialEq, Eq, Structural)]
pub enum KeyInput {
    Char(char),
    Esc,
    CtrlC,
    Other,
}

/// What the controller must do for a key press.
#[derive(Debug, Clone, Copy, PartialEq, Eq, Structural)]
pub enum KeyAction {
    /// Leave the dashboard.
    Quit,
    /// Leave the switch view for the status view and start a field refresh.
    ReturnToStatusAndRefresh,
    /// Show the switch confirmation view.
    EnterSwitchView,
    /// Confirm the switch and quit so the caller runs the switch mechanism.
    ConfirmSwitchAndQuit,
    /// Start a field refresh.
    TriggerRefresh,
    /// Nothing.
    Ignore,
}

/// The key bindings: `q`/`Esc` quit from the status view and back out of the
/// switch view; `Ctrl-C` quits unconditionally; `s` enters the switch view;
/// `y` confirms a switch there; `r` refreshes in the status view.
pub open spec fn spec_handle_key(key: KeyInput, view: ViewState) -> KeyAction {
    match key {
        KeyInput::CtrlC => KeyAction::Quit,
        KeyInput::Esc => if view is Switch {
            KeyAction::ReturnToStatusAndRefresh
        } else {
            KeyAction::Quit
        },
        KeyInput::Char(c) => if c == 'q' {
            if view is Switch {
                KeyAction::ReturnToStatusAndRefresh
            } else {
                KeyAction::Quit
            }
        } else if c == 's' || c == 'S' {
            KeyAction::EnterSwitchView
        } else if c == 'y' || c == 'Y' {
            if view is Switch {
                KeyAction::ConfirmSwitchAndQuit
            } else {
                KeyAction::Ignore
            }
        } else if c == 'r' || c == 'R' {
            if view is Status {
                KeyAction::TriggerRefresh
            } else {
                KeyAction::Ignore
            }
        } else {
            KeyAction::Ignore
        },
        KeyInput::Other => KeyAction::Ignore,
    }
}

/// Decide what a key press does in the given view.
pub fn handle_key(key: KeyInput, view: ViewState) -> (r: KeyAction)
    ensures
        r == spec_handle_key(key, view),
{
    match key {
        KeyInput::CtrlC => KeyAction::Quit,
        KeyInput::Esc => if view == ViewState::Switch {
            KeyAction::ReturnToStatusAndRefresh
        } else {
            KeyAction::Quit
        },
        KeyInput::Char(c) => if c == 'q' {
            if view == ViewState::Switch {
                KeyAction::ReturnToStatusAndRefresh
            } else {
                KeyAction::Quit
            }
        } else if c == 's' || c == 'S' {
            KeyAction::EnterSwitchView
        } else if c == 'y' || c == 'Y' {
            if view == ViewState::Switch {
                KeyAction::ConfirmSwitchAndQuit
            } else {
                KeyAction::Ignore
            }
        } else if c == 'r' || c == 'R' {
            if view == ViewState::Status {
                KeyAction::TriggerRefresh
            } else {
                KeyAction::Ignore
            }
        } else {
            KeyAction::Ignore
        },
        KeyInput::Other => KeyAction::Ignore,
    }
}

/// What the render loop does with the terminal this frame.
#[derive(Debug, Clone, Copy, PartialEq, Eq, Structural)]
pub enum TerminalTransition {
    /// The takeover flag just rose: release the terminal and stop rendering.
    Suspend,
    /// The takeover flag just fell: take the terminal back and render again.
    Restore,
    /// No edge: carry on.
    Stay,
}

/// The render-suspension handshake: suspend on the rising edge of the
/// takeover flag, restore on the falling edge, and otherwise do nothing.
pub open spec fn spec_emergency_transition(in_progress: bool, suspended: bool) -> TerminalTransition {
    if in_progress && !suspended {
        TerminalTransition::Suspend
    } else if !in_progress && suspended {
        TerminalTransition::Restore
    } else {
        TerminalTransition::Stay
    }
}

/// Decide the terminal transition for one frame, given the takeover flag and
/// whether rendering is currently suspended.
pub fn emergency_transition(in_progress: bool, suspended: bool) -> (r: TerminalTransition)
    ensures
        r == spec_emergency_transition(in_progress, suspended),
        r is Suspend <==> in_progress && !suspended,
        r is Restore <==> !in_progress && suspended,
{
    if in_progress && !suspended {
        TerminalTransition::Suspend
    } else if !in_progress && suspended {
        TerminalTransition::Restore
    } else {
        TerminalTransition::Stay
    }
}

} // verus!
