use vstd::prelude::*;

use crate::hotkey::HotkeyAction;
use crate::state::{toggled, AppState};
use crate::tray::TrayAction;

verus! {

/// What the user interface is to do after a tray or hotkey event.
#[derive(PartialEq, Eq, Structural, Debug, Clone, Copy)]
pub enum UiResponse {
    /// Nothing changes.
    Nothing,
    /// The pause switch was flipped; show the label for this pause state.
    PauseChanged { now_paused: bool },
    /// Leave the event loop.
    Exit,
}

/// Handles a tray menu action: Pause/Resume flips the pause switch, Quit
/// exits, anything else does nothing.
pub fn on_tray_action(state: &mut AppState, action: TrayAction) -> (response: UiResponse)
    ensures
        match action {
            TrayAction::TogglePause => {
                &&& final(state)@ == toggled(old(state)@)
                &&& response == (UiResponse::PauseChanged { now_paused: final(state)@ })
            },
            TrayAction::Quit => final(state)@ == old(state)@ && response == UiResponse::Exit,
            TrayAction::Other => final(state)@ == old(state)@ && response == UiResponse::Nothing,
        },
{
    match action {
        TrayAction::TogglePause => {
            let now_paused = state.toggle();
            UiResponse::PauseChanged { now_paused }
        },
        TrayAction::Quit => UiResponse::Exit,
        TrayAction::Other => UiResponse::Nothing,
    }
}

/// Handles a global hotkey event: a press of the pause/resume hotkey flips
/// the pause switch; releases and other hotkeys do nothing.
pub fn on_hotkey(state: &mut AppState, action: HotkeyAction, pressed: bool) -> (response:
    UiResponse)
    ensures
        if pressed && action == HotkeyAction::TogglePause {
            &&& final(state)@ == toggled(old(state)@)
            &&& response == (UiResponse::PauseChanged { now_paused: final(state)@ })
        } else {
            final(state)@ == old(state)@ && response == UiResponse::Nothing
        },
{
    if pressed {
        match action {
            HotkeyAction::TogglePause => {
                let now_paused = state.toggle();
                UiResponse::PauseChanged { now_paused }
            },
            HotkeyAction::Other => UiResponse::Nothing,
        }
    } else {
        UiResponse::Nothing
    }
}

} // verus!
