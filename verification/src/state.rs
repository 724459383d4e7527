use vstd::prelude::*;

verus! {

/// The pause switch shared by the tray menu, the global hotkey and the
/// clipboard loop. While it is on, the clipboard is not read at all.
pub struct AppState {
    paused: bool,
}

/// The pause state after one toggle.
pub open spec fn toggled(paused: bool) -> bool {
    !paused
}

impl View for AppState {
    type V = bool;

    /// Whether the application is paused.
    closed spec fn view(&self) -> bool {
        self.paused
    }
}

impl AppState {
    /// A fresh state: not paused.
    pub fn new() -> (s: Self)
        ensures
            s@ == false,
    {
        AppState { paused: false }
    }

    /// Whether the application is paused now.
    pub fn is_paused(&self) -> (r: bool)
        ensures
            r == self@,
    {
        self.paused
    }

    /// Flips the pause switch and returns the state after the flip:
    /// `true` means "now paused", `false` means "resumed".
    pub fn toggle(&mut self) -> (now_paused: bool)
        ensures
            final(self)@ == toggled(old(self)@),
            now_paused == final(self)@,
    {
        self.paused = !self.paused;
        self.paused
    }
}

/// Toggling twice gives back the state one started from.
pub proof fn lemma_toggle_twice_restores(paused: bool)
    ensures
        toggled(toggled(paused)) == paused,
{
}

/// A toggle always changes the state.
pub proof fn lemma_toggle_changes(paused: bool)
    ensures
        toggled(paused) != paused,
{
}

} // verus!
