use vstd::prelude::*;

use global_hotkey::hotkey::{HotKey, HotKeyParseError};

use crate::config::TOGGLE_PAUSE_HOTKEY;

verus! {

/// What a global hotkey event means to the application.
#[derive(PartialEq, Eq, Structural, Debug, Clone, Copy)]
pub enum HotkeyAction {
    /// The pause/resume hotkey was pressed.
    TogglePause,
    /// Some other hotkey.
    Other,
}

/// The registered global hotkeys, by the ids the hotkey manager reports.
pub struct Hotkey {
    /// Id of the pause/resume hotkey.
    pub toggle_pause_id: u32,
}

impl Hotkey {
    /// Classifies a hotkey event by its id.
    pub fn classify(&self, event_id: u32) -> (action: HotkeyAction)
        ensures
            action == (if event_id == self.toggle_pause_id {
                HotkeyAction::TogglePause
            } else {
                HotkeyAction::Other
            }),
    {
        if event_id == self.toggle_pause_id {
            HotkeyAction::TogglePause
        } else {
            HotkeyAction::Other
        }
    }
}

} // verus!

verus! {

/// A hotkey of the `global_hotkey` crate: modifiers, main key and id.
#[verifier::external_type_specification]
#[verifier::external_body]
pub struct ExHotKey(HotKey);

/// The error `global_hotkey` reports for a text that is no hotkey.
#[verifier::external_type_specification]
#[verifier::external_body]
pub struct ExHotKeyParseError(HotKeyParseError);

/// Whether `global_hotkey` accepts `text` as a hotkey (modifiers first,
/// joined by `+`, then exactly one main key).
pub uninterp spec fn hotkey_parses(text: Seq<char>) -> bool;

/// The id `global_hotkey` gives to Ctrl+Alt+P: the modifier bits
/// (`Modifiers::CONTROL` 0x08 | `Modifiers::ALT` 0x01) shifted left by 16,
/// or-ed with the key code (`Code::KeyP`, the 35th variant, 34).
pub open spec fn ctrl_alt_p_id() -> u32 {
    (0x09u32 << 16u32) | 34u32
}

/// The id of Ctrl+Alt+P is 0x0009_0022.
pub proof fn lemma_ctrl_alt_p_id_value()
    ensures
        ctrl_alt_p_id() == 0x0009_0022u32,
{
    assert((0x09u32 << 16u32) | 34u32 == 0x0009_0022u32) by (bit_vector);
}

/// Calls `<HotKey as FromStr>::from_str` on `text` and hands out the parsed
/// hotkey together with its `id` field. Claimed: parsing succeeds exactly when
/// `hotkey_parses` holds of the text, and `Ctrl+Alt+P` parses to the id
/// `ctrl_alt_p_id()` (`HotKey::new` computes `(mods.bits() << 16) | key`).
/// The id of other texts is left unstated: for some modifier names
/// (`CmdOrCtrl`) the parsed modifiers depend on the target operating system.
#[verifier::external_body]
fn parse_hotkey(text: &str) -> (r: Result<(HotKey, u32), HotKeyParseError>)
    ensures
        r is Ok <==> hotkey_parses(text@),
        text@ == "Ctrl+Alt+P"@ ==> (r is Ok && r->Ok_0.1 == ctrl_alt_p_id()),
{
    match text.parse::<HotKey>() {
        Ok(hotkey) => Ok((hotkey, hotkey.id)),
        Err(e) => Err(e),
    }
}

/// Why the hotkeys could not be set up.
#[derive(PartialEq, Eq, Structural, Debug, Clone, Copy)]
pub enum HotkeyError {
    /// `TOGGLE_PAUSE_HOTKEY` is not a valid hotkey.
    InvalidHotkey,
}

/// Parses `TOGGLE_PAUSE_HOTKEY`, giving the hotkey to register and the id
/// its events will carry: the id of Ctrl+Alt+P.
pub fn toggle_pause_hotkey() -> (r: Result<(HotKey, u32), HotkeyError>)
    ensures
        r is Ok <==> hotkey_parses(TOGGLE_PAUSE_HOTKEY@),
        r matches Ok((_, id)) && id == ctrl_alt_p_id(),
{
    match parse_hotkey(TOGGLE_PAUSE_HOTKEY) {
        Ok(parsed) => Ok(parsed),
        Err(_) => Err(HotkeyError::InvalidHotkey),
    }
}

} // verus!
