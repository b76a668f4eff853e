//! The hotkeys of the timer, and the names of the keys on a keyboard.

use vstd::prelude::*;

verus! {

/// Which hotkey triggers which action of the timer. A hotkey is held as the text that
/// names it, such as `Numpad1` or `Ctrl + KeyA`; `None` leaves the action without one.
#[derive(Debug)]
pub struct HotkeyConfig {
    /// Splits, or starts a new attempt.
    pub split: Option<String>,
    /// Resets the current attempt.
    pub reset: Option<String>,
    /// Undoes the last split.
    pub undo: Option<String>,
    /// Skips the current split.
    pub skip: Option<String>,
    /// Pauses the current attempt, or starts a new one.
    pub pause: Option<String>,
    /// Removes all the pause times from the current time.
    pub undo_all_pauses: Option<String>,
    /// Switches to the previous comparison.
    pub previous_comparison: Option<String>,
    /// Switches to the next comparison.
    pub next_comparison: Option<String>,
    /// Toggles between real time and game time.
    pub toggle_timing_method: Option<String>,
}

/// What a [`HotkeyConfig`] says, with each hotkey as the characters of its text.
#[verifier::ext_equal]
pub struct HotkeyConfigView {
    pub split: Option<Seq<char>>,
    pub reset: Option<Seq<char>>,
    pub undo: Option<Seq<char>>,
    pub skip: Option<Seq<char>>,
    pub pause: Option<Seq<char>>,
    pub undo_all_pauses: Option<Seq<char>>,
    pub previous_comparison: Option<Seq<char>>,
    pub next_comparison: Option<Seq<char>>,
    pub toggle_timing_method: Option<Seq<char>>,
}

impl View for HotkeyConfig {
    type V = HotkeyConfigView;

    open spec fn view(&self) -> HotkeyConfigView {
        HotkeyConfigView {
            split: self.split.deep_view(),
            reset: self.reset.deep_view(),
            undo: self.undo.deep_view(),
            skip: self.skip.deep_view(),
            pause: self.pause.deep_view(),
            undo_all_pauses: self.undo_all_pauses.deep_view(),
            previous_comparison: self.previous_comparison.deep_view(),
            next_comparison: self.next_comparison.deep_view(),
            toggle_timing_method: self.toggle_timing_method.deep_view(),
        }
    }
}

/// The hotkeys of a timer that nobody has configured: the digits of the number pad.
pub open spec fn default_hotkeys() -> HotkeyConfigView {
    HotkeyConfigView {
        split: Some("Numpad1"@),
        reset: Some("Numpad3"@),
        undo: Some("Numpad8"@),
        skip: Some("Numpad2"@),
        pause: Some("Numpad5"@),
        undo_all_pauses: None,
        previous_comparison: Some("Numpad4"@),
        next_comparison: Some("Numpad6"@),
        toggle_timing_method: None,
    }
}

/// Calls `livesplit_core::HotkeyConfig::default` and takes each of its hotkeys by its text.
/// Claimed of it: seven actions have a digit of the number pad without modifiers, and
/// undoing all pauses and toggling the timing method have no hotkey.
#[verifier::external_body]
fn livesplit_default_hotkeys() -> (hotkeys: HotkeyConfig)
    ensures
        hotkeys@ == default_hotkeys(),
{
    let keys = livesplit_core::HotkeyConfig::default();
    HotkeyConfig {
        split: keys.split.map(|key| key.to_string()),
        reset: keys.reset.map(|key| key.to_string()),
        undo: keys.undo.map(|key| key.to_string()),
        skip: keys.skip.map(|key| key.to_string()),
        pause: keys.pause.map(|key| key.to_string()),
        undo_all_pauses: keys.undo_all_pauses.map(|key| key.to_string()),
        previous_comparison: keys.previous_comparison.map(|key| key.to_string()),
        next_comparison: keys.next_comparison.map(|key| key.to_string()),
        toggle_timing_method: keys.toggle_timing_method.map(|key| key.to_string()),
    }
}

impl Default for HotkeyConfig {
    fn default() -> (hotkeys: Self)
        ensures
            hotkeys@ == default_hotkeys(),
    {
        livesplit_default_hotkeys()
    }
}

impl Clone for HotkeyConfig {
    fn clone(&self) -> (copy: Self)
        ensures
            copy == *self,
    {
        HotkeyConfig {
            split: self.split.clone(),
            reset: self.reset.clone(),
            undo: self.undo.clone(),
            skip: self.skip.clone(),
            pause: self.pause.clone(),
            undo_all_pauses: self.undo_all_pauses.clone(),
            previous_comparison: self.previous_comparison.clone(),
            next_comparison: self.next_comparison.clone(),
            toggle_timing_method: self.toggle_timing_method.clone(),
        }
    }
}

/// The name of the key that a text names: `None` where it names no key.
pub uninterp spec fn key_code_name(text: Seq<char>) -> Option<Seq<char>>;

/// Calls `livesplit_core::hotkey::KeyCode::from_str`, and takes the key by its name
/// (`KeyCode::name`). Claimed of it: whether the text names a key, and which one, depends on
/// the text alone, and the name of a key names that key.
#[verifier::external_body]
pub(crate) fn parse_key_code(text: &str) -> (name: Option<String>)
    ensures
        name.deep_view() == key_code_name(text@),
        name matches Some(name) ==> key_code_name(name@) == Some(name@),
{
    text.parse::<livesplit_core::hotkey::KeyCode>().ok().map(|key| key.name().to_string())
}

/// Hotkeys that nobody has configured are the digits of the number pad, each for its action,
/// and none for undoing all pauses and for toggling the timing method.
pub proof fn lemma_default_hotkeys(hotkeys: HotkeyConfig)
    requires
        call_ensures(HotkeyConfig::default, (), hotkeys),
    ensures
        hotkeys.split matches Some(key) && key@ == "Numpad1"@,
        hotkeys.reset matches Some(key) && key@ == "Numpad3"@,
        hotkeys.undo matches Some(key) && key@ == "Numpad8"@,
        hotkeys.skip matches Some(key) && key@ == "Numpad2"@,
        hotkeys.pause matches Some(key) && key@ == "Numpad5"@,
        hotkeys.previous_comparison matches Some(key) && key@ == "Numpad4"@,
        hotkeys.next_comparison matches Some(key) && key@ == "Numpad6"@,
        hotkeys.undo_all_pauses is None,
        hotkeys.toggle_timing_method is None,
{
}

/// A copy of hotkeys has the same hotkey for each action.
pub proof fn lemma_copied_hotkeys(hotkeys: &HotkeyConfig, copy: HotkeyConfig)
    requires
        call_ensures(HotkeyConfig::clone, (hotkeys,), copy),
    ensures
        copy.split == hotkeys.split,
        copy.reset == hotkeys.reset,
        copy.undo == hotkeys.undo,
        copy.skip == hotkeys.skip,
        copy.pause == hotkeys.pause,
        copy.undo_all_pauses == hotkeys.undo_all_pauses,
        copy.previous_comparison == hotkeys.previous_comparison,
        copy.next_comparison == hotkeys.next_comparison,
        copy.toggle_timing_method == hotkeys.toggle_timing_method,
{
}

} // verus!
