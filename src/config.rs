//! The user's settings.
use vstd::prelude::*;

verus! {

/// The keying convention that the settings select. Simple Telex types as Telex.
#[derive(Debug, Clone, Copy, PartialEq, Eq, Structural)]
pub enum InputMethodType {
    Telex,
    Vni,
    SimpleTelex,
}

/// The key combinations that the host listens for.
#[derive(Debug, Clone)]
pub struct HotkeyConfig {
    pub toggle_vietnamese: String,
    pub switch_input_method: String,
}

/// The user's settings.
#[derive(Debug, Clone)]
pub struct Config {
    pub input_method: InputMethodType,
    pub hotkeys: HotkeyConfig,
    pub auto_start: bool,
    pub show_status_bar: bool,
}

impl Default for Config {
    /// Telex, `Ctrl+Shift` to toggle Vietnamese mode, `Ctrl+Alt+V` to switch
    /// convention, no start at login, the status bar shown.
    fn default() -> (r: Self)
        ensures
            r.input_method == InputMethodType::Telex,
            r.hotkeys.toggle_vietnamese@ == "Ctrl+Shift"@,
            r.hotkeys.switch_input_method@ == "Ctrl+Alt+V"@,
            !r.auto_start,
            r.show_status_bar,
    {
        broadcast use vstd::string::to_string_from_display_ensures_for_str;

        Config {
            input_method: InputMethodType::Telex,
            hotkeys: HotkeyConfig {
                toggle_vietnamese: "Ctrl+Shift".to_string(),
                switch_input_method: "Ctrl+Alt+V".to_string(),
            },
            auto_start: false,
            show_status_bar: true,
        }
    }
}

} // verus!
