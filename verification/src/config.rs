use vstd::prelude::*;

verus! {

broadcast use vstd::string::group_string_axioms;

/// Hotkey binding configuration.
#[derive(Debug, Clone)]
pub struct HotkeyBinding {
    /// Whether the Ctrl modifier is required
    pub ctrl: bool,
    /// Whether the Shift modifier is required
    pub shift: bool,
    /// Whether the Alt modifier is required
    pub alt: bool,
    /// The virtual key code (e.g., 'S' = 0x53)
    pub key: u8,
    /// Human-readable description
    pub description: String,
}

impl Default for HotkeyBinding {
    /// Ctrl+Shift+S.
    fn default() -> (b: Self)
        ensures
            b.ctrl,
            b.shift,
            !b.alt,
            b.key == 0x53,
            b.description@ == "Ctrl+Shift+S"@,
    {
        HotkeyBinding {
            ctrl: true,
            shift: true,
            alt: false,
            key: 0x53,
            description: "Ctrl+Shift+S".to_string(),
        }
    }
}

/// Application configuration.
#[derive(Debug, Clone)]
pub struct Config {
    /// Global hotkey binding for triggering capture
    pub hotkey: HotkeyBinding,
    /// Default save directory (None = ask every time)
    pub save_directory: Option<String>,
    /// Default image format for saving
    pub save_format: String,
    /// Whether to copy to the clipboard after capture
    pub auto_copy: bool,
}

impl Default for Config {
    /// The default hotkey, no save directory, PNG, no automatic copy.
    fn default() -> (c: Self)
        ensures
            c.hotkey.ctrl,
            c.hotkey.shift,
            !c.hotkey.alt,
            c.hotkey.key == 0x53,
            c.hotkey.description@ == "Ctrl+Shift+S"@,
            c.save_directory is None,
            c.save_format@ == "png"@,
            !c.auto_copy,
    {
        Config {
            hotkey: HotkeyBinding::default(),
            save_directory: None,
            save_format: "png".to_string(),
            auto_copy: false,
        }
    }
}

} // verus!
