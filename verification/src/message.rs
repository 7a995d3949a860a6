use vstd::prelude::*;

verus! {

/// Win32 message codes that the windows of the tool react to.
pub const WM_DESTROY: u32 = 0x0002;
pub const WM_PAINT: u32 = 0x000F;
pub const WM_KEYDOWN: u32 = 0x0100;
pub const WM_COMMAND: u32 = 0x0111;
pub const WM_HOTKEY: u32 = 0x0312;
pub const WM_MOUSEMOVE: u32 = 0x0200;
pub const WM_LBUTTONDOWN: u32 = 0x0201;
pub const WM_LBUTTONUP: u32 = 0x0202;
pub const WM_LBUTTONDBLCLK: u32 = 0x0203;
pub const WM_RBUTTONUP: u32 = 0x0205;
pub const WM_USER: u32 = 0x0400;
pub const WM_APP: u32 = 0x8000;

/// Message the tray icon sends to the main window.
pub const WM_TRAY_ICON: u32 = WM_USER + 1;

/// Identifier of the capture hot key.
pub const WM_HOTKEY_CAPTURE: u32 = 1;

/// Message posted by the text dialog when one of its buttons is clicked;
/// its `WPARAM` carries the control ID (1 = OK, 2 = Cancel).
pub const WM_TEXT_DLG_COMMAND: u32 = WM_APP;

/// Virtual-key codes.
pub const VK_RETURN: u32 = 0x0D;
pub const VK_ESCAPE: u32 = 0x1B;

/// Tray menu command IDs.
pub const ID_MENU_CAPTURE: u32 = 1001;
pub const ID_MENU_SETTINGS: u32 = 1002;
pub const ID_MENU_ABOUT: u32 = 1003;
pub const ID_MENU_EXIT: u32 = 1004;

/// The 16-bit word `w` read as a signed value.
pub open spec fn sign_extend16(w: int) -> int {
    if w < 0x8000 {
        w
    } else {
        w - 0x10000
    }
}

/// The pointer position packed in a mouse message's `LPARAM`: the low and
/// the high 16-bit words, each read as a signed value.
pub open spec fn lparam_point(lparam: isize) -> (int, int) {
    (sign_extend16((lparam & 0xFFFF) as int), sign_extend16(((lparam >> 16) & 0xFFFF) as int))
}

/// Unpack the pointer position of a mouse message.
pub fn mouse_point(lparam: isize) -> (p: (i32, i32))
    ensures
        p.0 as int == lparam_point(lparam).0,
        p.1 as int == lparam_point(lparam).1,
        -0x8000 <= p.0 < 0x8000,
        -0x8000 <= p.1 < 0x8000,
{
    let lo = lparam & 0xFFFF;
    let hi = (lparam >> 16) & 0xFFFF;
    assert(0 <= lo <= 0xFFFF) by (bit_vector)
        requires
            lo == lparam & 0xFFFF,
    ;
    assert(0 <= hi <= 0xFFFF) by (bit_vector)
        requires
            hi == (lparam >> 16) & 0xFFFF,
    ;
    let x = if lo < 0x8000 { lo as i32 } else { lo as i32 - 0x10000 };
    let y = if hi < 0x8000 { hi as i32 } else { hi as i32 - 0x10000 };
    (x, y)
}

/// The low 16-bit word of a `WPARAM`.
pub open spec fn low_word(w: usize) -> int {
    w as int % 0x10000
}

/// The high 16-bit word of the low 32 bits of a `WPARAM`.
pub open spec fn high_word(w: usize) -> int {
    (w as int / 0x10000) % 0x10000
}

/// What the main window does with a message.
#[derive(Clone, Copy, Debug, PartialEq, Eq, Structural)]
pub enum MainAction {
    /// Start a capture
    StartCapture,
    /// Handle a tray icon notification
    TrayNotification,
    /// Handle a menu command
    MenuCommand,
    /// Post the quit message
    Quit,
    /// Nothing to do; the message is handled
    Handled,
    /// Leave the message to the default window procedure
    Default,
}

/// What the main window does with message `msg`.
pub open spec fn main_action_spec(msg: u32, wparam: usize) -> MainAction {
    if msg == WM_HOTKEY {
        if wparam == WM_HOTKEY_CAPTURE as usize {
            MainAction::StartCapture
        } else {
            MainAction::Handled
        }
    } else if msg == WM_TRAY_ICON {
        MainAction::TrayNotification
    } else if msg == WM_COMMAND {
        MainAction::MenuCommand
    } else if msg == WM_DESTROY {
        MainAction::Quit
    } else {
        MainAction::Default
    }
}

/// Decide what the main window does with message `msg`.
pub fn main_action(msg: u32, wparam: usize) -> (a: MainAction)
    ensures
        a == main_action_spec(msg, wparam),
{
    match msg {
        WM_HOTKEY => {
            if wparam == WM_HOTKEY_CAPTURE as usize {
                MainAction::StartCapture
            } else {
                MainAction::Handled
            }
        },
        WM_TRAY_ICON => MainAction::TrayNotification,
        WM_COMMAND => MainAction::MenuCommand,
        WM_DESTROY => MainAction::Quit,
        _ => MainAction::Default,
    }
}

/// What a tray icon notification asks for.
#[derive(Clone, Copy, Debug, PartialEq, Eq, Structural)]
pub enum TrayAction {
    /// Show the context menu
    ShowMenu,
    /// Start a capture
    StartCapture,
    /// Nothing
    Ignore,
}

/// Decide on a tray icon notification: right-button release shows the menu,
/// a double click starts a capture.
pub fn tray_action(lparam: isize) -> (a: TrayAction)
    ensures
        a == (if (lparam & 0xFFFF) == WM_RBUTTONUP as isize {
            TrayAction::ShowMenu
        } else if (lparam & 0xFFFF) == WM_LBUTTONDBLCLK as isize {
            TrayAction::StartCapture
        } else {
            TrayAction::Ignore
        }),
{
    let message = lparam & 0xFFFF;
    if message == WM_RBUTTONUP as isize {
        TrayAction::ShowMenu
    } else if message == WM_LBUTTONDBLCLK as isize {
        TrayAction::StartCapture
    } else {
        TrayAction::Ignore
    }
}

/// A command of the tray menu.
#[derive(Clone, Copy, Debug, PartialEq, Eq, Structural)]
pub enum MenuAction {
    Capture,
    Settings,
    About,
    Exit,
    Ignore,
}

/// The menu command carried in the low word of `wparam`.
pub open spec fn menu_action_spec(wparam: usize) -> MenuAction {
    let cmd = low_word(wparam);
    if cmd == ID_MENU_CAPTURE {
        MenuAction::Capture
    } else if cmd == ID_MENU_SETTINGS {
        MenuAction::Settings
    } else if cmd == ID_MENU_ABOUT {
        MenuAction::About
    } else if cmd == ID_MENU_EXIT {
        MenuAction::Exit
    } else {
        MenuAction::Ignore
    }
}

/// Decode a menu command.
pub fn menu_action(wparam: usize) -> (a: MenuAction)
    ensures
        a == menu_action_spec(wparam),
{
    let cmd = (wparam % 0x10000) as u32;
    match cmd {
        ID_MENU_CAPTURE => MenuAction::Capture,
        ID_MENU_SETTINGS => MenuAction::Settings,
        ID_MENU_ABOUT => MenuAction::About,
        ID_MENU_EXIT => MenuAction::Exit,
        _ => MenuAction::Ignore,
    }
}

/// What a key press asks of the selection overlay.
#[derive(Clone, Copy, Debug, PartialEq, Eq, Structural)]
pub enum OverlayKey {
    /// Enter: confirm the selection
    Confirm,
    /// Escape: close the overlay
    Cancel,
    Ignore,
}

/// Decide on a key press in the overlay.
pub fn overlay_key(wparam: usize) -> (k: OverlayKey)
    ensures
        k == (if wparam as u32 == VK_RETURN {
            OverlayKey::Confirm
        } else if wparam as u32 == VK_ESCAPE {
            OverlayKey::Cancel
        } else {
            OverlayKey::Ignore
        }),
{
    let key = wparam as u32;
    if key == VK_RETURN {
        OverlayKey::Confirm
    } else if key == VK_ESCAPE {
        OverlayKey::Cancel
    } else {
        OverlayKey::Ignore
    }
}

/// The control ID of a button click reported by `WM_COMMAND` to the text
/// dialog: a `BN_CLICKED` notification (high word 0) from OK (1) or Cancel
/// (2).
pub open spec fn dialog_command_spec(wparam: usize) -> Option<u32> {
    if high_word(wparam) == 0 && (low_word(wparam) == 1 || low_word(wparam) == 2) {
        Some(low_word(wparam) as u32)
    } else {
        None
    }
}

/// Decode a `WM_COMMAND` received by the text dialog.
pub fn dialog_command(wparam: usize) -> (c: Option<u32>)
    ensures
        c == dialog_command_spec(wparam),
{
    let notification = ((wparam / 0x10000) % 0x10000) as u32;
    let ctrl_id = (wparam % 0x10000) as u32;
    if notification == 0 && (ctrl_id == 1 || ctrl_id == 2) {
        Some(ctrl_id)
    } else {
        None
    }
}

/// A step of the text dialog's message loop.
#[derive(Clone, Copy, Debug, PartialEq, Eq, Structural)]
pub enum DialogStep {
    /// Read the edit control's text and close with it
    Accept,
    /// Close without text
    Cancel,
    /// Hand the message on to the dialog
    Dispatch,
}

/// The dialog loop's decision on a message: a posted button command or
/// Enter accepts, Cancel or Escape cancels, a closed dialog cancels, and
/// anything else is dispatched.
pub open spec fn dialog_step_spec(message: u32, wparam: usize, dialog_alive: bool) -> DialogStep {
    if message == WM_TEXT_DLG_COMMAND && wparam as u32 == 1 {
        DialogStep::Accept
    } else if message == WM_TEXT_DLG_COMMAND && wparam as u32 == 2 {
        DialogStep::Cancel
    } else if message == WM_KEYDOWN && wparam as u32 == VK_RETURN {
        DialogStep::Accept
    } else if message == WM_KEYDOWN && wparam as u32 == VK_ESCAPE {
        DialogStep::Cancel
    } else if !dialog_alive {
        DialogStep::Cancel
    } else {
        DialogStep::Dispatch
    }
}

/// Decide what the text dialog's loop does with a message.
pub fn dialog_step(message: u32, wparam: usize, dialog_alive: bool) -> (s: DialogStep)
    ensures
        s == dialog_step_spec(message, wparam, dialog_alive),
{
    if message == WM_TEXT_DLG_COMMAND {
        let ctrl_id = wparam as u32;
        if ctrl_id == 1 {
            return DialogStep::Accept;
        } else if ctrl_id == 2 {
            return DialogStep::Cancel;
        }
    }
    if message == WM_KEYDOWN {
        let key = wparam as u32;
        if key == VK_RETURN {
            return DialogStep::Accept;
        } else if key == VK_ESCAPE {
            return DialogStep::Cancel;
        }
    }
    if !dialog_alive {
        return DialogStep::Cancel;
    }
    DialogStep::Dispatch
}

} // verus!
