use rustshot::message::{
    dialog_command, dialog_step, main_action, menu_action, mouse_point, overlay_key, tray_action,
    DialogStep, MainAction, MenuAction, OverlayKey, TrayAction, WM_APP, WM_COMMAND, WM_DESTROY,
    WM_HOTKEY, WM_KEYDOWN, WM_LBUTTONDBLCLK, WM_PAINT, WM_RBUTTONUP, WM_TRAY_ICON,
};

#[test]
fn mouse_points_are_signed_words() {
    assert_eq!(mouse_point(0x0014_000A), (10, 20));
    assert_eq!(mouse_point(0xFFFF_FFFEu32 as i32 as isize), (-2, -1));
    assert_eq!(mouse_point(0x8000_7FFFu32 as isize), (32767, -32768));
    assert_eq!(mouse_point(-1), (-1, -1));
}

#[test]
fn main_window_dispatch() {
    assert_eq!(WM_TRAY_ICON, 0x0401);
    assert_eq!(main_action(WM_HOTKEY, 1), MainAction::StartCapture);
    assert_eq!(main_action(WM_HOTKEY, 2), MainAction::Handled);
    assert_eq!(main_action(WM_TRAY_ICON, 0), MainAction::TrayNotification);
    assert_eq!(main_action(WM_COMMAND, 1001), MainAction::MenuCommand);
    assert_eq!(main_action(WM_DESTROY, 0), MainAction::Quit);
    assert_eq!(main_action(WM_PAINT, 0), MainAction::Default);
}

#[test]
fn tray_notifications() {
    assert_eq!(tray_action(WM_RBUTTONUP as isize), TrayAction::ShowMenu);
    assert_eq!(tray_action(0x0001_0000 + WM_LBUTTONDBLCLK as isize), TrayAction::StartCapture);
    assert_eq!(tray_action(0x0200), TrayAction::Ignore);
}

#[test]
fn menu_commands() {
    assert_eq!(menu_action(1001), MenuAction::Capture);
    assert_eq!(menu_action(1002), MenuAction::Settings);
    assert_eq!(menu_action(0x0001_0000 + 1003), MenuAction::About);
    assert_eq!(menu_action(1004), MenuAction::Exit);
    assert_eq!(menu_action(7), MenuAction::Ignore);
}

#[test]
fn overlay_keys() {
    assert_eq!(overlay_key(0x0D), OverlayKey::Confirm);
    assert_eq!(overlay_key(0x1B), OverlayKey::Cancel);
    assert_eq!(overlay_key(0x41), OverlayKey::Ignore);
}

#[test]
fn dialog_commands() {
    assert_eq!(dialog_command(1), Some(1));
    assert_eq!(dialog_command(2), Some(2));
    assert_eq!(dialog_command(3), None);
    assert_eq!(dialog_command(0x0001_0001), None);
}

#[test]
fn dialog_loop_steps() {
    assert_eq!(dialog_step(WM_APP, 1, true), DialogStep::Accept);
    assert_eq!(dialog_step(WM_APP, 2, true), DialogStep::Cancel);
    assert_eq!(dialog_step(WM_APP, 3, true), DialogStep::Dispatch);
    assert_eq!(dialog_step(WM_KEYDOWN, 0x0D, true), DialogStep::Accept);
    assert_eq!(dialog_step(WM_KEYDOWN, 0x1B, true), DialogStep::Cancel);
    assert_eq!(dialog_step(WM_KEYDOWN, 0x41, true), DialogStep::Dispatch);
    assert_eq!(dialog_step(WM_PAINT, 0, false), DialogStep::Cancel);
    assert_eq!(dialog_step(WM_KEYDOWN, 0x0D, false), DialogStep::Accept);
}
