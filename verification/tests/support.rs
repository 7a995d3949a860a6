use rustshot::bitmap::{clipboard_dib, header_bytes, top_down_header};
use rustshot::config::{Config, HotkeyBinding};
use rustshot::hotkey::{HotkeyManager, MOD_ALT, MOD_CONTROL, MOD_NOREPEAT, MOD_SHIFT};
use rustshot::save::{bgra_to_rgba, checked_plan_save, ends_with, is_jpeg_path, plan_save, rgba_to_rgb, wide_len, PixelLayout};
use rustshot::tray::{tip_buffer, TIP_CAPACITY};

#[test]
fn default_config() {
    let c = Config::default();
    assert!(c.hotkey.ctrl && c.hotkey.shift && !c.hotkey.alt);
    assert_eq!(c.hotkey.key, 0x53);
    assert_eq!(c.hotkey.description, "Ctrl+Shift+S");
    assert!(c.save_directory.is_none());
    assert_eq!(c.save_format, "png");
    assert!(!c.auto_copy);
    let b = HotkeyBinding::default();
    assert_eq!(b.description, "Ctrl+Shift+S");
}

#[test]
fn hotkey_modifiers() {
    let b = HotkeyBinding::default();
    assert_eq!(HotkeyManager::modifiers_for(&b), MOD_NOREPEAT | MOD_CONTROL | MOD_SHIFT);
    let alt = HotkeyBinding { ctrl: false, shift: false, alt: true, key: 0x50, description: "Alt+P".to_string() };
    assert_eq!(HotkeyManager::modifiers_for(&alt), 0x4001);
    assert_eq!(HotkeyManager::key_for(&alt), 0x50);
    let m = HotkeyManager::new(77);
    assert_eq!((m.window(), m.id()), (77, 1));
}

#[test]
fn modifier_names() {
    assert_eq!(HotkeyManager::modifiers_to_string(MOD_CONTROL | MOD_SHIFT), "Ctrl+Shift");
    assert_eq!(HotkeyManager::modifiers_to_string(MOD_CONTROL | MOD_SHIFT | MOD_ALT | MOD_NOREPEAT), "Ctrl+Shift+Alt");
    assert_eq!(HotkeyManager::modifiers_to_string(MOD_ALT), "Alt");
    assert_eq!(HotkeyManager::modifiers_to_string(MOD_SHIFT | MOD_ALT), "Shift+Alt");
    assert_eq!(HotkeyManager::modifiers_to_string(MOD_NOREPEAT), "");
}

#[test]
fn pixel_conversions() {
    let bgra = [1u8, 2, 3, 4, 5, 6, 7, 8, 9];
    assert_eq!(bgra_to_rgba(&bgra), vec![3, 2, 1, 4, 7, 6, 5, 8]);
    assert_eq!(rgba_to_rgb(&[3, 2, 1, 4, 7, 6, 5, 8]), vec![3, 2, 1, 7, 6, 5]);
    assert!(bgra_to_rgba(&[1, 2, 3]).is_empty());
}

#[test]
fn jpeg_paths() {
    assert!(ends_with("abc", "bc"));
    assert!(!ends_with("c", "bc"));
    assert!(is_jpeg_path("C:\\shots\\a.jpg"));
    assert!(is_jpeg_path("C:\\shots\\A.JPEG"));
    assert!(!is_jpeg_path("C:\\shots\\a.png"));
    assert!(!is_jpeg_path("jpg"));
}

#[test]
fn save_plans() {
    let px = [10u8, 20, 30, 40];
    let p = plan_save("x.JPG", &px, 1, 1);
    assert_eq!(p.layout, PixelLayout::Rgb8);
    assert_eq!(p.pixels, vec![30, 20, 10]);
    let p = plan_save("x.png", &px, 1, 1);
    assert_eq!(p.layout, PixelLayout::Rgba8);
    assert_eq!(p.pixels, vec![30, 20, 10, 40]);
    assert_eq!((p.width, p.height), (1, 1));
}

#[test]
fn checked_save_plans() {
    let px = [10u8, 20, 30, 40];
    let p = checked_plan_save("shot.jpeg", &px, 1, 1).unwrap();
    assert_eq!(p.layout, PixelLayout::Rgb8);
    assert_eq!(p.pixels, vec![30, 20, 10]);
    assert!(checked_plan_save("shot.jpg", &px, 40000, 40000).is_none());
    assert!(checked_plan_save("shot.JPG", &px, -40000, 40000).is_none());
    let p = checked_plan_save("shot.png", &px, 40000, 40000).unwrap();
    assert_eq!(p.layout, PixelLayout::Rgba8);
    assert_eq!(p.pixels, vec![30, 20, 10, 40]);
    assert_eq!((p.width, p.height), (40000, 40000));
    let p = checked_plan_save("shot.jpg", &px, 715827882, 1).unwrap();
    assert_eq!(p.layout, PixelLayout::Rgb8);
    assert!(checked_plan_save("shot.jpg", &px, 715827883, 1).is_none());
}

#[test]
fn wide_string_length() {
    assert_eq!(wide_len(&[65, 66, 0, 67]), 2);
    assert_eq!(wide_len(&[65, 66]), 2);
    assert_eq!(wide_len(&[0]), 0);
}

#[test]
fn bitmap_header_layout() {
    let h = top_down_header(2, 3, 24);
    assert_eq!(h.height, -3);
    let b = header_bytes(&h);
    assert_eq!(b.len(), 40);
    assert_eq!(&b[0..4], &[40, 0, 0, 0]);
    assert_eq!(&b[4..8], &[2, 0, 0, 0]);
    assert_eq!(&b[8..12], &[0xFD, 0xFF, 0xFF, 0xFF]);
    assert_eq!(&b[12..16], &[1, 0, 32, 0]);
    assert_eq!(&b[20..24], &[24, 0, 0, 0]);
}

#[test]
fn clipboard_bitmap_is_header_then_pixels() {
    let px = [9u8, 8, 7, 6, 5, 4, 3, 2, 1];
    let d = clipboard_dib(&px, 2, 1);
    assert_eq!(d.len(), 48);
    assert_eq!(&d[40..], &px[0..8]);
    assert_eq!(&d[20..24], &[8, 0, 0, 0]);
}

#[test]
fn tooltip_buffer() {
    let tip: Vec<u16> = "RustShot - Screenshot Tool".encode_utf16().chain(std::iter::once(0)).collect();
    let b = tip_buffer(&tip, TIP_CAPACITY);
    assert_eq!(b.len(), 128);
    assert_eq!(&b[..tip.len()], &tip[..]);
    assert!(b[tip.len()..].iter().all(|&u| u == 0));
    let long = vec![7u16; 200];
    assert_eq!(tip_buffer(&long, 128), vec![7u16; 128]);
}

#[test]
fn swapping_twice_gives_the_pixels_back() {
    let px = [1u8, 2, 3, 4, 5, 6, 7, 8, 9, 10];
    let once = bgra_to_rgba(&px);
    assert_eq!(bgra_to_rgba(&once), px[0..8].to_vec());
}
