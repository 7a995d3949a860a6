use rustshot::capture::ScreenCapture;
use rustshot::overlay::{
    apply_resize, cursor_for, dimensions_label, get_handle_positions, hit_test_fits, hit_test_handle, label_rect,
    CursorKind, HandlePosition, InteractionMode, MoveResponse, OverlaySession, ReleaseResponse,
    SelectionRect,
};

fn sel(x: i32, y: i32, width: i32, height: i32) -> SelectionRect {
    SelectionRect { x, y, width, height }
}

fn capture(w: i32, h: i32) -> ScreenCapture {
    ScreenCapture {
        pixels: (0..(w * h * 4)).map(|i| (i % 251) as u8).collect(),
        width: w,
        height: h,
        offset_x: 100,
        offset_y: -20,
    }
}

#[test]
fn handle_positions() {
    let h = get_handle_positions(&sel(10, 20, 30, 41));
    assert_eq!(h, vec![(10, 20), (25, 20), (40, 20), (10, 40), (40, 40), (10, 61), (25, 61), (40, 61)]);
}

#[test]
fn hit_test_finds_handles_within_radius() {
    let s = sel(10, 20, 30, 40);
    assert_eq!(hit_test_handle(&s, 10, 20), HandlePosition::TopLeft);
    assert_eq!(hit_test_handle(&s, 18, 20), HandlePosition::TopLeft);
    assert_eq!(hit_test_handle(&s, 19, 30), HandlePosition::Outside);
    assert_eq!(hit_test_handle(&s, 25, 21), HandlePosition::Top);
    assert_eq!(hit_test_handle(&s, 42, 22), HandlePosition::TopRight);
    assert_eq!(hit_test_handle(&s, 9, 41), HandlePosition::Left);
    assert_eq!(hit_test_handle(&s, 40, 40), HandlePosition::Right);
    assert_eq!(hit_test_handle(&s, 10, 60), HandlePosition::BottomLeft);
    assert_eq!(hit_test_handle(&s, 25, 60), HandlePosition::Bottom);
    assert_eq!(hit_test_handle(&s, 46, 66), HandlePosition::Outside);
    assert_eq!(hit_test_handle(&s, 44, 64), HandlePosition::BottomRight);
}

#[test]
fn hit_test_prefers_first_handle_on_tiny_selection() {
    assert_eq!(hit_test_handle(&sel(0, 0, 2, 2), 1, 1), HandlePosition::TopLeft);
}

#[test]
fn hit_test_overflow_check() {
    assert!(hit_test_fits(&sel(0, 0, 10, 10), 100, 100));
    assert!(!hit_test_fits(&sel(-30000, 0, 10, 10), 30000, 0));
    assert!(!hit_test_fits(&sel(i32::MAX, 0, 10, 10), 0, 0));
}

#[test]
fn resize_by_each_handle() {
    let s = sel(10, 20, 30, 40);
    let mut r = s;
    apply_resize(&mut r, HandlePosition::TopLeft, 5, 15);
    assert_eq!(r, sel(5, 15, 35, 45));
    let mut r = s;
    apply_resize(&mut r, HandlePosition::Top, 99, 30);
    assert_eq!(r, sel(10, 30, 30, 30));
    let mut r = s;
    apply_resize(&mut r, HandlePosition::TopRight, 50, 10);
    assert_eq!(r, sel(10, 10, 40, 50));
    let mut r = s;
    apply_resize(&mut r, HandlePosition::Left, 0, 99);
    assert_eq!(r, sel(0, 20, 40, 40));
    let mut r = s;
    apply_resize(&mut r, HandlePosition::Right, 60, 99);
    assert_eq!(r, sel(10, 20, 50, 40));
    let mut r = s;
    apply_resize(&mut r, HandlePosition::BottomLeft, 20, 70);
    assert_eq!(r, sel(20, 20, 20, 50));
    let mut r = s;
    apply_resize(&mut r, HandlePosition::Bottom, 0, 65);
    assert_eq!(r, sel(10, 20, 30, 45));
    let mut r = s;
    apply_resize(&mut r, HandlePosition::BottomRight, 12, 23);
    assert_eq!(r, sel(10, 20, 2, 3));
    let mut r = s;
    apply_resize(&mut r, HandlePosition::Outside, 0, 0);
    assert_eq!(r, s);
}

#[test]
fn resize_past_the_opposite_edge_keeps_one_pixel() {
    let mut r = sel(10, 20, 30, 40);
    apply_resize(&mut r, HandlePosition::BottomRight, 0, 0);
    assert_eq!(r, sel(10, 20, 1, 1));
    let mut r = sel(10, 20, 30, 40);
    apply_resize(&mut r, HandlePosition::TopLeft, 100, 100);
    assert_eq!(r, sel(100, 100, 1, 1));
}

#[test]
fn cursors() {
    let s = sel(10, 10, 10, 10);
    assert_eq!(cursor_for(HandlePosition::TopLeft, &s, 0, 0), CursorKind::SizeNwse);
    assert_eq!(cursor_for(HandlePosition::BottomRight, &s, 0, 0), CursorKind::SizeNwse);
    assert_eq!(cursor_for(HandlePosition::TopRight, &s, 0, 0), CursorKind::SizeNesw);
    assert_eq!(cursor_for(HandlePosition::BottomLeft, &s, 0, 0), CursorKind::SizeNesw);
    assert_eq!(cursor_for(HandlePosition::Top, &s, 0, 0), CursorKind::SizeNs);
    assert_eq!(cursor_for(HandlePosition::Bottom, &s, 0, 0), CursorKind::SizeNs);
    assert_eq!(cursor_for(HandlePosition::Left, &s, 0, 0), CursorKind::SizeWe);
    assert_eq!(cursor_for(HandlePosition::Right, &s, 0, 0), CursorKind::SizeWe);
    assert_eq!(cursor_for(HandlePosition::Outside, &s, 15, 20), CursorKind::SizeAll);
    assert_eq!(cursor_for(HandlePosition::Outside, &s, 21, 15), CursorKind::Cross);
}

#[test]
fn label_above_selection() {
    let r = label_rect(&sel(10, 50, 100, 30), 12);
    assert_eq!((r.left, r.top, r.right, r.bottom), (10, 28, 10 + 12 * 8 + 12, 48));
}

#[test]
fn drawing_a_large_selection_confirms_on_release() {
    let mut o = OverlaySession::new(capture(40, 30));
    assert_eq!(o.mode(), InteractionMode::WaitingForDraw);
    assert_eq!(o.mouse_move(3, 3), MoveResponse::Ignore);
    assert!(o.can_press(20, 15));
    o.mouse_down(20, 15);
    assert_eq!(o.mode(), InteractionMode::Drawing);
    assert_eq!(o.selection(), Some(sel(20, 15, 0, 0)));
    assert_eq!(o.mouse_move(10, 25), MoveResponse::Repaint);
    assert_eq!(o.selection(), Some(sel(10, 15, 10, 10)));
    assert_eq!(o.mouse_up(), ReleaseResponse::Confirm);
    let r = o.confirm().unwrap();
    assert_eq!((r.width, r.height, r.screen_x, r.screen_y), (10, 10, 110, -5));
    assert_eq!(r.pixels.len(), 400);
    let c = o.capture();
    let first = ((15 * 40 + 10) * 4) as usize;
    assert_eq!(&r.pixels[0..4], &c.pixels[first..first + 4]);
}

#[test]
fn small_selection_goes_idle_then_moves_and_resizes() {
    let mut o = OverlaySession::new(capture(40, 30));
    o.mouse_down(10, 10);
    o.mouse_move(13, 12);
    assert_eq!(o.mouse_up(), ReleaseResponse::ReleaseAndRepaint);
    assert_eq!(o.mode(), InteractionMode::Idle);
    assert!(o.confirm().is_none());
    assert_eq!(o.shown_selection(), Some(sel(10, 10, 3, 2)));
    // hovering over a handle shows a resize cursor
    assert_eq!(o.mouse_move(10, 10), MoveResponse::SetCursor(CursorKind::SizeNwse));
    // press on the bottom-right handle and drag it
    o.mouse_down(13, 12);
    assert_eq!(o.mode(), InteractionMode::Resizing(HandlePosition::TopLeft));
}

#[test]
fn moving_keeps_the_grab_point() {
    let mut o = OverlaySession::new(capture(200, 200));
    o.mouse_down(10, 10);
    o.mouse_move(110, 60);
    // small enough? no: 100 x 50 is large, so the release confirms
    assert_eq!(o.mouse_up(), ReleaseResponse::Confirm);
    // press inside, away from handles: moving
    o.mouse_down(40, 30);
    assert_eq!(o.mode(), InteractionMode::Moving);
    assert_eq!(o.mouse_move(50, 45), MoveResponse::Repaint);
    assert_eq!(o.selection(), Some(sel(20, 25, 100, 50)));
    assert_eq!(o.mouse_up(), ReleaseResponse::ReleaseAndRepaint);
    assert_eq!(o.mode(), InteractionMode::Idle);
    // press on the right handle and widen
    o.mouse_down(120, 50);
    assert_eq!(o.mode(), InteractionMode::Resizing(HandlePosition::Right));
    o.mouse_move(150, 0);
    assert_eq!(o.selection(), Some(sel(20, 25, 130, 50)));
    assert_eq!(o.mouse_up(), ReleaseResponse::ReleaseAndRepaint);
    // press outside: a new selection starts
    o.mouse_down(190, 190);
    assert_eq!(o.selection(), Some(sel(190, 190, 0, 0)));
    assert_eq!(o.shown_selection(), None);
}

#[test]
fn release_without_drag_is_ignored() {
    let mut o = OverlaySession::new(capture(4, 4));
    assert_eq!(o.mouse_up(), ReleaseResponse::Ignore);
    assert!(o.can_move(1000, 1000));
    assert!(o.can_confirm());
}

#[test]
fn dimensions_label_text() {
    assert_eq!(dimensions_label(&sel(5, 5, 120, 45)), "120 x 45 px");
    assert_eq!(dimensions_label(&sel(5, 5, 0, -7)), "0 x -7 px");
    assert_eq!(dimensions_label(&sel(0, 0, i32::MAX, 10)), "2147483647 x 10 px");
    assert_eq!(dimensions_label(&sel(0, 0, i32::MIN, 1000)), "-2147483648 x 1000 px");
    assert_eq!(dimensions_label(&sel(0, 0, 9, 10)), "9 x 10 px");
}
