use vstd::prelude::*;

use crate::capture::{crop_fits, crop_region, crop_spec, ScreenCapture};
use crate::geometry::{fits_i32, trunc_div, Rect};

verus! {

/// Selection rectangle, in overlay client coordinates.
#[derive(Clone, Copy, Debug, PartialEq, Eq, Structural)]
pub struct SelectionRect {
    pub x: i32,
    pub y: i32,
    pub width: i32,
    pub height: i32,
}

/// The eight resize handles of a selection, or none.
#[derive(Clone, Copy, Debug, PartialEq, Eq, Structural)]
pub enum HandlePosition {
    TopLeft,
    Top,
    TopRight,
    Left,
    Right,
    BottomLeft,
    Bottom,
    BottomRight,
    /// The pointer is on no handle
    Outside,
}

/// Interaction mode of the overlay.
#[derive(Clone, Copy, Debug, PartialEq, Eq, Structural)]
pub enum InteractionMode {
    /// Waiting for the user to start drawing (initial state)
    WaitingForDraw,
    /// Drawing a new selection (after the first button press)
    Drawing,
    /// Moving the selection rectangle
    Moving,
    /// Resizing by a specific handle
    Resizing(HandlePosition),
    /// The selection is complete, waiting for an action
    Idle,
}

/// Handle radius in pixels.
pub const HANDLE_RADIUS: i32 = 5;

/// Alpha (0-255) of the dimming layer over the unselected screen.
pub const DIM_ALPHA: u8 = 100;

/// Squared distance within which the pointer is on a handle:
/// `(HANDLE_RADIUS + 3)` squared.
pub open spec fn grab_radius_sq() -> int {
    (HANDLE_RADIUS + 3) * (HANDLE_RADIUS + 3)
}

/// The right and bottom edges of `s` are `i32` values.
pub open spec fn sel_fits(s: SelectionRect) -> bool {
    &&& fits_i32(s.x + s.width)
    &&& fits_i32(s.y + s.height)
}

/// Positions of the eight handles of `s`, in the order TopLeft, Top,
/// TopRight, Left, Right, BottomLeft, Bottom, BottomRight.
pub open spec fn handle_points(s: SelectionRect) -> Seq<(int, int)> {
    let cx = s.x + trunc_div(s.width as int, 2);
    let cy = s.y + trunc_div(s.height as int, 2);
    let r = s.x + s.width;
    let b = s.y + s.height;
    seq![(s.x as int, s.y as int), (cx, s.y as int), (r, s.y as int), (s.x as int, cy), (r, cy), (s.x as int, b), (cx, b), (r, b)]
}

/// The handle kinds, in the order of [`handle_points`].
pub open spec fn handle_kinds() -> Seq<HandlePosition> {
    seq![
        HandlePosition::TopLeft,
        HandlePosition::Top,
        HandlePosition::TopRight,
        HandlePosition::Left,
        HandlePosition::Right,
        HandlePosition::BottomLeft,
        HandlePosition::Bottom,
        HandlePosition::BottomRight,
    ]
}

/// Squared distance from the pointer to `p`.
pub open spec fn dist_sq(p: (int, int), mx: int, my: int) -> int {
    (mx - p.0) * (mx - p.0) + (my - p.1) * (my - p.1)
}

/// The pointer is on the handle at `p`.
pub open spec fn near(p: (int, int), mx: int, my: int) -> bool {
    dist_sq(p, mx, my) <= grab_radius_sq()
}

/// The `i32` arithmetic of the distance test against `p` cannot overflow.
pub open spec fn dist_fits(p: (int, int), mx: int, my: int) -> bool {
    &&& fits_i32(mx - p.0)
    &&& fits_i32(my - p.1)
    &&& dist_sq(p, mx, my) <= i32::MAX
}

/// The handle under the pointer: the first handle, in the order of
/// [`handle_points`], that the pointer is on, or `None`.
pub open spec fn hit_spec(s: SelectionRect, mx: int, my: int) -> HandlePosition {
    let p = handle_points(s);
    if near(p[0], mx, my) {
        HandlePosition::TopLeft
    } else if near(p[1], mx, my) {
        HandlePosition::Top
    } else if near(p[2], mx, my) {
        HandlePosition::TopRight
    } else if near(p[3], mx, my) {
        HandlePosition::Left
    } else if near(p[4], mx, my) {
        HandlePosition::Right
    } else if near(p[5], mx, my) {
        HandlePosition::BottomLeft
    } else if near(p[6], mx, my) {
        HandlePosition::Bottom
    } else if near(p[7], mx, my) {
        HandlePosition::BottomRight
    } else {
        HandlePosition::Outside
    }
}

/// The distance tests of the hit test, up to the first handle hit, cannot
/// overflow.
pub open spec fn hit_fits(s: SelectionRect, mx: int, my: int) -> bool {
    let p = handle_points(s);
    &&& sel_fits(s)
    &&& dist_fits(p[0], mx, my)
    &&& (near(p[0], mx, my) || dist_fits(p[1], mx, my))
    &&& (near(p[0], mx, my) || near(p[1], mx, my) || dist_fits(p[2], mx, my))
    &&& (near(p[0], mx, my) || near(p[1], mx, my) || near(p[2], mx, my) || dist_fits(p[3], mx, my))
    &&& (near(p[0], mx, my) || near(p[1], mx, my) || near(p[2], mx, my) || near(p[3], mx, my)
        || dist_fits(p[4], mx, my))
    &&& (near(p[0], mx, my) || near(p[1], mx, my) || near(p[2], mx, my) || near(p[3], mx, my)
        || near(p[4], mx, my) || dist_fits(p[5], mx, my))
    &&& (near(p[0], mx, my) || near(p[1], mx, my) || near(p[2], mx, my) || near(p[3], mx, my)
        || near(p[4], mx, my) || near(p[5], mx, my) || dist_fits(p[6], mx, my))
    &&& (near(p[0], mx, my) || near(p[1], mx, my) || near(p[2], mx, my) || near(p[3], mx, my)
        || near(p[4], mx, my) || near(p[5], mx, my) || near(p[6], mx, my) || dist_fits(p[7], mx, my))
}

/// The point is inside `s`, edges included.
pub open spec fn inside(s: SelectionRect, mx: int, my: int) -> bool {
    s.x <= mx <= s.x + s.width && s.y <= my <= s.y + s.height
}

/// Get the pixel positions of all 8 resize handles.
pub fn get_handle_positions(sel: &SelectionRect) -> (r: Vec<(i32, i32)>)
    requires
        sel_fits(*sel),
    ensures
        r@.len() == 8,
        forall|i: int|
            0 <= i < 8 ==> (#[trigger] r@[i]).0 as int == handle_points(*sel)[i].0 && r@[i].1 as int
                == handle_points(*sel)[i].1,
{
    let cx = sel.x + sel.width / 2;
    let cy = sel.y + sel.height / 2;
    let r = sel.x + sel.width;
    let b = sel.y + sel.height;
    let v = vec![(sel.x, sel.y), (cx, sel.y), (r, sel.y), (sel.x, cy), (r, cy), (sel.x, b), (cx, b), (r, b)];
    v
}

fn near_handle(p: (i32, i32), mx: i32, my: i32) -> (b: bool)
    requires
        dist_fits((p.0 as int, p.1 as int), mx as int, my as int),
    ensures
        b == near((p.0 as int, p.1 as int), mx as int, my as int),
{
    let dx = mx - p.0;
    let dy = my - p.1;
    proof {
        assert(0 <= dx * dx) by (nonlinear_arith);
        assert(0 <= dy * dy) by (nonlinear_arith);
    }
    dx * dx + dy * dy <= (HANDLE_RADIUS + 3) * (HANDLE_RADIUS + 3)
}

/// Hit-test which handle (if any) the pointer is over.
pub fn hit_test_handle(sel: &SelectionRect, mx: i32, my: i32) -> (h: HandlePosition)
    requires
        hit_fits(*sel, mx as int, my as int),
    ensures
        h == hit_spec(*sel, mx as int, my as int),
{
    let hs = get_handle_positions(sel);
    let ghost p = handle_points(*sel);
    assert(hs@[0].0 as int == p[0].0 && hs@[0].1 as int == p[0].1);
    assert(hs@[1].0 as int == p[1].0 && hs@[1].1 as int == p[1].1);
    assert(hs@[2].0 as int == p[2].0 && hs@[2].1 as int == p[2].1);
    assert(hs@[3].0 as int == p[3].0 && hs@[3].1 as int == p[3].1);
    assert(hs@[4].0 as int == p[4].0 && hs@[4].1 as int == p[4].1);
    assert(hs@[5].0 as int == p[5].0 && hs@[5].1 as int == p[5].1);
    assert(hs@[6].0 as int == p[6].0 && hs@[6].1 as int == p[6].1);
    assert(hs@[7].0 as int == p[7].0 && hs@[7].1 as int == p[7].1);
    if near_handle(hs[0], mx, my) {
        return HandlePosition::TopLeft;
    }
    if near_handle(hs[1], mx, my) {
        return HandlePosition::Top;
    }
    if near_handle(hs[2], mx, my) {
        return HandlePosition::TopRight;
    }
    if near_handle(hs[3], mx, my) {
        return HandlePosition::Left;
    }
    if near_handle(hs[4], mx, my) {
        return HandlePosition::Right;
    }
    if near_handle(hs[5], mx, my) {
        return HandlePosition::BottomLeft;
    }
    if near_handle(hs[6], mx, my) {
        return HandlePosition::Bottom;
    }
    if near_handle(hs[7], mx, my) {
        return HandlePosition::BottomRight;
    }
    HandlePosition::Outside
}

/// The `i32` arithmetic of resizing `s` by `handle` to the pointer cannot
/// overflow.
pub open spec fn resize_fits(s: SelectionRect, handle: HandlePosition, mx: int, my: int) -> bool {
    let right = s.x + s.width;
    let bottom = s.y + s.height;
    match handle {
        HandlePosition::TopLeft => fits_i32(right) && fits_i32(bottom) && fits_i32(right - mx) && fits_i32(
            bottom - my,
        ),
        HandlePosition::Top => fits_i32(bottom) && fits_i32(bottom - my),
        HandlePosition::TopRight => fits_i32(bottom) && fits_i32(mx - s.x) && fits_i32(bottom - my),
        HandlePosition::Left => fits_i32(right) && fits_i32(right - mx),
        HandlePosition::Right => fits_i32(mx - s.x),
        HandlePosition::BottomLeft => fits_i32(right) && fits_i32(right - mx) && fits_i32(my - s.y),
        HandlePosition::Bottom => fits_i32(my - s.y),
        HandlePosition::BottomRight => fits_i32(mx - s.x) && fits_i32(my - s.y),
        HandlePosition::Outside => true,
    }
}

/// At least one pixel.
pub open spec fn at_least_one(v: int) -> int {
    if v < 1 {
        1
    } else {
        v
    }
}

/// The edges (left, top, width, height) that dragging `handle` to the
/// pointer gives, before the minimum size is applied: the dragged edges
/// follow the pointer and the others stay.
pub open spec fn resize_raw(s: SelectionRect, handle: HandlePosition, mx: int, my: int) -> (int, int, int, int) {
    let right = s.x + s.width;
    let bottom = s.y + s.height;
    match handle {
        HandlePosition::TopLeft => (mx, my, right - mx, bottom - my),
        HandlePosition::Top => (s.x as int, my, s.width as int, bottom - my),
        HandlePosition::TopRight => (s.x as int, my, mx - s.x, bottom - my),
        HandlePosition::Left => (mx, s.y as int, right - mx, s.height as int),
        HandlePosition::Right => (s.x as int, s.y as int, mx - s.x, s.height as int),
        HandlePosition::BottomLeft => (mx, s.y as int, right - mx, my - s.y),
        HandlePosition::Bottom => (s.x as int, s.y as int, s.width as int, my - s.y),
        HandlePosition::BottomRight => (s.x as int, s.y as int, mx - s.x, my - s.y),
        HandlePosition::Outside => (s.x as int, s.y as int, s.width as int, s.height as int),
    }
}

/// The selection after dragging `handle` to the pointer: [`resize_raw`], with
/// width and height raised to at least one pixel.
pub open spec fn resize_spec(s: SelectionRect, handle: HandlePosition, mx: int, my: int) -> SelectionRect {
    let r = resize_raw(s, handle, mx, my);
    SelectionRect {
        x: r.0 as i32,
        y: r.1 as i32,
        width: at_least_one(r.2) as i32,
        height: at_least_one(r.3) as i32,
    }
}

/// Apply a resize by the handle being dragged.
pub fn apply_resize(sel: &mut SelectionRect, handle: HandlePosition, mx: i32, my: i32)
    requires
        resize_fits(*old(sel), handle, mx as int, my as int),
    ensures
        *final(sel) == resize_spec(*old(sel), handle, mx as int, my as int),
        final(sel).width >= 1,
        final(sel).height >= 1,
{
    match handle {
        HandlePosition::TopLeft => {
            let right = sel.x + sel.width;
            let bottom = sel.y + sel.height;
            sel.x = mx;
            sel.y = my;
            sel.width = right - mx;
            sel.height = bottom - my;
        },
        HandlePosition::Top => {
            let bottom = sel.y + sel.height;
            sel.y = my;
            sel.height = bottom - my;
        },
        HandlePosition::TopRight => {
            let bottom = sel.y + sel.height;
            sel.width = mx - sel.x;
            sel.y = my;
            sel.height = bottom - my;
        },
        HandlePosition::Left => {
            let right = sel.x + sel.width;
            sel.x = mx;
            sel.width = right - mx;
        },
        HandlePosition::Right => {
            sel.width = mx - sel.x;
        },
        HandlePosition::BottomLeft => {
            let right = sel.x + sel.width;
            sel.x = mx;
            sel.width = right - mx;
            sel.height = my - sel.y;
        },
        HandlePosition::Bottom => {
            sel.height = my - sel.y;
        },
        HandlePosition::BottomRight => {
            sel.width = mx - sel.x;
            sel.height = my - sel.y;
        },
        HandlePosition::Outside => {},
    }
    if sel.width < 1 {
        sel.width = 1;
    }
    if sel.height < 1 {
        sel.height = 1;
    }
}

/// Cursor shapes shown over the overlay.
#[derive(Clone, Copy, Debug, PartialEq, Eq, Structural)]
pub enum CursorKind {
    /// Diagonal resize, top-left to bottom-right
    SizeNwse,
    /// Diagonal resize, top-right to bottom-left
    SizeNesw,
    /// Vertical resize
    SizeNs,
    /// Horizontal resize
    SizeWe,
    /// Move
    SizeAll,
    /// Crosshair
    Cross,
}

/// The cursor for hovering with `handle` under the pointer.
pub open spec fn cursor_spec(handle: HandlePosition, s: SelectionRect, mx: int, my: int) -> CursorKind {
    match handle {
        HandlePosition::TopLeft | HandlePosition::BottomRight => CursorKind::SizeNwse,
        HandlePosition::TopRight | HandlePosition::BottomLeft => CursorKind::SizeNesw,
        HandlePosition::Top | HandlePosition::Bottom => CursorKind::SizeNs,
        HandlePosition::Left | HandlePosition::Right => CursorKind::SizeWe,
        HandlePosition::Outside => if inside(s, mx, my) {
            CursorKind::SizeAll
        } else {
            CursorKind::Cross
        },
    }
}

/// Choose the cursor shape from the hovered handle and position.
pub fn cursor_for(handle: HandlePosition, sel: &SelectionRect, mx: i32, my: i32) -> (c: CursorKind)
    requires
        sel_fits(*sel),
    ensures
        c == cursor_spec(handle, *sel, mx as int, my as int),
{
    match handle {
        HandlePosition::TopLeft | HandlePosition::BottomRight => CursorKind::SizeNwse,
        HandlePosition::TopRight | HandlePosition::BottomLeft => CursorKind::SizeNesw,
        HandlePosition::Top | HandlePosition::Bottom => CursorKind::SizeNs,
        HandlePosition::Left | HandlePosition::Right => CursorKind::SizeWe,
        HandlePosition::Outside => {
            if mx >= sel.x && mx <= sel.x + sel.width && my >= sel.y && my <= sel.y + sel.height {
                CursorKind::SizeAll
            } else {
                CursorKind::Cross
            }
        },
    }
}


/// The decimal digits of `n`, most significant first.
pub open spec fn digits(n: nat) -> Seq<char>
    decreases n,
{
    if n < 10 {
        seq![(n + 48) as char]
    } else {
        digits(n / 10).push((n % 10 + 48) as char)
    }
}

/// `v` written in decimal, with a leading `-` when negative.
pub open spec fn decimal(v: int) -> Seq<char> {
    if v < 0 {
        seq!['-'] + digits((-v) as nat)
    } else {
        digits(v as nat)
    }
}

/// The decimal digit `d` as a one-character string.
fn digit_str(d: u32) -> (r: &'static str)
    requires
        d < 10,
    ensures
        r@ == seq![(d + 48) as char],
{
    proof {
        reveal_strlit("0");
        reveal_strlit("1");
        reveal_strlit("2");
        reveal_strlit("3");
        reveal_strlit("4");
        reveal_strlit("5");
        reveal_strlit("6");
        reveal_strlit("7");
        reveal_strlit("8");
        reveal_strlit("9");
    }
    match d {
        0 => "0",
        1 => "1",
        2 => "2",
        3 => "3",
        4 => "4",
        5 => "5",
        6 => "6",
        7 => "7",
        8 => "8",
        _ => "9",
    }
}

/// Append the decimal digits of `n` to `out`.
fn push_digits(out: &mut String, n: u32)
    ensures
        final(out)@ == old(out)@ + digits(n as nat),
    decreases n,
{
    if n >= 10 {
        push_digits(out, n / 10);
    }
    out.append(digit_str(n % 10));
}

/// `v` written in decimal, with a leading minus sign when negative.
fn decimal_string(v: i32) -> (s: String)
    ensures
        s@ == decimal(v as int),
{
    let mut out = String::new();
    if v < 0 {
        out.append("-");
        let m: u32 = (-(v as i64)) as u32;
        push_digits(&mut out, m);
        proof {
            reveal_strlit("-");
        }
    } else {
        push_digits(&mut out, v as u32);
    }
    out
}

/// The text of the dimensions label: `<width> x <height> px`.
pub open spec fn dimensions_text(s: SelectionRect) -> Seq<char> {
    decimal(s.width as int) + " x "@ + decimal(s.height as int) + " px"@
}

/// The dimensions label of a selection.
pub fn dimensions_label(sel: &SelectionRect) -> (t: String)
    ensures
        t@ == dimensions_text(*sel),
{
    let mut text = decimal_string(sel.width);
    text.append(" x ");
    let h = decimal_string(sel.height);
    text.append(h.as_str());
    text.append(" px");
    text
}

/// The rectangle of the dimensions label, for a label text of `text_len`
/// bytes: above the selection's top-left corner, 20 pixels high, 8 pixels a
/// character plus 12 wide.
pub open spec fn label_rect_spec(s: SelectionRect, text_len: int) -> Rect {
    Rect {
        left: s.x,
        top: (s.y - 22) as i32,
        right: (s.x + text_len * 8 + 12) as i32,
        bottom: (s.y - 22 + 20) as i32,
    }
}

/// Placement of the dimensions label of a selection.
pub fn label_rect(sel: &SelectionRect, text_len: usize) -> (r: Rect)
    requires
        text_len * 8 <= i32::MAX,
        fits_i32(sel.y - 22),
        fits_i32(sel.x + text_len * 8),
        fits_i32(sel.x + text_len * 8 + 12),
    ensures
        r == label_rect_spec(*sel, text_len as int),
{
    let label_x = sel.x;
    let label_y = sel.y - 22;
    Rect { left: label_x, top: label_y, right: label_x + (text_len as i32) * 8 + 12, bottom: label_y + 20 }
}

/// The overlay shows the selection (undimmed, with border, handles and
/// label) only when it has an area.
pub open spec fn shown_selection(sel: Option<SelectionRect>) -> Option<SelectionRect> {
    match sel {
        Some(s) => if s.width > 0 && s.height > 0 {
            Some(s)
        } else {
            None
        },
        None => None,
    }
}

/// Model of the overlay's interaction state.
pub struct OverlayView {
    pub selection: Option<SelectionRect>,
    pub mode: InteractionMode,
    pub start_x: i32,
    pub start_y: i32,
    pub drag_offset_x: i32,
    pub drag_offset_y: i32,
    pub active_handle: HandlePosition,
}

/// What holds of every overlay state: a selection has no negative size; a
/// selection exists while drawing, moving or resizing; while moving, the
/// grabbed point lies within the selection; a resize is by a real handle.
pub open spec fn overlay_inv(v: OverlayView) -> bool {
    &&& (v.selection matches Some(s) ==> s.width >= 0 && s.height >= 0)
    &&& (v.mode is Drawing || v.mode is Moving || v.mode is Resizing) ==> v.selection is Some
    &&& (v.mode is Moving ==> (v.selection matches Some(s) && 0 <= v.drag_offset_x <= s.width && 0
        <= v.drag_offset_y <= s.height))
    &&& (v.mode matches InteractionMode::Resizing(h) ==> h != HandlePosition::Outside)
}

/// A new selection started at the pointer.
pub open spec fn start_drawing(v: OverlayView, x: i32, y: i32) -> OverlayView {
    OverlayView {
        mode: InteractionMode::Drawing,
        start_x: x,
        start_y: y,
        selection: Some(SelectionRect { x, y, width: 0, height: 0 }),
        ..v
    }
}

/// Effect of pressing the button at `(x, y)`: on a handle, start resizing by
/// it; inside the selection, start moving it; elsewhere, start a new
/// selection.
pub open spec fn mouse_down_spec(v: OverlayView, x: i32, y: i32) -> OverlayView {
    match v.selection {
        Some(s) => {
            let h = hit_spec(s, x as int, y as int);
            if h != HandlePosition::Outside {
                OverlayView {
                    mode: InteractionMode::Resizing(h),
                    active_handle: h,
                    start_x: x,
                    start_y: y,
                    ..v
                }
            } else if inside(s, x as int, y as int) {
                OverlayView {
                    mode: InteractionMode::Moving,
                    drag_offset_x: (x - s.x) as i32,
                    drag_offset_y: (y - s.y) as i32,
                    ..v
                }
            } else {
                start_drawing(v, x, y)
            }
        },
        None => start_drawing(v, x, y),
    }
}

/// The button press at `(x, y)` can be handled without `i32` overflow.
pub open spec fn mouse_down_fits(v: OverlayView, x: i32, y: i32) -> bool {
    v.selection matches Some(s) ==> hit_fits(s, x as int, y as int)
}

/// Absolute value.
pub open spec fn abs_int(v: int) -> int {
    if v < 0 {
        -v
    } else {
        v
    }
}

/// The selection spanned by the start point and the pointer.
pub open spec fn span_rect(x0: int, y0: int, x: int, y: int) -> SelectionRect {
    SelectionRect {
        x: (if x0 <= x { x0 } else { x }) as i32,
        y: (if y0 <= y { y0 } else { y }) as i32,
        width: abs_int(x - x0) as i32,
        height: abs_int(y - y0) as i32,
    }
}

/// What the overlay asks of its window after a pointer move.
#[derive(Clone, Copy, Debug, PartialEq, Eq, Structural)]
pub enum MoveResponse {
    /// Nothing to do
    Ignore,
    /// Repaint the overlay
    Repaint,
    /// Show this cursor
    SetCursor(CursorKind),
}

/// Effect of moving the pointer to `(x, y)`, and the response.
pub open spec fn mouse_move_spec(v: OverlayView, x: i32, y: i32) -> (OverlayView, MoveResponse) {
    match v.mode {
        InteractionMode::WaitingForDraw => (v, MoveResponse::Ignore),
        InteractionMode::Drawing => (
            OverlayView {
                selection: Some(span_rect(v.start_x as int, v.start_y as int, x as int, y as int)),
                ..v
            },
            MoveResponse::Repaint,
        ),
        InteractionMode::Moving => match v.selection {
            Some(s) => (
                OverlayView {
                    selection: Some(
                        SelectionRect {
                            x: (x - v.drag_offset_x) as i32,
                            y: (y - v.drag_offset_y) as i32,
                            ..s
                        },
                    ),
                    ..v
                },
                MoveResponse::Repaint,
            ),
            None => (v, MoveResponse::Ignore),
        },
        InteractionMode::Resizing(h) => match v.selection {
            Some(s) => (
                OverlayView { selection: Some(resize_spec(s, h, x as int, y as int)), ..v },
                MoveResponse::Repaint,
            ),
            None => (v, MoveResponse::Ignore),
        },
        InteractionMode::Idle => match v.selection {
            Some(s) => (
                v,
                MoveResponse::SetCursor(
                    cursor_spec(hit_spec(s, x as int, y as int), s, x as int, y as int),
                ),
            ),
            None => (v, MoveResponse::Ignore),
        },
    }
}

/// The pointer move to `(x, y)` can be handled without `i32` overflow.
pub open spec fn mouse_move_fits(v: OverlayView, x: i32, y: i32) -> bool {
    match v.mode {
        InteractionMode::Drawing => {
            &&& i32::MIN < x - v.start_x <= i32::MAX
            &&& i32::MIN < y - v.start_y <= i32::MAX
        },
        InteractionMode::Moving => fits_i32(x - v.drag_offset_x) && fits_i32(y - v.drag_offset_y),
        InteractionMode::Resizing(h) => v.selection matches Some(s) ==> resize_fits(
            s,
            h,
            x as int,
            y as int,
        ),
        InteractionMode::Idle => v.selection matches Some(s) ==> hit_fits(s, x as int, y as int),
        InteractionMode::WaitingForDraw => true,
    }
}

/// What the overlay asks of its window after the button is released.
#[derive(Clone, Copy, Debug, PartialEq, Eq, Structural)]
pub enum ReleaseResponse {
    /// Nothing to do
    Ignore,
    /// Release the pointer capture and confirm the selection
    Confirm,
    /// Release the pointer capture and repaint
    ReleaseAndRepaint,
}

/// The selection is large enough to be taken: both sides over five pixels.
pub open spec fn selection_large(s: SelectionRect) -> bool {
    s.width > 5 && s.height > 5
}

/// Effect of releasing the button, and the response: a first selection that
/// is large enough is confirmed at once; any drag otherwise ends in the idle
/// mode.
pub open spec fn mouse_up_spec(v: OverlayView) -> (OverlayView, ReleaseResponse) {
    match v.mode {
        InteractionMode::Drawing => if v.selection matches Some(s) && selection_large(s) {
            (v, ReleaseResponse::Confirm)
        } else {
            (OverlayView { mode: InteractionMode::Idle, ..v }, ReleaseResponse::ReleaseAndRepaint)
        },
        InteractionMode::Moving | InteractionMode::Resizing(_) => (
            OverlayView { mode: InteractionMode::Idle, ..v },
            ReleaseResponse::ReleaseAndRepaint,
        ),
        InteractionMode::WaitingForDraw | InteractionMode::Idle => (v, ReleaseResponse::Ignore),
    }
}

/// Releasing the button takes the selection only when it was being drawn and
/// both of its sides exceed five pixels; the selection is then left as it
/// is. A drawn selection with a side of five pixels or less is kept, the
/// overlay goes idle and asks for a repaint; ending a move or a resize never
/// takes the selection.
pub proof fn lemma_release_takes_only_large(v: OverlayView)
    ensures
        mouse_up_spec(v).1 == ReleaseResponse::Confirm <==> (v.mode is Drawing && v.selection is Some
            && v.selection->0.width > 5 && v.selection->0.height > 5),
        mouse_up_spec(v).1 == ReleaseResponse::Confirm ==> mouse_up_spec(v).0 == v,
        v.mode is Drawing && !(v.selection matches Some(s) && s.width > 5 && s.height > 5) ==> mouse_up_spec(v)
            == ((OverlayView { mode: InteractionMode::Idle, ..v }), ReleaseResponse::ReleaseAndRepaint),
        (v.mode is Moving || v.mode is Resizing) ==> mouse_up_spec(v).1 == ReleaseResponse::ReleaseAndRepaint,
{
}

/// The region handed on to annotation when a selection is confirmed.
pub struct ConfirmedRegion {
    /// The cropped BGRA pixels
    pub pixels: Vec<u8>,
    pub width: i32,
    pub height: i32,
    /// Screen position of the region's top-left corner
    pub screen_x: i32,
    pub screen_y: i32,
}

/// Confirming `s` out of the capture `c` can be done without overflow.
pub open spec fn confirm_fits(c: ScreenCapture, sel: Option<SelectionRect>) -> bool {
    match sel {
        Some(s) => selection_large(s) ==> {
            &&& crop_fits(c, s.x as int, s.y as int, s.width as int, s.height as int)
            &&& fits_i32(c.offset_x + s.x)
            &&& fits_i32(c.offset_y + s.y)
        },
        None => true,
    }
}

/// A handle is reported only when the pointer is on it: whatever handle the
/// hit test names lies within the grab radius of the pointer, and when it
/// names none, the pointer is on none of the eight.
pub proof fn lemma_hit_is_near(s: SelectionRect, mx: int, my: int)
    ensures
        forall|i: int|
            0 <= i < 8 && hit_spec(s, mx, my) == #[trigger] handle_kinds()[i] ==> near(
                handle_points(s)[i],
                mx,
                my,
            ),
        hit_spec(s, mx, my) == HandlePosition::Outside ==> forall|i: int|
            0 <= i < 8 ==> !near(#[trigger] handle_points(s)[i], mx, my),
{
    let p = handle_points(s);
    let k = handle_kinds();
    assert forall|i: int|
        0 <= i < 8 && hit_spec(s, mx, my) == #[trigger] k[i] implies near(p[i], mx, my) by {
        if i == 0 {} else if i == 1 {} else if i == 2 {} else if i == 3 {} else if i == 4 {} else if i == 5 {} else if i == 6 {} else {}
    }
    if hit_spec(s, mx, my) == HandlePosition::Outside {
        assert forall|i: int| 0 <= i < 8 implies !near(#[trigger] p[i], mx, my) by {
            if i == 0 {} else if i == 1 {} else if i == 2 {} else if i == 3 {} else if i == 4 {} else if i == 5 {} else if i == 6 {} else {}
        }
    }
}

/// Drawing spans a rectangle between the press point and the pointer: while
/// drawing, a move makes the selection the smallest rectangle with those two
/// points at opposite corners.
pub proof fn lemma_drawing_spans_press_and_pointer(v: OverlayView, x: i32, y: i32)
    requires
        v.mode == InteractionMode::Drawing,
        mouse_move_fits(v, x, y),
    ensures
        mouse_move_spec(v, x, y).0.selection matches Some(s) && {
            &&& s.x as int == if v.start_x <= x { v.start_x as int } else { x as int }
            &&& s.y as int == if v.start_y <= y { v.start_y as int } else { y as int }
            &&& s.x + s.width == if v.start_x <= x { x as int } else { v.start_x as int }
            &&& s.y + s.height == if v.start_y <= y { y as int } else { v.start_y as int }
            &&& inside(s, v.start_x as int, v.start_y as int)
            &&& inside(s, x as int, y as int)
        },
{
}

/// Moving keeps the grabbed point under the pointer: while moving, a move
/// keeps the selection's size and places it so that the pointer is at the
/// same offset from its corner as when it was grabbed.
pub proof fn lemma_move_keeps_grab(v: OverlayView, x: i32, y: i32)
    requires
        overlay_inv(v),
        v.mode == InteractionMode::Moving,
        mouse_move_fits(v, x, y),
    ensures
        ({
            let w = mouse_move_spec(v, x, y).0;
            &&& overlay_inv(w)
            &&& w.selection matches Some(n) && v.selection matches Some(o) && n.width == o.width && n.height
                == o.height && n.x + w.drag_offset_x == x && n.y + w.drag_offset_y == y && inside(n, x as int, y as int)
        }),
{
}

/// Resizing moves only the dragged edges: the edges that the handle does not
/// hold stay where they were, and the dragged edges follow the pointer as long
/// as the selection keeps at least one pixel.
pub proof fn lemma_resize_moves_dragged_edges(s: SelectionRect, h: HandlePosition, mx: i32, my: i32)
    requires
        resize_fits(s, h, mx as int, my as int),
        fits_i32(s.x + s.width),
        fits_i32(s.y + s.height),
    ensures
        ({
            let r = resize_spec(s, h, mx as int, my as int);
            let drags_left = h == HandlePosition::TopLeft || h == HandlePosition::Left || h
                == HandlePosition::BottomLeft;
            let drags_right = h == HandlePosition::TopRight || h == HandlePosition::Right || h
                == HandlePosition::BottomRight;
            let drags_top = h == HandlePosition::TopLeft || h == HandlePosition::Top || h
                == HandlePosition::TopRight;
            let drags_bottom = h == HandlePosition::BottomLeft || h == HandlePosition::Bottom || h
                == HandlePosition::BottomRight;
            &&& r.width >= 1 && r.height >= 1
            &&& !drags_left ==> r.x == s.x
            &&& !drags_top ==> r.y == s.y
            &&& drags_left ==> r.x == mx
            &&& drags_top ==> r.y == my
            &&& (!drags_left && !drags_right && s.width >= 1) ==> r.width == s.width
            &&& (!drags_top && !drags_bottom && s.height >= 1) ==> r.height == s.height
            &&& (drags_left && s.x + s.width - mx >= 1) ==> r.x + r.width == s.x + s.width
            &&& (drags_top && s.y + s.height - my >= 1) ==> r.y + r.height == s.y + s.height
            &&& (drags_right && mx - s.x >= 1) ==> r.x + r.width == mx
            &&& (drags_bottom && my - s.y >= 1) ==> r.y + r.height == my
        }),
{
}

/// Overlay interaction state: the capture being selected from and the
/// selection being drawn, moved or resized.
pub struct OverlaySession {
    capture: ScreenCapture,
    selection: Option<SelectionRect>,
    mode: InteractionMode,
    start_x: i32,
    start_y: i32,
    drag_offset_x: i32,
    drag_offset_y: i32,
    active_handle: HandlePosition,
}

impl View for OverlaySession {
    type V = OverlayView;

    closed spec fn view(&self) -> OverlayView {
        OverlayView {
            selection: self.selection,
            mode: self.mode,
            start_x: self.start_x,
            start_y: self.start_y,
            drag_offset_x: self.drag_offset_x,
            drag_offset_y: self.drag_offset_y,
            active_handle: self.active_handle,
        }
    }
}

impl OverlaySession {
    /// The capture shown by the overlay.
    pub closed spec fn spec_capture(&self) -> ScreenCapture {
        self.capture
    }

    /// The session invariant holds.
    pub open spec fn wf(&self) -> bool {
        &&& overlay_inv(self@)
        &&& self.spec_capture().wf()
    }

    /// A session over `capture`, waiting for the first selection.
    pub fn new(capture: ScreenCapture) -> (o: Self)
        requires
            capture.wf(),
        ensures
            o.wf(),
            o.spec_capture() == capture,
            o@.selection is None,
            o@.mode == InteractionMode::WaitingForDraw,
            o@.start_x == 0 && o@.start_y == 0,
            o@.drag_offset_x == 0 && o@.drag_offset_y == 0,
            o@.active_handle == HandlePosition::Outside,
    {
        OverlaySession {
            capture,
            selection: None,
            mode: InteractionMode::WaitingForDraw,
            start_x: 0,
            start_y: 0,
            drag_offset_x: 0,
            drag_offset_y: 0,
            active_handle: HandlePosition::Outside,
        }
    }

    /// The capture shown by the overlay.
    pub fn capture(&self) -> (c: &ScreenCapture)
        ensures
            *c == self.spec_capture(),
    {
        &self.capture
    }

    /// The current selection.
    pub fn selection(&self) -> (s: Option<SelectionRect>)
        ensures
            s == self@.selection,
    {
        self.selection
    }

    /// The selection to paint, if it has an area.
    pub fn shown_selection(&self) -> (s: Option<SelectionRect>)
        ensures
            s == shown_selection(self@.selection),
    {
        match self.selection {
            Some(sel) => if sel.width > 0 && sel.height > 0 {
                Some(sel)
            } else {
                None
            },
            None => None,
        }
    }

    /// The current interaction mode.
    pub fn mode(&self) -> (m: InteractionMode)
        ensures
            m == self@.mode,
    {
        self.mode
    }

    /// Whether the button press at `(x, y)` can be handled without overflow.
    pub fn can_press(&self, x: i32, y: i32) -> (b: bool)
        ensures
            b == mouse_down_fits(self@, x, y),
    {
        match self.selection {
            Some(s) => hit_test_fits(&s, x, y),
            None => true,
        }
    }

    /// Handle the button press at `(x, y)`.
    pub fn mouse_down(&mut self, x: i32, y: i32)
        requires
            old(self).wf(),
            mouse_down_fits(old(self)@, x, y),
        ensures
            final(self).wf(),
            final(self).spec_capture() == old(self).spec_capture(),
            final(self)@ == mouse_down_spec(old(self)@, x, y),
    {
        if let Some(sel) = self.selection {
            let handle = hit_test_handle(&sel, x, y);
            if handle != HandlePosition::Outside {
                self.mode = InteractionMode::Resizing(handle);
                self.active_handle = handle;
                self.start_x = x;
                self.start_y = y;
                return;
            }
            if x >= sel.x && x <= sel.x + sel.width && y >= sel.y && y <= sel.y + sel.height {
                self.mode = InteractionMode::Moving;
                self.drag_offset_x = x - sel.x;
                self.drag_offset_y = y - sel.y;
                return;
            }
        }
        self.mode = InteractionMode::Drawing;
        self.start_x = x;
        self.start_y = y;
        self.selection = Some(SelectionRect { x, y, width: 0, height: 0 });
    }

    /// Whether the pointer move to `(x, y)` can be handled without overflow.
    pub fn can_move(&self, x: i32, y: i32) -> (b: bool)
        ensures
            b == mouse_move_fits(self@, x, y),
    {
        let xw = x as i64;
        let yw = y as i64;
        match self.mode {
            InteractionMode::Drawing => {
                let dx = xw - self.start_x as i64;
                let dy = yw - self.start_y as i64;
                dx > i32::MIN as i64 && dx <= i32::MAX as i64 && dy > i32::MIN as i64 && dy
                    <= i32::MAX as i64
            },
            InteractionMode::Moving => {
                let nx = xw - self.drag_offset_x as i64;
                let ny = yw - self.drag_offset_y as i64;
                fits_i64(nx) && fits_i64(ny)
            },
            InteractionMode::Resizing(h) => match self.selection {
                Some(s) => resize_in_range(&s, h, x, y),
                None => true,
            },
            InteractionMode::Idle => match self.selection {
                Some(s) => hit_test_fits(&s, x, y),
                None => true,
            },
            InteractionMode::WaitingForDraw => true,
        }
    }

    /// Handle a pointer move to `(x, y)`.
    pub fn mouse_move(&mut self, x: i32, y: i32) -> (r: MoveResponse)
        requires
            old(self).wf(),
            mouse_move_fits(old(self)@, x, y),
        ensures
            final(self).wf(),
            final(self).spec_capture() == old(self).spec_capture(),
            (final(self)@, r) == mouse_move_spec(old(self)@, x, y),
    {
        match self.mode {
            InteractionMode::WaitingForDraw => MoveResponse::Ignore,
            InteractionMode::Drawing => {
                let sx = if self.start_x <= x { self.start_x } else { x };
                let sy = if self.start_y <= y { self.start_y } else { y };
                let dx = x - self.start_x;
                let dy = y - self.start_y;
                let w = if dx < 0 { -dx } else { dx };
                let h = if dy < 0 { -dy } else { dy };
                self.selection = Some(SelectionRect { x: sx, y: sy, width: w, height: h });
                MoveResponse::Repaint
            },
            InteractionMode::Moving => {
                match self.selection {
                    Some(sel) => {
                        self.selection = Some(SelectionRect {
                            x: x - self.drag_offset_x,
                            y: y - self.drag_offset_y,
                            width: sel.width,
                            height: sel.height,
                        });
                        MoveResponse::Repaint
                    },
                    None => MoveResponse::Ignore,
                }
            },
            InteractionMode::Resizing(handle) => {
                match self.selection {
                    Some(sel) => {
                        let mut s = sel;
                        apply_resize(&mut s, handle, x, y);
                        self.selection = Some(s);
                        MoveResponse::Repaint
                    },
                    None => MoveResponse::Ignore,
                }
            },
            InteractionMode::Idle => {
                match self.selection {
                    Some(sel) => {
                        let handle = hit_test_handle(&sel, x, y);
                        MoveResponse::SetCursor(cursor_for(handle, &sel, x, y))
                    },
                    None => MoveResponse::Ignore,
                }
            },
        }
    }

    /// Handle the button release.
    pub fn mouse_up(&mut self) -> (r: ReleaseResponse)
        requires
            old(self).wf(),
        ensures
            final(self).wf(),
            final(self).spec_capture() == old(self).spec_capture(),
            (final(self)@, r) == mouse_up_spec(old(self)@),
            r == ReleaseResponse::Confirm <==> (old(self)@.mode is Drawing && old(self)@.selection is Some
                && old(self)@.selection->0.width > 5 && old(self)@.selection->0.height > 5),
    {
        match self.mode {
            InteractionMode::Drawing => {
                if let Some(sel) = self.selection {
                    if sel.width > 5 && sel.height > 5 {
                        return ReleaseResponse::Confirm;
                    }
                }
                self.mode = InteractionMode::Idle;
                ReleaseResponse::ReleaseAndRepaint
            },
            InteractionMode::Moving | InteractionMode::Resizing(_) => {
                self.mode = InteractionMode::Idle;
                ReleaseResponse::ReleaseAndRepaint
            },
            InteractionMode::WaitingForDraw | InteractionMode::Idle => ReleaseResponse::Ignore,
        }
    }

    /// Whether confirming can be done without overflow.
    pub fn can_confirm(&self) -> (b: bool)
        requires
            self.wf(),
        ensures
            b == confirm_fits(self.spec_capture(), self@.selection),
    {
        match self.selection {
            Some(s) => {
                if s.width > 5 && s.height > 5 {
                    let c = &self.capture;
                    proof {
                        assert(0 <= s.width * s.height <= 0x1_0000_0000 * 0x1_0000_0000) by (nonlinear_arith)
                            requires
                                0 <= s.width <= 0x1_0000_0000,
                                0 <= s.height <= 0x1_0000_0000,
                        ;
                    }
                    let area = (s.width as i128) * (s.height as i128) * 4;
                    let ex = s.x as i64 + s.width as i64;
                    let ey = s.y as i64 + s.height as i64;
                    let px = c.offset_x as i64 + s.x as i64;
                    let py = c.offset_y as i64 + s.y as i64;
                    assert(c.wf());
                    area <= i32::MAX as i128 && fits_i64(ex) && fits_i64(ey) && fits_i64(px) && fits_i64(py)
                } else {
                    true
                }
            },
            None => true,
        }
    }

    /// Take the selection, when it is large enough: its cropped pixels, its
    /// size and its position on the screen.
    pub fn confirm(&self) -> (r: Option<ConfirmedRegion>)
        requires
            self.wf(),
            confirm_fits(self.spec_capture(), self@.selection),
        ensures
            match r {
                Some(c) => self@.selection matches Some(s) && s.width > 5 && s.height > 5 && c.width == s.width
                    && c.height == s.height && c.screen_x == self.spec_capture().offset_x + s.x
                    && c.screen_y == self.spec_capture().offset_y + s.y && c.pixels@ == crop_spec(
                    self.spec_capture(),
                    s.x as int,
                    s.y as int,
                    s.width as int,
                    s.height as int,
                ),
                None => !(self@.selection matches Some(s) && s.width > 5 && s.height > 5),
            },
    {
        match self.selection {
            Some(sel) => {
                if sel.width > 5 && sel.height > 5 {
                    let cropped = crop_region(&self.capture, sel.x, sel.y, sel.width, sel.height);
                    let screen_x = self.capture.offset_x + sel.x;
                    let screen_y = self.capture.offset_y + sel.y;
                    Some(ConfirmedRegion { pixels: cropped, width: sel.width, height: sel.height, screen_x, screen_y })
                } else {
                    None
                }
            },
            None => None,
        }
    }
}

/// `v` is an `i32` value.
fn fits_i64(v: i64) -> (b: bool)
    ensures
        b == fits_i32(v as int),
{
    v >= i32::MIN as i64 && v <= i32::MAX as i64
}

/// The square of a difference of two `i32` values.
fn square_wide(v: i64) -> (r: i128)
    requires
        -0x1_0000_0000 <= v <= 0x1_0000_0000,
    ensures
        r == v * v,
        0 <= r <= 0x1_0000_0000 * 0x1_0000_0000,
{
    proof {
        assert(0 <= v * v <= 0x1_0000_0000 * 0x1_0000_0000) by (nonlinear_arith)
            requires
                -0x1_0000_0000 <= v <= 0x1_0000_0000,
        ;
    }
    (v as i128) * (v as i128)
}

/// Whether the distance test against `p` cannot overflow.
fn dist_in_range(p: (i64, i64), mx: i32, my: i32) -> (b: bool)
    requires
        fits_i32(p.0 as int),
        fits_i32(p.1 as int),
    ensures
        b == dist_fits((p.0 as int, p.1 as int), mx as int, my as int),
{
    let dx = mx as i64 - p.0;
    let dy = my as i64 - p.1;
    if !fits_i64(dx) || !fits_i64(dy) {
        return false;
    }
    let dx2 = square_wide(dx);
    let dy2 = square_wide(dy);
    dx2 + dy2 <= i32::MAX as i128
}

/// Whether the pointer at `(mx, my)` is on the handle at `p`.
fn near_wide(p: (i64, i64), mx: i32, my: i32) -> (b: bool)
    requires
        fits_i32(p.0 as int),
        fits_i32(p.1 as int),
    ensures
        b == near((p.0 as int, p.1 as int), mx as int, my as int),
{
    let dx = mx as i64 - p.0;
    let dy = my as i64 - p.1;
    square_wide(dx) + square_wide(dy) <= 64
}

/// Whether the hit test of `(mx, my)` against `sel` can be done without
/// overflow.
pub fn hit_test_fits(sel: &SelectionRect, mx: i32, my: i32) -> (b: bool)
    ensures
        b == hit_fits(*sel, mx as int, my as int),
{
    let r = sel.x as i64 + sel.width as i64;
    let bt = sel.y as i64 + sel.height as i64;
    if !fits_i64(r) || !fits_i64(bt) {
        return false;
    }
    let x = sel.x as i64;
    let y = sel.y as i64;
    let cx = x + (sel.width / 2) as i64;
    let cy = y + (sel.height / 2) as i64;
    let ghost pts = handle_points(*sel);
    let hs: [(i64, i64); 8] = [(x, y), (cx, y), (r, y), (x, cy), (r, cy), (x, bt), (cx, bt), (r, bt)];
    let mut i: usize = 0;
    while i < 8
        invariant
            0 <= i <= 8,
            sel_fits(*sel),
            pts == handle_points(*sel),
            forall|j: int| 0 <= j < 8 ==> (#[trigger] hs@[j]).0 as int == pts[j].0 && hs@[j].1 as int == pts[j].1,
            forall|j: int| 0 <= j < 8 ==> fits_i32((#[trigger] pts[j]).0) && fits_i32(pts[j].1),
            forall|j: int| 0 <= j < i ==> #[trigger] dist_fits(pts[j], mx as int, my as int) && !near(pts[j], mx as int, my as int),
        decreases 8 - i,
    {
        if !dist_in_range(hs[i], mx, my) {
            return false;
        }
        if near_wide(hs[i], mx, my) {
            return true;
        }
        i = i + 1;
    }
    true
}

/// Whether resizing `sel` by `handle` to `(mx, my)` can be done without
/// overflow.
fn resize_in_range(sel: &SelectionRect, handle: HandlePosition, mx: i32, my: i32) -> (b: bool)
    ensures
        b == resize_fits(*sel, handle, mx as int, my as int),
{
    let right = sel.x as i64 + sel.width as i64;
    let bottom = sel.y as i64 + sel.height as i64;
    let mxw = mx as i64;
    let myw = my as i64;
    let xw = sel.x as i64;
    let yw = sel.y as i64;
    match handle {
        HandlePosition::TopLeft => fits_i64(right) && fits_i64(bottom) && fits_i64(right - mxw) && fits_i64(
            bottom - myw,
        ),
        HandlePosition::Top => fits_i64(bottom) && fits_i64(bottom - myw),
        HandlePosition::TopRight => fits_i64(bottom) && fits_i64(mxw - xw) && fits_i64(bottom - myw),
        HandlePosition::Left => fits_i64(right) && fits_i64(right - mxw),
        HandlePosition::Right => fits_i64(mxw - xw),
        HandlePosition::BottomLeft => fits_i64(right) && fits_i64(right - mxw) && fits_i64(myw - yw),
        HandlePosition::Bottom => fits_i64(myw - yw),
        HandlePosition::BottomRight => fits_i64(mxw - xw) && fits_i64(myw - yw),
        HandlePosition::Outside => true,
    }
}

} // verus!
