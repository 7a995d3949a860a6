use rustshot::toolbar::{button_look, ACTIVE_BUTTON_FILL, LABEL_COLOR};
use rustshot::annotation::AnnotationTool;
use rustshot::toolbar::{
    button_at, button_id, button_label, button_rect, dialog_origin, is_button_active, next_color,
    toolbar_origin, ToolbarAction, ToolbarSession, BTN_COLOR, BTN_PEN, BTN_UNDO, BUTTON_COUNT,
    COLOR_BLUE, COLOR_GREEN, COLOR_RED, COLOR_WHITE, COLOR_YELLOW, TOOLBAR_HEIGHT, TOOLBAR_WIDTH,
};

#[test]
fn button_table() {
    assert_eq!(BUTTON_COUNT, 13);
    assert_eq!(button_id(0), 2001);
    assert_eq!(button_id(12), BTN_COLOR);
    assert_eq!(button_label(5), "T");
    assert_eq!(button_label(0), "\u{25A1}");
    assert_eq!(button_label(12), "\u{25CF}");
    let r = button_rect(2);
    assert_eq!((r.left, r.top, r.right, r.bottom), (68, 4, 100, 36));
    assert_eq!(TOOLBAR_WIDTH, 424);
    assert_eq!(TOOLBAR_HEIGHT, 40);
}

#[test]
fn button_hit_rounds_toward_zero() {
    assert_eq!(button_at(0), Some(0));
    assert_eq!(button_at(3), Some(0));
    assert_eq!(button_at(-27), Some(0));
    assert_eq!(button_at(-28), None);
    assert_eq!(button_at(35), Some(0));
    assert_eq!(button_at(36), Some(1));
    assert_eq!(button_at(419), Some(12));
    assert_eq!(button_at(420), None);
}

#[test]
fn toolbar_placement() {
    assert_eq!(toolbar_origin(500, 300, 10, 20), (48, 324));
    assert_eq!(toolbar_origin(100, 50, 10, 20), (-152, 74));
    assert_eq!(toolbar_origin(423, 50, 0, 0), (0, 54));
    assert_eq!(dialog_origin(1920, 1080), (810, 480));
    assert_eq!(dialog_origin(101, 0), (-99, -60));
}

#[test]
fn colour_cycle() {
    assert_eq!(next_color(COLOR_RED), COLOR_GREEN);
    assert_eq!(next_color(COLOR_GREEN), COLOR_BLUE);
    assert_eq!(next_color(COLOR_BLUE), COLOR_YELLOW);
    assert_eq!(next_color(COLOR_YELLOW), COLOR_WHITE);
    assert_eq!(next_color(COLOR_WHITE), COLOR_RED);
    assert_eq!(next_color(0x123456), COLOR_RED);
}

#[test]
fn active_buttons() {
    assert!(is_button_active(BTN_PEN, AnnotationTool::Pen));
    assert!(!is_button_active(BTN_PEN, AnnotationTool::Text));
    assert!(!is_button_active(BTN_UNDO, AnnotationTool::Pen));
}

fn x_of(index: i32) -> i32 {
    4 + 32 * index + 10
}

#[test]
fn clicks_select_tools_and_actions() {
    let mut s = ToolbarSession::new(vec![0; 16], 2, 2);
    assert_eq!(s.current_tool(), AnnotationTool::Rectangle);
    assert_eq!(s.current_color(), COLOR_RED);
    assert_eq!(s.click(x_of(2)), ToolbarAction::Repaint);
    assert_eq!(s.current_tool(), AnnotationTool::Pen);
    assert_eq!(s.click(x_of(5)), ToolbarAction::Repaint);
    assert_eq!(s.current_tool(), AnnotationTool::Text);
    assert_eq!(s.click(x_of(9)), ToolbarAction::Pin);
    assert!(s.is_pinned());
    assert_eq!(s.click(x_of(9)), ToolbarAction::Unpin);
    assert!(!s.is_pinned());
    assert_eq!(s.click(x_of(9)), ToolbarAction::Pin);
    assert_eq!(s.current_tool(), AnnotationTool::Text);
    assert_eq!(s.click(x_of(12)), ToolbarAction::Repaint);
    assert_eq!(s.current_color(), COLOR_GREEN);
    assert_eq!(s.click(x_of(8)), ToolbarAction::Close);
    assert_eq!(s.click(x_of(10)), ToolbarAction::Save);
    assert_eq!(s.click(x_of(11)), ToolbarAction::Copy);
    assert_eq!(s.click(-100), ToolbarAction::Ignore);
    assert_eq!(s.click(500), ToolbarAction::Ignore);
}

#[test]
fn drawing_undo_redo_through_the_toolbar() {
    let mut s = ToolbarSession::new(vec![0; 16], 2, 2);
    assert!(!s.canvas_move(1, 1));
    s.canvas_press(1, 1);
    assert!(s.canvas_move(2, 2));
    s.canvas_release(3, 3, None);
    assert_eq!(s.engine().annotations().len(), 1);
    assert_eq!(s.engine().annotations()[0].tool, AnnotationTool::Rectangle);
    assert_eq!(s.engine().annotations()[0].points.len(), 3);
    assert_eq!(s.click(x_of(6)), ToolbarAction::RepaintWithCanvas);
    assert!(s.engine().annotations().is_empty());
    assert_eq!(s.click(x_of(7)), ToolbarAction::RepaintWithCanvas);
    assert_eq!(s.engine().annotations().len(), 1);
}

#[test]
fn text_tool_takes_the_entered_text() {
    let mut s = ToolbarSession::new(vec![0; 16], 2, 2);
    s.click(x_of(5));
    assert!(s.needs_text());
    s.canvas_press(5, 5);
    s.canvas_release(5, 5, Some("label".to_string()));
    assert_eq!(s.engine().annotations()[0].text.as_deref(), Some("label"));
    assert_eq!(s.engine().annotations()[0].tool, AnnotationTool::Text);
    let pts: Vec<(i32, i32)> = s.engine().annotations()[0].points.iter().map(|p| (p.x, p.y)).collect();
    assert_eq!(pts, vec![(5, 5), (5, 5)]);
    s.click(x_of(0));
    assert!(!s.needs_text());
    s.canvas_press(1, 1);
    s.canvas_release(2, 2, Some("ignored".to_string()));
    assert_eq!(s.engine().annotations().len(), 2);
    assert!(s.engine().annotations()[1].text.is_none());
}

#[test]
fn empty_or_cancelled_text_drops_the_annotation() {
    let mut s = ToolbarSession::new(vec![0; 16], 2, 2);
    s.canvas_press(1, 1);
    s.canvas_release(2, 2, None);
    assert_eq!(s.click(x_of(6)), ToolbarAction::RepaintWithCanvas);
    assert!(s.engine().annotations().is_empty());
    s.click(x_of(5));
    s.canvas_press(6, 6);
    assert!(s.engine().is_drawing());
    s.canvas_release(6, 6, Some(String::new()));
    assert!(s.engine().annotations().is_empty());
    assert!(!s.engine().is_drawing());
    assert!(s.engine().current().is_none());
    s.canvas_press(7, 7);
    s.canvas_release(7, 7, None);
    assert!(s.engine().annotations().is_empty());
    assert!(!s.engine().is_drawing());
    assert_eq!(s.click(x_of(7)), ToolbarAction::RepaintWithCanvas);
    assert_eq!(s.engine().annotations().len(), 1);
    assert_eq!(s.engine().annotations()[0].tool, AnnotationTool::Rectangle);
}

#[test]
fn session_keeps_the_image() {
    let s = ToolbarSession::new(vec![1, 2, 3, 4], 1, 1);
    assert_eq!(s.image_data(), &vec![1, 2, 3, 4]);
    assert_eq!((s.image_width(), s.image_height()), (1, 1));
}

#[test]
fn button_looks() {
    let pen = button_look(2, AnnotationTool::Pen, COLOR_BLUE);
    assert_eq!(pen.fill, Some(ACTIVE_BUTTON_FILL));
    assert_eq!(pen.fill, Some(0x0066_6666));
    assert_eq!(pen.text_color, LABEL_COLOR);
    assert_eq!(pen.label, "\u{270E}");
    assert_eq!((pen.rect.left, pen.rect.right), (68, 100));
    let rect = button_look(0, AnnotationTool::Pen, COLOR_BLUE);
    assert_eq!(rect.fill, None);
    let colour = button_look(12, AnnotationTool::Pen, COLOR_BLUE);
    assert_eq!(colour.text_color, COLOR_BLUE);
    assert_eq!(colour.fill, None);
    assert_eq!(button_look(8, AnnotationTool::Text, COLOR_YELLOW).text_color, 0x00FF_FFFF);
}
