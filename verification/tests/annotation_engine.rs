use rustshot::annotation::{render_op, mosaic_blocks, Annotation, AnnotationEngine, AnnotationTool, Point, RenderOp};

fn pts(a: &Annotation) -> Vec<(i32, i32)> {
    a.points.iter().map(|p| (p.x, p.y)).collect()
}

#[test]
fn new_engine_is_empty() {
    let e = AnnotationEngine::new();
    assert!(!e.is_drawing());
    assert!(e.annotations().is_empty());
    assert!(e.current().is_none());
}

#[test]
fn stroke_is_committed_with_all_points() {
    let mut e = AnnotationEngine::new();
    e.begin_stroke(AnnotationTool::Pen, 0xFF, 1, 2);
    assert!(e.is_drawing());
    e.continue_stroke(3, 4);
    e.continue_stroke(5, 6);
    e.end_stroke(7, 8);
    assert!(!e.is_drawing());
    assert!(e.current().is_none());
    assert_eq!(e.annotations().len(), 1);
    let a = &e.annotations()[0];
    assert_eq!(a.tool, AnnotationTool::Pen);
    assert_eq!(a.color, 0xFF);
    assert_eq!(pts(a), vec![(1, 2), (3, 4), (5, 6), (7, 8)]);
    assert!(a.text.is_none());
}

#[test]
fn press_and_release_commit_two_points() {
    let mut e = AnnotationEngine::new();
    e.begin_stroke(AnnotationTool::Rectangle, 0x00FF00, 10, 20);
    e.end_stroke(30, 40);
    assert_eq!(pts(&e.annotations()[0]), vec![(10, 20), (30, 40)]);
}

#[test]
fn continue_without_stroke_does_nothing() {
    let mut e = AnnotationEngine::new();
    e.continue_stroke(1, 1);
    assert!(e.current().is_none());
    e.end_stroke(2, 2);
    assert!(e.annotations().is_empty());
    assert!(!e.is_drawing());
}

#[test]
fn undo_then_redo_restores() {
    let mut e = AnnotationEngine::new();
    e.begin_stroke(AnnotationTool::Pen, 1, 0, 0);
    e.end_stroke(1, 1);
    e.begin_stroke(AnnotationTool::Arrow, 2, 5, 5);
    e.end_stroke(6, 6);
    e.undo();
    assert_eq!(e.annotations().len(), 1);
    assert_eq!(e.annotations()[0].tool, AnnotationTool::Pen);
    e.redo();
    assert_eq!(e.annotations().len(), 2);
    assert_eq!(e.annotations()[1].tool, AnnotationTool::Arrow);
    assert_eq!(pts(&e.annotations()[1]), vec![(5, 5), (6, 6)]);
}

#[test]
fn undo_and_redo_on_empty_stacks_do_nothing() {
    let mut e = AnnotationEngine::new();
    e.undo();
    e.redo();
    assert!(e.annotations().is_empty());
    e.begin_stroke(AnnotationTool::Pen, 1, 0, 0);
    e.end_stroke(1, 1);
    e.redo();
    assert_eq!(e.annotations().len(), 1);
}

#[test]
fn new_stroke_clears_redo() {
    let mut e = AnnotationEngine::new();
    e.begin_stroke(AnnotationTool::Pen, 1, 0, 0);
    e.end_stroke(1, 1);
    e.undo();
    assert!(e.annotations().is_empty());
    e.begin_stroke(AnnotationTool::Mosaic, 3, 2, 2);
    e.end_stroke(9, 9);
    e.redo();
    assert_eq!(e.annotations().len(), 1);
    assert_eq!(e.annotations()[0].tool, AnnotationTool::Mosaic);
}

#[test]
fn undo_twice_redo_twice_keeps_order() {
    let mut e = AnnotationEngine::new();
    for i in 0..3 {
        e.begin_stroke(AnnotationTool::Pen, i, i as i32, 0);
        e.end_stroke(i as i32, 1);
    }
    e.undo();
    e.undo();
    e.redo();
    e.redo();
    let colors: Vec<u32> = e.annotations().iter().map(|a| a.color).collect();
    assert_eq!(colors, vec![0, 1, 2]);
}

#[test]
fn end_with_text_attaches_text() {
    let mut e = AnnotationEngine::new();
    e.begin_stroke(AnnotationTool::Text, 0xFFFFFF, 4, 4);
    e.end_stroke_with_text(4, 4, "hello".to_string());
    assert_eq!(e.annotations()[0].text.as_deref(), Some("hello"));
}

fn annotation(tool: AnnotationTool, points: &[(i32, i32)], text: Option<&str>) -> Annotation {
    Annotation {
        tool,
        color: 0xFF,
        points: points.iter().map(|&(x, y)| Point { x, y }).collect(),
        text: text.map(|t| t.to_string()),
    }
}

#[test]
fn render_ops_follow_the_tool() {
    match render_op(&annotation(AnnotationTool::Rectangle, &[(1, 2), (5, 5), (7, 9)], None)) {
        RenderOp::Rectangle { left, top, right, bottom, width, color } => {
            assert_eq!((left, top, right, bottom, width, color), (1, 2, 7, 9, 2, 0xFF))
        }
        other => panic!("{:?}", other),
    }
    match render_op(&annotation(AnnotationTool::Arrow, &[(1, 2), (7, 9)], None)) {
        RenderOp::Arrow { from, to, width, color } => {
            assert_eq!((from.x, from.y, to.x, to.y, width, color), (1, 2, 7, 9, 2, 0xFF))
        }
        other => panic!("{:?}", other),
    }
    match render_op(&annotation(AnnotationTool::Pen, &[(1, 2), (7, 9)], None)) {
        RenderOp::Polyline { width, color, mask } => assert_eq!((width, color, mask), (2, 0xFF, false)),
        other => panic!("{:?}", other),
    }
    match render_op(&annotation(AnnotationTool::Highlighter, &[(1, 2), (7, 9)], None)) {
        RenderOp::Polyline { width, color, mask } => assert_eq!((width, color, mask), (12, 0xFF, true)),
        other => panic!("{:?}", other),
    }
    match render_op(&annotation(AnnotationTool::Mosaic, &[(10, 2), (3, 9)], None)) {
        RenderOp::Mosaic { left, top, right, bottom } => assert_eq!((left, top, right, bottom), (3, 2, 10, 9)),
        other => panic!("{:?}", other),
    }
    match render_op(&annotation(AnnotationTool::Text, &[(4, 6)], None)) {
        RenderOp::Text { x, y, text, color } => assert_eq!((x, y, text.as_str(), color), (4, 6, "Text", 0xFF)),
        other => panic!("{:?}", other),
    }
    match render_op(&annotation(AnnotationTool::Text, &[(4, 6), (8, 8)], Some("note"))) {
        RenderOp::Text { x, y, text, color } => assert_eq!((x, y, text.as_str(), color), (4, 6, "note", 0xFF)),
        other => panic!("{:?}", other),
    }
}

#[test]
fn render_ops_skip_short_strokes() {
    assert!(matches!(render_op(&annotation(AnnotationTool::Pen, &[], None)), RenderOp::Skip));
    assert!(matches!(render_op(&annotation(AnnotationTool::Text, &[], None)), RenderOp::Skip));
    assert!(matches!(render_op(&annotation(AnnotationTool::Rectangle, &[(1, 1)], None)), RenderOp::Skip));
    assert!(matches!(render_op(&annotation(AnnotationTool::Mosaic, &[(1, 1)], None)), RenderOp::Skip));
}

#[test]
fn mosaic_blocks_tile_the_rectangle() {
    let blocks = mosaic_blocks(0, 0, 20, 10);
    let got: Vec<(i32, i32, i32, i32, i32, i32)> = blocks
        .iter()
        .map(|b| (b.rect.left, b.rect.top, b.rect.right, b.rect.bottom, b.sample_x, b.sample_y))
        .collect();
    assert_eq!(
        got,
        vec![
            (0, 0, 8, 8, 4, 4),
            (8, 0, 16, 8, 12, 4),
            (16, 0, 20, 8, 20, 4),
            (0, 8, 8, 10, 4, 12),
            (8, 8, 16, 10, 12, 12),
            (16, 8, 20, 10, 20, 12),
        ]
    );
    assert!(mosaic_blocks(5, 5, 5, 9).is_empty());
    assert!(mosaic_blocks(5, 5, 9, 5).is_empty());
}

#[test]
fn cancel_stroke_drops_the_stroke() {
    let mut e = AnnotationEngine::new();
    e.begin_stroke(AnnotationTool::Pen, 7, 1, 1);
    e.end_stroke(2, 2);
    e.undo();
    e.begin_stroke(AnnotationTool::Text, 7, 5, 5);
    assert!(e.is_drawing());
    e.cancel_stroke();
    assert!(!e.is_drawing());
    assert!(e.current().is_none());
    assert!(e.annotations().is_empty());
    e.redo();
    assert_eq!(e.annotations().len(), 1);
    assert_eq!(e.annotations()[0].tool, AnnotationTool::Pen);
}

#[test]
fn drawing_flag_follows_the_last_begin_and_end() {
    let mut e = AnnotationEngine::new();
    assert!(!e.is_drawing());
    e.continue_stroke(1, 1);
    e.undo();
    e.redo();
    assert!(!e.is_drawing());
    e.begin_stroke(AnnotationTool::Pen, 1, 0, 0);
    e.continue_stroke(3, 3);
    e.undo();
    e.redo();
    assert!(e.is_drawing());
    e.end_stroke(4, 4);
    e.undo();
    e.redo();
    e.continue_stroke(9, 9);
    assert!(!e.is_drawing());
    e.begin_stroke(AnnotationTool::Pen, 1, 0, 0);
    e.begin_stroke(AnnotationTool::Arrow, 1, 2, 2);
    assert!(e.is_drawing());
}

#[test]
fn mosaic_blocks_partition_the_rectangle() {
    let (left, top, right, bottom) = (3, -5, 21, 12);
    let blocks = mosaic_blocks(left, top, right, bottom);
    for x in left - 2..right + 2 {
        for y in top - 2..bottom + 2 {
            let covering = blocks
                .iter()
                .filter(|b| b.rect.left <= x && x < b.rect.right && b.rect.top <= y && y < b.rect.bottom)
                .count();
            let inside = left <= x && x < right && top <= y && y < bottom;
            assert_eq!(covering, if inside { 1 } else { 0 });
        }
    }
    for b in &blocks {
        assert!(b.rect.right - b.rect.left <= 8 && b.rect.bottom - b.rect.top <= 8);
        let own = b.rect.left <= b.sample_x && b.sample_x < b.rect.right
            && b.rect.top <= b.sample_y && b.sample_y < b.rect.bottom;
        let outside = b.sample_x >= right || b.sample_y >= bottom;
        assert!(own || outside);
    }
}

#[test]
fn mosaic_rectangle_ignores_drag_direction() {
    let forward = render_op(&annotation(AnnotationTool::Mosaic, &[(30, 4), (7, 7), (2, 19)], None));
    let backward = render_op(&annotation(AnnotationTool::Mosaic, &[(2, 19), (7, 7), (30, 4)], None));
    for op in [forward, backward] {
        match op {
            RenderOp::Mosaic { left, top, right, bottom } => assert_eq!((left, top, right, bottom), (2, 4, 30, 19)),
            other => panic!("unexpected {:?}", other),
        }
    }
}

#[test]
fn stroke_in_progress_is_drawn_last() {
    let mut e = AnnotationEngine::new();
    assert!(e.render_order().is_empty());
    e.begin_stroke(AnnotationTool::Rectangle, 1, 0, 0);
    e.end_stroke(5, 5);
    e.begin_stroke(AnnotationTool::Arrow, 2, 1, 1);
    e.end_stroke(6, 6);
    e.begin_stroke(AnnotationTool::Pen, 3, 2, 2);
    let order: Vec<(AnnotationTool, u32)> = e.render_order().iter().map(|a| (a.tool, a.color)).collect();
    assert_eq!(
        order,
        vec![(AnnotationTool::Rectangle, 1), (AnnotationTool::Arrow, 2), (AnnotationTool::Pen, 3)]
    );
    e.end_stroke(3, 3);
    assert_eq!(e.render_order().len(), 3);
}
