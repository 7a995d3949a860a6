use vstd::prelude::*;

use crate::geometry::{fits_i32, Rect};

verus! {

/// The drawing tools offered by the toolbar.
#[derive(Clone, Copy, Debug, PartialEq, Eq, Structural)]
pub enum AnnotationTool {
    Rectangle,
    Arrow,
    Pen,
    Highlighter,
    Mosaic,
    Text,
}

/// A point of a stroke, in canvas pixels.
#[derive(Clone, Copy, Debug, PartialEq, Eq, Structural)]
pub struct Point {
    pub x: i32,
    pub y: i32,
}

/// One completed (or in-progress) drawing operation.
///
/// `color` is a Win32 `COLORREF` value, `0x00BBGGRR`.
#[derive(Clone, Debug)]
pub struct Annotation {
    pub tool: AnnotationTool,
    pub color: u32,
    pub points: Vec<Point>,
    /// Text content (only for the text tool)
    pub text: Option<String>,
}

/// Mathematical model of an [`Annotation`].
pub struct AnnotationView {
    pub tool: AnnotationTool,
    pub color: u32,
    pub points: Seq<Point>,
    pub text: Option<Seq<char>>,
}

impl View for Annotation {
    type V = AnnotationView;

    open spec fn view(&self) -> AnnotationView {
        AnnotationView {
            tool: self.tool,
            color: self.color,
            points: self.points@,
            text: text_view(self.text),
        }
    }
}

/// The text of an optional string.
pub open spec fn text_view(t: Option<String>) -> Option<Seq<char>> {
    match t {
        Some(s) => Some(s@),
        None => None,
    }
}

/// Model of the engine: the undo stack (`done`, oldest first), the redo stack
/// (`undone`, the most recently undone last), the stroke in progress, and the
/// drawing flag.
pub struct EngineView {
    pub done: Seq<AnnotationView>,
    pub undone: Seq<AnnotationView>,
    pub current: Option<AnnotationView>,
    pub drawing: bool,
}

pub open spec fn annotation_seq_view(s: Seq<Annotation>) -> Seq<AnnotationView> {
    s.map_values(|a: Annotation| a@)
}

/// What is on the canvas, bottom to top: the committed annotations, oldest
/// first, then the stroke in progress.
pub open spec fn shown_annotations(v: EngineView) -> Seq<AnnotationView> {
    match v.current {
        Some(c) => v.done.push(c),
        None => v.done,
    }
}

/// A fresh stroke: the tool, the colour, a single point and no text.
pub open spec fn fresh_stroke(tool: AnnotationTool, color: u32, x: i32, y: i32) -> AnnotationView {
    AnnotationView { tool, color, points: seq![Point { x, y }], text: None }
}

/// The stroke `a` extended by the point `(x, y)`.
pub open spec fn extend_stroke(a: AnnotationView, x: i32, y: i32) -> AnnotationView {
    AnnotationView { points: a.points.push(Point { x, y }), ..a }
}

/// Effect of beginning a stroke.
pub open spec fn begin_spec(v: EngineView, tool: AnnotationTool, color: u32, x: i32, y: i32) -> EngineView {
    EngineView { current: Some(fresh_stroke(tool, color, x, y)), drawing: true, ..v }
}

/// Effect of moving the pointer while a stroke may be in progress.
pub open spec fn continue_spec(v: EngineView, x: i32, y: i32) -> EngineView {
    match v.current {
        Some(a) => EngineView { current: Some(extend_stroke(a, x, y)), ..v },
        None => v,
    }
}

/// Effect of finishing a stroke at `(x, y)`, with `text` as the text to
/// attach (`None` keeps the stroke's own text). A finished stroke of at least
/// two points is committed and clears the redo stack.
pub open spec fn end_spec(v: EngineView, x: i32, y: i32, text: Option<Seq<char>>) -> EngineView {
    match v.current {
        Some(a) => {
            let b = extend_stroke(a, x, y);
            let b = match text {
                Some(t) => AnnotationView { text: Some(t), ..b },
                None => b,
            };
            if b.points.len() >= 2 {
                EngineView { done: v.done.push(b), undone: Seq::empty(), current: None, drawing: false }
            } else {
                EngineView { current: None, drawing: false, ..v }
            }
        },
        None => EngineView { drawing: false, ..v },
    }
}

/// Effect of cancelling the stroke in progress: it is dropped, nothing is
/// committed, and both stacks stay as they are.
pub open spec fn cancel_spec(v: EngineView) -> EngineView {
    EngineView { current: None, drawing: false, ..v }
}

/// Effect of undo: the last committed annotation moves to the redo stack.
pub open spec fn undo_spec(v: EngineView) -> EngineView {
    if v.done.len() > 0 {
        EngineView { done: v.done.drop_last(), undone: v.undone.push(v.done.last()), ..v }
    } else {
        v
    }
}

/// Effect of redo: the most recently undone annotation is committed again.
pub open spec fn redo_spec(v: EngineView) -> EngineView {
    if v.undone.len() > 0 {
        EngineView { done: v.done.push(v.undone.last()), undone: v.undone.drop_last(), ..v }
    } else {
        v
    }
}

/// The whole history in order: what is committed, followed by what can be
/// redone, in the order in which redo would restore it.
pub open spec fn timeline(v: EngineView) -> Seq<AnnotationView> {
    v.done + v.undone.reverse()
}

/// What every engine state satisfies: the drawing flag is set exactly when a
/// stroke is in progress, a stroke in progress has at least one point, and
/// every committed or undone annotation has at least two points.
pub open spec fn engine_inv(v: EngineView) -> bool {
    &&& v.drawing <==> v.current is Some
    &&& (v.current matches Some(a) ==> a.points.len() >= 1)
    &&& forall|i: int| 0 <= i < v.done.len() ==> #[trigger] v.done[i].points.len() >= 2
    &&& forall|i: int| 0 <= i < v.undone.len() ==> #[trigger] v.undone[i].points.len() >= 2
}

/// Redo undoes an undo: when something is committed, undoing it and then
/// redoing gives back the same engine state.
pub proof fn lemma_redo_after_undo(v: EngineView)
    requires
        v.done.len() > 0,
    ensures
        redo_spec(undo_spec(v)) == v,
{
    assert(redo_spec(undo_spec(v)).done =~= v.done);
    assert(redo_spec(undo_spec(v)).undone =~= v.undone);
}

/// Undo undoes a redo: when something can be redone, redoing it and then
/// undoing gives back the same engine state.
pub proof fn lemma_undo_after_redo(v: EngineView)
    requires
        v.undone.len() > 0,
    ensures
        undo_spec(redo_spec(v)) == v,
{
    assert(undo_spec(redo_spec(v)).done =~= v.done);
    assert(undo_spec(redo_spec(v)).undone =~= v.undone);
}

/// Undo and redo only move the boundary between what is committed and what
/// can be redone: the history read in order stays the same, and so does its
/// length.
pub proof fn lemma_undo_redo_keep_timeline(v: EngineView)
    ensures
        timeline(undo_spec(v)) == timeline(v),
        timeline(redo_spec(v)) == timeline(v),
        undo_spec(v).done.len() + undo_spec(v).undone.len() == v.done.len() + v.undone.len(),
        redo_spec(v).done.len() + redo_spec(v).undone.len() == v.done.len() + v.undone.len(),
{
    if v.done.len() > 0 {
        let u = undo_spec(v);
        assert(u.undone.reverse() =~= seq![v.done.last()] + v.undone.reverse());
        assert(timeline(u) =~= timeline(v));
    }
    if v.undone.len() > 0 {
        let r = redo_spec(v);
        assert(v.undone.reverse() =~= seq![v.undone.last()] + r.undone.reverse());
        assert(timeline(r) =~= timeline(v));
    }
}

/// A new action clears the redo stack: pressing at one point and releasing
/// at another commits a two-point annotation after everything committed
/// before, and nothing is left to redo.
pub proof fn lemma_stroke_commits_and_clears_redo(
    v: EngineView,
    tool: AnnotationTool,
    color: u32,
    x0: i32,
    y0: i32,
    x1: i32,
    y1: i32,
)
    ensures
        ({
            let w = end_spec(begin_spec(v, tool, color, x0, y0), x1, y1, None);
            &&& w.done == v.done.push(
                AnnotationView {
                    tool,
                    color,
                    points: seq![Point { x: x0, y: y0 }, Point { x: x1, y: y1 }],
                    text: None,
                },
            )
            &&& w.undone.len() == 0
            &&& w.current is None
            &&& !w.drawing
        }),
{
    let b = extend_stroke(fresh_stroke(tool, color, x0, y0), x1, y1);
    assert(b.points =~= seq![Point { x: x0, y: y0 }, Point { x: x1, y: y1 }]);
}

/// An operation on the engine.
pub enum EngineOp {
    Begin { tool: AnnotationTool, color: u32, x: i32, y: i32 },
    Continue { x: i32, y: i32 },
    End { x: i32, y: i32, text: Option<Seq<char>> },
    Cancel,
    Undo,
    Redo,
}

/// Effect of one operation.
pub open spec fn apply_op(v: EngineView, op: EngineOp) -> EngineView {
    match op {
        EngineOp::Begin { tool, color, x, y } => begin_spec(v, tool, color, x, y),
        EngineOp::Continue { x, y } => continue_spec(v, x, y),
        EngineOp::End { x, y, text } => end_spec(v, x, y, text),
        EngineOp::Cancel => cancel_spec(v),
        EngineOp::Undo => undo_spec(v),
        EngineOp::Redo => redo_spec(v),
    }
}

/// Effect of a sequence of operations, first to last.
pub open spec fn apply_ops(v: EngineView, ops: Seq<EngineOp>) -> EngineView
    decreases ops.len(),
{
    if ops.len() == 0 {
        v
    } else {
        apply_op(apply_ops(v, ops.drop_last()), ops.last())
    }
}

/// Whether the drawing flag is set after `ops`, starting from `drawing`:
/// set by the last stroke event (begin sets it, end and cancel clear it),
/// or left as it was when `ops` holds none.
pub open spec fn drawing_after(drawing: bool, ops: Seq<EngineOp>) -> bool
    decreases ops.len(),
{
    if ops.len() == 0 {
        drawing
    } else {
        match ops.last() {
            EngineOp::Begin { .. } => true,
            EngineOp::End { .. } | EngineOp::Cancel => false,
            _ => drawing_after(drawing, ops.drop_last()),
        }
    }
}

/// The drawing flag over any sequence of calls: after any operations, the
/// engine is drawing exactly when the last stroke event was a begin (or,
/// without stroke events, when it was drawing before); continuing, undo and
/// redo never change it, and the invariant holds throughout.
pub proof fn lemma_drawing_over_sequence(v: EngineView, ops: Seq<EngineOp>)
    requires
        engine_inv(v),
    ensures
        engine_inv(apply_ops(v, ops)),
        apply_ops(v, ops).drawing == drawing_after(v.drawing, ops),
    decreases ops.len(),
{
    if ops.len() > 0 {
        lemma_drawing_over_sequence(v, ops.drop_last());
        let w = apply_ops(v, ops.drop_last());
        lemma_op_keeps_inv(w, ops.last());
    }
}

/// Each operation keeps the engine invariant.
pub proof fn lemma_op_keeps_inv(v: EngineView, op: EngineOp)
    requires
        engine_inv(v),
    ensures
        engine_inv(apply_op(v, op)),
{
    match op {
        EngineOp::Begin { tool, color, x, y } => {},
        EngineOp::Continue { x, y } => {},
        EngineOp::End { x, y, text } => {
            let w = end_spec(v, x, y, text);
            if let Some(a) = v.current {
                let b0 = extend_stroke(a, x, y);
                let b = match text {
                    Some(t) => AnnotationView { text: Some(t), ..b0 },
                    None => b0,
                };
                assert(b.points.len() >= 2);
                assert forall|i: int| 0 <= i < w.done.len() implies #[trigger] w.done[i].points.len() >= 2 by {
                    if i < v.done.len() {
                        assert(w.done[i] == v.done[i]);
                    }
                }
            }
        },
        EngineOp::Cancel => {},
        EngineOp::Undo => {
            let w = undo_spec(v);
            if v.done.len() > 0 {
                assert forall|i: int| 0 <= i < w.undone.len() implies #[trigger] w.undone[i].points.len() >= 2 by {
                    if i < v.undone.len() {
                        assert(w.undone[i] == v.undone[i]);
                    } else {
                        assert(w.undone[i] == v.done[v.done.len() - 1]);
                    }
                }
                assert forall|i: int| 0 <= i < w.done.len() implies #[trigger] w.done[i].points.len() >= 2 by {
                    assert(w.done[i] == v.done[i]);
                }
            }
        },
        EngineOp::Redo => {
            let w = redo_spec(v);
            if v.undone.len() > 0 {
                assert forall|i: int| 0 <= i < w.done.len() implies #[trigger] w.done[i].points.len() >= 2 by {
                    if i < v.done.len() {
                        assert(w.done[i] == v.done[i]);
                    } else {
                        assert(w.done[i] == v.undone[v.undone.len() - 1]);
                    }
                }
                assert forall|i: int| 0 <= i < w.undone.len() implies #[trigger] w.undone[i].points.len() >= 2 by {
                    assert(w.undone[i] == v.undone[i]);
                }
            }
        },
    }
}

/// Annotation engine managing the drawing state and the undo/redo stacks.
pub struct AnnotationEngine {
    annotations: Vec<Annotation>,
    redo_stack: Vec<Annotation>,
    current: Option<Annotation>,
    drawing: bool,
}

impl View for AnnotationEngine {
    type V = EngineView;

    closed spec fn view(&self) -> EngineView {
        EngineView {
            done: annotation_seq_view(self.annotations@),
            undone: annotation_seq_view(self.redo_stack@),
            current: match self.current {
                Some(a) => Some(a@),
                None => None,
            },
            drawing: self.drawing,
        }
    }
}

impl AnnotationEngine {
    /// The engine invariant holds of this engine.
    pub open spec fn wf(&self) -> bool {
        engine_inv(self@)
    }

    /// Create a new empty annotation engine.
    pub fn new() -> (e: Self)
        ensures
            e.wf(),
            e@.done == Seq::<AnnotationView>::empty(),
            e@.undone == Seq::<AnnotationView>::empty(),
            e@.current is None,
            !e@.drawing,
    {
        let e = AnnotationEngine {
            annotations: Vec::new(),
            redo_stack: Vec::new(),
            current: None,
            drawing: false,
        };
        assert(e@.done =~= Seq::<AnnotationView>::empty());
        assert(e@.undone =~= Seq::<AnnotationView>::empty());
        e
    }

    /// Whether a stroke is being drawn.
    pub fn is_drawing(&self) -> (b: bool)
        ensures
            b == self@.drawing,
    {
        self.drawing
    }

    /// Begin a new stroke at the given position.
    pub fn begin_stroke(&mut self, tool: AnnotationTool, color: u32, x: i32, y: i32)
        requires
            old(self).wf(),
        ensures
            final(self).wf(),
            final(self)@ == begin_spec(old(self)@, tool, color, x, y),
    {
        let mut points: Vec<Point> = Vec::new();
        points.push(Point { x, y });
        self.current = Some(Annotation { tool, color, points, text: None });
        self.drawing = true;
        proof {
            let a = self.current.unwrap();
            assert(a@.points =~= seq![Point { x, y }]);
        }
    }

    /// Continue the current stroke to a new position.
    pub fn continue_stroke(&mut self, x: i32, y: i32)
        requires
            old(self).wf(),
        ensures
            final(self).wf(),
            final(self)@ == continue_spec(old(self)@, x, y),
    {
        match self.current.take() {
            Some(mut a) => {
                a.points.push(Point { x, y });
                self.current = Some(a);
            },
            None => {},
        }
    }

    fn finish(&mut self, x: i32, y: i32, text: Option<String>)
        requires
            old(self).wf(),
        ensures
            final(self).wf(),
            final(self)@ == end_spec(old(self)@, x, y, text_view(text)),
    {
        let ghost old_v = self@;
        let ghost tv = text_view(text);
        match self.current.take() {
            Some(mut a) => {
                a.points.push(Point { x, y });
                match text {
                    Some(t) => {
                        a.text = Some(t);
                    },
                    None => {},
                }
                if a.points.len() >= 2 {
                    let ghost av = a@;
                    self.annotations.push(a);
                    self.redo_stack.clear();
                    proof {
                        assert(annotation_seq_view(self.annotations@) =~= old_v.done.push(av));
                        assert(annotation_seq_view(self.redo_stack@) =~= Seq::<AnnotationView>::empty());
                    }
                }
            },
            None => {},
        }
        self.drawing = false;
        proof {
            let e = end_spec(old_v, x, y, tv);
            assert(self@.done =~= e.done);
            assert(self@.undone =~= e.undone);
        }
    }

    /// End the current stroke at the given position and commit it.
    pub fn end_stroke(&mut self, x: i32, y: i32)
        requires
            old(self).wf(),
        ensures
            final(self).wf(),
            final(self)@ == end_spec(old(self)@, x, y, None),
    {
        self.finish(x, y, None);
    }

    /// End the current stroke at the given position, attach `text` to it and
    /// commit it.
    pub fn end_stroke_with_text(&mut self, x: i32, y: i32, text: String)
        requires
            old(self).wf(),
        ensures
            final(self).wf(),
            final(self)@ == end_spec(old(self)@, x, y, Some(text@)),
    {
        self.finish(x, y, Some(text));
    }

    /// Drop the stroke in progress without committing it.
    pub fn cancel_stroke(&mut self)
        requires
            old(self).wf(),
        ensures
            final(self).wf(),
            final(self)@ == cancel_spec(old(self)@),
    {
        self.current = None;
        self.drawing = false;
    }

    /// Undo the last annotation.
    pub fn undo(&mut self)
        requires
            old(self).wf(),
        ensures
            final(self).wf(),
            final(self)@ == undo_spec(old(self)@),
    {
        let ghost old_v = self@;
        match self.annotations.pop() {
            Some(a) => {
                let ghost av = a@;
                self.redo_stack.push(a);
                proof {
                    assert(annotation_seq_view(self.annotations@) =~= old_v.done.drop_last());
                    assert(annotation_seq_view(self.redo_stack@) =~= old_v.undone.push(av));
                }
            },
            None => {},
        }
    }

    /// Redo the last undone annotation.
    pub fn redo(&mut self)
        requires
            old(self).wf(),
        ensures
            final(self).wf(),
            final(self)@ == redo_spec(old(self)@),
    {
        let ghost old_v = self@;
        match self.redo_stack.pop() {
            Some(a) => {
                let ghost av = a@;
                self.annotations.push(a);
                proof {
                    assert(annotation_seq_view(self.redo_stack@) =~= old_v.undone.drop_last());
                    assert(annotation_seq_view(self.annotations@) =~= old_v.done.push(av));
                }
            },
            None => {},
        }
    }

    /// The committed annotations, oldest first.
    pub fn annotations(&self) -> (r: &Vec<Annotation>)
        ensures
            annotation_seq_view(r@) == self@.done,
    {
        &self.annotations
    }

    /// The stroke in progress, if any.
    pub fn current(&self) -> (r: &Option<Annotation>)
        ensures
            match *r {
                Some(a) => self@.current == Some(a@),
                None => self@.current is None,
            },
    {
        &self.current
    }

    /// The annotations in the order they are drawn: the committed ones,
    /// oldest first, then the stroke in progress on top of them.
    pub fn render_order(&self) -> (r: Vec<&Annotation>)
        ensures
            r@.len() == shown_annotations(self@).len(),
            forall|i: int| 0 <= i < r@.len() ==> (#[trigger] r@[i])@ == shown_annotations(self@)[i],
    {
        let mut out: Vec<&Annotation> = Vec::new();
        let n = self.annotations.len();
        let mut i: usize = 0;
        while i < n
            invariant
                n == self.annotations@.len(),
                0 <= i <= n,
                out@.len() == i,
                forall|j: int| 0 <= j < i ==> (#[trigger] out@[j])@ == self.annotations@[j]@,
            decreases n - i,
        {
            out.push(&self.annotations[i]);
            i = i + 1;
        }
        if let Some(c) = &self.current {
            out.push(c);
        }
        proof {
            let shown = shown_annotations(self@);
            assert(self@.done.len() == n);
            assert forall|j: int| 0 <= j < out@.len() implies (#[trigger] out@[j])@ == shown[j] by {
                if j < n {
                    assert(self@.done[j] == self.annotations@[j]@);
                }
            }
        }
        out
    }
}


/// How an annotation is drawn.
#[derive(Debug)]
pub enum RenderOp {
    /// Nothing to draw
    Skip,
    /// Rectangle outline from the first to the last point, with a solid pen
    /// of `width` pixels in `color`
    Rectangle { left: i32, top: i32, right: i32, bottom: i32, width: i32, color: u32 },
    /// Line from the first to the last point with an arrowhead at the end,
    /// with a solid pen of `width` pixels in `color`
    Arrow { from: Point, to: Point, width: i32, color: u32 },
    /// The annotation's points joined by straight segments, with a solid pen
    /// of `width` pixels in `color`; `mask` blends the pen with what is below
    /// (highlighter)
    Polyline { width: i32, color: u32, mask: bool },
    /// Pixelate the rectangle spanned by the first and the last point
    Mosaic { left: i32, top: i32, right: i32, bottom: i32 },
    /// Draw `text` in `color`, on a transparent background, with its top-left
    /// corner at `(x, y)`
    Text { x: i32, y: i32, text: String, color: u32 },
}

/// The text a text annotation shows: its own, or `Text` when it has none.
pub open spec fn shown_text(a: AnnotationView) -> Seq<char> {
    match a.text {
        Some(t) => t,
        None => "Text"@,
    }
}

/// Smaller of two integers.
pub open spec fn min_int(a: int, b: int) -> int {
    if a <= b {
        a
    } else {
        b
    }
}

/// Larger of two integers.
pub open spec fn max_int(a: int, b: int) -> int {
    if a >= b {
        a
    } else {
        b
    }
}

/// How `a` is drawn: nothing without points; shapes from the first to the
/// last point when there are at least two; text at the first point.
pub open spec fn render_op_spec(a: AnnotationView, op: RenderOp) -> bool {
    let n = a.points.len();
    if n == 0 {
        op is Skip
    } else {
        let s = a.points[0];
        let e = a.points[n - 1];
        match a.tool {
            AnnotationTool::Rectangle => if n < 2 {
                op is Skip
            } else {
                op == RenderOp::Rectangle { left: s.x, top: s.y, right: e.x, bottom: e.y, width: 2, color: a.color }
            },
            AnnotationTool::Arrow => if n < 2 {
                op is Skip
            } else {
                op == RenderOp::Arrow { from: s, to: e, width: 2, color: a.color }
            },
            AnnotationTool::Pen => if n < 2 {
                op is Skip
            } else {
                op == RenderOp::Polyline { width: 2, color: a.color, mask: false }
            },
            AnnotationTool::Highlighter => if n < 2 {
                op is Skip
            } else {
                op == RenderOp::Polyline { width: 12, color: a.color, mask: true }
            },
            AnnotationTool::Mosaic => if n < 2 {
                op is Skip
            } else {
                op == RenderOp::Mosaic {
                    left: min_int(s.x as int, e.x as int) as i32,
                    top: min_int(s.y as int, e.y as int) as i32,
                    right: max_int(s.x as int, e.x as int) as i32,
                    bottom: max_int(s.y as int, e.y as int) as i32,
                }
            },
            AnnotationTool::Text => op matches RenderOp::Text { x, y, text, color } && x == s.x && y == s.y
                && text@ == shown_text(a) && color == a.color,
        }
    }
}

/// How an annotation is drawn, in its own colour: with at least two points
/// every tool draws; the outline, arrow and pen use a 2-pixel pen and the
/// highlighter a masking 12-pixel pen; every operation that draws with a pen
/// or writes text uses the annotation's colour; text is drawn from its first
/// point; an annotation without points draws nothing.
pub proof fn lemma_render_op_meaning(a: AnnotationView, op: RenderOp)
    requires
        render_op_spec(a, op),
    ensures
        a.points.len() == 0 ==> op is Skip,
        a.points.len() >= 2 ==> !(op is Skip),
        a.tool == AnnotationTool::Text && a.points.len() >= 1 ==> op is Text,
        op matches RenderOp::Rectangle { left, top, right, bottom, width, color } ==> a.tool
            == AnnotationTool::Rectangle && width == 2 && color == a.color && left == a.points[0].x && top
            == a.points[0].y && right == a.points[a.points.len() - 1].x && bottom == a.points[a.points.len()
            - 1].y,
        op matches RenderOp::Arrow { from, to, width, color } ==> a.tool == AnnotationTool::Arrow && width == 2
            && color == a.color && from == a.points[0] && to == a.points[a.points.len() - 1],
        op matches RenderOp::Polyline { width, color, mask } ==> color == a.color && ((a.tool
            == AnnotationTool::Pen && width == 2 && !mask) || (a.tool == AnnotationTool::Highlighter && width
            == 12 && mask)),
        op matches RenderOp::Text { x, y, color, .. } ==> a.tool == AnnotationTool::Text && color == a.color
            && x == a.points[0].x && y == a.points[0].y,
        op matches RenderOp::Mosaic { left, top, right, bottom } ==> {
            let p = a.points[0];
            let q = a.points[a.points.len() - 1];
            &&& a.tool == AnnotationTool::Mosaic
            &&& (left == p.x || left == q.x) && left <= p.x && left <= q.x
            &&& (right == p.x || right == q.x) && right >= p.x && right >= q.x
            &&& (top == p.y || top == q.y) && top <= p.y && top <= q.y
            &&& (bottom == p.y || bottom == q.y) && bottom >= p.y && bottom >= q.y
        },
{
}

/// Decide how an annotation is drawn.
pub fn render_op(a: &Annotation) -> (op: RenderOp)
    ensures
        render_op_spec(a@, op),
        op matches RenderOp::Rectangle { color, .. } ==> color == a.color,
        op matches RenderOp::Arrow { color, .. } ==> color == a.color,
        op matches RenderOp::Polyline { color, .. } ==> color == a.color,
        op matches RenderOp::Text { color, .. } ==> color == a.color,
{
    let n = a.points.len();
    if n == 0 {
        return RenderOp::Skip;
    }
    let start = a.points[0];
    let end = a.points[n - 1];
    match a.tool {
        AnnotationTool::Rectangle => {
            if n < 2 {
                RenderOp::Skip
            } else {
                RenderOp::Rectangle { left: start.x, top: start.y, right: end.x, bottom: end.y, width: 2, color: a.color }
            }
        },
        AnnotationTool::Arrow => {
            if n < 2 {
                RenderOp::Skip
            } else {
                RenderOp::Arrow { from: start, to: end, width: 2, color: a.color }
            }
        },
        AnnotationTool::Pen => {
            if n < 2 {
                RenderOp::Skip
            } else {
                RenderOp::Polyline { width: 2, color: a.color, mask: false }
            }
        },
        AnnotationTool::Highlighter => {
            if n < 2 {
                RenderOp::Skip
            } else {
                RenderOp::Polyline { width: 12, color: a.color, mask: true }
            }
        },
        AnnotationTool::Mosaic => {
            if n < 2 {
                RenderOp::Skip
            } else {
                RenderOp::Mosaic {
                    left: if start.x <= end.x { start.x } else { end.x },
                    top: if start.y <= end.y { start.y } else { end.y },
                    right: if start.x >= end.x { start.x } else { end.x },
                    bottom: if start.y >= end.y { start.y } else { end.y },
                }
            }
        },
        AnnotationTool::Text => {
            let text = match &a.text {
                Some(t) => t.clone(),
                None => String::from_str("Text"),
            };
            RenderOp::Text { x: start.x, y: start.y, text, color: a.color }
        },
    }
}

/// Side of a mosaic block, in pixels.
pub const MOSAIC_BLOCK: i32 = 8;

/// One block of a mosaic: the rectangle filled and the pixel whose colour
/// fills it.
#[derive(Clone, Copy, Debug, PartialEq, Eq, Structural)]
pub struct MosaicBlock {
    pub sample_x: i32,
    pub sample_y: i32,
    pub rect: Rect,
}

/// The block whose top-left corner is `(x, y)`, clipped to `right` and
/// `bottom`, sampled at its centre.
pub open spec fn block_spec(x: int, y: int, right: int, bottom: int) -> MosaicBlock {
    MosaicBlock {
        sample_x: (x + 4) as i32,
        sample_y: (y + 4) as i32,
        rect: Rect {
            left: x as i32,
            top: y as i32,
            right: min_int(x + 8, right) as i32,
            bottom: min_int(y + 8, bottom) as i32,
        },
    }
}

/// Number of 8-pixel steps from `lo` that stay below `hi`.
pub open spec fn steps(lo: int, hi: int) -> nat {
    if hi > lo {
        ((hi - lo + 7) / 8) as nat
    } else {
        0
    }
}

/// The first `n` blocks of the block row at `y`, left to right.
pub open spec fn block_row(left: int, right: int, y: int, bottom: int, n: nat) -> Seq<MosaicBlock>
    decreases n,
{
    if n == 0 {
        Seq::empty()
    } else {
        block_row(left, right, y, bottom, (n - 1) as nat).push(block_spec(left + 8 * (n - 1), y, right, bottom))
    }
}

/// The first `n` block rows, top to bottom.
pub open spec fn block_rows(left: int, top: int, right: int, bottom: int, n: nat) -> Seq<MosaicBlock>
    decreases n,
{
    if n == 0 {
        Seq::empty()
    } else {
        block_rows(left, top, right, bottom, (n - 1) as nat) + block_row(
            left,
            right,
            top + 8 * (n - 1),
            bottom,
            steps(left, right),
        )
    }
}

/// The blocks that pixelate the rectangle: 8 x 8 blocks from its top-left
/// corner, row by row, the last ones clipped to its edges.
pub open spec fn mosaic_spec(left: int, top: int, right: int, bottom: int) -> Seq<MosaicBlock> {
    block_rows(left, top, right, bottom, steps(top, bottom))
}

proof fn lemma_block_row(left: int, right: int, y: int, bottom: int, n: nat)
    ensures
        block_row(left, right, y, bottom, n).len() == n,
        forall|c: int|
            0 <= c < n ==> #[trigger] block_row(left, right, y, bottom, n)[c] == block_spec(
                left + 8 * c,
                y,
                right,
                bottom,
            ),
    decreases n,
{
    if n > 0 {
        lemma_block_row(left, right, y, bottom, (n - 1) as nat);
    }
}

proof fn lemma_block_rows(left: int, top: int, right: int, bottom: int, n: nat)
    ensures
        block_rows(left, top, right, bottom, n).len() == n * steps(left, right),
        forall|r: int, c: int|
            0 <= r < n && 0 <= c < steps(left, right) ==> #[trigger] block_rows(left, top, right, bottom, n)[r
                * steps(left, right) + c] == block_spec(left + 8 * c, top + 8 * r, right, bottom),
    decreases n,
{
    let k = steps(left, right) as int;
    if n > 0 {
        let m = (n - 1) as nat;
        lemma_block_rows(left, top, right, bottom, m);
        lemma_block_row(left, right, top + 8 * m, bottom, k as nat);
        let prev = block_rows(left, top, right, bottom, m);
        let all = block_rows(left, top, right, bottom, n);
        assert(n * k == m * k + k) by (nonlinear_arith)
            requires
                n == m + 1,
        ;
        assert forall|r: int, c: int| 0 <= r < n && 0 <= c < k implies #[trigger] all[r * k + c]
            == block_spec(left + 8 * c, top + 8 * r, right, bottom) by {
            if r < m {
                assert(r * k + c < m * k) by (nonlinear_arith)
                    requires
                        r + 1 <= m,
                        0 <= c < k,
                        r >= 0,
                ;
                assert(0 <= r * k) by (nonlinear_arith)
                    requires
                        r >= 0,
                        k >= 0,
                ;
                assert(all[r * k + c] == prev[r * k + c]);
            } else {
                assert(r * k + c == m * k + c) by (nonlinear_arith)
                    requires
                        r == m,
                ;
            }
        }
    }
}

/// A mosaic tiles its rectangle: it has one block for each 8-pixel step
/// down and across, listed row by row; the block in row `r`, column `c`
/// starts at `(left + 8c, top + 8r)`, and every block is a non-empty part of
/// the rectangle.
pub proof fn lemma_mosaic_tiles(left: int, top: int, right: int, bottom: int, r: int, c: int)
    requires
        0 <= r < steps(top, bottom),
        0 <= c < steps(left, right),
    ensures
        mosaic_spec(left, top, right, bottom).len() == steps(top, bottom) * steps(left, right),
        ({
            let b = mosaic_spec(left, top, right, bottom)[r * steps(left, right) + c];
            &&& b == block_spec(left + 8 * c, top + 8 * r, right, bottom)
            &&& left <= left + 8 * c < min_int(left + 8 * c + 8, right) <= right
            &&& top <= top + 8 * r < min_int(top + 8 * r + 8, bottom) <= bottom
        }),
{
    lemma_block_rows(left, top, right, bottom, steps(top, bottom));
}

/// The block of the mosaic at column `c`, row `r` contains the point.
pub open spec fn block_contains(left: int, top: int, right: int, bottom: int, r: int, c: int, px: int, py: int) -> bool {
    let b = block_spec(left + 8 * c, top + 8 * r, right, bottom);
    &&& b.rect.left <= px < b.rect.right
    &&& b.rect.top <= py < b.rect.bottom
}

/// The point lies in the block at column `(px - left) / 8`, row
/// `(py - top) / 8`, which is one of the mosaic's blocks.
pub open spec fn covered_by_own_block(left: int, top: int, right: int, bottom: int, px: int, py: int) -> bool {
    let c = (px - left) / 8;
    let r = (py - top) / 8;
    &&& 0 <= r < steps(top, bottom)
    &&& 0 <= c < steps(left, right)
    &&& block_contains(left, top, right, bottom, r, c, px, py)
}

/// The mosaic's blocks cover its rectangle exactly once: every point of the
/// rectangle lies in the block at column `(px - left) / 8`, row
/// `(py - top) / 8`, and in no other block; no block reaches outside the
/// rectangle; and each block's sample point lies in that block or outside the
/// rectangle, so that samples are read from pixels no block has filled yet or
/// that the mosaic does not touch.
pub proof fn lemma_mosaic_partition(left: int, top: int, right: int, bottom: int)
    requires
        fits_i32(left),
        fits_i32(top),
        fits_i32(right),
        fits_i32(bottom),
        mosaic_fits(left, top, right, bottom),
    ensures
        forall|px: int, py: int|
            left <= px < right && top <= py < bottom ==> #[trigger] covered_by_own_block(
                left,
                top,
                right,
                bottom,
                px,
                py,
            ),
        forall|r: int, c: int, px: int, py: int|
            0 <= r < steps(top, bottom) && 0 <= c < steps(left, right) && #[trigger] block_contains(
                left,
                top,
                right,
                bottom,
                r,
                c,
                px,
                py,
            ) ==> left <= px < right && top <= py < bottom && c == (px - left) / 8 && r == (py - top) / 8,
        forall|r: int, c: int|
            0 <= r < steps(top, bottom) && 0 <= c < steps(left, right) ==> {
                let b = #[trigger] block_spec(left + 8 * c, top + 8 * r, right, bottom);
                &&& b.rect.right - b.rect.left <= 8 && b.rect.bottom - b.rect.top <= 8
                &&& (block_contains(left, top, right, bottom, r, c, b.sample_x as int, b.sample_y as int)
                    || b.sample_x >= right || b.sample_y >= bottom)
            },
{
    assert forall|px: int, py: int| left <= px < right && top <= py < bottom implies #[trigger] covered_by_own_block(
        left,
        top,
        right,
        bottom,
        px,
        py,
    ) by {
        let c = (px - left) / 8;
        let r = (py - top) / 8;
        assert(8 * c <= px - left < 8 * c + 8);
        assert(8 * r <= py - top < 8 * r + 8);
    }
    assert forall|r: int, c: int|
        0 <= r < steps(top, bottom) && 0 <= c < steps(left, right) implies {
            let b = #[trigger] block_spec(left + 8 * c, top + 8 * r, right, bottom);
            &&& b.rect.right - b.rect.left <= 8 && b.rect.bottom - b.rect.top <= 8
            &&& (block_contains(left, top, right, bottom, r, c, b.sample_x as int, b.sample_y as int)
                || b.sample_x >= right || b.sample_y >= bottom)
        } by {
        assert(steps(top, bottom) > 0);
        assert(top + 8 * r + 8 <= i32::MAX);
        assert(left + 8 * c + 8 <= i32::MAX);
    }
    assert forall|r: int, c: int, px: int, py: int|
        0 <= r < steps(top, bottom) && 0 <= c < steps(left, right) && #[trigger] block_contains(
            left,
            top,
            right,
            bottom,
            r,
            c,
            px,
            py,
        ) implies left <= px < right && top <= py < bottom && c == (px - left) / 8 && r == (py - top) / 8 by {
        assert(left + 8 * c <= px < left + 8 * c + 8);
        assert(top + 8 * r <= py < top + 8 * r + 8);
    }
}

/// The mosaic of an annotation does not depend on which of its end points
/// came first: swapping the first and last point gives the same rectangle.
pub proof fn lemma_mosaic_symmetric(p: Point, q: Point)
    ensures
        min_int(p.x as int, q.x as int) == min_int(q.x as int, p.x as int),
        min_int(p.y as int, q.y as int) == min_int(q.y as int, p.y as int),
        max_int(p.x as int, q.x as int) == max_int(q.x as int, p.x as int),
        max_int(p.y as int, q.y as int) == max_int(q.y as int, p.y as int),
{
}

/// The block walk over the rectangle stays within `i32`: the rows' and the
/// columns' steps end at representable positions.
pub open spec fn mosaic_fits(left: int, top: int, right: int, bottom: int) -> bool {
    &&& top + 8 * steps(top, bottom) <= i32::MAX
    &&& steps(top, bottom) > 0 ==> left + 8 * steps(left, right) <= i32::MAX
}

/// The blocks of a mosaic over the rectangle `left..right` x `top..bottom`.
pub fn mosaic_blocks(left: i32, top: i32, right: i32, bottom: i32) -> (r: Vec<MosaicBlock>)
    requires
        mosaic_fits(left as int, top as int, right as int, bottom as int),
    ensures
        r@ == mosaic_spec(left as int, top as int, right as int, bottom as int),
{
    let mut out: Vec<MosaicBlock> = Vec::new();
    let ghost ncols = steps(left as int, right as int);
    let ghost nrows = steps(top as int, bottom as int);
    let mut y = top;
    let ghost mut r: nat = 0;
    while y < bottom
        invariant
            mosaic_fits(left as int, top as int, right as int, bottom as int),
            ncols == steps(left as int, right as int),
            nrows == steps(top as int, bottom as int),
            y == top + 8 * r,
            r <= nrows,
            (r < nrows) <==> (y < bottom),
            out@ == block_rows(left as int, top as int, right as int, bottom as int, r),
        decreases nrows - r,
    {
        let ghost before = out@;
        let mut x = left;
        let ghost mut c: nat = 0;
        while x < right
            invariant
                mosaic_fits(left as int, top as int, right as int, bottom as int),
                ncols == steps(left as int, right as int),
                nrows == steps(top as int, bottom as int),
                r < nrows,
                y == top + 8 * r,
                y < bottom,
                x == left + 8 * c,
                c <= ncols,
                (c < ncols) <==> (x < right),
                out@ == before + block_row(left as int, right as int, y as int, bottom as int, c),
            decreases ncols - c,
        {
            let cx = x + MOSAIC_BLOCK / 2;
            let cy = y + MOSAIC_BLOCK / 2;
            let rr = if x + MOSAIC_BLOCK <= right { x + MOSAIC_BLOCK } else { right };
            let bb = if y + MOSAIC_BLOCK <= bottom { y + MOSAIC_BLOCK } else { bottom };
            out.push(MosaicBlock { sample_x: cx, sample_y: cy, rect: Rect { left: x, top: y, right: rr, bottom: bb } });
            x = x + MOSAIC_BLOCK;
            proof {
                c = c + 1;
            }
            assert(out@ =~= before + block_row(left as int, right as int, y as int, bottom as int, c));
        }
        y = y + MOSAIC_BLOCK;
        proof {
            r = r + 1;
        }
        assert(out@ =~= block_rows(left as int, top as int, right as int, bottom as int, r));
    }
    out
}

} // verus!
