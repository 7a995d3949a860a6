use vstd::prelude::*;

use crate::annotation::{
    begin_spec, cancel_spec, engine_inv, continue_spec, end_spec, text_view, lemma_redo_after_undo, lemma_undo_after_redo, redo_spec,
    undo_spec, AnnotationEngine, AnnotationTool, EngineView,
};
use crate::geometry::{fits_i32, trunc_div, Rect};

verus! {

/// Toolbar button IDs, in toolbar order.
pub const BTN_RECTANGLE: u32 = 2001;
pub const BTN_ARROW: u32 = 2002;
pub const BTN_PEN: u32 = 2003;
pub const BTN_HIGHLIGHTER: u32 = 2004;
pub const BTN_MOSAIC: u32 = 2005;
pub const BTN_TEXT: u32 = 2006;
pub const BTN_UNDO: u32 = 2007;
pub const BTN_REDO: u32 = 2008;
pub const BTN_CLOSE: u32 = 2009;
pub const BTN_PIN: u32 = 2010;
pub const BTN_SAVE: u32 = 2011;
pub const BTN_COPY: u32 = 2012;
pub const BTN_COLOR: u32 = 2013;

/// Number of toolbar buttons.
pub const BUTTON_COUNT: usize = 13;

/// Toolbar button dimensions.
pub const BTN_WIDTH: i32 = 32;
pub const BTN_HEIGHT: i32 = 32;
pub const TOOLBAR_PADDING: i32 = 4;
pub const TOOLBAR_HEIGHT: i32 = BTN_HEIGHT + TOOLBAR_PADDING * 2;

/// Width of the toolbar window: all buttons and the padding on both sides.
pub const TOOLBAR_WIDTH: i32 = 13 * BTN_WIDTH + TOOLBAR_PADDING * 2;

/// Colours of the colour picker (`COLORREF`, `0x00BBGGRR`).
pub const COLOR_RED: u32 = 0x0000_00FF;
pub const COLOR_GREEN: u32 = 0x0000_FF00;
pub const COLOR_BLUE: u32 = 0x00FF_0000;
pub const COLOR_YELLOW: u32 = 0x0000_FFFF;
pub const COLOR_WHITE: u32 = 0x00FF_FFFF;

/// The ID of the button at position `index` of the toolbar.
pub open spec fn button_id_spec(index: int) -> u32 {
    (2001 + index) as u32
}

/// The ID of the button at position `index` of the toolbar.
pub fn button_id(index: usize) -> (id: u32)
    requires
        index < BUTTON_COUNT,
    ensures
        id == button_id_spec(index as int),
{
    2001 + index as u32
}

/// The glyph drawn on the button at position `index`.
pub open spec fn button_label_spec(index: int) -> Seq<char> {
    if index == 0 {
        "\u{25A1}"@
    } else if index == 1 {
        "\u{2197}"@
    } else if index == 2 {
        "\u{270E}"@
    } else if index == 3 {
        "\u{2593}"@
    } else if index == 4 {
        "\u{25A6}"@
    } else if index == 5 {
        "T"@
    } else if index == 6 {
        "\u{21B6}"@
    } else if index == 7 {
        "\u{21B7}"@
    } else if index == 8 {
        "\u{2715}"@
    } else if index == 9 {
        "\u{2299}"@
    } else if index == 10 {
        "\u{21E9}"@
    } else if index == 11 {
        "\u{29C9}"@
    } else {
        "\u{25CF}"@
    }
}

/// The glyph drawn on the button at position `index`.
pub fn button_label(index: usize) -> (s: &'static str)
    requires
        index < BUTTON_COUNT,
    ensures
        s@ == button_label_spec(index as int),
{
    if index == 0 {
        "\u{25A1}"
    } else if index == 1 {
        "\u{2197}"
    } else if index == 2 {
        "\u{270E}"
    } else if index == 3 {
        "\u{2593}"
    } else if index == 4 {
        "\u{25A6}"
    } else if index == 5 {
        "T"
    } else if index == 6 {
        "\u{21B6}"
    } else if index == 7 {
        "\u{21B7}"
    } else if index == 8 {
        "\u{2715}"
    } else if index == 9 {
        "\u{2299}"
    } else if index == 10 {
        "\u{21E9}"
    } else if index == 11 {
        "\u{29C9}"
    } else {
        "\u{25CF}"
    }
}

/// The rectangle of the button at position `index`, in toolbar coordinates.
pub open spec fn button_rect_spec(index: int) -> Rect {
    Rect {
        left: (4 + 32 * index) as i32,
        top: 4,
        right: (4 + 32 * index + 32) as i32,
        bottom: 36,
    }
}

/// The rectangle of the button at position `index`, in toolbar coordinates.
pub fn button_rect(index: usize) -> (r: Rect)
    requires
        index < BUTTON_COUNT,
    ensures
        r == button_rect_spec(index as int),
{
    let bx = TOOLBAR_PADDING + index as i32 * BTN_WIDTH;
    let by = TOOLBAR_PADDING;
    Rect { left: bx, top: by, right: bx + BTN_WIDTH, bottom: by + BTN_HEIGHT }
}

/// The button under toolbar position `x`: position `(x - 4) / 32`, rounded
/// toward zero, when it names one of the buttons.
pub open spec fn button_at_spec(x: int) -> Option<usize> {
    let i = trunc_div(x - 4, 32);
    if 0 <= i < 13 {
        Some(i as usize)
    } else {
        None
    }
}

/// The button under toolbar position `x`.
pub fn button_at(x: i32) -> (r: Option<usize>)
    requires
        fits_i32(x - 4),
    ensures
        r == button_at_spec(x as int),
{
    let btn_index = (x - TOOLBAR_PADDING) / BTN_WIDTH;
    if btn_index < 0 || btn_index >= BUTTON_COUNT as i32 {
        None
    } else {
        Some(btn_index as usize)
    }
}

/// Clicking within a button's rectangle selects that button.
pub proof fn lemma_click_in_button(index: int, x: int)
    requires
        0 <= index < 13,
        button_rect_spec(index).left <= x < button_rect_spec(index).right,
    ensures
        button_at_spec(x) == Some(index as usize),
{
    assert(trunc_div(x - 4, 32) == index);
}

/// Toolbar placement: centred under the canvas, four pixels below it.
pub open spec fn toolbar_origin_spec(width: int, height: int, canvas_x: int, canvas_y: int) -> (int, int) {
    (canvas_x + trunc_div(width - 424, 2), canvas_y + height + 4)
}

/// Position of the toolbar window for a canvas of `width` x `height` at
/// `(canvas_x, canvas_y)`.
pub fn toolbar_origin(width: i32, height: i32, canvas_x: i32, canvas_y: i32) -> (r: (i32, i32))
    requires
        fits_i32(width - 424),
        fits_i32(canvas_x + trunc_div(width - 424, 2)),
        fits_i32(canvas_y + height),
        fits_i32(canvas_y + height + 4),
    ensures
        r.0 as int == toolbar_origin_spec(width as int, height as int, canvas_x as int, canvas_y as int).0,
        r.1 as int == toolbar_origin_spec(width as int, height as int, canvas_x as int, canvas_y as int).1,
{
    let toolbar_x = canvas_x + (width - TOOLBAR_WIDTH) / 2;
    let toolbar_y = canvas_y + height + 4;
    (toolbar_x, toolbar_y)
}

/// The next colour of the colour picker: red, green, blue, yellow, white, and
/// back to red; any other colour goes to red.
pub open spec fn next_color_spec(c: u32) -> u32 {
    if c == COLOR_RED {
        COLOR_GREEN
    } else if c == COLOR_GREEN {
        COLOR_BLUE
    } else if c == COLOR_BLUE {
        COLOR_YELLOW
    } else if c == COLOR_YELLOW {
        COLOR_WHITE
    } else {
        COLOR_RED
    }
}

/// Cycle through the common colours.
pub fn next_color(c: u32) -> (n: u32)
    ensures
        n == next_color_spec(c),
{
    match c {
        0x0000_00FF => COLOR_GREEN,
        0x0000_FF00 => COLOR_BLUE,
        0x00FF_0000 => COLOR_YELLOW,
        0x0000_FFFF => COLOR_WHITE,
        _ => COLOR_RED,
    }
}

/// The colour picker runs through five colours: from any of them, five
/// presses come back to it, and from any other colour one press gives red.
pub proof fn lemma_color_cycle(c: u32)
    ensures
        (c == COLOR_RED || c == COLOR_GREEN || c == COLOR_BLUE || c == COLOR_YELLOW || c == COLOR_WHITE)
            ==> next_color_spec(next_color_spec(next_color_spec(next_color_spec(next_color_spec(c)))))
            == c,
        !(c == COLOR_RED || c == COLOR_GREEN || c == COLOR_BLUE || c == COLOR_YELLOW || c == COLOR_WHITE)
            ==> next_color_spec(c) == COLOR_RED,
{
}

/// The tool that a tool button selects.
pub open spec fn button_tool(id: u32) -> Option<AnnotationTool> {
    if id == BTN_RECTANGLE {
        Some(AnnotationTool::Rectangle)
    } else if id == BTN_ARROW {
        Some(AnnotationTool::Arrow)
    } else if id == BTN_PEN {
        Some(AnnotationTool::Pen)
    } else if id == BTN_HIGHLIGHTER {
        Some(AnnotationTool::Highlighter)
    } else if id == BTN_MOSAIC {
        Some(AnnotationTool::Mosaic)
    } else if id == BTN_TEXT {
        Some(AnnotationTool::Text)
    } else {
        None
    }
}

/// A button is shown active when it is the button of the current tool.
pub fn is_button_active(id: u32, tool: AnnotationTool) -> (b: bool)
    ensures
        b == (button_tool(id) == Some(tool)),
        id == 2001 ==> (b <==> tool == AnnotationTool::Rectangle),
        id == 2002 ==> (b <==> tool == AnnotationTool::Arrow),
        id == 2003 ==> (b <==> tool == AnnotationTool::Pen),
        id == 2004 ==> (b <==> tool == AnnotationTool::Highlighter),
        id == 2005 ==> (b <==> tool == AnnotationTool::Mosaic),
        id == 2006 ==> (b <==> tool == AnnotationTool::Text),
        (id < 2001 || id > 2006) ==> !b,
{
    match id {
        BTN_RECTANGLE => tool == AnnotationTool::Rectangle,
        BTN_ARROW => tool == AnnotationTool::Arrow,
        BTN_PEN => tool == AnnotationTool::Pen,
        BTN_HIGHLIGHTER => tool == AnnotationTool::Highlighter,
        BTN_MOSAIC => tool == AnnotationTool::Mosaic,
        BTN_TEXT => tool == AnnotationTool::Text,
        _ => false,
    }
}

/// Background of the toolbar.
pub const TOOLBAR_BACKGROUND: u32 = 0x0038_3838;
/// Fill behind the button of the current tool.
pub const ACTIVE_BUTTON_FILL: u32 = 0x0066_6666;
/// Colour of the button labels.
pub const LABEL_COLOR: u32 = 0x00FF_FFFF;

/// How one toolbar button is painted: its rectangle, its glyph, the fill
/// behind it (if any) and the colour of the glyph.
pub struct ButtonLook {
    pub rect: Rect,
    pub label: &'static str,
    pub fill: Option<u32>,
    pub text_color: u32,
}

/// How the button at position `index` is painted with `tool` and `color`
/// chosen: the button of the current tool is filled with the active fill;
/// the colour button's glyph is drawn in the current colour, every other
/// glyph in the label colour.
pub fn button_look(index: usize, tool: AnnotationTool, color: u32) -> (b: ButtonLook)
    requires
        index < BUTTON_COUNT,
    ensures
        b.rect == button_rect_spec(index as int),
        b.label@ == button_label_spec(index as int),
        b.fill == (if button_tool(button_id_spec(index as int)) == Some(tool) {
            Some(ACTIVE_BUTTON_FILL)
        } else {
            None
        }),
        b.text_color == (if button_id_spec(index as int) == BTN_COLOR {
            color
        } else {
            LABEL_COLOR
        }),
{
    let id = button_id(index);
    let fill = if is_button_active(id, tool) {
        Some(ACTIVE_BUTTON_FILL)
    } else {
        None
    };
    let text_color = if id == BTN_COLOR {
        color
    } else {
        LABEL_COLOR
    };
    ButtonLook { rect: button_rect(index), label: button_label(index), fill, text_color }
}

/// Each tool button selects the tool it is labelled with: the buttons at
/// positions 0 to 5 (IDs 2001 to 2006, glyphs rectangle, arrow, pencil,
/// shaded block, grid, `T`) select the rectangle, arrow, pen, highlighter,
/// mosaic and text tools in that order, no other button selects a tool, and
/// a click within a tool button's 32 pixels picks its tool, keeps everything
/// else and asks for a repaint.
pub proof fn lemma_tool_buttons(v: ToolbarView, x: int)
    ensures
        button_id_spec(0) == 2001 && button_tool(2001) == Some(AnnotationTool::Rectangle),
        button_id_spec(1) == 2002 && button_tool(2002) == Some(AnnotationTool::Arrow),
        button_id_spec(2) == 2003 && button_tool(2003) == Some(AnnotationTool::Pen),
        button_id_spec(3) == 2004 && button_tool(2004) == Some(AnnotationTool::Highlighter),
        button_id_spec(4) == 2005 && button_tool(2005) == Some(AnnotationTool::Mosaic),
        button_id_spec(5) == 2006 && button_tool(2006) == Some(AnnotationTool::Text),
        forall|id: u32| (id < 2001 || id > 2006) ==> #[trigger] button_tool(id) is None,
        4 <= x < 36 ==> click_spec(v, x) == ((ToolbarView { tool: AnnotationTool::Rectangle, ..v }), ToolbarAction::Repaint),
        36 <= x < 68 ==> click_spec(v, x) == ((ToolbarView { tool: AnnotationTool::Arrow, ..v }), ToolbarAction::Repaint),
        68 <= x < 100 ==> click_spec(v, x) == ((ToolbarView { tool: AnnotationTool::Pen, ..v }), ToolbarAction::Repaint),
        100 <= x < 132 ==> click_spec(v, x) == ((ToolbarView { tool: AnnotationTool::Highlighter, ..v }), ToolbarAction::Repaint),
        132 <= x < 164 ==> click_spec(v, x) == ((ToolbarView { tool: AnnotationTool::Mosaic, ..v }), ToolbarAction::Repaint),
        164 <= x < 196 ==> click_spec(v, x) == ((ToolbarView { tool: AnnotationTool::Text, ..v }), ToolbarAction::Repaint),
{
    if 4 <= x < 196 {
        let i = (x - 4) / 32;
        assert(trunc_div(x - 4, 32) == i);
    }
}

/// The other buttons, by position: undo (212 to 243 pixels) and redo (244
/// to 275) change only the drawing and ask for the canvas to be repainted;
/// close (276 to 307), save (340 to 371) and copy (372 to 403) change
/// nothing and ask for their action; pin (308 to 339) flips the pinned flag
/// and asks to pin when it becomes set, to unpin when it is cleared; the
/// colour button (404 to 435) moves red to green, green to blue, blue to
/// yellow, yellow to white and anything else to red. A click left of -27 or
/// right of 419 is ignored.
pub proof fn lemma_action_buttons(v: ToolbarView, x: int)
    ensures
        196 <= x < 228 ==> click_spec(v, x) == ((ToolbarView { engine: undo_spec(v.engine), ..v }),
            ToolbarAction::RepaintWithCanvas),
        228 <= x < 260 ==> click_spec(v, x) == ((ToolbarView { engine: redo_spec(v.engine), ..v }),
            ToolbarAction::RepaintWithCanvas),
        260 <= x < 292 ==> click_spec(v, x) == (v, ToolbarAction::Close),
        292 <= x < 324 ==> click_spec(v, x).0 == (ToolbarView { pinned: !v.pinned, ..v }),
        292 <= x < 324 ==> (click_spec(v, x).1 == ToolbarAction::Pin <==> !v.pinned),
        292 <= x < 324 ==> (click_spec(v, x).1 == ToolbarAction::Unpin <==> v.pinned),
        324 <= x < 356 ==> click_spec(v, x) == (v, ToolbarAction::Save),
        356 <= x < 388 ==> click_spec(v, x) == (v, ToolbarAction::Copy),
        388 <= x < 420 ==> click_spec(v, x).1 == ToolbarAction::Repaint,
        388 <= x < 420 && v.color == 0x0000_00FF ==> click_spec(v, x).0 == (ToolbarView { color: 0x0000_FF00, ..v }),
        388 <= x < 420 && v.color == 0x0000_FF00 ==> click_spec(v, x).0 == (ToolbarView { color: 0x00FF_0000, ..v }),
        388 <= x < 420 && v.color == 0x00FF_0000 ==> click_spec(v, x).0 == (ToolbarView { color: 0x0000_FFFF, ..v }),
        388 <= x < 420 && v.color == 0x0000_FFFF ==> click_spec(v, x).0 == (ToolbarView { color: 0x00FF_FFFF, ..v }),
        388 <= x < 420 && v.color != 0x0000_00FF && v.color != 0x0000_FF00 && v.color != 0x00FF_0000 && v.color
            != 0x0000_FFFF ==> click_spec(v, x).0 == (ToolbarView { color: 0x0000_00FF, ..v }),
        (x <= -28 || x >= 420) ==> click_spec(v, x) == (v, ToolbarAction::Ignore),
{
    if 4 <= x < 420 {
        let i = (x - 4) / 32;
        assert(trunc_div(x - 4, 32) == i);
    }
}

/// What the toolbar asks of its windows after a click.
#[derive(Clone, Copy, Debug, PartialEq, Eq, Structural)]
pub enum ToolbarAction {
    /// Nothing to do
    Ignore,
    /// Repaint the toolbar
    Repaint,
    /// Pin the canvas to the screen: remove the toolbar and keep the canvas
    /// always on top
    Pin,
    /// Unpin the canvas: show the toolbar again and let the canvas leave the
    /// top
    Unpin,
    /// Repaint the canvas, then the toolbar
    RepaintWithCanvas,
    /// Close the canvas and the toolbar
    Close,
    /// Composite the annotations, save the result, then repaint the toolbar
    Save,
    /// Composite the annotations, copy the result, then repaint the toolbar
    Copy,
}

/// Model of a toolbar session.
pub struct ToolbarView {
    pub image: Seq<u8>,
    pub width: i32,
    pub height: i32,
    pub engine: EngineView,
    pub tool: AnnotationTool,
    pub color: u32,
    pub pinned: bool,
}

/// Effect of clicking the toolbar at `x`, and the action asked for.
pub open spec fn click_spec(v: ToolbarView, x: int) -> (ToolbarView, ToolbarAction) {
    match button_at_spec(x) {
        None => (v, ToolbarAction::Ignore),
        Some(i) => {
            let id = button_id_spec(i as int);
            match button_tool(id) {
                Some(t) => (ToolbarView { tool: t, ..v }, ToolbarAction::Repaint),
                None => if id == BTN_UNDO {
                    (ToolbarView { engine: undo_spec(v.engine), ..v }, ToolbarAction::RepaintWithCanvas)
                } else if id == BTN_REDO {
                    (ToolbarView { engine: redo_spec(v.engine), ..v }, ToolbarAction::RepaintWithCanvas)
                } else if id == BTN_CLOSE {
                    (v, ToolbarAction::Close)
                } else if id == BTN_PIN {
                    (
                        ToolbarView { pinned: !v.pinned, ..v },
                        if v.pinned {
                            ToolbarAction::Unpin
                        } else {
                            ToolbarAction::Pin
                        },
                    )
                } else if id == BTN_SAVE {
                    (v, ToolbarAction::Save)
                } else if id == BTN_COPY {
                    (v, ToolbarAction::Copy)
                } else {
                    (ToolbarView { color: next_color_spec(v.color), ..v }, ToolbarAction::Repaint)
                },
            }
        },
    }
}

/// The toolbar's undo and redo buttons undo each other: with something
/// drawn, clicking Undo and then Redo gives back the same session; with
/// something undone, clicking Redo and then Undo does too.
pub proof fn lemma_toolbar_undo_redo(v: ToolbarView, undo_x: int, redo_x: int)
    requires
        button_at_spec(undo_x) == Some(6usize),
        button_at_spec(redo_x) == Some(7usize),
    ensures
        v.engine.done.len() > 0 ==> click_spec(click_spec(v, undo_x).0, redo_x).0 == v,
        v.engine.undone.len() > 0 ==> click_spec(click_spec(v, redo_x).0, undo_x).0 == v,
        click_spec(v, undo_x).1 == ToolbarAction::RepaintWithCanvas,
        click_spec(v, redo_x).1 == ToolbarAction::RepaintWithCanvas,
{
    if v.engine.done.len() > 0 {
        lemma_redo_after_undo(v.engine);
    }
    if v.engine.undone.len() > 0 {
        lemma_undo_after_redo(v.engine);
    }
}

/// The captured region being annotated, with the toolbar's choices.
pub struct ToolbarSession {
    image_data: Vec<u8>,
    image_width: i32,
    image_height: i32,
    annotation_engine: AnnotationEngine,
    current_tool: AnnotationTool,
    current_color: u32,
    pinned: bool,
}

impl View for ToolbarSession {
    type V = ToolbarView;

    closed spec fn view(&self) -> ToolbarView {
        ToolbarView {
            image: self.image_data@,
            width: self.image_width,
            height: self.image_height,
            engine: self.annotation_engine@,
            tool: self.current_tool,
            color: self.current_color,
            pinned: self.pinned,
        }
    }
}

impl ToolbarSession {
    /// The annotation engine's invariant holds.
    pub open spec fn wf(&self) -> bool {
        engine_inv(self@.engine)
    }

    /// A session over the cropped `image_data` of `width` x `height` pixels:
    /// rectangle tool, red, not pinned, nothing drawn.
    pub fn new(image_data: Vec<u8>, width: i32, height: i32) -> (s: Self)
        ensures
            s.wf(),
            s@.image == image_data@,
            s@.width == width,
            s@.height == height,
            s@.engine.done.len() == 0,
            s@.engine.undone.len() == 0,
            s@.engine.current is None,
            !s@.engine.drawing,
            s@.tool == AnnotationTool::Rectangle,
            s@.color == COLOR_RED,
            !s@.pinned,
    {
        ToolbarSession {
            image_data,
            image_width: width,
            image_height: height,
            annotation_engine: AnnotationEngine::new(),
            current_tool: AnnotationTool::Rectangle,
            current_color: COLOR_RED,
            pinned: false,
        }
    }

    /// The pixels being annotated.
    pub fn image_data(&self) -> (r: &Vec<u8>)
        ensures
            r@ == self@.image,
    {
        &self.image_data
    }

    /// Width of the image.
    pub fn image_width(&self) -> (w: i32)
        ensures
            w == self@.width,
    {
        self.image_width
    }

    /// Height of the image.
    pub fn image_height(&self) -> (h: i32)
        ensures
            h == self@.height,
    {
        self.image_height
    }

    /// The annotations drawn so far.
    pub fn engine(&self) -> (e: &AnnotationEngine)
        ensures
            e@ == self@.engine,
            e.wf() == self.wf(),
    {
        &self.annotation_engine
    }

    /// The current tool.
    pub fn current_tool(&self) -> (t: AnnotationTool)
        ensures
            t == self@.tool,
    {
        self.current_tool
    }

    /// The current colour.
    pub fn current_color(&self) -> (c: u32)
        ensures
            c == self@.color,
    {
        self.current_color
    }

    /// Whether the canvas is pinned.
    pub fn is_pinned(&self) -> (p: bool)
        ensures
            p == self@.pinned,
    {
        self.pinned
    }

    /// Handle a click on the toolbar at `x`.
    pub fn click(&mut self, x: i32) -> (a: ToolbarAction)
        requires
            old(self).wf(),
            fits_i32(x - 4),
        ensures
            final(self).wf(),
            (final(self)@, a) == click_spec(old(self)@, x as int),
    {
        let btn_index = match button_at(x) {
            Some(i) => i,
            None => {
                return ToolbarAction::Ignore;
            },
        };
        let button_id = button_id(btn_index);
        match button_id {
            BTN_RECTANGLE => {
                self.current_tool = AnnotationTool::Rectangle;
            },
            BTN_ARROW => {
                self.current_tool = AnnotationTool::Arrow;
            },
            BTN_PEN => {
                self.current_tool = AnnotationTool::Pen;
            },
            BTN_HIGHLIGHTER => {
                self.current_tool = AnnotationTool::Highlighter;
            },
            BTN_MOSAIC => {
                self.current_tool = AnnotationTool::Mosaic;
            },
            BTN_TEXT => {
                self.current_tool = AnnotationTool::Text;
            },
            BTN_UNDO => {
                self.annotation_engine.undo();
                return ToolbarAction::RepaintWithCanvas;
            },
            BTN_REDO => {
                self.annotation_engine.redo();
                return ToolbarAction::RepaintWithCanvas;
            },
            BTN_CLOSE => {
                return ToolbarAction::Close;
            },
            BTN_PIN => {
                self.pinned = !self.pinned;
                if self.pinned {
                    return ToolbarAction::Pin;
                } else {
                    return ToolbarAction::Unpin;
                }
            },
            BTN_SAVE => {
                return ToolbarAction::Save;
            },
            BTN_COPY => {
                return ToolbarAction::Copy;
            },
            _ => {
                self.current_color = next_color(self.current_color);
            },
        }
        ToolbarAction::Repaint
    }

    /// Button pressed on the canvas: begin a stroke with the current tool and
    /// colour.
    pub fn canvas_press(&mut self, x: i32, y: i32)
        requires
            old(self).wf(),
        ensures
            final(self).wf(),
            final(self)@ == (ToolbarView {
                engine: begin_spec(old(self)@.engine, old(self)@.tool, old(self)@.color, x, y),
                ..old(self)@
            }),
    {
        self.annotation_engine.begin_stroke(self.current_tool, self.current_color, x, y);
    }

    /// Pointer moved on the canvas: while drawing, extend the stroke; the
    /// result says whether the canvas needs repainting.
    pub fn canvas_move(&mut self, x: i32, y: i32) -> (repaint: bool)
        requires
            old(self).wf(),
        ensures
            final(self).wf(),
            repaint == old(self)@.engine.drawing,
            final(self)@ == (ToolbarView {
                engine: if repaint { continue_spec(old(self)@.engine, x, y) } else { old(self)@.engine },
                ..old(self)@
            }),
    {
        if self.annotation_engine.is_drawing() {
            self.annotation_engine.continue_stroke(x, y);
            true
        } else {
            false
        }
    }

    /// Whether releasing the button must first ask the user for text.
    pub fn needs_text(&self) -> (b: bool)
        ensures
            b == (self@.tool == AnnotationTool::Text),
    {
        self.current_tool == AnnotationTool::Text
    }

    /// Button released on the canvas. With the text tool, a non-empty `text`
    /// from the user is attached to the stroke, which is committed; a
    /// cancelled or empty text cancels the annotation: the stroke is dropped
    /// and nothing is committed. Any other tool ends and commits the stroke.
    pub fn canvas_release(&mut self, x: i32, y: i32, text: Option<String>)
        requires
            old(self).wf(),
        ensures
            final(self).wf(),
            final(self)@ == (ToolbarView { engine: release_spec(old(self)@.engine, old(self)@.tool, x, y, text_view(text)), ..old(self)@ }),
    {
        if self.current_tool == AnnotationTool::Text {
            match text {
                Some(t) => {
                    if !t.as_str().is_empty() {
                        self.annotation_engine.end_stroke_with_text(x, y, t);
                    } else {
                        self.annotation_engine.cancel_stroke();
                    }
                },
                None => {
                    self.annotation_engine.cancel_stroke();
                },
            }
        } else {
            self.annotation_engine.end_stroke(x, y);
        }
    }
}

/// Effect of releasing the button on the canvas at `(x, y)` with `tool`,
/// given the text the user entered (text tool only): a non-empty text is
/// attached and the stroke committed; with the text tool, no text or an
/// empty one cancels the stroke; other tools commit the stroke as it is.
pub open spec fn release_spec(e: EngineView, tool: AnnotationTool, x: i32, y: i32, text: Option<Seq<char>>) -> EngineView {
    if tool == AnnotationTool::Text {
        match text {
            Some(t) => if t.len() > 0 {
                end_spec(e, x, y, Some(t))
            } else {
                cancel_spec(e)
            },
            None => cancel_spec(e),
        }
    } else {
        end_spec(e, x, y, None)
    }
}

/// Size of the text dialog.
pub const DIALOG_WIDTH: i32 = 300;
pub const DIALOG_HEIGHT: i32 = 120;

/// Position of the text dialog: centred on a screen of the given size.
pub fn dialog_origin(screen_w: i32, screen_h: i32) -> (r: (i32, i32))
    requires
        fits_i32(screen_w - 300),
        fits_i32(screen_h - 120),
    ensures
        r.0 as int == trunc_div(screen_w - 300, 2),
        r.1 as int == trunc_div(screen_h - 120, 2),
{
    ((screen_w - DIALOG_WIDTH) / 2, (screen_h - DIALOG_HEIGHT) / 2)
}

} // verus!
