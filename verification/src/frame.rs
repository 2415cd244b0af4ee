//! Where on the screen the panel goes.
//!
//! A frame is one bordered panel, set in from every edge of the viewport by
//! a fixed margin. The layout engine proposes the rectangle; this module
//! accepts it only if its cells are those of the viewport's interior. What
//! the engine proposes has a name here, `layout_rows`, so that the frame is
//! stated as what it is: a function of the viewport.

use vstd::prelude::*;

verus! {

/// A rectangle of screen cells: `width` columns from column `x` on, and
/// `height` rows from row `y` on.
#[derive(Clone, Copy, Debug, PartialEq, Eq, Structural)]
pub struct Rect {
    pub x: u16,
    pub y: u16,
    pub width: u16,
    pub height: u16,
}

/// How many cells are left free between the viewport's edge and the panel.
pub const MARGIN: u16 = 2;

/// The least height that is asked of the layout engine for the panel.
pub const MIN_HEIGHT: u16 = 2;

impl Rect {
    /// The first column to the right of the rectangle.
    pub open spec fn right(self) -> int {
        self.x + self.width
    }

    /// The first row below the rectangle.
    pub open spec fn bottom(self) -> int {
        self.y + self.height
    }

    /// The cells of the rectangle, each as (column, row).
    pub open spec fn cells(self) -> Set<(int, int)> {
        Set::new(
            |c: (int, int)| self.x <= c.0 < self.right() && self.y <= c.1 < self.bottom(),
        )
    }

    /// The cells of the rectangle that are at least `margin` cells away from
    /// each of its four edges.
    pub open spec fn interior(self, margin: int) -> Set<(int, int)> {
        Set::new(
            |c: (int, int)|
                self.x + margin <= c.0 < self.right() - margin && self.y + margin <= c.1
                    < self.bottom() - margin,
        )
    }

    /// Whether the rectangle has no cell.
    pub open spec fn is_empty(self) -> bool {
        self.width == 0 || self.height == 0
    }

    /// Whether no edge of the rectangle lies beyond the last column or row
    /// that a coordinate can name.
    pub open spec fn addressable(self) -> bool {
        self.right() <= u16::MAX && self.bottom() <= u16::MAX
    }

    /// Whether the rectangle can serve as the panel of `viewport`: it has a
    /// cell, and its cells are those of the viewport's interior.
    pub open spec fn is_panel_of(self, viewport: Rect) -> bool {
        !self.is_empty() && self.cells() =~= viewport.interior(MARGIN as int)
    }

    /// Decides `is_panel_of` from the coordinates.
    pub fn fits(&self, viewport: &Rect) -> (ok: bool)
        ensures
            ok == self.is_panel_of(*viewport),
    {
        let margin: u32 = MARGIN as u32;
        let ok = self.width > 0 && self.height > 0 && self.x as u32 == viewport.x as u32 + margin
            && self.y as u32 == viewport.y as u32 + margin && self.width as u32 + 2 * margin
            == viewport.width as u32 && self.height as u32 + 2 * margin == viewport.height as u32;
        proof {
            if self.is_panel_of(*viewport) {
                lemma_panel_coordinates(*self, *viewport);
            }
        }
        ok
    }
}

/// A rectangle with a cell holds its top left corner and its bottom right
/// one.
proof fn lemma_corner_cells(rect: Rect)
    requires
        !rect.is_empty(),
    ensures
        rect.cells().contains((rect.x as int, rect.y as int)),
        rect.cells().contains((rect.right() - 1, rect.bottom() - 1)),
{
}

/// A panel is the viewport drawn in by the margin on every side.
pub proof fn lemma_panel_coordinates(panel: Rect, viewport: Rect)
    requires
        panel.is_panel_of(viewport),
    ensures
        panel.x == viewport.x + MARGIN,
        panel.y == viewport.y + MARGIN,
        panel.width == viewport.width - 2 * MARGIN,
        panel.height == viewport.height - 2 * MARGIN,
{
    let interior = viewport.interior(MARGIN as int);
    // The panel's corners are in the interior, so the interior has cells,
    // and its own corners are in the panel.
    lemma_corner_cells(panel);
    assert(interior.contains((panel.x as int, panel.y as int)));
    assert(interior.contains((panel.right() - 1, panel.bottom() - 1)));
    assert(interior.contains((viewport.x + MARGIN, viewport.y + MARGIN)));
    assert(interior.contains((viewport.right() - MARGIN - 1, viewport.bottom() - MARGIN - 1)));
}

/// The rows into which the layout engine splits `area`: what
/// `tui::layout::Layout::split` returns for a vertical layout with the margin
/// `margin` on every side and the single constraint `Min(min_height)`.
///
/// The engine hands the split to a constraint solver, but for one row the
/// required constraints leave the solver no choice: the left edge, the top
/// edge and the width are fixed by equalities, and the height is computed
/// from the area once the solver is done. So the rows are a function of
/// these three values, and nothing else is claimed of them here.
pub uninterp spec fn layout_rows(area: Rect, margin: u16, min_height: u16) -> Seq<Rect>;

/// Asks the layout engine for the rows of `area`.
///
/// Calls `tui::layout::Layout::split` on a vertical layout with the given
/// margin and the single constraint `Min(min_height)`. The contract claims
/// that the result is `layout_rows` of the three arguments, and that it holds
/// one rectangle, as the engine returns one for each constraint. Of the
/// coordinates it claims nothing: they are taken as they come, and
/// `place_panel` decides what to make of them. The `requires` keeps away the
/// inputs on which the engine's own arithmetic overflows or its constraints
/// contradict each other.
#[verifier::external_body]
fn split_rows(area: Rect, margin: u16, min_height: u16) -> (chunks: Vec<Rect>)
    requires
        2 * margin <= u16::MAX,
        area.addressable(),
    ensures
        chunks@ == layout_rows(area, margin, min_height),
        chunks@.len() == 1,
{
    let outer = tui::layout::Rect { x: area.x, y: area.y, width: area.width, height: area.height };
    let layout = tui::layout::Layout::default()
        .direction(tui::layout::Direction::Vertical)
        .margin(margin)
        .constraints([tui::layout::Constraint::Min(min_height)].as_ref());
    let mut chunks = Vec::new();
    for r in layout.split(outer) {
        chunks.push(Rect { x: r.x, y: r.y, width: r.width, height: r.height });
    }
    chunks
}

/// The panel that a proposal of the layout engine yields: its first
/// rectangle, if that can serve as the panel of `viewport`.
pub open spec fn panel_among(viewport: Rect, chunks: Seq<Rect>) -> Option<Rect> {
    if chunks.len() > 0 && chunks[0].is_panel_of(viewport) {
        Some(chunks[0])
    } else {
        None
    }
}

/// Picks the panel out of what the layout engine proposed.
pub fn place_panel(viewport: Rect, chunks: &Vec<Rect>) -> (area: Option<Rect>)
    ensures
        area == panel_among(viewport, chunks@),
{
    if chunks.len() > 0 && chunks[0].fits(&viewport) {
        Some(chunks[0])
    } else {
        None
    }
}

/// The panel of `viewport`: what `place_panel` makes of the layout engine's
/// rows, and nothing where the viewport is not addressable.
pub open spec fn panel_of(viewport: Rect) -> Option<Rect> {
    if viewport.addressable() {
        panel_among(viewport, layout_rows(viewport, MARGIN, MIN_HEIGHT))
    } else {
        None
    }
}

/// Where the panel goes in `viewport`, or `None` if there is no room for it.
///
/// The rectangle is the layout engine's, asked for with the margin and the
/// least height of this module. A rectangle that is returned has a cell and
/// takes up the viewport's interior, no more and no less. A viewport that is
/// not addressable, or whose interior has no cell, gets no panel.
pub fn panel_area(viewport: Rect) -> (area: Option<Rect>)
    ensures
        area == panel_of(viewport),
        area matches Some(a) ==> a.is_panel_of(viewport),
        viewport.width <= 2 * MARGIN || viewport.height <= 2 * MARGIN ==> area is None,
{
    let right: u32 = viewport.x as u32 + viewport.width as u32;
    let bottom: u32 = viewport.y as u32 + viewport.height as u32;
    if right > u16::MAX as u32 || bottom > u16::MAX as u32 {
        return None;
    }
    let chunks = split_rows(viewport, MARGIN, MIN_HEIGHT);
    let area = place_panel(viewport, &chunks);
    proof {
        if let Some(a) = area {
            lemma_panel_coordinates(a, viewport);
        }
    }
    area
}

/// The colours that a frame is drawn in.
#[derive(Clone, Copy, Debug, PartialEq, Eq, Structural)]
pub enum Color {
    Black,
    Red,
    Green,
    Yellow,
    Blue,
    Magenta,
    Cyan,
    Gray,
    DarkGray,
    LightRed,
    LightGreen,
    LightYellow,
    LightBlue,
    LightMagenta,
    LightCyan,
    White,
}

/// The line that a border is drawn with.
#[derive(Clone, Copy, Debug, PartialEq, Eq, Structural)]
pub enum BorderType {
    Plain,
    Rounded,
    Double,
    Thick,
}

/// How a line of text is set between the left and the right edge.
#[derive(Clone, Copy, Debug, PartialEq, Eq, Structural)]
pub enum Alignment {
    Left,
    Center,
    Right,
}

/// The sides of a panel that have a border.
#[derive(Clone, Copy, Debug, PartialEq, Eq, Structural)]
pub struct Sides {
    pub top: bool,
    pub right: bool,
    pub bottom: bool,
    pub left: bool,
}

/// The one thing that a frame shows: a panel with a rounded border all
/// around, its title in the top border and its text centred inside.
#[derive(Clone, Copy, Debug, PartialEq, Eq)]
pub struct Panel {
    /// The cells that the panel takes up, border included.
    pub area: Rect,
    /// The title.
    pub title: &'static str,
    /// The text.
    pub body: &'static str,
    /// The colour of the text.
    pub text_color: Color,
    /// The colour of the border and the title.
    pub border_color: Color,
}

impl Panel {
    /// The panel as it looks in every frame, on the cells of `area`.
    pub open spec fn on(area: Rect) -> Panel {
        Panel {
            area,
            title: "SFUI",
            body: "Hello World!",
            text_color: Color::LightCyan,
            border_color: Color::White,
        }
    }

    /// Makes `on(area)`.
    pub fn new(area: Rect) -> (panel: Panel)
        ensures
            panel == Panel::on(area),
    {
        Panel {
            area,
            title: "SFUI",
            body: "Hello World!",
            text_color: Color::LightCyan,
            border_color: Color::White,
        }
    }

    /// The sides on which the panel has a border: all four.
    pub fn border_sides(&self) -> (sides: Sides)
        ensures
            sides == (Sides { top: true, right: true, bottom: true, left: true }),
    {
        Sides { top: true, right: true, bottom: true, left: true }
    }

    /// The line of the border: one with rounded corners.
    pub fn border_type(&self) -> (line: BorderType)
        ensures
            line == BorderType::Rounded,
    {
        BorderType::Rounded
    }

    /// How the text is set inside the border: centred.
    pub fn body_alignment(&self) -> (alignment: Alignment)
        ensures
            alignment == Alignment::Center,
    {
        Alignment::Center
    }
}

/// The frame of `viewport`: the panel in its place, where there is one.
pub open spec fn frame_of(viewport: Rect) -> Option<Panel> {
    match panel_of(viewport) {
        Some(area) => Some(Panel::on(area)),
        None => None,
    }
}

/// What to draw on `viewport`: the panel, where the viewport has room for
/// it, and else nothing.
///
/// The panel is the same in every frame but for its place, which is that of
/// `panel_area`. The frame depends on the viewport alone.
pub fn render_ui(viewport: Rect) -> (frame: Option<Panel>)
    ensures
        frame == frame_of(viewport),
        frame matches Some(panel) ==> panel.area.is_panel_of(viewport),
        viewport.width <= 2 * MARGIN || viewport.height <= 2 * MARGIN ==> frame is None,
{
    match panel_area(viewport) {
        Some(area) => Some(Panel::new(area)),
        None => None,
    }
}

} // verus!
