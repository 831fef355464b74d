//! Screen geometry: the fixed-width UI column inside the terminal, the
//! named rows of a screen, and the placement of dialogs, tables and icons.
use vstd::prelude::*;

verus! {

/// A rectangle of terminal cells.
#[derive(Clone, Copy, PartialEq, Eq, Structural, Debug)]
pub struct Rect {
    pub x: u16,
    pub y: u16,
    pub width: u16,
    pub height: u16,
}

/// Icon (14) + gap (2) + logo (63).
pub const UI_WIDTH: u16 = 79;

/// Below this terminal height the decorative chrome (logos, taglines) is
/// dropped to keep the content visible.
pub const COMPACT_HEIGHT: u16 = 24;

/// Whether the terminal is too short for the decorative chrome.
pub fn is_compact(area: Rect) -> (r: bool)
    ensures
        r == (area.height < COMPACT_HEIGHT),
{
    area.height < COMPACT_HEIGHT
}

/// Horizontal alignment of a widget in the UI column.
#[derive(Clone, Copy, PartialEq, Eq, Structural, Debug)]
pub enum HAlign {
    Left,
    Center,
}

/// A widget's wanted width and alignment.
#[derive(Clone, Copy, PartialEq, Eq, Structural, Debug)]
pub struct Widget {
    pub width: u16,
    pub halign: HAlign,
}

impl Widget {
    pub fn anon(width: u16, halign: HAlign) -> (r: Self)
        ensures
            r == (Widget { width, halign }),
    {
        Widget { width, halign }
    }
}

pub open spec fn spec_min(a: int, b: int) -> int {
    if a < b {
        a
    } else {
        b
    }
}

pub open spec fn spec_sat_sub(a: int, b: int) -> int {
    if a > b {
        a - b
    } else {
        0
    }
}

/// Places widgets in a column of at most `UI_WIDTH` cells at the left edge
/// of the frame, never past the frame's right edge.
pub struct LayoutEngine {
    ui_width: u16,
    base_x: u16,
    frame_right: u16,
}

impl LayoutEngine {
    pub closed spec fn spec_ui_width(&self) -> int {
        self.ui_width as int
    }

    pub closed spec fn spec_base_x(&self) -> int {
        self.base_x as int
    }

    pub closed spec fn spec_frame_right(&self) -> int {
        self.frame_right as int
    }

    /// The column lies inside the frame.
    pub closed spec fn wf(&self) -> bool {
        self.base_x + self.ui_width <= self.frame_right
    }

    /// The engine for a frame; the frame must lie within the cell range.
    pub fn new(frame: Rect) -> (r: Self)
        requires
            frame.x + frame.width <= u16::MAX,
        ensures
            r.wf(),
            r.spec_ui_width() == spec_min(UI_WIDTH as int, frame.width as int),
            r.spec_base_x() == frame.x,
            r.spec_frame_right() == frame.x + frame.width,
    {
        let ui_width = if UI_WIDTH < frame.width {
            UI_WIDTH
        } else {
            frame.width
        };
        LayoutEngine { ui_width, base_x: frame.x, frame_right: frame.x + frame.width }
    }

    /// The part of a row that the UI column covers.
    pub fn clamp_area(&self, area: Rect) -> (r: Rect)
        ensures
            r == (Rect {
                x: self.spec_base_x() as u16,
                width: self.spec_ui_width() as u16,
                ..area
            }),
    {
        Rect { x: self.base_x, width: self.ui_width, ..area }
    }

    /// The span `[x, x + width)` of a row, cut at the frame's right edge.
    pub open spec fn spec_clip(&self, x: int, width: int, row: Rect) -> Rect {
        let x1 = spec_min(x, self.spec_frame_right());
        let right = spec_min(x1 + width, self.spec_frame_right());
        Rect { x: x1 as u16, width: (right - x1) as u16, ..row }
    }

    fn clip(&self, x: u16, width: u16, row: Rect) -> (r: Rect)
        requires
            x + width <= u16::MAX,
        ensures
            r == self.spec_clip(x as int, width as int, row),
    {
        let x = if x < self.frame_right {
            x
        } else {
            self.frame_right
        };
        let right = if x + width < self.frame_right {
            x + width
        } else {
            self.frame_right
        };
        Rect { x, width: right - x, ..row }
    }

    /// Where a widget goes in a row: at the column's left edge, or centred
    /// in the column; never wider than the column.
    pub open spec fn spec_place(&self, w: Widget, row: Rect) -> Rect {
        let x = match w.halign {
            HAlign::Left => self.spec_base_x(),
            HAlign::Center => self.spec_base_x() + spec_sat_sub(
                self.spec_ui_width(),
                w.width as int,
            ) / 2,
        };
        self.spec_clip(x, spec_min(self.spec_ui_width(), w.width as int), row)
    }

    pub fn place(&self, w: &Widget, row: Rect) -> (r: Rect)
        requires
            self.wf(),
        ensures
            r == self.spec_place(*w, row),
    {
        let x = match w.halign {
            HAlign::Left => self.base_x,
            HAlign::Center => self.base_x + self.ui_width.saturating_sub(w.width) / 2,
        };
        let width = if self.ui_width < w.width {
            self.ui_width
        } else {
            w.width
        };
        self.clip(x, width, row)
    }

    /// A span of `width` cells centred in the column.
    pub fn center(&self, width: u16, row: Rect) -> (r: Rect)
        requires
            self.wf(),
        ensures
            r == self.spec_place(Widget { width, halign: HAlign::Center }, row),
    {
        self.place(&Widget { width, halign: HAlign::Center }, row)
    }
}

/// The height of a named row of a screen.
#[derive(Clone, Copy, PartialEq, Eq, Structural, Debug)]
pub enum RowHeight {
    /// Exactly this many lines (0 hides the row).
    Length(u16),
    /// Whatever is left.
    Fill,
}

/// Where the rows of a screen fall: ratatui's layout solver, stacking the
/// rows top to bottom inside the area shrunk by the margin.
pub uninterp spec fn solved_rows(area: Rect, heights: Seq<RowHeight>, margin: u16) -> Seq<Rect>;

/// Asks ratatui's `Layout::split` for the rows of a vertical layout.
/// It hands back one rectangle per constraint; what they are is named by
/// `solved_rows` (the solver's arithmetic is not restated here).
#[verifier::external_body]
fn solve_rows(area: Rect, heights: &Vec<RowHeight>, margin: u16) -> (r: Vec<Rect>)
    ensures
        r@ == solved_rows(area, heights@, margin),
        r@.len() == heights@.len(),
{
    let cs = heights.iter().map(|h| match h {
        RowHeight::Length(n) => ratatui::layout::Constraint::Length(*n),
        RowHeight::Fill => ratatui::layout::Constraint::Min(0),
    });
    let frame = ratatui::layout::Rect::new(area.x, area.y, area.width, area.height);
    let rects = ratatui::layout::Layout::vertical(cs).margin(margin).split(frame);
    rects.iter().map(|r| Rect { x: r.x, y: r.y, width: r.width, height: r.height }).collect()
}

/// The rows of a screen, named, top to bottom.
pub struct ScreenLayout {
    pub names: Vec<&'static str>,
    pub heights: Vec<RowHeight>,
    pub margin: u16,
}

impl ScreenLayout {
    pub open spec fn wf(&self) -> bool {
        self.names@.len() == self.heights@.len()
    }

    pub fn new() -> (r: Self)
        ensures
            r.wf(),
            r.names@.len() == 0,
            r.margin == 0,
    {
        ScreenLayout { names: Vec::new(), heights: Vec::new(), margin: 0 }
    }

    /// Adds a row of fixed height (0 collapses it, so screens can hide
    /// chrome without renaming rows).
    pub fn row(self, name: &'static str, height: u16) -> (r: Self)
        requires
            self.wf(),
        ensures
            r.wf(),
            r.names@ == self.names@.push(name),
            r.heights@ == self.heights@.push(RowHeight::Length(height)),
            r.margin == self.margin,
    {
        let mut s = self;
        s.names.push(name);
        s.heights.push(RowHeight::Length(height));
        s
    }

    /// Adds a row that takes the remaining height.
    pub fn fill(self, name: &'static str) -> (r: Self)
        requires
            self.wf(),
        ensures
            r.wf(),
            r.names@ == self.names@.push(name),
            r.heights@ == self.heights@.push(RowHeight::Fill),
            r.margin == self.margin,
    {
        let mut s = self;
        s.names.push(name);
        s.heights.push(RowHeight::Fill);
        s
    }

    pub fn margin(self, m: u16) -> (r: Self)
        requires
            self.wf(),
        ensures
            r.wf(),
            r.names@ == self.names@,
            r.heights@ == self.heights@,
            r.margin == m,
    {
        let mut s = self;
        s.margin = m;
        s
    }

    /// The rows laid out in `area`, each under its name.
    pub fn split(&self, area: Rect) -> (r: RowMap)
        requires
            self.wf(),
        ensures
            r.names@ == self.names@,
            r.rects@ == solved_rows(area, self.heights@, self.margin),
            r.rects@.len() == r.names@.len(),
    {
        let rects = solve_rows(area, &self.heights, self.margin);
        RowMap { names: self.names.clone(), rects }
    }
}

/// Laid-out rows, found by name.
pub struct RowMap {
    pub names: Vec<&'static str>,
    pub rects: Vec<Rect>,
}

/// First position of `name` among the row names.
pub open spec fn spec_row_index(names: Seq<&'static str>, name: Seq<char>) -> Option<int>
    decreases names.len(),
{
    if names.len() == 0 {
        None
    } else {
        match spec_row_index(names.drop_last(), name) {
            Some(i) => Some(i),
            None => if names.last()@ == name {
                Some(names.len() - 1)
            } else {
                None
            },
        }
    }
}

impl RowMap {
    /// The rectangle of the first row of that name; the name must be one of
    /// the layout's.
    pub fn get(&self, name: &str) -> (r: Rect)
        requires
            self.rects@.len() == self.names@.len(),
            spec_row_index(self.names@, name@) is Some,
        ensures
            r == self.rects@[spec_row_index(self.names@, name@)->0],
    {
        let mut i: usize = 0;
        while i < self.names.len()
            invariant
                i <= self.names@.len(),
                self.rects@.len() == self.names@.len(),
                spec_row_index(self.names@.take(i as int), name@) is None,
                spec_row_index(self.names@, name@) is Some,
            decreases self.names.len() - i,
        {
            assert(self.names@.take(i + 1).drop_last() =~= self.names@.take(i as int));
            if crate::text::str_eq(self.names[i], name) {
                proof {
                    lemma_row_index_prefix(self.names@, name@, i as int + 1);
                }
                return self.rects[i];
            }
            i = i + 1;
        }
        assert(self.names@.take(self.names@.len() as int) =~= self.names@);
        self.rects[0]
    }
}

proof fn lemma_row_index_prefix(names: Seq<&'static str>, name: Seq<char>, k: int)
    requires
        0 <= k <= names.len(),
        spec_row_index(names.take(k), name) is Some,
    ensures
        spec_row_index(names, name) == spec_row_index(names.take(k), name),
    decreases names.len() - k,
{
    if k < names.len() {
        assert(names.take(k + 1).drop_last() =~= names.take(k));
        lemma_row_index_prefix(names, name, k + 1);
    } else {
        assert(names.take(k) =~= names);
    }
}

/// A rectangle narrowed by `n` cells on the left and on the right.
pub open spec fn spec_inset(r: Rect, n: u16) -> Rect {
    Rect {
        x: spec_min(r.x + n, u16::MAX as int) as u16,
        width: spec_sat_sub(r.width as int, 2 * n) as u16,
        ..r
    }
}

pub fn inset_rect(r: Rect, n: u16) -> (out: Rect)
    ensures
        out == spec_inset(r, n),
{
    let x = r.x.saturating_add(n);
    let width = if (r.width as u32) > 2 * (n as u32) {
        ((r.width as u32) - 2 * (n as u32)) as u16
    } else {
        0
    };
    Rect { x, width, ..r }
}

/// The confirmation dialog: at least 26 cells wide (room for the message
/// and a border), 5 high, centred in the area.
pub open spec fn spec_dialog_rect(area: Rect, msg_len: int) -> Rect {
    let w = if msg_len + 4 > 26 {
        msg_len + 4
    } else {
        26
    };
    Rect {
        x: (area.x + spec_sat_sub(area.width as int, w) / 2) as u16,
        y: (area.y + spec_sat_sub(area.height as int, 5) / 2) as u16,
        width: w as u16,
        height: 5,
    }
}

pub fn dialog_rect(area: Rect, msg_len: usize) -> (r: Rect)
    requires
        msg_len + 4 <= u16::MAX,
        area.x + area.width <= u16::MAX,
        area.y + area.height <= u16::MAX,
    ensures
        r == spec_dialog_rect(area, msg_len as int),
{
    let w: u16 = if msg_len + 4 > 26 {
        (msg_len + 4) as u16
    } else {
        26
    };
    Rect {
        x: area.x + area.width.saturating_sub(w) / 2,
        y: area.y + area.height.saturating_sub(5) / 2,
        width: w,
        height: 5,
    }
}

/// The row of a scroll bar's thumb: the track of `track` rows stands for
/// the `max_scroll + 1` scroll positions.
pub open spec fn spec_thumb_row(scroll: int, max_scroll: int, track: int) -> int {
    if max_scroll > 0 {
        scroll * spec_sat_sub(track, 1) / max_scroll
    } else {
        0
    }
}

/// Where a table of `total` rows, `visible` at a time, is scrolled to
/// (never past the last page), and where its scroll bar's thumb is; `None`
/// when everything fits and no bar is drawn.
pub fn scroll_view(scroll: usize, total: usize, visible: usize, track: usize) -> (r: (usize, Option<usize>))
    requires
        total * track <= usize::MAX,
    ensures
        ({
            let max = spec_sat_sub(total as int, visible as int);
            let s = spec_min(scroll as int, max);
            &&& r.0 == s
            &&& r.1 == if total > visible {
                Some(spec_thumb_row(s, max, track as int) as usize)
            } else {
                None
            }
        }),
{
    let max = total.saturating_sub(visible);
    let s = if scroll < max {
        scroll
    } else {
        max
    };
    if total > visible {
        let t = track.saturating_sub(1);
        let thumb = if max > 0 {
            proof {
                assert(s * t <= total * track) by (nonlinear_arith)
                    requires
                        s <= total,
                        t <= track,
                ;
            }
            s * t / max
        } else {
            0
        };
        (s, Some(thumb))
    } else {
        (s, None)
    }
}

/// The 14×7 program icon drawn beside the main menu's logo.
pub struct IconWidget;

impl IconWidget {
    /// Where the icon cell at (`col`, `row`) goes in `area`; `None` when it
    /// falls outside and is not drawn.
    pub fn cell_position(area: Rect, col: u16, row: u16) -> (r: Option<(u16, u16)>)
        requires
            area.x + col <= u16::MAX,
            area.y + row <= u16::MAX,
        ensures
            r == if col < area.width && row < area.height {
                Some(((area.x + col) as u16, (area.y + row) as u16))
            } else {
                None
            },
    {
        if col < area.width && row < area.height {
            Some((area.x + col, area.y + row))
        } else {
            None
        }
    }
}

} // verus!
