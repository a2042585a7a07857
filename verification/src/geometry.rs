//! Rectangles of terminal cells and the vertical stacks they are split into.
use vstd::prelude::*;

verus! {

#[derive(Clone, Copy, PartialEq, Eq, Structural, Debug)]
pub struct Rect {
    pub x: u16,
    pub y: u16,
    pub width: u16,
    pub height: u16,
}

/// The height that one row of a vertical stack asks for.
#[derive(Clone, Copy, PartialEq, Eq, Structural, Debug)]
pub enum Constraint {
    /// Exactly so many lines.
    Length(u16),
    /// At least so many lines, and whatever the other rows leave.
    Min(u16),
}

pub open spec fn min_int(a: int, b: int) -> int {
    if a <= b {
        a
    } else {
        b
    }
}

pub open spec fn max_int(a: int, b: int) -> int {
    if a >= b {
        a
    } else {
        b
    }
}

/// `a - b`, or zero where that is negative.
pub open spec fn less(a: int, b: int) -> int {
    max_int(0, a - b)
}

pub fn min_u16(a: u16, b: u16) -> (r: u16)
    ensures
        r == min_int(a as int, b as int),
{
    if a <= b {
        a
    } else {
        b
    }
}

impl Rect {
    pub fn new(x: u16, y: u16, width: u16, height: u16) -> (r: Rect)
        ensures
            r == (Rect { x, y, width, height }),
    {
        Rect { x, y, width, height }
    }

    /// The first column right of the rectangle.
    pub open spec fn right(self) -> int {
        self.x + self.width
    }

    /// The first line below the rectangle.
    pub open spec fn bottom(self) -> int {
        self.y + self.height
    }

    /// Whether `(x, y)` is one of its cells.
    pub open spec fn has(self, x: int, y: int) -> bool {
        self.x <= x < self.right() && self.y <= y < self.bottom()
    }

    /// The rectangle without `margin` cells on each side; nothing where it is too small.
    pub open spec fn shrunk(self, margin: u16) -> Rect {
        let both = min_int(2 * margin, u16::MAX as int);
        if self.width < both || self.height < both {
            Rect { x: 0, y: 0, width: 0, height: 0 }
        } else {
            Rect {
                x: min_int(self.x + margin, u16::MAX as int) as u16,
                y: min_int(self.y + margin, u16::MAX as int) as u16,
                width: (self.width - both) as u16,
                height: (self.height - both) as u16,
            }
        }
    }

    /// What a border round the rectangle leaves inside.
    pub open spec fn bordered(self) -> Rect {
        Rect {
            x: min_int(min_int(self.x + 1, u16::MAX as int), min_int(self.right(), u16::MAX as int)) as u16,
            y: min_int(min_int(self.y + 1, u16::MAX as int), min_int(self.bottom(), u16::MAX as int)) as u16,
            width: less(self.width as int, 2) as u16,
            height: less(self.height as int, 2) as u16,
        }
    }

    /// A `width` by `height` rectangle in the middle of `area`.
    pub open spec fn centered(width: u16, height: u16, area: Rect) -> Rect {
        let w = min_int(width as int, area.width as int);
        let h = min_int(height as int, area.height as int);
        Rect {
            x: min_int(area.x + (area.width - w) / 2, u16::MAX as int) as u16,
            y: min_int(area.y + (area.height - h) / 2, u16::MAX as int) as u16,
            width: w as u16,
            height: h as u16,
        }
    }
}

/// A `width` by `height` rectangle in the middle of `area`.
pub fn centered_rect(width: u16, height: u16, area: Rect) -> (r: Rect)
    ensures
        r == Rect::centered(width, height, area),
{
    let w: u16 = min_u16(width, area.width);
    let h: u16 = min_u16(height, area.height);
    Rect {
        x: area.x.saturating_add((area.width - w) / 2),
        y: area.y.saturating_add((area.height - h) / 2),
        width: w,
        height: h,
    }
}

/// The area of a modal at most `width` by `height`, which leaves `dx` columns
/// and `dy` lines of the screen free.
pub open spec fn modal_rect(width: u16, height: u16, dx: u16, dy: u16, area: Rect) -> Rect {
    Rect::centered(
        min_int(width as int, less(area.width as int, dx as int)) as u16,
        min_int(height as int, less(area.height as int, dy as int)) as u16,
        area,
    )
}

/// The area of a modal at most `width` by `height`, which leaves `dx` columns
/// and `dy` lines of the screen free.
pub fn modal_area(width: u16, height: u16, dx: u16, dy: u16, area: Rect) -> (r: Rect)
    ensures
        r == modal_rect(width, height, dx, dy, area),
{
    centered_rect(
        min_u16(width, area.width.saturating_sub(dx)),
        min_u16(height, area.height.saturating_sub(dy)),
        area,
    )
}

/// `ratatui::widgets::Block::inner` of a block with borders on all sides and
/// no padding: one cell less on each side, and never past the far edge.
#[verifier::external_body]
pub(crate) fn bordered_inner(area: Rect) -> (r: Rect)
    ensures
        r == area.bordered(),
{
    let outside = ratatui::layout::Rect { x: area.x, y: area.y, width: area.width, height: area.height };
    let r = ratatui::widgets::Block::default().borders(ratatui::widgets::Borders::ALL).inner(outside);
    Rect { x: r.x, y: r.y, width: r.width, height: r.height }
}

// ------------------------------------------------------------------ stacks

/// The lines that a row asks for at least.
pub open spec fn wanted(c: Constraint) -> int {
    match c {
        Constraint::Length(n) => n as int,
        Constraint::Min(n) => n as int,
    }
}

/// The lines that the first rows of a stack ask for at least.
pub open spec fn wanted_total(cs: Seq<Constraint>) -> int
    decreases cs.len(),
{
    if cs.len() == 0 {
        0
    } else {
        wanted_total(cs.drop_last()) + wanted(cs.last())
    }
}

/// Whether a stack has rows of fixed height but for one at most, and fits.
pub open spec fn fits(cs: Seq<Constraint>, inside: Rect) -> bool {
    &&& cs.len() <= 40
    &&& wanted_total(cs) <= inside.height
    &&& forall|i: int, j: int|
        0 <= i < j < cs.len() ==> !(#[trigger] cs[i] is Min && #[trigger] cs[j] is Min)
    &&& inside.bottom() <= 0x7fff
}

/// The height of row `i` of a stack that fits.
pub open spec fn row_height(cs: Seq<Constraint>, inside: Rect, i: int) -> int {
    match cs[i] {
        Constraint::Length(n) => n as int,
        Constraint::Min(n) => inside.height - (wanted_total(cs) - n),
    }
}

/// The first line of row `i` of a stack that fits.
pub open spec fn row_top(cs: Seq<Constraint>, inside: Rect, i: int) -> int
    decreases i,
{
    if i <= 0 {
        inside.y as int
    } else {
        row_top(cs, inside, i - 1) + row_height(cs, inside, i - 1)
    }
}

/// What holds of the rows that `area` is split into, `margin` cells from its
/// edges, whatever the sizes: one row per constraint, each as wide as the
/// inside of the area and within its lines. Where the constraints fit, the
/// rows are stacked from the top, each as high as it asks for.
pub open spec fn stacked(area: Rect, margin: u16, cs: Seq<Constraint>, rows: Seq<Rect>) -> bool {
    let inside = area.shrunk(margin);
    &&& rows.len() == cs.len()
    &&& forall|i: int|
        0 <= i < rows.len() ==> {
            &&& (#[trigger] rows[i]).x == inside.x
            &&& rows[i].width == inside.width
            &&& inside.y <= rows[i].y
            &&& rows[i].bottom() <= min_int(inside.bottom(), u16::MAX as int)
        }
    &&& fits(cs, inside) ==> forall|i: int|
        0 <= i < rows.len() ==> {
            &&& (#[trigger] rows[i]).y == row_top(cs, inside, i)
            &&& rows[i].height == row_height(cs, inside, i)
        }
}

/// `ratatui::layout::Layout::split` of a vertical layout with a margin.
///
/// Every row spans the width of the area inside the margin and lies within
/// its lines. Rows of fixed height that fit, with at most one row of minimum
/// height among them, get the height they ask for, from the top down; the row
/// of minimum height gets the rest. Which rows give way where they do not fit
/// is left open: the solver behind it decides that.
#[verifier::external_body]
pub(crate) fn split_rows(area: Rect, margin: u16, cs: &Vec<Constraint>) -> (rows: Vec<Rect>)
    ensures
        stacked(area, margin, cs@, rows@),
{
    let outside = ratatui::layout::Rect { x: area.x, y: area.y, width: area.width, height: area.height };
    let wanted: Vec<ratatui::layout::Constraint> = cs.iter().map(|c| match c {
        Constraint::Length(n) => ratatui::layout::Constraint::Length(*n),
        Constraint::Min(n) => ratatui::layout::Constraint::Min(*n),
    }).collect();
    let layout = ratatui::layout::Layout::vertical(wanted).margin(margin);
    layout.split(outside).iter().map(|r| Rect { x: r.x, y: r.y, width: r.width, height: r.height }).collect()
}

} // verus!
