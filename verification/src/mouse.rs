//! Hit tests. Every screen tests clicks against the rows it draws.
use vstd::prelude::*;

use crate::event::{MouseEvent, MouseKind};
use crate::geometry::Rect;

verus! {

/// Where the left button went down, if that is what happened.
pub open spec fn clicked(me: MouseEvent) -> Option<(u16, u16)> {
    if me.kind == MouseKind::LeftDown {
        Some((me.column, me.row))
    } else {
        None
    }
}

/// `(column, row)` of a left-button press, if that's what this event is.
pub fn left_click(me: &MouseEvent) -> (r: Option<(u16, u16)>)
    ensures
        r == clicked(*me),
{
    match me.kind {
        MouseKind::LeftDown => Some((me.column, me.row)),
        _ => None,
    }
}

/// The direction of a wheel scroll.
pub open spec fn scrolled(me: MouseEvent) -> Option<i32> {
    match me.kind {
        MouseKind::ScrollUp => Some(-1i32),
        MouseKind::ScrollDown => Some(1i32),
        _ => None,
    }
}

/// -1 for scroll-up, +1 for scroll-down, if this event is a wheel scroll.
pub fn scroll_delta(me: &MouseEvent) -> (r: Option<i32>)
    ensures
        r == scrolled(*me),
{
    match me.kind {
        MouseKind::ScrollUp => Some(-1),
        MouseKind::ScrollDown => Some(1),
        _ => None,
    }
}

/// The content area inside a block with borders on all sides.
pub open spec fn inner(area: Rect) -> Rect {
    Rect {
        x: crate::geometry::min_int(area.x + 1, u16::MAX as int) as u16,
        y: crate::geometry::min_int(area.y + 1, u16::MAX as int) as u16,
        width: crate::geometry::less(area.width as int, 2) as u16,
        height: crate::geometry::less(area.height as int, 2) as u16,
    }
}

/// The content area inside a block with borders on all sides, without
/// needing the block itself.
pub fn block_inner(area: Rect) -> (r: Rect)
    ensures
        r == inner(area),
{
    Rect {
        x: area.x.saturating_add(1),
        y: area.y.saturating_add(1),
        width: area.width.saturating_sub(2),
        height: area.height.saturating_sub(2),
    }
}

/// Whether a rectangle has a cell, as far as columns and lines can be told.
pub open spec fn hits(rect: Rect, x: u16, y: u16) -> bool {
    &&& rect.x <= x < crate::geometry::min_int(rect.right(), u16::MAX as int)
    &&& rect.y <= y < crate::geometry::min_int(rect.bottom(), u16::MAX as int)
}

pub fn in_rect(rect: Rect, x: u16, y: u16) -> (r: bool)
    ensures
        r == hits(rect, x, y),
{
    x >= rect.x && x < rect.x.saturating_add(rect.width) && y >= rect.y && y < rect.y.saturating_add(
        rect.height,
    )
}

/// Which of `labels` covers column `off`, the first one starting at column
/// zero and each later one two columns after the end of the one before.
pub open spec fn label_at(off: int, labels: Seq<Seq<char>>) -> Option<usize>
    decreases labels.len(),
{
    if labels.len() == 0 {
        None
    } else {
        match label_at(off, labels.drop_last()) {
            Some(i) => Some(i),
            None => {
                let start = label_start(labels, labels.len() - 1);
                if start <= off < start + labels.last().len() {
                    Some((labels.len() - 1) as usize)
                } else {
                    None
                }
            },
        }
    }
}

/// The column at which label `i` starts.
pub open spec fn label_start(labels: Seq<Seq<char>>, i: int) -> int
    decreases i,
{
    if i <= 0 {
        0
    } else {
        label_start(labels, i - 1) + labels[i - 1].len() + 2
    }
}

/// Which of a row of labels a click lands on.
pub open spec fn label_hit(x: u16, y: u16, row: Rect, labels: Seq<Seq<char>>) -> Option<usize> {
    if y != row.y || x < row.x {
        None
    } else {
        label_at(x - row.x, labels)
    }
}

/// A button as it is drawn: its label between brackets.
pub open spec fn bracketed(label: Seq<char>) -> Seq<char> {
    "[ "@ + label + " ]"@
}

pub open spec fn bracketed_all(labels: Seq<Seq<char>>) -> Seq<Seq<char>> {
    Seq::new(labels.len(), |i: int| bracketed(labels[i]))
}

/// Which of a row of buttons a click lands on.
pub open spec fn button_hit(x: u16, y: u16, row: Rect, labels: Seq<Seq<char>>) -> Option<usize> {
    label_hit(x, y, row, bracketed_all(labels))
}

/// Where a label starts depends on the labels before it alone.
pub proof fn lemma_label_start_prefix(labels: Seq<Seq<char>>, n: int, i: int)
    requires
        0 <= i <= n <= labels.len(),
    ensures
        label_start(labels.take(n), i) == label_start(labels, i),
        label_start(labels, i) >= 0,
    decreases i,
{
    if i > 0 {
        lemma_label_start_prefix(labels, n, i - 1);
        assert(labels.take(n)[i - 1] == labels[i - 1]);
    }
}

proof fn lemma_label_at_prefix(off: int, labels: Seq<Seq<char>>, n: int)
    requires
        0 <= n <= labels.len(),
        label_at(off, labels.take(n)) is Some,
    ensures
        label_at(off, labels) == label_at(off, labels.take(n)),
    decreases labels.len() - n,
{
    if n == labels.len() {
        assert(labels.take(n) =~= labels);
    } else {
        assert(labels.take(n + 1).drop_last() =~= labels.take(n));
        lemma_label_at_prefix(off, labels, n + 1);
    }
}

/// Which of a row of labels a click landed on, if any. `row` is the rectangle
/// the labels were drawn into, with a two-space gap between them; `labels`
/// are in the order they were drawn in.
pub fn label_row_hit(x: u16, y: u16, row: Rect, labels: &[&str]) -> (r: Option<usize>)
    ensures
        r == label_hit(x, y, row, labels.deep_view()),
{
    if y != row.y || x < row.x {
        return None;
    }
    let off: usize = (x - row.x) as usize;
    let ghost all = labels.deep_view();
    let mut col: usize = 0;
    let mut i: usize = 0;
    assert(all.take(0) =~= Seq::empty());
    while i < labels.len()
        invariant
            all == labels.deep_view(),
            i <= labels@.len(),
            y == row.y,
            off == x - row.x,
            col <= off,
            col == label_start(all, i as int),
            label_at(off as int, all.take(i as int)) is None,
        decreases labels@.len() - i,
    {
        let w: usize = labels[i].unicode_len();
        proof {
            assert(all.take(i + 1).drop_last() =~= all.take(i as int));
            assert(all.take(i + 1).last() == labels@[i as int]@);
            lemma_label_start_prefix(all, i + 1, i as int);
            assert(label_start(all, i + 1) == col + w + 2);
        }
        if off - col < w {
            proof {
                assert(label_at(off as int, all.take(i + 1)) == Some(i));
                lemma_label_at_prefix(off as int, all, i + 1);
            }
            return Some(i);
        }
        if off - col - w < 2 {
            proof {
                lemma_beyond(off as int, all, i + 1);
            }
            return None;
        }
        col = col + w + 2;
        i = i + 1;
    }
    assert(all.take(all.len() as int) =~= all);
    None
}

/// Nothing is hit once the next label would start right of the click.
proof fn lemma_beyond(off: int, labels: Seq<Seq<char>>, n: int)
    requires
        0 <= n <= labels.len(),
        label_at(off, labels.take(n)) is None,
        off < label_start(labels, n),
    ensures
        label_at(off, labels) is None,
    decreases labels.len() - n,
{
    if n == labels.len() {
        assert(labels.take(n) =~= labels);
    } else {
        assert(labels.take(n + 1).drop_last() =~= labels.take(n));
        lemma_label_start_prefix(labels, n + 1, n);
        assert(label_start(labels, n + 1) == label_start(labels, n) + labels[n].len() + 2);
        lemma_beyond(off, labels, n + 1);
    }
}

/// Like [`label_row_hit`], for a row of buttons, each drawn between brackets.
pub fn button_row_hit(x: u16, y: u16, row: Rect, labels: &[&str]) -> (r: Option<usize>)
    ensures
        r == button_hit(x, y, row, labels.deep_view()),
{
    if y != row.y || x < row.x {
        return None;
    }
    let off: usize = (x - row.x) as usize;
    let ghost all = bracketed_all(labels.deep_view());
    let mut col: usize = 0;
    let mut i: usize = 0;
    proof {
        reveal_strlit("[ ");
        reveal_strlit(" ]");
        assert(all.take(0) =~= Seq::empty());
    }
    while i < labels.len()
        invariant
            all == bracketed_all(labels.deep_view()),
            "[ "@.len() == 2,
            " ]"@.len() == 2,
            i <= labels@.len(),
            y == row.y,
            off == x - row.x,
            col <= off,
            col == label_start(all, i as int),
            label_at(off as int, all.take(i as int)) is None,
        decreases labels@.len() - i,
    {
        let w: usize = labels[i].unicode_len();
        proof {
            assert(all.take(i + 1).drop_last() =~= all.take(i as int));
            assert(all.take(i + 1).last() == bracketed(labels@[i as int]@));
            lemma_label_start_prefix(all, i + 1, i as int);
            assert(label_start(all, i + 1) == col + w + 6);
        }
        if off - col < 4 || off - col - 4 < w {
            proof {
                assert(label_at(off as int, all.take(i + 1)) == Some(i));
                lemma_label_at_prefix(off as int, all, i + 1);
            }
            return Some(i);
        }
        if off - col - 4 - w < 2 {
            proof {
                lemma_beyond(off as int, all, i + 1);
            }
            return None;
        }
        col = col + w + 6;
        i = i + 1;
    }
    assert(all.take(all.len() as int) =~= all);
    None
}

/// Which of `row_count` lines from the top of `area` holds the cell.
pub open spec fn plain_hit(x: u16, y: u16, area: Rect, row_count: int) -> Option<usize> {
    if area.has(x as int, y as int) && y - area.y < row_count {
        Some((y - area.y) as usize)
    } else {
        None
    }
}

/// Like [`table_row_hit`], for plain lines with no border or header of their
/// own: row 0 is the top line of `area`.
pub fn plain_row_hit(x: u16, y: u16, area: Rect, row_count: usize) -> (r: Option<usize>)
    ensures
        r == plain_hit(x, y, area, row_count as int),
{
    let right: u32 = area.x as u32 + area.width as u32;
    let bottom: u32 = area.y as u32 + area.height as u32;
    if row_count == 0 || x < area.x || x as u32 >= right || y < area.y || y as u32 >= bottom {
        return None;
    }
    let idx: usize = (y - area.y) as usize;
    if idx < row_count {
        Some(idx)
    } else {
        None
    }
}

/// Which row of a list without borders holds the cell. The list has scrolled
/// just far enough to show row `selected`.
pub open spec fn list_hit(x: u16, y: u16, area: Rect, row_count: int, selected: int) -> Option<usize> {
    let idx = first_shown(area.height as int, row_count, selected) + (y - area.y);
    if row_count > 0 && area.has(x as int, y as int) && idx < row_count {
        Some(idx as usize)
    } else {
        None
    }
}

/// Like [`table_row_hit`], for a list with no border or header of its own.
pub fn list_row_hit(x: u16, y: u16, area: Rect, row_count: usize, selected: usize) -> (r: Option<usize>)
    ensures
        r == list_hit(x, y, area, row_count as int, selected as int),
{
    let right: u32 = area.x as u32 + area.width as u32;
    let bottom: u32 = area.y as u32 + area.height as u32;
    if row_count == 0 || x < area.x || x as u32 >= right || y < area.y || y as u32 >= bottom {
        return None;
    }
    let last: usize = row_count - 1;
    let kept: usize = if selected <= last {
        selected
    } else {
        last
    };
    let offset: usize = kept.saturating_sub((area.height as usize).saturating_sub(1));
    let down: usize = (y - area.y) as usize;
    if down < row_count - offset {
        Some(offset + down)
    } else {
        None
    }
}

/// The first row that a table of `row_count` rows shows, with room for
/// `visible` rows, when it has scrolled just far enough for `selected`.
pub open spec fn first_shown(visible: int, row_count: int, selected: int) -> int {
    crate::geometry::less(
        crate::geometry::min_int(selected, row_count - 1),
        crate::geometry::less(visible, 1),
    )
}

/// Which data row of a bordered table holds the cell.
pub open spec fn table_hit(
    x: u16,
    y: u16,
    area: Rect,
    header_rows: u16,
    row_count: int,
    selected: int,
) -> Option<usize> {
    let top = area.y + 1 + header_rows;
    let bottom = area.y + crate::geometry::less(area.height as int, 1);
    let idx = first_shown(bottom - top, row_count, selected) + (y - top);
    if row_count > 0 && area.x < x && x + 1 < area.right() && top <= y < bottom && idx < row_count {
        Some(idx as usize)
    } else {
        None
    }
}

/// Row index within a bordered table or list (one border line and
/// `header_rows` lines above the data), if `(x, y)` lands on its data.
/// `selected` is the row that the drawn table keeps in view.
pub fn table_row_hit(
    x: u16,
    y: u16,
    table_area: Rect,
    header_rows: u16,
    row_count: usize,
    selected: usize,
) -> (r: Option<usize>)
    ensures
        r == table_hit(x, y, table_area, header_rows, row_count as int, selected as int),
{
    if row_count == 0 {
        return None;
    }
    if x <= table_area.x || x as u32 + 1 >= table_area.x as u32 + table_area.width as u32 {
        return None;
    }
    let top: u32 = table_area.y as u32 + 1 + header_rows as u32;
    let bottom: u32 = table_area.y as u32 + table_area.height.saturating_sub(1) as u32;
    if (y as u32) < top || y as u32 >= bottom {
        return None;
    }
    let visible: usize = (bottom - top) as usize;
    let last: usize = row_count - 1;
    let kept: usize = if selected <= last {
        selected
    } else {
        last
    };
    let offset: usize = kept.saturating_sub(visible.saturating_sub(1));
    let down: usize = (y as u32 - top) as usize;
    if down < row_count - offset {
        Some(offset + down)
    } else {
        None
    }
}

/// Labels do not overlap: a column belongs to a label exactly if it lies
/// between the label's first and last column.
pub proof fn labels_do_not_overlap(off: int, labels: Seq<Seq<char>>, i: int)
    requires
        0 <= i < labels.len() <= usize::MAX,
    ensures
        label_at(off, labels) == Some(i as usize) <==> label_start(labels, i) <= off < label_start(labels, i)
            + labels[i].len(),
    decreases labels.len(),
{
    let n = labels.len() - 1;
    let front = labels.drop_last();
    assert(front =~= labels.take(n));
    lemma_label_start_prefix(labels, n, i);
    lemma_starts_apart(labels, i, n);
    if i < n {
        labels_do_not_overlap(off, front, i);
        lemma_starts_apart(labels, i, n);
    } else {
        lemma_label_at_before(off, front, labels, n);
    }
}

/// A later label starts right of the end of an earlier one.
proof fn lemma_starts_apart(labels: Seq<Seq<char>>, i: int, j: int)
    requires
        0 <= i <= j <= labels.len(),
    ensures
        i < j ==> label_start(labels, i) + labels[i].len() < label_start(labels, j),
    decreases j,
{
    if i < j - 1 {
        lemma_starts_apart(labels, i, j - 1);
    }
}

/// A column right of some labels is none of theirs.
proof fn lemma_label_at_before(off: int, front: Seq<Seq<char>>, labels: Seq<Seq<char>>, n: int)
    requires
        0 <= n < labels.len() <= usize::MAX,
        front == labels.take(n),
    ensures
        label_start(labels, n) <= off ==> label_at(off, front) is None,
        label_at(off, front) matches Some(k) ==> k < n,
    decreases n,
{
    if n > 0 {
        assert(front.drop_last() =~= labels.take(n - 1));
        lemma_label_at_before(off, front.drop_last(), labels, n - 1);
        lemma_label_start_prefix(labels, n, n - 1);
        lemma_starts_apart(labels, n - 1, n);
    }
}

/// A table shows its selected row, and a click on a line hits the row that is
/// shown there, however far the selection has scrolled the table.
pub proof fn clicks_hit_the_row_shown(
    x: u16,
    y: u16,
    area: Rect,
    header_rows: u16,
    row_count: int,
    selected: int,
    line: int,
)
    requires
        0 <= selected < row_count <= usize::MAX,
        0 <= line < area.height - 2 - header_rows,
        area.x < x,
        x + 1 < area.right(),
        y == area.y + 1 + header_rows + line,
    ensures
        ({
            let first = first_shown(area.height - 2 - header_rows, row_count, selected);
            &&& first <= selected < first + (area.height - 2 - header_rows)
            &&& first + line < row_count ==> table_hit(x, y, area, header_rows, row_count, selected) == Some(
                (first + line) as usize,
            )
            &&& first + line >= row_count ==> table_hit(x, y, area, header_rows, row_count, selected) is None
        }),
{
}

/// A click on line `line` of a list hits the row that is shown there, however
/// far the list has scrolled to show the selected one.
pub proof fn clicks_hit_the_list_row_shown(x: u16, y: u16, area: Rect, row_count: int, selected: int, line: int)
    requires
        0 <= selected < row_count <= usize::MAX,
        0 <= line < area.height,
        area.x <= x < area.right(),
        y == area.y + line,
    ensures
        ({
            let first = first_shown(area.height as int, row_count, selected);
            &&& first <= selected < first + area.height
            &&& selected < area.height ==> first == 0
            &&& selected >= area.height ==> first == selected - area.height + 1
            &&& first + line < row_count ==> list_hit(x, y, area, row_count, selected) == Some(
                (first + line) as usize,
            )
            &&& first + line >= row_count ==> list_hit(x, y, area, row_count, selected) is None
        }),
{
}

/// A hit is always one of the rows, and clicks on the border hit none.
pub proof fn hits_are_rows(
    x: u16,
    y: u16,
    area: Rect,
    header_rows: u16,
    row_count: int,
    selected: int,
)
    requires
        0 <= row_count <= usize::MAX,
        0 <= selected,
    ensures
        table_hit(x, y, area, header_rows, row_count, selected) matches Some(i) ==> {
            &&& i < row_count
            &&& inner(area).has(x as int, y as int)
        },
        plain_hit(x, y, area, row_count) matches Some(i) ==> i < row_count && area.has(x as int, y as int),
        list_hit(x, y, area, row_count, selected) matches Some(i) ==> i < row_count && area.has(x as int, y as int),
{
}

} // verus!
