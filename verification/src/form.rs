//! Forms: one line per row, and which field a click on a row means.
use vstd::prelude::*;

use crate::geometry::{Constraint, Rect};
use crate::mouse;

verus! {

/// What stands in one line of a form.
#[derive(Clone, Copy)]
pub enum Row<F> {
    /// A field that a click can reach.
    Field(F),
    /// An empty line.
    Gap,
    /// A line that explains the field above it.
    Hint,
    /// The row of buttons.
    Buttons,
    /// The line that explains the keys.
    Help,
}

/// `n` lines of one row each, and the rest.
pub open spec fn lines(n: nat) -> Seq<Constraint> {
    Seq::new(n, |i: int| Constraint::Length(1)).push(Constraint::Min(0))
}

/// `n` lines of one row each, and the rest.
pub fn line_constraints(n: usize) -> (r: Vec<Constraint>)
    ensures
        r@ == lines(n as nat),
{
    let mut r: Vec<Constraint> = Vec::new();
    let mut i: usize = 0;
    while i < n
        invariant
            i <= n,
            r@ =~= Seq::new(i as nat, |k: int| Constraint::Length(1)),
        decreases n - i,
    {
        r.push(Constraint::Length(1));
        i = i + 1;
    }
    r.push(Constraint::Min(0));
    assert(r@ =~= lines(n as nat));
    r
}

/// The field of the first row from `i` on that is a field and has the cell.
pub open spec fn field_from<F>(rows: Seq<Rect>, form: Seq<Row<F>>, x: u16, y: u16, i: int) -> Option<F>
    decreases form.len() - i,
{
    if i < 0 || i >= form.len() {
        None
    } else {
        match form[i] {
            Row::Field(f) => if mouse::hits(rows[i], x, y) {
                Some(f)
            } else {
                field_from(rows, form, x, y, i + 1)
            },
            _ => field_from(rows, form, x, y, i + 1),
        }
    }
}

/// The field that a click means, the topmost where rows overlap.
pub open spec fn field_hit<F>(rows: Seq<Rect>, form: Seq<Row<F>>, x: u16, y: u16) -> Option<F> {
    field_from(rows, form, x, y, 0)
}

/// The field that a click means.
pub fn field_row_hit<F: Copy>(rows: &Vec<Rect>, form: &Vec<Row<F>>, x: u16, y: u16) -> (r: Option<F>)
    requires
        form@.len() <= rows@.len(),
    ensures
        r == field_hit(rows@, form@, x, y),
{
    let mut i: usize = 0;
    while i < form.len()
        invariant
            i <= form@.len() <= rows@.len(),
            field_hit(rows@, form@, x, y) == field_from(rows@, form@, x, y, i as int),
        decreases form@.len() - i,
    {
        if let Row::Field(f) = form[i] {
            if mouse::in_rect(rows[i], x, y) {
                return Some(f);
            }
        }
        i = i + 1;
    }
    None
}

/// The row of the buttons: the last but two of a form, before a gap and the help line.
pub open spec fn button_row<F>(form: Seq<Row<F>>) -> int {
    form.len() - 3
}

// -------------------------------------------------------------------- laws

/// Whether no cell is in two rows.
pub open spec fn disjoint(rows: Seq<Rect>) -> bool {
    forall|i: int, j: int, x: u16, y: u16|
        0 <= i < rows.len() && 0 <= j < rows.len() && #[trigger] mouse::hits(rows[i], x, y)
            && #[trigger] mouse::hits(rows[j], x, y) ==> i == j
}

/// A click on the row that a field is drawn in means that field, and a click
/// on any other row means none.
pub proof fn clicks_mean_what_is_drawn<F>(rows: Seq<Rect>, form: Seq<Row<F>>, i: int, x: u16, y: u16)
    requires
        form.len() <= rows.len(),
        disjoint(rows),
        0 <= i < form.len(),
        mouse::hits(rows[i], x, y),
    ensures
        field_hit(rows, form, x, y) == match form[i] {
            Row::Field(f) => Some(f),
            _ => None::<F>,
        },
{
    lemma_from(rows, form, i, x, y, 0);
}

proof fn lemma_from<F>(rows: Seq<Rect>, form: Seq<Row<F>>, i: int, x: u16, y: u16, k: int)
    requires
        form.len() <= rows.len(),
        disjoint(rows),
        0 <= i < form.len(),
        mouse::hits(rows[i], x, y),
        0 <= k <= form.len(),
    ensures
        k <= i ==> field_from(rows, form, x, y, k) == match form[i] {
            Row::Field(f) => Some(f),
            _ => None::<F>,
        },
        k > i ==> field_from(rows, form, x, y, k) is None,
    decreases form.len() - k,
{
    if k < form.len() {
        lemma_from(rows, form, i, x, y, k + 1);
        if mouse::hits(rows[k], x, y) {
            assert(k == i);
        }
    }
}

/// The rows of a form that fits the screen do not overlap.
pub proof fn stacked_rows_are_disjoint(area: Rect, margin: u16, cs: Seq<Constraint>, rows: Seq<Rect>)
    requires
        crate::geometry::stacked(area, margin, cs, rows),
        crate::geometry::fits(cs, area.shrunk(margin)),
    ensures
        disjoint(rows),
{
    let inside = area.shrunk(margin);
    assert forall|i: int, j: int, x: u16, y: u16|
        0 <= i < rows.len() && 0 <= j < rows.len() && #[trigger] mouse::hits(rows[i], x, y)
            && #[trigger] mouse::hits(rows[j], x, y) implies i == j by {
        if i < j {
            lemma_tops_ascend(cs, inside, i, j);
        } else if j < i {
            lemma_tops_ascend(cs, inside, j, i);
        }
    }
}

proof fn lemma_tops_ascend(cs: Seq<Constraint>, inside: Rect, i: int, j: int)
    requires
        crate::geometry::fits(cs, inside),
        0 <= i < j <= cs.len(),
    ensures
        crate::geometry::row_top(cs, inside, i) + crate::geometry::row_height(cs, inside, i)
            <= crate::geometry::row_top(cs, inside, j),
    decreases j - i,
{
    if i + 1 < j {
        lemma_tops_ascend(cs, inside, i, j - 1);
        lemma_height(cs, inside, j - 1);
    }
}

proof fn lemma_height(cs: Seq<Constraint>, inside: Rect, i: int)
    requires
        crate::geometry::fits(cs, inside),
        0 <= i < cs.len(),
    ensures
        crate::geometry::row_height(cs, inside, i) >= 0,
{
}

/// A click reaches a field whose line has the cell.
pub proof fn lemma_field_from<F>(rows: Seq<Rect>, form: Seq<Row<F>>, x: u16, y: u16, from: int)
    requires
        0 <= from,
    ensures
        field_from(rows, form, x, y, from) matches Some(f) ==> exists|i: int|
            from <= i < form.len() && #[trigger] form[i] == Row::Field(f) && mouse::hits(rows[i], x, y),
    decreases form.len() - from,
{
    if from < form.len() {
        lemma_field_from(rows, form, x, y, from + 1);
        if let Row::Field(f) = form[from] {
            if mouse::hits(rows[from], x, y) {
                assert(form[from] == Row::Field(f));
            }
        }
    }
}

} // verus!
