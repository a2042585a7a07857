//! A modal that picks one of the known SSH hosts. Only the SSH side of a
//! connection is ever filled from it; fields of a service stay with the user.
use vstd::prelude::*;

use crate::event::{KeyCode, MouseEvent};
use crate::geometry::{modal_area, split_rows, Constraint, Rect};
use crate::geometry;
use crate::lists;
use crate::model::Copyable;
use crate::mouse;
use crate::servers::{Server, ServerModel};
use crate::text;
use crate::widgets::{Input, InputModel};
use crate::model::append_to;
use crate::picture::{
    no_lines, pad, padded, room, room_in, Frame, Line, LineModel, Picture, PictureModel, Span, SpanModel, Tone,
};
use crate::text::{cat2, cat3, join, owned};

verus! {

pub struct HostPicker {
    pub query: Input,
    pub all: Vec<Server>,
    pub selected: usize,
    pub error: Option<String>,
}

pub struct HostPickerModel {
    pub query: InputModel,
    pub all: Seq<ServerModel>,
    pub selected: int,
    pub error: Option<Seq<char>>,
}

impl View for HostPicker {
    type V = HostPickerModel;

    open spec fn view(&self) -> HostPickerModel {
        HostPickerModel {
            query: self.query@,
            all: self.all.deep_view(),
            selected: self.selected as int,
            error: self.error.deep_view(),
        }
    }
}

impl DeepView for HostPicker {
    type V = HostPickerModel;

    open spec fn deep_view(&self) -> HostPickerModel {
        self@
    }
}

/// What an event means for an open picker.
#[derive(Clone, Copy, PartialEq, Eq, Structural, Debug)]
pub enum PickerStep {
    /// It stays open.
    Stay,
    /// It is closed without a choice.
    Close,
    /// What is selected is chosen.
    Pick,
}

/// Whether some text of `v`, in lower case, contains `q`.
pub open spec fn any_contains(v: Seq<Seq<char>>, q: Seq<char>) -> bool {
    exists|i: int| 0 <= i < v.len() && #[trigger] text::occurs(text::lowercase(v[i]), q)
}

/// Whether a host matches a query in lower case.
pub open spec fn matches_host(s: ServerModel, q: Seq<char>) -> bool {
    ||| q.len() == 0
    ||| text::occurs(text::lowercase(s.alias), q)
    ||| text::occurs(text::lowercase(s.effective_host()), q)
    ||| any_contains(s.tags, q)
}

/// Whether some text of `v`, in lower case, contains `q`.
pub fn any_lower_contains(v: &Vec<String>, q: &str) -> (r: bool)
    ensures
        r == any_contains(v.deep_view(), q@),
{
    let mut i: usize = 0;
    while i < v.len()
        invariant
            i <= v@.len(),
            forall|k: int| 0 <= k < i ==> !#[trigger] text::occurs(text::lowercase(v.deep_view()[k]), q@),
        decreases v@.len() - i,
    {
        if text::lower_contains(v[i].as_str(), q) {
            assert(text::occurs(text::lowercase(v.deep_view()[i as int]), q@));
            return true;
        }
        i = i + 1;
    }
    false
}

impl HostPickerModel {
    /// The hosts that match what was typed, in their order.
    pub open spec fn filtered(self) -> Seq<ServerModel> {
        let q = text::lowercase(self.query.trimmed());
        self.all.filter(|s: ServerModel| matches_host(s, q))
    }

    pub open spec fn up(self) -> HostPickerModel {
        HostPickerModel { selected: geometry::less(self.selected, 1), ..self }
    }

    pub open spec fn down(self) -> HostPickerModel {
        if self.selected + 1 < self.filtered().len() {
            HostPickerModel { selected: self.selected + 1, ..self }
        } else {
            self
        }
    }

    pub open spec fn insert(self, c: char) -> HostPickerModel {
        HostPickerModel { query: self.query.insert(c), selected: 0, ..self }
    }

    pub open spec fn backspace(self) -> HostPickerModel {
        HostPickerModel { query: self.query.backspace(), selected: 0, ..self }
    }

    /// The host that Enter picks.
    pub open spec fn picked(self) -> Option<ServerModel> {
        if 0 <= self.selected < self.filtered().len() {
            Some(self.filtered()[self.selected])
        } else {
            None
        }
    }

    /// The picker over the hosts that were read.
    pub open spec fn over(all: Seq<ServerModel>) -> HostPickerModel {
        HostPickerModel { query: InputModel::empty(), all, selected: 0, error: None }
    }

    /// The picker where reading the hosts failed.
    pub open spec fn failed(error: Seq<char>) -> HostPickerModel {
        HostPickerModel { query: InputModel::empty(), all: Seq::empty(), selected: 0, error: Some(error) }
    }

    /// What a key does: typing filters, Enter picks, Esc closes.
    pub open spec fn on_key(self, key: KeyCode) -> (HostPickerModel, PickerStep) {
        match key {
            KeyCode::Esc => (self, PickerStep::Close),
            KeyCode::Up => (self.up(), PickerStep::Stay),
            KeyCode::Down => (self.down(), PickerStep::Stay),
            KeyCode::Char(c) => (self.insert(c), PickerStep::Stay),
            KeyCode::Backspace => (self.backspace(), PickerStep::Stay),
            KeyCode::Enter => (self, PickerStep::Pick),
            _ => (self, PickerStep::Stay),
        }
    }

    /// What a mouse event does: a click on a host selects and picks it at
    /// once, the wheel moves the selection.
    pub open spec fn on_mouse(self, me: MouseEvent, list: Rect) -> (HostPickerModel, PickerStep) {
        match mouse::clicked(me) {
            Some((x, y)) => match self.row_hit(list, x, y) {
                Some(i) => (HostPickerModel { selected: i as int, ..self }, PickerStep::Pick),
                None => (self, PickerStep::Stay),
            },
            None => match mouse::scrolled(me) {
                Some(d) => (if d < 0 {
                    self.up()
                } else {
                    self.down()
                }, PickerStep::Stay),
                None => (self, PickerStep::Stay),
            },
        }
    }

    /// Which host a click in the list picks.
    pub open spec fn row_hit(self, list: Rect, x: u16, y: u16) -> Option<usize> {
        list_hit(list, x, y, self.filtered().len() as int, self.selected)
    }
}

/// Which of `count` rows of a list without borders holds a cell. The list has
/// scrolled just far enough to show row `selected`. The outer columns of the
/// list do not count.
pub open spec fn list_hit(list: Rect, x: u16, y: u16, count: int, selected: int) -> Option<usize> {
    if list.x < x && x + 1 < list.right() {
        mouse::list_hit(x, y, list, count, selected)
    } else {
        None
    }
}

/// Which of `count` rows of a list without borders holds a cell.
pub fn list_row_hit(list: Rect, x: u16, y: u16, count: usize, selected: usize) -> (r: Option<usize>)
    ensures
        r == list_hit(list, x, y, count as int, selected as int),
{
    if x <= list.x || x as u32 + 1 >= list.x as u32 + list.width as u32 {
        return None;
    }
    mouse::list_row_hit(x, y, list, count, selected)
}

/// The area of the picker on a screen.
pub open spec fn picker_area(area: Rect) -> Rect {
    geometry::modal_rect(84, 22, 4, 2, area)
}

/// The rows of the picker: the query, a gap, the list and a hint.
pub open spec fn picker_rows() -> Seq<Constraint> {
    seq![Constraint::Length(1), Constraint::Length(1), Constraint::Min(3), Constraint::Length(1)]
}

impl HostPicker {
    /// A picker over the hosts that were read, or with the error that reading gave.
    pub fn new(hosts: Result<Vec<Server>, String>) -> (r: HostPicker)
        ensures
            r@ == (match hosts {
                Ok(all) => HostPickerModel::over(all.deep_view()),
                Err(e) => HostPickerModel::failed(e@),
            }),
    {
        match hosts {
            Ok(all) => HostPicker { query: Input::default(), all, selected: 0, error: None },
            Err(e) => {
                let r = HostPicker { query: Input::default(), all: Vec::new(), selected: 0, error: Some(e) };
                assert(r@.all =~= Seq::<ServerModel>::empty());
                r
            },
        }
    }

    /// The hosts that match what was typed, in their order.
    pub fn filtered(&self) -> (r: Vec<&Server>)
        ensures
            r.deep_view() == self@.filtered(),
    {
        let t = self.query.trimmed();
        let q = t.as_str().to_lowercase();
        let ghost keep = |s: ServerModel| matches_host(s, q@);
        let ghost all = self.all.deep_view();
        let mut r: Vec<&Server> = Vec::new();
        let mut i: usize = 0;
        proof {
            assert(all.take(0) =~= Seq::empty());
            reveal(Seq::filter);
            assert(r.deep_view() =~= Seq::<ServerModel>::empty().filter(keep));
        }
        while i < self.all.len()
            invariant
                i <= self.all@.len(),
                all == self.all.deep_view(),
                keep == (|s: ServerModel| matches_host(s, q@)),
                r.deep_view() == all.take(i as int).filter(keep),
            decreases self.all@.len() - i,
        {
            let s = &self.all[i];
            proof {
                reveal(Seq::filter);
                assert(all.take(i + 1).drop_last() =~= all.take(i as int));
                assert(all.take(i + 1).last() == s@);
            }
            if q.as_str().is_empty() || text::lower_contains(s.alias.as_str(), q.as_str())
                || text::lower_contains(s.effective_host(), q.as_str()) || any_lower_contains(
                &s.tags,
                q.as_str(),
            ) {
                crate::model::append_to(&mut r, s);
            }
            i = i + 1;
        }
        assert(all.take(all.len() as int) =~= all);
        r
    }

    pub fn up(&mut self)
        ensures
            final(self)@ == old(self)@.up(),
    {
        if self.selected > 0 {
            self.selected = self.selected - 1;
        }
    }

    pub fn down(&mut self)
        ensures
            final(self)@ == old(self)@.down(),
    {
        let n: usize = self.filtered().len();
        if self.selected < n && self.selected + 1 < n {
            self.selected = self.selected + 1;
        }
    }

    pub fn insert(&mut self, c: char)
        ensures
            final(self)@ == old(self)@.insert(c),
    {
        self.query.insert(c);
        self.selected = 0;
    }

    pub fn backspace(&mut self)
        ensures
            final(self)@ == old(self)@.backspace(),
    {
        self.query.backspace();
        self.selected = 0;
    }

    /// The currently selected host, copied out.
    pub fn activate(&self) -> (r: Option<Server>)
        ensures
            r.deep_view() == self@.picked(),
    {
        let rows = self.filtered();
        if self.selected < rows.len() {
            assert(rows.deep_view()[self.selected as int] == rows@[self.selected as int]@);
            Some(rows[self.selected].copy())
        } else {
            None
        }
    }

    /// The rows of the picker on a screen; the list is row 2.
    pub fn rows(area: Rect) -> (rows: Vec<Rect>)
        ensures
            geometry::stacked(mouse::inner(picker_area(area)), 1, picker_rows(), rows@),
            rows@.len() == 4,
    {
        let inner = mouse::block_inner(modal_area(84, 22, 4, 2, area));
        let cs = vec![Constraint::Length(1), Constraint::Length(1), Constraint::Min(3), Constraint::Length(1)];
        assert(cs@ =~= picker_rows());
        split_rows(inner, 1, &cs)
    }

    /// The rectangle of the list on a screen.
    pub fn list_rect(&self, area: Rect) -> (r: Rect)
        ensures
            exists|rows: Seq<Rect>| #[trigger]
                geometry::stacked(mouse::inner(picker_area(area)), 1, picker_rows(), rows) && r == rows[2],
    {
        let rows = HostPicker::rows(area);
        rows[2]
    }

    /// Which list row `(x, y)` falls on in a list drawn into `list`.
    pub fn row_in(&self, list: Rect, x: u16, y: u16) -> (r: Option<usize>)
        ensures
            r == self@.row_hit(list, x, y),
    {
        let n: usize = self.filtered().len();
        list_row_hit(list, x, y, n, self.selected)
    }

    pub fn handle_key(&mut self, key: KeyCode) -> (r: PickerStep)
        ensures
            (final(self)@, r) == old(self)@.on_key(key),
    {
        match key {
            KeyCode::Esc => return PickerStep::Close,
            KeyCode::Up => self.up(),
            KeyCode::Down => self.down(),
            KeyCode::Char(c) => self.insert(c),
            KeyCode::Backspace => self.backspace(),
            KeyCode::Enter => return PickerStep::Pick,
            _ => {},
        }
        PickerStep::Stay
    }

    pub fn handle_mouse(&mut self, me: &MouseEvent, list: Rect) -> (r: PickerStep)
        ensures
            (final(self)@, r) == old(self)@.on_mouse(*me, list),
    {
        if let Some((x, y)) = mouse::left_click(me) {
            if let Some(i) = self.row_in(list, x, y) {
                self.selected = i;
                return PickerStep::Pick;
            }
        } else if let Some(delta) = mouse::scroll_delta(me) {
            if delta < 0 {
                self.up();
            } else {
                self.down();
            }
        }
        PickerStep::Stay
    }

    /// Which list row `(x, y)` falls on, if any; `area` is the one the picker is drawn in.
    pub fn row_at(&self, area: Rect, x: u16, y: u16) -> (r: Option<usize>)
        ensures
            exists|rows: Seq<Rect>| #[trigger]
                geometry::stacked(mouse::inner(picker_area(area)), 1, picker_rows(), rows) && r
                    == self@.row_hit(rows[2], x, y),
    {
        let list = self.list_rect(area);
        self.row_in(list, x, y)
    }
}

// ----------------------------------------------------------------- drawing

impl ServerModel {
    /// The user to log in as, followed by an at sign; nothing without one.
    pub open spec fn login(self) -> Seq<char> {
        if self.user.len() == 0 {
            ""@
        } else {
            (self.user + "@"@)
        }
    }

    /// The tags between brackets; nothing without any.
    pub open spec fn tag_list(self) -> Seq<char> {
        if self.tags.len() == 0 {
            ""@
        } else {
            let all = text::joined(self.tags, ", "@);
            ("  ["@ + all + "]"@)
        }
    }
}

impl Server {
    /// The user to log in as, followed by an at sign; nothing without one.
    pub fn login(&self) -> (r: String)
        ensures
            r@ == self@.login(),
    {
        if self.user.as_str().is_empty() {
            owned("")
        } else {
            cat2(self.user.as_str(), "@")
        }
    }

    /// The tags between brackets; nothing without any.
    pub fn tag_list(&self) -> (r: String)
        ensures
            r@ == self@.tag_list(),
    {
        if self.tags.len() == 0 {
            owned("")
        } else {
            let all = join(&self.tags, ", ");
            cat3("  [", all.as_str(), "]")
        }
    }
}

/// How known hosts are listed: alias, login and tags.
pub open spec fn host_lines(v: Seq<ServerModel>) -> Seq<LineModel>
    decreases v.len(),
{
    if v.len() == 0 {
        Seq::empty()
    } else {
        let s = v.last();
        host_lines(v.drop_last()).push(
            LineModel::of(SpanModel::text(padded(s.alias, 22), Tone::Strong)).and(
                SpanModel::text((" "@ + s.login() + s.effective_host()), Tone::Dim),
            ).and(SpanModel::text(s.tag_list(), Tone::Accent))
        )
    }
}

pub fn host_rows(v: &Vec<&Server>) -> (r: Vec<Line>)
    ensures
        r.deep_view() == host_lines(v.deep_view()),
{
    let ghost all = v.deep_view();
    let mut r: Vec<Line> = no_lines();
    let mut i: usize = 0;
    assert(all.take(0) =~= Seq::empty());
    while i < v.len()
        invariant
            all == v.deep_view(),
            i <= v@.len(),
            r.deep_view() == host_lines(all.take(i as int)),
        decreases v@.len() - i,
    {
        let s = &v[i];
        assert(all.take(i + 1).drop_last() =~= all.take(i as int));
        append_to(
            &mut r,
            Line::of(Span::text(pad(s.alias.as_str(), 22).as_str(), Tone::Strong)).and(
                Span::text(cat3(" ", s.login().as_str(), s.effective_host()).as_str(), Tone::Dim),
            ).and(Span::text(s.tag_list().as_str(), Tone::Accent))
        );
        i = i + 1;
    }
    assert(all.take(all.len() as int) =~= all);
    r
}

impl HostPickerModel {
    /// Draws the picker into its area and rows.
    pub open spec fn drawn_on(self, p: PictureModel, area: Rect, rows: Seq<Rect>) -> PictureModel {
        let p = p.modal(area, " Pick a Known Host (from SSH Server Manager) "@, Frame::Modal);
        let p = p.input(rows[0], "Search: "@, self.query, true, false, room_in(rows[0], 10));
        let p = match self.error {
            Some(err) => {
                p.note(rows[2], ("couldn't read ~/.ssh/config: "@ + err), Tone::Bad)
            },
            None => {
                let found = self.filtered();
                if found.len() == 0 {
                    if self.all.len() == 0 {
                        p.note(rows[2], "no hosts saved yet — add one in the SSH Server Manager first"@, Tone::Label)
                    } else {
                        p.note(rows[2], "no saved hosts match"@, Tone::Label)
                    }
                } else {
                    p.list(rows[2], host_lines(found), self.selected)
                }
            },
        };
        p.note(rows[3], "type to filter  \u{2191}\u{2193} navigate  Enter pick  Esc cancel"@, Tone::Label)
    }
}

impl HostPicker {
    /// Draws the picker into its area and rows.
    pub fn draw_on(&self, p: &mut Picture, area: Rect, rows: &Vec<Rect>)
        requires
            rows@.len() == 4,
        ensures
            final(p)@ == self@.drawn_on(old(p)@, area, rows@),
    {
        p.modal(area, " Pick a Known Host (from SSH Server Manager) ", Frame::Modal);
        p.input(rows[0], "Search: ", &self.query, true, false, room(rows[0], 10));
        match &self.error {
            Some(err) => {
                p.note(rows[2], cat2("couldn't read ~/.ssh/config: ", err.as_str()).as_str(), Tone::Bad);
            },
            None => {
                let found = self.filtered();
                if found.len() == 0 {
                    if self.all.len() == 0 {
                        p.note(rows[2], "no hosts saved yet — add one in the SSH Server Manager first", Tone::Label);
                    } else {
                        p.note(rows[2], "no saved hosts match", Tone::Label);
                    }
                } else {
                    p.list(rows[2], host_rows(&found), self.selected);
                }
            },
        }
        p.note(rows[3], "type to filter  \u{2191}\u{2193} navigate  Enter pick  Esc cancel", Tone::Label);
    }
}

/// Draws a picker on a screen that fills `area`.
pub fn draw(p: &mut Picture, picker: &HostPicker, area: Rect)
    ensures
        exists|rows: Seq<Rect>| #[trigger]
            geometry::stacked(mouse::inner(picker_area(area)), 1, picker_rows(), rows) && final(p)@
                == picker@.drawn_on(old(p)@, picker_area(area), rows),
{
    let rows = HostPicker::rows(area);
    picker.draw_on(p, modal_area(84, 22, 4, 2, area), &rows);
}

// -------------------------------------------------------------------- laws

/// Only known hosts that match what was typed are offered, and only one of
/// those is ever picked.
pub proof fn only_matching_hosts_are_offered(p: HostPickerModel, i: int)
    requires
        0 <= i < p.filtered().len(),
    ensures
        p.all.contains(p.filtered()[i]),
        matches_host(p.filtered()[i], text::lowercase(p.query.trimmed())),
        p.picked() matches Some(s) ==> p.filtered().contains(s),
{
    let q = text::lowercase(p.query.trimmed());
    let keep = |s: ServerModel| matches_host(s, q);
    lists::lemma_filter_part(p.all, keep, i);
}

/// Without a search every known host is offered.
pub proof fn an_empty_search_offers_every_host(p: HostPickerModel)
    requires
        text::lowercase(p.query.trimmed()).len() == 0,
    ensures
        p.filtered() == p.all,
{
    let q = text::lowercase(p.query.trimmed());
    lists::lemma_filter_all(p.all, |s: ServerModel| matches_host(s, q));
}

/// No key and no mouse event moves the selection off the hosts that are offered.
pub proof fn the_selection_stays_on_the_list(p: HostPickerModel, key: KeyCode, me: MouseEvent, list: Rect)
    requires
        0 <= p.selected < p.filtered().len() <= usize::MAX,
    ensures
        ({
            let k = p.on_key(key).0;
            &&& 0 <= k.selected
            &&& k.selected < k.filtered().len() || k.selected == 0
        }),
        0 <= p.on_mouse(me, list).0.selected < p.on_mouse(me, list).0.filtered().len(),
{
}

/// A click picks the host that is drawn under it: the list shows its hosts
/// from the first, or, with the selection further down, ends with the
/// selected one.
pub proof fn a_click_picks_the_host_under_it(p: HostPickerModel, me: MouseEvent, list: Rect, line: int)
    requires
        0 <= p.selected < p.filtered().len() <= usize::MAX,
        0 <= line < list.height,
        mouse::clicked(me) matches Some((x, y)) && list.x < x && x + 1 < list.right() && y == list.y + line,
    ensures
        ({
            let first = if p.selected < list.height {
                0
            } else {
                p.selected - list.height + 1
            };
            let r = p.on_mouse(me, list);
            &&& first + line < p.filtered().len() ==> r.1 == PickerStep::Pick && r.0.picked() == Some(
                p.filtered()[first + line],
            )
            &&& first + line >= p.filtered().len() ==> r == (p, PickerStep::Stay)
        }),
{
    let (x, y) = mouse::clicked(me)->0;
    mouse::clicks_hit_the_list_row_shown(x, y, list, p.filtered().len() as int, p.selected, line);
}

} // verus!
