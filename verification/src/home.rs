//! The menu of tools: choosing one, and putting them in an order of one's own.
use crate::event::{KeyCode, KeyEvent, MouseEvent};
use crate::geometry;
use crate::geometry::{split_rows, Constraint, Rect};
use crate::mouse;
use crate::mouse::{in_rect, left_click, scroll_delta};
use crate::model::append_to;
use crate::picture::{no_lines, Line, LineModel, Picture, PictureModel, Span, SpanModel, Tone};
use crate::screen;
use crate::screen::{order_from_keys, order_keys, screen_about, screen_program, screen_title, Screen};
use crate::text;
use crate::text::{cat2, cat3, number};
use crate::wrap;
use crate::wrap::wrap_text;
use vstd::prelude::*;

verus! {

/// The texts that a JSON document lists, if it is a list of texts.
pub uninterp spec fn json_texts(document: Seq<char>) -> Option<Seq<Seq<char>>>;

/// The JSON document that lists texts, with one text to a line.
pub uninterp spec fn json_document(texts: Seq<Seq<char>>) -> Seq<char>;

/// `serde_json::from_str` of a list of strings, `None` where it fails. The
/// result depends on the document alone.
#[verifier::external_body]
fn parse_texts(document: &str) -> (r: Option<Vec<String>>)
    ensures
        r.deep_view() == json_texts(document@),
{
    serde_json::from_str::<Vec<String>>(document).ok()
}

/// `serde_json::to_string_pretty` of a list of strings, which always succeeds:
/// neither a string nor a list of them can fail to be written to memory. The
/// result depends on the strings alone, and [`parse_texts`] reads them back
/// from it.
#[verifier::external_body]
fn write_texts(texts: &Vec<String>) -> (r: Option<String>)
    ensures
        r.deep_view() == Some(json_document(texts.deep_view())),
        r matches Some(d) ==> json_texts(d@) == Some(texts.deep_view()),
{
    serde_json::to_string_pretty(texts).ok()
}

/// The tools in the order that a saved document gives them.
pub open spec fn order_in(document: Option<Seq<char>>) -> Seq<Screen> {
    screen::order_of(
        match document {
            Some(d) => json_texts(d),
            None => None,
        },
    )
}

/// The tools in the order that a saved document gives them; in the default
/// order where there is none, or it cannot be read.
pub fn load_order(document: &Option<String>) -> (r: Vec<Screen>)
    ensures
        r@ == order_in(document.deep_view()),
        screen::complete(r@),
{
    let keys = match document {
        Some(d) => parse_texts(d.as_str()),
        None => None,
    };
    order_from_keys(&keys)
}

/// The document that saves an order.
pub fn save_order(order: &Vec<Screen>) -> (r: String)
    requires
        screen::complete(order@),
    ensures
        r@ == json_document(screen::keys_of(order@)),
        order_in(Some(r@)) == order@,
{
    let keys = order_keys(order);
    let written = write_texts(&keys);
    proof {
        screen::loading_undoes_saving(order@);
    }
    match written {
        Some(d) => d,
        None => String::new(),
    }
}

// --------------------------------------------------------------- the items

/// How far the description of a tool is indented.
pub const INDENT: usize = 5;

/// The columns that a description has in a list `width` columns wide.
pub open spec fn about_width(width: int) -> int {
    geometry::max_int(geometry::less(geometry::less(width, 2), INDENT as int), 10)
}

pub fn description_width(width: u16) -> (r: usize)
    ensures
        r == about_width(width as int),
{
    let w: usize = (width as usize).saturating_sub(2).saturating_sub(INDENT);
    if w < 10 {
        10
    } else {
        w
    }
}

/// The lines of one tool: its title, its description and an empty line.
pub open spec fn item_height(s: Screen, width: int) -> int {
    1 + wrap::wrapped(s.about(), width).len() as int + 1
}

/// The first line of tool `i` of an order.
pub open spec fn item_top(order: Seq<Screen>, width: int, i: int) -> int
    decreases i,
{
    if i <= 0 {
        0
    } else {
        item_top(order, width, i - 1) + item_height(order[i - 1], width)
    }
}

/// The tool that a line of the list belongs to, searched from tool `from` on.
pub open spec fn item_at(order: Seq<Screen>, width: int, line: int, from: int) -> Option<usize>
    decreases order.len() - from,
{
    if from < 0 || from >= order.len() {
        None
    } else if line < item_height(order[from], width) {
        Some(from as usize)
    } else {
        item_at(order, width, line - item_height(order[from], width), from + 1)
    }
}

/// The first tool that a list with room for `room` lines shows: the first one
/// from `from` on from which the lines down to those of tool `selected` fit.
pub open spec fn first_item(order: Seq<Screen>, width: int, room: int, selected: int, from: int) -> int
    decreases selected - from,
{
    if from >= selected || item_top(order, width, selected + 1) - item_top(order, width, from) <= room {
        from
    } else {
        first_item(order, width, room, selected, from + 1)
    }
}

/// How many lines each tool of an order takes.
pub fn item_heights(order: &Vec<Screen>, width: usize) -> (r: Vec<usize>)
    ensures
        r@.len() == order@.len(),
        forall|i: int| 0 <= i < r@.len() ==> #[trigger] r@[i] == item_height(order@[i], width as int),
{
    let mut heights: Vec<usize> = Vec::new();
    let mut i: usize = 0;
    while i < order.len()
        invariant
            i <= order@.len(),
            heights@.len() == i,
            forall|k: int| 0 <= k < i ==> #[trigger] heights@[k] == item_height(order@[k], width as int),
        decreases order@.len() - i,
    {
        let lines = wrap_text(screen_about(order[i]), width);
        assert(lines.deep_view().len() == lines@.len());
        proof {
            lemma_item_height(order@[i as int], width as int);
        }
        heights.push(lines.len() + 2);
        i = i + 1;
    }
    heights
}

/// The tool that is drawn on a line of the list. Tools that do not fit whole
/// are not drawn.
pub open spec fn drawn_item(order: Seq<Screen>, width: int, room: int, selected: int, line: int) -> Option<usize> {
    let first = first_item(order, width, room, selected, 0);
    match item_at(order, width, line, first) {
        Some(i) => if item_top(order, width, i + 1) - item_top(order, width, first) <= room {
            Some(i)
        } else {
            None
        },
        None => None,
    }
}

/// The lines of the tools from `from` up to but for `to`.
fn lines_between(heights: &Vec<usize>, order: &Vec<Screen>, width: usize, from: usize, to: usize) -> (r: usize)
    requires
        from <= to <= order@.len() <= 100,
        heights@.len() == order@.len(),
        forall|k: int| 0 <= k < heights@.len() ==> #[trigger] heights@[k] == item_height(order@[k], width as int),
    ensures
        r == item_top(order@, width as int, to as int) - item_top(order@, width as int, from as int),
{
    let mut r: usize = 0;
    let mut i: usize = from;
    while i < to
        invariant
            from <= i <= to <= order@.len() <= 100,
            heights@.len() == order@.len(),
            forall|k: int| 0 <= k < heights@.len() ==> #[trigger] heights@[k] == item_height(order@[k], width as int),
            r == item_top(order@, width as int, i as int) - item_top(order@, width as int, from as int),
            r <= (i - from) * 1000,
        decreases to - i,
    {
        proof {
            lemma_item_height(order@[i as int], width as int);
        }
        r = r + heights[i];
        i = i + 1;
    }
    r
}

fn find_item(order: &Vec<Screen>, width: usize, room: usize, selected: usize, line: usize) -> (r: Option<usize>)
    requires
        selected < order@.len() <= 100,
    ensures
        r == drawn_item(order@, width as int, room as int, selected as int, line as int),
{
    let heights = item_heights(order, width);
    let mut first: usize = 0;
    while first < selected && lines_between(&heights, order, width, first, selected + 1) > room
        invariant
            first <= selected < order@.len() <= 100,
            heights@.len() == order@.len(),
            forall|k: int| 0 <= k < heights@.len() ==> #[trigger] heights@[k] == item_height(order@[k], width as int),
            first_item(order@, width as int, room as int, selected as int, 0) == first_item(
                order@,
                width as int,
                room as int,
                selected as int,
                first as int,
            ),
        decreases selected - first,
    {
        first = first + 1;
    }
    let mut rest: usize = line;
    let mut i: usize = first;
    while i < heights.len()
        invariant
            heights@.len() == order@.len() <= 100,
            forall|k: int| 0 <= k < heights@.len() ==> #[trigger] heights@[k] == item_height(order@[k], width as int),
            first <= i <= heights@.len(),
            first == first_item(order@, width as int, room as int, selected as int, 0),
            item_at(order@, width as int, line as int, first as int) == item_at(
                order@,
                width as int,
                rest as int,
                i as int,
            ),
        decreases heights@.len() - i,
    {
        if rest < heights[i] {
            if lines_between(&heights, order, width, first, i + 1) <= room {
                return Some(i);
            }
            return None;
        }
        rest = rest - heights[i];
        i = i + 1;
    }
    None
}

// --------------------------------------------------------------- the state

pub struct HomeState {
    /// The place of the highlighted tool.
    pub selected: usize,
    /// The tools from the top down.
    pub order: Vec<Screen>,
    /// The order to be stored, after a change of it.
    pub unsaved: Option<String>,
}

#[verifier::ext_equal]
pub struct HomeModel {
    pub selected: int,
    pub order: Seq<Screen>,
    pub unsaved: Option<Seq<char>>,
}

impl View for HomeState {
    type V = HomeModel;

    open spec fn view(&self) -> HomeModel {
        HomeModel {
            selected: self.selected as int,
            order: self.order@,
            unsaved: self.unsaved.deep_view(),
        }
    }
}

/// The rows of the screen: the banner, the list and the hints.
pub open spec fn home_rows() -> Seq<Constraint> {
    seq![Constraint::Length(5), Constraint::Min(0), Constraint::Length(1)]
}

/// The rows of the screen: the banner, the list and the hints.
pub fn home_layout(area: Rect) -> (rows: Vec<Rect>)
    ensures
        geometry::stacked(area, 0, home_rows(), rows@),
{
    let cs = vec![Constraint::Length(5), Constraint::Min(0), Constraint::Length(1)];
    assert(cs@ =~= home_rows());
    split_rows(area, 0, &cs)
}

impl HomeModel {
    pub open spec fn wf(self) -> bool {
        screen::complete(self.order) && 0 <= self.selected < self.order.len()
    }

    /// The highlight one tool up or down, as far as there is one.
    pub open spec fn stepped(self, up: bool) -> HomeModel {
        if up && self.selected > 0 {
            HomeModel { selected: self.selected - 1, ..self }
        } else if !up && self.selected + 1 < self.order.len() {
            HomeModel { selected: self.selected + 1, ..self }
        } else {
            self
        }
    }

    /// The highlighted tool has changed places with its neighbour, and the
    /// new order is to be stored.
    pub open spec fn carried(self, up: bool) -> HomeModel {
        let there = self.selected + if up {
            -1int
        } else {
            1
        };
        if there < 0 || there >= self.order.len() {
            self
        } else {
            let order = self.order.update(self.selected, self.order[there]).update(
                there,
                self.order[self.selected],
            );
            HomeModel {
                selected: there,
                order,
                unsaved: Some(json_document(screen::keys_of(order))),
            }
        }
    }

    /// The tool that a digit opens.
    pub open spec fn numbered(self, c: char) -> Option<Screen> {
        let n = c as int - '0' as int;
        if text::is_digit(c) && 1 <= n <= self.order.len() {
            Some(self.order[n - 1])
        } else {
            None
        }
    }

    pub open spec fn on_key(self, key: KeyEvent) -> (HomeModel, Option<Screen>) {
        match key.code {
            KeyCode::Up => (self.stepped(true), None),
            KeyCode::Down => (self.stepped(false), None),
            KeyCode::Enter => (self, Some(self.order[self.selected])),
            KeyCode::Char(c) => if c == 'k' {
                (self.stepped(true), None)
            } else if c == 'j' {
                (self.stepped(false), None)
            } else if c == 'K' {
                (self.carried(true), None)
            } else if c == 'J' {
                (self.carried(false), None)
            } else {
                (self, self.numbered(c))
            },
            _ => (self, None),
        }
    }

    /// The tool under a click, where the list stands in `list` and has scrolled
    /// just far enough to show the highlighted tool.
    pub open spec fn clicked_item(self, x: int, y: int, list: Rect) -> Option<usize> {
        if x < list.x + 1 || x + 1 >= list.right() || y < list.y + 1 || y + 1 >= list.bottom() {
            None
        } else {
            drawn_item(
                self.order,
                about_width(list.width as int),
                geometry::less(list.height as int, 2),
                self.selected,
                y - (list.y + 1),
            )
        }
    }

    pub open spec fn on_mouse(self, me: MouseEvent, list: Rect) -> (HomeModel, Option<Screen>) {
        match mouse::scrolled(me) {
            Some(d) => if !mouse::hits(list, me.column, me.row) {
                (self, None)
            } else if d < 0 {
                (self.stepped(true), None)
            } else if d > 0 {
                (self.stepped(false), None)
            } else {
                (self, None)
            },
            None => match mouse::clicked(me) {
                Some((x, y)) => match self.clicked_item(x as int, y as int, list) {
                    Some(i) => (
                        HomeModel { selected: i as int, ..self },
                        Some(self.order[i as int]),
                    ),
                    None => (self, None),
                },
                None => (self, None),
            },
        }
    }
}

impl HomeState {
    /// The menu in the order of a saved document, with its first tool highlighted.
    pub fn new(document: &Option<String>) -> (r: HomeState)
        ensures
            r@ == (HomeModel { selected: 0, order: order_in(document.deep_view()), unsaved: None }),
            r@.wf(),
    {
        let order = load_order(document);
        proof {
            assert(order@.contains(Screen::Logs));
        }
        HomeState { selected: 0, order, unsaved: None }
    }

    /// Hands over the order that is to be stored, if it changed.
    pub fn take_unsaved(&mut self) -> (r: Option<String>)
        ensures
            r.deep_view() == old(self)@.unsaved,
            final(self)@ == (HomeModel { unsaved: None, ..old(self)@ }),
    {
        self.unsaved.take()
    }

    fn step(&mut self, up: bool)
        requires
            old(self)@.wf(),
        ensures
            final(self)@ == old(self)@.stepped(up),
            final(self)@.wf(),
    {
        proof {
            screen::complete_orders_are_equally_long(self.order@);
        }
        if up {
            if self.selected > 0 {
                self.selected = self.selected - 1;
            }
        } else if self.selected + 1 < self.order.len() {
            self.selected = self.selected + 1;
        }
    }

    /// Swaps the highlighted tool with its neighbour.
    fn move_selected(&mut self, up: bool)
        requires
            old(self)@.wf(),
        ensures
            final(self)@ == old(self)@.carried(up),
            final(self)@.wf(),
            final(self)@.order != old(self)@.order ==> final(self)@.unsaved is Some && order_in(
                final(self)@.unsaved,
            ) == final(self)@.order,
    {
        proof {
            reordering_keeps_every_tool(self@, up);
            screen::complete_orders_are_equally_long(self.order@);
        }
        let there: usize = if up {
            if self.selected == 0 {
                return ;
            }
            self.selected - 1
        } else {
            if self.selected + 1 >= self.order.len() {
                return ;
            }
            self.selected + 1
        };
        let one = self.order[self.selected];
        let other = self.order[there];
        self.order.set(self.selected, other);
        self.order.set(there, one);
        self.selected = there;
        self.unsaved = Some(save_order(&self.order));
    }

    /// Handles a key; returns the tool to open. A new order is to be stored at
    /// once, and reads back as the order that is shown.
    pub fn handle_key(&mut self, key: KeyEvent) -> (r: Option<Screen>)
        requires
            old(self)@.wf(),
        ensures
            (final(self)@, r) == old(self)@.on_key(key),
            final(self)@.wf(),
            final(self)@.order != old(self)@.order ==> final(self)@.unsaved is Some && order_in(
                final(self)@.unsaved,
            ) == final(self)@.order,
    {
        match key.code {
            KeyCode::Up => {
                self.step(true);
                None
            },
            KeyCode::Down => {
                self.step(false);
                None
            },
            KeyCode::Enter => Some(self.order[self.selected]),
            KeyCode::Char(c) => {
                if c == 'k' {
                    self.step(true);
                } else if c == 'j' {
                    self.step(false);
                } else if c == 'K' {
                    self.move_selected(true);
                } else if c == 'J' {
                    self.move_selected(false);
                } else if c >= '1' && c <= '9' {
                    let n: usize = (c as u32 - 48) as usize;
                    if n <= self.order.len() {
                        return Some(self.order[n - 1]);
                    }
                }
                None
            },
            _ => None,
        }
    }

    /// Handles the mouse with the list in `list`; returns the tool to open.
    pub fn mouse_on(&mut self, me: MouseEvent, list: Rect) -> (r: Option<Screen>)
        requires
            old(self)@.wf(),
        ensures
            (final(self)@, r) == old(self)@.on_mouse(me, list),
            final(self)@.wf(),
    {
        if let Some(d) = scroll_delta(&me) {
            if in_rect(list, me.column, me.row) {
                if d < 0 {
                    self.step(true);
                } else if d > 0 {
                    self.step(false);
                }
            }
            return None;
        }
        let (x, y) = match left_click(&me) {
            Some(at) => at,
            None => {
                return None;
            },
        };
        let (x, y): (u32, u32) = (x as u32, y as u32);
        let right: u32 = list.x as u32 + list.width as u32;
        let bottom: u32 = list.y as u32 + list.height as u32;
        if x < list.x as u32 + 1 || x + 1 >= right || y < list.y as u32 + 1 || y + 1 >= bottom {
            return None;
        }
        let width: usize = description_width(list.width);
        let line: usize = (y - list.y as u32 - 1) as usize;
        let room: usize = (list.height as usize).saturating_sub(2);
        proof {
            screen::complete_orders_are_equally_long(self.order@);
        }
        match find_item(&self.order, width, room, self.selected, line) {
            Some(i) => {
                proof {
                    lemma_first_item(self.order@, width as int, room as int, self.selected as int, 0);
                    lemma_item_at(
                        self.order@,
                        width as int,
                        line as int,
                        first_item(self.order@, width as int, room as int, self.selected as int, 0),
                    );
                }
                self.selected = i;
                Some(self.order[i])
            },
            None => None,
        }
    }

    /// Handles the mouse on a screen that fills `area`; returns the tool to open.
    pub fn handle_mouse(&mut self, me: MouseEvent, area: Rect) -> (r: Option<Screen>)
        requires
            old(self)@.wf(),
        ensures
            exists|rows: Seq<Rect>| #[trigger]
                geometry::stacked(area, 0, home_rows(), rows) && (final(self)@, r)
                    == old(self)@.on_mouse(me, rows[1]),
            final(self)@.wf(),
    {
        let rows = home_layout(area);
        self.mouse_on(me, rows[1])
    }
}

// ----------------------------------------------------------------- drawing

/// The lines of one tool of the list, the `i`th from the top.
pub open spec fn item_lines(s: Screen, i: int, width: int) -> Seq<LineModel> {
    seq![title_line(s, i)] + about_lines(wrap::wrapped(s.about(), width)) + seq![LineModel::empty()]
}

/// Number, name and command of a tool.
pub open spec fn title_line(s: Screen, i: int) -> LineModel {
    LineModel::of(SpanModel::text("  "@ + text::decimal((i + 1) as nat) + ". "@, Tone::Dim)).and(
        SpanModel::text(s.title(), Tone::Strong),
    ).and(SpanModel::text("  ("@ + s.program() + ")"@, Tone::Dim))
}

/// The lines of a description, indented.
pub open spec fn about_lines(lines: Seq<Seq<char>>) -> Seq<LineModel>
    decreases lines.len(),
{
    if lines.len() == 0 {
        Seq::empty()
    } else {
        about_lines(lines.drop_last()).push(
            LineModel::of(SpanModel::text("     "@ + lines.last(), Tone::Dim)),
        )
    }
}

/// The first `n` tools of the list.
pub open spec fn listed(order: Seq<Screen>, width: int, n: int) -> Seq<Seq<LineModel>>
    decreases n,
{
    if n <= 0 {
        Seq::empty()
    } else {
        listed(order, width, n - 1).push(item_lines(order[n - 1], n - 1, width))
    }
}

impl HomeModel {
    /// The banner, the list of tools and the hints.
    pub open spec fn drawn_on(self, p: PictureModel, theme: Seq<char>, rows: Seq<Rect>) -> PictureModel {
        let p = p.centered(
            rows[0],
            seq![
                LineModel::of(SpanModel::text("atk — Admin Toolkit"@, Tone::Title)),
                LineModel::of(
                    SpanModel::text(
                        "A sysadmin's Swiss Army knife: SSH servers, SSH users, DNS, MySQL, PostgreSQL, ClickHouse, logs, kernel tuning — one TUI"@,
                        Tone::Dim,
                    ),
                ),
                LineModel::of(SpanModel::text("or1k.net  \u{2022}  theme: "@ + theme, Tone::Border)),
            ],
        );
        let p = p.menu(
            rows[1],
            " Tools "@,
            listed(self.order, about_width(rows[1].width as int), self.order.len() as int),
            self.selected,
        );
        p.centered(
            rows[2],
            seq![
                LineModel::of(
                    SpanModel::text(
                        "\u{2191}\u{2193}/1-9 select  Enter open  Shift+K/J move up/down  F9 theme  F12 mouse  Ctrl+C quit"@,
                        Tone::Label,
                    ),
                ),
            ],
        )
    }
}

fn lines_of_item(s: Screen, i: usize, width: usize) -> (r: Vec<Line>)
    requires
        i < 100,
    ensures
        r.deep_view() == item_lines(s, i as int, width as int),
{
    let n = number(i as u64 + 1);
    let mut r: Vec<Line> = no_lines();
    append_to(
        &mut r,
        Line::of(Span::text(cat3("  ", n.as_str(), ". ").as_str(), Tone::Dim)).and(
            Span::text(screen_title(s), Tone::Strong),
        ).and(Span::text(cat3("  (", screen_program(s), ")").as_str(), Tone::Dim)),
    );
    let about = wrap_text(screen_about(s), width);
    let ghost all = about.deep_view();
    let mut k: usize = 0;
    assert(r.deep_view() =~= seq![title_line(s, i as int)] + about_lines(all.take(0)));
    while k < about.len()
        invariant
            all == about.deep_view(),
            k <= about@.len(),
            r.deep_view() == seq![title_line(s, i as int)] + about_lines(all.take(k as int)),
        decreases about@.len() - k,
    {
        append_to(&mut r, Line::of(Span::text(cat2("     ", about[k].as_str()).as_str(), Tone::Dim)));
        assert(all.take(k + 1).drop_last() =~= all.take(k as int));
        k = k + 1;
        assert(r.deep_view() =~= seq![title_line(s, i as int)] + about_lines(all.take(k as int)));
    }
    assert(all.take(all.len() as int) =~= all);
    append_to(&mut r, Line::empty());
    assert(r.deep_view() =~= item_lines(s, i as int, width as int));
    r
}

impl HomeState {
    /// Draws the menu into its rows.
    pub fn draw_on(&self, p: &mut Picture, theme: &str, rows: &Vec<Rect>)
        requires
            self@.wf(),
            rows@.len() == 3,
        ensures
            final(p)@ == self@.drawn_on(old(p)@, theme@, rows@),
    {
        let mut banner: Vec<Line> = no_lines();
        append_to(&mut banner, Line::of(Span::text("atk — Admin Toolkit", Tone::Title)));
        append_to(
            &mut banner,
            Line::of(
                Span::text(
                    "A sysadmin's Swiss Army knife: SSH servers, SSH users, DNS, MySQL, PostgreSQL, ClickHouse, logs, kernel tuning — one TUI",
                    Tone::Dim,
                ),
            ),
        );
        append_to(
            &mut banner,
            Line::of(Span::text(cat2("or1k.net  \u{2022}  theme: ", theme).as_str(), Tone::Border)),
        );
        assert(banner.deep_view() =~= seq![banner.deep_view()[0], banner.deep_view()[1], banner.deep_view()[2]]);
        p.centered(rows[0], banner);
        let width: usize = description_width(rows[1].width);
        let mut items: Vec<Vec<Line>> = Vec::new();
        let mut i: usize = 0;
        assert(items.deep_view() =~= Seq::empty());
        while i < self.order.len()
            invariant
                i <= self.order@.len(),
                items.deep_view() == listed(self.order@, width as int, i as int),
                self@.wf(),
            decreases self.order@.len() - i,
        {
            proof {
                screen::complete_orders_are_equally_long(self.order@);
            }
            append_to(&mut items, lines_of_item(self.order[i], i, width));
            i = i + 1;
        }
        p.menu(rows[1], " Tools ", items, self.selected);
        let mut hints: Vec<Line> = no_lines();
        append_to(
            &mut hints,
            Line::of(
                Span::text(
                    "\u{2191}\u{2193}/1-9 select  Enter open  Shift+K/J move up/down  F9 theme  F12 mouse  Ctrl+C quit",
                    Tone::Label,
                ),
            ),
        );
        assert(hints.deep_view() =~= seq![hints.deep_view()[0]]);
        p.centered(rows[2], hints);
    }
}

/// Draws the menu on a screen that fills `area`; `theme` names the colours.
pub fn draw(p: &mut Picture, state: &HomeState, theme: &str, area: Rect)
    requires
        state@.wf(),
    ensures
        exists|rows: Seq<Rect>| #[trigger]
            geometry::stacked(area, 0, home_rows(), rows) && final(p)@ == state@.drawn_on(old(p)@, theme@, rows),
{
    let rows = home_layout(area);
    state.draw_on(p, theme, &rows);
}

// -------------------------------------------------------------------- laws

/// A tool is drawn on as many lines as a click takes it to have.
pub proof fn items_are_as_high_as_drawn(s: Screen, i: int, width: int)
    ensures
        item_lines(s, i, width).len() == item_height(s, width),
{
    lemma_about_lines(wrap::wrapped(s.about(), width));
}

proof fn lemma_about_lines(lines: Seq<Seq<char>>)
    ensures
        about_lines(lines).len() == lines.len(),
    decreases lines.len(),
{
    if lines.len() > 0 {
        lemma_about_lines(lines.drop_last());
    }
}

/// Reordering keeps every tool on the menu once, and the highlight on it.
pub proof fn reordering_keeps_every_tool(m: HomeModel, up: bool)
    requires
        m.wf(),
    ensures
        m.carried(up).wf(),
        m.carried(up).order[m.carried(up).selected] == m.order[m.selected],
{
    let there = m.selected + if up {
        -1int
    } else {
        1
    };
    if 0 <= there < m.order.len() {
        let here = m.selected;
        let now = m.carried(up).order;
        assert(now[here] == m.order[there] && now[there] == m.order[here]);
        assert(m.order[here] != m.order[there]);
        assert forall|s: Screen| #[trigger] now.contains(s) <==> s != Screen::Home by {
            if now.contains(s) {
                let k = choose|k: int| 0 <= k < now.len() && now[k] == s;
                let j = if k == here {
                    there
                } else if k == there {
                    here
                } else {
                    k
                };
                assert(m.order[j] == s);
                assert(m.order.contains(s));
            }
            if s != Screen::Home {
                assert(m.order.contains(s));
                let k = choose|k: int| 0 <= k < m.order.len() && m.order[k] == s;
                let j = if k == here {
                    there
                } else if k == there {
                    here
                } else {
                    k
                };
                assert(now[j] == s);
            }
        }
    }
}

/// Moving a tool up and down again, or down and up again, puts it back.
pub proof fn reordering_can_be_undone(m: HomeModel, up: bool)
    requires
        m.wf(),
        m.carried(up).selected != m.selected,
    ensures
        m.carried(up).carried(!up).order == m.order,
        m.carried(up).carried(!up).selected == m.selected,
{
}

/// No key and no click leaves the menu, opens anything but one of its tools
/// or takes a tool off it.
pub proof fn the_menu_opens_its_tools(m: HomeModel, key: KeyEvent, me: MouseEvent, list: Rect)
    requires
        m.wf(),
    ensures
        m.on_key(key).0.wf(),
        m.on_key(key).1 matches Some(s) ==> s != Screen::Home,
        m.on_mouse(me, list).0.wf(),
        m.on_mouse(me, list).1 matches Some(s) ==> s != Screen::Home,
{
    reordering_keeps_every_tool(m, true);
    reordering_keeps_every_tool(m, false);
    assert forall|i: int| 0 <= i < m.order.len() implies #[trigger] m.order[i] != Screen::Home by {
        assert(m.order.contains(m.order[i]));
    }
    if let Some((x, y)) = mouse::clicked(me) {
        screen::complete_orders_are_equally_long(m.order);
        let w = about_width(list.width as int);
        let room = geometry::less(list.height as int, 2);
        lemma_first_item(m.order, w, room, m.selected, 0);
        lemma_item_at(m.order, w, y - (list.y + 1), first_item(m.order, w, room, m.selected, 0));
    }
}

/// A click opens the tool whose lines are drawn under it: the list starts with
/// the first tool from which the lines down to the highlighted one fit.
pub proof fn a_click_opens_what_is_under_it(m: HomeModel, x: int, y: int, list: Rect)
    requires
        m.wf(),
    ensures
        match m.clicked_item(x, y, list) {
            Some(i) => {
                let w = about_width(list.width as int);
                let room = geometry::less(list.height as int, 2);
                let first = first_item(m.order, w, room, m.selected, 0);
                let line = item_top(m.order, w, first) + (y - (list.y + 1));
                &&& first <= i < m.order.len()
                &&& item_top(m.order, w, i as int) <= line < item_top(m.order, w, i + 1)
                &&& item_top(m.order, w, i + 1) <= item_top(m.order, w, first) + room
            },
            None => true,
        },
{
    let w = about_width(list.width as int);
    let room = geometry::less(list.height as int, 2);
    if m.clicked_item(x, y, list) is Some {
        screen::complete_orders_are_equally_long(m.order);
        lemma_first_item(m.order, w, room, m.selected, 0);
        lemma_item_at(m.order, w, y - (list.y + 1), first_item(m.order, w, room, m.selected, 0));
    }
}

/// Every tool that is drawn is opened by a click on any of its lines.
pub proof fn drawn_tools_are_hit(m: HomeModel, x: int, y: int, list: Rect, i: int)
    requires
        m.wf(),
        list.x < x,
        x + 1 < list.right(),
        list.y < y,
        y + 1 < list.bottom(),
        ({
            let w = about_width(list.width as int);
            let room = geometry::less(list.height as int, 2);
            let first = first_item(m.order, w, room, m.selected, 0);
            let line = item_top(m.order, w, first) + (y - (list.y + 1));
            &&& first <= i < m.order.len()
            &&& item_top(m.order, w, i) <= line < item_top(m.order, w, i + 1)
            &&& item_top(m.order, w, i + 1) <= item_top(m.order, w, first) + room
        }),
    ensures
        m.clicked_item(x, y, list) == Some(i as usize),
{
    let w = about_width(list.width as int);
    let room = geometry::less(list.height as int, 2);
    screen::complete_orders_are_equally_long(m.order);
    lemma_first_item(m.order, w, room, m.selected, 0);
    lemma_item_found(m.order, w, y - (list.y + 1), first_item(m.order, w, room, m.selected, 0), i);
}

/// The highlighted tool is always among those that are drawn, where its lines
/// fit at all, and no tool above the first one drawn could be drawn with it.
pub proof fn the_highlighted_tool_is_drawn(m: HomeModel, list: Rect)
    requires
        m.wf(),
    ensures
        ({
            let w = about_width(list.width as int);
            let room = geometry::less(list.height as int, 2);
            let first = first_item(m.order, w, room, m.selected, 0);
            &&& 0 <= first <= m.selected
            &&& item_height(m.order[m.selected], w) <= room ==> item_top(m.order, w, m.selected + 1) - item_top(
                m.order,
                w,
                first,
            ) <= room
            &&& first > 0 ==> item_top(m.order, w, m.selected + 1) - item_top(m.order, w, first - 1) > room
        }),
{
    lemma_first_item(
        m.order,
        about_width(list.width as int),
        geometry::less(list.height as int, 2),
        m.selected,
        0,
    );
}

proof fn lemma_first_item(order: Seq<Screen>, width: int, room: int, selected: int, from: int)
    requires
        0 <= from <= selected < order.len(),
    ensures
        ({
            let first = first_item(order, width, room, selected, from);
            &&& from <= first <= selected
            &&& item_height(order[selected], width) <= room ==> item_top(order, width, selected + 1) - item_top(
                order,
                width,
                first,
            ) <= room
            &&& first > from ==> item_top(order, width, selected + 1) - item_top(order, width, first - 1) > room
        }),
    decreases selected - from,
{
    if from < selected && item_top(order, width, selected + 1) - item_top(order, width, from) > room {
        lemma_first_item(order, width, room, selected, from + 1);
    }
}

proof fn lemma_item_at(order: Seq<Screen>, width: int, line: int, from: int)
    requires
        0 <= from <= order.len() <= usize::MAX,
    ensures
        match item_at(order, width, line, from) {
            Some(i) => {
                &&& from <= i < order.len()
                &&& line + item_top(order, width, from) < item_top(order, width, i + 1)
                &&& line >= 0 ==> item_top(order, width, i as int) <= line + item_top(order, width, from)
            },
            None => true,
        },
    decreases order.len() - from,
{
    if from < order.len() && line >= item_height(order[from], width) {
        lemma_item_at(order, width, line - item_height(order[from], width), from + 1);
    }
}

proof fn lemma_item_found(order: Seq<Screen>, width: int, line: int, from: int, i: int)
    requires
        0 <= from <= i < order.len() <= usize::MAX,
        line >= 0,
        item_top(order, width, i) <= line + item_top(order, width, from) < item_top(order, width, i + 1),
    ensures
        item_at(order, width, line, from) == Some(i as usize),
    decreases i - from,
{
    if from < i {
        lemma_tops_ascend(order, width, from + 1, i);
        lemma_item_found(order, width, line - item_height(order[from], width), from + 1, i);
    }
}

proof fn lemma_tops_ascend(order: Seq<Screen>, width: int, a: int, b: int)
    requires
        0 <= a <= b,
    ensures
        item_top(order, width, a) <= item_top(order, width, b),
    decreases b,
{
    if a < b {
        lemma_tops_ascend(order, width, a, b - 1);
    }
}

proof fn lemma_item_height(s: Screen, width: int)
    ensures
        item_height(s, width) <= 1000,
{
    wrap::wrapping_takes_few_lines(s.about(), width);
    text::lemma_words_count(s.about());
    reveal_strlit("");
    reveal_strlit("Browse/add/edit ~/.ssh/config hosts, tag & group servers, connect, pin, port-forward");
    reveal_strlit("Provision / remove Linux users + SSH keys on remote hosts");
    reveal_strlit("Manage DNS records across multiple Cloudflare accounts — real per-record IDs, Proxied toggle");
    reveal_strlit("Manage DNS records across multiple GoDaddy API accounts");
    reveal_strlit("Create, list, delete MySQL/MariaDB users — direct or via SSH tunnel");
    reveal_strlit("Create, list, delete PostgreSQL roles — direct or via SSH tunnel");
    reveal_strlit("Create, list, delete ClickHouse users & rotate passwords over SSH");
    reveal_strlit("SSH in and read journalctl / /var/log files — severity filters, search, live-ish auto-refresh");
    reveal_strlit("Best-practice sysctl/sysfs/ulimit tuning for desktop, DB, traffic, gaming or AI workloads — local or remote, runtime-only unless you opt into persisting");
    reveal_strlit("Detects what's on :443 (nginx/apache, version, domains), shows cert expiry, and safely swaps in a new cert + CA/chain file with a config test before reload");
}

} // verus!
