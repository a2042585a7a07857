//! What a screen shows, as a list of things to draw.
use vstd::prelude::*;

use crate::geometry;
use crate::geometry::Rect;
use crate::log::{Log, LogModel};
use crate::model::{append_to, Copyable};
use crate::mouse;
use crate::text::{chars_of, owned};
use crate::widgets::{Input, InputModel};

verus! {

/// How a text is coloured.
#[derive(Clone, Copy, PartialEq, Eq, Structural, Debug)]
pub enum Tone {
    Plain,
    Strong,
    Label,
    Dim,
    Border,
    Title,
    Accent,
    AccentStrong,
    Good,
    Warn,
    Bad,
    BadStrong,
    /// The highlighted row of a list.
    Focus,
}

/// The frame round a panel.
#[derive(Clone, Copy, PartialEq, Eq, Structural, Debug)]
pub enum Frame {
    Panel,
    Modal,
    Warning,
    Danger,
    Success,
}

/// What becomes of lines that are too long for their area.
#[derive(Clone, Copy, PartialEq, Eq, Structural, Debug)]
pub enum Wrap {
    /// They are cut off.
    Clip,
    /// They go on in the next line, with the white space they have.
    Keep,
    /// They go on in the next line, without white space at its start.
    Trim,
}

/// The width of a table column.
#[derive(Clone, Copy, PartialEq, Eq, Structural, Debug)]
pub enum Width {
    Fixed(u16),
    Rest(u16),
}

/// One piece of a line.
pub enum Span {
    Text { text: String, tone: Tone },
    /// The visible part of an input, `width` columns wide.
    Field { input: Input, focused: bool, secret: bool, width: usize },
    Button { label: String, focused: bool },
    Tab { label: String, active: bool },
}

pub enum SpanModel {
    Text { text: Seq<char>, tone: Tone },
    Field { input: InputModel, focused: bool, secret: bool, width: int },
    Button { label: Seq<char>, focused: bool },
    Tab { label: Seq<char>, active: bool },
}

impl View for Span {
    type V = SpanModel;

    open spec fn view(&self) -> SpanModel {
        match self {
            Span::Text { text, tone } => SpanModel::Text { text: text@, tone: *tone },
            Span::Field { input, focused, secret, width } => SpanModel::Field { input: input@, focused: *focused, secret: *secret, width: *width as int },
            Span::Button { label, focused } => SpanModel::Button { label: label@, focused: *focused },
            Span::Tab { label, active } => SpanModel::Tab { label: label@, active: *active },
        }
    }
}

impl DeepView for Span {
    type V = SpanModel;

    open spec fn deep_view(&self) -> SpanModel {
        self@
    }
}

pub struct Line {
    pub spans: Vec<Span>,
}

pub struct LineModel {
    pub spans: Seq<SpanModel>,
}

impl View for Line {
    type V = LineModel;

    open spec fn view(&self) -> LineModel {
        LineModel {
            spans: self.spans.deep_view(),
        }
    }
}

impl DeepView for Line {
    type V = LineModel;

    open spec fn deep_view(&self) -> LineModel {
        self@
    }
}

pub struct Column {
    pub title: String,
    pub width: Width,
}

pub struct ColumnModel {
    pub title: Seq<char>,
    pub width: Width,
}

impl View for Column {
    type V = ColumnModel;

    open spec fn view(&self) -> ColumnModel {
        ColumnModel {
            title: self.title@,
            width: self.width,
        }
    }
}

impl DeepView for Column {
    type V = ColumnModel;

    open spec fn deep_view(&self) -> ColumnModel {
        self@
    }
}

pub struct Table {
    pub title: String,
    pub columns: Vec<Column>,
    pub rows: Vec<Line>,
    pub selected: Option<usize>,
    pub focused: bool,
}

pub struct TableModel {
    pub title: Seq<char>,
    pub columns: Seq<ColumnModel>,
    pub rows: Seq<LineModel>,
    pub selected: Option<usize>,
    pub focused: bool,
}

impl View for Table {
    type V = TableModel;

    open spec fn view(&self) -> TableModel {
        TableModel {
            title: self.title@,
            columns: self.columns.deep_view(),
            rows: self.rows.deep_view(),
            selected: self.selected,
            focused: self.focused,
        }
    }
}

impl DeepView for Table {
    type V = TableModel;

    open spec fn deep_view(&self) -> TableModel {
        self@
    }
}

/// One thing to draw.
pub enum Op {
    Clear { area: Rect },
    Panel { area: Rect, title: String, frame: Frame },
    Line { area: Rect, line: Line },
    Centered { area: Rect, lines: Vec<Line> },
    Paragraph { area: Rect, lines: Vec<Line>, scroll: u16, wrap: Wrap },
    Table { area: Rect, table: Table },
    /// A list; with a title it stands in a panel, and a mark shows the highlight.
    List { area: Rect, title: Option<String>, items: Vec<Line>, selected: Option<usize> },
    Dropdown { area: Rect, items: Vec<String>, selected: usize },
    Menu { area: Rect, title: String, items: Vec<Vec<Line>>, selected: usize },
    History { area: Rect, lines: Vec<(bool, String)>, scroll: u16 },
    Message { area: Rect, title: String, text: String },
}

pub enum OpModel {
    Clear { area: Rect },
    Panel { area: Rect, title: Seq<char>, frame: Frame },
    Line { area: Rect, line: LineModel },
    Centered { area: Rect, lines: Seq<LineModel> },
    Paragraph { area: Rect, lines: Seq<LineModel>, scroll: u16, wrap: Wrap },
    Table { area: Rect, table: TableModel },
    List { area: Rect, title: Option<Seq<char>>, items: Seq<LineModel>, selected: Option<usize> },
    Dropdown { area: Rect, items: Seq<Seq<char>>, selected: int },
    Menu { area: Rect, title: Seq<char>, items: Seq<Seq<LineModel>>, selected: int },
    History { area: Rect, lines: Seq<(bool, Seq<char>)>, scroll: u16 },
    Message { area: Rect, title: Seq<char>, text: Seq<char> },
}

impl View for Op {
    type V = OpModel;

    open spec fn view(&self) -> OpModel {
        match self {
            Op::Clear { area } => OpModel::Clear { area: *area },
            Op::Panel { area, title, frame } => OpModel::Panel { area: *area, title: title@, frame: *frame },
            Op::Line { area, line } => OpModel::Line { area: *area, line: line@ },
            Op::Centered { area, lines } => OpModel::Centered { area: *area, lines: lines.deep_view() },
            Op::Paragraph { area, lines, scroll, wrap } => OpModel::Paragraph { area: *area, lines: lines.deep_view(), scroll: *scroll, wrap: *wrap },
            Op::Table { area, table } => OpModel::Table { area: *area, table: table@ },
            Op::List { area, title, items, selected } => OpModel::List { area: *area, title: title.deep_view(), items: items.deep_view(), selected: *selected },
            Op::Dropdown { area, items, selected } => OpModel::Dropdown { area: *area, items: items.deep_view(), selected: *selected as int },
            Op::Menu { area, title, items, selected } => OpModel::Menu { area: *area, title: title@, items: items.deep_view(), selected: *selected as int },
            Op::History { area, lines, scroll } => OpModel::History { area: *area, lines: lines.deep_view(), scroll: *scroll },
            Op::Message { area, title, text } => OpModel::Message { area: *area, title: title@, text: text@ },
        }
    }
}

impl DeepView for Op {
    type V = OpModel;

    open spec fn deep_view(&self) -> OpModel {
        self@
    }
}

pub struct Picture {
    pub ops: Vec<Op>,
}

pub struct PictureModel {
    pub ops: Seq<OpModel>,
}

impl View for Picture {
    type V = PictureModel;

    open spec fn view(&self) -> PictureModel {
        PictureModel {
            ops: self.ops.deep_view(),
        }
    }
}

impl DeepView for Picture {
    type V = PictureModel;

    open spec fn deep_view(&self) -> PictureModel {
        self@
    }
}

impl SpanModel {
    pub open spec fn text(text: Seq<char>, tone: Tone) -> SpanModel {
        SpanModel::Text { text, tone }
    }

    pub open spec fn label(text: Seq<char>) -> SpanModel {
        SpanModel::Text { text, tone: Tone::Label }
    }

    pub open spec fn plain(text: Seq<char>) -> SpanModel {
        SpanModel::Text { text, tone: Tone::Plain }
    }

    pub open spec fn field(input: InputModel, focused: bool, secret: bool, width: int) -> SpanModel {
        SpanModel::Field { input, focused, secret, width }
    }

    pub open spec fn button(label: Seq<char>, focused: bool) -> SpanModel {
        SpanModel::Button { label, focused }
    }

    pub open spec fn tab(label: Seq<char>, active: bool) -> SpanModel {
        SpanModel::Tab { label, active }
    }

    /// The columns that a piece takes: a button stands between brackets.
    pub open spec fn width(self) -> int {
        match self {
            SpanModel::Text { text, tone } => text.len() as int,
            SpanModel::Field { input, focused, secret, width } => width,
            SpanModel::Button { label, focused } => mouse::bracketed(label).len() as int,
            SpanModel::Tab { label, active } => label.len() as int,
        }
    }
}

impl Span {
    pub fn text(text: &str, tone: Tone) -> (r: Span)
        ensures
            r@ == SpanModel::text(text@, tone),
    {
        Span::Text { text: owned(text), tone }
    }

    pub fn label(text: &str) -> (r: Span)
        ensures
            r@ == SpanModel::label(text@),
    {
        Span::Text { text: owned(text), tone: Tone::Label }
    }

    pub fn plain(text: &str) -> (r: Span)
        ensures
            r@ == SpanModel::plain(text@),
    {
        Span::Text { text: owned(text), tone: Tone::Plain }
    }

    pub fn field(input: &Input, focused: bool, secret: bool, width: usize) -> (r: Span)
        ensures
            r@ == SpanModel::field(input@, focused, secret, width as int),
    {
        Span::Field { input: input.copy(), focused, secret, width }
    }

    pub fn button(label: &str, focused: bool) -> (r: Span)
        ensures
            r@ == SpanModel::button(label@, focused),
    {
        Span::Button { label: owned(label), focused }
    }

    pub fn tab(label: &str, active: bool) -> (r: Span)
        ensures
            r@ == SpanModel::tab(label@, active),
    {
        Span::Tab { label: owned(label), active }
    }
}

impl LineModel {
    pub open spec fn of(span: SpanModel) -> LineModel {
        LineModel { spans: seq![span] }
    }

    pub open spec fn empty() -> LineModel {
        LineModel { spans: Seq::empty() }
    }

    pub open spec fn and(self, span: SpanModel) -> LineModel {
        LineModel { spans: self.spans.push(span) }
    }

    /// A button two columns right of what is there.
    pub open spec fn button(self, label: Seq<char>, focused: bool) -> LineModel {
        self.and(SpanModel::plain("  "@)).and(SpanModel::button(label, focused))
    }

    /// The columns of the first `n` pieces.
    pub open spec fn width(self, n: int) -> int
        decreases n,
    {
        if n <= 0 {
            0
        } else {
            self.width(n - 1) + self.spans[n - 1].width()
        }
    }
}

impl Line {
    pub fn of(span: Span) -> (r: Line)
        ensures
            r@ == LineModel::of(span@),
    {
        let mut spans: Vec<Span> = Vec::new();
        append_to(&mut spans, span);
        assert(spans.deep_view() =~= seq![spans@[0]@]);
        Line { spans }
    }

    pub fn empty() -> (r: Line)
        ensures
            r@ == LineModel::empty(),
    {
        let spans: Vec<Span> = Vec::new();
        assert(spans.deep_view() =~= Seq::empty());
        Line { spans }
    }

    pub fn and(self, span: Span) -> (r: Line)
        ensures
            r@ == self@.and(span@),
    {
        let mut spans = self.spans;
        append_to(&mut spans, span);
        Line { spans }
    }

    /// A button two columns right of what is there.
    pub fn button(self, label: &str, focused: bool) -> (r: Line)
        ensures
            r@ == self@.button(label@, focused),
    {
        self.and(Span::plain("  ")).and(Span::button(label, focused))
    }
}

impl TableModel {
    pub open spec fn new(title: Seq<char>, focused: bool) -> TableModel {
        TableModel { title, columns: Seq::empty(), rows: Seq::empty(), selected: None, focused }
    }

    pub open spec fn column(self, title: Seq<char>, width: Width) -> TableModel {
        TableModel { columns: self.columns.push(ColumnModel { title, width }), ..self }
    }

    /// The rows, with one of them highlighted: the selected one, or the last
    /// where there are fewer.
    pub open spec fn rows(self, rows: Seq<LineModel>, selected: int) -> TableModel {
        TableModel { rows, selected: highlighted(selected, rows.len() as int), ..self }
    }
}

/// The highlighted one of `n` rows.
pub open spec fn highlighted(selected: int, n: int) -> Option<usize> {
    if n == 0 {
        None
    } else {
        Some(geometry::min_int(selected, n - 1) as usize)
    }
}

/// The highlighted one of `n` rows.
pub fn highlight(selected: usize, n: usize) -> (r: Option<usize>)
    ensures
        r == highlighted(selected as int, n as int),
{
    if n == 0 {
        None
    } else if selected < n {
        Some(selected)
    } else {
        Some(n - 1)
    }
}

impl Table {
    pub fn new(title: &str, focused: bool) -> (r: Table)
        ensures
            r@ == TableModel::new(title@, focused),
    {
        let r = Table { title: owned(title), columns: Vec::new(), rows: Vec::new(), selected: None, focused };
        assert(r@.columns =~= Seq::empty());
        assert(r@.rows =~= Seq::empty());
        r
    }

    pub fn column(self, title: &str, width: Width) -> (r: Table)
        ensures
            r@ == self@.column(title@, width),
    {
        let mut columns = self.columns;
        append_to(&mut columns, Column { title: owned(title), width });
        Table { title: self.title, columns, rows: self.rows, selected: self.selected, focused: self.focused }
    }

    pub fn rows(self, rows: Vec<Line>, selected: usize) -> (r: Table)
        ensures
            r@ == self@.rows(rows.deep_view(), selected as int),
    {
        let selected = highlight(selected, rows.len());
        assert(rows.deep_view().len() == rows@.len());
        Table { title: self.title, columns: self.columns, rows, selected, focused: self.focused }
    }
}

/// The columns that are left in a row after a label.
pub open spec fn room_in(row: Rect, label: int) -> int {
    geometry::less(row.width as int, label)
}

/// The columns that are left in a row after a label.
pub fn room(row: Rect, label: u16) -> (r: usize)
    ensures
        r == room_in(row, label as int),
{
    row.width.saturating_sub(label) as usize
}

/// The columns that are left in a row after a label, at least `least`.
pub open spec fn room_least(row: Rect, label: int, least: int) -> int {
    geometry::max_int(room_in(row, label), least)
}

/// The columns that are left in a row after a label, at least `least`.
pub fn room_of(row: Rect, label: u16, least: usize) -> (r: usize)
    ensures
        r == room_least(row, label as int, least as int),
{
    let w: usize = room(row, label);
    if w < least {
        least
    } else {
        w
    }
}

/// A text filled up with spaces to `width` columns.
pub open spec fn padded(s: Seq<char>, width: int) -> Seq<char>
    decreases width - s.len(),
{
    if s.len() >= width {
        s
    } else {
        padded(s.push(' '), width)
    }
}

pub fn pad(s: &str, width: usize) -> (r: String)
    ensures
        r@ == padded(s@, width as int),
{
    let mut r = owned(s);
    let mut n: usize = chars_of(s).len();
    while n < width
        invariant
            n == r@.len(),
            padded(r@, width as int) == padded(s@, width as int),
        decreases width - n,
    {
        r.push(' ');
        n = n + 1;
    }
    r
}

/// The longest of some texts.
pub open spec fn longest(items: Seq<Seq<char>>) -> int
    decreases items.len(),
{
    if items.len() == 0 {
        0
    } else {
        geometry::max_int(longest(items.drop_last()), items.last().len() as int)
    }
}

fn longest_of(items: &Vec<String>) -> (r: usize)
    ensures
        r == longest(items.deep_view()),
{
    let ghost all = items.deep_view();
    let mut r: usize = 0;
    let mut i: usize = 0;
    assert(all.take(0) =~= Seq::empty());
    while i < items.len()
        invariant
            all == items.deep_view(),
            i <= items@.len(),
            r == longest(all.take(i as int)),
        decreases items@.len() - i,
    {
        let n: usize = chars_of(items[i].as_str()).len();
        assert(all.take(i + 1).drop_last() =~= all.take(i as int));
        if n > r {
            r = n;
        }
        i = i + 1;
    }
    assert(all.take(all.len() as int) =~= all);
    r
}

/// Where the choices of an input drop down: under it, `x_off` columns from
/// the left end of its row, at most ten lines high, as wide as the longest
/// choice with four columns to spare, at least `least` and at most what is
/// left of the screen.
pub open spec fn dropdown_area(items: Seq<Seq<char>>, anchor: Rect, x_off: u16, least: u16, most: u16, bounds: Rect) -> Rect {
    let x = geometry::min_int(anchor.x + x_off, u16::MAX as int);
    let wanted = geometry::max_int(geometry::min_int(longest(items) + 4, most as int), least as int);
    Rect {
        x: x as u16,
        y: geometry::min_int(anchor.y + 1, u16::MAX as int) as u16,
        width: geometry::min_int(wanted, geometry::less(bounds.width as int, x)) as u16,
        height: geometry::min_int(items.len() as int + 2, 10) as u16,
    }
}

impl PictureModel {
    pub open spec fn empty() -> PictureModel {
        PictureModel { ops: Seq::empty() }
    }

    pub open spec fn op(self, op: OpModel) -> PictureModel {
        PictureModel { ops: self.ops.push(op) }
    }

    pub open spec fn clear(self, area: Rect) -> PictureModel {
        self.op(OpModel::Clear { area })
    }

    pub open spec fn panel(self, area: Rect, title: Seq<char>) -> PictureModel {
        self.op(OpModel::Panel { area, title, frame: Frame::Panel })
    }

    /// A panel over whatever is there.
    pub open spec fn modal(self, area: Rect, title: Seq<char>, frame: Frame) -> PictureModel {
        self.clear(area).op(OpModel::Panel { area, title, frame })
    }

    pub open spec fn line(self, area: Rect, line: LineModel) -> PictureModel {
        self.op(OpModel::Line { area, line })
    }

    /// A line of one text.
    pub open spec fn note(self, area: Rect, text: Seq<char>, tone: Tone) -> PictureModel {
        self.line(area, LineModel::of(SpanModel::text(text, tone)))
    }

    /// A label with an input behind it.
    pub open spec fn input(self, area: Rect, label: Seq<char>, input: InputModel, focused: bool, secret: bool, width: int) -> PictureModel {
        self.line(area, LineModel::of(SpanModel::label(label)).and(SpanModel::field(input, focused, secret, width)))
    }

    /// A label with a choice behind it that the arrow keys change.
    pub open spec fn choice(self, area: Rect, label: Seq<char>, value: Seq<char>, focused: bool) -> PictureModel {
        self.line(
            area,
            LineModel::of(SpanModel::label(label)).and(SpanModel::button(value, focused)).and(
                SpanModel::label("  (\u{2190}/\u{2192} to change)"@),
            ),
        )
    }

    pub open spec fn centered(self, area: Rect, lines: Seq<LineModel>) -> PictureModel {
        self.op(OpModel::Centered { area, lines })
    }

    pub open spec fn paragraph(self, area: Rect, lines: Seq<LineModel>, scroll: u16, wrap: Wrap) -> PictureModel {
        self.op(OpModel::Paragraph { area, lines, scroll, wrap })
    }

    /// A text that goes on in the next line where it is too long.
    pub open spec fn wrapped(self, area: Rect, text: Seq<char>, tone: Tone) -> PictureModel {
        self.paragraph(area, seq![LineModel::of(SpanModel::text(text, tone))], 0, Wrap::Trim)
    }

    pub open spec fn table(self, area: Rect, table: TableModel) -> PictureModel {
        self.op(OpModel::Table { area, table })
    }

    pub open spec fn list(self, area: Rect, items: Seq<LineModel>, selected: int) -> PictureModel {
        self.op(OpModel::List { area, title: None, items, selected: highlighted(selected, items.len() as int) })
    }

    /// A list in a panel.
    pub open spec fn titled_list(self, area: Rect, title: Seq<char>, items: Seq<LineModel>, selected: int) -> PictureModel {
        self.op(
            OpModel::List { area, title: Some(title), items, selected: highlighted(selected, items.len() as int) },
        )
    }

    /// The choices of an input, unless there are none.
    pub open spec fn dropdown(self, items: Seq<Seq<char>>, selected: int, anchor: Rect, x_off: u16, least: u16, most: u16, bounds: Rect) -> PictureModel {
        if items.len() == 0 {
            self
        } else {
            let area = dropdown_area(items, anchor, x_off, least, most, bounds);
            self.clear(area).op(OpModel::Dropdown { area, items, selected })
        }
    }

    pub open spec fn menu(self, area: Rect, title: Seq<char>, items: Seq<Seq<LineModel>>, selected: int) -> PictureModel {
        self.op(OpModel::Menu { area, title, items, selected })
    }

    pub open spec fn history(self, area: Rect, log: LogModel) -> PictureModel {
        self.op(OpModel::History { area, lines: log.history, scroll: log.scroll })
    }

    /// The message that waits to be dismissed, over the whole screen.
    pub open spec fn alert(self, area: Rect, log: LogModel) -> PictureModel {
        match log.alert {
            Some((title, text)) => self.op(OpModel::Message { area, title, text }),
            None => self,
        }
    }
}

impl Picture {
    pub fn empty() -> (r: Picture)
        ensures
            r@ == PictureModel::empty(),
    {
        let ops: Vec<Op> = Vec::new();
        assert(ops.deep_view() =~= Seq::empty());
        Picture { ops }
    }

    fn op(&mut self, op: Op)
        ensures
            final(self)@ == old(self)@.op(op@),
    {
        append_to(&mut self.ops, op);
    }

    pub fn clear(&mut self, area: Rect)
        ensures
            final(self)@ == old(self)@.clear(area),
    {
        self.op(Op::Clear { area });
    }

    pub fn panel(&mut self, area: Rect, title: &str)
        ensures
            final(self)@ == old(self)@.panel(area, title@),
    {
        self.op(Op::Panel { area, title: owned(title), frame: Frame::Panel });
    }

    /// A panel over whatever is there.
    pub fn modal(&mut self, area: Rect, title: &str, frame: Frame)
        ensures
            final(self)@ == old(self)@.modal(area, title@, frame),
    {
        self.clear(area);
        self.op(Op::Panel { area, title: owned(title), frame });
    }

    pub fn line(&mut self, area: Rect, line: Line)
        ensures
            final(self)@ == old(self)@.line(area, line@),
    {
        self.op(Op::Line { area, line });
    }

    /// A line of one text.
    pub fn note(&mut self, area: Rect, text: &str, tone: Tone)
        ensures
            final(self)@ == old(self)@.note(area, text@, tone),
    {
        self.line(area, Line::of(Span::text(text, tone)));
    }

    /// A label with an input behind it.
    pub fn input(&mut self, area: Rect, label: &str, input: &Input, focused: bool, secret: bool, width: usize)
        ensures
            final(self)@ == old(self)@.input(area, label@, input@, focused, secret, width as int),
    {
        self.line(area, Line::of(Span::label(label)).and(Span::field(input, focused, secret, width)));
    }

    /// A label with a choice behind it that the arrow keys change.
    pub fn choice(&mut self, area: Rect, label: &str, value: &str, focused: bool)
        ensures
            final(self)@ == old(self)@.choice(area, label@, value@, focused),
    {
        self.line(
            area,
            Line::of(Span::label(label)).and(Span::button(value, focused)).and(
                Span::label("  (\u{2190}/\u{2192} to change)"),
            ),
        );
    }

    pub fn centered(&mut self, area: Rect, lines: Vec<Line>)
        ensures
            final(self)@ == old(self)@.centered(area, lines.deep_view()),
    {
        self.op(Op::Centered { area, lines });
    }

    pub fn paragraph(&mut self, area: Rect, lines: Vec<Line>, scroll: u16, wrap: Wrap)
        ensures
            final(self)@ == old(self)@.paragraph(area, lines.deep_view(), scroll, wrap),
    {
        self.op(Op::Paragraph { area, lines, scroll, wrap });
    }

    /// A text that goes on in the next line where it is too long.
    pub fn wrapped(&mut self, area: Rect, text: &str, tone: Tone)
        ensures
            final(self)@ == old(self)@.wrapped(area, text@, tone),
    {
        let mut lines: Vec<Line> = no_lines();
        append_to(&mut lines, Line::of(Span::text(text, tone)));
        assert(lines.deep_view() =~= seq![LineModel::of(SpanModel::text(text@, tone))]);
        self.paragraph(area, lines, 0, Wrap::Trim);
    }

    pub fn table(&mut self, area: Rect, table: Table)
        ensures
            final(self)@ == old(self)@.table(area, table@),
    {
        self.op(Op::Table { area, table });
    }

    pub fn list(&mut self, area: Rect, items: Vec<Line>, selected: usize)
        ensures
            final(self)@ == old(self)@.list(area, items.deep_view(), selected as int),
    {
        let selected = highlight(selected, items.len());
        assert(items.deep_view().len() == items@.len());
        self.op(Op::List { area, title: None, items, selected });
    }

    /// A list in a panel.
    pub fn titled_list(&mut self, area: Rect, title: &str, items: Vec<Line>, selected: usize)
        ensures
            final(self)@ == old(self)@.titled_list(area, title@, items.deep_view(), selected as int),
    {
        let selected = highlight(selected, items.len());
        assert(items.deep_view().len() == items@.len());
        self.op(Op::List { area, title: Some(owned(title)), items, selected });
    }

    /// The choices of an input, unless there are none.
    pub fn dropdown(
        &mut self,
        items: Vec<String>,
        selected: usize,
        anchor: Rect,
        x_off: u16,
        least: u16,
        most: u16,
        bounds: Rect,
    )
        requires
            least <= most,
        ensures
            final(self)@ == old(self)@.dropdown(
                items.deep_view(),
                selected as int,
                anchor,
                x_off,
                least,
                most,
                bounds,
            ),
    {
        assert(items.deep_view().len() == items@.len());
        if items.len() == 0 {
            return ;
        }
        let x: u16 = anchor.x.saturating_add(x_off);
        let long: usize = longest_of(&items);
        let wanted: u16 = if long >= 65531 || long + 4 >= most as usize {
            most
        } else if long + 4 < least as usize {
            least
        } else {
            (long + 4) as u16
        };
        let left: u16 = bounds.width.saturating_sub(x);
        let height: u16 = if items.len() >= 8 {
            10
        } else {
            items.len() as u16 + 2
        };
        let area = Rect {
            x,
            y: anchor.y.saturating_add(1),
            width: if wanted <= left {
                wanted
            } else {
                left
            },
            height,
        };
        self.clear(area);
        self.op(Op::Dropdown { area, items, selected });
    }

    pub fn menu(&mut self, area: Rect, title: &str, items: Vec<Vec<Line>>, selected: usize)
        ensures
            final(self)@ == old(self)@.menu(area, title@, items.deep_view(), selected as int),
    {
        self.op(Op::Menu { area, title: owned(title), items, selected });
    }

    pub fn history(&mut self, area: Rect, log: &Log)
        ensures
            final(self)@ == old(self)@.history(area, log@),
    {
        self.op(Op::History { area, lines: log.history.copy(), scroll: log.scroll });
    }

    /// The message that waits to be dismissed, over the whole screen.
    pub fn alert(&mut self, area: Rect, log: &Log)
        ensures
            final(self)@ == old(self)@.alert(area, log@),
    {
        if let Some((title, text)) = &log.alert {
            self.op(Op::Message { area, title: title.clone(), text: text.clone() });
        }
    }
}

/// The lines of a text, in plain colour.
pub open spec fn plain_lines(v: Seq<Seq<char>>) -> Seq<LineModel>
    decreases v.len(),
{
    if v.len() == 0 {
        Seq::empty()
    } else {
        let s = v.last();
        plain_lines(v.drop_last()).push(
            LineModel::of(SpanModel::plain(s))
        )
    }
}

pub fn plain_rows(v: &Vec<String>) -> (r: Vec<Line>)
    ensures
        r.deep_view() == plain_lines(v.deep_view()),
{
    let ghost all = v.deep_view();
    let mut r: Vec<Line> = no_lines();
    let mut i: usize = 0;
    assert(all.take(0) =~= Seq::empty());
    while i < v.len()
        invariant
            all == v.deep_view(),
            i <= v@.len(),
            r.deep_view() == plain_lines(all.take(i as int)),
        decreases v@.len() - i,
    {
        let s = &v[i];
        assert(all.take(i + 1).drop_last() =~= all.take(i as int));
        append_to(
            &mut r,
            Line::of(Span::plain(s.as_str()))
        );
        i = i + 1;
    }
    assert(all.take(all.len() as int) =~= all);
    r
}

/// Two runs of lines, one after the other.
pub fn chain(a: Vec<Line>, b: Vec<Line>) -> (r: Vec<Line>)
    ensures
        r.deep_view() == a.deep_view() + b.deep_view(),
{
    let mut a = a;
    let mut b = b;
    a.append(&mut b);
    a
}

/// Lines with one more at the end.
pub fn with_line(lines: Vec<Line>, line: Line) -> (r: Vec<Line>)
    ensures
        r.deep_view() == lines.deep_view().push(line@),
{
    let mut lines = lines;
    append_to(&mut lines, line);
    lines
}

/// No lines at all, to add lines to.
pub fn no_lines() -> (r: Vec<Line>)
    ensures
        r.deep_view() == Seq::<LineModel>::empty(),
{
    let r: Vec<Line> = Vec::new();
    assert(r.deep_view() =~= Seq::empty());
    r
}

// -------------------------------------------------------------------- laws

/// A row of buttons, drawn two columns apart.
pub open spec fn button_row(labels: Seq<Seq<char>>, focused: spec_fn(int) -> bool) -> LineModel
    decreases labels.len(),
{
    if labels.len() == 0 {
        LineModel::empty()
    } else if labels.len() == 1 {
        LineModel::of(SpanModel::button(labels[0], focused(0)))
    } else {
        button_row(labels.drop_last(), focused).button(labels.last(), focused(labels.len() - 1))
    }
}

/// A click hits the button that is drawn under it, and only that one.
pub proof fn buttons_are_hit_where_they_are_drawn(
    labels: Seq<Seq<char>>,
    focused: spec_fn(int) -> bool,
    row: Rect,
    x: u16,
    y: u16,
    i: int,
)
    requires
        0 <= i < labels.len() <= usize::MAX,
    ensures
        button_row(labels, focused).spans[2 * i] == SpanModel::button(labels[i], focused(i)),
        mouse::button_hit(x, y, row, labels) == Some(i as usize) <==> {
            let line = button_row(labels, focused);
            y == row.y && row.x + line.width(2 * i) <= x < row.x + line.width(2 * i + 1)
        },
{
    lemma_button_row(labels, focused, i);
    let all = mouse::bracketed_all(labels);
    if x >= row.x {
        mouse::labels_do_not_overlap(x - row.x, all, i);
    } else {
        mouse::lemma_label_start_prefix(all, all.len() as int, i);
    }
}

/// The place of a button in its row.
proof fn lemma_button_row(labels: Seq<Seq<char>>, focused: spec_fn(int) -> bool, i: int)
    requires
        0 <= i < labels.len(),
    ensures
        button_row(labels, focused).spans.len() == 2 * labels.len() - 1,
        button_row(labels, focused).spans[2 * i] == SpanModel::button(labels[i], focused(i)),
        button_row(labels, focused).width(2 * i) == mouse::label_start(mouse::bracketed_all(labels), i),
        button_row(labels, focused).width(2 * i + 1) == button_row(labels, focused).width(2 * i)
            + mouse::bracketed(labels[i]).len(),
    decreases labels.len(),
{
    let row = button_row(labels, focused);
    let all = mouse::bracketed_all(labels);
    reveal_strlit("  ");
    if labels.len() > 1 {
        let front = labels.drop_last();
        let part = button_row(front, focused);
        let n = front.len() as int;
        assert(all.take(n) =~= mouse::bracketed_all(front));
        lemma_button_row(front, focused, if i < n {
            i
        } else {
            n - 1
        });
        if i < n {
            mouse::lemma_label_start_prefix(all, n, i);
            lemma_width_prefix(part, row, 2 * i);
        } else {
            mouse::lemma_label_start_prefix(all, n, n - 1);
            lemma_width_prefix(part, row, 2 * n - 1);
            assert(row.spans[2 * n - 1] == SpanModel::plain("  "@));
            assert(row.width(2 * n) == row.width(2 * n - 1) + row.spans[2 * n - 1].width());
            assert(all[n - 1] == mouse::bracketed(labels[n - 1]));
        }
    }
    assert(row.width(2 * i + 1) == row.width(2 * i) + row.spans[2 * i].width());
}

proof fn lemma_width_prefix(a: LineModel, b: LineModel, n: int)
    requires
        n <= a.spans.len() <= b.spans.len(),
        forall|i: int| 0 <= i < a.spans.len() ==> a.spans[i] == #[trigger] b.spans[i],
    ensures
        a.width(n) == b.width(n),
    decreases n,
{
    if n > 0 {
        lemma_width_prefix(a, b, n - 1);
    }
}

} // verus!
