//! "Create Database" modal: a required name plus two engine-specific optional
//! fields. The modal only collects input; the screen that opened it creates
//! the database when it reports `CreateDbAction::Submit`.
use vstd::prelude::*;

use crate::event::{KeyCode, KeyEvent, MouseEvent};
use crate::geometry::{bordered_inner, modal_area, split_rows, Constraint, Rect};
use crate::geometry;
use crate::mouse;
use crate::widgets::{Input, InputModel};
use crate::picture::{pad, padded, room, room_in, Frame, Line, LineModel, Picture, PictureModel, Span, SpanModel, Tone};
use crate::text::cat3;

verus! {

#[derive(Clone, Copy, PartialEq, Eq, Structural, Debug)]
pub enum CreateDbField {
    Name,
    Opt1,
    Opt2,
    BtnCreate,
    BtnCancel,
}

#[derive(Clone, Copy, PartialEq, Eq, Structural, Debug)]
pub enum CreateDbAction {
    Nothing,
    Close,
    Submit,
}

/// Label, hint and default value of one optional field.
pub struct OptSpec {
    pub label: &'static str,
    pub hint: &'static str,
    pub default: &'static str,
}

/// The texts of one optional field.
#[verifier::ext_equal]
pub struct OptModel {
    pub label: Seq<char>,
    pub hint: Seq<char>,
    pub default: Seq<char>,
}

impl View for OptSpec {
    type V = OptModel;

    open spec fn view(&self) -> OptModel {
        OptModel { label: self.label@, hint: self.hint@, default: self.default@ }
    }
}

pub struct CreateDbModal {
    pub title: &'static str,
    pub specs: [OptSpec; 2],
    pub name: Input,
    pub opt1: Input,
    pub opt2: Input,
    pub field: CreateDbField,
}

#[verifier::ext_equal]
pub struct CreateDbModel {
    pub title: Seq<char>,
    /// The texts of the two optional fields.
    pub specs: (OptModel, OptModel),
    pub name: InputModel,
    pub opt1: InputModel,
    pub opt2: InputModel,
    pub field: CreateDbField,
}

impl View for CreateDbModal {
    type V = CreateDbModel;

    open spec fn view(&self) -> CreateDbModel {
        CreateDbModel {
            title: self.title@,
            specs: (self.specs[0]@, self.specs[1]@),
            name: self.name@,
            opt1: self.opt1@,
            opt2: self.opt2@,
            field: self.field,
        }
    }
}

impl CreateDbField {
    pub open spec fn next(self) -> CreateDbField {
        match self {
            CreateDbField::Name => CreateDbField::Opt1,
            CreateDbField::Opt1 => CreateDbField::Opt2,
            CreateDbField::Opt2 => CreateDbField::BtnCreate,
            CreateDbField::BtnCreate => CreateDbField::BtnCancel,
            CreateDbField::BtnCancel => CreateDbField::Name,
        }
    }

    pub open spec fn prev(self) -> CreateDbField {
        match self {
            CreateDbField::Name => CreateDbField::BtnCancel,
            CreateDbField::Opt1 => CreateDbField::Name,
            CreateDbField::Opt2 => CreateDbField::Opt1,
            CreateDbField::BtnCreate => CreateDbField::Opt2,
            CreateDbField::BtnCancel => CreateDbField::BtnCreate,
        }
    }
}

impl CreateDbModel {
    pub open spec fn focus(self, field: CreateDbField) -> CreateDbModel {
        CreateDbModel { field, ..self }
    }

    /// The input that has the focus, edited by a key; nothing where a button has it.
    pub open spec fn edit(self, key: KeyCode) -> CreateDbModel {
        match self.field {
            CreateDbField::Name => CreateDbModel { name: self.name.edit(key), ..self },
            CreateDbField::Opt1 => CreateDbModel { opt1: self.opt1.edit(key), ..self },
            CreateDbField::Opt2 => CreateDbModel { opt2: self.opt2.edit(key), ..self },
            _ => self,
        }
    }

    /// The modal after a key, and what the screen has to do.
    pub open spec fn on_key(self, key: KeyCode) -> (CreateDbModel, CreateDbAction) {
        match key {
            KeyCode::Esc => (self, CreateDbAction::Close),
            KeyCode::Tab | KeyCode::Down => (self.focus(self.field.next()), CreateDbAction::Nothing),
            KeyCode::BackTab | KeyCode::Up => (self.focus(self.field.prev()), CreateDbAction::Nothing),
            KeyCode::Enter => match self.field {
                CreateDbField::BtnCreate => (self, CreateDbAction::Submit),
                CreateDbField::BtnCancel => (self, CreateDbAction::Close),
                _ => (self.focus(self.field.next()), CreateDbAction::Nothing),
            },
            _ => (self.edit(key), CreateDbAction::Nothing),
        }
    }

    /// The modal after a mouse event, and what the screen has to do; `rows`
    /// are the rows it is drawn into.
    pub open spec fn on_mouse(self, me: MouseEvent, rows: Seq<Rect>) -> (CreateDbModel, CreateDbAction) {
        match mouse::clicked(me) {
            None => (self, CreateDbAction::Nothing),
            Some((x, y)) => if mouse::hits(rows[0], x, y) {
                (self.focus(CreateDbField::Name), CreateDbAction::Nothing)
            } else if mouse::hits(rows[2], x, y) {
                (self.focus(CreateDbField::Opt1), CreateDbAction::Nothing)
            } else if mouse::hits(rows[5], x, y) {
                (self.focus(CreateDbField::Opt2), CreateDbAction::Nothing)
            } else {
                match mouse::button_hit(x, y, rows[9], seq!["Create"@, "Cancel"@]) {
                    Some(i) => (self, if i == 0 {
                        CreateDbAction::Submit
                    } else {
                        CreateDbAction::Close
                    }),
                    None => (self, CreateDbAction::Nothing),
                }
            },
        }
    }
}

/// The area of the modal on a screen.
pub open spec fn area_of(area: Rect) -> Rect {
    geometry::modal_rect(70, 16, 4, 2, area)
}

/// The rows of the modal: 0 name, 2 and 5 the optional fields, 3 and 6 their
/// hints, 9 the buttons, 11 the help line.
pub open spec fn row_list() -> Seq<Constraint> {
    Seq::new(12, |i: int| Constraint::Length(1)).push(Constraint::Min(0))
}

/// The area of the modal on a screen.
pub fn modal_rect(area: Rect) -> (r: Rect)
    ensures
        r == area_of(area),
{
    modal_area(70, 16, 4, 2, area)
}

/// The rows of the modal on a screen.
pub fn layout(area: Rect) -> (rows: Vec<Rect>)
    ensures
        geometry::stacked(area_of(area).bordered(), 1, row_list(), rows@),
        rows@.len() == 13,
{
    let inner = bordered_inner(modal_rect(area));
    let mut cs: Vec<Constraint> = Vec::new();
    let mut i: usize = 0;
    while i < 12
        invariant
            i <= 12,
            cs@ =~= Seq::new(i as nat, |k: int| Constraint::Length(1)),
        decreases 12 - i,
    {
        cs.push(Constraint::Length(1));
        i = i + 1;
    }
    cs.push(Constraint::Min(0));
    assert(cs@ =~= row_list());
    split_rows(inner, 1, &cs)
}

impl CreateDbModal {
    pub fn new(title: &'static str, specs: [OptSpec; 2]) -> (r: CreateDbModal)
        ensures
            r@ == (CreateDbModel {
                title: title@,
                specs: (specs[0]@, specs[1]@),
                name: InputModel::empty(),
                opt1: InputModel::of(specs[0].default@),
                opt2: InputModel::of(specs[1].default@),
                field: CreateDbField::Name,
            }),
    {
        let opt1 = Input::new(specs[0].default);
        let opt2 = Input::new(specs[1].default);
        CreateDbModal { title, specs, name: Input::default(), opt1, opt2, field: CreateDbField::Name }
    }

    fn next_field(&mut self)
        ensures
            final(self)@ == old(self)@.focus(old(self)@.field.next()),
    {
        self.field = match self.field {
            CreateDbField::Name => CreateDbField::Opt1,
            CreateDbField::Opt1 => CreateDbField::Opt2,
            CreateDbField::Opt2 => CreateDbField::BtnCreate,
            CreateDbField::BtnCreate => CreateDbField::BtnCancel,
            CreateDbField::BtnCancel => CreateDbField::Name,
        };
    }

    fn prev_field(&mut self)
        ensures
            final(self)@ == old(self)@.focus(old(self)@.field.prev()),
    {
        self.field = match self.field {
            CreateDbField::Name => CreateDbField::BtnCancel,
            CreateDbField::Opt1 => CreateDbField::Name,
            CreateDbField::Opt2 => CreateDbField::Opt1,
            CreateDbField::BtnCreate => CreateDbField::Opt2,
            CreateDbField::BtnCancel => CreateDbField::BtnCreate,
        };
    }

    /// Edits the input that has the focus.
    fn edit(&mut self, key: KeyCode)
        ensures
            final(self)@ == old(self)@.edit(key),
    {
        match self.field {
            CreateDbField::Name => self.name.edit(key),
            CreateDbField::Opt1 => self.opt1.edit(key),
            CreateDbField::Opt2 => self.opt2.edit(key),
            _ => {},
        }
    }

    /// Trimmed values: `(name, opt1, opt2)`.
    pub fn values(&self) -> (r: (String, String, String))
        ensures
            r.0@ == self@.name.trimmed(),
            r.1@ == self@.opt1.trimmed(),
            r.2@ == self@.opt2.trimmed(),
    {
        (self.name.trimmed(), self.opt1.trimmed(), self.opt2.trimmed())
    }

    pub fn handle_key(&mut self, key: KeyEvent) -> (r: CreateDbAction)
        ensures
            (final(self)@, r) == old(self)@.on_key(key.code),
    {
        match key.code {
            KeyCode::Esc => return CreateDbAction::Close,
            KeyCode::Tab | KeyCode::Down => self.next_field(),
            KeyCode::BackTab | KeyCode::Up => self.prev_field(),
            KeyCode::Enter => match self.field {
                CreateDbField::BtnCreate => return CreateDbAction::Submit,
                CreateDbField::BtnCancel => return CreateDbAction::Close,
                _ => self.next_field(),
            },
            code => self.edit(code),
        }
        CreateDbAction::Nothing
    }

    /// Clicks on the rows that the modal is drawn into focus a field or press a button.
    pub fn mouse_on(&mut self, me: &MouseEvent, rows: &Vec<Rect>) -> (r: CreateDbAction)
        requires
            rows@.len() == 13,
        ensures
            (final(self)@, r) == old(self)@.on_mouse(*me, rows@),
    {
        let Some((x, y)) = mouse::left_click(me) else {
            return CreateDbAction::Nothing;
        };
        if mouse::in_rect(rows[0], x, y) {
            self.field = CreateDbField::Name;
            return CreateDbAction::Nothing;
        }
        if mouse::in_rect(rows[2], x, y) {
            self.field = CreateDbField::Opt1;
            return CreateDbAction::Nothing;
        }
        if mouse::in_rect(rows[5], x, y) {
            self.field = CreateDbField::Opt2;
            return CreateDbAction::Nothing;
        }
        let labels = ["Create", "Cancel"];
        assert(labels.deep_view() =~= seq!["Create"@, "Cancel"@]);
        match mouse::button_row_hit(x, y, rows[9], &labels) {
            Some(i) => if i == 0 {
                CreateDbAction::Submit
            } else {
                CreateDbAction::Close
            },
            None => CreateDbAction::Nothing,
        }
    }

    /// Clicks focus a field or press Create/Cancel. `area` is the whole screen
    /// area that the modal is drawn in.
    pub fn handle_mouse(&mut self, me: &MouseEvent, area: Rect) -> (r: CreateDbAction)
        ensures
            exists|rows: Seq<Rect>| #[trigger]
                geometry::stacked(area_of(area).bordered(), 1, row_list(), rows) && (final(self)@, r)
                    == old(self)@.on_mouse(*me, rows),
            mouse::clicked(*me) is None ==> final(self)@ == old(self)@ && r == CreateDbAction::Nothing,
    {
        let rows = layout(area);
        self.mouse_on(me, &rows)
    }
}

// -------------------------------------------------------------------- laws

/// Going back undoes going forward, and the other way round.
pub proof fn prev_undoes_next(f: CreateDbField)
    ensures
        f.next().prev() == f,
        f.prev().next() == f,
{
}

/// Five steps forward visit every field and come back.
pub proof fn next_cycles_through_all(f: CreateDbField)
    ensures
        f.next().next().next().next().next() == f,
        f.next() != f,
        f.next().next() != f,
        f.next().next().next() != f,
        f.next().next().next().next() != f,
{
}

/// No key but Enter on the Create button creates a database, and no key
/// changes more than the focus or the focused input.
pub proof fn submit_only_from_create(m: CreateDbModel, key: KeyCode)
    ensures
        m.on_key(key).1 == CreateDbAction::Submit <==> key == KeyCode::Enter && m.field
            == CreateDbField::BtnCreate,
        m.on_key(key).1 == CreateDbAction::Close <==> key == KeyCode::Esc || (key == KeyCode::Enter && m.field
            == CreateDbField::BtnCancel),
        m.field != CreateDbField::Name ==> m.on_key(key).0.name == m.name,
        m.field != CreateDbField::Opt1 ==> m.on_key(key).0.opt1 == m.opt1,
        m.field != CreateDbField::Opt2 ==> m.on_key(key).0.opt2 == m.opt2,
{
}

// ----------------------------------------------------------------- drawing

/// The width of the labels.
pub const LABEL_W: u16 = 12;

impl CreateDbModel {
    /// The modal drawn into its area and rows.
    pub open spec fn drawn_on(self, p: PictureModel, area: Rect, rows: Seq<Rect>) -> PictureModel {
        let (one, two) = self.specs;
        let w = room_in(rows[0], LABEL_W as int);
        let p = p.modal(area, " "@ + self.title + " "@, Frame::Modal);
        let p = p.input(rows[0], padded("Name:"@, LABEL_W as int), self.name, self.field == CreateDbField::Name, false, w);
        let p = p.input(rows[2], padded(one.label, LABEL_W as int), self.opt1, self.field == CreateDbField::Opt1, false, w);
        let p = p.note(rows[3], one.hint, Tone::Label);
        let p = p.input(rows[5], padded(two.label, LABEL_W as int), self.opt2, self.field == CreateDbField::Opt2, false, w);
        let p = p.note(rows[6], two.hint, Tone::Label);
        let p = p.line(
            rows[9],
            LineModel::of(SpanModel::button("Create"@, self.field == CreateDbField::BtnCreate)).button(
                "Cancel"@,
                self.field == CreateDbField::BtnCancel,
            ),
        );
        p.note(rows[11], "Tab navigate  \u{2022}  Enter activate  \u{2022}  Esc cancel"@, Tone::Label)
    }
}

/// Draws a modal on a screen that fills `area`.
pub fn draw(p: &mut Picture, m: &CreateDbModal, area: Rect)
    ensures
        exists|rows: Seq<Rect>| #[trigger]
            geometry::stacked(area_of(area).bordered(), 1, row_list(), rows) && final(p)@ == m@.drawn_on(
                old(p)@,
                area_of(area),
                rows,
            ),
{
    let rows = layout(area);
    let w: usize = room(rows[0], LABEL_W);
    let one = &m.specs[0];
    let two = &m.specs[1];
    p.modal(modal_rect(area), cat3(" ", m.title, " ").as_str(), Frame::Modal);
    p.input(rows[0], pad("Name:", LABEL_W as usize).as_str(), &m.name, m.field == CreateDbField::Name, false, w);
    p.input(rows[2], pad(one.label, LABEL_W as usize).as_str(), &m.opt1, m.field == CreateDbField::Opt1, false, w);
    p.note(rows[3], one.hint, Tone::Label);
    p.input(rows[5], pad(two.label, LABEL_W as usize).as_str(), &m.opt2, m.field == CreateDbField::Opt2, false, w);
    p.note(rows[6], two.hint, Tone::Label);
    p.line(
        rows[9],
        Line::of(Span::button("Create", m.field == CreateDbField::BtnCreate)).button(
            "Cancel",
            m.field == CreateDbField::BtnCancel,
        ),
    );
    p.note(rows[11], "Tab navigate  \u{2022}  Enter activate  \u{2022}  Esc cancel", Tone::Label);
}

} // verus!
