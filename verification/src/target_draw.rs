//! What the Target tab shows.
use vstd::prelude::*;

use crate::form::Row;
use crate::form;
use crate::geometry::Rect;
use crate::mouse;
use crate::picture::{
    room, room_in, room_least, room_of, Line, LineModel, Picture, PictureModel, Span, SpanModel, Tone,
};
use crate::target;
use crate::target::{
    target_form_lines, TargetActionModel, TargetField, TargetLayout, TargetLayoutModel, TargetTab, TargetTabModel,
};

verus! {

impl TargetTabModel {
    /// A field of the form in its line.
    pub open spec fn drawn_field(self, p: PictureModel, field: TargetField, at: Rect, w: int) -> PictureModel {
        match field {
            TargetField::SshHost => {
                p.input(at, "SSH Host   "@, self.ssh_host, self.field == TargetField::SshHost, false, room_least(at, 12, 6))
            },
            TargetField::SshPort => {
                p.input(at, "SSH Port   "@, self.ssh_port, self.field == TargetField::SshPort, false, room_least(at, 12, 6))
            },
            TargetField::SshUser => {
                p.input(at, "SSH User   "@, self.ssh_user, self.field == TargetField::SshUser, false, room_least(at, 12, 6))
            },
            TargetField::SshKeyPath => {
                p.input(at, "Key Path   "@, self.ssh_key_path, self.field == TargetField::SshKeyPath, false, room_least(at, 12, 6))
            },
            TargetField::SshPassword => {
                p.input(at, "Password   "@, self.ssh_password, self.field == TargetField::SshPassword, true, room_least(at, 12, 6))
            },
            _ => {
                p
            },
        }
    }

    /// A line of the form.
    pub open spec fn drawn_row(self, p: PictureModel, row: Row<TargetField>, at: Rect, w: int) -> PictureModel {
        match row {
            Row::Field(field) => {
                self.drawn_field(p, field, at, w)
            },
            Row::Buttons => {
                p.line(at, LineModel::of(SpanModel::button("Connect"@, self.field == TargetField::BtnConnect)))
            },
            Row::Help => {
                p.note(at, "Tab/Shift+Tab move  Left/Right toggle Mode  Enter activate  Esc back"@, Tone::Label)
            },
            _ => {
                p
            },
        }
    }
}

impl TargetTab {
    /// A field of the form in its line.
    pub fn draw_field(&self, p: &mut Picture, field: TargetField, at: Rect, w: usize)
        ensures
            final(p)@ == self@.drawn_field(old(p)@, field, at, w as int),
    {
        match field {
            TargetField::SshHost => {
                p.input(at, "SSH Host   ", &self.ssh_host, self.field == TargetField::SshHost, false, room_of(at, 12, 6));
            },
            TargetField::SshPort => {
                p.input(at, "SSH Port   ", &self.ssh_port, self.field == TargetField::SshPort, false, room_of(at, 12, 6));
            },
            TargetField::SshUser => {
                p.input(at, "SSH User   ", &self.ssh_user, self.field == TargetField::SshUser, false, room_of(at, 12, 6));
            },
            TargetField::SshKeyPath => {
                p.input(at, "Key Path   ", &self.ssh_key_path, self.field == TargetField::SshKeyPath, false, room_of(at, 12, 6));
            },
            TargetField::SshPassword => {
                p.input(at, "Password   ", &self.ssh_password, self.field == TargetField::SshPassword, true, room_of(at, 12, 6));
            },
            _ => {},
        }
    }

    /// A line of the form.
    pub fn draw_row(&self, p: &mut Picture, row: Row<TargetField>, at: Rect, w: usize)
        ensures
            final(p)@ == self@.drawn_row(old(p)@, row, at, w as int),
    {
        match row {
            Row::Field(field) => {
                self.draw_field(p, field, at, w);
            },
            Row::Buttons => {
                p.line(at, Line::of(Span::button("Connect", self.field == TargetField::BtnConnect)));
            },
            Row::Help => {
                p.note(at, "Tab/Shift+Tab move  Left/Right toggle Mode  Enter activate  Esc back", Tone::Label);
            },
            _ => {},
        }
    }
}

impl TargetTabModel {
    /// The first `n` lines of the form.
    pub open spec fn drawn_lines(
        self,
        p: PictureModel,
        rows: Seq<Row<TargetField>>,
        at: Seq<Rect>,
        w: int,
        n: int,
    ) -> PictureModel
        decreases n,
    {
        if n <= 0 {
            p
        } else {
            self.drawn_row(self.drawn_lines(p, rows, at, w, n - 1), rows[n - 1], at[n - 1], w)
        }
    }

    /// The form, line by line.
    pub open spec fn drawn_form(self, p: PictureModel, at: Seq<Rect>) -> PictureModel {
        let rows = target::target_form(self.is_remote);
        self.drawn_lines(p, rows, at, room_in(at[0], 12), rows.len() as int)
    }
}

impl TargetTab {
    /// The form, line by line.
    pub fn draw_form(&self, p: &mut Picture, at: &Vec<Rect>)
        requires
            at@.len() == target::target_form(self@.is_remote).len() + 1,
        ensures
            final(p)@ == self@.drawn_form(old(p)@, at@),
    {
        let rows = target_form_lines(self.is_remote);
        let w: usize = room(at[0], 12);
        let mut i: usize = 0;
        while i < rows.len()
            invariant
                i <= rows@.len(),
                at@.len() == rows@.len() + 1,
                p@ == self@.drawn_lines(old(p)@, rows@, at@, w as int, i as int),
            decreases rows@.len() - i,
        {
            self.draw_row(p, rows[i], at[i], w);
            i = i + 1;
        }
    }
}

/// A field of the form is drawn on the line where a click reaches it.
pub proof fn target_fields_are_drawn_where_they_are_hit(
    tab: TargetTabModel,
    p: PictureModel,
    at: Seq<Rect>,
    x: u16,
    y: u16,
)
    requires
        at.len() == target::target_form(tab.is_remote).len() + 1,
    ensures
        ({
            let rows = target::target_form(tab.is_remote);
            let w = room_in(at[0], 12);
            form::field_from(at, rows, x, y, 0) matches Some(f) ==> exists|i: int|
                0 <= i < rows.len() && #[trigger] rows[i] == Row::Field(f) && mouse::hits(at[i], x, y)
                    && tab.drawn_lines(p, rows, at, w, i + 1) == tab.drawn_field(
                    tab.drawn_lines(p, rows, at, w, i),
                    f,
                    at[i],
                    w,
                )
        }),
{
    let rows = target::target_form(tab.is_remote);
    let w = room_in(at[0], 12);
    if let Some(f) = form::field_from(at, rows, x, y, 0) {
        form::lemma_field_from(at, rows, x, y, 0);
        let i = choose|i: int|
            0 <= i < rows.len() && #[trigger] rows[i] == Row::Field(f) && mouse::hits(at[i], x, y);
        assert(tab.drawn_row(tab.drawn_lines(p, rows, at, w, i), rows[i], at[i], w)
            == tab.drawn_lines(p, rows, at, w, i + 1));
    }
}

impl TargetTabModel {
    /// The first line of the form: the two modes behind their label.
    pub open spec fn mode_line(self) -> LineModel {
        LineModel::of(SpanModel::label("Mode: "@)).and(SpanModel::tab("Local"@, !self.is_remote)).and(SpanModel::plain("  "@)).and(
            SpanModel::tab("Remote"@, self.is_remote),
        )
    }

    /// The form of the tab.
    pub open spec fn drawn_tab(self, p: PictureModel, l: TargetLayoutModel) -> PictureModel {
        let p = p.panel(l.tab[0], " Target "@);
        let p = p.line(l.form[0], self.mode_line());
        self.drawn_form(p, l.form)
    }
}

/// A click picks the mode that is drawn under it, and no other click picks
/// one.
pub proof fn modes_are_picked_where_they_are_drawn(tab: TargetTabModel, x: u16, y: u16, l: TargetLayoutModel)
    ensures
        tab.mode_line().spans[1] == SpanModel::tab("Local"@, !tab.is_remote),
        tab.mode_line().spans[3] == SpanModel::tab("Remote"@, tab.is_remote),
        ({
            let row = l.form[0];
            let line = tab.mode_line();
            let local = y == row.y && row.x + line.width(1) <= x < row.x + line.width(2);
            let remote = y == row.y && row.x + line.width(3) <= x < row.x + line.width(4);
            let (after, action) = tab.clicked(x, y, l);
            &&& action == TargetActionModel::ModePicked <==> local || remote
            &&& local ==> after == (TargetTabModel { is_remote: false, ..tab })
            &&& remote ==> after == (TargetTabModel { is_remote: true, ..tab })
        }),
{
    let row = l.form[0];
    let labels = target::mode_labels();
    reveal_strlit("Mode: ");
    reveal_strlit("Local");
    reveal_strlit("  ");
    reveal_strlit("Remote");
    reveal_with_fuel(LineModel::width, 5);
    reveal_with_fuel(mouse::label_start, 3);
    mouse::labels_do_not_overlap(x - 6 - row.x, labels, 0);
    mouse::labels_do_not_overlap(x - 6 - row.x, labels, 1);
    reveal_with_fuel(mouse::label_at, 3);
}

impl TargetTab {
    /// The form of the tab.
    pub fn draw_tab(&self, p: &mut Picture, l: &TargetLayout)
        requires
            l@.complete(self@.is_remote),
        ensures
            final(p)@ == self@.drawn_tab(old(p)@, l@),
    {
        p.panel(l.tab[0], " Target ");
        p.line(
            l.form[0],
            Line::of(Span::label("Mode: ")).and(Span::tab("Local", !self.is_remote)).and(Span::plain("  ")).and(
                Span::tab("Remote", self.is_remote),
            ),
        );
        self.draw_form(p, &l.form);
    }
}

} // verus!
