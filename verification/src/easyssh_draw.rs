//! What the SSH Server Manager shows.
use vstd::prelude::*;

use crate::easyssh_screen::{
    ConfirmDeleteModal, ConfirmDeleteModalModel, ConfirmField, EasySshLayout, EasySshLayoutModel, EasySshScreen,
    EasySshScreenModel, EditField, EditTagsField, EditTagsModal, EditTagsModalModel, Focus, Modal, ModalModel,
    ServerForm, ServerFormModel, Tab, TagsView,
};
use crate::file_picker;
use crate::file_picker::FilePicker;
use crate::form::line_constraints;
use crate::form;
use crate::geometry::{modal_area, split_rows, Constraint, Rect};
use crate::geometry;
use crate::model::append_to;
use crate::mouse;
use crate::mouse::block_inner;
use crate::picture::{
    no_lines, room, room_in, Frame, Line, LineModel, Picture, PictureModel, Span, SpanModel, Table, TableModel,
    Tone, Width,
};
use crate::server_list;
use crate::servers::{Server, ServerModel};
use crate::text;
use crate::text::{cat2, cat3, cat5, join, number};

verus! {

impl ServerModel {
    pub open spec fn pin_mark(self) -> Seq<char> {
        if self.pinned_at.is_some() {
            "\u{2605}"@
        } else {
            ""@
        }
    }

    pub open spec fn forward_mark(self) -> Seq<char> {
        if self.forwarding {
            "F"@
        } else {
            ""@
        }
    }
}

impl Server {
    pub fn pin_mark(&self) -> (r: &'static str)
        ensures
            r@ == self@.pin_mark(),
    {
        if self.pinned_at.is_some() {
            "\u{2605}"
        } else {
            ""
        }
    }

    pub fn forward_mark(&self) -> (r: &'static str)
        ensures
            r@ == self@.forward_mark(),
    {
        if self.forwarding {
            "F"
        } else {
            ""
        }
    }
}

/// The rows of a table of servers.
pub open spec fn server_lines(v: Seq<ServerModel>) -> Seq<LineModel>
    decreases v.len(),
{
    if v.len() == 0 {
        Seq::empty()
    } else {
        let s = v.last();
        server_lines(v.drop_last()).push(
            LineModel::of(SpanModel::text(s.pin_mark(), Tone::Warn)).and(SpanModel::plain(s.alias)).and(
                SpanModel::plain(s.effective_host()),
            ).and(SpanModel::plain(s.user)).and(SpanModel::plain(text::joined(s.tags, ", "@))).and(
                SpanModel::plain(s.last_seen_text),
            ).and(SpanModel::text(s.forward_mark(), Tone::Good))
        )
    }
}

pub fn server_rows(v: &Vec<&Server>) -> (r: Vec<Line>)
    ensures
        r.deep_view() == server_lines(v.deep_view()),
{
    let ghost all = v.deep_view();
    let mut r: Vec<Line> = no_lines();
    let mut i: usize = 0;
    assert(all.take(0) =~= Seq::empty());
    while i < v.len()
        invariant
            all == v.deep_view(),
            i <= v@.len(),
            r.deep_view() == server_lines(all.take(i as int)),
        decreases v@.len() - i,
    {
        let s = &v[i];
        assert(all.take(i + 1).drop_last() =~= all.take(i as int));
        append_to(
            &mut r,
            Line::of(Span::text(s.pin_mark(), Tone::Warn)).and(Span::plain(s.alias.as_str())).and(
                Span::plain(s.effective_host()),
            ).and(Span::plain(s.user.as_str())).and(Span::plain(join(&s.tags, ", ").as_str())).and(
                Span::plain(s.last_seen_text.as_str()),
            ).and(Span::text(s.forward_mark(), Tone::Good))
        );
        i = i + 1;
    }
    assert(all.take(all.len() as int) =~= all);
    r
}

/// The groups of servers by tag, with the size of each.
pub open spec fn tag_lines(v: Seq<(Seq<char>, int)>) -> Seq<LineModel>
    decreases v.len(),
{
    if v.len() == 0 {
        Seq::empty()
    } else {
        tag_lines(v.drop_last()).push(
            LineModel::of(SpanModel::plain("  "@ + v.last().0)).and(
                SpanModel::text("  ("@ + text::decimal(v.last().1 as nat) + ")"@, Tone::Dim),
            ),
        )
    }
}

/// The groups of servers by tag, with the size of each.
pub fn tag_rows(v: &Vec<(String, usize)>) -> (r: Vec<Line>)
    ensures
        r.deep_view() == tag_lines(server_list::census_of(v@)),
{
    let ghost all = server_list::census_of(v@);
    let mut r: Vec<Line> = no_lines();
    let mut i: usize = 0;
    assert(all.take(0) =~= Seq::empty());
    while i < v.len()
        invariant
            all == server_list::census_of(v@),
            i <= v@.len(),
            r.deep_view() == tag_lines(all.take(i as int)),
        decreases v@.len() - i,
    {
        assert(all.take(i + 1).drop_last() =~= all.take(i as int));
        assert(all.take(i + 1).last() == (v@[i as int].0@, v@[i as int].1 as int));
        let n = number(v[i].1 as u64);
        append_to(
            &mut r,
            Line::of(Span::plain(cat2("  ", v[i].0.as_str()).as_str())).and(
                Span::text(cat3("  (", n.as_str(), ")").as_str(), Tone::Dim),
            ),
        );
        i = i + 1;
    }
    assert(all.take(all.len() as int) =~= all);
    r
}

impl ServerFormModel {
    pub open spec fn drawn_on(self, p: PictureModel, area: Rect, rows: Seq<Rect>, keys_area: Rect, keys: Seq<Rect>) -> PictureModel {
        let p = p.modal(area, if self.is_add() { " Add Server "@ } else { " Edit Server "@ }, Frame::Modal);
        let w = room_in(rows[0], 16);
        let p = p.input(rows[0], "Alias:          "@, self.alias, self.field == EditField::Alias, false, w);
        let p = p.input(rows[2], "Host:           "@, self.host, self.field == EditField::Host, false, w);
        let p = p.input(rows[4], "User:           "@, self.user, self.field == EditField::User, false, w);
        let p = p.input(rows[6], "Port:           "@, self.port, self.field == EditField::Port, false, w);
        let p = p.input(rows[8], "SSH Password:   "@, self.ssh_password, self.field == EditField::SshPassword, true, w);
        let p = p.input(rows[10], "Identity Files: "@, self.identity_files, self.field == EditField::IdentityFiles, false, w);
        let p = p.note(rows[11], "Enter opens a file picker; comma-separated for multiple"@, Tone::Label);
        let p = p.input(rows[13], "Proxy Jump:     "@, self.proxy_jump, self.field == EditField::ProxyJump, false, w);
        let p = p.input(rows[15], "Local Forward:  "@, self.local_forward, self.field == EditField::LocalForward, false, w);
        let p = p.note(rows[16], "format port:host:hostport, comma-separated for multiple"@, Tone::Label);
        let p = p.choice(rows[18], "Forward Agent:  "@, self.forward_agent.shown(), self.field == EditField::ForwardAgent);
        let p = p.input(rows[20], "Tags:           "@, self.tags, self.field == EditField::Tags, false, w);
        let p = p.input(rows[22], "Advanced:       "@, self.advanced, self.field == EditField::Advanced, false, w);
        let p = p.note(rows[23], "any other ssh_config directive: Key: Value; Key2: Value2"@, Tone::Label);
        let p = p.line(
            rows[25],
            LineModel::of(SpanModel::button("Save"@, self.field == EditField::BtnSave)).button(
                "Cancel"@,
                self.field == EditField::BtnCancel,
            ),
        );
        let p = p.note(rows[27], "Tab navigate  \u{2022}  Enter activate  \u{2022}  Esc cancel"@, Tone::Label);
        match self.key_picker {
            Some(picker) => {
                picker.drawn_on(p, keys_area, keys)
            },
            None => {
                p
            },
        }
    }
}

impl ServerForm {
    pub fn draw_on(&self, p: &mut Picture, area: Rect, rows: &Vec<Rect>, keys_area: Rect, keys: &Vec<Rect>)
        requires
            rows@.len() == 29,
            keys@.len() == 2,
        ensures
            final(p)@ == self@.drawn_on(old(p)@, area, rows@, keys_area, keys@),
    {
        p.modal(area, if self.is_add() { " Add Server " } else { " Edit Server " }, Frame::Modal);
        let w: usize = room(rows[0], 16);
        p.input(rows[0], "Alias:          ", &self.alias, self.field == EditField::Alias, false, w);
        p.input(rows[2], "Host:           ", &self.host, self.field == EditField::Host, false, w);
        p.input(rows[4], "User:           ", &self.user, self.field == EditField::User, false, w);
        p.input(rows[6], "Port:           ", &self.port, self.field == EditField::Port, false, w);
        p.input(rows[8], "SSH Password:   ", &self.ssh_password, self.field == EditField::SshPassword, true, w);
        p.input(rows[10], "Identity Files: ", &self.identity_files, self.field == EditField::IdentityFiles, false, w);
        p.note(rows[11], "Enter opens a file picker; comma-separated for multiple", Tone::Label);
        p.input(rows[13], "Proxy Jump:     ", &self.proxy_jump, self.field == EditField::ProxyJump, false, w);
        p.input(rows[15], "Local Forward:  ", &self.local_forward, self.field == EditField::LocalForward, false, w);
        p.note(rows[16], "format port:host:hostport, comma-separated for multiple", Tone::Label);
        p.choice(rows[18], "Forward Agent:  ", self.forward_agent.label(), self.field == EditField::ForwardAgent);
        p.input(rows[20], "Tags:           ", &self.tags, self.field == EditField::Tags, false, w);
        p.input(rows[22], "Advanced:       ", &self.advanced, self.field == EditField::Advanced, false, w);
        p.note(rows[23], "any other ssh_config directive: Key: Value; Key2: Value2", Tone::Label);
        p.line(
            rows[25],
            Line::of(Span::button("Save", self.field == EditField::BtnSave)).button(
                "Cancel",
                self.field == EditField::BtnCancel,
            ),
        );
        p.note(rows[27], "Tab navigate  \u{2022}  Enter activate  \u{2022}  Esc cancel", Tone::Label);
        match &self.key_picker {
            Some(picker) => {
                picker.draw_on(p, keys_area, keys);
            },
            None => {},
        }
    }
}

impl EditTagsModalModel {
    pub open spec fn drawn_on(self, p: PictureModel, area: Rect, rows: Seq<Rect>) -> PictureModel {
        let p = p.modal(area, (" Edit Tags: "@ + self.alias + " "@), Frame::Modal);
        let p = p.input(rows[0], "Tags: "@, self.tags, self.field == EditTagsField::Tags, false, room_in(rows[0], 8));
        let p = p.note(rows[1], "comma-separated, e.g. VPS, prod"@, Tone::Label);
        p.line(
            rows[3],
            LineModel::of(SpanModel::button("Save"@, self.field == EditTagsField::BtnSave)).button(
                "Cancel"@,
                self.field == EditTagsField::BtnCancel,
            ),
        )
    }
}

impl EditTagsModal {
    pub fn draw_on(&self, p: &mut Picture, area: Rect, rows: &Vec<Rect>)
        requires
            rows@.len() == 5,
        ensures
            final(p)@ == self@.drawn_on(old(p)@, area, rows@),
    {
        p.modal(area, cat3(" Edit Tags: ", self.alias.as_str(), " ").as_str(), Frame::Modal);
        p.input(rows[0], "Tags: ", &self.tags, self.field == EditTagsField::Tags, false, room(rows[0], 8));
        p.note(rows[1], "comma-separated, e.g. VPS, prod", Tone::Label);
        p.line(
            rows[3],
            Line::of(Span::button("Save", self.field == EditTagsField::BtnSave)).button(
                "Cancel",
                self.field == EditTagsField::BtnCancel,
            ),
        );
    }
}

impl ConfirmDeleteModalModel {
    pub open spec fn drawn_on(self, p: PictureModel, area: Rect, rows: Seq<Rect>) -> PictureModel {
        let p = p.modal(area, " Delete Server "@, Frame::Danger);
        let p = p.wrapped(
            rows[0],
            ("Delete server '"@ + self.alias + "'? This removes its Host block from ~/.ssh/config."@),
            Tone::Plain,
        );
        p.line(
            rows[2],
            LineModel::of(SpanModel::button("Delete"@, self.field == ConfirmField::BtnDelete)).button(
                "Cancel"@,
                self.field == ConfirmField::BtnCancel,
            ),
        )
    }
}

impl ConfirmDeleteModal {
    pub fn draw_on(&self, p: &mut Picture, area: Rect, rows: &Vec<Rect>)
        requires
            rows@.len() == 4,
        ensures
            final(p)@ == self@.drawn_on(old(p)@, area, rows@),
    {
        p.modal(area, " Delete Server ", Frame::Danger);
        p.wrapped(
            rows[0],
            cat3("Delete server '", self.alias.as_str(), "'? This removes its Host block from ~/.ssh/config.").as_str(),
            Tone::Plain,
        );
        p.line(
            rows[2],
            Line::of(Span::button("Delete", self.field == ConfirmField::BtnDelete)).button(
                "Cancel",
                self.field == ConfirmField::BtnCancel,
            ),
        );
    }
}

impl EasySshScreenModel {
    pub open spec fn drawn_server_table(self, p: PictureModel, rows: Seq<ServerModel>, area: Rect, title: Seq<char>, focused: bool) -> PictureModel {
        p.table(
            area,
            TableModel::new(title, focused).column(""@, Width::Fixed(2)).column("Alias"@, Width::Fixed(16)).column(
                "Host"@,
                Width::Fixed(20),
            ).column("User"@, Width::Fixed(10)).column("Tags"@, Width::Fixed(18)).column(
                "Last SSH"@,
                Width::Fixed(12),
            ).column("Fwd"@, Width::Fixed(4)).rows(server_lines(rows), self.selected_row),
        )
    }

    pub open spec fn drawn_servers(self, p: PictureModel, l: EasySshLayoutModel, search: Seq<Rect>) -> PictureModel {
        let p = p.panel(l.servers[0], " Search "@);
        let p = p.line(
            search[0],
            LineModel::of(SpanModel::label("Search (/): "@)).and(
                SpanModel::field(self.search, self.focus == Focus::Search, false, room_in(search[0], 40)),
            ).and(SpanModel::label(("   Sort: "@ + self.sort_mode.text()))),
        );
        let rows = self.server_rows();
        let n = text::decimal(rows.len() as nat);
        let p = self.drawn_server_table(p, rows, l.servers[1], (" Servers ("@ + n + ") "@), self.focus == Focus::List);
        let p = p.wrapped(
            l.servers[2],
            "Enter connect  a add  e edit  d delete  p pin  t tags  c copy  g ping  f fwd start  x fwd stop  r refresh  s/S sort  / search  F2 tag groups"@,
            Tone::Label,
        );
        p.history(l.servers[3], self.log)
    }

    pub open spec fn drawn_tags_list(self, p: PictureModel, l: EasySshLayoutModel) -> PictureModel {
        let tags = self.groups();
        let n = text::decimal(tags.len() as nat);
        let p = p.titled_list(
            l.tag_list[0],
            (" Tags ("@ + n + ") \u{2014} group servers by tag, like folders "@),
            tag_lines(tags),
            self.tags_selected_row,
        );
        p.note(l.tag_list[1], "\u{2191}\u{2193} select  Enter open group  Esc back"@, Tone::Label)
    }

    pub open spec fn drawn_tags_filtered(self, p: PictureModel, l: EasySshLayoutModel) -> PictureModel {
        let rows = self.group_rows(self.tag_filter);
        let label = if self.tag_filter.len() == 0 { "(untagged)"@ } else { self.tag_filter };
        let n = text::decimal(rows.len() as nat);
        let p = self.drawn_server_table(p, rows, l.tag_rows[0], (" Group: "@ + label + " ("@ + n + ") "@), true);
        let p = p.wrapped(
            l.tag_rows[1],
            "Enter connect  e edit  d delete  p pin  t tags  c copy  g ping  f fwd start  x fwd stop  Esc back to tags"@,
            Tone::Label,
        );
        p.history(l.tag_rows[2], self.log)
    }

    /// The whole screen, drawn into its rows; `search`, `form` and `keys` are
    /// the rows of the search box, of the server form and of its file picker.
    pub open spec fn drawn_on(self, p: PictureModel, area: Rect, l: EasySshLayoutModel, search: Seq<Rect>, form: Seq<Rect>, keys: Seq<Rect>) -> PictureModel {
        let p = p.line(
            l.screen[0],
            LineModel::of(SpanModel::tab("F1 Servers"@, self.tab == Tab::Servers)).and(SpanModel::plain("  "@)).and(
                SpanModel::tab("F2 Tags"@, self.tab == Tab::Tags),
            ).and(SpanModel::plain("  "@)).and(SpanModel::text("Esc back  Ctrl+C quit"@, Tone::Dim)),
        );
        let p = match self.tab {
            Tab::Servers => {
                self.drawn_servers(p, l, search)
            },
            Tab::Tags => {
                match self.tags_view {
                    TagsView::List => {
                        self.drawn_tags_list(p, l)
                    },
                    TagsView::Filtered => {
                        self.drawn_tags_filtered(p, l)
                    },
                }
            },
        };
        match self.modal {
            Some(ModalModel::Add(m)) => {
                m.drawn_on(p, geometry::modal_rect(76, 32, 4, 2, area), form, geometry::modal_rect(84, 24, 4, 2, area), keys)
            },
            Some(ModalModel::Edit(m)) => {
                m.drawn_on(p, geometry::modal_rect(76, 32, 4, 2, area), form, geometry::modal_rect(84, 24, 4, 2, area), keys)
            },
            Some(ModalModel::EditTags(m)) => {
                m.drawn_on(p, geometry::modal_rect(60, 9, 4, 2, area), l.tags_modal)
            },
            Some(ModalModel::ConfirmDelete(m)) => {
                m.drawn_on(p, geometry::modal_rect(60, 7, 4, 2, area), l.delete_modal)
            },
            None => {
                p
            },
        }
    }
}

impl EasySshScreen {
    pub fn draw_server_table(&self, p: &mut Picture, rows: &Vec<&Server>, area: Rect, title: &str, focused: bool)
        ensures
            final(p)@ == self@.drawn_server_table(old(p)@, rows.deep_view(), area, title@, focused),
    {
        p.table(
            area,
            Table::new(title, focused).column("", Width::Fixed(2)).column("Alias", Width::Fixed(16)).column(
                "Host",
                Width::Fixed(20),
            ).column("User", Width::Fixed(10)).column("Tags", Width::Fixed(18)).column(
                "Last SSH",
                Width::Fixed(12),
            ).column("Fwd", Width::Fixed(4)).rows(server_rows(rows), self.selected_row),
        );
    }

    pub fn draw_servers(&self, p: &mut Picture, l: &EasySshLayout, search: &Vec<Rect>)
        requires
            l@.complete(),
            search@.len() == 1,
        ensures
            final(p)@ == self@.drawn_servers(old(p)@, l@, search@),
    {
        p.panel(l.servers[0], " Search ");
        p.line(
            search[0],
            Line::of(Span::label("Search (/): ")).and(
                Span::field(&self.search, self.focus == Focus::Search, false, room(search[0], 40)),
            ).and(Span::label(cat2("   Sort: ", self.sort_mode.label()).as_str())),
        );
        let rows = self.rows_for_servers_tab();
        let n = number(rows.len() as u64);
        self.draw_server_table(p, &rows, l.servers[1], cat3(" Servers (", n.as_str(), ") ").as_str(), self.focus == Focus::List);
        p.wrapped(
            l.servers[2],
            "Enter connect  a add  e edit  d delete  p pin  t tags  c copy  g ping  f fwd start  x fwd stop  r refresh  s/S sort  / search  F2 tag groups",
            Tone::Label,
        );
        p.history(l.servers[3], &self.log);
    }

    pub fn draw_tags_list(&self, p: &mut Picture, l: &EasySshLayout)
        requires
            l@.complete(),
        ensures
            final(p)@ == self@.drawn_tags_list(old(p)@, l@),
    {
        let tags = self.distinct_tags();
        let n = number(tags.len() as u64);
        p.titled_list(
            l.tag_list[0],
            cat3(" Tags (", n.as_str(), ") \u{2014} group servers by tag, like folders ").as_str(),
            tag_rows(&tags),
            self.tags_selected_row,
        );
        p.note(l.tag_list[1], "\u{2191}\u{2193} select  Enter open group  Esc back", Tone::Label);
    }

    pub fn draw_tags_filtered(&self, p: &mut Picture, l: &EasySshLayout)
        requires
            l@.complete(),
        ensures
            final(p)@ == self@.drawn_tags_filtered(old(p)@, l@),
    {
        let rows = self.rows_for_tag(self.tag_filter.as_str());
        let label = if self.tag_filter.as_str().is_empty() { "(untagged)" } else { self.tag_filter.as_str() };
        let n = number(rows.len() as u64);
        self.draw_server_table(p, &rows, l.tag_rows[0], cat5(" Group: ", label, " (", n.as_str(), ") ").as_str(), true);
        p.wrapped(
            l.tag_rows[1],
            "Enter connect  e edit  d delete  p pin  t tags  c copy  g ping  f fwd start  x fwd stop  Esc back to tags",
            Tone::Label,
        );
        p.history(l.tag_rows[2], &self.log);
    }

    /// The whole screen, drawn into its rows; `search`, `form` and `keys` are
    /// the rows of the search box, of the server form and of its file picker.
    pub fn draw_on(&self, p: &mut Picture, area: Rect, l: &EasySshLayout, search: &Vec<Rect>, form: &Vec<Rect>, keys: &Vec<Rect>)
        requires
            l@.complete(),
            search@.len() == 1,
            form@.len() == 29,
            keys@.len() == 2,
        ensures
            final(p)@ == self@.drawn_on(old(p)@, area, l@, search@, form@, keys@),
    {
        p.line(
            l.screen[0],
            Line::of(Span::tab("F1 Servers", self.tab == Tab::Servers)).and(Span::plain("  ")).and(
                Span::tab("F2 Tags", self.tab == Tab::Tags),
            ).and(Span::plain("  ")).and(Span::text("Esc back  Ctrl+C quit", Tone::Dim)),
        );
        match self.tab {
            Tab::Servers => {
                self.draw_servers(p, l, search);
            },
            Tab::Tags => {
                match self.tags_view {
                    TagsView::List => {
                        self.draw_tags_list(p, l);
                    },
                    TagsView::Filtered => {
                        self.draw_tags_filtered(p, l);
                    },
                }
            },
        }
        match &self.modal {
            Some(Modal::Add(m)) => {
                m.draw_on(p, modal_area(76, 32, 4, 2, area), form, modal_area(84, 24, 4, 2, area), keys);
            },
            Some(Modal::Edit(m)) => {
                m.draw_on(p, modal_area(76, 32, 4, 2, area), form, modal_area(84, 24, 4, 2, area), keys);
            },
            Some(Modal::EditTags(m)) => {
                m.draw_on(p, modal_area(60, 9, 4, 2, area), &l.tags_modal);
            },
            Some(Modal::ConfirmDelete(m)) => {
                m.draw_on(p, modal_area(60, 7, 4, 2, area), &l.delete_modal);
            },
            None => {},
        }
    }
}

/// The row of the search box.
pub open spec fn search_row(l: EasySshLayoutModel, rows: Seq<Rect>) -> bool {
    geometry::stacked(mouse::inner(l.servers[0]), 1, seq![Constraint::Length(1)], rows)
}

/// The rows of the server form.
pub open spec fn server_form_rows(area: Rect, rows: Seq<Rect>) -> bool {
    geometry::stacked(mouse::inner(geometry::modal_rect(76, 32, 4, 2, area)), 1, form::lines(28), rows)
}

/// The rows of the file picker over the server form.
pub open spec fn key_rows(area: Rect, rows: Seq<Rect>) -> bool {
    geometry::stacked(mouse::inner(file_picker::picker_area(area)), 1, file_picker::picker_rows(), rows)
}

impl EasySshScreenModel {
    /// Whether `p` is a picture of the screen in `area`: the screen drawn into
    /// rows that `area` can be split into.
    pub open spec fn shows(self, area: Rect, p: PictureModel) -> bool {
        exists|l: EasySshLayoutModel, search: Seq<Rect>, form: Seq<Rect>, keys: Seq<Rect>|
            #![trigger l.of(area), search_row(l, search), server_form_rows(area, form), key_rows(area, keys)]
            {
                &&& l.of(area)
                &&& search_row(l, search)
                &&& server_form_rows(area, form)
                &&& key_rows(area, keys)
                &&& p == self.drawn_on(PictureModel::empty(), area, l, search, form, keys)
            }
    }
}

impl EasySshScreen {
    /// The picture of the screen in `area`.
    pub fn draw(&self, area: Rect) -> (r: Picture)
        ensures
            self@.shows(area, r@),
    {
        let l = self.layout(area);
        let cs = vec![Constraint::Length(1)];
        assert(cs@ =~= seq![Constraint::Length(1)]);
        let search = split_rows(block_inner(l.servers[0]), 1, &cs);
        let lines = line_constraints(28);
        let form = split_rows(block_inner(modal_area(76, 32, 4, 2, area)), 1, &lines);
        let keys = FilePicker::rows(area);
        let mut p = Picture::empty();
        self.draw_on(&mut p, area, &l, &search, &form, &keys);
        assert(search_row(l@, search@));
        assert(server_form_rows(area, form@));
        assert(key_rows(area, keys@));
        p
    }
}

} // verus!
