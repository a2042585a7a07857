//! What the ClickHouse User Manager shows.
use vstd::prelude::*;

use crate::clickhouse_screen;
use crate::clickhouse_screen::{
    conn_form_rows, filtered_connections, profile_str, AddField, AddUserModal, AddUserModalModel,
    ClickHouseLayout, ClickHouseLayoutModel, ClickHouseScreen, ClickHouseScreenModel, ConnField, Connection,
    ConnectionModel, ConnectionsTab, ConnectionsTabModel, EditField, EditUserModal, EditUserModalModel, Tab,
    UserInfo, UserInfoModel, UserModal, UserModalModel, UsersField,
};
use crate::form::{line_constraints, Row};
use crate::form;
use crate::geometry::{modal_area, split_rows, Rect};
use crate::geometry;
use crate::model::append_to;
use crate::mouse;
use crate::picture::{
    no_lines, room, room_in, Frame, Line, LineModel, Picture, PictureModel, Span, SpanModel, Table, TableModel,
    Tone, Width,
};
use crate::text;
use crate::text::{cat2, cat3, join, number, owned};

verus! {

impl ConnectionModel {
    /// Where a profile leads to.
    pub open spec fn target(self) -> Seq<char> {
        if self.is_sql {
            (self.host + ":"@ + self.port)
        } else {
            (self.ssh_host + " (ssh)"@)
        }
    }

    /// Whether a profile goes through a tunnel, where that is a question.
    pub open spec fn tunnel(self) -> Seq<char> {
        if !self.is_sql {
            "-"@
        } else if self.use_tunnel {
            "yes"@
        } else {
            "no"@
        }
    }

    pub open spec fn mode_name(self) -> Seq<char> {
        if self.is_sql {
            "SQL"@
        } else {
            "SSH XML"@
        }
    }
}

impl Connection {
    /// Where a profile leads to.
    pub fn target(&self) -> (r: String)
        ensures
            r@ == self@.target(),
    {
        if self.is_sql {
            cat3(self.host.as_str(), ":", self.port.as_str())
        } else {
            cat2(self.ssh_host.as_str(), " (ssh)")
        }
    }

    /// Whether a profile goes through a tunnel, where that is a question.
    pub fn tunnel(&self) -> (r: &'static str)
        ensures
            r@ == self@.tunnel(),
    {
        if !self.is_sql {
            "-"
        } else if self.use_tunnel {
            "yes"
        } else {
            "no"
        }
    }

    pub fn mode_name(&self) -> (r: &'static str)
        ensures
            r@ == self@.mode_name(),
    {
        if self.is_sql {
            "SQL"
        } else {
            "SSH XML"
        }
    }
}

/// The rows of the table of profiles.
pub open spec fn connection_lines(v: Seq<ConnectionModel>) -> Seq<LineModel>
    decreases v.len(),
{
    if v.len() == 0 {
        Seq::empty()
    } else {
        let c = v.last();
        connection_lines(v.drop_last()).push(
            LineModel::of(SpanModel::plain(c.label)).and(SpanModel::plain(c.mode_name())).and(
                SpanModel::plain(c.target()),
            ).and(SpanModel::plain(c.tunnel()))
        )
    }
}

pub fn connection_rows(v: &Vec<Connection>) -> (r: Vec<Line>)
    ensures
        r.deep_view() == connection_lines(v.deep_view()),
{
    let ghost all = v.deep_view();
    let mut r: Vec<Line> = no_lines();
    let mut i: usize = 0;
    assert(all.take(0) =~= Seq::empty());
    while i < v.len()
        invariant
            all == v.deep_view(),
            i <= v@.len(),
            r.deep_view() == connection_lines(all.take(i as int)),
        decreases v@.len() - i,
    {
        let c = &v[i];
        assert(all.take(i + 1).drop_last() =~= all.take(i as int));
        append_to(
            &mut r,
            Line::of(Span::plain(c.label.as_str())).and(Span::plain(c.mode_name())).and(
                Span::plain(c.target().as_str()),
            ).and(Span::plain(c.tunnel()))
        );
        i = i + 1;
    }
    assert(all.take(all.len() as int) =~= all);
    r
}

impl UserInfoModel {
    /// Where a user may log in from.
    pub open spec fn sources(self) -> Seq<char> {
        if self.ips.len() == 0 {
            "localhost only"@
        } else {
            text::joined(self.ips, ", "@)
        }
    }
}

impl UserInfo {
    /// Where a user may log in from.
    pub fn sources(&self) -> (r: String)
        ensures
            r@ == self@.sources(),
    {
        if self.ips.len() == 0 {
            owned("localhost only")
        } else {
            join(&self.ips, ", ")
        }
    }
}

/// The rows of the table of users.
pub open spec fn user_lines(v: Seq<UserInfoModel>) -> Seq<LineModel>
    decreases v.len(),
{
    if v.len() == 0 {
        Seq::empty()
    } else {
        let u = v.last();
        user_lines(v.drop_last()).push(
            LineModel::of(SpanModel::plain(u.name)).and(SpanModel::plain(u.profile)).and(
                SpanModel::plain(u.sources()),
            )
        )
    }
}

pub fn user_rows(v: &Vec<UserInfo>) -> (r: Vec<Line>)
    ensures
        r.deep_view() == user_lines(v.deep_view()),
{
    let ghost all = v.deep_view();
    let mut r: Vec<Line> = no_lines();
    let mut i: usize = 0;
    assert(all.take(0) =~= Seq::empty());
    while i < v.len()
        invariant
            all == v.deep_view(),
            i <= v@.len(),
            r.deep_view() == user_lines(all.take(i as int)),
        decreases v@.len() - i,
    {
        let u = &v[i];
        assert(all.take(i + 1).drop_last() =~= all.take(i as int));
        append_to(
            &mut r,
            Line::of(Span::plain(u.name.as_str())).and(Span::plain(u.profile.as_str())).and(
                Span::plain(u.sources().as_str()),
            )
        );
        i = i + 1;
    }
    assert(all.take(all.len() as int) =~= all);
    r
}

impl ConnectionsTabModel {
    /// A field of the form in its line.
    pub open spec fn drawn_field(self, p: PictureModel, field: ConnField, at: Rect, w: int, tag: Seq<char>) -> PictureModel {
        match field {
            ConnField::Label => {
                p.input(at, "Label:          "@, self.label, self.field == ConnField::Label, false, w)
            },
            ConnField::Mode => {
                p.choice(at, "Mode:           "@, if self.mode_is_sql { "SQL"@ } else { "SSH (XML)"@ }, self.field == ConnField::Mode)
            },
            ConnField::Host => {
                p.input(at, "Host:           "@, self.host, self.field == ConnField::Host, false, w)
            },
            ConnField::Port => {
                p.input(at, "Port:           "@, self.port, self.field == ConnField::Port, false, w)
            },
            ConnField::DbUser => {
                p.input(at, "DB User:        "@, self.db_user, self.field == ConnField::DbUser, false, w)
            },
            ConnField::DbPassword => {
                p.input(at, "DB Password:    "@, self.db_password, self.field == ConnField::DbPassword, true, w)
            },
            ConnField::UseTunnel => {
                p.choice(at, "Use SSH Tunnel: "@, if self.use_tunnel { "Yes"@ } else { "No"@ }, self.field == ConnField::UseTunnel)
            },
            ConnField::SshHost => {
                p.input(at, "SSH Host:       "@, self.ssh_host, self.field == ConnField::SshHost, false, w)
            },
            ConnField::SshPort => {
                p.input(at, "SSH Port:       "@, self.ssh_port, self.field == ConnField::SshPort, false, w)
            },
            ConnField::SshUser => {
                p.input(at, "SSH User:       "@, self.ssh_user, self.field == ConnField::SshUser, false, w)
            },
            ConnField::SshKeyPath => {
                p.input(at, "SSH Key Path:   "@, self.ssh_key_path, self.field == ConnField::SshKeyPath, false, w)
            },
            ConnField::SshPassword => {
                p.input(at, "SSH Password:   "@, self.ssh_password, self.field == ConnField::SshPassword, true, w)
            },
            ConnField::TagMode => {
                p.choice(at, "XML root tag:   "@, tag, self.field == ConnField::TagMode)
            },
            _ => {
                p
            },
        }
    }

    /// A line of the form.
    pub open spec fn drawn_row(self, p: PictureModel, row: Row<ConnField>, at: Rect, w: int, tag: Seq<char>) -> PictureModel {
        match row {
            Row::Field(field) => {
                self.drawn_field(p, field, at, w, tag)
            },
            Row::Hint => {
                p.note(at, "needs CREATE/ALTER/DROP USER privileges — e.g. the default admin user"@, Tone::Warn)
            },
            Row::Buttons => {
                p.line(
                    at,
                    LineModel::of(SpanModel::button("Save"@, self.field == ConnField::BtnSave)).button(
                        "New"@,
                        self.field == ConnField::BtnNew,
                    ).button("Delete"@, self.field == ConnField::BtnDelete).button(
                        "Test Connection"@,
                        self.field == ConnField::BtnTest,
                    ),
                )
            },
            Row::Help => {
                p.note(
                    at,
                    "\u{2191}\u{2193} select row  Enter on SSH Host picks a known host  Tab navigate  Esc back"@,
                    Tone::Label,
                )
            },
            Row::Gap => {
                p
            },
        }
    }
}

impl ConnectionsTab {
    /// A field of the form in its line.
    pub fn draw_field(&self, p: &mut Picture, field: ConnField, at: Rect, w: usize, tag: &str)
        ensures
            final(p)@ == self@.drawn_field(old(p)@, field, at, w as int, tag@),
    {
        match field {
            ConnField::Label => {
                p.input(at, "Label:          ", &self.label, self.field == ConnField::Label, false, w);
            },
            ConnField::Mode => {
                p.choice(at, "Mode:           ", if self.mode_is_sql { "SQL" } else { "SSH (XML)" }, self.field == ConnField::Mode);
            },
            ConnField::Host => {
                p.input(at, "Host:           ", &self.host, self.field == ConnField::Host, false, w);
            },
            ConnField::Port => {
                p.input(at, "Port:           ", &self.port, self.field == ConnField::Port, false, w);
            },
            ConnField::DbUser => {
                p.input(at, "DB User:        ", &self.db_user, self.field == ConnField::DbUser, false, w);
            },
            ConnField::DbPassword => {
                p.input(at, "DB Password:    ", &self.db_password, self.field == ConnField::DbPassword, true, w);
            },
            ConnField::UseTunnel => {
                p.choice(at, "Use SSH Tunnel: ", if self.use_tunnel { "Yes" } else { "No" }, self.field == ConnField::UseTunnel);
            },
            ConnField::SshHost => {
                p.input(at, "SSH Host:       ", &self.ssh_host, self.field == ConnField::SshHost, false, w);
            },
            ConnField::SshPort => {
                p.input(at, "SSH Port:       ", &self.ssh_port, self.field == ConnField::SshPort, false, w);
            },
            ConnField::SshUser => {
                p.input(at, "SSH User:       ", &self.ssh_user, self.field == ConnField::SshUser, false, w);
            },
            ConnField::SshKeyPath => {
                p.input(at, "SSH Key Path:   ", &self.ssh_key_path, self.field == ConnField::SshKeyPath, false, w);
            },
            ConnField::SshPassword => {
                p.input(at, "SSH Password:   ", &self.ssh_password, self.field == ConnField::SshPassword, true, w);
            },
            ConnField::TagMode => {
                p.choice(at, "XML root tag:   ", tag, self.field == ConnField::TagMode);
            },
            _ => {},
        }
    }

    /// A line of the form.
    pub fn draw_row(&self, p: &mut Picture, row: Row<ConnField>, at: Rect, w: usize, tag: &str)
        ensures
            final(p)@ == self@.drawn_row(old(p)@, row, at, w as int, tag@),
    {
        match row {
            Row::Field(field) => {
                self.draw_field(p, field, at, w, tag);
            },
            Row::Hint => {
                p.note(at, "needs CREATE/ALTER/DROP USER privileges — e.g. the default admin user", Tone::Warn);
            },
            Row::Buttons => {
                p.line(
                    at,
                    Line::of(Span::button("Save", self.field == ConnField::BtnSave)).button(
                        "New",
                        self.field == ConnField::BtnNew,
                    ).button("Delete", self.field == ConnField::BtnDelete).button(
                        "Test Connection",
                        self.field == ConnField::BtnTest,
                    ),
                );
            },
            Row::Help => {
                p.note(
                    at,
                    "\u{2191}\u{2193} select row  Enter on SSH Host picks a known host  Tab navigate  Esc back",
                    Tone::Label,
                );
            },
            Row::Gap => {},
        }
    }
}

impl ConnectionsTabModel {
    /// The first `n` lines of the form.
    pub open spec fn drawn_lines(
        self,
        p: PictureModel,
        rows: Seq<Row<ConnField>>,
        at: Seq<Rect>,
        w: int,
        tag: Seq<char>,
        n: int,
    ) -> PictureModel
        decreases n,
    {
        if n <= 0 {
            p
        } else {
            self.drawn_row(self.drawn_lines(p, rows, at, w, tag, n - 1), rows[n - 1], at[n - 1], w, tag)
        }
    }

    /// The form, line by line.
    pub open spec fn drawn_form(self, p: PictureModel, at: Seq<Rect>, tag: Seq<char>) -> PictureModel {
        let rows = clickhouse_screen::form_rows(self.mode_is_sql, self.use_tunnel);
        self.drawn_lines(p, rows, at, room_in(at[0], 16), tag, rows.len() as int)
    }
}

impl ConnectionsTab {
    /// The form, line by line.
    pub fn draw_form(&self, p: &mut Picture, at: &Vec<Rect>, tag: &str)
        requires
            at@.len() == clickhouse_screen::form_rows(self@.mode_is_sql, self@.use_tunnel).len() + 1,
        ensures
            final(p)@ == self@.drawn_form(old(p)@, at@, tag@),
    {
        let rows = conn_form_rows(self.mode_is_sql, self.use_tunnel);
        let w: usize = room(at[0], 16);
        let mut i: usize = 0;
        while i < rows.len()
            invariant
                i <= rows@.len(),
                at@.len() == rows@.len() + 1,
                p@ == self@.drawn_lines(old(p)@, rows@, at@, w as int, tag@, i as int),
            decreases rows@.len() - i,
        {
            self.draw_row(p, rows[i], at[i], w, tag);
            i = i + 1;
        }
    }
}

/// A field of the form is drawn on the line where a click reaches it.
pub proof fn fields_are_drawn_where_they_are_hit(
    tab: ConnectionsTabModel,
    p: PictureModel,
    at: Seq<Rect>,
    tag: Seq<char>,
    x: u16,
    y: u16,
)
    requires
        at.len() == clickhouse_screen::form_rows(tab.mode_is_sql, tab.use_tunnel).len() + 1,
    ensures
        ({
            let rows = clickhouse_screen::form_rows(tab.mode_is_sql, tab.use_tunnel);
            let w = room_in(at[0], 16);
            form::field_from(at, rows, x, y, 0) matches Some(f) ==> exists|i: int|
                0 <= i < rows.len() && #[trigger] rows[i] == Row::Field(f) && mouse::hits(at[i], x, y)
                    && tab.drawn_lines(p, rows, at, w, tag, i + 1) == tab.drawn_field(
                    tab.drawn_lines(p, rows, at, w, tag, i),
                    f,
                    at[i],
                    w, tag,
                )
        }),
{
    let rows = clickhouse_screen::form_rows(tab.mode_is_sql, tab.use_tunnel);
    let w = room_in(at[0], 16);
    if let Some(f) = form::field_from(at, rows, x, y, 0) {
        form::lemma_field_from(at, rows, x, y, 0);
        let i = choose|i: int|
            0 <= i < rows.len() && #[trigger] rows[i] == Row::Field(f) && mouse::hits(at[i], x, y);
        assert(tab.drawn_row(tab.drawn_lines(p, rows, at, w, tag, i), rows[i], at[i], w, tag)
            == tab.drawn_lines(p, rows, at, w, tag, i + 1));
    }
}

impl AddUserModalModel {
    pub open spec fn drawn_on(self, p: PictureModel, area: Rect, rows: Seq<Rect>) -> PictureModel {
        let p = p.modal(area, " Add ClickHouse User "@, Frame::Modal);
        let w = room_in(rows[0], 12);
        let p = p.input(rows[0], "Username: "@, self.username, self.field == AddField::Username, false, w);
        let p = p.line(
            rows[2],
            LineModel::of(SpanModel::label("Password: "@)).and(
                SpanModel::field(self.password, self.field == AddField::Password, true, room_in(rows[0], 26)),
            ).and(SpanModel::plain(" "@)).and(SpanModel::button("Generate"@, self.field == AddField::BtnGenerate)),
        );
        let p = p.choice(rows[4], "Profile:  "@, clickhouse_screen::profile_name(self.profile_is_default), self.field == AddField::Profile);
        let p = p.input(rows[6], "Allowed IPs: "@, self.ips, self.field == AddField::Ips, false, w);
        let p = p.note(
            rows[7],
            "comma-separated, e.g. 192.168.0.0/16; empty = localhost only. leave Password empty to auto-generate"@,
            Tone::Label,
        );
        let p = p.line(
            rows[9],
            LineModel::of(SpanModel::button("Create"@, self.field == AddField::BtnCreate)).button(
                "Cancel"@,
                self.field == AddField::BtnCancel,
            ),
        );
        p.note(rows[11], "Tab navigate  \u{2022}  Enter activate  \u{2022}  Esc cancel"@, Tone::Label)
    }
}

impl AddUserModal {
    pub fn draw_on(&self, p: &mut Picture, area: Rect, rows: &Vec<Rect>)
        requires
            rows@.len() == 13,
        ensures
            final(p)@ == self@.drawn_on(old(p)@, area, rows@),
    {
        p.modal(area, " Add ClickHouse User ", Frame::Modal);
        let w: usize = room(rows[0], 12);
        p.input(rows[0], "Username: ", &self.username, self.field == AddField::Username, false, w);
        p.line(
            rows[2],
            Line::of(Span::label("Password: ")).and(
                Span::field(&self.password, self.field == AddField::Password, true, room(rows[0], 26)),
            ).and(Span::plain(" ")).and(Span::button("Generate", self.field == AddField::BtnGenerate)),
        );
        p.choice(rows[4], "Profile:  ", profile_str(self.profile_is_default), self.field == AddField::Profile);
        p.input(rows[6], "Allowed IPs: ", &self.ips, self.field == AddField::Ips, false, w);
        p.note(
            rows[7],
            "comma-separated, e.g. 192.168.0.0/16; empty = localhost only. leave Password empty to auto-generate",
            Tone::Label,
        );
        p.line(
            rows[9],
            Line::of(Span::button("Create", self.field == AddField::BtnCreate)).button(
                "Cancel",
                self.field == AddField::BtnCancel,
            ),
        );
        p.note(rows[11], "Tab navigate  \u{2022}  Enter activate  \u{2022}  Esc cancel", Tone::Label);
    }
}

impl EditUserModalModel {
    pub open spec fn drawn_on(self, p: PictureModel, area: Rect, rows: Seq<Rect>) -> PictureModel {
        let p = p.modal(area, (" User \""@ + self.username + "\" "@), Frame::Modal);
        let w = room_in(rows[0], 14);
        let p = p.input(rows[0], "New Password: "@, self.password, self.field == EditField::Password, true, w);
        let p = p.note(rows[1], "leave empty to keep the current password"@, Tone::Label);
        let p = p.choice(rows[3], "Profile:      "@, clickhouse_screen::profile_name(self.profile_is_default), self.field == EditField::Profile);
        let p = p.input(rows[5], "Allowed IPs:  "@, self.ips, self.field == EditField::Ips, false, w);
        let p = p.note(rows[6], "comma-separated, e.g. 192.168.0.0/16; empty = localhost only"@, Tone::Label);
        let p = p.line(
            rows[8],
            LineModel::of(SpanModel::button("Save"@, self.field == EditField::BtnSave)).button(
                "Delete"@,
                self.field == EditField::BtnDelete,
            ).button("Cancel"@, self.field == EditField::BtnCancel),
        );
        p.note(rows[10], "Tab navigate  \u{2022}  Enter activate  \u{2022}  Esc cancel"@, Tone::Label)
    }
}

impl EditUserModal {
    pub fn draw_on(&self, p: &mut Picture, area: Rect, rows: &Vec<Rect>)
        requires
            rows@.len() == 12,
        ensures
            final(p)@ == self@.drawn_on(old(p)@, area, rows@),
    {
        p.modal(area, cat3(" User \"", self.username.as_str(), "\" ").as_str(), Frame::Modal);
        let w: usize = room(rows[0], 14);
        p.input(rows[0], "New Password: ", &self.password, self.field == EditField::Password, true, w);
        p.note(rows[1], "leave empty to keep the current password", Tone::Label);
        p.choice(rows[3], "Profile:      ", profile_str(self.profile_is_default), self.field == EditField::Profile);
        p.input(rows[5], "Allowed IPs:  ", &self.ips, self.field == EditField::Ips, false, w);
        p.note(rows[6], "comma-separated, e.g. 192.168.0.0/16; empty = localhost only", Tone::Label);
        p.line(
            rows[8],
            Line::of(Span::button("Save", self.field == EditField::BtnSave)).button(
                "Delete",
                self.field == EditField::BtnDelete,
            ).button("Cancel", self.field == EditField::BtnCancel),
        );
        p.note(rows[10], "Tab navigate  \u{2022}  Enter activate  \u{2022}  Esc cancel", Tone::Label);
    }
}

impl ClickHouseScreenModel {
    pub open spec fn drawn_connections(self, p: PictureModel, l: ClickHouseLayoutModel) -> PictureModel {
        let p = p.table(
            l.conn[0],
            TableModel::new(" Connections "@, self.connections_tab.field == ConnField::Table).column(
                "Label"@,
                Width::Fixed(18),
            ).column("Mode"@, Width::Fixed(10)).column("Target"@, Width::Fixed(28)).column(
                "Tunnel"@,
                Width::Fixed(8),
            ).rows(connection_lines(self.cfg.connections), self.connections_tab.table_idx),
        );
        let p = p.panel(l.conn[1], " Add / Edit Connection "@);
        let p = self.connections_tab.drawn_form(p, l.form, self.tag_modes[self.connections_tab.tag_mode_idx]);
        let p = p.history(l.conn[2], self.log);
        let p = match self.connections_tab.key_picker {
            Some(picker) => {
                picker.drawn_on(p, geometry::modal_rect(84, 24, 4, 2, l.screen[1]), l.keys)
            },
            None => {
                p
            },
        };
        match self.connections_tab.host_picker {
            Some(picker) => {
                picker.drawn_on(p, geometry::modal_rect(84, 22, 4, 2, l.screen[1]), l.hosts)
            },
            None => {
                p
            },
        }
    }

    pub open spec fn drawn_users(self, p: PictureModel, l: ClickHouseLayoutModel) -> PictureModel {
        let p = p.panel(l.users[0], " Connection "@);
        let p = p.input(
            l.top[0],
            "Connection:             "@,
            self.users_tab.connection_input,
            self.users_tab.field == UsersField::Connection,
            false,
            room_in(l.top[0], 24),
        );
        let p = p.line(l.top[1], LineModel::of(SpanModel::button("Connect / Refresh"@, self.users_tab.field == UsersField::BtnConnect)));
        let n = text::decimal(self.users_tab.rows.len() as nat);
        let title = (" Users ("@ + n + ") \u{2014} \u{2191}\u{2193} select \u{2022} Enter edit "@);
        let p = p.table(
            l.users[1],
            TableModel::new(title, self.users_tab.field == UsersField::Table).column(
                "Username"@,
                Width::Fixed(20),
            ).column("Profile"@, Width::Fixed(14)).column("Allowed IPs"@, Width::Rest(0)).rows(
                user_lines(self.users_tab.rows),
                self.users_tab.selected_row,
            ),
        );
        let p = p.panel(l.users[2], " Actions "@);
        let p = p.line(l.action[0], LineModel::of(SpanModel::button("Add User"@, self.users_tab.field == UsersField::BtnAddUser)));
        let p = p.note(l.action[1], "Enter on a table row opens edit (password / profile / IPs / delete)"@, Tone::Label);
        let p = p.history(l.users[3], self.log);
        if self.users_tab.connection_dropdown_open {
            let query = self.users_tab.connection_input.text;
            p.dropdown(
                self.cfg.filtered(query),
                self.users_tab.connection_idx,
                l.top[0],
                24,
                20,
                65535,
                l.screen[1],
            )
        } else {
            p
        }
    }

    /// The whole screen, drawn into its rows; `add` and `edit` are the rows
    /// of the user modals, drawn in `modal`.
    pub open spec fn drawn_on(self, p: PictureModel, area: Rect, l: ClickHouseLayoutModel, add: Seq<Rect>, edit: Seq<Rect>) -> PictureModel {
        let p = p.line(
            l.screen[0],
            LineModel::of(SpanModel::tab("F1 Connections"@, self.tab == Tab::Connections)).and(SpanModel::plain("  "@)).and(
                SpanModel::tab("F2 Users"@, self.tab == Tab::Users),
            ).and(SpanModel::plain("  "@)).and(SpanModel::text("Esc back  Ctrl+C quit"@, Tone::Dim)),
        );
        let p = match self.tab {
            Tab::Connections => {
                self.drawn_connections(p, l)
            },
            Tab::Users => {
                let p = self.drawn_users(p, l);
                match self.users_tab.modal {
                    Some(UserModalModel::Add(m)) => {
                        m.drawn_on(p, geometry::modal_rect(70, 16, 4, 2, area), add)
                    },
                    Some(UserModalModel::Edit(m)) => {
                        m.drawn_on(p, geometry::modal_rect(70, 16, 4, 2, area), edit)
                    },
                    None => {
                        p
                    },
                }
            },
        };
        p.alert(area, self.log)
    }
}

impl ClickHouseScreen {
    pub fn draw_connections(&self, p: &mut Picture, l: &ClickHouseLayout)
        requires
            self@.wf(),
            l@.complete(self@.connections_tab.mode_is_sql, self@.connections_tab.use_tunnel),
        ensures
            final(p)@ == self@.drawn_connections(old(p)@, l@),
    {
        p.table(
            l.conn[0],
            Table::new(" Connections ", self.connections_tab.field == ConnField::Table).column(
                "Label",
                Width::Fixed(18),
            ).column("Mode", Width::Fixed(10)).column("Target", Width::Fixed(28)).column(
                "Tunnel",
                Width::Fixed(8),
            ).rows(connection_rows(&self.cfg.connections), self.connections_tab.table_idx),
        );
        p.panel(l.conn[1], " Add / Edit Connection ");
        self.connections_tab.draw_form(p, &l.form, self.tag_modes[self.connections_tab.tag_mode_idx].as_str());
        p.history(l.conn[2], &self.log);
        match &self.connections_tab.key_picker {
            Some(picker) => {
                picker.draw_on(p, modal_area(84, 24, 4, 2, l.screen[1]), &l.keys);
            },
            None => {},
        }
        match &self.connections_tab.host_picker {
            Some(picker) => {
                picker.draw_on(p, modal_area(84, 22, 4, 2, l.screen[1]), &l.hosts);
            },
            None => {},
        }
    }

    pub fn draw_users(&self, p: &mut Picture, l: &ClickHouseLayout)
        requires
            l@.complete(self@.connections_tab.mode_is_sql, self@.connections_tab.use_tunnel),
        ensures
            final(p)@ == self@.drawn_users(old(p)@, l@),
    {
        p.panel(l.users[0], " Connection ");
        p.input(
            l.top[0],
            "Connection:             ",
            &self.users_tab.connection_input,
            self.users_tab.field == UsersField::Connection,
            false,
            room(l.top[0], 24),
        );
        p.line(l.top[1], Line::of(Span::button("Connect / Refresh", self.users_tab.field == UsersField::BtnConnect)));
        let n = number(self.users_tab.rows.len() as u64);
        let title = cat3(" Users (", n.as_str(), ") \u{2014} \u{2191}\u{2193} select \u{2022} Enter edit ");
        p.table(
            l.users[1],
            Table::new(title.as_str(), self.users_tab.field == UsersField::Table).column(
                "Username",
                Width::Fixed(20),
            ).column("Profile", Width::Fixed(14)).column("Allowed IPs", Width::Rest(0)).rows(
                user_rows(&self.users_tab.rows),
                self.users_tab.selected_row,
            ),
        );
        p.panel(l.users[2], " Actions ");
        p.line(l.action[0], Line::of(Span::button("Add User", self.users_tab.field == UsersField::BtnAddUser)));
        p.note(l.action[1], "Enter on a table row opens edit (password / profile / IPs / delete)", Tone::Label);
        p.history(l.users[3], &self.log);
        if self.users_tab.connection_dropdown_open {
            let query = self.users_tab.connection_input.value();
            p.dropdown(
                filtered_connections(&self.cfg, query.as_str()),
                self.users_tab.connection_idx,
                l.top[0],
                24,
                20,
                65535,
                l.screen[1],
            );
        }
    }

    /// The whole screen, drawn into its rows; `add` and `edit` are the rows
    /// of the user modals, drawn in `modal`.
    pub fn draw_on(&self, p: &mut Picture, area: Rect, l: &ClickHouseLayout, add: &Vec<Rect>, edit: &Vec<Rect>)
        requires
            self@.wf(),
            l@.complete(self@.connections_tab.mode_is_sql, self@.connections_tab.use_tunnel),
            add@.len() == 13,
            edit@.len() == 12,
        ensures
            final(p)@ == self@.drawn_on(old(p)@, area, l@, add@, edit@),
    {
        p.line(
            l.screen[0],
            Line::of(Span::tab("F1 Connections", self.tab == Tab::Connections)).and(Span::plain("  ")).and(
                Span::tab("F2 Users", self.tab == Tab::Users),
            ).and(Span::plain("  ")).and(Span::text("Esc back  Ctrl+C quit", Tone::Dim)),
        );
        match self.tab {
            Tab::Connections => {
                self.draw_connections(p, l);
            },
            Tab::Users => {
                self.draw_users(p, l);
                match &self.users_tab.modal {
                    Some(UserModal::Add(m)) => {
                        m.draw_on(p, modal_area(70, 16, 4, 2, area), add);
                    },
                    Some(UserModal::Edit(m)) => {
                        m.draw_on(p, modal_area(70, 16, 4, 2, area), edit);
                    },
                    None => {},
                }
            },
        }
        p.alert(area, &self.log);
    }
}

/// The rows of a user modal with `n` lines.
pub open spec fn modal_rows(area: Rect, n: nat, rows: Seq<Rect>) -> bool {
    geometry::stacked(mouse::inner(geometry::modal_rect(70, 16, 4, 2, area)), 1, form::lines(n), rows)
}

fn rows_of_modal(area: Rect, n: usize) -> (rows: Vec<Rect>)
    requires
        n < 100,
    ensures
        modal_rows(area, n as nat, rows@),
        rows@.len() == n + 1,
{
    let cs = line_constraints(n);
    split_rows(mouse::block_inner(modal_area(70, 16, 4, 2, area)), 1, &cs)
}

impl ClickHouseScreenModel {
    /// Whether `p` is a picture of the screen in `area`: the screen drawn into
    /// rows that `area` can be split into.
    pub open spec fn shows(self, area: Rect, p: PictureModel) -> bool {
        exists|l: ClickHouseLayoutModel, add: Seq<Rect>, edit: Seq<Rect>|
            #![trigger l.of(area, self.connections_tab.mode_is_sql, self.connections_tab.use_tunnel), modal_rows(area, 12, add), modal_rows(area, 11, edit)]
            {
                &&& l.of(area, self.connections_tab.mode_is_sql, self.connections_tab.use_tunnel)
                &&& modal_rows(area, 12, add)
                &&& modal_rows(area, 11, edit)
                &&& p == self.drawn_on(PictureModel::empty(), area, l, add, edit)
            }
    }
}

impl ClickHouseScreen {
    /// The picture of the screen in `area`.
    pub fn draw(&self, area: Rect) -> (r: Picture)
        requires
            self@.wf(),
        ensures
            self@.shows(area, r@),
    {
        let l = self.layout(area);
        let add = rows_of_modal(area, 12);
        let edit = rows_of_modal(area, 11);
        let mut p = Picture::empty();
        self.draw_on(&mut p, area, &l, &add, &edit);
        p
    }
}

} // verus!
