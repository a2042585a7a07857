//! What the Logs & Journals Reader shows.
use vstd::prelude::*;

use crate::form::Row;
use crate::form;
use crate::geometry::{modal_area, Rect};
use crate::geometry;
use crate::logs_screen;
use crate::logs_screen::{
    conn_form_rows, filtered_connections, known_ssh_extras, viewer_form_rows, ConnField, Connection,
    ConnectionModel, ConnectionsTab, ConnectionsTabModel, LogsLayout, LogsLayoutModel, LogsScreen,
    LogsScreenModel, RemoteBrowser, RemoteBrowserModel, RemoteEntry, RemoteEntryModel, Tab, ViewerField,
    ViewerTab, ViewerTabModel,
};
use crate::model::append_to;
use crate::mouse;
use crate::mouse::block_inner;
use crate::picture::{
    chain, no_lines, room, room_in, Frame, Line, LineModel, Picture, PictureModel, Span, SpanModel, Table, TableModel,
    Tone, Width, Wrap,
};
use crate::servers::{Server, ServerModel};
use crate::text;
use crate::text::{cat2, cat3, cat5, contains, number, owned};

verus! {

/// The rows of the table of profiles.
pub open spec fn connection_lines(v: Seq<ConnectionModel>) -> Seq<LineModel>
    decreases v.len(),
{
    if v.len() == 0 {
        Seq::empty()
    } else {
        let c = v.last();
        connection_lines(v.drop_last()).push(
            LineModel::of(SpanModel::plain(c.label)).and(
                SpanModel::plain((c.host + ":"@ + c.ssh_port)),
            ).and(SpanModel::plain(c.ssh_user))
        )
    }
}

pub fn connection_rows(v: &Vec<Connection>) -> (r: Vec<Line>)
    ensures
        r.deep_view() == connection_lines(v.deep_view()),
{
    let ghost all = v.deep_view();
    let mut r: Vec<Line> = no_lines();
    let mut i: usize = 0;
    assert(all.take(0) =~= Seq::empty());
    while i < v.len()
        invariant
            all == v.deep_view(),
            i <= v@.len(),
            r.deep_view() == connection_lines(all.take(i as int)),
        decreases v@.len() - i,
    {
        let c = &v[i];
        assert(all.take(i + 1).drop_last() =~= all.take(i as int));
        append_to(
            &mut r,
            Line::of(Span::plain(c.label.as_str())).and(
                Span::plain(cat3(c.host.as_str(), ":", c.ssh_port.as_str()).as_str()),
            ).and(Span::plain(c.ssh_user.as_str()))
        );
        i = i + 1;
    }
    assert(all.take(all.len() as int) =~= all);
    r
}

impl ServerModel {
    /// The port to connect to: the usual one where none is set.
    pub open spec fn port_text(self) -> Seq<char> {
        if self.port == 0 {
            "22"@
        } else {
            text::decimal(self.port as nat)
        }
    }
}

impl Server {
    /// The port to connect to: the usual one where none is set.
    pub fn port_text(&self) -> (r: String)
        ensures
            r@ == self@.port_text(),
    {
        if self.port == 0 {
            owned("22")
        } else {
            number(self.port as u64)
        }
    }
}

/// The rows of the known hosts that no profile covers.
pub open spec fn extra_lines(v: Seq<ServerModel>) -> Seq<LineModel>
    decreases v.len(),
{
    if v.len() == 0 {
        Seq::empty()
    } else {
        let s = v.last();
        extra_lines(v.drop_last()).push(
            LineModel::of(SpanModel::text(s.alias, Tone::Dim)).and(
                SpanModel::text((s.effective_host() + ":"@ + s.port_text()), Tone::Dim),
            ).and(SpanModel::text(s.user, Tone::Dim))
        )
    }
}

pub fn extra_rows(v: &Vec<&Server>) -> (r: Vec<Line>)
    ensures
        r.deep_view() == extra_lines(v.deep_view()),
{
    let ghost all = v.deep_view();
    let mut r: Vec<Line> = no_lines();
    let mut i: usize = 0;
    assert(all.take(0) =~= Seq::empty());
    while i < v.len()
        invariant
            all == v.deep_view(),
            i <= v@.len(),
            r.deep_view() == extra_lines(all.take(i as int)),
        decreases v@.len() - i,
    {
        let s = &v[i];
        assert(all.take(i + 1).drop_last() =~= all.take(i as int));
        append_to(
            &mut r,
            Line::of(Span::text(s.alias.as_str(), Tone::Dim)).and(
                Span::text(cat3(s.effective_host(), ":", s.port_text().as_str()).as_str(), Tone::Dim),
            ).and(Span::text(s.user.as_str(), Tone::Dim))
        );
        i = i + 1;
    }
    assert(all.take(all.len() as int) =~= all);
    r
}

/// How bad a line of a log looks by its words.
pub open spec fn severity(line: Seq<char>) -> Tone {
    let lower = text::lowercase(line);
    if text::occurs(lower, "emerg"@) || text::occurs(lower, "alert"@) || text::occurs(lower, "crit"@)
        || text::occurs(lower, "fatal"@) || text::occurs(lower, " error"@) || text::occurs(lower, "err:"@)
        || text::occurs(lower, "[error]"@) {
        Tone::Bad
    } else if text::occurs(lower, "warn"@) {
        Tone::Warn
    } else {
        Tone::Plain
    }
}

/// How bad a line of a log looks by its words.
pub fn colorize_line(line: &str) -> (r: Tone)
    ensures
        r == severity(line@),
{
    let lower = line.to_lowercase();
    let l = lower.as_str();
    if contains(l, "emerg") || contains(l, "alert") || contains(l, "crit") || contains(l, "fatal") || contains(
        l,
        " error",
    ) || contains(l, "err:") || contains(l, "[error]") {
        Tone::Bad
    } else if contains(l, "warn") {
        Tone::Warn
    } else {
        Tone::Plain
    }
}

/// The lines of a log, coloured by severity.
pub open spec fn log_lines(v: Seq<Seq<char>>) -> Seq<LineModel>
    decreases v.len(),
{
    if v.len() == 0 {
        Seq::empty()
    } else {
        let l = v.last();
        log_lines(v.drop_last()).push(
            LineModel::of(SpanModel::text(l, severity(l)))
        )
    }
}

pub fn log_rows(v: &Vec<String>) -> (r: Vec<Line>)
    ensures
        r.deep_view() == log_lines(v.deep_view()),
{
    let ghost all = v.deep_view();
    let mut r: Vec<Line> = no_lines();
    let mut i: usize = 0;
    assert(all.take(0) =~= Seq::empty());
    while i < v.len()
        invariant
            all == v.deep_view(),
            i <= v@.len(),
            r.deep_view() == log_lines(all.take(i as int)),
        decreases v@.len() - i,
    {
        let l = &v[i];
        assert(all.take(i + 1).drop_last() =~= all.take(i as int));
        append_to(
            &mut r,
            Line::of(Span::text(l.as_str(), colorize_line(l.as_str())))
        );
        i = i + 1;
    }
    assert(all.take(all.len() as int) =~= all);
    r
}

impl RemoteEntryModel {
    pub open spec fn listed(self) -> LineModel {
        if self.is_dir {
            LineModel::of(SpanModel::text((self.name + "/"@), Tone::Accent))
        } else {
            LineModel::of(SpanModel::text(self.name, Tone::Plain))
        }
    }
}

impl RemoteEntry {
    pub fn listed(&self) -> (r: Line)
        ensures
            r@ == self@.listed(),
    {
        if self.is_dir {
            Line::of(Span::text(cat2(self.name.as_str(), "/").as_str(), Tone::Accent))
        } else {
            Line::of(Span::text(self.name.as_str(), Tone::Plain))
        }
    }
}

/// The names of a directory but for the one of its parent.
pub open spec fn entry_lines(v: Seq<RemoteEntryModel>) -> Seq<LineModel>
    decreases v.len(),
{
    if v.len() == 0 {
        Seq::empty()
    } else {
        entry_lines(v.drop_last()).push(v.last().listed())
    }
}

/// The names of a directory but for the one of its parent.
pub fn entry_rows(v: &Vec<RemoteEntry>) -> (r: Vec<Line>)
    ensures
        r.deep_view() == entry_lines(v.deep_view()),
{
    let ghost all = v.deep_view();
    let mut r: Vec<Line> = no_lines();
    let mut i: usize = 0;
    assert(all.take(0) =~= Seq::empty());
    while i < v.len()
        invariant
            all == v.deep_view(),
            i <= v@.len(),
            r.deep_view() == entry_lines(all.take(i as int)),
        decreases v@.len() - i,
    {
        assert(all.take(i + 1).drop_last() =~= all.take(i as int));
        append_to(&mut r, v[i].listed());
        i = i + 1;
    }
    assert(all.take(all.len() as int) =~= all);
    r
}

impl RemoteBrowserModel {
    pub open spec fn drawn_on(self, p: PictureModel, area: Rect, rows: Seq<Rect>) -> PictureModel {
        let p = p.modal(area, (" Browse — "@ + self.path + " "@), Frame::Modal);
        let p = if self.loading {
            p.note(rows[0], "Loading\u{2026}"@, Tone::Label)
        } else {
            match self.error {
                Some(err) => {
                    p.note(rows[0], ("can't list this directory: "@ + err), Tone::Bad)
                },
                None => {
                    p.list(rows[0], entry_lines(self.entries), self.selected)
                },
            }
        };
        p.note(rows[1], "\u{2191}\u{2193} navigate  Enter open dir / pick file  Esc cancel"@, Tone::Label)
    }
}

impl RemoteBrowser {
    pub fn draw_on(&self, p: &mut Picture, area: Rect, rows: &Vec<Rect>)
        requires
            rows@.len() == 2,
        ensures
            final(p)@ == self@.drawn_on(old(p)@, area, rows@),
    {
        p.modal(area, cat3(" Browse — ", self.path.as_str(), " ").as_str(), Frame::Modal);
        if self.loading {
            p.note(rows[0], "Loading\u{2026}", Tone::Label);
        } else {
            match &self.error {
                Some(err) => {
                    p.note(rows[0], cat2("can't list this directory: ", err.as_str()).as_str(), Tone::Bad);
                },
                None => {
                    p.list(rows[0], entry_rows(&self.entries), self.selected);
                },
            }
        }
        p.note(rows[1], "\u{2191}\u{2193} navigate  Enter open dir / pick file  Esc cancel", Tone::Label);
    }
}

impl ConnectionsTabModel {
    /// A field of the form in its line.
    pub open spec fn drawn_field(self, p: PictureModel, field: ConnField, at: Rect, w: int) -> PictureModel {
        match field {
            ConnField::Label => {
                p.input(at, "Label:          "@, self.label, self.field == ConnField::Label, false, w)
            },
            ConnField::Host => {
                p.input(at, "Host:           "@, self.host, self.field == ConnField::Host, false, w)
            },
            ConnField::SshPort => {
                p.input(at, "SSH Port:       "@, self.ssh_port, self.field == ConnField::SshPort, false, w)
            },
            ConnField::SshUser => {
                p.input(at, "SSH User:       "@, self.ssh_user, self.field == ConnField::SshUser, false, w)
            },
            ConnField::SshKeyPath => {
                p.input(at, "SSH Key Path:   "@, self.ssh_key_path, self.field == ConnField::SshKeyPath, false, w)
            },
            ConnField::SshPassword => {
                p.input(at, "SSH Password:   "@, self.ssh_password, self.field == ConnField::SshPassword, true, w)
            },
            _ => {
                p
            },
        }
    }

    /// A line of the form.
    pub open spec fn drawn_row(self, p: PictureModel, row: Row<ConnField>, at: Rect, w: int) -> PictureModel {
        match row {
            Row::Field(field) => {
                self.drawn_field(p, field, at, w)
            },
            Row::Hint => {
                p.note(
                    at,
                    "Enter opens a file picker; needs read access to system logs (root/adm/wheel/journal group)"@,
                    Tone::Label,
                )
            },
            Row::Buttons => {
                p.line(
                    at,
                    LineModel::of(SpanModel::button("Save"@, self.field == ConnField::BtnSave)).button(
                        "New"@,
                        self.field == ConnField::BtnNew,
                    ).button("Delete"@, self.field == ConnField::BtnDelete).button(
                        "Test Connection"@,
                        self.field == ConnField::BtnTest,
                    ),
                )
            },
            Row::Help => {
                p.note(
                    at,
                    "\u{2191}\u{2193} select row  Enter on Host picks from SSH Server Manager  Tab navigate  Esc back"@,
                    Tone::Label,
                )
            },
            Row::Gap => {
                p
            },
        }
    }
}

impl ConnectionsTab {
    /// A field of the form in its line.
    pub fn draw_field(&self, p: &mut Picture, field: ConnField, at: Rect, w: usize)
        ensures
            final(p)@ == self@.drawn_field(old(p)@, field, at, w as int),
    {
        match field {
            ConnField::Label => {
                p.input(at, "Label:          ", &self.label, self.field == ConnField::Label, false, w);
            },
            ConnField::Host => {
                p.input(at, "Host:           ", &self.host, self.field == ConnField::Host, false, w);
            },
            ConnField::SshPort => {
                p.input(at, "SSH Port:       ", &self.ssh_port, self.field == ConnField::SshPort, false, w);
            },
            ConnField::SshUser => {
                p.input(at, "SSH User:       ", &self.ssh_user, self.field == ConnField::SshUser, false, w);
            },
            ConnField::SshKeyPath => {
                p.input(at, "SSH Key Path:   ", &self.ssh_key_path, self.field == ConnField::SshKeyPath, false, w);
            },
            ConnField::SshPassword => {
                p.input(at, "SSH Password:   ", &self.ssh_password, self.field == ConnField::SshPassword, true, w);
            },
            _ => {},
        }
    }

    /// A line of the form.
    pub fn draw_row(&self, p: &mut Picture, row: Row<ConnField>, at: Rect, w: usize)
        ensures
            final(p)@ == self@.drawn_row(old(p)@, row, at, w as int),
    {
        match row {
            Row::Field(field) => {
                self.draw_field(p, field, at, w);
            },
            Row::Hint => {
                p.note(
                    at,
                    "Enter opens a file picker; needs read access to system logs (root/adm/wheel/journal group)",
                    Tone::Label,
                );
            },
            Row::Buttons => {
                p.line(
                    at,
                    Line::of(Span::button("Save", self.field == ConnField::BtnSave)).button(
                        "New",
                        self.field == ConnField::BtnNew,
                    ).button("Delete", self.field == ConnField::BtnDelete).button(
                        "Test Connection",
                        self.field == ConnField::BtnTest,
                    ),
                );
            },
            Row::Help => {
                p.note(
                    at,
                    "\u{2191}\u{2193} select row  Enter on Host picks from SSH Server Manager  Tab navigate  Esc back",
                    Tone::Label,
                );
            },
            Row::Gap => {},
        }
    }
}

impl ConnectionsTabModel {
    /// The first `n` lines of the form.
    pub open spec fn drawn_lines(
        self,
        p: PictureModel,
        rows: Seq<Row<ConnField>>,
        at: Seq<Rect>,
        w: int,
        n: int,
    ) -> PictureModel
        decreases n,
    {
        if n <= 0 {
            p
        } else {
            self.drawn_row(self.drawn_lines(p, rows, at, w, n - 1), rows[n - 1], at[n - 1], w)
        }
    }

    /// The form, line by line.
    pub open spec fn drawn_form(self, p: PictureModel, at: Seq<Rect>) -> PictureModel {
        let rows = logs_screen::conn_form();
        self.drawn_lines(p, rows, at, room_in(at[0], 16), rows.len() as int)
    }
}

impl ConnectionsTab {
    /// The form, line by line.
    pub fn draw_form(&self, p: &mut Picture, at: &Vec<Rect>)
        requires
            at@.len() == logs_screen::conn_form().len() + 1,
        ensures
            final(p)@ == self@.drawn_form(old(p)@, at@),
    {
        let rows = conn_form_rows();
        let w: usize = room(at[0], 16);
        let mut i: usize = 0;
        while i < rows.len()
            invariant
                i <= rows@.len(),
                at@.len() == rows@.len() + 1,
                p@ == self@.drawn_lines(old(p)@, rows@, at@, w as int, i as int),
            decreases rows@.len() - i,
        {
            self.draw_row(p, rows[i], at[i], w);
            i = i + 1;
        }
    }
}

/// A field of the form is drawn on the line where a click reaches it.
pub proof fn connection_fields_are_drawn_where_they_are_hit(
    tab: ConnectionsTabModel,
    p: PictureModel,
    at: Seq<Rect>,
    x: u16,
    y: u16,
)
    requires
        at.len() == logs_screen::conn_form().len() + 1,
    ensures
        ({
            let rows = logs_screen::conn_form();
            let w = room_in(at[0], 16);
            form::field_from(at, rows, x, y, 0) matches Some(f) ==> exists|i: int|
                0 <= i < rows.len() && #[trigger] rows[i] == Row::Field(f) && mouse::hits(at[i], x, y)
                    && tab.drawn_lines(p, rows, at, w, i + 1) == tab.drawn_field(
                    tab.drawn_lines(p, rows, at, w, i),
                    f,
                    at[i],
                    w,
                )
        }),
{
    let rows = logs_screen::conn_form();
    let w = room_in(at[0], 16);
    if let Some(f) = form::field_from(at, rows, x, y, 0) {
        form::lemma_field_from(at, rows, x, y, 0);
        let i = choose|i: int|
            0 <= i < rows.len() && #[trigger] rows[i] == Row::Field(f) && mouse::hits(at[i], x, y);
        assert(tab.drawn_row(tab.drawn_lines(p, rows, at, w, i), rows[i], at[i], w)
            == tab.drawn_lines(p, rows, at, w, i + 1));
    }
}

impl ViewerTabModel {
    /// A field of the form in its line.
    pub open spec fn drawn_field(self, p: PictureModel, field: ViewerField, at: Rect, w: int, priority: Seq<char>) -> PictureModel {
        match field {
            ViewerField::Connection => {
                p.input(at, "Connection:     "@, self.connection_input, self.field == ViewerField::Connection, false, w)
            },
            ViewerField::Source => {
                p.choice(
                    at,
                    "Source:         "@,
                    if self.journal { "Journal (journalctl)"@ } else { "File (tail)"@ },
                    self.field == ViewerField::Source,
                )
            },
            ViewerField::UnitOrPath => {
                if self.journal {
                    p.input(at, "Unit (opt):     "@, self.unit, self.field == ViewerField::UnitOrPath, false, w)
                } else {
                    p.input(at, "File Path:      "@, self.path, self.field == ViewerField::UnitOrPath, false, w)
                }
            },
            ViewerField::Since => {
                p.input(at, "Since (opt):    "@, self.since, self.field == ViewerField::Since, false, w)
            },
            ViewerField::Priority => {
                p.line(
                    at,
                    LineModel::of(SpanModel::label("Priority:       "@)).and(
                        SpanModel::button(priority, self.field == ViewerField::Priority),
                    ).and(SpanModel::label("  (\u{2190}/\u{2192} to change, shows this level and worse)"@)),
                )
            },
            ViewerField::Lines => {
                p.input(at, "Lines:          "@, self.lines, self.field == ViewerField::Lines, false, w)
            },
            ViewerField::Search => {
                p.input(at, "Search:         "@, self.search, self.field == ViewerField::Search, false, w)
            },
            ViewerField::AutoRefresh => {
                p.line(
                    at,
                    LineModel::of(SpanModel::label("Auto-refresh:   "@)).and(
                        SpanModel::button(
                            if self.auto_refresh { "On"@ } else { "Off"@ },
                            self.field == ViewerField::AutoRefresh,
                        ),
                    ).and(SpanModel::label("  (\u{2190}/\u{2192} to change, every 5s)"@)),
                )
            },
            _ => {
                p
            },
        }
    }

    /// What the button says that fetches the log.
    pub open spec fn fetch_label(self) -> Seq<char> {
        if self.fetching {
            "Fetching\u{2026}"@
        } else {
            "Fetch"@
        }
    }

    /// A line of the form.
    pub open spec fn drawn_row(self, p: PictureModel, row: Row<ViewerField>, at: Rect, w: int, priority: Seq<char>) -> PictureModel {
        match row {
            Row::Field(field) => {
                self.drawn_field(p, field, at, w, priority)
            },
            Row::Buttons => {
                if self.journal {
                    p.line(at, LineModel::of(SpanModel::button(self.fetch_label(), self.field == ViewerField::BtnFetch)))
                } else {
                    p.line(
                        at,
                        LineModel::of(SpanModel::button("Browse"@, self.field == ViewerField::BtnBrowse)).button(
                            self.fetch_label(),
                            self.field == ViewerField::BtnFetch,
                        ),
                    )
                }
            },
            Row::Help => {
                p.note(
                    at,
                    "Tab navigate  \u{2022}  Enter activate  \u{2022}  \u{2191}\u{2193} on log pane scrolls  \u{2022}  Esc back"@,
                    Tone::Label,
                )
            },
            _ => {
                p
            },
        }
    }
}

impl ViewerTab {
    /// A field of the form in its line.
    pub fn draw_field(&self, p: &mut Picture, field: ViewerField, at: Rect, w: usize, priority: &str)
        ensures
            final(p)@ == self@.drawn_field(old(p)@, field, at, w as int, priority@),
    {
        match field {
            ViewerField::Connection => {
                p.input(at, "Connection:     ", &self.connection_input, self.field == ViewerField::Connection, false, w);
            },
            ViewerField::Source => {
                p.choice(
                    at,
                    "Source:         ",
                    if self.journal { "Journal (journalctl)" } else { "File (tail)" },
                    self.field == ViewerField::Source,
                );
            },
            ViewerField::UnitOrPath => {
                if self.journal {
                    p.input(at, "Unit (opt):     ", &self.unit, self.field == ViewerField::UnitOrPath, false, w);
                } else {
                    p.input(at, "File Path:      ", &self.path, self.field == ViewerField::UnitOrPath, false, w);
                }
            },
            ViewerField::Since => {
                p.input(at, "Since (opt):    ", &self.since, self.field == ViewerField::Since, false, w);
            },
            ViewerField::Priority => {
                p.line(
                    at,
                    Line::of(Span::label("Priority:       ")).and(
                        Span::button(priority, self.field == ViewerField::Priority),
                    ).and(Span::label("  (\u{2190}/\u{2192} to change, shows this level and worse)")),
                );
            },
            ViewerField::Lines => {
                p.input(at, "Lines:          ", &self.lines, self.field == ViewerField::Lines, false, w);
            },
            ViewerField::Search => {
                p.input(at, "Search:         ", &self.search, self.field == ViewerField::Search, false, w);
            },
            ViewerField::AutoRefresh => {
                p.line(
                    at,
                    Line::of(Span::label("Auto-refresh:   ")).and(
                        Span::button(
                            if self.auto_refresh { "On" } else { "Off" },
                            self.field == ViewerField::AutoRefresh,
                        ),
                    ).and(Span::label("  (\u{2190}/\u{2192} to change, every 5s)")),
                );
            },
            _ => {},
        }
    }

    /// What the button says that fetches the log.
    pub fn fetch_label(&self) -> (r: &'static str)
        ensures
            r@ == self@.fetch_label(),
    {
        if self.fetching {
            "Fetching\u{2026}"
        } else {
            "Fetch"
        }
    }

    /// A line of the form.
    pub fn draw_row(&self, p: &mut Picture, row: Row<ViewerField>, at: Rect, w: usize, priority: &str)
        ensures
            final(p)@ == self@.drawn_row(old(p)@, row, at, w as int, priority@),
    {
        match row {
            Row::Field(field) => {
                self.draw_field(p, field, at, w, priority);
            },
            Row::Buttons => {
                if self.journal {
                    p.line(at, Line::of(Span::button(self.fetch_label(), self.field == ViewerField::BtnFetch)));
                } else {
                    p.line(
                        at,
                        Line::of(Span::button("Browse", self.field == ViewerField::BtnBrowse)).button(
                            self.fetch_label(),
                            self.field == ViewerField::BtnFetch,
                        ),
                    );
                }
            },
            Row::Help => {
                p.note(
                    at,
                    "Tab navigate  \u{2022}  Enter activate  \u{2022}  \u{2191}\u{2193} on log pane scrolls  \u{2022}  Esc back",
                    Tone::Label,
                );
            },
            _ => {},
        }
    }
}

impl ViewerTabModel {
    /// The first `n` lines of the form.
    pub open spec fn drawn_lines(
        self,
        p: PictureModel,
        rows: Seq<Row<ViewerField>>,
        at: Seq<Rect>,
        w: int,
        priority: Seq<char>,
        n: int,
    ) -> PictureModel
        decreases n,
    {
        if n <= 0 {
            p
        } else {
            self.drawn_row(self.drawn_lines(p, rows, at, w, priority, n - 1), rows[n - 1], at[n - 1], w, priority)
        }
    }

    /// The form, line by line.
    pub open spec fn drawn_form(self, p: PictureModel, at: Seq<Rect>, priority: Seq<char>) -> PictureModel {
        let rows = logs_screen::viewer_form(self.journal);
        self.drawn_lines(p, rows, at, room_in(at[0], 16), priority, rows.len() as int)
    }
}

impl ViewerTab {
    /// The form, line by line.
    pub fn draw_form(&self, p: &mut Picture, at: &Vec<Rect>, priority: &str)
        requires
            at@.len() == logs_screen::viewer_form(self@.journal).len() + 1,
        ensures
            final(p)@ == self@.drawn_form(old(p)@, at@, priority@),
    {
        let rows = viewer_form_rows(self.journal);
        let w: usize = room(at[0], 16);
        let mut i: usize = 0;
        while i < rows.len()
            invariant
                i <= rows@.len(),
                at@.len() == rows@.len() + 1,
                p@ == self@.drawn_lines(old(p)@, rows@, at@, w as int, priority@, i as int),
            decreases rows@.len() - i,
        {
            self.draw_row(p, rows[i], at[i], w, priority);
            i = i + 1;
        }
    }
}

/// A field of the form is drawn on the line where a click reaches it.
pub proof fn viewer_fields_are_drawn_where_they_are_hit(
    tab: ViewerTabModel,
    p: PictureModel,
    at: Seq<Rect>,
    priority: Seq<char>,
    x: u16,
    y: u16,
)
    requires
        at.len() == logs_screen::viewer_form(tab.journal).len() + 1,
    ensures
        ({
            let rows = logs_screen::viewer_form(tab.journal);
            let w = room_in(at[0], 16);
            form::field_from(at, rows, x, y, 0) matches Some(f) ==> exists|i: int|
                0 <= i < rows.len() && #[trigger] rows[i] == Row::Field(f) && mouse::hits(at[i], x, y)
                    && tab.drawn_lines(p, rows, at, w, priority, i + 1) == tab.drawn_field(
                    tab.drawn_lines(p, rows, at, w, priority, i),
                    f,
                    at[i],
                    w, priority,
                )
        }),
{
    let rows = logs_screen::viewer_form(tab.journal);
    let w = room_in(at[0], 16);
    if let Some(f) = form::field_from(at, rows, x, y, 0) {
        form::lemma_field_from(at, rows, x, y, 0);
        let i = choose|i: int|
            0 <= i < rows.len() && #[trigger] rows[i] == Row::Field(f) && mouse::hits(at[i], x, y);
        assert(tab.drawn_row(tab.drawn_lines(p, rows, at, w, priority, i), rows[i], at[i], w, priority)
            == tab.drawn_lines(p, rows, at, w, priority, i + 1));
    }
}

impl LogsScreenModel {
    /// The title of the table of profiles.
    pub open spec fn connections_title(self) -> Seq<char> {
        let extra = logs_screen::extras(self.cfg.connections, self.hosts);
        if extra.len() == 0 {
            " Connections "@
        } else {
            let n = text::decimal(self.cfg.connections.len() as nat);
            let m = text::decimal(extra.len() as nat);
            (" Connections ("@ + n + " saved + "@ + m + " from ~/.ssh/config) "@)
        }
    }

    pub open spec fn drawn_connections(self, p: PictureModel, l: LogsLayoutModel) -> PictureModel {
        let extra = logs_screen::extras(self.cfg.connections, self.hosts);
        let p = p.table(
            l.conn[0],
            TableModel::new(self.connections_title(), self.connections_tab.field == ConnField::Table).column(
                "Label"@,
                Width::Fixed(20),
            ).column("Host:Port"@, Width::Fixed(26)).column("SSH User"@, Width::Fixed(16)).rows(
                (connection_lines(self.cfg.connections) + extra_lines(extra)),
                self.connections_tab.table_idx,
            ),
        );
        let p = p.panel(l.conn[1], " Add / Edit Connection "@);
        let p = self.connections_tab.drawn_form(p, l.form);
        let p = p.history(l.conn[2], self.log);
        let p = match self.connections_tab.key_picker {
            Some(picker) => {
                picker.drawn_on(p, geometry::modal_rect(84, 24, 4, 2, l.screen[1]), l.keys)
            },
            None => {
                p
            },
        };
        match self.connections_tab.host_picker {
            Some(picker) => {
                picker.drawn_on(p, geometry::modal_rect(84, 22, 4, 2, l.screen[1]), l.hosts)
            },
            None => {
                p
            },
        }
    }

    /// The title of the log.
    pub open spec fn log_title(self) -> Seq<char> {
        let n = text::decimal(self.viewer_tab.log_lines.len() as nat);
        let hint = if self.viewer_tab.field == ViewerField::LogPane {
            "\u{2014} \u{2191}\u{2193}/PgUp/PgDn/Home/End scroll"@
        } else {
            ""@
        };
        (" Log ("@ + n + " line(s)) "@ + hint + " "@)
    }

    pub open spec fn drawn_viewer(self, p: PictureModel, l: LogsLayoutModel) -> PictureModel {
        let p = p.panel(l.viewer[0], " Filters "@);
        let p = self.viewer_tab.drawn_form(p, l.filters, self.priorities[self.viewer_tab.priority_idx]);
        let p = p.panel(l.viewer[1], self.log_title());
        let p = p.paragraph(mouse::inner(l.viewer[1]), log_lines(self.viewer_tab.log_lines), self.viewer_tab.scroll, Wrap::Keep);
        let p = p.history(l.viewer[2], self.log);
        let p = if self.viewer_tab.connection_dropdown_open {
            let query = self.viewer_tab.connection_input.text;
            p.dropdown(
                self.cfg.filtered(self.hosts, query),
                self.viewer_tab.connection_idx,
                l.filters[0],
                16,
                20,
                65535,
                l.screen[1],
            )
        } else {
            p
        };
        match self.viewer_tab.browser {
            Some(browser) => {
                browser.drawn_on(p, geometry::modal_rect(84, 24, 4, 2, l.screen[1]), l.keys)
            },
            None => {
                p
            },
        }
    }

    /// The whole screen, drawn into its rows.
    pub open spec fn drawn_on(self, p: PictureModel, area: Rect, l: LogsLayoutModel) -> PictureModel {
        let p = p.line(
            l.screen[0],
            LineModel::of(SpanModel::tab("F1 Connections"@, self.tab == Tab::Connections)).and(SpanModel::plain("  "@)).and(
                SpanModel::tab("F2 Viewer"@, self.tab == Tab::Viewer),
            ).and(SpanModel::plain("  "@)).and(SpanModel::text("Esc back  Ctrl+C quit"@, Tone::Dim)),
        );
        let p = match self.tab {
            Tab::Connections => {
                self.drawn_connections(p, l)
            },
            Tab::Viewer => {
                self.drawn_viewer(p, l)
            },
        };
        p.alert(area, self.log)
    }
}

impl LogsScreen {
    /// The title of the table of profiles.
    pub fn connections_title(&self) -> (r: String)
        ensures
            r@ == self@.connections_title(),
    {
        let extra = known_ssh_extras(&self.cfg.connections, &self.hosts);
        if extra.len() == 0 {
            owned(" Connections ")
        } else {
            let n = number(self.cfg.connections.len() as u64);
            let m = number(extra.len() as u64);
            cat5(" Connections (", n.as_str(), " saved + ", m.as_str(), " from ~/.ssh/config) ")
        }
    }

    pub fn draw_connections(&self, p: &mut Picture, l: &LogsLayout)
        requires
            l@.complete_conn(),
        ensures
            final(p)@ == self@.drawn_connections(old(p)@, l@),
    {
        let extra = known_ssh_extras(&self.cfg.connections, &self.hosts);
        p.table(
            l.conn[0],
            Table::new(self.connections_title().as_str(), self.connections_tab.field == ConnField::Table).column(
                "Label",
                Width::Fixed(20),
            ).column("Host:Port", Width::Fixed(26)).column("SSH User", Width::Fixed(16)).rows(
                chain(connection_rows(&self.cfg.connections), extra_rows(&extra)),
                self.connections_tab.table_idx,
            ),
        );
        p.panel(l.conn[1], " Add / Edit Connection ");
        self.connections_tab.draw_form(p, &l.form);
        p.history(l.conn[2], &self.log);
        match &self.connections_tab.key_picker {
            Some(picker) => {
                picker.draw_on(p, modal_area(84, 24, 4, 2, l.screen[1]), &l.keys);
            },
            None => {},
        }
        match &self.connections_tab.host_picker {
            Some(picker) => {
                picker.draw_on(p, modal_area(84, 22, 4, 2, l.screen[1]), &l.hosts);
            },
            None => {},
        }
    }

    /// The title of the log.
    pub fn log_title(&self) -> (r: String)
        ensures
            r@ == self@.log_title(),
    {
        let n = number(self.viewer_tab.log_lines.len() as u64);
        let hint = if self.viewer_tab.field == ViewerField::LogPane {
            "\u{2014} \u{2191}\u{2193}/PgUp/PgDn/Home/End scroll"
        } else {
            ""
        };
        cat5(" Log (", n.as_str(), " line(s)) ", hint, " ")
    }

    pub fn draw_viewer(&self, p: &mut Picture, l: &LogsLayout)
        requires
            self@.wf(),
            l@.complete_viewer(self@.viewer_tab.journal),
        ensures
            final(p)@ == self@.drawn_viewer(old(p)@, l@),
    {
        p.panel(l.viewer[0], " Filters ");
        self.viewer_tab.draw_form(p, &l.filters, self.priorities[self.viewer_tab.priority_idx].as_str());
        p.panel(l.viewer[1], self.log_title().as_str());
        p.paragraph(block_inner(l.viewer[1]), log_rows(&self.viewer_tab.log_lines), self.viewer_tab.scroll, Wrap::Keep);
        p.history(l.viewer[2], &self.log);
        if self.viewer_tab.connection_dropdown_open {
            let query = self.viewer_tab.connection_input.value();
            p.dropdown(
                filtered_connections(&self.cfg, &self.hosts, query.as_str()),
                self.viewer_tab.connection_idx,
                l.filters[0],
                16,
                20,
                65535,
                l.screen[1],
            );
        }
        match &self.viewer_tab.browser {
            Some(browser) => {
                browser.draw_on(p, modal_area(84, 24, 4, 2, l.screen[1]), &l.keys);
            },
            None => {},
        }
    }

    /// The whole screen, drawn into its rows.
    pub fn draw_on(&self, p: &mut Picture, area: Rect, l: &LogsLayout)
        requires
            self@.wf(),
            l@.complete_conn(),
            l@.complete_viewer(self@.viewer_tab.journal),
        ensures
            final(p)@ == self@.drawn_on(old(p)@, area, l@),
    {
        p.line(
            l.screen[0],
            Line::of(Span::tab("F1 Connections", self.tab == Tab::Connections)).and(Span::plain("  ")).and(
                Span::tab("F2 Viewer", self.tab == Tab::Viewer),
            ).and(Span::plain("  ")).and(Span::text("Esc back  Ctrl+C quit", Tone::Dim)),
        );
        match self.tab {
            Tab::Connections => {
                self.draw_connections(p, l);
            },
            Tab::Viewer => {
                self.draw_viewer(p, l);
            },
        }
        p.alert(area, &self.log);
    }
}

impl LogsScreenModel {
    /// Whether `p` is a picture of the screen in `area`: the screen drawn into
    /// rows that `area` can be split into.
    pub open spec fn shows(self, area: Rect, p: PictureModel) -> bool {
        exists|l: LogsLayoutModel| #[trigger]
            l.of(area, self.viewer_tab.journal) && p == self.drawn_on(PictureModel::empty(), area, l)
    }
}

impl LogsScreen {
    /// The picture of the screen in `area`.
    pub fn draw(&self, area: Rect) -> (r: Picture)
        requires
            self@.wf(),
        ensures
            self@.shows(area, r@),
    {
        let l = self.layout(area);
        let mut p = Picture::empty();
        self.draw_on(&mut p, area, &l);
        p
    }
}

} // verus!
