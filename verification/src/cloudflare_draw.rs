//! What the Cloudflare DNS Manager shows.
use vstd::prelude::*;

use crate::cloudflare_screen;
use crate::cloudflare_screen::{
    filtered_accounts, filtered_zones, AccField, Account, AccountModel, AccountsTab, AccountsTabModel, AddField,
    AddModal, AddModalModel, CloudflareLayout, CloudflareLayoutModel, CloudflareScreen, CloudflareScreenModel,
    EditField, EditModal, EditModalModel, RecField, RecordModal, RecordModalModel, Tab, TypeFilter,
};
use crate::dns_record;
use crate::dns_record::{
    fmt_ttl, is_proxiable, DnsRecord, DnsRecordInput, DnsRecordInputModel, DnsRecordModel, FormField,
    RecordForm, RecordFormModel, RecordType, Zone, ZoneModel,
};
use crate::form::line_constraints;
use crate::form;
use crate::geometry::{min_u16, modal_area, split_rows, Rect};
use crate::geometry;
use crate::model::append_to;
use crate::mouse;
use crate::mouse::block_inner;
use crate::picture::{
    no_lines, pad, padded, room, room_in, Frame, Line, LineModel, Picture, PictureModel, Span, SpanModel, Table,
    TableModel, Tone, Width, Wrap,
};
use crate::text;
use crate::text::{cat2, cat3, cat4, cat5, number};

verus! {

/// Whether the focus is on a field of the record.
pub open spec fn focused_on(focus: Option<FormField>, f: FormField) -> bool {
    focus == Some(f)
}

fn has_focus(focus: Option<FormField>, f: FormField) -> (r: bool)
    ensures
        r == focused_on(focus, f),
{
    match focus {
        Some(g) => g == f,
        None => false,
    }
}

impl RecordFormModel {
    /// Type, name and time to live, and the proxy switch where there is one.
    pub open spec fn main_line(self, focus: Option<FormField>) -> LineModel {
        let line = LineModel::of(SpanModel::label("Type: "@)).and(
            SpanModel::button(self.kind.name(), focused_on(focus, FormField::Type)),
        ).and(SpanModel::label(" (\u{2190}/\u{2192})   "@)).and(SpanModel::label("Name: "@)).and(
            SpanModel::field(self.name, focused_on(focus, FormField::Name), false, 20),
        ).and(SpanModel::plain("  "@)).and(SpanModel::label("TTL: "@)).and(
            SpanModel::field(self.ttl, focused_on(focus, FormField::Ttl), false, 8),
        );
        if self.kind.proxiable() {
            line.and(SpanModel::plain("  "@)).and(SpanModel::label("Proxied: "@)).and(
                SpanModel::button(if self.proxied { "Yes"@ } else { "No"@ }, focused_on(focus, FormField::Proxied)),
            )
        } else {
            line
        }
    }

    /// The inputs that only records of some types have.
    pub open spec fn drawn_extra(self, p: PictureModel, focus: Option<FormField>, at: Rect) -> PictureModel {
        match self.kind {
            RecordType::Mx => {
                p.line(
                    at,
                    LineModel::of(SpanModel::label("Priority: "@)).and(
                        SpanModel::field(self.priority, focused_on(focus, FormField::Priority), false, 8),
                    ).and(SpanModel::label("  (lower number = higher priority)"@)),
                )
            },
            RecordType::Srv => {
                p.line(
                    at,
                    LineModel::of(SpanModel::label("Priority: "@)).and(
                        SpanModel::field(self.priority, focused_on(focus, FormField::Priority), false, 6),
                    ).and(SpanModel::plain("  "@)).and(SpanModel::label("Weight: "@)).and(
                        SpanModel::field(self.weight, focused_on(focus, FormField::Weight), false, 6),
                    ).and(SpanModel::plain("  "@)).and(SpanModel::label("Port: "@)).and(
                        SpanModel::field(self.port, focused_on(focus, FormField::Port), false, 6),
                    ).and(SpanModel::label("  (Name like _service._proto)"@)),
                )
            },
            RecordType::Caa => {
                p.line(
                    at,
                    LineModel::of(SpanModel::label("Flags: "@)).and(
                        SpanModel::field(self.flags, focused_on(focus, FormField::Flags), false, 4),
                    ).and(SpanModel::label("  (0-255)   "@)).and(SpanModel::label("Tag: "@)).and(
                        SpanModel::button(self.tag.name(), focused_on(focus, FormField::Tag)),
                    ).and(SpanModel::label(" (\u{2190}/\u{2192})"@)),
                )
            },
            _ => {
                p
            },
        }
    }
}

impl RecordForm {
    /// Type, name and time to live, and the proxy switch where there is one.
    pub fn main_line(&self, focus: Option<FormField>) -> (r: Line)
        ensures
            r@ == self@.main_line(focus),
    {
        let line = Line::of(Span::label("Type: ")).and(
            Span::button(self.kind.label(), has_focus(focus, FormField::Type)),
        ).and(Span::label(" (\u{2190}/\u{2192})   ")).and(Span::label("Name: ")).and(
            Span::field(&self.name, has_focus(focus, FormField::Name), false, 20),
        ).and(Span::plain("  ")).and(Span::label("TTL: ")).and(
            Span::field(&self.ttl, has_focus(focus, FormField::Ttl), false, 8),
        );
        if self.kind.is_proxiable() {
            line.and(Span::plain("  ")).and(Span::label("Proxied: ")).and(
                Span::button(if self.proxied { "Yes" } else { "No" }, has_focus(focus, FormField::Proxied)),
            )
        } else {
            line
        }
    }

    /// The inputs that only records of some types have.
    pub fn draw_extra(&self, p: &mut Picture, focus: Option<FormField>, at: Rect)
        ensures
            final(p)@ == self@.drawn_extra(old(p)@, focus, at),
    {
        match self.kind {
            RecordType::Mx => {
                p.line(
                    at,
                    Line::of(Span::label("Priority: ")).and(
                        Span::field(&self.priority, has_focus(focus, FormField::Priority), false, 8),
                    ).and(Span::label("  (lower number = higher priority)")),
                );
            },
            RecordType::Srv => {
                p.line(
                    at,
                    Line::of(Span::label("Priority: ")).and(
                        Span::field(&self.priority, has_focus(focus, FormField::Priority), false, 6),
                    ).and(Span::plain("  ")).and(Span::label("Weight: ")).and(
                        Span::field(&self.weight, has_focus(focus, FormField::Weight), false, 6),
                    ).and(Span::plain("  ")).and(Span::label("Port: ")).and(
                        Span::field(&self.port, has_focus(focus, FormField::Port), false, 6),
                    ).and(Span::label("  (Name like _service._proto)")),
                );
            },
            RecordType::Caa => {
                p.line(
                    at,
                    Line::of(Span::label("Flags: ")).and(
                        Span::field(&self.flags, has_focus(focus, FormField::Flags), false, 4),
                    ).and(Span::label("  (0-255)   ")).and(Span::label("Tag: ")).and(
                        Span::button(self.tag.label(), has_focus(focus, FormField::Tag)),
                    ).and(Span::label(" (\u{2190}/\u{2192})")),
                );
            },
            _ => {},
        }
    }
}

/// The rows of the table of accounts.
pub open spec fn account_lines(v: Seq<AccountModel>) -> Seq<LineModel>
    decreases v.len(),
{
    if v.len() == 0 {
        Seq::empty()
    } else {
        let a = v.last();
        account_lines(v.drop_last()).push(
            LineModel::of(SpanModel::plain(a.label)).and(
                SpanModel::plain("\u{2022}\u{2022}\u{2022}\u{2022}\u{2022}\u{2022} (encrypted)"@),
            )
        )
    }
}

pub fn account_rows(v: &Vec<Account>) -> (r: Vec<Line>)
    ensures
        r.deep_view() == account_lines(v.deep_view()),
{
    let ghost all = v.deep_view();
    let mut r: Vec<Line> = no_lines();
    let mut i: usize = 0;
    assert(all.take(0) =~= Seq::empty());
    while i < v.len()
        invariant
            all == v.deep_view(),
            i <= v@.len(),
            r.deep_view() == account_lines(all.take(i as int)),
        decreases v@.len() - i,
    {
        let a = &v[i];
        assert(all.take(i + 1).drop_last() =~= all.take(i as int));
        append_to(
            &mut r,
            Line::of(Span::plain(a.label.as_str())).and(
                Span::plain("\u{2022}\u{2022}\u{2022}\u{2022}\u{2022}\u{2022} (encrypted)"),
            )
        );
        i = i + 1;
    }
    assert(all.take(all.len() as int) =~= all);
    r
}

impl DnsRecordModel {
    /// Whether the record is proxied, where that is a question.
    pub open spec fn proxy_cell(self) -> SpanModel {
        if !dns_record::proxiable_name(self.type_) {
            SpanModel::plain("\u{2014}"@)
        } else if self.proxied {
            SpanModel::text("\u{2601} on"@, Tone::Accent)
        } else {
            SpanModel::plain("off"@)
        }
    }
}

impl DnsRecord {
    /// Whether the record is proxied, where that is a question.
    pub fn proxy_cell(&self) -> (r: Span)
        ensures
            r@ == self@.proxy_cell(),
    {
        if !is_proxiable(self.type_.as_str()) {
            Span::plain("\u{2014}")
        } else if self.proxied {
            Span::text("\u{2601} on", Tone::Accent)
        } else {
            Span::plain("off")
        }
    }
}

/// The rows of the table of records.
pub open spec fn record_lines(v: Seq<DnsRecordModel>) -> Seq<LineModel>
    decreases v.len(),
{
    if v.len() == 0 {
        Seq::empty()
    } else {
        let rec = v.last();
        record_lines(v.drop_last()).push(
            LineModel::of(SpanModel::plain(rec.domain)).and(SpanModel::plain(rec.type_)).and(
                SpanModel::plain(rec.subdomain),
            ).and(SpanModel::plain(rec.value)).and(SpanModel::plain(dns_record::ttl_text(rec.ttl))).and(
                rec.proxy_cell(),
            ).and(SpanModel::plain(rec.account_label))
        )
    }
}

pub fn record_rows(v: &Vec<&DnsRecord>) -> (r: Vec<Line>)
    ensures
        r.deep_view() == record_lines(v.deep_view()),
{
    let ghost all = v.deep_view();
    let mut r: Vec<Line> = no_lines();
    let mut i: usize = 0;
    assert(all.take(0) =~= Seq::empty());
    while i < v.len()
        invariant
            all == v.deep_view(),
            i <= v@.len(),
            r.deep_view() == record_lines(all.take(i as int)),
        decreases v@.len() - i,
    {
        let rec = &v[i];
        assert(all.take(i + 1).drop_last() =~= all.take(i as int));
        append_to(
            &mut r,
            Line::of(Span::plain(rec.domain.as_str())).and(Span::plain(rec.type_.as_str())).and(
                Span::plain(rec.subdomain.as_str()),
            ).and(Span::plain(rec.value.as_str())).and(Span::plain(fmt_ttl(rec.ttl).as_str())).and(
                rec.proxy_cell(),
            ).and(Span::plain(rec.account_label.as_str()))
        );
        i = i + 1;
    }
    assert(all.take(all.len() as int) =~= all);
    r
}

impl DnsRecordInputModel {
    /// A mark on proxied records.
    pub open spec fn proxy_mark(self) -> Seq<char> {
        if dns_record::proxiable_name(self.type_) && self.proxied {
            " \u{2601}"@
        } else {
            ""@
        }
    }

    /// A staged record in one line.
    pub open spec fn staged_text(self) -> Seq<char> {
        let kind = padded(self.type_, 6);
        let name = padded(self.subdomain, 16);
        let value = padded(self.value, 28);
        let ttl = dns_record::ttl_text(self.ttl);
        let left = (kind + " "@ + name + " "@ + value);
        (left + " "@ + ttl + self.proxy_mark())
    }
}

impl DnsRecordInput {
    /// A mark on proxied records.
    pub fn proxy_mark(&self) -> (r: &'static str)
        ensures
            r@ == self@.proxy_mark(),
    {
        if is_proxiable(self.type_.as_str()) && self.proxied {
            " \u{2601}"
        } else {
            ""
        }
    }

    /// A staged record in one line.
    pub fn staged_text(&self) -> (r: String)
        ensures
            r@ == self@.staged_text(),
    {
        let kind = pad(self.type_.as_str(), 6);
        let name = pad(self.subdomain.as_str(), 16);
        let value = pad(self.value.as_str(), 28);
        let ttl = fmt_ttl(self.ttl);
        let left = cat5(kind.as_str(), " ", name.as_str(), " ", value.as_str());
        cat4(left.as_str(), " ", ttl.as_str(), self.proxy_mark())
    }
}

/// The staged records, with the chosen one marked while the focus is on them.
pub open spec fn staged_lines(v: Seq<DnsRecordInputModel>, focused: bool, chosen: int) -> Seq<LineModel>
    decreases v.len(),
{
    if v.len() == 0 {
        Seq::empty()
    } else {
        let rec = v.last();
        let index = v.len() - 1;
        staged_lines(v.drop_last(), focused, chosen).push(
            if focused && index == chosen {
                LineModel::of(SpanModel::text((" \u{25B6} "@ + rec.staged_text()), Tone::Focus))
            } else {
                LineModel::of(SpanModel::text(("   "@ + rec.staged_text()), Tone::Plain))
            }
        )
    }
}

pub fn staged_rows(v: &Vec<DnsRecordInput>, focused: bool, chosen: usize) -> (r: Vec<Line>)
    ensures
        r.deep_view() == staged_lines(v.deep_view(), focused, chosen as int),
{
    let ghost all = v.deep_view();
    let mut r: Vec<Line> = no_lines();
    let mut i: usize = 0;
    assert(all.take(0) =~= Seq::empty());
    while i < v.len()
        invariant
            all == v.deep_view(),
            i <= v@.len(),
            r.deep_view() == staged_lines(all.take(i as int), focused, chosen as int),
        decreases v@.len() - i,
    {
        let rec = &v[i];
        let index: usize = i;
        assert(all.take(i + 1).drop_last() =~= all.take(i as int));
        append_to(
            &mut r,
            if focused && index == chosen {
                Line::of(Span::text(cat2(" \u{25B6} ", rec.staged_text().as_str()).as_str(), Tone::Focus))
            } else {
                Line::of(Span::text(cat2("   ", rec.staged_text().as_str()).as_str(), Tone::Plain))
            }
        );
        i = i + 1;
    }
    assert(all.take(all.len() as int) =~= all);
    r
}

/// Where the hint under the zone stands.
pub open spec fn hint_rect(row: Rect) -> Rect {
    Rect {
        x: row.x,
        y: geometry::min_int(row.y + 1, u16::MAX as int) as u16,
        width: geometry::min_int(row.width as int, 70) as u16,
        height: 1,
    }
}

fn hint_area(row: Rect) -> (r: Rect)
    ensures
        r == hint_rect(row),
{
    Rect { x: row.x, y: row.y.saturating_add(1), width: min_u16(row.width, 70), height: 1 }
}

impl AddModalModel {
    /// The field of the record that has the focus.
    pub open spec fn form_focus(self) -> Option<FormField> {
        match self.field {
            AddField::Form(f) => Some(f),
            _ => None,
        }
    }

    pub open spec fn drawn_on(self, p: PictureModel, area: Rect, screen: Rect, rows: Seq<Rect>, zones: Seq<ZoneModel>) -> PictureModel {
        let p = p.modal(area, " Add DNS Record(s) "@, Frame::Modal);
        let p = p.input(rows[0], "Zone: "@, self.zone, self.field == AddField::Zone, false, room_in(rows[0], 7));
        let p = p.line(rows[2], self.form.main_line(self.form_focus()));
        let p = self.form.drawn_extra(p, self.form_focus(), rows[4]);
        let p = p.input(
            rows[6],
            "Value: "@,
            self.form.value,
            self.field == AddField::Form(FormField::Value),
            false,
            room_in(rows[6], 7),
        );
        let p = p.line(rows[8], LineModel::of(SpanModel::button("+ Add to list"@, self.field == AddField::BtnStage)));
        let n = text::decimal(self.pending.len() as nat);
        let p = p.note(rows[10], ("Pending ("@ + n + "):"@), Tone::Label);
        let p = if self.pending.len() == 0 {
            p.note(
                rows[11],
                "  (none yet — pick a zone, fill the form above, and \"+ Add to list\")"@,
                Tone::Label,
            )
        } else {
            p.paragraph(
                rows[11],
                staged_lines(self.pending, self.field == AddField::PendingList, self.pending_idx),
                0,
                Wrap::Clip,
            )
        };
        let p = p.line(
            rows[13],
            LineModel::of(SpanModel::button("Save All"@, self.field == AddField::BtnSaveAll)).button(
                "Cancel"@,
                self.field == AddField::BtnCancel,
            ),
        );
        let p = if self.confirm_discard {
            p.note(
                rows[14],
                ("\u{26a0} "@ + n + " staged record(s) NOT saved yet \u{2014} Esc/Cancel again to discard, or Tab to \"Save All\""@),
                Tone::BadStrong,
            )
        } else {
            p.note(
                rows[14],
                "\"+ Add to list\" stages only, \"Save All\" creates them  \u{2022}  \u{2191}\u{2193}/Del on list to remove  \u{2022}  Esc cancel"@,
                Tone::Label,
            )
        };
        if self.zone_dropdown_open {
            let query = self.zone.text;
            p.dropdown(cloudflare_screen::zones_filtered(zones, query), self.zone_idx, rows[0], 6, 34, 34, screen)
        } else if zones.len() == 0 && self.field == AddField::Zone {
            p.note(
                hint_rect(rows[0]),
                "no zones loaded for this account yet — type one, or wait a moment and retry"@,
                Tone::Warn,
            )
        } else {
            p
        }
    }
}

impl AddModal {
    /// The field of the record that has the focus.
    pub fn form_focus(&self) -> (r: Option<FormField>)
        ensures
            r == self@.form_focus(),
    {
        match self.field {
            AddField::Form(f) => Some(f),
            _ => None,
        }
    }

    pub fn draw_on(&self, p: &mut Picture, area: Rect, screen: Rect, rows: &Vec<Rect>, zones: &Vec<Zone>)
        requires
            rows@.len() == 15,
        ensures
            final(p)@ == self@.drawn_on(old(p)@, area, screen, rows@, zones.deep_view()),
    {
        p.modal(area, " Add DNS Record(s) ", Frame::Modal);
        p.input(rows[0], "Zone: ", &self.zone, self.field == AddField::Zone, false, room(rows[0], 7));
        p.line(rows[2], self.form.main_line(self.form_focus()));
        self.form.draw_extra(p, self.form_focus(), rows[4]);
        p.input(
            rows[6],
            "Value: ",
            &self.form.value,
            self.field == AddField::Form(FormField::Value),
            false,
            room(rows[6], 7),
        );
        p.line(rows[8], Line::of(Span::button("+ Add to list", self.field == AddField::BtnStage)));
        let n = number(self.pending.len() as u64);
        p.note(rows[10], cat3("Pending (", n.as_str(), "):").as_str(), Tone::Label);
        if self.pending.len() == 0 {
            p.note(
                rows[11],
                "  (none yet — pick a zone, fill the form above, and \"+ Add to list\")",
                Tone::Label,
            );
        } else {
            p.paragraph(
                rows[11],
                staged_rows(&self.pending, self.field == AddField::PendingList, self.pending_idx),
                0,
                Wrap::Clip,
            );
        }
        p.line(
            rows[13],
            Line::of(Span::button("Save All", self.field == AddField::BtnSaveAll)).button(
                "Cancel",
                self.field == AddField::BtnCancel,
            ),
        );
        if self.confirm_discard {
            p.note(
                rows[14],
                cat3(
                    "\u{26a0} ",
                    n.as_str(),
                    " staged record(s) NOT saved yet \u{2014} Esc/Cancel again to discard, or Tab to \"Save All\"",
                ).as_str(),
                Tone::BadStrong,
            );
        } else {
            p.note(
                rows[14],
                "\"+ Add to list\" stages only, \"Save All\" creates them  \u{2022}  \u{2191}\u{2193}/Del on list to remove  \u{2022}  Esc cancel",
                Tone::Label,
            );
        }
        if self.zone_dropdown_open {
            let query = self.zone.value();
            p.dropdown(filtered_zones(zones, query.as_str()), self.zone_idx, rows[0], 6, 34, 34, screen);
        } else if zones.len() == 0 && self.field == AddField::Zone {
            p.note(
                hint_area(rows[0]),
                "no zones loaded for this account yet — type one, or wait a moment and retry",
                Tone::Warn,
            );
        }
    }
}

impl EditModalModel {
    /// The field of the record that has the focus.
    pub open spec fn form_focus(self) -> Option<FormField> {
        match self.field {
            EditField::Form(f) => Some(f),
            _ => None,
        }
    }

    pub open spec fn drawn_on(self, p: PictureModel, area: Rect, rows: Seq<Rect>) -> PictureModel {
        let p = p.modal(
            area,
            (" Edit / Delete Record — "@ + self.original.domain + " "@),
            Frame::Modal,
        );
        let p = p.line(rows[0], self.form.main_line(self.form_focus()));
        let p = self.form.drawn_extra(p, self.form_focus(), rows[2]);
        let p = p.input(
            rows[4],
            "Value: "@,
            self.form.value,
            self.field == EditField::Form(FormField::Value),
            false,
            room_in(rows[4], 7),
        );
        let p = p.line(
            rows[6],
            LineModel::of(SpanModel::button("Update"@, self.field == EditField::BtnUpdate)).button(
                "Delete"@,
                self.field == EditField::BtnDelete,
            ).button("Cancel"@, self.field == EditField::BtnCancel),
        );
        p.note(rows[8], "Tab navigate  \u{2022}  Enter activate  \u{2022}  Esc cancel"@, Tone::Label)
    }
}

impl EditModal {
    /// The field of the record that has the focus.
    pub fn form_focus(&self) -> (r: Option<FormField>)
        ensures
            r == self@.form_focus(),
    {
        match self.field {
            EditField::Form(f) => Some(f),
            _ => None,
        }
    }

    pub fn draw_on(&self, p: &mut Picture, area: Rect, rows: &Vec<Rect>)
        requires
            rows@.len() == 10,
        ensures
            final(p)@ == self@.drawn_on(old(p)@, area, rows@),
    {
        p.modal(
            area,
            cat3(" Edit / Delete Record — ", self.original.domain.as_str(), " ").as_str(),
            Frame::Modal,
        );
        p.line(rows[0], self.form.main_line(self.form_focus()));
        self.form.draw_extra(p, self.form_focus(), rows[2]);
        p.input(
            rows[4],
            "Value: ",
            &self.form.value,
            self.field == EditField::Form(FormField::Value),
            false,
            room(rows[4], 7),
        );
        p.line(
            rows[6],
            Line::of(Span::button("Update", self.field == EditField::BtnUpdate)).button(
                "Delete",
                self.field == EditField::BtnDelete,
            ).button("Cancel", self.field == EditField::BtnCancel),
        );
        p.note(rows[8], "Tab navigate  \u{2022}  Enter activate  \u{2022}  Esc cancel", Tone::Label);
    }
}

impl AccountsTabModel {
    pub open spec fn drawn_form(self, p: PictureModel, rows: Seq<Rect>) -> PictureModel {
        let w = room_in(rows[0], 14);
        let p = p.input(rows[0], "Label:        "@, self.label, self.field == AccField::Label, false, w);
        let p = p.input(rows[2], "API Token:    "@, self.api_token, self.field == AccField::ApiToken, true, w);
        let p = match self.selected {
            Some(_) => {
                p.note(rows[4], "editing existing account — re-enter the token to update it"@, Tone::Label)
            },
            None => {
                p.note(
                    rows[4],
                    "creating a new account — needs a scoped API Token with Zone:Read + DNS:Edit"@,
                    Tone::Label,
                )
            },
        };
        let p = p.line(
            rows[6],
            LineModel::of(SpanModel::button("Save"@, self.field == AccField::BtnSave)).button(
                "New"@,
                self.field == AccField::BtnNew,
            ).button("Delete"@, self.field == AccField::BtnDelete).button(
                "Test Token"@,
                self.field == AccField::BtnTest,
            ),
        );
        p.note(rows[8], "\u{2191}\u{2193} select row  Enter load row  Tab navigate  Esc back"@, Tone::Label)
    }
}

impl AccountsTab {
    pub fn draw_form(&self, p: &mut Picture, rows: &Vec<Rect>)
        requires
            rows@.len() == 10,
        ensures
            final(p)@ == self@.drawn_form(old(p)@, rows@),
    {
        let w: usize = room(rows[0], 14);
        p.input(rows[0], "Label:        ", &self.label, self.field == AccField::Label, false, w);
        p.input(rows[2], "API Token:    ", &self.api_token, self.field == AccField::ApiToken, true, w);
        match self.selected {
            Some(_) => {
                p.note(rows[4], "editing existing account — re-enter the token to update it", Tone::Label);
            },
            None => {
                p.note(
                    rows[4],
                    "creating a new account — needs a scoped API Token with Zone:Read + DNS:Edit",
                    Tone::Label,
                );
            },
        }
        p.line(
            rows[6],
            Line::of(Span::button("Save", self.field == AccField::BtnSave)).button(
                "New",
                self.field == AccField::BtnNew,
            ).button("Delete", self.field == AccField::BtnDelete).button(
                "Test Token",
                self.field == AccField::BtnTest,
            ),
        );
        p.note(rows[8], "\u{2191}\u{2193} select row  Enter load row  Tab navigate  Esc back", Tone::Label);
    }
}

impl CloudflareScreenModel {
    pub open spec fn drawn_accounts(self, p: PictureModel, l: CloudflareLayoutModel, rows: Seq<Rect>) -> PictureModel {
        let p = p.table(
            l.accounts[0],
            TableModel::new(" Accounts "@, self.accounts_tab.field == AccField::Table).column(
                "Label"@,
                Width::Fixed(24),
            ).column("API Token"@, Width::Rest(0)).rows(
                account_lines(self.cfg.accounts),
                self.accounts_tab.table_idx,
            ),
        );
        let p = p.panel(l.accounts[1], " Add / Edit Account "@);
        let p = self.accounts_tab.drawn_form(p, rows);
        p.history(l.accounts[2], self.log)
    }

    pub open spec fn drawn_fetch(self, p: PictureModel, l: CloudflareLayoutModel) -> PictureModel {
        let p = p.panel(l.records[0], " Fetch "@);
        let p = p.input(
            l.top[0],
            "Account:    "@,
            self.records_tab.account_input,
            self.records_tab.field == RecField::Account,
            false,
            room_in(l.top[0], 12),
        );
        let p = p.line(
            l.top[2],
            LineModel::of(SpanModel::label("Zone:       "@)).and(
                SpanModel::field(
                    self.records_tab.zone,
                    self.records_tab.field == RecField::Zone,
                    false,
                    room_in(l.top[2], 30),
                ),
            ).button("Fetch"@, self.records_tab.field == RecField::BtnFetch),
        );
        let p = p.panel(l.records[1], " Search (across everything currently loaded) "@);
        let p = p.input(
            l.search[0],
            "Search: "@,
            self.records_tab.search,
            self.records_tab.field == RecField::Search,
            false,
            room_in(l.search[0], 9),
        );
        p.line(
            l.search[2],
            LineModel::of(SpanModel::label("Type: "@)).and(
                SpanModel::button(
                    self.records_tab.type_filter.name(),
                    self.records_tab.field == RecField::TypeFilter,
                ),
            ).and(SpanModel::label("  (\u{2190}/\u{2192})   "@)).and(
                SpanModel::button("Fetch All Accounts"@, self.records_tab.field == RecField::BtnFetchAll),
            ).and(SpanModel::label("   Account field above also filters"@)),
        )
    }

    pub open spec fn drawn_records(self, p: PictureModel, l: CloudflareLayoutModel) -> PictureModel {
        let p = self.drawn_fetch(p, l);
        let visible = self.records_tab.visible(self.cfg.accounts);
        let n = text::decimal(visible.len() as nat);
        let all = text::decimal(self.records_tab.rows.len() as nat);
        let title = (" Records ("@ + n + " of "@ + all + ") "@);
        let p = p.table(
            l.records[2],
            TableModel::new(title, self.records_tab.field == RecField::Table).column(
                "Zone"@,
                Width::Fixed(18),
            ).column("Type"@, Width::Fixed(6)).column("Name"@, Width::Fixed(12)).column(
                "Value"@,
                Width::Rest(16),
            ).column("TTL"@, Width::Fixed(6)).column("Proxy"@, Width::Fixed(7)).column(
                "Account"@,
                Width::Fixed(12),
            ).rows(record_lines(visible), self.records_tab.selected_row),
        );
        let p = p.panel(l.records[3], " Actions "@);
        let p = p.line(
            l.actions[0],
            LineModel::of(SpanModel::button("Add Record(s)"@, self.records_tab.field == RecField::BtnAddRecords)),
        );
        let p = p.note(
            l.actions[1],
            "Enter on a table row opens Edit/Delete  \u{2022}  y copies its Value  \u{2022}  Add lets you pick the zone inside"@,
            Tone::Label,
        );
        let p = p.history(l.records[4], self.log);
        let p = if self.records_tab.account_dropdown_open {
            let query = self.records_tab.account_input.text;
            p.dropdown(
                self.cfg.filtered(query),
                self.records_tab.account_idx,
                l.top[0],
                12,
                34,
                34,
                l.screen[1],
            )
        } else {
            p
        };
        if self.records_tab.zone_dropdown_open {
            let query = self.records_tab.zone.text;
            p.dropdown(
                cloudflare_screen::zones_filtered(self.records_tab.known_zones, query),
                self.records_tab.zone_idx,
                l.top[2],
                12,
                34,
                34,
                l.screen[1],
            )
        } else {
            p
        }
    }

    /// The whole screen, drawn into its rows; `rows` are those of the account form.
    pub open spec fn drawn_on(self, p: PictureModel, area: Rect, l: CloudflareLayoutModel, rows: Seq<Rect>) -> PictureModel {
        let p = p.line(
            l.screen[0],
            LineModel::of(SpanModel::tab("F1 Accounts"@, self.tab == Tab::Accounts)).and(SpanModel::plain("  "@)).and(
                SpanModel::tab("F2 Records"@, self.tab == Tab::Records),
            ).and(SpanModel::plain("  "@)).and(SpanModel::text("Esc back  Ctrl+C quit"@, Tone::Dim)),
        );
        let p = match self.tab {
            Tab::Accounts => {
                self.drawn_accounts(p, l, rows)
            },
            Tab::Records => {
                let p = self.drawn_records(p, l);
                match self.records_tab.modal {
                    Some(RecordModalModel::Add(m)) => {
                        m.drawn_on(p, geometry::modal_rect(92, 23, 4, 2, area), area, l.add, self.records_tab.known_zones)
                    },
                    Some(RecordModalModel::Edit(m)) => {
                        m.drawn_on(p, geometry::modal_rect(92, 15, 4, 2, area), l.edit)
                    },
                    None => {
                        p
                    },
                }
            },
        };
        p.alert(area, self.log)
    }
}

impl CloudflareScreen {
    pub fn draw_accounts(&self, p: &mut Picture, l: &CloudflareLayout, rows: &Vec<Rect>)
        requires
            l@.complete(),
            rows@.len() == 10,
        ensures
            final(p)@ == self@.drawn_accounts(old(p)@, l@, rows@),
    {
        p.table(
            l.accounts[0],
            Table::new(" Accounts ", self.accounts_tab.field == AccField::Table).column(
                "Label",
                Width::Fixed(24),
            ).column("API Token", Width::Rest(0)).rows(
                account_rows(&self.cfg.accounts),
                self.accounts_tab.table_idx,
            ),
        );
        p.panel(l.accounts[1], " Add / Edit Account ");
        self.accounts_tab.draw_form(p, rows);
        p.history(l.accounts[2], &self.log);
    }

    pub fn draw_fetch(&self, p: &mut Picture, l: &CloudflareLayout)
        requires
            l@.complete(),
        ensures
            final(p)@ == self@.drawn_fetch(old(p)@, l@),
    {
        p.panel(l.records[0], " Fetch ");
        p.input(
            l.top[0],
            "Account:    ",
            &self.records_tab.account_input,
            self.records_tab.field == RecField::Account,
            false,
            room(l.top[0], 12),
        );
        p.line(
            l.top[2],
            Line::of(Span::label("Zone:       ")).and(
                Span::field(
                    &self.records_tab.zone,
                    self.records_tab.field == RecField::Zone,
                    false,
                    room(l.top[2], 30),
                ),
            ).button("Fetch", self.records_tab.field == RecField::BtnFetch),
        );
        p.panel(l.records[1], " Search (across everything currently loaded) ");
        p.input(
            l.search[0],
            "Search: ",
            &self.records_tab.search,
            self.records_tab.field == RecField::Search,
            false,
            room(l.search[0], 9),
        );
        p.line(
            l.search[2],
            Line::of(Span::label("Type: ")).and(
                Span::button(
                    self.records_tab.type_filter.label(),
                    self.records_tab.field == RecField::TypeFilter,
                ),
            ).and(Span::label("  (\u{2190}/\u{2192})   ")).and(
                Span::button("Fetch All Accounts", self.records_tab.field == RecField::BtnFetchAll),
            ).and(Span::label("   Account field above also filters")),
        );
    }

    pub fn draw_records(&self, p: &mut Picture, l: &CloudflareLayout)
        requires
            l@.complete(),
        ensures
            final(p)@ == self@.drawn_records(old(p)@, l@),
    {
        self.draw_fetch(p, l);
        let visible = self.records_tab.visible_rows(&self.cfg);
        let n = number(visible.len() as u64);
        let all = number(self.records_tab.rows.len() as u64);
        let title = cat5(" Records (", n.as_str(), " of ", all.as_str(), ") ");
        p.table(
            l.records[2],
            Table::new(title.as_str(), self.records_tab.field == RecField::Table).column(
                "Zone",
                Width::Fixed(18),
            ).column("Type", Width::Fixed(6)).column("Name", Width::Fixed(12)).column(
                "Value",
                Width::Rest(16),
            ).column("TTL", Width::Fixed(6)).column("Proxy", Width::Fixed(7)).column(
                "Account",
                Width::Fixed(12),
            ).rows(record_rows(&visible), self.records_tab.selected_row),
        );
        p.panel(l.records[3], " Actions ");
        p.line(
            l.actions[0],
            Line::of(Span::button("Add Record(s)", self.records_tab.field == RecField::BtnAddRecords)),
        );
        p.note(
            l.actions[1],
            "Enter on a table row opens Edit/Delete  \u{2022}  y copies its Value  \u{2022}  Add lets you pick the zone inside",
            Tone::Label,
        );
        p.history(l.records[4], &self.log);
        if self.records_tab.account_dropdown_open {
            let query = self.records_tab.account_input.value();
            p.dropdown(
                filtered_accounts(&self.cfg, query.as_str()),
                self.records_tab.account_idx,
                l.top[0],
                12,
                34,
                34,
                l.screen[1],
            );
        }
        if self.records_tab.zone_dropdown_open {
            let query = self.records_tab.zone.value();
            p.dropdown(
                filtered_zones(&self.records_tab.known_zones, query.as_str()),
                self.records_tab.zone_idx,
                l.top[2],
                12,
                34,
                34,
                l.screen[1],
            );
        }
    }

    /// The whole screen, drawn into its rows; `rows` are those of the account form.
    pub fn draw_on(&self, p: &mut Picture, area: Rect, l: &CloudflareLayout, rows: &Vec<Rect>)
        requires
            l@.complete(),
            rows@.len() == 10,
        ensures
            final(p)@ == self@.drawn_on(old(p)@, area, l@, rows@),
    {
        p.line(
            l.screen[0],
            Line::of(Span::tab("F1 Accounts", self.tab == Tab::Accounts)).and(Span::plain("  ")).and(
                Span::tab("F2 Records", self.tab == Tab::Records),
            ).and(Span::plain("  ")).and(Span::text("Esc back  Ctrl+C quit", Tone::Dim)),
        );
        match self.tab {
            Tab::Accounts => {
                self.draw_accounts(p, l, rows);
            },
            Tab::Records => {
                self.draw_records(p, l);
                match &self.records_tab.modal {
                    Some(RecordModal::Add(m)) => {
                        m.draw_on(p, modal_area(92, 23, 4, 2, area), area, &l.add, &self.records_tab.known_zones);
                    },
                    Some(RecordModal::Edit(m)) => {
                        m.draw_on(p, modal_area(92, 15, 4, 2, area), &l.edit);
                    },
                    None => {},
                }
            },
        }
        p.alert(area, &self.log);
    }
}

/// The rows that the account form is drawn into.
pub open spec fn account_form_rows(l: CloudflareLayoutModel, rows: Seq<Rect>) -> bool {
    geometry::stacked(mouse::inner(l.accounts[1]), 1, form::lines(9), rows)
}

impl CloudflareScreenModel {
    /// Whether `p` is a picture of the screen in `area`: the screen drawn into
    /// rows that `area` can be split into.
    pub open spec fn shows(self, area: Rect, p: PictureModel) -> bool {
        exists|l: CloudflareLayoutModel, rows: Seq<Rect>|
            #![trigger l.of(area), account_form_rows(l, rows)]
            l.of(area) && account_form_rows(l, rows) && p == self.drawn_on(
                PictureModel::empty(),
                area,
                l,
                rows,
            )
    }
}

impl CloudflareScreen {
    /// The picture of the screen in `area`.
    pub fn draw(&self, area: Rect) -> (r: Picture)
        ensures
            self@.shows(area, r@),
    {
        let l = self.layout(area);
        let cs = line_constraints(9);
        let rows = split_rows(block_inner(l.accounts[1]), 1, &cs);
        let mut p = Picture::empty();
        self.draw_on(&mut p, area, &l, &rows);
        assert(account_form_rows(l@, rows@));
        p
    }
}

// -------------------------------------------------------------------- laws

/// The inputs of a record are drawn at the columns where clicks look for them.
pub proof fn record_inputs_are_drawn_where_they_are_hit(form: RecordFormModel, focus: Option<FormField>)
    ensures
        ({
            let line = form.main_line(focus);
            &&& line.spans[1] == SpanModel::button(form.kind.name(), focused_on(focus, FormField::Type))
            &&& line.width(1) == 6
            &&& line.width(2) == 6 + form.type_width()
            &&& line.spans[4] == SpanModel::field(form.name, focused_on(focus, FormField::Name), false, 20)
            &&& line.width(4) == form.name_column()
            &&& line.spans[7] == SpanModel::field(form.ttl, focused_on(focus, FormField::Ttl), false, 8)
            &&& line.width(7) == form.ttl_column()
            &&& form.kind.proxiable() ==> line.width(10) == form.proxied_column()
        }),
{
    reveal_with_fuel(LineModel::width, 12);
    reveal_strlit("Type: ");
    reveal_strlit(" (\u{2190}/\u{2192})   ");
    reveal_strlit("Name: ");
    reveal_strlit("  ");
    reveal_strlit("TTL: ");
    reveal_strlit("Proxied: ");
    reveal_strlit("[ ");
    reveal_strlit(" ]");
}

} // verus!
