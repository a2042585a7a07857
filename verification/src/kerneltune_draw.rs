//! What the Kernel Tuner shows.
use vstd::prelude::*;

use crate::geometry::{centered_rect, min_u16, modal_area, split_rows, Constraint, Rect};
use crate::geometry;
use crate::kerneltune_screen;
use crate::kerneltune_screen::{
    find_staged, find_value, relative_time, Catalog, CatalogField, CatalogModel, ConfirmModal, ConfirmModalModel,
    DetailField, DetailModal, DetailModalModel, HistoryEntry, HistoryEntryModel, KernelTuneLayout,
    KernelTuneLayoutModel, KernelTuneScreen, KernelTuneScreenModel, ProfileValue, ProfileValueModel, ReviewField, Risk,
    StagedChange, StagedChangeModel, Tab, Tunable, TunableModel,
};
use crate::model::append_to;
use crate::mouse;
use crate::mouse::block_inner;
use crate::picture;
use crate::picture::{
    chain, no_lines, plain_rows, room_least, room_of, with_line, Frame, Line, LineModel, Picture, PictureModel,
    Span, SpanModel, Table, TableModel, Tone, Width, Wrap,
};
use crate::text;
use crate::text::{cat2, cat3, cat5, owned, split_lines};

verus! {

/// A text, or another where there is none.
pub open spec fn or_default(t: Option<Seq<char>>, d: Seq<char>) -> Seq<char> {
    match t {
        Some(s) => s,
        None => d,
    }
}

fn or_text(t: Option<String>, d: &str) -> (r: String)
    ensures
        r@ == or_default(t.deep_view(), d@),
{
    match t {
        Some(s) => s,
        None => owned(d),
    }
}

/// The value that is staged for a key, if any.
pub open spec fn staged_text(staged: Seq<StagedChangeModel>, key: Seq<char>) -> Seq<char> {
    match kerneltune_screen::staged_of(staged, key) {
        Some(c) => c.value,
        None => ""@,
    }
}

fn staged_value(staged: &Vec<StagedChange>, key: &str) -> (r: String)
    ensures
        r@ == staged_text(staged.deep_view(), key@),
{
    match find_staged(staged, key) {
        Some(c) => c.value,
        None => owned(""),
    }
}

/// The name of a chosen profile or category.
pub open spec fn choice_text(names: Seq<Seq<char>>, c: Option<usize>) -> Seq<char> {
    match c {
        Some(i) => if i < names.len() {
            names[i as int]
        } else {
            ""@
        },
        None => "All"@,
    }
}

fn choice_name(names: &Vec<String>, c: Option<usize>) -> (r: String)
    ensures
        r@ == choice_text(names.deep_view(), c),
{
    assert(names.deep_view().len() == names@.len());
    match c {
        Some(i) => if i < names.len() {
            names[i].clone()
        } else {
            owned("")
        },
        None => owned("All"),
    }
}

/// The colour of a risk.
pub open spec fn risk_tone(r: Risk) -> Tone {
    match r {
        Risk::Safe => Tone::Good,
        Risk::Caution => Tone::Warn,
        Risk::Advanced => Tone::Bad,
    }
}

pub fn risk_color(r: Risk) -> (t: Tone)
    ensures
        t == risk_tone(r),
{
    match r {
        Risk::Safe => Tone::Good,
        Risk::Caution => Tone::Warn,
        Risk::Advanced => Tone::Bad,
    }
}

/// The rows of the catalog: each tunable with its value, the staged one and its risk.
pub open spec fn catalog_lines(v: Seq<TunableModel>, values: Seq<(Seq<char>, Seq<char>)>, staged: Seq<StagedChangeModel>) -> Seq<LineModel>
    decreases v.len(),
{
    if v.len() == 0 {
        Seq::empty()
    } else {
        let t = v.last();
        catalog_lines(v.drop_last(), values, staged).push(
            LineModel::of(SpanModel::plain(t.title)).and(
                SpanModel::plain(or_default(kerneltune_screen::value_of(values, t.key), "n/a"@)),
            ).and(SpanModel::text(staged_text(staged, t.key), Tone::Accent)).and(
                SpanModel::text(t.risk.name(), risk_tone(t.risk)),
            )
        )
    }
}

pub fn catalog_rows(v: &Vec<&Tunable>, values: &Vec<(String, String)>, staged: &Vec<StagedChange>) -> (r: Vec<Line>)
    ensures
        r.deep_view() == catalog_lines(v.deep_view(), values.deep_view(), staged.deep_view()),
{
    let ghost all = v.deep_view();
    let mut r: Vec<Line> = no_lines();
    let mut i: usize = 0;
    assert(all.take(0) =~= Seq::empty());
    while i < v.len()
        invariant
            all == v.deep_view(),
            i <= v@.len(),
            r.deep_view() == catalog_lines(all.take(i as int), values.deep_view(), staged.deep_view()),
        decreases v@.len() - i,
    {
        let t = &v[i];
        assert(all.take(i + 1).drop_last() =~= all.take(i as int));
        append_to(
            &mut r,
            Line::of(Span::plain(t.title.as_str())).and(
                Span::plain(or_text(find_value(values, t.key.as_str()), "n/a").as_str()),
            ).and(Span::text(staged_value(staged, t.key.as_str()).as_str(), Tone::Accent)).and(
                Span::text(t.risk.label(), risk_color(t.risk)),
            )
        );
        i = i + 1;
    }
    assert(all.take(all.len() as int) =~= all);
    r
}

/// The title of a tunable; its key where it is not in the catalog.
pub open spec fn title_of(catalog: CatalogModel, key: Seq<char>) -> Seq<char> {
    match kerneltune_screen::by_key(catalog.tunables, key) {
        Some(t) => t.title,
        None => key,
    }
}

fn known_title(catalog: &Catalog, key: &str) -> (r: String)
    ensures
        r@ == title_of(catalog@, key@),
{
    match catalog.find(key) {
        Some(t) => t.title.clone(),
        None => owned(key),
    }
}

/// The risk of a tunable; none where it is not in the catalog.
pub open spec fn risk_of(catalog: CatalogModel, key: Seq<char>) -> Risk {
    match kerneltune_screen::by_key(catalog.tunables, key) {
        Some(t) => t.risk,
        None => Risk::Safe,
    }
}

fn known_risk(catalog: &Catalog, key: &str) -> (r: Risk)
    ensures
        r == risk_of(catalog@, key@),
{
    match catalog.find(key) {
        Some(t) => t.risk,
        None => Risk::Safe,
    }
}

/// Whether a change always persists.
pub open spec fn always(catalog: CatalogModel, key: Seq<char>) -> bool {
    match kerneltune_screen::by_key(catalog.tunables, key) {
        Some(t) => t.always_persists,
        None => false,
    }
}

fn no_session_form(catalog: &Catalog, key: &str) -> (r: bool)
    ensures
        r == always(catalog@, key@),
{
    match catalog.find(key) {
        Some(t) => t.always_persists,
        None => false,
    }
}

impl StagedChangeModel {
    /// Whether the change outlives the session.
    pub open spec fn persist_cell(self, always: bool) -> SpanModel {
        if always {
            SpanModel::text("always (no runtime-only form)"@, Tone::Dim)
        } else if self.persist {
            SpanModel::text("[x] yes — survives reboot"@, Tone::Warn)
        } else {
            SpanModel::text("[ ] no — this session only"@, Tone::Dim)
        }
    }
}

impl StagedChange {
    /// Whether the change outlives the session.
    pub fn persist_cell(&self, always: bool) -> (r: Span)
        ensures
            r@ == self@.persist_cell(always),
    {
        if always {
            Span::text("always (no runtime-only form)", Tone::Dim)
        } else if self.persist {
            Span::text("[x] yes — survives reboot", Tone::Warn)
        } else {
            Span::text("[ ] no — this session only", Tone::Dim)
        }
    }
}

/// The rows of the staged changes.
pub open spec fn staged_lines(v: Seq<StagedChangeModel>, catalog: CatalogModel) -> Seq<LineModel>
    decreases v.len(),
{
    if v.len() == 0 {
        Seq::empty()
    } else {
        let s = v.last();
        staged_lines(v.drop_last(), catalog).push(
            LineModel::of(SpanModel::plain(title_of(catalog, s.key))).and(
                SpanModel::plain(s.previous),
            ).and(SpanModel::text(s.value, Tone::Accent)).and(
                s.persist_cell(always(catalog, s.key)),
            ).and(
                SpanModel::text(
                    risk_of(catalog, s.key).name(),
                    risk_tone(risk_of(catalog, s.key)),
                ),
            )
        )
    }
}

pub fn staged_rows(v: &Vec<StagedChange>, catalog: &Catalog) -> (r: Vec<Line>)
    ensures
        r.deep_view() == staged_lines(v.deep_view(), catalog@),
{
    let ghost all = v.deep_view();
    let mut r: Vec<Line> = no_lines();
    let mut i: usize = 0;
    assert(all.take(0) =~= Seq::empty());
    while i < v.len()
        invariant
            all == v.deep_view(),
            i <= v@.len(),
            r.deep_view() == staged_lines(all.take(i as int), catalog@),
        decreases v@.len() - i,
    {
        let s = &v[i];
        assert(all.take(i + 1).drop_last() =~= all.take(i as int));
        append_to(
            &mut r,
            Line::of(Span::plain(known_title(catalog, s.key.as_str()).as_str())).and(
                Span::plain(s.previous.as_str()),
            ).and(Span::text(s.value.as_str(), Tone::Accent)).and(
                s.persist_cell(no_session_form(catalog, s.key.as_str())),
            ).and(
                Span::text(
                    known_risk(catalog, s.key.as_str()).label(),
                    risk_color(known_risk(catalog, s.key.as_str())),
                ),
            )
        );
        i = i + 1;
    }
    assert(all.take(all.len() as int) =~= all);
    r
}

/// The rows of the changes that were applied.
pub open spec fn history_lines(v: Seq<HistoryEntryModel>, now: u64) -> Seq<LineModel>
    decreases v.len(),
{
    if v.len() == 0 {
        Seq::empty()
    } else {
        let e = v.last();
        history_lines(v.drop_last(), now).push(
            LineModel::of(SpanModel::plain(e.title)).and(SpanModel::plain(e.previous_value)).and(
                SpanModel::plain(e.new_value),
            ).and(SpanModel::plain(if e.persisted { "yes"@ } else { "no"@ })).and(
                SpanModel::plain(kerneltune_screen::ago(e.when, now)),
            )
        )
    }
}

pub fn history_rows(v: &Vec<HistoryEntry>, now: u64) -> (r: Vec<Line>)
    ensures
        r.deep_view() == history_lines(v.deep_view(), now),
{
    let ghost all = v.deep_view();
    let mut r: Vec<Line> = no_lines();
    let mut i: usize = 0;
    assert(all.take(0) =~= Seq::empty());
    while i < v.len()
        invariant
            all == v.deep_view(),
            i <= v@.len(),
            r.deep_view() == history_lines(all.take(i as int), now),
        decreases v@.len() - i,
    {
        let e = &v[i];
        assert(all.take(i + 1).drop_last() =~= all.take(i as int));
        append_to(
            &mut r,
            Line::of(Span::plain(e.title.as_str())).and(Span::plain(e.previous_value.as_str())).and(
                Span::plain(e.new_value.as_str()),
            ).and(Span::plain(if e.persisted { "yes" } else { "no" })).and(
                Span::plain(relative_time(e.when.as_str(), now).as_str()),
            )
        );
        i = i + 1;
    }
    assert(all.take(all.len() as int) =~= all);
    r
}

impl ProfileValueModel {
    /// A recommendation in one line.
    pub open spec fn advice(self, names: Seq<Seq<char>>) -> Seq<char> {
        let name = choice_text(names, Some(self.profile as usize));
        if self.note.len() == 0 {
            (name + ": "@ + self.value)
        } else {
            (name + ": "@ + self.value + " — "@ + self.note)
        }
    }
}

impl ProfileValue {
    /// A recommendation in one line.
    pub fn advice(&self, names: &Vec<String>) -> (r: String)
        ensures
            r@ == self@.advice(names.deep_view()),
    {
        let name = choice_name(names, Some(self.profile));
        if self.note.as_str().is_empty() {
            cat3(name.as_str(), ": ", self.value.as_str())
        } else {
            cat5(name.as_str(), ": ", self.value.as_str(), " — ", self.note.as_str())
        }
    }
}

/// What the profiles recommend.
pub open spec fn advice_lines(v: Seq<ProfileValueModel>, names: Seq<Seq<char>>) -> Seq<LineModel>
    decreases v.len(),
{
    if v.len() == 0 {
        Seq::empty()
    } else {
        let v1 = v.last();
        advice_lines(v.drop_last(), names).push(
            LineModel::of(SpanModel::plain(v1.advice(names)))
        )
    }
}

pub fn advice_rows(v: &Vec<ProfileValue>, names: &Vec<String>) -> (r: Vec<Line>)
    ensures
        r.deep_view() == advice_lines(v.deep_view(), names.deep_view()),
{
    let ghost all = v.deep_view();
    let mut r: Vec<Line> = no_lines();
    let mut i: usize = 0;
    assert(all.take(0) =~= Seq::empty());
    while i < v.len()
        invariant
            all == v.deep_view(),
            i <= v@.len(),
            r.deep_view() == advice_lines(all.take(i as int), names.deep_view()),
        decreases v@.len() - i,
    {
        let v1 = &v[i];
        assert(all.take(i + 1).drop_last() =~= all.take(i as int));
        append_to(
            &mut r,
            Line::of(Span::plain(v1.advice(names).as_str()))
        );
        i = i + 1;
    }
    assert(all.take(all.len() as int) =~= all);
    r
}

impl TunableModel {
    /// What the profiles recommend, under a heading.
    pub open spec fn recommendations(self, names: Seq<Seq<char>>) -> Seq<LineModel> {
        let head = Seq::<LineModel>::empty().push(LineModel::of(SpanModel::text("Recommended by scenario:"@, Tone::AccentStrong)));
        if self.profiles.len() == 0 {
            head.push(LineModel::of(
                    SpanModel::plain(
                        "No scenario-specific recommendation in the catalog — set a value based on your own workload."@,
                    ),
                ))
        } else {
            (head + advice_lines(self.profiles, names))
        }
    }
}

impl Tunable {
    /// What the profiles recommend, under a heading.
    pub fn recommendations(&self, names: &Vec<String>) -> (r: Vec<Line>)
        ensures
            r.deep_view() == self@.recommendations(names.deep_view()),
    {
        let head = with_line(no_lines(), Line::of(Span::text("Recommended by scenario:", Tone::AccentStrong)));
        if self.profiles.len() == 0 {
            with_line(
                head,
                Line::of(
                    Span::plain(
                        "No scenario-specific recommendation in the catalog — set a value based on your own workload.",
                    ),
                ),
            )
        } else {
            chain(head, advice_rows(&self.profiles, names))
        }
    }
}

impl DetailModalModel {
    /// The details of a tunable.
    pub open spec fn drawn_on(self, p: PictureModel, t: TunableModel, names: Seq<Seq<char>>, area: Rect, rows: Seq<Rect>) -> PictureModel {
        let p = p.modal(area, (" "@ + t.title + " "@), Frame::Modal);
        let p = p.line(
            rows[0],
            LineModel::of(SpanModel::text(t.key, Tone::Dim)).and(SpanModel::plain("   "@)).and(
                SpanModel::text(t.risk.name(), risk_tone(t.risk)),
            ).and(SpanModel::plain("   "@)).and(
                SpanModel::label(("typical default: "@ + t.default_hint)),
            ),
        );
        let description = text::lines_in(t.description);
        let p = p.paragraph(rows[2], picture::plain_lines(description), 0, Wrap::Trim);
        let p = p.paragraph(
            rows[4],
            Seq::<LineModel>::empty().push(LineModel::of(SpanModel::text("Why: "@, Tone::AccentStrong))).push(LineModel::of(SpanModel::plain(t.why))),
            0,
            Wrap::Trim,
        );
        let p = p.paragraph(rows[6], t.recommendations(names), 0, Wrap::Trim);
        let p = p.input(
            rows[8],
            "Value: "@,
            self.value,
            self.field == DetailField::Value,
            false,
            room_least(rows[8], 8, 10),
        );
        p.line(
            rows[10],
            LineModel::of(SpanModel::button("Use Recommended"@, self.field == DetailField::BtnUseRecommended)).button(
                "Stage"@,
                self.field == DetailField::BtnStage,
            ).button("Cancel"@, self.field == DetailField::BtnCancel),
        )
    }
}

impl DetailModal {
    /// The details of a tunable.
    pub fn draw_on(&self, p: &mut Picture, t: &Tunable, names: &Vec<String>, area: Rect, rows: &Vec<Rect>)
        requires
            rows@.len() == 11,
        ensures
            final(p)@ == self@.drawn_on(old(p)@, t@, names.deep_view(), area, rows@),
    {
        p.modal(area, cat3(" ", t.title.as_str(), " ").as_str(), Frame::Modal);
        p.line(
            rows[0],
            Line::of(Span::text(t.key.as_str(), Tone::Dim)).and(Span::plain("   ")).and(
                Span::text(t.risk.label(), risk_color(t.risk)),
            ).and(Span::plain("   ")).and(
                Span::label(cat2("typical default: ", t.default_hint.as_str()).as_str()),
            ),
        );
        let description = split_lines(t.description.as_str());
        p.paragraph(rows[2], plain_rows(&description), 0, Wrap::Trim);
        p.paragraph(
            rows[4],
            with_line(
                with_line(no_lines(), Line::of(Span::text("Why: ", Tone::AccentStrong))),
                Line::of(Span::plain(t.why.as_str())),
            ),
            0,
            Wrap::Trim,
        );
        p.paragraph(rows[6], t.recommendations(names), 0, Wrap::Trim);
        p.input(
            rows[8],
            "Value: ",
            &self.value,
            self.field == DetailField::Value,
            false,
            room_of(rows[8], 8, 10),
        );
        p.line(
            rows[10],
            Line::of(Span::button("Use Recommended", self.field == DetailField::BtnUseRecommended)).button(
                "Stage",
                self.field == DetailField::BtnStage,
            ).button("Cancel", self.field == DetailField::BtnCancel),
        );
    }
}

/// The risky changes, one to a line.
pub open spec fn risk_list(lines: Seq<Seq<char>>) -> Seq<char>
    decreases lines.len(),
{
    if lines.len() == 0 {
        ""@
    } else {
        risk_list(lines.drop_last()) + "  • "@ + lines.last() + "\n"@
    }
}

/// What is asked before risky changes are applied.
pub open spec fn risk_message(lines: Seq<Seq<char>>) -> Seq<char> {
    "This apply includes change(s) flagged Caution/Advanced:\n\n"@ + risk_list(lines)
        + "\nEnter to apply anyway, Esc to cancel. (Keyboard only — a stray click can't confirm this.)"@
}

fn risk_text(lines: &Vec<String>) -> (r: String)
    ensures
        r@ == risk_message(lines.deep_view()),
{
    let ghost all = lines.deep_view();
    let mut list = owned("");
    let mut i: usize = 0;
    assert(all.take(0) =~= Seq::empty());
    while i < lines.len()
        invariant
            all == lines.deep_view(),
            i <= lines@.len(),
            list@ == risk_list(all.take(i as int)),
        decreases lines@.len() - i,
    {
        assert(all.take(i + 1).drop_last() =~= all.take(i as int));
        list = text::cat4(list.as_str(), "  • ", lines[i].as_str(), "\n");
        i = i + 1;
    }
    assert(all.take(all.len() as int) =~= all);
    cat3(
        "This apply includes change(s) flagged Caution/Advanced:\n\n",
        list.as_str(),
        "\nEnter to apply anyway, Esc to cancel. (Keyboard only — a stray click can't confirm this.)",
    )
}

/// Where that is asked.
pub open spec fn risk_rect(lines: Seq<Seq<char>>, area: Rect) -> Rect {
    Rect::centered(
        geometry::min_int(74, geometry::less(area.width as int, 4)) as u16,
        geometry::max_int(
            geometry::min_int(lines.len() as int % 65536 + 7, geometry::less(area.height as int, 2)),
            8,
        ) as u16,
        area,
    )
}

fn risk_area(lines: &Vec<String>, area: Rect) -> (r: Rect)
    ensures
        r == risk_rect(lines.deep_view(), area),
{
    assert(lines.deep_view().len() == lines@.len());
    let wanted: u32 = (lines.len() % 65536) as u32 + 7;
    let room: u16 = area.height.saturating_sub(2);
    let height: u16 = if wanted <= room as u32 {
        wanted as u16
    } else {
        room
    };
    let height: u16 = if height < 8 {
        8
    } else {
        height
    };
    centered_rect(min_u16(74, area.width.saturating_sub(4)), height, area)
}

impl ConfirmModalModel {
    pub open spec fn drawn_on(self, p: PictureModel, area: Rect) -> PictureModel {
        let p = p.modal(risk_rect(self.lines, area), " Confirm Risky Changes "@, Frame::Warning);
        let msg = risk_message(self.lines);
        let lines = text::lines_in(msg);
        p.paragraph(mouse::inner(risk_rect(self.lines, area)), picture::plain_lines(lines), 0, Wrap::Trim)
    }
}

impl ConfirmModal {
    pub fn draw_on(&self, p: &mut Picture, area: Rect)
        ensures
            final(p)@ == self@.drawn_on(old(p)@, area),
    {
        p.modal(risk_area(&self.lines, area), " Confirm Risky Changes ", Frame::Warning);
        let msg = risk_text(&self.lines);
        let lines = split_lines(msg.as_str());
        p.paragraph(block_inner(risk_area(&self.lines, area)), plain_rows(&lines), 0, Wrap::Trim);
    }
}

impl KernelTuneScreenModel {
    /// What is known of the target; `memory` is its memory as it is shown.
    pub open spec fn info_lines(self, memory: Seq<char>) -> Seq<LineModel> {
        if self.target_tab.connecting {
            Seq::<LineModel>::empty().push(LineModel::of(SpanModel::text("Connecting…"@, Tone::Warn)))
        } else {
            match self.target_info {
                Some(info) => {
                    let lines = Seq::<LineModel>::empty().push(LineModel::of(SpanModel::label("Connected to: "@)).and(
                            SpanModel::text(self.target_label, Tone::Good),
                        ));
                    let lines = lines.push(LineModel::of(SpanModel::label("OS: "@)).and(SpanModel::plain(info.os_pretty)));
                    let lines = lines.push(LineModel::of(SpanModel::label("Kernel: "@)).and(SpanModel::plain(info.kernel)).and(
                            SpanModel::plain("   "@),
                        ).and(SpanModel::label("Arch: "@)).and(SpanModel::plain(info.arch)));
                    lines.push(LineModel::of(SpanModel::label("CPUs: "@)).and(SpanModel::plain(info.cpus)).and(
                            SpanModel::plain("   "@),
                        ).and(SpanModel::label("RAM: "@)).and(SpanModel::plain(memory)))
                },
                None => {
                    Seq::<LineModel>::empty().push(LineModel::of(
                            SpanModel::label(
                                "Not connected yet. Choose Local or fill in a remote host above, then press Connect."@,
                            ),
                        ))
                },
            }
        }
    }

    pub open spec fn drawn_target(self, p: PictureModel, memory: Seq<char>, l: KernelTuneLayoutModel) -> PictureModel {
        let p = self.target_tab.drawn_tab(p, l.target);
        let p = match self.target_tab.host_picker {
            Some(picker) => {
                picker.drawn_on(p, geometry::modal_rect(84, 22, 4, 2, l.target.tab[1]), l.target.hosts)
            },
            None => {
                match self.target_tab.key_picker {
                    Some(picker) => {
                        picker.drawn_on(p, geometry::modal_rect(84, 24, 4, 2, l.target.tab[1]), l.target.keys)
                    },
                    None => {
                        let p = p.panel(l.target.tab[1], " Target Info "@);
                        p.paragraph(mouse::inner(l.target.tab[1]), self.info_lines(memory), 0, Wrap::Keep)
                    },
                }
            },
        };
        p.history(l.target.tab[2], self.log)
    }

    pub open spec fn drawn_catalog(self, p: PictureModel, l: KernelTuneLayoutModel) -> PictureModel {
        let p = p.panel(l.catalog[0], " Filters — Left/Right cycles, Tab moves between fields "@);
        let profile = choice_text(self.catalog.profiles, self.catalog_tab.profile_filter);
        let p = p.line(
            l.filters[0],
            LineModel::of(
                SpanModel::text(
                    if self.catalog_tab.field == CatalogField::ProfileFilter { "> "@ } else { "  "@ },
                    Tone::Accent,
                ),
            ).and(SpanModel::label("Profile:  "@)).and(
                SpanModel::text(("‹ "@ + profile + " ›"@), Tone::Strong),
            ).and(
                SpanModel::label(
                    "   picking one filters the table and lets 'Apply Profile' bulk-stage its recommendations"@,
                ),
            ),
        );
        let category = choice_text(self.catalog.categories, self.catalog_tab.category_filter);
        let p = p.line(
            l.filters[1],
            LineModel::of(
                SpanModel::text(
                    if self.catalog_tab.field == CatalogField::CategoryFilter { "> "@ } else { "  "@ },
                    Tone::Accent,
                ),
            ).and(SpanModel::label("Category: "@)).and(
                SpanModel::text(("‹ "@ + category + " ›"@), Tone::Strong),
            ),
        );
        let p = p.line(
            l.filters[2],
            LineModel::of(
                SpanModel::button(
                    "Apply Profile to Staged"@,
                    self.catalog_tab.field == CatalogField::BtnApplyProfile,
                ),
            ),
        );
        let found = self.catalog_tab.filtered(self.catalog);
        let p = p.table(
            l.catalog[1],
            TableModel::new(
                " Catalog — Enter opens details & hints "@,
                self.catalog_tab.field == CatalogField::Table,
            ).column("Tunable"@, Width::Fixed(32)).column("Current"@, Width::Fixed(24)).column(
                "Staged"@,
                Width::Fixed(24),
            ).column("Risk"@, Width::Fixed(10)).rows(
                catalog_lines(found, self.current_values, self.staged),
                self.catalog_tab.selected_row,
            ),
        );
        p.history(l.catalog[2], self.log)
    }

    pub open spec fn drawn_review(self, p: PictureModel, l: KernelTuneLayoutModel) -> PictureModel {
        let p = p.table(
            l.review[0],
            TableModel::new(
                " Staged Changes — Enter/Space toggles Persist, Delete removes a row "@,
                self.review_tab.field == ReviewField::Table,
            ).column("Tunable"@, Width::Fixed(26)).column("Current"@, Width::Fixed(22)).column(
                "New"@,
                Width::Fixed(22),
            ).column("Persist?"@, Width::Fixed(30)).column("Risk"@, Width::Fixed(10)).rows(
                staged_lines(self.staged, self.catalog),
                self.review_tab.selected_row,
            ),
        );
        let p = p.panel(l.review[1], ""@);
        let p = p.line(
            mouse::inner(l.review[1]),
            LineModel::of(
                SpanModel::button("Toggle Persist All"@, self.review_tab.field == ReviewField::BtnPersistAll),
            ).button("Apply All"@, self.review_tab.field == ReviewField::BtnApplyAll).button(
                "Clear All"@,
                self.review_tab.field == ReviewField::BtnClearAll,
            ),
        );
        p.history(l.review[2], self.log)
    }

    /// The title of the changes that can be reverted.
    pub open spec fn revert_title(self) -> Seq<char> {
        if self.target_label.len() == 0 {
            " Revert — connect to a target on the Target tab to see its history "@
        } else {
            (" Revert — changes atk applied to "@ + self.target_label + " (Enter reverts the selected row) "@)
        }
    }

    pub open spec fn drawn_revert(self, p: PictureModel, now: u64, l: KernelTuneLayoutModel) -> PictureModel {
        let applied = self.entries();
        let p = p.table(
            l.review[0],
            TableModel::new(self.revert_title(), true).column("Tunable"@, Width::Fixed(28)).column(
                "Previous"@,
                Width::Fixed(16),
            ).column("Applied"@, Width::Fixed(16)).column("Persisted"@, Width::Fixed(10)).column(
                "When"@,
                Width::Fixed(12),
            ).rows(history_lines(applied, now), self.revert_tab.selected_row),
        );
        let p = p.panel(l.review[1], ""@);
        let p = p.line(mouse::inner(l.review[1]), LineModel::of(SpanModel::button("Revert All (A)"@, false)));
        p.history(l.review[2], self.log)
    }

    /// The whole screen at `now` seconds, drawn into its rows; `detail` are
    /// the rows of the window with the details.
    pub open spec fn drawn_on(self, p: PictureModel, memory: Seq<char>, now: u64, area: Rect, l: KernelTuneLayoutModel, detail: Seq<Rect>) -> PictureModel {
        let p = p.line(
            l.screen[0],
            LineModel::of(SpanModel::tab("F1 Target"@, self.tab == Tab::Target)).and(SpanModel::plain("  "@)).and(
                SpanModel::tab("F2 Catalog"@, self.tab == Tab::Catalog),
            ).and(SpanModel::plain("  "@)).and(SpanModel::tab("F3 Review"@, self.tab == Tab::Review)).and(
                SpanModel::plain("  "@),
            ).and(SpanModel::tab("F4 Revert"@, self.tab == Tab::Revert)).and(SpanModel::plain("  "@)).and(
                SpanModel::text("Esc back  Ctrl+C quit"@, Tone::Dim),
            ),
        );
        let p = match self.tab {
            Tab::Target => {
                self.drawn_target(p, memory, l)
            },
            Tab::Catalog => {
                self.drawn_catalog(p, l)
            },
            Tab::Review => {
                self.drawn_review(p, l)
            },
            Tab::Revert => {
                self.drawn_revert(p, now, l)
            },
        };
        let p = match self.confirm_apply {
            Some(m) => {
                m.drawn_on(p, area)
            },
            None => {
                p
            },
        };
        let p = match self.catalog_tab.detail {
            Some(m) => {
                match kerneltune_screen::by_key(self.catalog.tunables, m.key) {
                    Some(t) => {
                        m.drawn_on(p, t, self.catalog.profiles, geometry::modal_rect(90, 22, 4, 2, area), detail)
                    },
                    None => {
                        p
                    },
                }
            },
            None => {
                p
            },
        };
        p.alert(area, self.log)
    }
}

impl KernelTuneScreen {
    /// What is known of the target; `memory` is its memory as it is shown.
    pub fn info_lines(&self, memory: &str) -> (r: Vec<Line>)
        ensures
            r.deep_view() == self@.info_lines(memory@),
    {
        if self.target_tab.connecting {
            with_line(no_lines(), Line::of(Span::text("Connecting…", Tone::Warn)))
        } else {
            match &self.target_info {
                Some(info) => {
                    let lines = with_line(
                        no_lines(),
                        Line::of(Span::label("Connected to: ")).and(
                            Span::text(self.target_label.as_str(), Tone::Good),
                        ),
                    );
                    let lines = with_line(
                        lines,
                        Line::of(Span::label("OS: ")).and(Span::plain(info.os_pretty.as_str())),
                    );
                    let lines = with_line(
                        lines,
                        Line::of(Span::label("Kernel: ")).and(Span::plain(info.kernel.as_str())).and(
                            Span::plain("   "),
                        ).and(Span::label("Arch: ")).and(Span::plain(info.arch.as_str())),
                    );
                    with_line(
                        lines,
                        Line::of(Span::label("CPUs: ")).and(Span::plain(info.cpus.as_str())).and(
                            Span::plain("   "),
                        ).and(Span::label("RAM: ")).and(Span::plain(memory)),
                    )
                },
                None => {
                    with_line(
                        no_lines(),
                        Line::of(
                            Span::label(
                                "Not connected yet. Choose Local or fill in a remote host above, then press Connect.",
                            ),
                        ),
                    )
                },
            }
        }
    }

    pub fn draw_target(&self, p: &mut Picture, memory: &str, l: &KernelTuneLayout)
        requires
            l@.complete(self@.target_tab.is_remote),
        ensures
            final(p)@ == self@.drawn_target(old(p)@, memory@, l@),
    {
        self.target_tab.draw_tab(p, &l.target);
        match &self.target_tab.host_picker {
            Some(picker) => {
                picker.draw_on(p, modal_area(84, 22, 4, 2, l.target.tab[1]), &l.target.hosts);
            },
            None => {
                match &self.target_tab.key_picker {
                    Some(picker) => {
                        picker.draw_on(p, modal_area(84, 24, 4, 2, l.target.tab[1]), &l.target.keys);
                    },
                    None => {
                        p.panel(l.target.tab[1], " Target Info ");
                        p.paragraph(block_inner(l.target.tab[1]), self.info_lines(memory), 0, Wrap::Keep);
                    },
                }
            },
        }
        p.history(l.target.tab[2], &self.log);
    }

    pub fn draw_catalog(&self, p: &mut Picture, l: &KernelTuneLayout)
        requires
            l@.complete(self@.target_tab.is_remote),
        ensures
            final(p)@ == self@.drawn_catalog(old(p)@, l@),
    {
        p.panel(l.catalog[0], " Filters — Left/Right cycles, Tab moves between fields ");
        let profile = choice_name(&self.catalog.profiles, self.catalog_tab.profile_filter);
        p.line(
            l.filters[0],
            Line::of(
                Span::text(
                    if self.catalog_tab.field == CatalogField::ProfileFilter { "> " } else { "  " },
                    Tone::Accent,
                ),
            ).and(Span::label("Profile:  ")).and(
                Span::text(cat3("‹ ", profile.as_str(), " ›").as_str(), Tone::Strong),
            ).and(
                Span::label(
                    "   picking one filters the table and lets 'Apply Profile' bulk-stage its recommendations",
                ),
            ),
        );
        let category = choice_name(&self.catalog.categories, self.catalog_tab.category_filter);
        p.line(
            l.filters[1],
            Line::of(
                Span::text(
                    if self.catalog_tab.field == CatalogField::CategoryFilter { "> " } else { "  " },
                    Tone::Accent,
                ),
            ).and(Span::label("Category: ")).and(
                Span::text(cat3("‹ ", category.as_str(), " ›").as_str(), Tone::Strong),
            ),
        );
        p.line(
            l.filters[2],
            Line::of(
                Span::button(
                    "Apply Profile to Staged",
                    self.catalog_tab.field == CatalogField::BtnApplyProfile,
                ),
            ),
        );
        let found = self.catalog_tab.filtered(&self.catalog);
        p.table(
            l.catalog[1],
            Table::new(
                " Catalog — Enter opens details & hints ",
                self.catalog_tab.field == CatalogField::Table,
            ).column("Tunable", Width::Fixed(32)).column("Current", Width::Fixed(24)).column(
                "Staged",
                Width::Fixed(24),
            ).column("Risk", Width::Fixed(10)).rows(
                catalog_rows(&found, &self.current_values, &self.staged),
                self.catalog_tab.selected_row,
            ),
        );
        p.history(l.catalog[2], &self.log);
    }

    pub fn draw_review(&self, p: &mut Picture, l: &KernelTuneLayout)
        requires
            l@.complete(self@.target_tab.is_remote),
        ensures
            final(p)@ == self@.drawn_review(old(p)@, l@),
    {
        p.table(
            l.review[0],
            Table::new(
                " Staged Changes — Enter/Space toggles Persist, Delete removes a row ",
                self.review_tab.field == ReviewField::Table,
            ).column("Tunable", Width::Fixed(26)).column("Current", Width::Fixed(22)).column(
                "New",
                Width::Fixed(22),
            ).column("Persist?", Width::Fixed(30)).column("Risk", Width::Fixed(10)).rows(
                staged_rows(&self.staged, &self.catalog),
                self.review_tab.selected_row,
            ),
        );
        p.panel(l.review[1], "");
        p.line(
            block_inner(l.review[1]),
            Line::of(
                Span::button("Toggle Persist All", self.review_tab.field == ReviewField::BtnPersistAll),
            ).button("Apply All", self.review_tab.field == ReviewField::BtnApplyAll).button(
                "Clear All",
                self.review_tab.field == ReviewField::BtnClearAll,
            ),
        );
        p.history(l.review[2], &self.log);
    }

    /// The title of the changes that can be reverted.
    pub fn revert_title(&self) -> (r: String)
        ensures
            r@ == self@.revert_title(),
    {
        if self.target_label.as_str().is_empty() {
            owned(" Revert — connect to a target on the Target tab to see its history ")
        } else {
            cat3(
                " Revert — changes atk applied to ",
                self.target_label.as_str(),
                " (Enter reverts the selected row) ",
            )
        }
    }

    pub fn draw_revert(&self, p: &mut Picture, now: u64, l: &KernelTuneLayout)
        requires
            l@.complete(self@.target_tab.is_remote),
        ensures
            final(p)@ == self@.drawn_revert(old(p)@, now, l@),
    {
        let applied = self.entries();
        p.table(
            l.review[0],
            Table::new(self.revert_title().as_str(), true).column("Tunable", Width::Fixed(28)).column(
                "Previous",
                Width::Fixed(16),
            ).column("Applied", Width::Fixed(16)).column("Persisted", Width::Fixed(10)).column(
                "When",
                Width::Fixed(12),
            ).rows(history_rows(&applied, now), self.revert_tab.selected_row),
        );
        p.panel(l.review[1], "");
        p.line(block_inner(l.review[1]), Line::of(Span::button("Revert All (A)", false)));
        p.history(l.review[2], &self.log);
    }

    /// The whole screen at `now` seconds, drawn into its rows; `detail` are
    /// the rows of the window with the details.
    pub fn draw_on(&self, p: &mut Picture, memory: &str, now: u64, area: Rect, l: &KernelTuneLayout, detail: &Vec<Rect>)
        requires
            l@.complete(self@.target_tab.is_remote),
            detail@.len() == 11,
        ensures
            final(p)@ == self@.drawn_on(old(p)@, memory@, now, area, l@, detail@),
    {
        p.line(
            l.screen[0],
            Line::of(Span::tab("F1 Target", self.tab == Tab::Target)).and(Span::plain("  ")).and(
                Span::tab("F2 Catalog", self.tab == Tab::Catalog),
            ).and(Span::plain("  ")).and(Span::tab("F3 Review", self.tab == Tab::Review)).and(
                Span::plain("  "),
            ).and(Span::tab("F4 Revert", self.tab == Tab::Revert)).and(Span::plain("  ")).and(
                Span::text("Esc back  Ctrl+C quit", Tone::Dim),
            ),
        );
        match self.tab {
            Tab::Target => {
                self.draw_target(p, memory, l);
            },
            Tab::Catalog => {
                self.draw_catalog(p, l);
            },
            Tab::Review => {
                self.draw_review(p, l);
            },
            Tab::Revert => {
                self.draw_revert(p, now, l);
            },
        }
        match &self.confirm_apply {
            Some(m) => {
                m.draw_on(p, area);
            },
            None => {},
        }
        match &self.catalog_tab.detail {
            Some(m) => {
                match self.catalog.find(m.key.as_str()) {
                    Some(t) => {
                        m.draw_on(p, t, &self.catalog.profiles, modal_area(90, 22, 4, 2, area), detail);
                    },
                    None => {},
                }
            },
            None => {},
        }
        p.alert(area, &self.log);
    }
}

/// The lines of the window with the details.
pub open spec fn detail_lines() -> Seq<Constraint> {
    seq![
        Constraint::Length(1),
        Constraint::Length(1),
        Constraint::Min(2),
        Constraint::Length(1),
        Constraint::Min(4),
        Constraint::Length(1),
        Constraint::Min(4),
        Constraint::Length(1),
        Constraint::Length(1),
        Constraint::Length(1),
        Constraint::Length(1),
    ]
}

/// The rows of the window with the details.
pub open spec fn detail_rows(area: Rect, rows: Seq<Rect>) -> bool {
    geometry::stacked(mouse::inner(geometry::modal_rect(90, 22, 4, 2, area)), 1, detail_lines(), rows)
}

impl KernelTuneScreenModel {
    /// Whether `p` is a picture of the screen in `area`: the screen drawn into
    /// rows that `area` can be split into.
    pub open spec fn shows(self, memory: Seq<char>, now: u64, area: Rect, p: PictureModel) -> bool {
        exists|l: KernelTuneLayoutModel, detail: Seq<Rect>|
            #![trigger l.of(area, self.target_tab.is_remote), detail_rows(area, detail)]
            l.of(area, self.target_tab.is_remote) && detail_rows(area, detail) && p == self.drawn_on(
                PictureModel::empty(),
                memory,
                now,
                area,
                l,
                detail,
            )
    }
}

impl KernelTuneScreen {
    /// The picture of the screen in `area` at `now` seconds; `memory` is the
    /// memory of the target as it is shown.
    pub fn draw(&self, memory: &str, now: u64, area: Rect) -> (r: Picture)
        ensures
            self@.shows(memory@, now, area, r@),
    {
        let l = self.layout(area);
        let cs = vec![
            Constraint::Length(1),
            Constraint::Length(1),
            Constraint::Min(2),
            Constraint::Length(1),
            Constraint::Min(4),
            Constraint::Length(1),
            Constraint::Min(4),
            Constraint::Length(1),
            Constraint::Length(1),
            Constraint::Length(1),
            Constraint::Length(1),
        ];
        assert(cs@ =~= detail_lines());
        let detail = split_rows(block_inner(modal_area(90, 22, 4, 2, area)), 1, &cs);
        let mut p = Picture::empty();
        self.draw_on(&mut p, memory, now, area, &l, &detail);
        assert(detail_rows(area, detail@));
        p
    }
}

} // verus!
