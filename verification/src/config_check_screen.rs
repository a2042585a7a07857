//! Config Syntax Checker: JSON, TOML, YAML and XML files checked on this
//! machine or on a remote host. Errors are shown in a large scrollable
//! window, from which an invalid file can be sent through an automatic fixer
//! after a confirmation that only the keyboard can give.
use vstd::prelude::*;

use crate::cycle;
use crate::event::{KeyCode, KeyEvent, MouseEvent};
use crate::file_picker::{FilePicker, FilePickerModel, Listing, ListingModel};
use crate::file_picker;
use crate::form::line_constraints;
use crate::form;
use crate::geometry::{split_rows, Constraint, Rect};
use crate::geometry;
use crate::host_picker::{list_row_hit, HostPicker, HostPickerModel};
use crate::host_picker;
use crate::log::{is_closing, is_history_scroll, Log, LogModel};
use crate::log;
use crate::model::{append_to, Copyable};
use crate::mouse;
use crate::remote_path::{join_remote_path, parent_of};
use crate::remote_path;
use crate::servers::{Server, ServerModel};
use crate::sort;
use crate::target::{
    Target, TargetAction, TargetActionModel, TargetField, TargetLayout, TargetLayoutModel, TargetModel, TargetTab,
    TargetTabModel,
};
use crate::text;
use crate::widgets::{Input, InputModel};

verus! {

#[derive(Clone, Copy, PartialEq, Eq, Structural, Debug)]
pub enum Tab {
    Target,
    Check,
}

// -------------------------------------------------------------------- format

#[derive(Clone, Copy, PartialEq, Eq, Structural, Debug)]
pub enum Format {
    Json,
    Toml,
    Yaml,
    Xml,
}

impl Format {
    pub open spec fn name(self) -> Seq<char> {
        match self {
            Format::Json => "JSON"@,
            Format::Toml => "TOML"@,
            Format::Yaml => "YAML"@,
            Format::Xml => "XML"@,
        }
    }

    /// The format that the end of a path tells, in any case.
    pub open spec fn of_path(path: Seq<char>) -> Option<Format> {
        let p = text::lowercase(path);
        if text::ends_in(p, ".json"@) {
            Some(Format::Json)
        } else if text::ends_in(p, ".toml"@) {
            Some(Format::Toml)
        } else if text::ends_in(p, ".yaml"@) || text::ends_in(p, ".yml"@) {
            Some(Format::Yaml)
        } else if text::ends_in(p, ".xml"@) {
            Some(Format::Xml)
        } else {
            None
        }
    }

    pub fn label(self) -> (r: &'static str)
        ensures
            r@ == self.name(),
    {
        match self {
            Format::Json => "JSON",
            Format::Toml => "TOML",
            Format::Yaml => "YAML",
            Format::Xml => "XML",
        }
    }

    pub fn detect(path: &str) -> (r: Option<Format>)
        ensures
            r == Format::of_path(path@),
    {
        let p = path.to_lowercase();
        let p = p.as_str();
        if text::ends_with(p, ".json") {
            Some(Format::Json)
        } else if text::ends_with(p, ".toml") {
            Some(Format::Toml)
        } else if text::ends_with(p, ".yaml") || text::ends_with(p, ".yml") {
            Some(Format::Yaml)
        } else if text::ends_with(p, ".xml") {
            Some(Format::Xml)
        } else {
            None
        }
    }
}

/// Whether the format is detected or forced.
#[derive(Clone, Copy, PartialEq, Eq, Structural, Debug)]
pub enum FormatChoice {
    Auto,
    Forced(Format),
}

impl FormatChoice {
    pub open spec fn name(self) -> Seq<char> {
        match self {
            FormatChoice::Auto => "Auto"@,
            FormatChoice::Forced(f) => f.name(),
        }
    }

    pub open spec fn next(self) -> FormatChoice {
        match self {
            FormatChoice::Auto => FormatChoice::Forced(Format::Json),
            FormatChoice::Forced(Format::Json) => FormatChoice::Forced(Format::Toml),
            FormatChoice::Forced(Format::Toml) => FormatChoice::Forced(Format::Yaml),
            FormatChoice::Forced(Format::Yaml) => FormatChoice::Forced(Format::Xml),
            FormatChoice::Forced(Format::Xml) => FormatChoice::Auto,
        }
    }

    pub open spec fn prev(self) -> FormatChoice {
        match self {
            FormatChoice::Auto => FormatChoice::Forced(Format::Xml),
            FormatChoice::Forced(Format::Json) => FormatChoice::Auto,
            FormatChoice::Forced(Format::Toml) => FormatChoice::Forced(Format::Json),
            FormatChoice::Forced(Format::Yaml) => FormatChoice::Forced(Format::Toml),
            FormatChoice::Forced(Format::Xml) => FormatChoice::Forced(Format::Yaml),
        }
    }

    /// The format of a file at a path.
    pub open spec fn resolved(self, path: Seq<char>) -> Option<Format> {
        match self {
            FormatChoice::Auto => Format::of_path(path),
            FormatChoice::Forced(f) => Some(f),
        }
    }

    pub fn label(self) -> (r: &'static str)
        ensures
            r@ == self.name(),
    {
        match self {
            FormatChoice::Auto => "Auto",
            FormatChoice::Forced(f) => f.label(),
        }
    }

    pub fn cycle(self, back: bool) -> (r: FormatChoice)
        ensures
            r == if back {
                self.prev()
            } else {
                self.next()
            },
    {
        if back {
            match self {
                FormatChoice::Auto => FormatChoice::Forced(Format::Xml),
                FormatChoice::Forced(Format::Json) => FormatChoice::Auto,
                FormatChoice::Forced(Format::Toml) => FormatChoice::Forced(Format::Json),
                FormatChoice::Forced(Format::Yaml) => FormatChoice::Forced(Format::Toml),
                FormatChoice::Forced(Format::Xml) => FormatChoice::Forced(Format::Yaml),
            }
        } else {
            match self {
                FormatChoice::Auto => FormatChoice::Forced(Format::Json),
                FormatChoice::Forced(Format::Json) => FormatChoice::Forced(Format::Toml),
                FormatChoice::Forced(Format::Toml) => FormatChoice::Forced(Format::Yaml),
                FormatChoice::Forced(Format::Yaml) => FormatChoice::Forced(Format::Xml),
                FormatChoice::Forced(Format::Xml) => FormatChoice::Auto,
            }
        }
    }

    pub fn resolve(self, path: &str) -> (r: Option<Format>)
        ensures
            r == self.resolved(path@),
    {
        match self {
            FormatChoice::Auto => Format::detect(path),
            FormatChoice::Forced(f) => Some(f),
        }
    }
}

// ------------------------------------------------------------------- browser

/// An entry of a directory.
pub struct Entry {
    pub name: String,
    pub is_dir: bool,
}

pub struct EntryModel {
    pub name: Seq<char>,
    pub is_dir: bool,
}

impl View for Entry {
    type V = EntryModel;

    open spec fn view(&self) -> EntryModel {
        EntryModel {
            name: self.name@,
            is_dir: self.is_dir,
        }
    }
}

impl DeepView for Entry {
    type V = EntryModel;

    open spec fn deep_view(&self) -> EntryModel {
        self@
    }
}

impl Copyable for Entry {
    fn copy(&self) -> (r: Self) {
        Entry {
            name: self.name.clone(),
            is_dir: self.is_dir,
        }
    }
}

/// A browser over the directories of the target. Each step is a round trip.
pub struct Browser {
    pub cwd: String,
    pub entries: Vec<Entry>,
    pub selected: usize,
    pub error: Option<String>,
    pub loading: bool,
}

pub struct BrowserModel {
    pub cwd: Seq<char>,
    pub entries: Seq<EntryModel>,
    pub selected: int,
    pub error: Option<Seq<char>>,
    pub loading: bool,
}

impl View for Browser {
    type V = BrowserModel;

    open spec fn view(&self) -> BrowserModel {
        BrowserModel {
            cwd: self.cwd@,
            entries: self.entries.deep_view(),
            selected: self.selected as int,
            error: self.error.deep_view(),
            loading: self.loading,
        }
    }
}

impl DeepView for Browser {
    type V = BrowserModel;

    open spec fn deep_view(&self) -> BrowserModel {
        self@
    }
}

/// What activating a row of the browser means.
pub enum BrowserAction {
    Nothing,
    Navigate(String),
    Picked(String),
}

pub enum BrowserActionModel {
    Nothing,
    Navigate(Seq<char>),
    Picked(Seq<char>),
}

impl View for BrowserAction {
    type V = BrowserActionModel;

    open spec fn view(&self) -> BrowserActionModel {
        match self {
            BrowserAction::Nothing => BrowserActionModel::Nothing,
            BrowserAction::Navigate(a) => BrowserActionModel::Navigate(a@),
            BrowserAction::Picked(a) => BrowserActionModel::Picked(a@),
        }
    }
}

impl DeepView for BrowserAction {
    type V = BrowserActionModel;

    open spec fn deep_view(&self) -> BrowserActionModel {
        self@
    }
}

/// Directories before files, each by name without regard to case.
pub open spec fn entry_le(a: EntryModel, b: EntryModel) -> bool {
    if a.is_dir != b.is_dir {
        a.is_dir
    } else {
        sort::text_le(text::lowercase(a.name), text::lowercase(b.name))
    }
}

pub open spec fn entry_order() -> spec_fn(EntryModel, EntryModel) -> bool {
    |a: EntryModel, b: EntryModel| entry_le(a, b)
}

/// The rows for a listing: the way up, but at the root, then the entries.
pub open spec fn browser_rows(cwd: Seq<char>, listed: Seq<EntryModel>) -> Seq<EntryModel> {
    let up = if cwd == "/"@ {
        Seq::empty()
    } else {
        seq![EntryModel { name: ".."@, is_dir: true }]
    };
    up + sort::sorted(listed, entry_order())
}

impl BrowserModel {
    pub open spec fn at(start: Seq<char>) -> BrowserModel {
        BrowserModel { cwd: start, entries: Seq::empty(), selected: 0, error: None, loading: true }
    }

    pub open spec fn up(self) -> BrowserModel {
        BrowserModel { selected: cycle::moved(self.selected, true, self.entries.len() as int), ..self }
    }

    pub open spec fn down(self) -> BrowserModel {
        BrowserModel { selected: cycle::moved(self.selected, false, self.entries.len() as int), ..self }
    }

    pub open spec fn entered(self) -> BrowserActionModel {
        if 0 <= self.selected < self.entries.len() {
            let e = self.entries[self.selected];
            if e.name == ".."@ {
                BrowserActionModel::Navigate(remote_path::parent(self.cwd))
            } else if e.is_dir {
                BrowserActionModel::Navigate(remote_path::joined(self.cwd, e.name))
            } else {
                BrowserActionModel::Picked(remote_path::joined(self.cwd, e.name))
            }
        } else {
            BrowserActionModel::Nothing
        }
    }

    /// The browser with a listing, unless it is of a directory that was left.
    pub open spec fn listed(self, cwd: Seq<char>, listed: Seq<EntryModel>) -> BrowserModel {
        if cwd == self.cwd {
            BrowserModel {
                loading: false,
                entries: browser_rows(cwd, listed),
                selected: 0,
                error: None,
                ..self
            }
        } else {
            self
        }
    }

    /// The browser with the error of a listing, unless it is of a directory
    /// that was left.
    pub open spec fn failed(self, cwd: Seq<char>, error: Seq<char>) -> BrowserModel {
        if cwd == self.cwd {
            BrowserModel { loading: false, entries: Seq::empty(), error: Some(error), ..self }
        } else {
            self
        }
    }

    /// The browser on its way to another directory.
    pub open spec fn leaving_for(self, dir: Seq<char>) -> BrowserModel {
        BrowserModel { cwd: dir, loading: true, entries: Seq::empty(), ..self }
    }
}

fn sort_entries(v: Vec<Entry>) -> (r: Vec<Entry>)
    ensures
        r.deep_view() == sort::sorted(v.deep_view(), entry_order()),
{
    let f = |a: &Entry, b: &Entry| -> (t: bool)
        ensures
            t == entry_le(a@, b@),
        {
            if a.is_dir != b.is_dir {
                a.is_dir
            } else {
                let x = a.name.as_str().to_lowercase();
                let y = b.name.as_str().to_lowercase();
                sort::in_text_order(x.as_str(), y.as_str())
            }
        };
    sort::sort_by(v, f, Ghost(entry_order()))
}

impl Browser {
    pub fn new(start: &str) -> (r: Browser)
        ensures
            r@ == BrowserModel::at(start@),
    {
        let r = Browser { cwd: text::owned(start), entries: Vec::new(), selected: 0, error: None, loading: true };
        assert(r@.entries =~= Seq::empty());
        r
    }

    pub fn up(&mut self)
        ensures
            final(self)@ == old(self)@.up(),
    {
        self.selected = cycle::step(self.selected, true, self.entries.len());
    }

    pub fn down(&mut self)
        ensures
            final(self)@ == old(self)@.down(),
    {
        self.selected = cycle::step(self.selected, false, self.entries.len());
    }

    pub fn on_enter(&self) -> (r: BrowserAction)
        ensures
            r@ == self@.entered(),
    {
        let i: usize = self.selected;
        if i >= self.entries.len() {
            return BrowserAction::Nothing;
        }
        assert(self@.entries[i as int] == self.entries@[i as int]@);
        let name = self.entries[i].name.as_str();
        if text::same(name, "..") {
            BrowserAction::Navigate(parent_of(self.cwd.as_str()))
        } else if self.entries[i].is_dir {
            BrowserAction::Navigate(join_remote_path(self.cwd.as_str(), name))
        } else {
            BrowserAction::Picked(join_remote_path(self.cwd.as_str(), name))
        }
    }

    /// Takes in a listing, unless it is of a directory that was left.
    pub fn apply_listing(&mut self, cwd: &str, listed: &Vec<Entry>)
        ensures
            final(self)@ == old(self)@.listed(cwd@, listed.deep_view()),
    {
        if !text::same(cwd, self.cwd.as_str()) {
            return;
        }
        let sorted = sort_entries(listed.copy());
        let mut entries: Vec<Entry> = Vec::new();
        let ghost mut up: Seq<EntryModel> = Seq::empty();
        assert(entries.deep_view() =~= up);
        if !text::same(self.cwd.as_str(), "/") {
            append_to(&mut entries, Entry { name: text::owned(".."), is_dir: true });
            proof {
                up = seq![EntryModel { name: ".."@, is_dir: true }];
                assert(entries.deep_view() =~= up);
            }
        }
        let ghost all = sorted.deep_view();
        let mut i: usize = 0;
        while i < sorted.len()
            invariant
                i <= sorted@.len(),
                all == sorted.deep_view(),
                entries.deep_view() =~= up + all.take(i as int),
            decreases sorted@.len() - i,
        {
            assert(all[i as int] == sorted@[i as int]@);
            append_to(&mut entries, sorted[i].copy());
            i = i + 1;
        }
        assert(all.take(all.len() as int) =~= all);
        assert(up + all =~= browser_rows(cwd@, listed.deep_view()));
        self.loading = false;
        self.entries = entries;
        self.selected = 0;
        self.error = None;
    }

    /// Takes in the error of a listing, unless it is of a directory that was left.
    pub fn apply_error(&mut self, cwd: &str, error: &str)
        ensures
            final(self)@ == old(self)@.failed(cwd@, error@),
    {
        if !text::same(cwd, self.cwd.as_str()) {
            return;
        }
        self.loading = false;
        self.entries = Vec::new();
        assert(self@.entries =~= Seq::empty());
        self.error = Some(text::owned(error));
    }

    fn leave_for(&mut self, dir: &str)
        ensures
            final(self)@ == old(self)@.leaving_for(dir@),
    {
        self.cwd = text::owned(dir);
        self.loading = true;
        self.entries = Vec::new();
        assert(self@.entries =~= Seq::empty());
    }

    /// Which row holds a cell, with the browser drawn on `area`.
    pub fn row_at(&self, area: Rect, x: u16, y: u16) -> (r: Option<usize>)
        ensures
            exists|rows: Seq<Rect>| #[trigger]
                geometry::stacked(
                    mouse::inner(file_picker::picker_area(area)),
                    1,
                    file_picker::picker_rows(),
                    rows,
                ) && r == host_picker::list_hit(rows[0], x, y, self@.entries.len() as int, self@.selected),
    {
        let rows = FilePicker::rows(area);
        list_row_hit(rows[0], x, y, self.entries.len(), self.selected)
    }
}

// ----------------------------------------------------------------- check tab

#[derive(Clone, Copy, PartialEq, Eq, Structural, Debug)]
pub enum CheckField {
    Path,
    Format,
    BtnBrowse,
    BtnCheck,
}

impl CheckField {
    pub open spec fn next(self) -> CheckField {
        match self {
            CheckField::Path => CheckField::Format,
            CheckField::Format => CheckField::BtnBrowse,
            CheckField::BtnBrowse => CheckField::BtnCheck,
            CheckField::BtnCheck => CheckField::Path,
        }
    }

    pub open spec fn prev(self) -> CheckField {
        match self {
            CheckField::Path => CheckField::BtnCheck,
            CheckField::Format => CheckField::Path,
            CheckField::BtnBrowse => CheckField::Format,
            CheckField::BtnCheck => CheckField::BtnBrowse,
        }
    }
}

/// What a check found, and what a fix did.
pub struct CheckResult {
    pub path: String,
    pub format: Format,
    pub valid: bool,
    pub error_text: String,
    pub fix_backup: Option<String>,
    pub fix_message: Option<String>,
}

pub struct CheckResultModel {
    pub path: Seq<char>,
    pub format: Format,
    pub valid: bool,
    pub error_text: Seq<char>,
    pub fix_backup: Option<Seq<char>>,
    pub fix_message: Option<Seq<char>>,
}

impl View for CheckResult {
    type V = CheckResultModel;

    open spec fn view(&self) -> CheckResultModel {
        CheckResultModel {
            path: self.path@,
            format: self.format,
            valid: self.valid,
            error_text: self.error_text@,
            fix_backup: self.fix_backup.deep_view(),
            fix_message: self.fix_message.deep_view(),
        }
    }
}

impl DeepView for CheckResult {
    type V = CheckResultModel;

    open spec fn deep_view(&self) -> CheckResultModel {
        self@
    }
}

pub struct CheckTab {
    pub path: Input,
    pub format_choice: FormatChoice,
    pub field: CheckField,
    pub browser: Option<Browser>,
    pub checking: bool,
    pub result: Option<CheckResult>,
    pub show_results: bool,
    pub results_scroll: u16,
    pub confirm_fix: bool,
    pub fixing: bool,
}

pub struct CheckTabModel {
    pub path: InputModel,
    pub format_choice: FormatChoice,
    pub field: CheckField,
    pub browser: Option<BrowserModel>,
    pub checking: bool,
    pub result: Option<CheckResultModel>,
    pub show_results: bool,
    pub results_scroll: u16,
    pub confirm_fix: bool,
    pub fixing: bool,
}

impl View for CheckTab {
    type V = CheckTabModel;

    open spec fn view(&self) -> CheckTabModel {
        CheckTabModel {
            path: self.path@,
            format_choice: self.format_choice,
            field: self.field,
            browser: self.browser.deep_view(),
            checking: self.checking,
            result: self.result.deep_view(),
            show_results: self.show_results,
            results_scroll: self.results_scroll,
            confirm_fix: self.confirm_fix,
            fixing: self.fixing,
        }
    }
}

impl DeepView for CheckTab {
    type V = CheckTabModel;

    open spec fn deep_view(&self) -> CheckTabModel {
        self@
    }
}

/// What the screen has to do after an event on the tab.
pub enum CheckAction {
    Nothing,
    Browse,
    Check,
    /// List a directory that the browser goes to.
    List(String),
    ScrollHistory(bool),
}

pub enum CheckActionModel {
    Nothing,
    Browse,
    Check,
    List(Seq<char>),
    ScrollHistory(bool),
}

impl View for CheckAction {
    type V = CheckActionModel;

    open spec fn view(&self) -> CheckActionModel {
        match self {
            CheckAction::Nothing => CheckActionModel::Nothing,
            CheckAction::Browse => CheckActionModel::Browse,
            CheckAction::Check => CheckActionModel::Check,
            CheckAction::List(a) => CheckActionModel::List(a@),
            CheckAction::ScrollHistory(a) => CheckActionModel::ScrollHistory(*a),
        }
    }
}

impl DeepView for CheckAction {
    type V = CheckActionModel;

    open spec fn deep_view(&self) -> CheckActionModel {
        self@
    }
}

impl CheckTabModel {
    pub open spec fn empty() -> CheckTabModel {
        CheckTabModel {
            path: InputModel::empty(),
            format_choice: FormatChoice::Auto,
            field: CheckField::Path,
            browser: None,
            checking: false,
            result: None,
            show_results: false,
            results_scroll: 0,
            confirm_fix: false,
            fixing: false,
        }
    }

    pub open spec fn focus(self, field: CheckField) -> CheckTabModel {
        CheckTabModel { field, ..self }
    }

    pub open spec fn with_browser(self, browser: Option<BrowserModel>) -> CheckTabModel {
        CheckTabModel { browser, ..self }
    }

    /// The selected row of the browser activated.
    #[verifier::opaque]
    pub open spec fn browser_entered(self, b: BrowserModel) -> (CheckTabModel, CheckActionModel) {
        match b.entered() {
            BrowserActionModel::Nothing => (self.with_browser(Some(b)), CheckActionModel::Nothing),
            BrowserActionModel::Navigate(dir) => (
                self.with_browser(Some(b.leaving_for(dir))),
                CheckActionModel::List(dir),
            ),
            BrowserActionModel::Picked(path) => (
                CheckTabModel { path: InputModel::of(path), browser: None, ..self },
                CheckActionModel::Check,
            ),
        }
    }

    #[verifier::opaque]
    pub open spec fn on_browser_key(self, b: BrowserModel, key: KeyCode) -> (CheckTabModel, CheckActionModel) {
        match key {
            KeyCode::Esc => (self.with_browser(None), CheckActionModel::Nothing),
            KeyCode::Up => (self.with_browser(Some(b.up())), CheckActionModel::Nothing),
            KeyCode::Down => (self.with_browser(Some(b.down())), CheckActionModel::Nothing),
            KeyCode::Enter => self.browser_entered(b),
            _ => (self.with_browser(Some(b)), CheckActionModel::Nothing),
        }
    }

    /// The keys of the form, with no browser open. Enter on the path browses:
    /// whoever has no path yet wants to pick one.
    #[verifier::opaque]
    pub open spec fn on_form_key(self, key: KeyCode) -> (CheckTabModel, CheckActionModel) {
        if self.field == CheckField::Format && key == KeyCode::Left {
            (CheckTabModel { format_choice: self.format_choice.prev(), ..self }, CheckActionModel::Nothing)
        } else if self.field == CheckField::Format && (key == KeyCode::Right || key == KeyCode::Enter) {
            (CheckTabModel { format_choice: self.format_choice.next(), ..self }, CheckActionModel::Nothing)
        } else {
            match key {
                KeyCode::Tab | KeyCode::Down => (self.focus(self.field.next()), CheckActionModel::Nothing),
                KeyCode::BackTab | KeyCode::Up => (self.focus(self.field.prev()), CheckActionModel::Nothing),
                KeyCode::Enter => match self.field {
                    CheckField::Path | CheckField::BtnBrowse => (self, CheckActionModel::Browse),
                    CheckField::BtnCheck => (self, CheckActionModel::Check),
                    CheckField::Format => (self.focus(self.field.next()), CheckActionModel::Nothing),
                },
                _ => (if self.field == CheckField::Path {
                    CheckTabModel { path: self.path.edit(key), ..self }
                } else {
                    self
                }, CheckActionModel::Nothing),
            }
        }
    }

    pub open spec fn on_key(self, key: KeyCode) -> (CheckTabModel, CheckActionModel) {
        match self.browser {
            Some(b) => self.on_browser_key(b, key),
            None => self.on_form_key(key),
        }
    }

    #[verifier::opaque]
    pub open spec fn on_browser_mouse(
        self,
        b: BrowserModel,
        me: MouseEvent,
        list: Rect,
    ) -> (CheckTabModel, CheckActionModel) {
        match mouse::clicked(me) {
            Some((x, y)) => match host_picker::list_hit(list, x, y, b.entries.len() as int, b.selected) {
                Some(i) => self.browser_entered(BrowserModel { selected: i as int, ..b }),
                None => (self.with_browser(Some(b)), CheckActionModel::Nothing),
            },
            None => match mouse::scrolled(me) {
                Some(d) => (
                    self.with_browser(
                        Some(
                            if d < 0 {
                                b.up()
                            } else {
                                b.down()
                            },
                        ),
                    ),
                    CheckActionModel::Nothing,
                ),
                None => (self.with_browser(Some(b)), CheckActionModel::Nothing),
            },
        }
    }

    #[verifier::opaque]
    pub open spec fn clicked(self, x: u16, y: u16, rows: Seq<Rect>) -> (CheckTabModel, CheckActionModel) {
        if mouse::hits(rows[0], x, y) {
            (self.focus(CheckField::Path), CheckActionModel::Nothing)
        } else if mouse::hits(rows[2], x, y) {
            (self.focus(CheckField::Format), CheckActionModel::Nothing)
        } else {
            match mouse::button_hit(x, y, rows[4], check_buttons()) {
                Some(i) => (
                    self,
                    if i == 0 {
                        CheckActionModel::Browse
                    } else {
                        CheckActionModel::Check
                    },
                ),
                None => (self, CheckActionModel::Nothing),
            }
        }
    }

    pub open spec fn on_mouse(self, me: MouseEvent, l: ConfigCheckLayoutModel) -> (CheckTabModel, CheckActionModel) {
        match self.browser {
            Some(b) => self.on_browser_mouse(b, me, l.browser[0]),
            None => match mouse::scrolled(me) {
                Some(d) => (
                    self,
                    if mouse::hits(l.check[2], me.column, me.row) {
                        CheckActionModel::ScrollHistory(d < 0)
                    } else {
                        CheckActionModel::Nothing
                    },
                ),
                None => match mouse::clicked(me) {
                    Some((x, y)) => self.clicked(x, y, l.check_form),
                    None => (self, CheckActionModel::Nothing),
                },
            },
        }
    }

    pub open spec fn results_scrolled(self, up: bool) -> CheckTabModel {
        CheckTabModel {
            results_scroll: if up {
                geometry::min_int(self.results_scroll + 1, u16::MAX as int) as u16
            } else {
                geometry::less(self.results_scroll as int, 1) as u16
            },
            ..self
        }
    }

    /// Whether there is something to fix, and no fix under way.
    pub open spec fn can_fix(self) -> bool {
        match self.result {
            Some(r) => !r.valid && !self.fixing,
            None => false,
        }
    }
}

pub open spec fn check_buttons() -> Seq<Seq<char>> {
    seq!["Browse…"@, "Check Syntax"@]
}

impl CheckTab {
    pub fn new() -> (r: CheckTab)
        ensures
            r@ == CheckTabModel::empty(),
    {
        CheckTab {
            path: Input::default(),
            format_choice: FormatChoice::Auto,
            field: CheckField::Path,
            browser: None,
            checking: false,
            result: None,
            show_results: false,
            results_scroll: 0,
            confirm_fix: false,
            fixing: false,
        }
    }

    pub fn next_field(&mut self)
        ensures
            final(self)@ == old(self)@.focus(old(self)@.field.next()),
    {
        self.field = match self.field {
            CheckField::Path => CheckField::Format,
            CheckField::Format => CheckField::BtnBrowse,
            CheckField::BtnBrowse => CheckField::BtnCheck,
            CheckField::BtnCheck => CheckField::Path,
        };
    }

    pub fn prev_field(&mut self)
        ensures
            final(self)@ == old(self)@.focus(old(self)@.field.prev()),
    {
        self.field = match self.field {
            CheckField::Path => CheckField::BtnCheck,
            CheckField::Format => CheckField::Path,
            CheckField::BtnBrowse => CheckField::Format,
            CheckField::BtnCheck => CheckField::BtnBrowse,
        };
    }

    fn enter_browser(&mut self) -> (r: CheckAction)
        requires
            old(self)@.browser is Some,
        ensures
            (final(self)@, r@) == old(self)@.browser_entered(old(self)@.browser->0),
    {
        proof {
            reveal(CheckTabModel::browser_entered);
        }
        let action = match &self.browser {
            Some(b) => b.on_enter(),
            None => BrowserAction::Nothing,
        };
        match action {
            BrowserAction::Nothing => CheckAction::Nothing,
            BrowserAction::Navigate(dir) => {
                if let Some(b) = &mut self.browser {
                    b.leave_for(dir.as_str());
                }
                CheckAction::List(dir)
            },
            BrowserAction::Picked(path) => {
                self.path = Input::new(path.as_str());
                self.browser = None;
                CheckAction::Check
            },
        }
    }

    fn handle_browser_key(&mut self, key: KeyCode) -> (r: CheckAction)
        requires
            old(self)@.browser is Some,
        ensures
            (final(self)@, r@) == old(self)@.on_browser_key(old(self)@.browser->0, key),
    {
        proof {
            reveal(CheckTabModel::on_browser_key);
        }
        match key {
            KeyCode::Esc => self.browser = None,
            KeyCode::Up => {
                if let Some(b) = &mut self.browser {
                    b.up();
                }
            },
            KeyCode::Down => {
                if let Some(b) = &mut self.browser {
                    b.down();
                }
            },
            KeyCode::Enter => return self.enter_browser(),
            _ => {},
        }
        CheckAction::Nothing
    }

    fn handle_form_key(&mut self, key: KeyCode) -> (r: CheckAction)
        ensures
            (final(self)@, r@) == old(self)@.on_form_key(key),
    {
        proof {
            reveal(CheckTabModel::on_form_key);
        }
        if self.field == CheckField::Format {
            if key == KeyCode::Left {
                self.format_choice = self.format_choice.cycle(true);
                return CheckAction::Nothing;
            }
            if key == KeyCode::Right || key == KeyCode::Enter {
                self.format_choice = self.format_choice.cycle(false);
                return CheckAction::Nothing;
            }
        }
        match key {
            KeyCode::Tab | KeyCode::Down => self.next_field(),
            KeyCode::BackTab | KeyCode::Up => self.prev_field(),
            KeyCode::Enter => match self.field {
                CheckField::Path | CheckField::BtnBrowse => return CheckAction::Browse,
                CheckField::BtnCheck => return CheckAction::Check,
                CheckField::Format => self.next_field(),
            },
            _ => if self.field == CheckField::Path {
                self.path.edit(key);
            },
        }
        CheckAction::Nothing
    }

    pub fn handle_key(&mut self, key: KeyCode) -> (r: CheckAction)
        ensures
            (final(self)@, r@) == old(self)@.on_key(key),
    {
        if self.browser.is_some() {
            self.handle_browser_key(key)
        } else {
            self.handle_form_key(key)
        }
    }

    fn handle_browser_mouse(&mut self, me: &MouseEvent, list: Rect) -> (r: CheckAction)
        requires
            old(self)@.browser is Some,
        ensures
            (final(self)@, r@) == old(self)@.on_browser_mouse(old(self)@.browser->0, *me, list),
    {
        proof {
            reveal(CheckTabModel::browser_entered);
            reveal(CheckTabModel::on_browser_mouse);
        }
        if let Some((x, y)) = mouse::left_click(me) {
            let mut hit = false;
            if let Some(b) = &mut self.browser {
                if let Some(i) = list_row_hit(list, x, y, b.entries.len(), b.selected) {
                    b.selected = i;
                    hit = true;
                }
            }
            if hit {
                return self.enter_browser();
            }
        } else if let Some(delta) = mouse::scroll_delta(me) {
            if let Some(b) = &mut self.browser {
                if delta < 0 {
                    b.up();
                } else {
                    b.down();
                }
            }
        }
        CheckAction::Nothing
    }

    fn click(&mut self, x: u16, y: u16, rows: &Vec<Rect>) -> (r: CheckAction)
        requires
            rows@.len() == 8,
        ensures
            (final(self)@, r@) == old(self)@.clicked(x, y, rows@),
    {
        proof {
            reveal(CheckTabModel::clicked);
        }
        if mouse::in_rect(rows[0], x, y) {
            self.field = CheckField::Path;
            return CheckAction::Nothing;
        }
        if mouse::in_rect(rows[2], x, y) {
            self.field = CheckField::Format;
            return CheckAction::Nothing;
        }
        let labels = ["Browse…", "Check Syntax"];
        assert(labels.deep_view() =~= check_buttons());
        match mouse::button_row_hit(x, y, rows[4], &labels) {
            Some(i) => if i == 0 {
                CheckAction::Browse
            } else {
                CheckAction::Check
            },
            None => CheckAction::Nothing,
        }
    }

    pub fn handle_mouse(&mut self, me: &MouseEvent, l: &ConfigCheckLayout) -> (r: CheckAction)
        requires
            l@.complete_check(),
        ensures
            (final(self)@, r@) == old(self)@.on_mouse(*me, l@),
    {
        if self.browser.is_some() {
            return self.handle_browser_mouse(me, l.browser[0]);
        }
        if let Some(delta) = mouse::scroll_delta(me) {
            if mouse::in_rect(l.check[2], me.column, me.row) {
                return CheckAction::ScrollHistory(delta < 0);
            }
            return CheckAction::Nothing;
        }
        match mouse::left_click(me) {
            Some((x, y)) => self.click(x, y, &l.check_form),
            None => CheckAction::Nothing,
        }
    }

    fn scroll_results(&mut self, up: bool)
        ensures
            final(self)@ == old(self)@.results_scrolled(up),
    {
        self.results_scroll = if up {
            self.results_scroll.saturating_add(1)
        } else {
            self.results_scroll.saturating_sub(1)
        };
    }

    pub fn is_fixable(&self) -> (r: bool)
        ensures
            r == self@.can_fix(),
    {
        match &self.result {
            Some(r) => !r.valid && !self.fixing,
            None => false,
        }
    }
}

/// Splits the inside of the form into its lines.
pub fn check_form_rows(form_inner: Rect) -> (r: Vec<Rect>)
    ensures
        geometry::stacked(form_inner, 1, form::lines(7), r@),
        r@.len() == 8,
{
    split_rows(form_inner, 1, &line_constraints(7))
}

/// Where the browser starts: the directory that the path names, or the one
/// that holds the file that it names; without a path, a default. `home` is
/// the home directory of this machine and `expanded` the path with it filled
/// in; neither means anything on a remote host.
pub open spec fn start_of(
    path: Seq<char>,
    is_remote: bool,
    home: Option<Seq<char>>,
    expanded: Seq<char>,
) -> Seq<char> {
    let raw = text::trimmed(path);
    if raw.len() == 0 {
        if is_remote {
            "/etc"@
        } else {
            match home {
                Some(h) => h,
                None => "/"@,
            }
        }
    } else {
        let resolved = if is_remote {
            raw
        } else {
            expanded
        };
        if Format::of_path(resolved) is Some {
            remote_path::parent(resolved)
        } else {
            resolved
        }
    }
}

pub fn starting_dir(path: &str, is_remote: bool, home: &Option<String>, expanded: &str) -> (r: String)
    ensures
        r@ == start_of(path@, is_remote, home.deep_view(), expanded@),
{
    let raw = text::trim(path);
    if raw.as_str().is_empty() {
        if is_remote {
            return text::owned("/etc");
        }
        return match home {
            Some(h) => h.clone(),
            None => text::owned("/"),
        };
    }
    let resolved = if is_remote {
        raw
    } else {
        text::owned(expanded)
    };
    if Format::detect(resolved.as_str()).is_some() {
        parent_of(resolved.as_str())
    } else {
        resolved
    }
}

// -------------------------------------------------------------------- screen

/// Work that the screen hands out.
pub enum Request {
    Connect(Target),
    /// Find the home directory, and fill it into a path of this machine.
    ResolvePath(String),
    ListDir { target: Target, path: String },
    /// Read a file and check it; a path of this machine is filled in first.
    CheckFile { target: Target, path: String, format: Format },
    /// Fix a file, keep a backup, and check what came of it.
    FixFile { target: Target, path: String, format: Format },
    ListHosts,
    BrowseKey(String),
    ReadDir(String),
    CopyResult(String),
    CopyHistory,
}

pub enum RequestModel {
    Connect(TargetModel),
    ResolvePath(Seq<char>),
    ListDir { target: TargetModel, path: Seq<char> },
    CheckFile { target: TargetModel, path: Seq<char>, format: Format },
    FixFile { target: TargetModel, path: Seq<char>, format: Format },
    ListHosts,
    BrowseKey(Seq<char>),
    ReadDir(Seq<char>),
    CopyResult(Seq<char>),
    CopyHistory,
}

impl View for Request {
    type V = RequestModel;

    open spec fn view(&self) -> RequestModel {
        match self {
            Request::Connect(a) => RequestModel::Connect(a@),
            Request::ResolvePath(a) => RequestModel::ResolvePath(a@),
            Request::ListDir { target, path } => RequestModel::ListDir { target: target@, path: path@ },
            Request::CheckFile { target, path, format } => RequestModel::CheckFile { target: target@, path: path@, format: *format },
            Request::FixFile { target, path, format } => RequestModel::FixFile { target: target@, path: path@, format: *format },
            Request::ListHosts => RequestModel::ListHosts,
            Request::BrowseKey(a) => RequestModel::BrowseKey(a@),
            Request::ReadDir(a) => RequestModel::ReadDir(a@),
            Request::CopyResult(a) => RequestModel::CopyResult(a@),
            Request::CopyHistory => RequestModel::CopyHistory,
        }
    }
}

impl DeepView for Request {
    type V = RequestModel;

    open spec fn deep_view(&self) -> RequestModel {
        self@
    }
}

/// What came of the work.
pub enum Msg {
    Connected(String),
    ConnectFailed(String),
    Resolved { raw: String, home: Option<String>, expanded: String },
    Listed { cwd: String, entries: Vec<Entry> },
    ListFailed { cwd: String, error: String },
    /// A file was read; `error` is what is wrong with it.
    Checked { path: String, format: Format, error: Option<String> },
    ReadFailed { path: String, error: String },
    Fixed { backup: String, remaining: Option<String> },
    FixFailed(String),
    Hosts(Vec<Server>),
    HostsFailed(String),
    KeyDir { listing: Listing, preselect: Option<String> },
    DirRead(Listing),
    ResultCopied(bool),
    HistoryCopied(bool),
}

pub enum MsgModel {
    Connected(Seq<char>),
    ConnectFailed(Seq<char>),
    Resolved { raw: Seq<char>, home: Option<Seq<char>>, expanded: Seq<char> },
    Listed { cwd: Seq<char>, entries: Seq<EntryModel> },
    ListFailed { cwd: Seq<char>, error: Seq<char> },
    Checked { path: Seq<char>, format: Format, error: Option<Seq<char>> },
    ReadFailed { path: Seq<char>, error: Seq<char> },
    Fixed { backup: Seq<char>, remaining: Option<Seq<char>> },
    FixFailed(Seq<char>),
    Hosts(Seq<ServerModel>),
    HostsFailed(Seq<char>),
    KeyDir { listing: ListingModel, preselect: Option<Seq<char>> },
    DirRead(ListingModel),
    ResultCopied(bool),
    HistoryCopied(bool),
}

impl View for Msg {
    type V = MsgModel;

    open spec fn view(&self) -> MsgModel {
        match self {
            Msg::Connected(a) => MsgModel::Connected(a@),
            Msg::ConnectFailed(a) => MsgModel::ConnectFailed(a@),
            Msg::Resolved { raw, home, expanded } => MsgModel::Resolved { raw: raw@, home: home.deep_view(), expanded: expanded@ },
            Msg::Listed { cwd, entries } => MsgModel::Listed { cwd: cwd@, entries: entries.deep_view() },
            Msg::ListFailed { cwd, error } => MsgModel::ListFailed { cwd: cwd@, error: error@ },
            Msg::Checked { path, format, error } => MsgModel::Checked { path: path@, format: *format, error: error.deep_view() },
            Msg::ReadFailed { path, error } => MsgModel::ReadFailed { path: path@, error: error@ },
            Msg::Fixed { backup, remaining } => MsgModel::Fixed { backup: backup@, remaining: remaining.deep_view() },
            Msg::FixFailed(a) => MsgModel::FixFailed(a@),
            Msg::Hosts(a) => MsgModel::Hosts(a.deep_view()),
            Msg::HostsFailed(a) => MsgModel::HostsFailed(a@),
            Msg::KeyDir { listing, preselect } => MsgModel::KeyDir { listing: listing@, preselect: preselect.deep_view() },
            Msg::DirRead(a) => MsgModel::DirRead(a@),
            Msg::ResultCopied(a) => MsgModel::ResultCopied(*a),
            Msg::HistoryCopied(a) => MsgModel::HistoryCopied(*a),
        }
    }
}

impl DeepView for Msg {
    type V = MsgModel;

    open spec fn deep_view(&self) -> MsgModel {
        self@
    }
}

pub struct ConfigCheckScreen {
    pub tab: Tab,
    pub target_tab: TargetTab,
    /// The target that the last connection reached.
    pub connected_label: Option<String>,
    pub check_tab: CheckTab,
    pub log: Log,
    /// Work that waits to be handed out, oldest first.
    pub requests: Vec<Request>,
}

pub struct ConfigCheckScreenModel {
    pub tab: Tab,
    pub target_tab: TargetTabModel,
    pub connected_label: Option<Seq<char>>,
    pub check_tab: CheckTabModel,
    pub log: LogModel,
    pub requests: Seq<RequestModel>,
}

impl View for ConfigCheckScreen {
    type V = ConfigCheckScreenModel;

    open spec fn view(&self) -> ConfigCheckScreenModel {
        ConfigCheckScreenModel {
            tab: self.tab,
            target_tab: self.target_tab@,
            connected_label: self.connected_label.deep_view(),
            check_tab: self.check_tab@,
            log: self.log@,
            requests: self.requests.deep_view(),
        }
    }
}

impl DeepView for ConfigCheckScreen {
    type V = ConfigCheckScreenModel;

    open spec fn deep_view(&self) -> ConfigCheckScreenModel {
        self@
    }
}

/// The rectangles that the screen is drawn into.
pub struct ConfigCheckLayout {
    pub screen: Vec<Rect>,
    pub target: TargetLayout,
    pub check: Vec<Rect>,
    pub check_form: Vec<Rect>,
    pub browser: Vec<Rect>,
}

pub struct ConfigCheckLayoutModel {
    pub screen: Seq<Rect>,
    pub target: TargetLayoutModel,
    pub check: Seq<Rect>,
    pub check_form: Seq<Rect>,
    pub browser: Seq<Rect>,
}

impl View for ConfigCheckLayout {
    type V = ConfigCheckLayoutModel;

    open spec fn view(&self) -> ConfigCheckLayoutModel {
        ConfigCheckLayoutModel {
            screen: self.screen@,
            target: self.target@,
            check: self.check@,
            check_form: self.check_form@,
            browser: self.browser@,
        }
    }
}

impl DeepView for ConfigCheckLayout {
    type V = ConfigCheckLayoutModel;

    open spec fn deep_view(&self) -> ConfigCheckLayoutModel {
        self@
    }
}

pub open spec fn tab_labels() -> Seq<Seq<char>> {
    seq!["F1 Target"@, "F2 Check"@]
}

pub open spec fn screen_rows() -> Seq<Constraint> {
    seq![Constraint::Length(1), Constraint::Min(0)]
}

pub open spec fn check_rows() -> Seq<Constraint> {
    seq![Constraint::Length(10), Constraint::Min(3), Constraint::Length(8)]
}

impl ConfigCheckLayoutModel {
    /// Whether the rectangles are those of a screen on `area`.
    pub open spec fn of(self, area: Rect, is_remote: bool) -> bool {
        &&& geometry::stacked(area, 0, screen_rows(), self.screen)
        &&& self.target.of(self.screen[1], is_remote)
        &&& geometry::stacked(self.screen[1], 0, check_rows(), self.check)
        &&& geometry::stacked(mouse::inner(self.check[0]), 1, form::lines(7), self.check_form)
        &&& geometry::stacked(
            mouse::inner(file_picker::picker_area(self.check[1])),
            1,
            file_picker::picker_rows(),
            self.browser,
        )
    }

    pub open spec fn complete_check(self) -> bool {
        &&& self.check.len() == 3
        &&& self.check_form.len() == 8
        &&& self.browser.len() == 2
    }

    pub open spec fn complete(self, is_remote: bool) -> bool {
        &&& self.screen.len() == 2
        &&& self.target.complete(is_remote)
        &&& self.complete_check()
    }
}

impl MsgModel {
    /// The line that a message leaves in the history, where it leaves one.
    pub open spec fn line(self) -> Option<(bool, Seq<char>)> {
        match self {
            MsgModel::Connected(label) => Some((true, "Connected to "@ + label)),
            MsgModel::ConnectFailed(e) => Some((false, "Connect failed: "@ + text::single_line(e))),
            MsgModel::Checked { path, format, error } => match error {
                None => Some((true, path + ": valid "@ + format.name())),
                Some(_) => Some(
                    (false, path + ": invalid "@ + format.name() + " — see the results window"@),
                ),
            },
            MsgModel::ReadFailed { path, error } => Some(
                (false, "couldn't read "@ + path + ": "@ + text::single_line(error)),
            ),
            MsgModel::Fixed { backup, remaining } => Some(
                (remaining is None, "auto-fix written, backup at "@ + backup),
            ),
            MsgModel::FixFailed(e) => Some((false, "auto-fix failed: "@ + text::single_line(e))),
            MsgModel::ResultCopied(ok) => Some(
                (
                    ok,
                    if ok {
                        "Result copied to clipboard"@
                    } else {
                        "Couldn't access the clipboard"@
                    },
                ),
            ),
            _ => None,
        }
    }
}

impl Msg {
    /// The line that a message leaves in the history, where it leaves one.
    pub fn line(&self) -> (r: Option<(bool, String)>)
        ensures
            r.deep_view() == self@.line(),
    {
        match self {
            Msg::Connected(label) => Some((true, text::cat2("Connected to ", label.as_str()))),
            Msg::ConnectFailed(e) => Some(
                (false, text::cat2("Connect failed: ", text::one_line(e.as_str()).as_str())),
            ),
            Msg::Checked { path, format, error } => match error {
                None => Some((true, text::cat3(path.as_str(), ": valid ", format.label()))),
                Some(_) => Some(
                    (
                        false,
                        text::cat4(path.as_str(), ": invalid ", format.label(), " — see the results window"),
                    ),
                ),
            },
            Msg::ReadFailed { path, error } => Some(
                (
                    false,
                    text::cat4("couldn't read ", path.as_str(), ": ", text::one_line(error.as_str()).as_str()),
                ),
            ),
            Msg::Fixed { backup, remaining } => Some(
                (remaining.is_none(), text::cat2("auto-fix written, backup at ", backup.as_str())),
            ),
            Msg::FixFailed(e) => Some(
                (false, text::cat2("auto-fix failed: ", text::one_line(e.as_str()).as_str())),
            ),
            Msg::ResultCopied(ok) => if *ok {
                Some((true, text::owned("Result copied to clipboard")))
            } else {
                Some((false, text::owned("Couldn't access the clipboard")))
            },
            _ => None,
        }
    }
}

/// A result with what a fix did.
pub open spec fn fixed(r: CheckResultModel, backup: Seq<char>, remaining: Option<Seq<char>>) -> CheckResultModel {
    CheckResultModel {
        valid: remaining is None,
        error_text: match remaining {
            Some(e) => e,
            None => Seq::empty(),
        },
        fix_backup: Some(backup),
        fix_message: Some(
            if remaining is None {
                "Auto-fix applied — the file now parses cleanly."@
            } else {
                "Auto-fix applied, but some errors remain — see below."@
            },
        ),
        ..r
    }
}

impl ConfigCheckScreenModel {
    pub open spec fn fresh() -> ConfigCheckScreenModel {
        ConfigCheckScreenModel {
            tab: Tab::Target,
            target_tab: TargetTabModel::empty(),
            connected_label: None,
            check_tab: CheckTabModel::empty(),
            log: LogModel::empty(),
            requests: Seq::empty(),
        }
    }

    pub open spec fn ask(self, r: RequestModel) -> ConfigCheckScreenModel {
        ConfigCheckScreenModel { requests: self.requests.push(r), ..self }
    }

    pub open spec fn with_log(self, log: LogModel) -> ConfigCheckScreenModel {
        ConfigCheckScreenModel { log, ..self }
    }

    pub open spec fn error(self, msg: Seq<char>) -> ConfigCheckScreenModel {
        self.with_log(self.log.error(msg))
    }

    pub open spec fn with_target(self, target_tab: TargetTabModel) -> ConfigCheckScreenModel {
        ConfigCheckScreenModel { target_tab, ..self }
    }

    pub open spec fn with_check(self, check_tab: CheckTabModel) -> ConfigCheckScreenModel {
        ConfigCheckScreenModel { check_tab, ..self }
    }

    pub open spec fn on_tab(self, tab: Tab) -> ConfigCheckScreenModel {
        ConfigCheckScreenModel { tab, ..self }
    }

    #[verifier::opaque]
    pub open spec fn connect(self) -> ConfigCheckScreenModel {
        if self.target_tab.needs_host() {
            self.error("Enter a remote host first (or switch Mode to Local)"@)
        } else {
            self.with_target(TargetTabModel { connecting: true, ..self.target_tab }).ask(
                RequestModel::Connect(self.target_tab.target()),
            )
        }
    }

    /// The browser opened on a directory.
    pub open spec fn browse_at(self, start: Seq<char>) -> ConfigCheckScreenModel {
        self.with_check(self.check_tab.with_browser(Some(BrowserModel::at(start)))).list_dir(start)
    }

    pub open spec fn list_dir(self, path: Seq<char>) -> ConfigCheckScreenModel {
        self.ask(RequestModel::ListDir { target: self.target_tab.target(), path })
    }

    /// Browsing a remote host starts at an absolute path; on this machine the
    /// path is resolved first.
    #[verifier::opaque]
    pub open spec fn start_browse(self) -> ConfigCheckScreenModel {
        let path = self.check_tab.path.text;
        if self.target_tab.needs_host() {
            self.error("Enter a remote host on the Target tab first"@)
        } else if self.target_tab.is_remote {
            let start = start_of(path, true, None, Seq::empty());
            if text::absolute(start) {
                self.browse_at(start)
            } else {
                self.error(
                    "Remote paths must be absolute (e.g. /etc/nginx/nginx.conf) — \"~\" can't be resolved without running a command first"@,
                )
            }
        } else {
            self.ask(RequestModel::ResolvePath(text::trimmed(path)))
        }
    }

    #[verifier::opaque]
    pub open spec fn check(self) -> ConfigCheckScreenModel {
        let raw = text::trimmed(self.check_tab.path.text);
        if raw.len() == 0 {
            self.error("Enter a path first"@)
        } else if self.target_tab.is_remote && !text::absolute(raw) {
            self.error("Remote paths must be absolute (e.g. /etc/nginx/nginx.conf)"@)
        } else {
            match self.check_tab.format_choice.resolved(raw) {
                None => self.error(
                    "Can't tell the format from this filename — set Format to something other than Auto"@,
                ),
                Some(format) => self.with_check(CheckTabModel { checking: true, ..self.check_tab }).ask(
                    RequestModel::CheckFile { target: self.target_tab.target(), path: raw, format },
                ),
            }
        }
    }

    #[verifier::opaque]
    pub open spec fn fix(self) -> ConfigCheckScreenModel {
        match self.check_tab.result {
            Some(r) => self.with_check(CheckTabModel { fixing: true, ..self.check_tab }).ask(
                RequestModel::FixFile { target: self.target_tab.target(), path: r.path, format: r.format },
            ),
            None => self,
        }
    }

    #[verifier::opaque]
    pub open spec fn target_done(self, a: TargetActionModel) -> ConfigCheckScreenModel {
        match a {
            TargetActionModel::Nothing => self,
            TargetActionModel::ListHosts => self.ask(RequestModel::ListHosts),
            TargetActionModel::BrowseKey(p) => self.ask(RequestModel::BrowseKey(p)),
            TargetActionModel::ReadDir(p) => self.ask(RequestModel::ReadDir(p)),
            TargetActionModel::Connect => self.connect(),
            TargetActionModel::ModeTurned => ConfigCheckScreenModel { connected_label: None, ..self },
            TargetActionModel::ModePicked => ConfigCheckScreenModel {
                connected_label: None,
                target_tab: self.target_tab.focus(TargetField::Mode),
                ..self
            },
            TargetActionModel::ScrollHistory(up) => self.with_log(self.log.scrolled(up)),
        }
    }

    #[verifier::opaque]
    pub open spec fn check_done(self, a: CheckActionModel) -> ConfigCheckScreenModel {
        match a {
            CheckActionModel::Nothing => self,
            CheckActionModel::Browse => self.start_browse(),
            CheckActionModel::Check => self.check(),
            CheckActionModel::List(dir) => self.list_dir(dir),
            CheckActionModel::ScrollHistory(up) => self.with_log(self.log.scrolled(up)),
        }
    }

    /// What the results window hands to the clipboard.
    pub open spec fn result_text(r: CheckResultModel) -> Seq<char> {
        if r.valid {
            r.path + ": valid "@ + r.format.name()
        } else {
            r.error_text
        }
    }

    #[verifier::opaque]
    pub open spec fn on_results_key(self, key: KeyEvent) -> ConfigCheckScreenModel {
        if key.chord('y') {
            match self.check_tab.result {
                Some(r) => self.ask(RequestModel::CopyResult(ConfigCheckScreenModel::result_text(r))),
                None => self,
            }
        } else {
            match key.code {
                KeyCode::Esc => self.with_check(CheckTabModel { show_results: false, ..self.check_tab }),
                KeyCode::Up => self.with_check(self.check_tab.results_scrolled(true)),
                KeyCode::Down => self.with_check(self.check_tab.results_scrolled(false)),
                KeyCode::Char(c) => if (c == 'f' || c == 'F') && self.check_tab.can_fix() {
                    self.with_check(CheckTabModel { confirm_fix: true, ..self.check_tab })
                } else {
                    self
                },
                _ => self,
            }
        }
    }

    #[verifier::opaque]
    pub open spec fn on_confirm_key(self, key: KeyCode) -> ConfigCheckScreenModel {
        let s = self.with_check(CheckTabModel { confirm_fix: false, ..self.check_tab });
        match key {
            KeyCode::Enter => s.fix(),
            KeyCode::Esc => s,
            _ => self,
        }
    }

    #[verifier::opaque]
    pub open spec fn on_target_key(self, key: KeyCode) -> ConfigCheckScreenModel {
        let r = self.target_tab.on_key(key);
        self.with_target(r.0).target_done(r.1)
    }

    #[verifier::opaque]
    pub open spec fn on_check_key(self, key: KeyCode) -> ConfigCheckScreenModel {
        let r = self.check_tab.on_key(key);
        self.with_check(r.0).check_done(r.1)
    }

    /// The screen after a key, and whether the key leaves it.
    pub open spec fn on_key(self, key: KeyEvent) -> (ConfigCheckScreenModel, bool) {
        let picking = self.target_tab.picking() || self.check_tab.browser is Some;
        if self.log.alert is Some {
            (if log::closes_alert(key.code) {
                self.with_log(self.log.dismissed())
            } else {
                self
            }, false)
        } else if self.check_tab.confirm_fix {
            (self.on_confirm_key(key.code), false)
        } else if self.check_tab.show_results {
            (self.on_results_key(key), false)
        } else if key.chord('y') {
            (self.ask(RequestModel::CopyHistory), false)
        } else if log::scrolls_history(key) {
            (self.with_log(self.log.scrolled(key.code == KeyCode::Up)), false)
        } else if key.code == KeyCode::Esc && !picking {
            (self, true)
        } else if key.code == KeyCode::F(1) && !picking {
            (self.on_tab(Tab::Target), false)
        } else if key.code == KeyCode::F(2) && !picking {
            (self.on_tab(Tab::Check), false)
        } else {
            (match self.tab {
                Tab::Target => self.on_target_key(key.code),
                Tab::Check => self.on_check_key(key.code),
            }, false)
        }
    }

    /// The tab whose label a click hits.
    pub open spec fn tab_hit(me: MouseEvent, l: ConfigCheckLayoutModel) -> Option<usize> {
        match mouse::clicked(me) {
            Some((x, y)) => mouse::label_hit(x, y, l.screen[0], tab_labels()),
            None => None,
        }
    }

    #[verifier::opaque]
    pub open spec fn on_target_mouse(self, me: MouseEvent, l: ConfigCheckLayoutModel) -> ConfigCheckScreenModel {
        let r = self.target_tab.on_mouse(me, l.target);
        self.with_target(r.0).target_done(r.1)
    }

    #[verifier::opaque]
    pub open spec fn on_check_mouse(self, me: MouseEvent, l: ConfigCheckLayoutModel) -> ConfigCheckScreenModel {
        let r = self.check_tab.on_mouse(me, l);
        self.with_check(r.0).check_done(r.1)
    }

    /// The screen after a mouse event. The question whether to fix a file is
    /// for the keyboard alone: it writes to the file.
    pub open spec fn on_mouse(self, me: MouseEvent, l: ConfigCheckLayoutModel) -> ConfigCheckScreenModel {
        if self.log.alert is Some {
            if mouse::clicked(me) is Some {
                self.with_log(self.log.dismissed())
            } else {
                self
            }
        } else if self.check_tab.confirm_fix {
            self
        } else if self.check_tab.show_results {
            match mouse::scrolled(me) {
                Some(d) => self.with_check(self.check_tab.results_scrolled(d < 0)),
                None => self,
            }
        } else {
            match ConfigCheckScreenModel::tab_hit(me, l) {
                Some(i) => self.on_tab(
                    if i == 0 {
                        Tab::Target
                    } else {
                        Tab::Check
                    },
                ),
                None => match self.tab {
                    Tab::Target => self.on_target_mouse(me, l),
                    Tab::Check => self.on_check_mouse(me, l),
                },
            }
        }
    }

    /// The screen after a check of a file.
    #[verifier::opaque]
    pub open spec fn checked(self, path: Seq<char>, format: Format, error: Option<Seq<char>>) -> ConfigCheckScreenModel {
        self.with_check(
            CheckTabModel {
                checking: false,
                result: Some(
                    CheckResultModel {
                        path,
                        format,
                        valid: error is None,
                        error_text: match error {
                            Some(e) => e,
                            None => Seq::empty(),
                        },
                        fix_backup: None,
                        fix_message: None,
                    },
                ),
                show_results: true,
                results_scroll: 0,
                ..self.check_tab
            },
        )
    }

    /// The screen after a fix.
    #[verifier::opaque]
    pub open spec fn fix_done(self, backup: Seq<char>, remaining: Option<Seq<char>>) -> ConfigCheckScreenModel {
        self.with_check(
                CheckTabModel {
                    fixing: false,
                    results_scroll: 0,
                    result: match self.check_tab.result {
                        Some(r) => Some(fixed(r, backup, remaining)),
                        None => None,
                    },
                    ..self.check_tab
                },
            )
    }

    /// The screen with what a message brings, but for the line that it leaves.
    pub open spec fn absorb(self, m: MsgModel) -> ConfigCheckScreenModel {
        match m {
            MsgModel::Connected(label) => ConfigCheckScreenModel {
                target_tab: TargetTabModel { connecting: false, ..self.target_tab },
                connected_label: Some(label),
                ..self
            },
            MsgModel::ConnectFailed(_) => ConfigCheckScreenModel {
                target_tab: TargetTabModel { connecting: false, ..self.target_tab },
                connected_label: None,
                ..self
            },
            MsgModel::Resolved { raw, home, expanded } => self.browse_at(start_of(raw, false, home, expanded)),
            MsgModel::Listed { cwd, entries } => match self.check_tab.browser {
                Some(b) => self.with_check(self.check_tab.with_browser(Some(b.listed(cwd, entries)))),
                None => self,
            },
            MsgModel::ListFailed { cwd, error } => match self.check_tab.browser {
                Some(b) => self.with_check(self.check_tab.with_browser(Some(b.failed(cwd, error)))),
                None => self,
            },
            MsgModel::Checked { path, format, error } => self.checked(path, format, error),
            MsgModel::ReadFailed { path: _, error } => self.with_check(
                CheckTabModel { checking: false, ..self.check_tab },
            ).with_log(self.log.shown("Error"@, error)),
            MsgModel::Fixed { backup, remaining } => self.fix_done(backup, remaining),
            MsgModel::FixFailed(error) => self.with_check(
                CheckTabModel { fixing: false, ..self.check_tab },
            ).with_log(self.log.shown("Auto-Fix Failed"@, error)),
            MsgModel::HistoryCopied(ok) => self.with_log(self.log.copied(ok)),
            _ => self.absorb_picker(m),
        }
    }

    /// The screen with what a message brings for a picker.
    #[verifier::opaque]
    pub open spec fn absorb_picker(self, m: MsgModel) -> ConfigCheckScreenModel {
        match m {
            MsgModel::Hosts(all) => self.with_target(
                TargetTabModel { host_picker: Some(HostPickerModel::over(all)), ..self.target_tab },
            ),
            MsgModel::HostsFailed(e) => self.with_target(
                TargetTabModel { host_picker: Some(HostPickerModel::failed(e)), ..self.target_tab },
            ),
            MsgModel::KeyDir { listing, preselect } => self.with_target(
                TargetTabModel {
                    key_picker: Some(FilePickerModel::opened(listing, preselect)),
                    ..self.target_tab
                },
            ),
            MsgModel::DirRead(listing) => if self.target_tab.key_picker is Some {
                self.with_target(
                    TargetTabModel {
                        key_picker: Some(FilePickerModel::opened(listing, None)),
                        ..self.target_tab
                    },
                )
            } else {
                self
            },
            _ => self,
        }
    }

    pub open spec fn on_msg(self, m: MsgModel) -> ConfigCheckScreenModel {
        let s = self.absorb(m);
        match m.line() {
            Some((ok, line)) => s.with_log(s.log.note(ok, line)),
            None => s,
        }
    }

    pub open spec fn ticked(self, msgs: Seq<MsgModel>) -> ConfigCheckScreenModel
        decreases msgs.len(),
    {
        if msgs.len() == 0 {
            self
        } else {
            self.ticked(msgs.drop_last()).on_msg(msgs.last())
        }
    }
}

impl ConfigCheckScreen {
    pub fn new() -> (r: ConfigCheckScreen)
        ensures
            r@ == ConfigCheckScreenModel::fresh(),
    {
        let r = ConfigCheckScreen {
            tab: Tab::Target,
            target_tab: TargetTab::new(),
            connected_label: None,
            check_tab: CheckTab::new(),
            log: Log::new(),
            requests: Vec::new(),
        };
        assert(r@.requests =~= Seq::empty());
        r
    }

    /// Hands out the queued requests.
    pub fn take_requests(&mut self) -> (r: Vec<Request>)
        ensures
            r.deep_view() == old(self)@.requests,
            final(self)@ == (ConfigCheckScreenModel { requests: Seq::empty(), ..old(self)@ }),
    {
        let mut r: Vec<Request> = Vec::new();
        std::mem::swap(&mut r, &mut self.requests);
        assert(self@.requests =~= Seq::empty());
        r
    }

    fn ask(&mut self, r: Request)
        ensures
            final(self)@ == old(self)@.ask(r@),
    {
        append_to(&mut self.requests, r);
    }

    fn error(&mut self, msg: &str)
        ensures
            final(self)@ == old(self)@.error(msg@),
    {
        self.log.error(msg);
    }

    /// Takes in what came of requests.
    pub fn tick(&mut self, msgs: Vec<Msg>)
        ensures
            final(self)@ == old(self)@.ticked(msgs.deep_view()),
    {
        let ghost all = msgs.deep_view();
        let ghost start = self@;
        let mut i: usize = 0;
        assert(all.take(0) =~= Seq::empty());
        while i < msgs.len()
            invariant
                i <= msgs@.len(),
                all == msgs.deep_view(),
                self@ == start.ticked(all.take(i as int)),
            decreases msgs@.len() - i,
        {
            proof {
                assert(all.take(i + 1).drop_last() =~= all.take(i as int));
                assert(all.take(i + 1).last() == msgs@[i as int]@);
            }
            self.receive(&msgs[i]);
            i = i + 1;
        }
        assert(all.take(all.len() as int) =~= all);
    }

    fn receive(&mut self, m: &Msg)
        ensures
            final(self)@ == old(self)@.on_msg(m@),
    {
        self.absorb(m);
        if let Some((ok, line)) = m.line() {
            self.log.note(ok, line);
        }
    }

    fn absorb(&mut self, m: &Msg)
        ensures
            final(self)@ == old(self)@.absorb(m@),
    {
        match m {
            Msg::Connected(label) => {
                self.target_tab.connecting = false;
                self.connected_label = Some(label.clone());
            },
            Msg::ConnectFailed(_) => {
                self.target_tab.connecting = false;
                self.connected_label = None;
            },
            Msg::Resolved { raw, home, expanded } => {
                let start = starting_dir(raw.as_str(), false, home, expanded.as_str());
                self.browse_at(start);
            },
            Msg::Listed { cwd, entries } => {
                if let Some(b) = &mut self.check_tab.browser {
                    b.apply_listing(cwd.as_str(), entries);
                }
            },
            Msg::ListFailed { cwd, error } => {
                if let Some(b) = &mut self.check_tab.browser {
                    b.apply_error(cwd.as_str(), error.as_str());
                }
            },
            Msg::Checked { path, format, error } => self.take_check(path, *format, error),
            Msg::ReadFailed { path: _, error } => {
                self.check_tab.checking = false;
                self.log.show("Error", error.as_str());
            },
            Msg::Fixed { backup, remaining } => self.take_fix(backup, remaining),
            Msg::FixFailed(error) => {
                self.check_tab.fixing = false;
                self.log.show("Auto-Fix Failed", error.as_str());
            },
            Msg::HistoryCopied(ok) => self.log.copied(*ok),
            _ => self.absorb_picker(m),
        }
    }

    fn absorb_picker(&mut self, m: &Msg)
        ensures
            final(self)@ == old(self)@.absorb_picker(m@),
    {
        proof {
            reveal(ConfigCheckScreenModel::absorb_picker);
        }
        match m {
            Msg::Hosts(all) => self.target_tab.host_picker = Some(HostPicker::new(Ok(all.copy()))),
            Msg::HostsFailed(e) => self.target_tab.host_picker = Some(HostPicker::new(Err(e.clone()))),
            Msg::KeyDir { listing, preselect } => {
                self.target_tab.key_picker = Some(FilePicker::new(listing, preselect.copy()));
            },
            Msg::DirRead(listing) => {
                if self.target_tab.key_picker.is_some() {
                    self.target_tab.key_picker = Some(FilePicker::new(listing, None));
                }
            },
            _ => {},
        }
    }

    fn take_check(&mut self, path: &String, format: Format, error: &Option<String>)
        ensures
            final(self)@ == old(self)@.checked(path@, format, error.deep_view()),
    {
        proof {
            reveal(ConfigCheckScreenModel::checked);
        }
        let error_text = match error {
            Some(e) => e.clone(),
            None => String::new(),
        };
        self.check_tab.checking = false;
        self.check_tab.result = Some(
            CheckResult {
                path: path.clone(),
                format,
                valid: error.is_none(),
                error_text,
                fix_backup: None,
                fix_message: None,
            },
        );
        self.check_tab.show_results = true;
        self.check_tab.results_scroll = 0;
    }

    fn take_fix(&mut self, backup: &String, remaining: &Option<String>)
        ensures
            final(self)@ == old(self)@.fix_done(backup@, remaining.deep_view()),
    {
        proof {
            reveal(ConfigCheckScreenModel::fix_done);
        }
        self.check_tab.fixing = false;
        self.check_tab.results_scroll = 0;
        let error_text = match remaining {
            Some(e) => e.clone(),
            None => String::new(),
        };
        let message = if remaining.is_none() {
            text::owned("Auto-fix applied — the file now parses cleanly.")
        } else {
            text::owned("Auto-fix applied, but some errors remain — see below.")
        };
        if let Some(r) = &mut self.check_tab.result {
            r.valid = remaining.is_none();
            r.error_text = error_text;
            r.fix_backup = Some(backup.clone());
            r.fix_message = Some(message);
        }
    }

    // ------------------------------------------------------------- actions

    pub fn trigger_connect(&mut self)
        ensures
            final(self)@ == old(self)@.connect(),
    {
        proof {
            reveal(ConfigCheckScreenModel::connect);
        }
        if self.target_tab.lacks_host() {
            self.error("Enter a remote host first (or switch Mode to Local)");
            return;
        }
        self.target_tab.connecting = true;
        let target = self.target_tab.as_target();
        self.ask(Request::Connect(target));
    }

    fn list_dir(&mut self, path: String)
        ensures
            final(self)@ == old(self)@.list_dir(path@),
    {
        let target = self.target_tab.as_target();
        self.ask(Request::ListDir { target, path });
    }

    fn browse_at(&mut self, start: String)
        ensures
            final(self)@ == old(self)@.browse_at(start@),
    {
        self.check_tab.browser = Some(Browser::new(start.as_str()));
        self.list_dir(start);
    }

    pub fn start_browse(&mut self)
        ensures
            final(self)@ == old(self)@.start_browse(),
    {
        proof {
            reveal(ConfigCheckScreenModel::start_browse);
        }
        if self.target_tab.lacks_host() {
            self.error("Enter a remote host on the Target tab first");
            return;
        }
        let path = self.check_tab.path.value();
        if !self.target_tab.is_remote {
            self.ask(Request::ResolvePath(text::trim(path.as_str())));
            return;
        }
        proof {
            reveal_strlit("");
            assert(""@ =~= Seq::empty());
        }
        let start = starting_dir(path.as_str(), true, &None, "");
        if text::is_absolute(start.as_str()) {
            self.browse_at(start);
        } else {
            self.error(
                "Remote paths must be absolute (e.g. /etc/nginx/nginx.conf) — \"~\" can't be resolved without running a command first",
            );
        }
    }

    pub fn trigger_check(&mut self)
        ensures
            final(self)@ == old(self)@.check(),
    {
        proof {
            reveal(ConfigCheckScreenModel::check);
        }
        let raw = self.check_tab.path.trimmed();
        if raw.as_str().is_empty() {
            self.error("Enter a path first");
            return;
        }
        if self.target_tab.is_remote && !text::is_absolute(raw.as_str()) {
            self.error("Remote paths must be absolute (e.g. /etc/nginx/nginx.conf)");
            return;
        }
        match self.check_tab.format_choice.resolve(raw.as_str()) {
            None => self.error("Can't tell the format from this filename — set Format to something other than Auto"),
            Some(format) => {
                self.check_tab.checking = true;
                let target = self.target_tab.as_target();
                self.ask(Request::CheckFile { target, path: raw, format });
            },
        }
    }

    pub fn trigger_fix(&mut self)
        ensures
            final(self)@ == old(self)@.fix(),
    {
        proof {
            reveal(ConfigCheckScreenModel::fix);
        }
        let (path, format) = match &self.check_tab.result {
            Some(r) => (r.path.clone(), r.format),
            None => {
                return;
            },
        };
        self.check_tab.fixing = true;
        let target = self.target_tab.as_target();
        self.ask(Request::FixFile { target, path, format });
    }

    fn do_target(&mut self, a: TargetAction)
        ensures
            final(self)@ == old(self)@.target_done(a@),
    {
        proof {
            reveal(ConfigCheckScreenModel::target_done);
        }
        match a {
            TargetAction::Nothing => {},
            TargetAction::ListHosts => self.ask(Request::ListHosts),
            TargetAction::BrowseKey(p) => self.ask(Request::BrowseKey(p)),
            TargetAction::ReadDir(p) => self.ask(Request::ReadDir(p)),
            TargetAction::Connect => self.trigger_connect(),
            TargetAction::ModeTurned => self.connected_label = None,
            TargetAction::ModePicked => {
                self.connected_label = None;
                self.target_tab.field = TargetField::Mode;
            },
            TargetAction::ScrollHistory(up) => self.log.scroll_by(up),
        }
    }

    fn do_check(&mut self, a: CheckAction)
        ensures
            final(self)@ == old(self)@.check_done(a@),
    {
        proof {
            reveal(ConfigCheckScreenModel::check_done);
        }
        match a {
            CheckAction::Nothing => {},
            CheckAction::Browse => self.start_browse(),
            CheckAction::Check => self.trigger_check(),
            CheckAction::List(dir) => self.list_dir(dir),
            CheckAction::ScrollHistory(up) => self.log.scroll_by(up),
        }
    }

    // ---------------------------------------------------------------- keys

    fn handle_confirm_key(&mut self, key: KeyCode)
        ensures
            final(self)@ == old(self)@.on_confirm_key(key),
    {
        proof {
            reveal(ConfigCheckScreenModel::on_confirm_key);
        }
        match key {
            KeyCode::Enter => {
                self.check_tab.confirm_fix = false;
                self.trigger_fix();
            },
            KeyCode::Esc => self.check_tab.confirm_fix = false,
            _ => {},
        }
    }

    pub fn handle_results_key(&mut self, key: KeyEvent)
        ensures
            final(self)@ == old(self)@.on_results_key(key),
    {
        proof {
            reveal(ConfigCheckScreenModel::on_results_key);
        }
        if key.is_chord('y') {
            let copied = match &self.check_tab.result {
                Some(r) => if r.valid {
                    text::cat3(r.path.as_str(), ": valid ", r.format.label())
                } else {
                    r.error_text.clone()
                },
                None => {
                    return;
                },
            };
            self.ask(Request::CopyResult(copied));
            return;
        }
        match key.code {
            KeyCode::Esc => self.check_tab.show_results = false,
            KeyCode::Up => self.check_tab.scroll_results(true),
            KeyCode::Down => self.check_tab.scroll_results(false),
            KeyCode::Char(c) => if (c == 'f' || c == 'F') && self.check_tab.is_fixable() {
                self.check_tab.confirm_fix = true;
            },
            _ => {},
        }
    }

    pub fn handle_target_key(&mut self, key: KeyCode)
        ensures
            final(self)@ == old(self)@.on_target_key(key),
    {
        proof {
            reveal(ConfigCheckScreenModel::on_target_key);
        }
        let a = self.target_tab.handle_key(key);
        self.do_target(a);
    }

    pub fn handle_check_key(&mut self, key: KeyCode)
        ensures
            final(self)@ == old(self)@.on_check_key(key),
    {
        proof {
            reveal(ConfigCheckScreenModel::on_check_key);
        }
        let a = self.check_tab.handle_key(key);
        self.do_check(a);
    }

    pub fn handle_key(&mut self, key: KeyEvent) -> (leave: bool)
        ensures
            (final(self)@, leave) == old(self)@.on_key(key),
    {
        if self.log.alert.is_some() {
            if is_closing(key.code) {
                self.log.dismiss();
            }
            return false;
        }
        if self.check_tab.confirm_fix {
            self.handle_confirm_key(key.code);
            return false;
        }
        if self.check_tab.show_results {
            self.handle_results_key(key);
            return false;
        }
        if key.is_chord('y') {
            self.ask(Request::CopyHistory);
            return false;
        }
        if is_history_scroll(&key) {
            self.log.scroll_by(key.code == KeyCode::Up);
            return false;
        }
        if !self.target_tab.is_picking() && self.check_tab.browser.is_none() {
            match key.code {
                KeyCode::Esc => {
                    return true;
                },
                KeyCode::F(n) => if n == 1 {
                    self.tab = Tab::Target;
                    return false;
                } else if n == 2 {
                    self.tab = Tab::Check;
                    return false;
                },
                _ => {},
            }
        }
        match self.tab {
            Tab::Target => self.handle_target_key(key.code),
            Tab::Check => self.handle_check_key(key.code),
        }
        false
    }

    // --------------------------------------------------------------- mouse

    /// The rectangles that the screen is drawn into.
    pub fn layout(&self, area: Rect) -> (l: ConfigCheckLayout)
        ensures
            l@.of(area, self@.target_tab.is_remote),
            l@.complete(self@.target_tab.is_remote),
    {
        let cs = vec![Constraint::Length(1), Constraint::Min(0)];
        assert(cs@ =~= screen_rows());
        let screen = split_rows(area, 0, &cs);
        let target = self.target_tab.layout(screen[1]);
        let cs = vec![Constraint::Length(10), Constraint::Min(3), Constraint::Length(8)];
        assert(cs@ =~= check_rows());
        let check = split_rows(screen[1], 0, &cs);
        let check_form = check_form_rows(mouse::block_inner(check[0]));
        let browser = FilePicker::rows(check[1]);
        ConfigCheckLayout { screen, target, check, check_form, browser }
    }

    /// A mouse event on a screen drawn into `area`.
    pub fn handle_mouse(&mut self, me: MouseEvent, area: Rect)
        ensures
            exists|l: ConfigCheckLayoutModel| #[trigger]
                l.of(area, old(self)@.target_tab.is_remote) && final(self)@ == old(self)@.on_mouse(me, l),
    {
        let l = self.layout(area);
        self.mouse_on(me, &l);
    }

    /// A mouse event on a screen drawn into these rectangles.
    pub fn mouse_on(&mut self, me: MouseEvent, l: &ConfigCheckLayout)
        requires
            l@.complete(old(self)@.target_tab.is_remote),
        ensures
            final(self)@ == old(self)@.on_mouse(me, l@),
    {
        if self.log.alert.is_some() {
            if mouse::left_click(&me).is_some() {
                self.log.dismiss();
            }
            return;
        }
        if self.check_tab.confirm_fix {
            return;
        }
        if self.check_tab.show_results {
            if let Some(delta) = mouse::scroll_delta(&me) {
                self.check_tab.scroll_results(delta < 0);
            }
            return;
        }
        if let Some((x, y)) = mouse::left_click(&me) {
            let labels = ["F1 Target", "F2 Check"];
            assert(labels.deep_view() =~= tab_labels());
            if let Some(i) = mouse::label_row_hit(x, y, l.screen[0], &labels) {
                self.tab = if i == 0 {
                    Tab::Target
                } else {
                    Tab::Check
                };
                return;
            }
        }
        match self.tab {
            Tab::Target => self.handle_target_mouse(me, l),
            Tab::Check => self.handle_check_mouse(me, l),
        }
    }

    pub fn handle_target_mouse(&mut self, me: MouseEvent, l: &ConfigCheckLayout)
        requires
            l@.complete(old(self)@.target_tab.is_remote),
        ensures
            final(self)@ == old(self)@.on_target_mouse(me, l@),
    {
        proof {
            reveal(ConfigCheckScreenModel::on_target_mouse);
        }
        let a = self.target_tab.handle_mouse(&me, &l.target);
        self.do_target(a);
    }

    pub fn handle_check_mouse(&mut self, me: MouseEvent, l: &ConfigCheckLayout)
        requires
            l@.complete_check(),
        ensures
            final(self)@ == old(self)@.on_check_mouse(me, l@),
    {
        proof {
            reveal(ConfigCheckScreenModel::on_check_mouse);
        }
        let a = self.check_tab.handle_mouse(&me, l);
        self.do_check(a);
    }
}

} // verus!
