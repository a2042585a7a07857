//! A small file browser modal, used wherever a path is picked instead of
//! typed blind. Reading a directory is left to the caller, who hands the
//! listing over.
use vstd::prelude::*;

use crate::event::{KeyCode, MouseEvent};
use crate::geometry::{modal_area, split_rows, Constraint, Rect};
use crate::geometry;
use crate::host_picker::PickerStep;
use crate::host_picker;
use crate::local_path;
use crate::model::{append_to, Copyable};
use crate::mouse;
use crate::sort;
use crate::text;
use crate::picture::{no_lines, Frame, Line, LineModel, Picture, PictureModel, Span, SpanModel, Tone};
use crate::text::{cat2, cat3};

verus! {

/// One name in a directory.
pub struct Entry {
    pub name: String,
    pub is_dir: bool,
}

pub struct EntryModel {
    pub name: Seq<char>,
    pub is_dir: bool,
}

impl View for Entry {
    type V = EntryModel;

    open spec fn view(&self) -> EntryModel {
        EntryModel {
            name: self.name@,
            is_dir: self.is_dir,
        }
    }
}

impl DeepView for Entry {
    type V = EntryModel;

    open spec fn deep_view(&self) -> EntryModel {
        self@
    }
}

impl Copyable for Entry {
    fn copy(&self) -> (r: Self) {
        Entry {
            name: self.name.clone(),
            is_dir: self.is_dir,
        }
    }
}

/// What reading a directory gave: its entries or the error.
pub struct Listing {
    pub cwd: String,
    pub entries: Vec<Entry>,
    pub error: Option<String>,
}

pub struct ListingModel {
    pub cwd: Seq<char>,
    pub entries: Seq<EntryModel>,
    pub error: Option<Seq<char>>,
}

impl View for Listing {
    type V = ListingModel;

    open spec fn view(&self) -> ListingModel {
        ListingModel {
            cwd: self.cwd@,
            entries: self.entries.deep_view(),
            error: self.error.deep_view(),
        }
    }
}

impl DeepView for Listing {
    type V = ListingModel;

    open spec fn deep_view(&self) -> ListingModel {
        self@
    }
}

pub struct FilePicker {
    pub cwd: String,
    pub entries: Vec<Entry>,
    pub selected: usize,
    pub error: Option<String>,
}

pub struct FilePickerModel {
    pub cwd: Seq<char>,
    pub entries: Seq<EntryModel>,
    pub selected: int,
    pub error: Option<Seq<char>>,
}

impl View for FilePicker {
    type V = FilePickerModel;

    open spec fn view(&self) -> FilePickerModel {
        FilePickerModel {
            cwd: self.cwd@,
            entries: self.entries.deep_view(),
            selected: self.selected as int,
            error: self.error.deep_view(),
        }
    }
}

impl DeepView for FilePicker {
    type V = FilePickerModel;

    open spec fn deep_view(&self) -> FilePickerModel {
        self@
    }
}

/// What is known of a path before a picker opens on it.
pub struct StartFacts {
    pub path: String,
    /// Whether the path is a directory.
    pub is_dir: bool,
    /// Whether the path is a file that is there.
    pub is_file: bool,
    /// Whether what holds the path is a directory that can be opened.
    pub parent_is_dir: bool,
    /// The home directory, where one is known.
    pub home: Option<String>,
    /// Whether there is a directory `.ssh` in the home directory, or else in the root.
    pub ssh_dir_exists: bool,
}

/// What Enter does.
pub enum Activation {
    /// Nothing to open.
    Nothing,
    /// A directory is to be read and shown.
    Open(String),
    /// A file was chosen.
    Picked(String),
}

pub enum ActivationModel {
    Nothing,
    Open(Seq<char>),
    Picked(Seq<char>),
}

impl View for Activation {
    type V = ActivationModel;

    open spec fn view(&self) -> ActivationModel {
        match self {
            Activation::Nothing => ActivationModel::Nothing,
            Activation::Open(p) => ActivationModel::Open(p@),
            Activation::Picked(p) => ActivationModel::Picked(p@),
        }
    }
}

/// The home directory, or the root where none is known.
pub open spec fn home_of(f: StartFacts) -> Seq<char> {
    match f.home {
        Some(h) => h@,
        None => "/"@,
    }
}

/// Where a picker opens: in a directory itself; in the directory that holds a
/// file, with the file selected; else in `~/.ssh`, or in the home directory,
/// or in the root.
pub open spec fn start_of(f: StartFacts) -> (Seq<char>, Option<Seq<char>>) {
    let elsewhere = if f.ssh_dir_exists {
        local_path::joined(home_of(f), ".ssh"@)
    } else {
        home_of(f)
    };
    if f.is_dir {
        (f.path@, None)
    } else if f.is_file && f.parent_is_dir {
        match local_path::parent(f.path@) {
            Some(d) => (d, Some(local_path::name(f.path@))),
            None => (elsewhere, None),
        }
    } else {
        (elsewhere, None)
    }
}

/// Where a picker opens, and the entry to select.
pub fn start_location(f: &StartFacts) -> (r: (String, Option<String>))
    ensures
        (r.0@, r.1.deep_view()) == start_of(*f),
{
    if f.is_dir {
        return (f.path.clone(), None);
    }
    if f.is_file && f.parent_is_dir {
        if let Some(d) = local_path::parent_of(f.path.as_str()) {
            return (d, Some(local_path::name_of(f.path.as_str())));
        }
    }
    let home = match &f.home {
        Some(h) => h.clone(),
        None => text::owned("/"),
    };
    if f.ssh_dir_exists {
        (local_path::join_path(home.as_str(), ".ssh"), None)
    } else {
        (home, None)
    }
}

/// Whether a name comes no later than another, with case left aside.
pub open spec fn name_le(a: EntryModel, b: EntryModel) -> bool {
    sort::text_le(text::lowercase(a.name), text::lowercase(b.name))
}

pub open spec fn by_name() -> spec_fn(EntryModel, EntryModel) -> bool {
    |a: EntryModel, b: EntryModel| name_le(a, b)
}

/// The directories, or the other entries, of a directory.
pub open spec fn of_kind(s: Seq<EntryModel>, is_dir: bool) -> Seq<EntryModel> {
    s.filter(|e: EntryModel| e.is_dir == is_dir)
}

/// The entry that leads up, where a directory is in another one.
pub open spec fn parent_entry(cwd: Seq<char>) -> Seq<EntryModel> {
    if local_path::parent(cwd) is Some {
        seq![EntryModel { name: ".."@, is_dir: true }]
    } else {
        Seq::empty()
    }
}

impl ListingModel {
    /// What a picker shows: `..`, then directories, then files, each by name.
    pub open spec fn shown(self) -> Seq<EntryModel> {
        parent_entry(self.cwd) + sort::sorted(of_kind(self.entries, true), by_name())
            + sort::sorted(of_kind(self.entries, false), by_name())
    }
}

/// The first entry of that name.
pub open spec fn index_of_name(s: Seq<EntryModel>, name: Seq<char>) -> Option<int>
    decreases s.len(),
{
    if s.len() == 0 {
        None
    } else {
        match index_of_name(s.drop_last(), name) {
            Some(i) => Some(i),
            None => if s.last().name == name {
                Some(s.len() - 1)
            } else {
                None
            },
        }
    }
}

impl FilePickerModel {
    pub open spec fn reloaded(l: ListingModel) -> FilePickerModel {
        FilePickerModel { cwd: l.cwd, entries: l.shown(), selected: 0, error: l.error }
    }

    pub open spec fn opened(l: ListingModel, preselect: Option<Seq<char>>) -> FilePickerModel {
        let p = FilePickerModel::reloaded(l);
        match preselect {
            Some(name) => match index_of_name(p.entries, name) {
                Some(i) => FilePickerModel { selected: i, ..p },
                None => p,
            },
            None => p,
        }
    }

    pub open spec fn up(self) -> FilePickerModel {
        FilePickerModel { selected: geometry::less(self.selected, 1), ..self }
    }

    pub open spec fn down(self) -> FilePickerModel {
        if self.selected + 1 < self.entries.len() {
            FilePickerModel { selected: self.selected + 1, ..self }
        } else {
            self
        }
    }

    /// What Enter does: `..` goes up, a directory is opened, a file is picked
    /// by its path.
    pub open spec fn activated(self) -> ActivationModel {
        if 0 <= self.selected < self.entries.len() {
            let e = self.entries[self.selected];
            if e.name == ".."@ {
                match local_path::parent(self.cwd) {
                    Some(d) => ActivationModel::Open(d),
                    None => ActivationModel::Nothing,
                }
            } else if e.is_dir {
                ActivationModel::Open(local_path::joined(self.cwd, e.name))
            } else {
                ActivationModel::Picked(local_path::joined(self.cwd, e.name))
            }
        } else {
            ActivationModel::Nothing
        }
    }

    /// What a key does: Enter activates, Esc closes.
    pub open spec fn on_key(self, key: KeyCode) -> (FilePickerModel, PickerStep) {
        match key {
            KeyCode::Esc => (self, PickerStep::Close),
            KeyCode::Up => (self.up(), PickerStep::Stay),
            KeyCode::Down => (self.down(), PickerStep::Stay),
            KeyCode::Enter => (self, PickerStep::Pick),
            _ => (self, PickerStep::Stay),
        }
    }

    /// What a mouse event does: a click on an entry selects and activates it,
    /// the wheel moves the selection.
    pub open spec fn on_mouse(self, me: MouseEvent, list: Rect) -> (FilePickerModel, PickerStep) {
        match mouse::clicked(me) {
            Some((x, y)) => match self.row_hit(list, x, y) {
                Some(i) => (FilePickerModel { selected: i as int, ..self }, PickerStep::Pick),
                None => (self, PickerStep::Stay),
            },
            None => match mouse::scrolled(me) {
                Some(d) => (if d < 0 {
                    self.up()
                } else {
                    self.down()
                }, PickerStep::Stay),
                None => (self, PickerStep::Stay),
            },
        }
    }

    /// Which entry a click in the list picks.
    pub open spec fn row_hit(self, list: Rect, x: u16, y: u16) -> Option<usize> {
        host_picker::list_hit(list, x, y, self.entries.len() as int, self.selected)
    }
}

/// The area of the picker on a screen.
pub open spec fn picker_area(area: Rect) -> Rect {
    geometry::modal_rect(84, 24, 4, 2, area)
}

/// The rows of the picker: the list and a hint.
pub open spec fn picker_rows() -> Seq<Constraint> {
    seq![Constraint::Min(3), Constraint::Length(1)]
}

/// The entries of one kind, in their order.
fn entries_of_kind(v: &Vec<Entry>, is_dir: bool) -> (r: Vec<Entry>)
    ensures
        r.deep_view() == of_kind(v.deep_view(), is_dir),
{
    let ghost keep = |e: EntryModel| e.is_dir == is_dir;
    let ghost all = v.deep_view();
    let mut r: Vec<Entry> = Vec::new();
    let mut i: usize = 0;
    proof {
        reveal(Seq::filter);
        assert(all.take(0) =~= Seq::empty());
        assert(r.deep_view() =~= Seq::<EntryModel>::empty().filter(keep));
    }
    while i < v.len()
        invariant
            i <= v@.len(),
            all == v.deep_view(),
            keep == (|e: EntryModel| e.is_dir == is_dir),
            r.deep_view() == all.take(i as int).filter(keep),
        decreases v@.len() - i,
    {
        proof {
            reveal(Seq::filter);
            assert(all.take(i + 1).drop_last() =~= all.take(i as int));
            assert(all.take(i + 1).last() == v@[i as int]@);
        }
        if v[i].is_dir == is_dir {
            append_to(&mut r, v[i].copy());
        }
        i = i + 1;
    }
    assert(all.take(all.len() as int) =~= all);
    r
}

/// Entries by name, with case left aside.
fn sort_entries(v: Vec<Entry>) -> (r: Vec<Entry>)
    ensures
        r.deep_view() == sort::sorted(v.deep_view(), by_name()),
{
    let f = |a: &Entry, b: &Entry| -> (t: bool)
        ensures
            t == name_le(a@, b@),
        {
            let x = a.name.as_str().to_lowercase();
            let y = b.name.as_str().to_lowercase();
            sort::in_text_order(x.as_str(), y.as_str())
        };
    sort::sort_by(v, f, Ghost(by_name()))
}

/// Appends every entry of `more`.
fn append_all(r: &mut Vec<Entry>, more: &Vec<Entry>)
    ensures
        final(r).deep_view() == old(r).deep_view() + more.deep_view(),
{
    let ghost start = r.deep_view();
    let ghost all = more.deep_view();
    let mut i: usize = 0;
    assert(start + all.take(0) =~= start);
    while i < more.len()
        invariant
            i <= more@.len(),
            all == more.deep_view(),
            r.deep_view() == start + all.take(i as int),
        decreases more@.len() - i,
    {
        append_to(r, more[i].copy());
        assert((start + all.take(i as int)).push(all[i as int]) =~= start + all.take(i + 1));
        i = i + 1;
    }
    assert(all.take(all.len() as int) =~= all);
}

impl FilePicker {
    /// A picker on a directory that was read, with an entry preselected by name.
    pub fn new(listing: &Listing, preselect: Option<String>) -> (r: FilePicker)
        ensures
            r@ == FilePickerModel::opened(listing@, preselect.deep_view()),
    {
        let mut p = FilePicker { cwd: String::new(), entries: Vec::new(), selected: 0, error: None };
        p.reload(listing);
        if let Some(name) = preselect {
            if let Some(i) = p.position(name.as_str()) {
                p.selected = i;
            }
        }
        p
    }

    /// The first entry of that name.
    fn position(&self, name: &str) -> (r: Option<usize>)
        ensures
            match r {
                Some(i) => index_of_name(self@.entries, name@) == Some(i as int),
                None => index_of_name(self@.entries, name@) is None,
            },
    {
        let ghost all = self.entries.deep_view();
        let mut i: usize = 0;
        assert(all.take(0) =~= Seq::empty());
        while i < self.entries.len()
            invariant
                i <= self.entries@.len(),
                all == self.entries.deep_view(),
                index_of_name(all.take(i as int), name@) is None,
            decreases self.entries@.len() - i,
        {
            proof {
                assert(all.take(i + 1).drop_last() =~= all.take(i as int));
                assert(all.take(i + 1).last() == self.entries@[i as int]@);
            }
            if text::same(self.entries[i].name.as_str(), name) {
                proof {
                    lemma_index_prefix(all, name@, i + 1);
                }
                return Some(i);
            }
            i = i + 1;
        }
        assert(all.take(all.len() as int) =~= all);
        None
    }

    /// Shows a directory that was read: `..`, then directories, then files.
    pub fn reload(&mut self, listing: &Listing)
        ensures
            final(self)@ == FilePickerModel::reloaded(listing@),
    {
        let dirs = sort_entries(entries_of_kind(&listing.entries, true));
        let files = sort_entries(entries_of_kind(&listing.entries, false));
        let mut entries: Vec<Entry> = Vec::new();
        if local_path::parent_of(listing.cwd.as_str()).is_some() {
            append_to(&mut entries, Entry { name: text::owned(".."), is_dir: true });
        }
        assert(entries.deep_view() =~= parent_entry(listing@.cwd));
        append_all(&mut entries, &dirs);
        append_all(&mut entries, &files);
        self.cwd = listing.cwd.clone();
        self.error = listing.error.copy();
        self.entries = entries;
        self.selected = 0;
    }

    pub fn up(&mut self)
        ensures
            final(self)@ == old(self)@.up(),
    {
        if self.selected > 0 {
            self.selected = self.selected - 1;
        }
    }

    pub fn down(&mut self)
        ensures
            final(self)@ == old(self)@.down(),
    {
        let n: usize = self.entries.len();
        if self.selected < n && self.selected + 1 < n {
            self.selected = self.selected + 1;
        }
    }

    /// Enter on the current selection: `..` goes up, a directory is to be
    /// opened, a file is chosen.
    pub fn activate(&self) -> (r: Activation)
        ensures
            r@ == self@.activated(),
    {
        if self.selected < self.entries.len() {
            let e = &self.entries[self.selected];
            assert(self@.entries[self.selected as int] == e@);
            if text::same(e.name.as_str(), "..") {
                match local_path::parent_of(self.cwd.as_str()) {
                    Some(d) => Activation::Open(d),
                    None => Activation::Nothing,
                }
            } else if e.is_dir {
                Activation::Open(local_path::join_path(self.cwd.as_str(), e.name.as_str()))
            } else {
                Activation::Picked(local_path::join_path(self.cwd.as_str(), e.name.as_str()))
            }
        } else {
            Activation::Nothing
        }
    }

    /// The rows of the picker on a screen; the list is row 0.
    pub fn rows(area: Rect) -> (rows: Vec<Rect>)
        ensures
            geometry::stacked(mouse::inner(picker_area(area)), 1, picker_rows(), rows@),
            rows@.len() == 2,
    {
        let inner = mouse::block_inner(modal_area(84, 24, 4, 2, area));
        let cs = vec![Constraint::Min(3), Constraint::Length(1)];
        assert(cs@ =~= picker_rows());
        split_rows(inner, 1, &cs)
    }

    /// Which entry `(x, y)` falls on in a list drawn into `list`.
    pub fn row_in(&self, list: Rect, x: u16, y: u16) -> (r: Option<usize>)
        ensures
            r == self@.row_hit(list, x, y),
    {
        host_picker::list_row_hit(list, x, y, self.entries.len(), self.selected)
    }

    pub fn handle_key(&mut self, key: KeyCode) -> (r: PickerStep)
        ensures
            (final(self)@, r) == old(self)@.on_key(key),
    {
        match key {
            KeyCode::Esc => return PickerStep::Close,
            KeyCode::Up => self.up(),
            KeyCode::Down => self.down(),
            KeyCode::Enter => return PickerStep::Pick,
            _ => {},
        }
        PickerStep::Stay
    }

    pub fn handle_mouse(&mut self, me: &MouseEvent, list: Rect) -> (r: PickerStep)
        ensures
            (final(self)@, r) == old(self)@.on_mouse(*me, list),
    {
        if let Some((x, y)) = mouse::left_click(me) {
            if let Some(i) = self.row_in(list, x, y) {
                self.selected = i;
                return PickerStep::Pick;
            }
        } else if let Some(delta) = mouse::scroll_delta(me) {
            if delta < 0 {
                self.up();
            } else {
                self.down();
            }
        }
        PickerStep::Stay
    }

    /// Which entry row `(x, y)` falls on, if any; `area` is the one the picker is drawn in.
    pub fn row_at(&self, area: Rect, x: u16, y: u16) -> (r: Option<usize>)
        ensures
            exists|rows: Seq<Rect>| #[trigger]
                geometry::stacked(mouse::inner(picker_area(area)), 1, picker_rows(), rows) && r
                    == self@.row_hit(rows[0], x, y),
    {
        let rows = FilePicker::rows(area);
        self.row_in(rows[0], x, y)
    }
}

proof fn lemma_index_prefix(s: Seq<EntryModel>, name: Seq<char>, n: int)
    requires
        0 <= n <= s.len(),
        index_of_name(s.take(n), name) is Some,
    ensures
        index_of_name(s, name) == index_of_name(s.take(n), name),
    decreases s.len() - n,
{
    if n == s.len() {
        assert(s.take(n) =~= s);
    } else {
        assert(s.take(n + 1).drop_last() =~= s.take(n));
        lemma_index_prefix(s, name, n + 1);
    }
}

// -------------------------------------------------------------------- laws

/// No entry of a directory is lost or invented: besides `..`, a picker shows
/// exactly the entries that were read, each as often as it was.
pub proof fn reload_shows_every_entry(l: ListingModel)
    ensures
        l.shown().to_multiset() =~= parent_entry(l.cwd).to_multiset().add(l.entries.to_multiset()),
{
    let up = parent_entry(l.cwd);
    let dirs = sort::sorted(of_kind(l.entries, true), by_name());
    let files = sort::sorted(of_kind(l.entries, false), by_name());
    sort::sorting_permutes(of_kind(l.entries, true), by_name());
    sort::sorting_permutes(of_kind(l.entries, false), by_name());
    vstd::seq_lib::lemma_multiset_commutative(up, dirs);
    vstd::seq_lib::lemma_multiset_commutative(up + dirs, files);
    lemma_kinds(l.entries);
}

proof fn lemma_kinds(s: Seq<EntryModel>)
    ensures
        of_kind(s, true).to_multiset().add(of_kind(s, false).to_multiset()) =~= s.to_multiset(),
    decreases s.len(),
{
    broadcast use vstd::seq_lib::group_to_multiset_ensures;

    reveal(Seq::filter);
    if s.len() > 0 {
        lemma_kinds(s.drop_last());
        assert(s.drop_last().push(s.last()) =~= s);
    }
}

/// The names of one kind are shown in order, with case left aside.
pub proof fn shown_names_ascend(s: Seq<EntryModel>)
    ensures
        sort::ascending(sort::sorted(s, by_name()), by_name()),
{
    assert forall|a: EntryModel, b: EntryModel| #[trigger] by_name()(a, b) || by_name()(b, a) by {
        sort::text_order_is_total(text::lowercase(a.name), text::lowercase(b.name));
    }
    assert forall|a: EntryModel, b: EntryModel, c: EntryModel| #[trigger]
        by_name()(a, b) && #[trigger] by_name()(b, c) implies by_name()(a, c) by {
        sort::text_order_is_transitive(
            text::lowercase(a.name),
            text::lowercase(b.name),
            text::lowercase(c.name),
        );
    }
    sort::sorting_sorts(s, by_name());
}

/// Moving the selection never takes it out of the list.
pub proof fn moving_keeps_selection_in_list(p: FilePickerModel)
    requires
        0 <= p.selected < p.entries.len(),
    ensures
        0 <= p.up().selected < p.entries.len(),
        0 <= p.down().selected < p.entries.len(),
        p.selected > 0 ==> p.up().down() == p,
        p.selected + 1 < p.entries.len() ==> p.down().up() == p,
{
}

// ----------------------------------------------------------------- drawing

impl EntryModel {
    /// How a name is listed: directories end in a slash and stand out.
    pub open spec fn listed(self) -> LineModel {
        if self.is_dir {
            LineModel::of(SpanModel::text((self.name + "/"@), Tone::AccentStrong))
        } else {
            LineModel::of(SpanModel::text(self.name, Tone::Plain))
        }
    }
}

impl Entry {
    /// How a name is listed: directories end in a slash and stand out.
    pub fn listed(&self) -> (r: Line)
        ensures
            r@ == self@.listed(),
    {
        if self.is_dir {
            Line::of(Span::text(cat2(self.name.as_str(), "/").as_str(), Tone::AccentStrong))
        } else {
            Line::of(Span::text(self.name.as_str(), Tone::Plain))
        }
    }
}

pub open spec fn entry_lines(v: Seq<EntryModel>) -> Seq<LineModel>
    decreases v.len(),
{
    if v.len() == 0 {
        Seq::empty()
    } else {
        let e = v.last();
        entry_lines(v.drop_last()).push(
            e.listed()
        )
    }
}

pub fn entry_rows(v: &Vec<Entry>) -> (r: Vec<Line>)
    ensures
        r.deep_view() == entry_lines(v.deep_view()),
{
    let ghost all = v.deep_view();
    let mut r: Vec<Line> = no_lines();
    let mut i: usize = 0;
    assert(all.take(0) =~= Seq::empty());
    while i < v.len()
        invariant
            all == v.deep_view(),
            i <= v@.len(),
            r.deep_view() == entry_lines(all.take(i as int)),
        decreases v@.len() - i,
    {
        let e = &v[i];
        assert(all.take(i + 1).drop_last() =~= all.take(i as int));
        append_to(
            &mut r,
            e.listed()
        );
        i = i + 1;
    }
    assert(all.take(all.len() as int) =~= all);
    r
}

impl FilePickerModel {
    /// Draws the picker into its area and rows.
    pub open spec fn drawn_on(self, p: PictureModel, area: Rect, rows: Seq<Rect>) -> PictureModel {
        let p = p.modal(area, (" Select File — "@ + self.cwd + " "@), Frame::Modal);
        let p = match self.error {
            Some(err) => {
                p.note(rows[0], ("can't read this directory: "@ + err), Tone::Bad)
            },
            None => {
                p.list(rows[0], entry_lines(self.entries), self.selected)
            },
        };
        p.note(rows[1], "\u{2191}\u{2193} navigate  Enter open dir / pick file  Esc cancel"@, Tone::Label)
    }
}

impl FilePicker {
    /// Draws the picker into its area and rows.
    pub fn draw_on(&self, p: &mut Picture, area: Rect, rows: &Vec<Rect>)
        requires
            rows@.len() == 2,
        ensures
            final(p)@ == self@.drawn_on(old(p)@, area, rows@),
    {
        p.modal(area, cat3(" Select File — ", self.cwd.as_str(), " ").as_str(), Frame::Modal);
        match &self.error {
            Some(err) => {
                p.note(rows[0], cat2("can't read this directory: ", err.as_str()).as_str(), Tone::Bad);
            },
            None => {
                p.list(rows[0], entry_rows(&self.entries), self.selected);
            },
        }
        p.note(rows[1], "\u{2191}\u{2193} navigate  Enter open dir / pick file  Esc cancel", Tone::Label);
    }
}

/// Draws a picker on a screen that fills `area`.
pub fn draw(p: &mut Picture, picker: &FilePicker, area: Rect)
    ensures
        exists|rows: Seq<Rect>| #[trigger]
            geometry::stacked(mouse::inner(picker_area(area)), 1, picker_rows(), rows) && final(p)@
                == picker@.drawn_on(old(p)@, picker_area(area), rows),
{
    let rows = FilePicker::rows(area);
    picker.draw_on(p, modal_area(84, 24, 4, 2, area), &rows);
}

/// No key and no mouse event moves the selection off the entries.
pub proof fn the_selection_stays_on_the_list(p: FilePickerModel, key: KeyCode, me: MouseEvent, list: Rect)
    requires
        0 <= p.selected < p.entries.len() <= usize::MAX,
    ensures
        0 <= p.on_key(key).0.selected < p.on_key(key).0.entries.len(),
        0 <= p.on_mouse(me, list).0.selected < p.on_mouse(me, list).0.entries.len(),
{
}

/// `..` goes up, directories are opened, files are picked, each by the path
/// that its name has in the directory shown.
pub proof fn directories_open_and_files_are_picked(p: FilePickerModel)
    requires
        0 <= p.selected < p.entries.len(),
    ensures
        ({
            let e = p.entries[p.selected];
            let path = local_path::joined(p.cwd, e.name);
            &&& e.name == ".."@ && local_path::parent(p.cwd) is Some ==> p.activated() == ActivationModel::Open(
                local_path::parent(p.cwd)->0,
            )
            &&& e.name != ".."@ && e.is_dir ==> p.activated() == ActivationModel::Open(path)
            &&& e.name != ".."@ && !e.is_dir ==> p.activated() == ActivationModel::Picked(path)
        }),
{
}

/// A click activates the entry that is drawn under it: the list shows its
/// entries from the first, or, with the selection further down, ends with the
/// selected one.
pub proof fn a_click_activates_the_entry_under_it(p: FilePickerModel, me: MouseEvent, list: Rect, line: int)
    requires
        0 <= p.selected < p.entries.len() <= usize::MAX,
        0 <= line < list.height,
        mouse::clicked(me) matches Some((x, y)) && list.x < x && x + 1 < list.right() && y == list.y + line,
    ensures
        ({
            let first = if p.selected < list.height {
                0
            } else {
                p.selected - list.height + 1
            };
            let r = p.on_mouse(me, list);
            &&& first + line < p.entries.len() ==> r == (
                FilePickerModel { selected: first + line, ..p },
                PickerStep::Pick,
            )
            &&& first + line >= p.entries.len() ==> r == (p, PickerStep::Stay)
        }),
{
    let (x, y) = mouse::clicked(me)->0;
    mouse::clicks_hit_the_list_row_shown(x, y, list, p.entries.len() as int, p.selected, line);
}

/// For a path that is neither a file nor a directory what would hold it is not
/// opened: the picker falls back on `~/.ssh`, the home directory or the root.
pub proof fn missing_paths_fall_back(f: StartFacts)
    requires
        !f.is_dir,
        !f.is_file,
    ensures
        start_of(f).1 is None,
        f.ssh_dir_exists ==> start_of(f).0 == local_path::joined(home_of(f), ".ssh"@),
        !f.ssh_dir_exists && f.home is Some ==> start_of(f).0 == f.home->0@,
        !f.ssh_dir_exists && f.home is None ==> start_of(f).0 == "/"@,
{
}

/// A file that is there is preselected in the directory it lies in.
pub proof fn a_known_file_is_preselected(l: ListingModel, name: Seq<char>)
    ensures
        index_of_name(l.shown(), name) matches Some(i) ==> {
            let p = FilePickerModel::opened(l, Some(name));
            0 <= p.selected < p.entries.len() && p.entries[p.selected].name == name
        },
{
    lemma_index_of_name(l.shown(), name);
}

proof fn lemma_index_of_name(s: Seq<EntryModel>, name: Seq<char>)
    ensures
        index_of_name(s, name) matches Some(i) ==> 0 <= i < s.len() && s[i].name == name,
    decreases s.len(),
{
    if s.len() > 0 {
        lemma_index_of_name(s.drop_last(), name);
    }
}

} // verus!
