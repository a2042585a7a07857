//! Kernel Tuner: a catalog of tunables browsed by profile and category,
//! changes staged by hand or a whole profile at a time, reviewed, applied to
//! this machine or a remote host, and reverted. Changes last for the session
//! unless they are asked to persist.
use vstd::prelude::*;

use crate::cycle;
use crate::event::{KeyCode, KeyEvent, MouseEvent};
use crate::file_picker::{FilePicker, FilePickerModel, Listing, ListingModel};
use crate::geometry::{split_rows, Constraint, Rect};
use crate::geometry;
use crate::host_picker::{HostPicker, HostPickerModel};
use crate::log::{is_closing, Log, LogModel};
use crate::log;
use crate::model::{append_to, Copyable};
use crate::mouse;
use crate::servers::{Server, ServerModel};
use crate::target::{
    Target, TargetAction, TargetActionModel, TargetLayout, TargetLayoutModel, TargetModel, TargetTab, TargetTabModel,
};
use crate::text;
use crate::widgets::{Input, InputModel};

verus! {

#[derive(Clone, Copy, PartialEq, Eq, Structural, Debug)]
pub enum Tab {
    Target,
    Catalog,
    Review,
    Revert,
}

// ------------------------------------------------------------------- catalog

#[derive(Clone, Copy, PartialEq, Eq, Structural, Debug)]
pub enum Risk {
    Safe,
    Caution,
    Advanced,
}

impl Risk {
    pub open spec fn name(self) -> Seq<char> {
        match self {
            Risk::Safe => "Safe"@,
            Risk::Caution => "Caution"@,
            Risk::Advanced => "Advanced"@,
        }
    }

    pub fn label(self) -> (r: &'static str)
        ensures
            r@ == self.name(),
    {
        match self {
            Risk::Safe => "Safe",
            Risk::Caution => "Caution",
            Risk::Advanced => "Advanced",
        }
    }
}

/// What a profile recommends for a tunable. Profiles are numbered.
pub struct ProfileValue {
    pub profile: usize,
    pub value: String,
    pub note: String,
}

pub struct ProfileValueModel {
    pub profile: int,
    pub value: Seq<char>,
    pub note: Seq<char>,
}

impl View for ProfileValue {
    type V = ProfileValueModel;

    open spec fn view(&self) -> ProfileValueModel {
        ProfileValueModel {
            profile: self.profile as int,
            value: self.value@,
            note: self.note@,
        }
    }
}

impl DeepView for ProfileValue {
    type V = ProfileValueModel;

    open spec fn deep_view(&self) -> ProfileValueModel {
        self@
    }
}

impl Copyable for ProfileValue {
    fn copy(&self) -> (r: Self) {
        ProfileValue {
            profile: self.profile,
            value: self.value.clone(),
            note: self.note.clone(),
        }
    }
}

/// A tunable of the catalog. Categories are numbered.
pub struct Tunable {
    pub key: String,
    pub title: String,
    pub description: String,
    pub why: String,
    pub default_hint: String,
    pub category: usize,
    pub risk: Risk,
    /// Whether it has no form that lasts for the session only.
    pub always_persists: bool,
    pub profiles: Vec<ProfileValue>,
}

pub struct TunableModel {
    pub key: Seq<char>,
    pub title: Seq<char>,
    pub description: Seq<char>,
    pub why: Seq<char>,
    pub default_hint: Seq<char>,
    pub category: int,
    pub risk: Risk,
    pub always_persists: bool,
    pub profiles: Seq<ProfileValueModel>,
}

impl View for Tunable {
    type V = TunableModel;

    open spec fn view(&self) -> TunableModel {
        TunableModel {
            key: self.key@,
            title: self.title@,
            description: self.description@,
            why: self.why@,
            default_hint: self.default_hint@,
            category: self.category as int,
            risk: self.risk,
            always_persists: self.always_persists,
            profiles: self.profiles.deep_view(),
        }
    }
}

impl DeepView for Tunable {
    type V = TunableModel;

    open spec fn deep_view(&self) -> TunableModel {
        self@
    }
}

impl Copyable for Tunable {
    fn copy(&self) -> (r: Self) {
        Tunable {
            key: self.key.clone(),
            title: self.title.clone(),
            description: self.description.clone(),
            why: self.why.clone(),
            default_hint: self.default_hint.clone(),
            category: self.category,
            risk: self.risk,
            always_persists: self.always_persists,
            profiles: self.profiles.copy(),
        }
    }
}

/// The tunables, and the names of the profiles and of the categories.
pub struct Catalog {
    pub tunables: Vec<Tunable>,
    pub profiles: Vec<String>,
    pub categories: Vec<String>,
}

pub struct CatalogModel {
    pub tunables: Seq<TunableModel>,
    pub profiles: Seq<Seq<char>>,
    pub categories: Seq<Seq<char>>,
}

impl View for Catalog {
    type V = CatalogModel;

    open spec fn view(&self) -> CatalogModel {
        CatalogModel {
            tunables: self.tunables.deep_view(),
            profiles: self.profiles.deep_view(),
            categories: self.categories.deep_view(),
        }
    }
}

impl DeepView for Catalog {
    type V = CatalogModel;

    open spec fn deep_view(&self) -> CatalogModel {
        self@
    }
}

/// The value that the first recommendation for a profile gives.
pub open spec fn recommendation(s: Seq<ProfileValueModel>, profile: int) -> Option<Seq<char>>
    decreases s.len(),
{
    if s.len() == 0 {
        None
    } else if s[0].profile == profile {
        Some(s[0].value)
    } else {
        recommendation(s.drop_first(), profile)
    }
}

impl TunableModel {
    pub open spec fn recommended_for(self, profile: int) -> Option<Seq<char>> {
        recommendation(self.profiles, profile)
    }
}

impl Tunable {
    pub fn recommended_for(&self, profile: usize) -> (r: Option<String>)
        ensures
            r.deep_view() == self@.recommended_for(profile as int),
    {
        let ghost s = self.profiles.deep_view();
        let mut i: usize = 0;
        assert(s.skip(0) =~= s);
        while i < self.profiles.len()
            invariant
                i <= self.profiles@.len(),
                s == self.profiles.deep_view(),
                recommendation(s, profile as int) == recommendation(s.skip(i as int), profile as int),
            decreases self.profiles@.len() - i,
        {
            assert(s.skip(i as int)[0] == self.profiles@[i as int]@);
            if self.profiles[i].profile == profile {
                return Some(self.profiles[i].value.clone());
            }
            assert(s.skip(i as int).drop_first() =~= s.skip(i + 1));
            i = i + 1;
        }
        None
    }
}

/// The first tunable of that key.
pub open spec fn by_key(s: Seq<TunableModel>, key: Seq<char>) -> Option<TunableModel>
    decreases s.len(),
{
    if s.len() == 0 {
        None
    } else if s[0].key == key {
        Some(s[0])
    } else {
        by_key(s.drop_first(), key)
    }
}

/// Whether a tunable passes the filters.
pub open spec fn admitted(t: TunableModel, profile: Option<usize>, category: Option<usize>) -> bool {
    &&& match category {
        Some(c) => t.category == c,
        None => true,
    }
    &&& match profile {
        Some(p) => t.recommended_for(p as int) is Some,
        None => true,
    }
}

impl Catalog {
    pub fn find(&self, key: &str) -> (r: Option<&Tunable>)
        ensures
            match r {
                Some(t) => by_key(self@.tunables, key@) == Some(t@),
                None => by_key(self@.tunables, key@) is None,
            },
    {
        let ghost s = self.tunables.deep_view();
        let mut i: usize = 0;
        assert(s.skip(0) =~= s);
        while i < self.tunables.len()
            invariant
                i <= self.tunables@.len(),
                s == self.tunables.deep_view(),
                by_key(s, key@) == by_key(s.skip(i as int), key@),
            decreases self.tunables@.len() - i,
        {
            assert(s.skip(i as int)[0] == self.tunables@[i as int]@);
            if text::same(self.tunables[i].key.as_str(), key) {
                return Some(&self.tunables[i]);
            }
            assert(s.skip(i as int).drop_first() =~= s.skip(i + 1));
            i = i + 1;
        }
        None
    }
}

fn is_admitted(t: &Tunable, profile: Option<usize>, category: Option<usize>) -> (r: bool)
    ensures
        r == admitted(t@, profile, category),
{
    if let Some(c) = category {
        if t.category != c {
            return false;
        }
    }
    match profile {
        Some(p) => t.recommended_for(p).is_some(),
        None => true,
    }
}

// --------------------------------------------------------------- catalog tab

#[derive(Clone, Copy, PartialEq, Eq, Structural, Debug)]
pub enum CatalogField {
    ProfileFilter,
    CategoryFilter,
    Table,
    BtnApplyProfile,
}

impl CatalogField {
    pub open spec fn next(self) -> CatalogField {
        match self {
            CatalogField::ProfileFilter => CatalogField::CategoryFilter,
            CatalogField::CategoryFilter => CatalogField::Table,
            CatalogField::Table => CatalogField::BtnApplyProfile,
            CatalogField::BtnApplyProfile => CatalogField::ProfileFilter,
        }
    }

    pub open spec fn prev(self) -> CatalogField {
        match self {
            CatalogField::ProfileFilter => CatalogField::BtnApplyProfile,
            CatalogField::CategoryFilter => CatalogField::ProfileFilter,
            CatalogField::Table => CatalogField::CategoryFilter,
            CatalogField::BtnApplyProfile => CatalogField::Table,
        }
    }
}

#[derive(Clone, Copy, PartialEq, Eq, Structural, Debug)]
pub enum DetailField {
    Value,
    BtnUseRecommended,
    BtnStage,
    BtnCancel,
}

impl DetailField {
    pub open spec fn next(self) -> DetailField {
        match self {
            DetailField::Value => DetailField::BtnUseRecommended,
            DetailField::BtnUseRecommended => DetailField::BtnStage,
            DetailField::BtnStage => DetailField::BtnCancel,
            DetailField::BtnCancel => DetailField::Value,
        }
    }

    pub open spec fn prev(self) -> DetailField {
        match self {
            DetailField::Value => DetailField::BtnCancel,
            DetailField::BtnUseRecommended => DetailField::Value,
            DetailField::BtnStage => DetailField::BtnUseRecommended,
            DetailField::BtnCancel => DetailField::BtnStage,
        }
    }
}

/// What the screen has to do after a key on the detail modal.
#[derive(Clone, Copy, PartialEq, Eq, Structural, Debug)]
pub enum DetailAction {
    Nothing,
    Close,
    UseRecommended,
    Stage,
}

/// A tunable looked at closely, with a value to stage.
pub struct DetailModal {
    pub key: String,
    pub value: Input,
    pub field: DetailField,
}

pub struct DetailModalModel {
    pub key: Seq<char>,
    pub value: InputModel,
    pub field: DetailField,
}

impl View for DetailModal {
    type V = DetailModalModel;

    open spec fn view(&self) -> DetailModalModel {
        DetailModalModel {
            key: self.key@,
            value: self.value@,
            field: self.field,
        }
    }
}

impl DeepView for DetailModal {
    type V = DetailModalModel;

    open spec fn deep_view(&self) -> DetailModalModel {
        self@
    }
}

pub struct CatalogTab {
    pub profile_filter: Option<usize>,
    pub category_filter: Option<usize>,
    pub selected_row: usize,
    pub field: CatalogField,
    pub detail: Option<DetailModal>,
}

pub struct CatalogTabModel {
    pub profile_filter: Option<usize>,
    pub category_filter: Option<usize>,
    pub selected_row: int,
    pub field: CatalogField,
    pub detail: Option<DetailModalModel>,
}

impl View for CatalogTab {
    type V = CatalogTabModel;

    open spec fn view(&self) -> CatalogTabModel {
        CatalogTabModel {
            profile_filter: self.profile_filter,
            category_filter: self.category_filter,
            selected_row: self.selected_row as int,
            field: self.field,
            detail: self.detail.deep_view(),
        }
    }
}

impl DeepView for CatalogTab {
    type V = CatalogTabModel;

    open spec fn deep_view(&self) -> CatalogTabModel {
        self@
    }
}

impl DetailModalModel {
    /// The modal starts with the staged value, else the current one, else
    /// what the profile recommends.
    pub open spec fn opened(
        t: TunableModel,
        current: Option<Seq<char>>,
        staged: Option<Seq<char>>,
        profile: Option<usize>,
    ) -> DetailModalModel {
        let known = match staged {
            Some(v) => v,
            None => match current {
                Some(v) => v,
                None => Seq::empty(),
            },
        };
        let initial = if known.len() > 0 {
            known
        } else {
            match profile {
                Some(p) => match t.recommended_for(p as int) {
                    Some(v) => v,
                    None => known,
                },
                None => known,
            }
        };
        DetailModalModel { key: t.key, value: InputModel::of(initial), field: DetailField::Value }
    }

    pub open spec fn focus(self, field: DetailField) -> DetailModalModel {
        DetailModalModel { field, ..self }
    }

    pub open spec fn on_key(self, key: KeyCode) -> (DetailModalModel, DetailAction) {
        match key {
            KeyCode::Esc => (self, DetailAction::Close),
            KeyCode::Tab | KeyCode::Down => (self.focus(self.field.next()), DetailAction::Nothing),
            KeyCode::BackTab | KeyCode::Up => (self.focus(self.field.prev()), DetailAction::Nothing),
            KeyCode::Enter => match self.field {
                DetailField::BtnUseRecommended => (self, DetailAction::UseRecommended),
                DetailField::BtnStage => (self, DetailAction::Stage),
                DetailField::BtnCancel => (self, DetailAction::Close),
                DetailField::Value => (self.focus(self.field.next()), DetailAction::Nothing),
            },
            _ => (if self.field == DetailField::Value {
                DetailModalModel { value: self.value.edit(key), ..self }
            } else {
                self
            }, DetailAction::Nothing),
        }
    }
}

impl DetailModal {
    pub fn open(
        t: &Tunable,
        current: &Option<String>,
        staged: &Option<String>,
        profile: Option<usize>,
    ) -> (r: DetailModal)
        ensures
            r@ == DetailModalModel::opened(t@, current.deep_view(), staged.deep_view(), profile),
    {
        let known = match staged {
            Some(v) => v.clone(),
            None => match current {
                Some(v) => v.clone(),
                None => String::new(),
            },
        };
        let mut initial = known;
        if initial.as_str().is_empty() {
            if let Some(p) = profile {
                if let Some(v) = t.recommended_for(p) {
                    initial = v;
                }
            }
        }
        DetailModal { key: t.key.clone(), value: Input::new(initial.as_str()), field: DetailField::Value }
    }

    pub fn next_field(&mut self)
        ensures
            final(self)@ == old(self)@.focus(old(self)@.field.next()),
    {
        self.field = match self.field {
            DetailField::Value => DetailField::BtnUseRecommended,
            DetailField::BtnUseRecommended => DetailField::BtnStage,
            DetailField::BtnStage => DetailField::BtnCancel,
            DetailField::BtnCancel => DetailField::Value,
        };
    }

    pub fn prev_field(&mut self)
        ensures
            final(self)@ == old(self)@.focus(old(self)@.field.prev()),
    {
        self.field = match self.field {
            DetailField::Value => DetailField::BtnCancel,
            DetailField::BtnUseRecommended => DetailField::Value,
            DetailField::BtnStage => DetailField::BtnUseRecommended,
            DetailField::BtnCancel => DetailField::BtnStage,
        };
    }

    pub fn handle_key(&mut self, key: KeyCode) -> (r: DetailAction)
        ensures
            (final(self)@, r) == old(self)@.on_key(key),
    {
        match key {
            KeyCode::Esc => return DetailAction::Close,
            KeyCode::Tab | KeyCode::Down => self.next_field(),
            KeyCode::BackTab | KeyCode::Up => self.prev_field(),
            KeyCode::Enter => match self.field {
                DetailField::BtnUseRecommended => return DetailAction::UseRecommended,
                DetailField::BtnStage => return DetailAction::Stage,
                DetailField::BtnCancel => return DetailAction::Close,
                DetailField::Value => self.next_field(),
            },
            _ => if self.field == DetailField::Value {
                self.value.edit(key);
            },
        }
        DetailAction::Nothing
    }
}

/// The next choice of a filter: none, then each of `n` in turn.
pub open spec fn next_choice(c: Option<usize>, n: int) -> Option<usize> {
    match c {
        None => if n > 0 {
            Some(0)
        } else {
            None
        },
        Some(i) => if i + 1 < n {
            Some((i + 1) as usize)
        } else {
            None
        },
    }
}

/// The previous choice of a filter.
pub open spec fn prev_choice(c: Option<usize>, n: int) -> Option<usize> {
    match c {
        None => if n > 0 {
            Some((n - 1) as usize)
        } else {
            None
        },
        Some(i) => if i > 0 {
            Some((i - 1) as usize)
        } else {
            None
        },
    }
}

pub fn cycle_choice(c: Option<usize>, back: bool, n: usize) -> (r: Option<usize>)
    ensures
        r == if back {
            prev_choice(c, n as int)
        } else {
            next_choice(c, n as int)
        },
{
    match c {
        None => if n == 0 {
            None
        } else if back {
            Some(n - 1)
        } else {
            Some(0)
        },
        Some(i) => if back {
            if i > 0 {
                Some(i - 1)
            } else {
                None
            }
        } else if n > 0 && i < n - 1 {
            Some(i + 1)
        } else {
            None
        },
    }
}

impl CatalogTabModel {
    pub open spec fn empty() -> CatalogTabModel {
        CatalogTabModel {
            profile_filter: None,
            category_filter: None,
            selected_row: 0,
            field: CatalogField::Table,
            detail: None,
        }
    }

    /// The tunables that the table shows.
    pub open spec fn filtered(self, catalog: CatalogModel) -> Seq<TunableModel> {
        catalog.tunables.filter(|t: TunableModel| admitted(t, self.profile_filter, self.category_filter))
    }

    pub open spec fn focus(self, field: CatalogField) -> CatalogTabModel {
        CatalogTabModel { field, ..self }
    }

    pub open spec fn with_detail(self, detail: Option<DetailModalModel>) -> CatalogTabModel {
        CatalogTabModel { detail, ..self }
    }

    /// Another profile; the selection starts over.
    pub open spec fn profile_cycled(self, back: bool, catalog: CatalogModel) -> CatalogTabModel {
        CatalogTabModel {
            profile_filter: if back {
                prev_choice(self.profile_filter, catalog.profiles.len() as int)
            } else {
                next_choice(self.profile_filter, catalog.profiles.len() as int)
            },
            selected_row: 0,
            ..self
        }
    }

    /// Another category; the selection starts over.
    pub open spec fn category_cycled(self, back: bool, catalog: CatalogModel) -> CatalogTabModel {
        CatalogTabModel {
            category_filter: if back {
                prev_choice(self.category_filter, catalog.categories.len() as int)
            } else {
                next_choice(self.category_filter, catalog.categories.len() as int)
            },
            selected_row: 0,
            ..self
        }
    }
}

impl CatalogTab {
    pub fn new() -> (r: CatalogTab)
        ensures
            r@ == CatalogTabModel::empty(),
    {
        CatalogTab {
            profile_filter: None,
            category_filter: None,
            selected_row: 0,
            field: CatalogField::Table,
            detail: None,
        }
    }

    /// The tunables that the table shows.
    pub fn filtered<'a>(&self, catalog: &'a Catalog) -> (r: Vec<&'a Tunable>)
        ensures
            r.deep_view() == self@.filtered(catalog@),
    {
        let ghost keep = |t: TunableModel| admitted(t, self@.profile_filter, self@.category_filter);
        let ghost all = catalog.tunables.deep_view();
        let mut r: Vec<&'a Tunable> = Vec::new();
        let mut i: usize = 0;
        proof {
            reveal(Seq::filter);
            assert(all.take(0) =~= Seq::empty());
            assert(r.deep_view() =~= Seq::<TunableModel>::empty().filter(keep));
        }
        while i < catalog.tunables.len()
            invariant
                i <= catalog.tunables@.len(),
                all == catalog.tunables.deep_view(),
                keep == (|t: TunableModel| admitted(t, self@.profile_filter, self@.category_filter)),
                r.deep_view() == all.take(i as int).filter(keep),
            decreases catalog.tunables@.len() - i,
        {
            proof {
                reveal(Seq::filter);
                assert(all.take(i + 1).drop_last() =~= all.take(i as int));
                assert(all.take(i + 1).last() == catalog.tunables@[i as int]@);
            }
            if is_admitted(&catalog.tunables[i], self.profile_filter, self.category_filter) {
                let ghost before = r.deep_view();
                r.push(&catalog.tunables[i]);
                assert(r.deep_view() =~= before.push(catalog.tunables@[i as int]@));
            }
            i = i + 1;
        }
        assert(all.take(all.len() as int) =~= all);
        r
    }

    pub fn next_field(&mut self)
        ensures
            final(self)@ == old(self)@.focus(old(self)@.field.next()),
    {
        self.field = match self.field {
            CatalogField::ProfileFilter => CatalogField::CategoryFilter,
            CatalogField::CategoryFilter => CatalogField::Table,
            CatalogField::Table => CatalogField::BtnApplyProfile,
            CatalogField::BtnApplyProfile => CatalogField::ProfileFilter,
        };
    }

    pub fn prev_field(&mut self)
        ensures
            final(self)@ == old(self)@.focus(old(self)@.field.prev()),
    {
        self.field = match self.field {
            CatalogField::ProfileFilter => CatalogField::BtnApplyProfile,
            CatalogField::CategoryFilter => CatalogField::ProfileFilter,
            CatalogField::Table => CatalogField::CategoryFilter,
            CatalogField::BtnApplyProfile => CatalogField::Table,
        };
    }

    pub fn cycle_profile(&mut self, back: bool, catalog: &Catalog)
        ensures
            final(self)@ == old(self)@.profile_cycled(back, catalog@),
    {
        self.profile_filter = cycle_choice(self.profile_filter, back, catalog.profiles.len());
        self.selected_row = 0;
    }

    pub fn cycle_category(&mut self, back: bool, catalog: &Catalog)
        ensures
            final(self)@ == old(self)@.category_cycled(back, catalog@),
    {
        self.category_filter = cycle_choice(self.category_filter, back, catalog.categories.len());
        self.selected_row = 0;
    }
}

// -------------------------------------------------------------------- staged

#[derive(Clone, Copy, PartialEq, Eq, Structural, Debug)]
pub enum ReviewField {
    Table,
    BtnPersistAll,
    BtnApplyAll,
    BtnClearAll,
}

impl ReviewField {
    pub open spec fn next(self) -> ReviewField {
        match self {
            ReviewField::Table => ReviewField::BtnPersistAll,
            ReviewField::BtnPersistAll => ReviewField::BtnApplyAll,
            ReviewField::BtnApplyAll => ReviewField::BtnClearAll,
            ReviewField::BtnClearAll => ReviewField::Table,
        }
    }

    pub open spec fn prev(self) -> ReviewField {
        match self {
            ReviewField::Table => ReviewField::BtnClearAll,
            ReviewField::BtnPersistAll => ReviewField::Table,
            ReviewField::BtnApplyAll => ReviewField::BtnPersistAll,
            ReviewField::BtnClearAll => ReviewField::BtnApplyAll,
        }
    }
}

pub struct ReviewTab {
    pub field: ReviewField,
    pub selected_row: usize,
}

pub struct ReviewTabModel {
    pub field: ReviewField,
    pub selected_row: int,
}

impl View for ReviewTab {
    type V = ReviewTabModel;

    open spec fn view(&self) -> ReviewTabModel {
        ReviewTabModel {
            field: self.field,
            selected_row: self.selected_row as int,
        }
    }
}

impl DeepView for ReviewTab {
    type V = ReviewTabModel;

    open spec fn deep_view(&self) -> ReviewTabModel {
        self@
    }
}

/// A change that waits to be applied.
pub struct StagedChange {
    pub key: String,
    pub previous: String,
    pub value: String,
    pub persist: bool,
}

pub struct StagedChangeModel {
    pub key: Seq<char>,
    pub previous: Seq<char>,
    pub value: Seq<char>,
    pub persist: bool,
}

impl View for StagedChange {
    type V = StagedChangeModel;

    open spec fn view(&self) -> StagedChangeModel {
        StagedChangeModel {
            key: self.key@,
            previous: self.previous@,
            value: self.value@,
            persist: self.persist,
        }
    }
}

impl DeepView for StagedChange {
    type V = StagedChangeModel;

    open spec fn deep_view(&self) -> StagedChangeModel {
        self@
    }
}

impl Copyable for StagedChange {
    fn copy(&self) -> (r: Self) {
        StagedChange {
            key: self.key.clone(),
            previous: self.previous.clone(),
            value: self.value.clone(),
            persist: self.persist,
        }
    }
}

/// A change that was applied to a target.
pub struct HistoryEntry {
    pub target: String,
    pub key: String,
    pub title: String,
    pub previous_value: String,
    pub new_value: String,
    pub persisted: bool,
    /// When, in seconds, as text.
    pub when: String,
}

pub struct HistoryEntryModel {
    pub target: Seq<char>,
    pub key: Seq<char>,
    pub title: Seq<char>,
    pub previous_value: Seq<char>,
    pub new_value: Seq<char>,
    pub persisted: bool,
    pub when: Seq<char>,
}

impl View for HistoryEntry {
    type V = HistoryEntryModel;

    open spec fn view(&self) -> HistoryEntryModel {
        HistoryEntryModel {
            target: self.target@,
            key: self.key@,
            title: self.title@,
            previous_value: self.previous_value@,
            new_value: self.new_value@,
            persisted: self.persisted,
            when: self.when@,
        }
    }
}

impl DeepView for HistoryEntry {
    type V = HistoryEntryModel;

    open spec fn deep_view(&self) -> HistoryEntryModel {
        self@
    }
}

impl Copyable for HistoryEntry {
    fn copy(&self) -> (r: Self) {
        HistoryEntry {
            target: self.target.clone(),
            key: self.key.clone(),
            title: self.title.clone(),
            previous_value: self.previous_value.clone(),
            new_value: self.new_value.clone(),
            persisted: self.persisted,
            when: self.when.clone(),
        }
    }
}

/// The first change of that key.
pub open spec fn staged_of(s: Seq<StagedChangeModel>, key: Seq<char>) -> Option<StagedChangeModel>
    decreases s.len(),
{
    if s.len() == 0 {
        None
    } else if s[0].key == key {
        Some(s[0])
    } else {
        staged_of(s.drop_first(), key)
    }
}

/// The changes but for those of a key.
pub open spec fn without_key(s: Seq<StagedChangeModel>, key: Seq<char>) -> Seq<StagedChangeModel> {
    s.filter(|c: StagedChangeModel| c.key != key)
}

/// The changes with one more. It takes the place of an earlier change of its
/// key and keeps whether that one was to persist.
pub open spec fn staged_with(
    s: Seq<StagedChangeModel>,
    key: Seq<char>,
    previous: Seq<char>,
    value: Seq<char>,
) -> Seq<StagedChangeModel> {
    without_key(s, key).push(
        StagedChangeModel {
            key,
            previous,
            value,
            persist: match staged_of(s, key) {
                Some(c) => c.persist,
                None => false,
            },
        },
    )
}

/// The value of a key.
pub open spec fn value_of(s: Seq<(Seq<char>, Seq<char>)>, key: Seq<char>) -> Option<Seq<char>>
    decreases s.len(),
{
    if s.len() == 0 {
        None
    } else if s[0].0 == key {
        Some(s[0].1)
    } else {
        value_of(s.drop_first(), key)
    }
}

/// The value of a key, empty where it has none.
pub open spec fn value_or_empty(s: Seq<(Seq<char>, Seq<char>)>, key: Seq<char>) -> Seq<char> {
    match value_of(s, key) {
        Some(v) => v,
        None => Seq::empty(),
    }
}

/// The values with another one for a key.
pub open spec fn with_value(
    s: Seq<(Seq<char>, Seq<char>)>,
    key: Seq<char>,
    value: Seq<char>,
) -> Seq<(Seq<char>, Seq<char>)>
    decreases s.len(),
{
    if s.len() == 0 {
        seq![(key, value)]
    } else if s[0].0 == key {
        s.update(0, (key, value))
    } else {
        seq![s[0]] + with_value(s.drop_first(), key, value)
    }
}

pub fn find_staged(v: &Vec<StagedChange>, key: &str) -> (r: Option<StagedChange>)
    ensures
        r.deep_view() == staged_of(v.deep_view(), key@),
{
    let ghost s = v.deep_view();
    let mut i: usize = 0;
    assert(s.skip(0) =~= s);
    while i < v.len()
        invariant
            i <= v@.len(),
            s == v.deep_view(),
            staged_of(s, key@) == staged_of(s.skip(i as int), key@),
        decreases v@.len() - i,
    {
        assert(s.skip(i as int)[0] == v@[i as int]@);
        if text::same(v[i].key.as_str(), key) {
            return Some(v[i].copy());
        }
        assert(s.skip(i as int).drop_first() =~= s.skip(i + 1));
        i = i + 1;
    }
    None
}

fn drop_key(v: &Vec<StagedChange>, key: &str) -> (r: Vec<StagedChange>)
    ensures
        r.deep_view() == without_key(v.deep_view(), key@),
{
    let ghost keep = |c: StagedChangeModel| c.key != key@;
    let ghost all = v.deep_view();
    let mut r: Vec<StagedChange> = Vec::new();
    let mut i: usize = 0;
    proof {
        reveal(Seq::filter);
        assert(all.take(0) =~= Seq::empty());
        assert(r.deep_view() =~= Seq::<StagedChangeModel>::empty().filter(keep));
    }
    while i < v.len()
        invariant
            i <= v@.len(),
            all == v.deep_view(),
            keep == (|c: StagedChangeModel| c.key != key@),
            r.deep_view() == all.take(i as int).filter(keep),
        decreases v@.len() - i,
    {
        proof {
            reveal(Seq::filter);
            assert(all.take(i + 1).drop_last() =~= all.take(i as int));
            assert(all.take(i + 1).last() == v@[i as int]@);
        }
        if !text::same(v[i].key.as_str(), key) {
            append_to(&mut r, v[i].copy());
        }
        i = i + 1;
    }
    assert(all.take(all.len() as int) =~= all);
    r
}

fn stage(v: &Vec<StagedChange>, key: &str, previous: String, value: String) -> (r: Vec<StagedChange>)
    ensures
        r.deep_view() == staged_with(v.deep_view(), key@, previous@, value@),
{
    let persist = match find_staged(v, key) {
        Some(c) => c.persist,
        None => false,
    };
    let mut r = drop_key(v, key);
    append_to(&mut r, StagedChange { key: text::owned(key), previous, value, persist });
    r
}

pub fn find_value(v: &Vec<(String, String)>, key: &str) -> (r: Option<String>)
    ensures
        r.deep_view() == value_of(v.deep_view(), key@),
{
    let ghost s = v.deep_view();
    let mut i: usize = 0;
    assert(s.skip(0) =~= s);
    while i < v.len()
        invariant
            i <= v@.len(),
            s == v.deep_view(),
            value_of(s, key@) == value_of(s.skip(i as int), key@),
        decreases v@.len() - i,
    {
        assert(s.skip(i as int)[0] == (v@[i as int].0@, v@[i as int].1@));
        if text::same(v[i].0.as_str(), key) {
            return Some(v[i].1.clone());
        }
        assert(s.skip(i as int).drop_first() =~= s.skip(i + 1));
        i = i + 1;
    }
    None
}

fn find_or_empty(v: &Vec<(String, String)>, key: &str) -> (r: String)
    ensures
        r@ == value_or_empty(v.deep_view(), key@),
{
    match find_value(v, key) {
        Some(x) => x,
        None => String::new(),
    }
}

proof fn lemma_with_value(s: Seq<(Seq<char>, Seq<char>)>, key: Seq<char>, value: Seq<char>, i: int)
    requires
        0 <= i <= s.len(),
        forall|k: int| 0 <= k < i ==> (#[trigger] s[k]).0 != key,
    ensures
        with_value(s, key, value) == s.take(i) + with_value(s.skip(i), key, value),
    decreases i,
{
    if i == 0 {
        assert(s.skip(0) =~= s);
        assert(s.take(0) + with_value(s, key, value) =~= with_value(s, key, value));
    } else {
        let t = s.drop_first();
        assert(s[0].0 != key);
        assert forall|k: int| 0 <= k < i - 1 implies (#[trigger] t[k]).0 != key by {
            assert(t[k] == s[k + 1]);
        }
        lemma_with_value(t, key, value, i - 1);
        assert(t.skip(i - 1) =~= s.skip(i));
        assert(seq![s[0]] + t.take(i - 1) =~= s.take(i));
        assert(seq![s[0]] + (t.take(i - 1) + with_value(s.skip(i), key, value)) =~= s.take(i) + with_value(
            s.skip(i),
            key,
            value,
        ));
    }
}

fn set_value(v: &mut Vec<(String, String)>, key: &str, value: String)
    ensures
        final(v).deep_view() == with_value(old(v).deep_view(), key@, value@),
{
    let ghost s = v.deep_view();
    let mut i: usize = 0;
    while i < v.len()
        invariant
            i <= v@.len(),
            s == v.deep_view(),
            s == old(v).deep_view(),
            forall|k: int| 0 <= k < i ==> (#[trigger] s[k]).0 != key@,
        decreases v@.len() - i,
    {
        assert(s[i as int] == (v@[i as int].0@, v@[i as int].1@));
        if text::same(v[i].0.as_str(), key) {
            proof {
                lemma_with_value(s, key@, value@, i as int);
                assert(s.skip(i as int)[0] == s[i as int]);
            }
            v.set(i, (text::owned(key), value));
            assert(v.deep_view() =~= s.take(i as int) + s.skip(i as int).update(0, (key@, value@)));
            return;
        }
        i = i + 1;
    }
    proof {
        lemma_with_value(s, key@, value@, s.len() as int);
        assert(s.skip(s.len() as int) =~= Seq::empty());
        assert(s.take(s.len() as int) =~= s);
    }
    append_to(v, (text::owned(key), value));
    assert(v.deep_view() =~= s + seq![(key@, value@)]);
}

// -------------------------------------------------------------------- texts

/// The size of a memory: unknown, whole megabytes below a gigabyte, or
/// kilobytes of more than that.
#[derive(Clone, Copy, PartialEq, Eq, Structural, Debug)]
pub enum MemSize {
    Unknown,
    Megabytes(u64),
    Gigabytes(u64),
}

/// The size that a count of kilobytes means.
pub open spec fn mem_of(kb: Seq<char>) -> MemSize {
    match text::at_most(text::unsigned_value(text::trimmed(kb)), u64::MAX as nat) {
        Some(n) => if n >= 1048576 {
            MemSize::Gigabytes(n as u64)
        } else {
            MemSize::Megabytes((n / 1024) as u64)
        },
        None => MemSize::Unknown,
    }
}

pub fn mem_size(kb: &str) -> (r: MemSize)
    ensures
        r == mem_of(kb@),
{
    match text::parse_u64(text::trim(kb).as_str()) {
        Some(n) => if n >= 1048576 {
            MemSize::Gigabytes(n)
        } else {
            MemSize::Megabytes(n / 1024)
        },
        None => MemSize::Unknown,
    }
}

/// How long ago a time in seconds was, in its largest unit; the text itself
/// where it is no time.
pub open spec fn ago(epoch_secs: Seq<char>, now: u64) -> Seq<char> {
    match text::at_most(text::unsigned_value(text::trimmed(epoch_secs)), u64::MAX as nat) {
        Some(then) => {
            let diff = geometry::less(now as int, then as int) as nat;
            if diff < 60 {
                text::decimal(diff) + "s ago"@
            } else if diff < 3600 {
                text::decimal(diff / 60) + "m ago"@
            } else if diff < 86400 {
                text::decimal(diff / 3600) + "h ago"@
            } else {
                text::decimal(diff / 86400) + "d ago"@
            }
        },
        None => epoch_secs,
    }
}

pub fn relative_time(epoch_secs: &str, now: u64) -> (r: String)
    ensures
        r@ == ago(epoch_secs@, now),
{
    match text::parse_u64(text::trim(epoch_secs).as_str()) {
        Some(past) => {
            let diff: u64 = now.saturating_sub(past);
            if diff < 60 {
                text::cat2(text::number(diff).as_str(), "s ago")
            } else if diff < 3600 {
                text::cat2(text::number(diff / 60).as_str(), "m ago")
            } else if diff < 86400 {
                text::cat2(text::number(diff / 3600).as_str(), "h ago")
            } else {
                text::cat2(text::number(diff / 86400).as_str(), "d ago")
            }
        },
        None => text::owned(epoch_secs),
    }
}

// -------------------------------------------------------------------- screen

/// A change as it is applied: `persist` as it was asked for, `recorded` as
/// it takes effect.
pub struct ApplyItem {
    pub key: String,
    pub previous: String,
    pub value: String,
    pub persist: bool,
    pub recorded: bool,
}

pub struct ApplyItemModel {
    pub key: Seq<char>,
    pub previous: Seq<char>,
    pub value: Seq<char>,
    pub persist: bool,
    pub recorded: bool,
}

impl View for ApplyItem {
    type V = ApplyItemModel;

    open spec fn view(&self) -> ApplyItemModel {
        ApplyItemModel {
            key: self.key@,
            previous: self.previous@,
            value: self.value@,
            persist: self.persist,
            recorded: self.recorded,
        }
    }
}

impl DeepView for ApplyItem {
    type V = ApplyItemModel;

    open spec fn deep_view(&self) -> ApplyItemModel {
        self@
    }
}

impl Copyable for ApplyItem {
    fn copy(&self) -> (r: Self) {
        ApplyItem {
            key: self.key.clone(),
            previous: self.previous.clone(),
            value: self.value.clone(),
            persist: self.persist,
            recorded: self.recorded,
        }
    }
}

/// What is known of a target.
pub struct TargetInfo {
    pub os_pretty: String,
    pub kernel: String,
    pub arch: String,
    pub cpus: String,
    pub mem_total_kb: String,
}

pub struct TargetInfoModel {
    pub os_pretty: Seq<char>,
    pub kernel: Seq<char>,
    pub arch: Seq<char>,
    pub cpus: Seq<char>,
    pub mem_total_kb: Seq<char>,
}

impl View for TargetInfo {
    type V = TargetInfoModel;

    open spec fn view(&self) -> TargetInfoModel {
        TargetInfoModel {
            os_pretty: self.os_pretty@,
            kernel: self.kernel@,
            arch: self.arch@,
            cpus: self.cpus@,
            mem_total_kb: self.mem_total_kb@,
        }
    }
}

impl DeepView for TargetInfo {
    type V = TargetInfoModel;

    open spec fn deep_view(&self) -> TargetInfoModel {
        self@
    }
}

impl Copyable for TargetInfo {
    fn copy(&self) -> (r: Self) {
        TargetInfo {
            os_pretty: self.os_pretty.clone(),
            kernel: self.kernel.clone(),
            arch: self.arch.clone(),
            cpus: self.cpus.clone(),
            mem_total_kb: self.mem_total_kb.clone(),
        }
    }
}

/// The question whether to apply risky changes.
pub struct ConfirmModal {
    pub lines: Vec<String>,
}

pub struct ConfirmModalModel {
    pub lines: Seq<Seq<char>>,
}

impl View for ConfirmModal {
    type V = ConfirmModalModel;

    open spec fn view(&self) -> ConfirmModalModel {
        ConfirmModalModel {
            lines: self.lines.deep_view(),
        }
    }
}

impl DeepView for ConfirmModal {
    type V = ConfirmModalModel;

    open spec fn deep_view(&self) -> ConfirmModalModel {
        self@
    }
}

pub struct RevertTab {
    pub selected_row: usize,
}

pub struct RevertTabModel {
    pub selected_row: int,
}

impl View for RevertTab {
    type V = RevertTabModel;

    open spec fn view(&self) -> RevertTabModel {
        RevertTabModel {
            selected_row: self.selected_row as int,
        }
    }
}

impl DeepView for RevertTab {
    type V = RevertTabModel;

    open spec fn deep_view(&self) -> RevertTabModel {
        self@
    }
}

/// Work that the screen hands out.
pub enum Request {
    Connect(Target),
    Apply { target: Target, items: Vec<ApplyItem> },
    RevertOne { target: Target, label: String, entry: HistoryEntry },
    RevertAll { target: Target, label: String, entries: Vec<HistoryEntry> },
    /// Keep that a change was applied.
    Record { label: String, key: String, title: String, previous: String, value: String, persisted: bool },
    /// Forget a change that was reverted.
    Forget { label: String, key: String },
    ListHosts,
    BrowseKey(String),
    ReadDir(String),
    CopyHistory,
}

pub enum RequestModel {
    Connect(TargetModel),
    Apply { target: TargetModel, items: Seq<ApplyItemModel> },
    RevertOne { target: TargetModel, label: Seq<char>, entry: HistoryEntryModel },
    RevertAll { target: TargetModel, label: Seq<char>, entries: Seq<HistoryEntryModel> },
    Record { label: Seq<char>, key: Seq<char>, title: Seq<char>, previous: Seq<char>, value: Seq<char>, persisted: bool },
    Forget { label: Seq<char>, key: Seq<char> },
    ListHosts,
    BrowseKey(Seq<char>),
    ReadDir(Seq<char>),
    CopyHistory,
}

impl View for Request {
    type V = RequestModel;

    open spec fn view(&self) -> RequestModel {
        match self {
            Request::Connect(a) => RequestModel::Connect(a@),
            Request::Apply { target, items } => RequestModel::Apply { target: target@, items: items.deep_view() },
            Request::RevertOne { target, label, entry } => RequestModel::RevertOne { target: target@, label: label@, entry: entry@ },
            Request::RevertAll { target, label, entries } => RequestModel::RevertAll { target: target@, label: label@, entries: entries.deep_view() },
            Request::Record { label, key, title, previous, value, persisted } => RequestModel::Record { label: label@, key: key@, title: title@, previous: previous@, value: value@, persisted: *persisted },
            Request::Forget { label, key } => RequestModel::Forget { label: label@, key: key@ },
            Request::ListHosts => RequestModel::ListHosts,
            Request::BrowseKey(a) => RequestModel::BrowseKey(a@),
            Request::ReadDir(a) => RequestModel::ReadDir(a@),
            Request::CopyHistory => RequestModel::CopyHistory,
        }
    }
}

impl DeepView for Request {
    type V = RequestModel;

    open spec fn deep_view(&self) -> RequestModel {
        self@
    }
}

/// What came of the work.
pub enum Msg {
    Connected { label: String, info: TargetInfo, values: Vec<(String, String)> },
    ConnectFailed(String),
    /// No session to apply or revert changes in.
    SessionFailed(String),
    Applied { item: ApplyItem, message: String },
    ApplyFailed { key: String, message: String },
    ApplyDone,
    Reverted { key: String, label: String, previous: String },
    RevertFailed { key: String, message: String },
    RevertDone,
    /// The changes that are kept.
    Entries(Vec<HistoryEntry>),
    Hosts(Vec<Server>),
    HostsFailed(String),
    KeyDir { listing: Listing, preselect: Option<String> },
    DirRead(Listing),
    HistoryCopied(bool),
}

pub enum MsgModel {
    Connected { label: Seq<char>, info: TargetInfoModel, values: Seq<(Seq<char>, Seq<char>)> },
    ConnectFailed(Seq<char>),
    SessionFailed(Seq<char>),
    Applied { item: ApplyItemModel, message: Seq<char> },
    ApplyFailed { key: Seq<char>, message: Seq<char> },
    ApplyDone,
    Reverted { key: Seq<char>, label: Seq<char>, previous: Seq<char> },
    RevertFailed { key: Seq<char>, message: Seq<char> },
    RevertDone,
    Entries(Seq<HistoryEntryModel>),
    Hosts(Seq<ServerModel>),
    HostsFailed(Seq<char>),
    KeyDir { listing: ListingModel, preselect: Option<Seq<char>> },
    DirRead(ListingModel),
    HistoryCopied(bool),
}

impl View for Msg {
    type V = MsgModel;

    open spec fn view(&self) -> MsgModel {
        match self {
            Msg::Connected { label, info, values } => MsgModel::Connected { label: label@, info: info@, values: values.deep_view() },
            Msg::ConnectFailed(a) => MsgModel::ConnectFailed(a@),
            Msg::SessionFailed(a) => MsgModel::SessionFailed(a@),
            Msg::Applied { item, message } => MsgModel::Applied { item: item@, message: message@ },
            Msg::ApplyFailed { key, message } => MsgModel::ApplyFailed { key: key@, message: message@ },
            Msg::ApplyDone => MsgModel::ApplyDone,
            Msg::Reverted { key, label, previous } => MsgModel::Reverted { key: key@, label: label@, previous: previous@ },
            Msg::RevertFailed { key, message } => MsgModel::RevertFailed { key: key@, message: message@ },
            Msg::RevertDone => MsgModel::RevertDone,
            Msg::Entries(a) => MsgModel::Entries(a.deep_view()),
            Msg::Hosts(a) => MsgModel::Hosts(a.deep_view()),
            Msg::HostsFailed(a) => MsgModel::HostsFailed(a@),
            Msg::KeyDir { listing, preselect } => MsgModel::KeyDir { listing: listing@, preselect: preselect.deep_view() },
            Msg::DirRead(a) => MsgModel::DirRead(a@),
            Msg::HistoryCopied(a) => MsgModel::HistoryCopied(*a),
        }
    }
}

impl DeepView for Msg {
    type V = MsgModel;

    open spec fn deep_view(&self) -> MsgModel {
        self@
    }
}

pub struct KernelTuneScreen {
    pub tab: Tab,
    pub target_tab: TargetTab,
    pub catalog: Catalog,
    pub catalog_tab: CatalogTab,
    pub review_tab: ReviewTab,
    pub revert_tab: RevertTab,
    pub confirm_apply: Option<ConfirmModal>,
    /// The target that is connected, empty where none is.
    pub target_label: String,
    pub target_info: Option<TargetInfo>,
    pub current_values: Vec<(String, String)>,
    pub staged: Vec<StagedChange>,
    pub history_entries: Vec<HistoryEntry>,
    pub log: Log,
    /// Work that waits to be handed out, oldest first.
    pub requests: Vec<Request>,
}

pub struct KernelTuneScreenModel {
    pub tab: Tab,
    pub target_tab: TargetTabModel,
    pub catalog: CatalogModel,
    pub catalog_tab: CatalogTabModel,
    pub review_tab: ReviewTabModel,
    pub revert_tab: RevertTabModel,
    pub confirm_apply: Option<ConfirmModalModel>,
    pub target_label: Seq<char>,
    pub target_info: Option<TargetInfoModel>,
    pub current_values: Seq<(Seq<char>, Seq<char>)>,
    pub staged: Seq<StagedChangeModel>,
    pub history_entries: Seq<HistoryEntryModel>,
    pub log: LogModel,
    pub requests: Seq<RequestModel>,
}

impl View for KernelTuneScreen {
    type V = KernelTuneScreenModel;

    open spec fn view(&self) -> KernelTuneScreenModel {
        KernelTuneScreenModel {
            tab: self.tab,
            target_tab: self.target_tab@,
            catalog: self.catalog@,
            catalog_tab: self.catalog_tab@,
            review_tab: self.review_tab@,
            revert_tab: self.revert_tab@,
            confirm_apply: self.confirm_apply.deep_view(),
            target_label: self.target_label@,
            target_info: self.target_info.deep_view(),
            current_values: self.current_values.deep_view(),
            staged: self.staged.deep_view(),
            history_entries: self.history_entries.deep_view(),
            log: self.log@,
            requests: self.requests.deep_view(),
        }
    }
}

impl DeepView for KernelTuneScreen {
    type V = KernelTuneScreenModel;

    open spec fn deep_view(&self) -> KernelTuneScreenModel {
        self@
    }
}

/// The rectangles that the screen is drawn into.
pub struct KernelTuneLayout {
    pub screen: Vec<Rect>,
    pub target: TargetLayout,
    pub catalog: Vec<Rect>,
    pub filters: Vec<Rect>,
    pub review: Vec<Rect>,
}

pub struct KernelTuneLayoutModel {
    pub screen: Seq<Rect>,
    pub target: TargetLayoutModel,
    pub catalog: Seq<Rect>,
    pub filters: Seq<Rect>,
    pub review: Seq<Rect>,
}

impl View for KernelTuneLayout {
    type V = KernelTuneLayoutModel;

    open spec fn view(&self) -> KernelTuneLayoutModel {
        KernelTuneLayoutModel {
            screen: self.screen@,
            target: self.target@,
            catalog: self.catalog@,
            filters: self.filters@,
            review: self.review@,
        }
    }
}

impl DeepView for KernelTuneLayout {
    type V = KernelTuneLayoutModel;

    open spec fn deep_view(&self) -> KernelTuneLayoutModel {
        self@
    }
}

pub open spec fn tab_labels() -> Seq<Seq<char>> {
    seq!["F1 Target"@, "F2 Catalog"@, "F3 Review"@, "F4 Revert"@]
}

pub open spec fn screen_rows() -> Seq<Constraint> {
    seq![Constraint::Length(1), Constraint::Min(0)]
}

pub open spec fn catalog_rows() -> Seq<Constraint> {
    seq![Constraint::Length(5), Constraint::Min(6), Constraint::Length(8)]
}

pub open spec fn filter_rows() -> Seq<Constraint> {
    seq![Constraint::Length(1), Constraint::Length(1), Constraint::Length(1)]
}

pub open spec fn review_rows() -> Seq<Constraint> {
    seq![Constraint::Min(6), Constraint::Length(3), Constraint::Length(8)]
}

pub open spec fn review_buttons() -> Seq<Seq<char>> {
    seq!["Toggle Persist All"@, "Apply All"@, "Clear All"@]
}

impl KernelTuneLayoutModel {
    /// Whether the rectangles are those of a screen on `area`.
    pub open spec fn of(self, area: Rect, is_remote: bool) -> bool {
        &&& geometry::stacked(area, 0, screen_rows(), self.screen)
        &&& self.target.of(self.screen[1], is_remote)
        &&& geometry::stacked(self.screen[1], 0, catalog_rows(), self.catalog)
        &&& geometry::stacked(mouse::inner(self.catalog[0]), 0, filter_rows(), self.filters)
        &&& geometry::stacked(self.screen[1], 0, review_rows(), self.review)
    }

    pub open spec fn complete_tabs(self) -> bool {
        &&& self.catalog.len() == 3
        &&& self.filters.len() == 3
        &&& self.review.len() == 3
    }

    pub open spec fn complete(self, is_remote: bool) -> bool {
        &&& self.screen.len() == 2
        &&& self.target.complete(is_remote)
        &&& self.complete_tabs()
    }
}

impl MsgModel {
    /// The line that a message leaves in the history, where it leaves one.
    pub open spec fn line(self) -> Option<(bool, Seq<char>)> {
        match self {
            MsgModel::Connected { label, info: _, values: _ } => Some((true, "Connected to "@ + label)),
            MsgModel::ConnectFailed(e) => Some((false, "Connect failed: "@ + text::single_line(e))),
            MsgModel::SessionFailed(e) => Some((false, "Connect failed: "@ + text::single_line(e))),
            MsgModel::Applied { item, message } => Some(
                (
                    true,
                    item.key + ": "@ + item.previous + " -> "@ + item.value + (if item.recorded {
                        " [persisted]"@
                    } else {
                        " [this session only]"@
                    }) + " ("@ + message + ")"@,
                ),
            ),
            MsgModel::ApplyFailed { key, message } => Some((false, key + ": "@ + text::single_line(message))),
            MsgModel::ApplyDone => Some((true, "Apply finished"@)),
            MsgModel::Reverted { key, label: _, previous: _ } => Some((true, "Reverted "@ + key)),
            MsgModel::RevertFailed { key, message } => Some(
                (false, "Revert "@ + key + " failed: "@ + text::single_line(message)),
            ),
            MsgModel::RevertDone => Some((true, "Revert finished"@)),
            _ => None,
        }
    }
}

impl Msg {
    /// The line that a message leaves in the history, where it leaves one.
    pub fn line(&self) -> (r: Option<(bool, String)>)
        ensures
            r.deep_view() == self@.line(),
    {
        match self {
            Msg::Connected { label, info: _, values: _ } => Some(
                (true, text::cat2("Connected to ", label.as_str())),
            ),
            Msg::ConnectFailed(e) => Some(
                (false, text::cat2("Connect failed: ", text::one_line(e.as_str()).as_str())),
            ),
            Msg::SessionFailed(e) => Some(
                (false, text::cat2("Connect failed: ", text::one_line(e.as_str()).as_str())),
            ),
            Msg::Applied { item, message } => {
                let front = text::cat5(
                    item.key.as_str(),
                    ": ",
                    item.previous.as_str(),
                    " -> ",
                    item.value.as_str(),
                );
                let suffix = if item.recorded {
                    " [persisted]"
                } else {
                    " [this session only]"
                };
                Some((true, text::cat5(front.as_str(), suffix, " (", message.as_str(), ")")))
            },
            Msg::ApplyFailed { key, message } => Some(
                (false, text::cat3(key.as_str(), ": ", text::one_line(message.as_str()).as_str())),
            ),
            Msg::ApplyDone => Some((true, text::owned("Apply finished"))),
            Msg::Reverted { key, label: _, previous: _ } => Some((true, text::cat2("Reverted ", key.as_str()))),
            Msg::RevertFailed { key, message } => Some(
                (
                    false,
                    text::cat4("Revert ", key.as_str(), " failed: ", text::one_line(message.as_str()).as_str()),
                ),
            ),
            Msg::RevertDone => Some((true, text::owned("Revert finished"))),
            _ => None,
        }
    }
}

/// What is staged after every recommendation of a profile is staged, in the
/// order of the catalog.
pub open spec fn profile_staged(
    tunables: Seq<TunableModel>,
    staged: Seq<StagedChangeModel>,
    values: Seq<(Seq<char>, Seq<char>)>,
    p: int,
) -> Seq<StagedChangeModel>
    decreases tunables.len(),
{
    if tunables.len() == 0 {
        staged
    } else {
        let front = profile_staged(tunables.drop_last(), staged, values, p);
        let t = tunables.last();
        match t.recommended_for(p) {
            Some(v) => staged_with(front, t.key, value_or_empty(values, t.key), v),
            None => front,
        }
    }
}

/// How many tunables a profile has a recommendation for.
pub open spec fn recommendations(tunables: Seq<TunableModel>, p: int) -> nat
    decreases tunables.len(),
{
    if tunables.len() == 0 {
        0
    } else {
        recommendations(tunables.drop_last(), p) + if tunables.last().recommended_for(p) is Some {
            1nat
        } else {
            0nat
        }
    }
}

/// The staged changes that are not safe, as they are asked about.
pub open spec fn risky(staged: Seq<StagedChangeModel>, tunables: Seq<TunableModel>) -> Seq<Seq<char>>
    decreases staged.len(),
{
    if staged.len() == 0 {
        Seq::empty()
    } else {
        let front = risky(staged.drop_last(), tunables);
        match by_key(tunables, staged.last().key) {
            Some(t) => if t.risk == Risk::Safe {
                front
            } else {
                front.push(t.title + " — "@ + t.risk.name())
            },
            None => front,
        }
    }
}

/// The staged changes as they are applied: those of known tunables.
pub open spec fn to_apply(staged: Seq<StagedChangeModel>, tunables: Seq<TunableModel>) -> Seq<ApplyItemModel>
    decreases staged.len(),
{
    if staged.len() == 0 {
        Seq::empty()
    } else {
        let front = to_apply(staged.drop_last(), tunables);
        let c = staged.last();
        match by_key(tunables, c.key) {
            Some(t) => front.push(
                ApplyItemModel {
                    key: t.key,
                    previous: c.previous,
                    value: c.value,
                    persist: c.persist,
                    recorded: c.persist || t.always_persists,
                },
            ),
            None => front,
        }
    }
}

/// The changes that were applied to a target.
pub open spec fn entries_of(s: Seq<HistoryEntryModel>, label: Seq<char>) -> Seq<HistoryEntryModel> {
    s.filter(|e: HistoryEntryModel| e.target == label)
}

/// The first change of a key that was applied to a target.
pub open spec fn entry_of(s: Seq<HistoryEntryModel>, label: Seq<char>, key: Seq<char>) -> Option<HistoryEntryModel>
    decreases s.len(),
{
    if s.len() == 0 {
        None
    } else if s[0].target == label && s[0].key == key {
        Some(s[0])
    } else {
        entry_of(s.drop_first(), label, key)
    }
}

/// The changes of known tunables.
pub open spec fn known_entries(s: Seq<HistoryEntryModel>, tunables: Seq<TunableModel>) -> Seq<HistoryEntryModel> {
    s.filter(|e: HistoryEntryModel| by_key(tunables, e.key) is Some)
}

/// Whether something is staged and all of it is to persist.
pub open spec fn all_persist(s: Seq<StagedChangeModel>) -> bool {
    s.len() > 0 && forall|i: int| 0 <= i < s.len() ==> (#[trigger] s[i]).persist
}

/// The changes, all to persist or none.
pub open spec fn persisting(s: Seq<StagedChangeModel>, on: bool) -> Seq<StagedChangeModel> {
    Seq::new(s.len(), |i: int| StagedChangeModel { persist: on, ..s[i] })
}

impl KernelTuneScreenModel {
    pub open spec fn fresh(catalog: CatalogModel, entries: Seq<HistoryEntryModel>) -> KernelTuneScreenModel {
        KernelTuneScreenModel {
            tab: Tab::Target,
            target_tab: TargetTabModel::empty(),
            catalog,
            catalog_tab: CatalogTabModel::empty(),
            review_tab: ReviewTabModel { field: ReviewField::Table, selected_row: 0 },
            revert_tab: RevertTabModel { selected_row: 0 },
            confirm_apply: None,
            target_label: Seq::empty(),
            target_info: None,
            current_values: Seq::empty(),
            staged: Seq::empty(),
            history_entries: entries,
            log: LogModel::empty(),
            requests: Seq::empty(),
        }
    }

    pub open spec fn ask(self, r: RequestModel) -> KernelTuneScreenModel {
        KernelTuneScreenModel { requests: self.requests.push(r), ..self }
    }

    pub open spec fn with_log(self, log: LogModel) -> KernelTuneScreenModel {
        KernelTuneScreenModel { log, ..self }
    }

    pub open spec fn error(self, msg: Seq<char>) -> KernelTuneScreenModel {
        self.with_log(self.log.error(msg))
    }

    pub open spec fn note(self, ok: bool, line: Seq<char>) -> KernelTuneScreenModel {
        self.with_log(self.log.note(ok, line))
    }

    pub open spec fn with_target(self, target_tab: TargetTabModel) -> KernelTuneScreenModel {
        KernelTuneScreenModel { target_tab, ..self }
    }

    pub open spec fn with_catalog(self, catalog_tab: CatalogTabModel) -> KernelTuneScreenModel {
        KernelTuneScreenModel { catalog_tab, ..self }
    }

    pub open spec fn with_staged(self, staged: Seq<StagedChangeModel>) -> KernelTuneScreenModel {
        KernelTuneScreenModel { staged, ..self }
    }

    pub open spec fn on_tab(self, tab: Tab) -> KernelTuneScreenModel {
        KernelTuneScreenModel { tab, ..self }
    }

    pub open spec fn review(self, field: ReviewField, selected_row: int) -> KernelTuneScreenModel {
        KernelTuneScreenModel { review_tab: ReviewTabModel { field, selected_row }, ..self }
    }

    pub open spec fn entries(self) -> Seq<HistoryEntryModel> {
        entries_of(self.history_entries, self.target_label)
    }

    #[verifier::opaque]
    pub open spec fn connect(self) -> KernelTuneScreenModel {
        if self.target_tab.needs_host() {
            self.error("Enter a remote host first (or switch Mode to Local)"@)
        } else {
            self.with_target(TargetTabModel { connecting: true, ..self.target_tab }).ask(
                RequestModel::Connect(self.target_tab.target()),
            )
        }
    }

    /// The selected tunable looked at closely.
    #[verifier::opaque]
    pub open spec fn open_detail(self) -> KernelTuneScreenModel {
        let rows = self.catalog_tab.filtered(self.catalog);
        let i = self.catalog_tab.selected_row;
        if 0 <= i < rows.len() {
            let t = rows[i];
            self.with_catalog(
                self.catalog_tab.with_detail(
                    Some(
                        DetailModalModel::opened(
                            t,
                            value_of(self.current_values, t.key),
                            match staged_of(self.staged, t.key) {
                                Some(c) => Some(c.value),
                                None => None,
                            },
                            self.catalog_tab.profile_filter,
                        ),
                    ),
                ),
            )
        } else {
            self
        }
    }

    /// What the profile recommends for the tunable of a modal.
    pub open spec fn recommended(self, m: DetailModalModel) -> Option<Seq<char>> {
        match (self.catalog_tab.profile_filter, by_key(self.catalog.tunables, m.key)) {
            (Some(p), Some(t)) => t.recommended_for(p as int),
            _ => None,
        }
    }

    /// The value of a modal staged.
    pub open spec fn stage_detail(self, m: DetailModalModel) -> KernelTuneScreenModel {
        let value = text::trimmed(m.value.text);
        if value.len() == 0 {
            self.error("Enter a value first"@)
        } else {
            match by_key(self.catalog.tunables, m.key) {
                Some(t) => self.with_staged(
                    staged_with(self.staged, t.key, value_or_empty(self.current_values, t.key), value),
                ).note(true, "Staged "@ + t.key + " = "@ + value),
                None => self,
            }
        }
    }

    /// The screen with what came of a key on the modal.
    #[verifier::opaque]
    pub open spec fn detail_done(self, m: DetailModalModel, a: DetailAction) -> KernelTuneScreenModel {
        let closed = self.with_catalog(self.catalog_tab.with_detail(None));
        match a {
            DetailAction::Nothing => self.with_catalog(self.catalog_tab.with_detail(Some(m))),
            DetailAction::Close => closed,
            DetailAction::UseRecommended => match self.recommended(m) {
                Some(v) => self.with_catalog(
                    self.catalog_tab.with_detail(Some(DetailModalModel { value: InputModel::of(v), ..m })),
                ),
                None => self.with_catalog(self.catalog_tab.with_detail(Some(m))).note(
                    false,
                    "No recommendation for the current Profile filter — pick one on the Catalog tab, or check the list in this dialog."@,
                ),
            },
            DetailAction::Stage => closed.stage_detail(m),
        }
    }

    pub open spec fn profile_label(self, p: usize) -> Seq<char> {
        if p < self.catalog.profiles.len() {
            self.catalog.profiles[p as int]
        } else {
            Seq::empty()
        }
    }

    #[verifier::opaque]
    pub open spec fn apply_profile(self) -> KernelTuneScreenModel {
        match self.catalog_tab.profile_filter {
            None => self.error("Pick a profile first (Left/Right on the Profile field)"@),
            Some(p) => self.with_staged(
                profile_staged(self.catalog.tunables, self.staged, self.current_values, p as int),
            ).note(
                true,
                "Staged "@ + text::decimal(recommendations(self.catalog.tunables, p as int))
                    + " change(s) for profile '"@ + self.profile_label(p) + "' — review on the Review tab"@,
            ).on_tab(Tab::Review),
        }
    }

    /// The keys of the catalog that its table or filters take for themselves.
    #[verifier::opaque]
    pub open spec fn on_catalog_field_key(self, key: KeyCode) -> Option<KernelTuneScreenModel> {
        let n = self.catalog_tab.filtered(self.catalog).len() as int;
        match self.catalog_tab.field {
            CatalogField::Table => if n == 0 {
                None
            } else {
                match key {
                    KeyCode::Up | KeyCode::Down => Some(
                        self.with_catalog(
                            CatalogTabModel {
                                selected_row: cycle::moved(
                                    self.catalog_tab.selected_row,
                                    key == KeyCode::Up,
                                    n,
                                ),
                                ..self.catalog_tab
                            },
                        ),
                    ),
                    KeyCode::Enter => Some(self.open_detail()),
                    _ => None,
                }
            },
            CatalogField::ProfileFilter => match key {
                KeyCode::Left | KeyCode::Right => Some(
                    self.with_catalog(self.catalog_tab.profile_cycled(key == KeyCode::Left, self.catalog)),
                ),
                _ => None,
            },
            CatalogField::CategoryFilter => match key {
                KeyCode::Left | KeyCode::Right => Some(
                    self.with_catalog(self.catalog_tab.category_cycled(key == KeyCode::Left, self.catalog)),
                ),
                _ => None,
            },
            CatalogField::BtnApplyProfile => None,
        }
    }

    #[verifier::opaque]
    pub open spec fn on_catalog_key(self, key: KeyCode) -> KernelTuneScreenModel {
        match self.catalog_tab.detail {
            Some(m) => {
                let r = m.on_key(key);
                self.detail_done(r.0, r.1)
            },
            None => match self.on_catalog_field_key(key) {
                Some(s) => s,
                None => match key {
                    KeyCode::Tab | KeyCode::Down => self.with_catalog(
                        self.catalog_tab.focus(self.catalog_tab.field.next()),
                    ),
                    KeyCode::BackTab | KeyCode::Up => self.with_catalog(
                        self.catalog_tab.focus(self.catalog_tab.field.prev()),
                    ),
                    KeyCode::Enter => if self.catalog_tab.field == CatalogField::BtnApplyProfile {
                        self.apply_profile()
                    } else {
                        self
                    },
                    _ => self,
                },
            },
        }
    }

    /// Whether a change persists, turned.
    #[verifier::opaque]
    pub open spec fn turn_persist(self, i: int) -> KernelTuneScreenModel {
        if 0 <= i < self.staged.len() {
            self.with_staged(
                self.staged.update(
                    i,
                    StagedChangeModel { persist: !self.staged[i].persist, ..self.staged[i] },
                ),
            )
        } else {
            self
        }
    }

    #[verifier::opaque]
    pub open spec fn turn_all(self) -> KernelTuneScreenModel {
        self.with_staged(persisting(self.staged, !all_persist(self.staged)))
    }

    /// The selected change taken back; the selection stays in the list.
    #[verifier::opaque]
    pub open spec fn unstage(self) -> KernelTuneScreenModel {
        let i = self.review_tab.selected_row;
        if 0 <= i < self.staged.len() {
            let left = self.staged.remove(i);
            self.with_staged(left).review(
                self.review_tab.field,
                if i >= left.len() {
                    geometry::less(left.len() as int, 1)
                } else {
                    i
                },
            )
        } else {
            self
        }
    }

    pub open spec fn clear_all(self) -> KernelTuneScreenModel {
        self.with_staged(Seq::empty()).review(self.review_tab.field, 0)
    }

    /// Everything staged applied, after a question where something is risky.
    #[verifier::opaque]
    pub open spec fn request_apply(self) -> KernelTuneScreenModel {
        let lines = risky(self.staged, self.catalog.tunables);
        if self.staged.len() == 0 {
            self.error("Nothing staged — pick values from the Catalog tab first"@)
        } else if self.target_label.len() == 0 {
            self.error("Connect to a target first (Target tab)"@)
        } else if lines.len() > 0 {
            KernelTuneScreenModel { confirm_apply: Some(ConfirmModalModel { lines }), ..self }
        } else {
            self.apply_all()
        }
    }

    pub open spec fn apply_all(self) -> KernelTuneScreenModel {
        self.ask(
            RequestModel::Apply {
                target: self.target_tab.target(),
                items: to_apply(self.staged, self.catalog.tunables),
            },
        )
    }

    /// The keys of the table of staged changes.
    #[verifier::opaque]
    pub open spec fn on_staged_key(self, key: KeyCode) -> Option<KernelTuneScreenModel> {
        let n = self.staged.len() as int;
        let i = self.review_tab.selected_row;
        if self.review_tab.field != ReviewField::Table || n == 0 {
            None
        } else {
            match key {
                KeyCode::Up | KeyCode::Down => Some(
                    self.review(ReviewField::Table, cycle::moved(i, key == KeyCode::Up, n)),
                ),
                KeyCode::Enter => Some(self.turn_persist(i)),
                KeyCode::Char(c) => if c == ' ' {
                    Some(self.turn_persist(i))
                } else {
                    None
                },
                KeyCode::Delete | KeyCode::Backspace => Some(self.unstage()),
                _ => None,
            }
        }
    }

    #[verifier::opaque]
    pub open spec fn on_review_key(self, key: KeyCode) -> KernelTuneScreenModel {
        let row = self.review_tab.selected_row;
        match self.on_staged_key(key) {
            Some(s) => s,
            None => match key {
                KeyCode::Tab => self.review(self.review_tab.field.next(), row),
                KeyCode::BackTab => self.review(self.review_tab.field.prev(), row),
                KeyCode::Enter => match self.review_tab.field {
                    ReviewField::BtnPersistAll => self.turn_all(),
                    ReviewField::BtnApplyAll => self.request_apply(),
                    ReviewField::BtnClearAll => self.clear_all(),
                    ReviewField::Table => self.review(self.review_tab.field.next(), row),
                },
                _ => self,
            },
        }
    }

    #[verifier::opaque]
    pub open spec fn revert_one(self, key: Seq<char>) -> KernelTuneScreenModel {
        if self.target_label.len() == 0 {
            self.error("Connect to the target first"@)
        } else {
            match entry_of(self.history_entries, self.target_label, key) {
                Some(e) => if by_key(self.catalog.tunables, e.key) is Some {
                    self.ask(
                        RequestModel::RevertOne {
                            target: self.target_tab.target(),
                            label: self.target_label,
                            entry: e,
                        },
                    )
                } else {
                    self
                },
                None => self,
            }
        }
    }

    /// The change of a row reverted.
    #[verifier::opaque]
    pub open spec fn revert_row(self, i: int) -> KernelTuneScreenModel {
        if 0 <= i < self.entries().len() {
            self.revert_one(self.entries()[i].key)
        } else {
            self
        }
    }

    #[verifier::opaque]
    pub open spec fn revert_all(self) -> KernelTuneScreenModel {
        if self.target_label.len() == 0 {
            self.error("Connect to the target first"@)
        } else if self.entries().len() == 0 {
            self
        } else {
            self.ask(
                RequestModel::RevertAll {
                    target: self.target_tab.target(),
                    label: self.target_label,
                    entries: known_entries(self.entries(), self.catalog.tunables),
                },
            )
        }
    }

    pub open spec fn revert_at(self, selected_row: int) -> KernelTuneScreenModel {
        KernelTuneScreenModel { revert_tab: RevertTabModel { selected_row }, ..self }
    }

    #[verifier::opaque]
    pub open spec fn on_revert_key(self, key: KeyCode) -> KernelTuneScreenModel {
        match key {
            KeyCode::Up | KeyCode::Down => self.revert_at(
                cycle::moved(self.revert_tab.selected_row, key == KeyCode::Up, self.entries().len() as int),
            ),
            KeyCode::Enter => self.revert_row(self.revert_tab.selected_row),
            KeyCode::Char(c) => if c == 'a' || c == 'A' {
                self.revert_all()
            } else {
                self
            },
            _ => self,
        }
    }

    #[verifier::opaque]
    pub open spec fn target_done(self, a: TargetActionModel) -> KernelTuneScreenModel {
        match a {
            TargetActionModel::ListHosts => self.ask(RequestModel::ListHosts),
            TargetActionModel::BrowseKey(p) => self.ask(RequestModel::BrowseKey(p)),
            TargetActionModel::ReadDir(p) => self.ask(RequestModel::ReadDir(p)),
            TargetActionModel::Connect => self.connect(),
            TargetActionModel::ScrollHistory(up) => self.with_log(self.log.scrolled(up)),
            _ => self,
        }
    }

    #[verifier::opaque]
    pub open spec fn on_target_key(self, key: KeyCode) -> KernelTuneScreenModel {
        let r = self.target_tab.on_key(key);
        self.with_target(r.0).target_done(r.1)
    }

    #[verifier::opaque]
    pub open spec fn on_confirm_key(self, key: KeyCode) -> KernelTuneScreenModel {
        let s = KernelTuneScreenModel { confirm_apply: None, ..self };
        match key {
            KeyCode::Enter => s.apply_all(),
            KeyCode::Esc => s,
            _ => self,
        }
    }

    /// The tab that a function key opens.
    pub open spec fn tab_of(key: KeyCode) -> Option<Tab> {
        match key {
            KeyCode::F(n) => if n == 1 {
                Some(Tab::Target)
            } else if n == 2 {
                Some(Tab::Catalog)
            } else if n == 3 {
                Some(Tab::Review)
            } else if n == 4 {
                Some(Tab::Revert)
            } else {
                None
            },
            _ => None,
        }
    }

    #[verifier::opaque]
    pub open spec fn on_tab_key(self, key: KeyCode) -> KernelTuneScreenModel {
        match self.tab {
            Tab::Target => self.on_target_key(key),
            Tab::Catalog => self.on_catalog_key(key),
            Tab::Review => self.on_review_key(key),
            Tab::Revert => self.on_revert_key(key),
        }
    }

    /// The screen after a key, and whether the key leaves it.
    pub open spec fn on_key(self, key: KeyEvent) -> (KernelTuneScreenModel, bool) {
        let free = !self.target_tab.picking() && self.catalog_tab.detail is None;
        if self.log.alert is Some {
            (if log::closes_alert(key.code) {
                self.with_log(self.log.dismissed())
            } else {
                self
            }, false)
        } else if self.confirm_apply is Some {
            (self.on_confirm_key(key.code), false)
        } else if key.chord('c') {
            (self, true)
        } else if key.chord('y') {
            (self.ask(RequestModel::CopyHistory), false)
        } else if key.code == KeyCode::Esc && free {
            (self, true)
        } else if KernelTuneScreenModel::tab_of(key.code) is Some && free {
            (self.on_tab(KernelTuneScreenModel::tab_of(key.code)->0), false)
        } else {
            (self.on_tab_key(key.code), false)
        }
    }

    /// The tab whose label a click hits.
    pub open spec fn tab_hit(me: MouseEvent, l: KernelTuneLayoutModel) -> Option<usize> {
        match mouse::clicked(me) {
            Some((x, y)) => mouse::label_hit(x, y, l.screen[0], tab_labels()),
            None => None,
        }
    }

    #[verifier::opaque]
    pub open spec fn on_target_mouse(self, me: MouseEvent, l: KernelTuneLayoutModel) -> KernelTuneScreenModel {
        let r = self.target_tab.on_mouse(me, l.target);
        self.with_target(r.0).target_done(r.1)
    }

    /// Whether a cell is in the left half of a row.
    pub open spec fn left_half(row: Rect, x: u16) -> bool {
        x < row.x + row.width / 2
    }

    #[verifier::opaque]
    pub open spec fn catalog_clicked(self, x: u16, y: u16, l: KernelTuneLayoutModel) -> KernelTuneScreenModel {
        let ct = self.catalog_tab;
        if mouse::hits(l.filters[0], x, y) {
            self.with_catalog(
                ct.focus(CatalogField::ProfileFilter).profile_cycled(
                    KernelTuneScreenModel::left_half(l.filters[0], x),
                    self.catalog,
                ),
            )
        } else if mouse::hits(l.filters[1], x, y) {
            self.with_catalog(
                ct.focus(CatalogField::CategoryFilter).category_cycled(
                    KernelTuneScreenModel::left_half(l.filters[1], x),
                    self.catalog,
                ),
            )
        } else if mouse::button_hit(x, y, l.filters[2], seq!["Apply Profile to Staged"@]) is Some {
            self.apply_profile()
        } else {
            match mouse::table_hit(
                x,
                y,
                l.catalog[1],
                1,
                ct.filtered(self.catalog).len() as int,
                ct.selected_row,
            ) {
                Some(i) => self.with_catalog(
                    CatalogTabModel { selected_row: i as int, ..ct.focus(CatalogField::Table) },
                ).open_detail(),
                None => self,
            }
        }
    }

    #[verifier::opaque]
    pub open spec fn on_catalog_mouse(self, me: MouseEvent, l: KernelTuneLayoutModel) -> KernelTuneScreenModel {
        let n = self.catalog_tab.filtered(self.catalog).len() as int;
        match mouse::scrolled(me) {
            Some(d) => if n > 0 && mouse::hits(l.catalog[1], me.column, me.row) {
                self.with_catalog(
                    CatalogTabModel {
                        selected_row: cycle::moved(self.catalog_tab.selected_row, d < 0, n),
                        ..self.catalog_tab
                    },
                )
            } else if mouse::hits(l.catalog[2], me.column, me.row) {
                self.with_log(self.log.scrolled(d < 0))
            } else {
                self
            },
            None => match mouse::clicked(me) {
                Some((x, y)) => self.catalog_clicked(x, y, l),
                None => self,
            },
        }
    }

    #[verifier::opaque]
    pub open spec fn review_clicked(self, x: u16, y: u16, l: KernelTuneLayoutModel) -> KernelTuneScreenModel {
        match mouse::table_hit(x, y, l.review[0], 1, self.staged.len() as int, self.review_tab.selected_row) {
            Some(i) => self.review(self.review_tab.field, i as int).turn_persist(i as int),
            None => match mouse::button_hit(x, y, mouse::inner(l.review[1]), review_buttons()) {
                Some(i) => if i == 0 {
                    self.turn_all()
                } else if i == 1 {
                    self.request_apply()
                } else {
                    self.clear_all()
                },
                None => self,
            },
        }
    }

    #[verifier::opaque]
    pub open spec fn on_review_mouse(self, me: MouseEvent, l: KernelTuneLayoutModel) -> KernelTuneScreenModel {
        let n = self.staged.len() as int;
        match mouse::scrolled(me) {
            Some(d) => if n > 0 && mouse::hits(l.review[0], me.column, me.row) {
                self.review(self.review_tab.field, cycle::moved(self.review_tab.selected_row, d < 0, n))
            } else if mouse::hits(l.review[2], me.column, me.row) {
                self.with_log(self.log.scrolled(d < 0))
            } else {
                self
            },
            None => match mouse::clicked(me) {
                Some((x, y)) => self.review_clicked(x, y, l),
                None => self,
            },
        }
    }

    #[verifier::opaque]
    pub open spec fn on_revert_mouse(self, me: MouseEvent, l: KernelTuneLayoutModel) -> KernelTuneScreenModel {
        let n = self.entries().len() as int;
        match mouse::scrolled(me) {
            Some(d) => if n > 0 && mouse::hits(l.review[0], me.column, me.row) {
                self.revert_at(cycle::moved(self.revert_tab.selected_row, d < 0, n))
            } else if mouse::hits(l.review[2], me.column, me.row) {
                self.with_log(self.log.scrolled(d < 0))
            } else {
                self
            },
            None => match mouse::clicked(me) {
                Some((x, y)) => match mouse::table_hit(x, y, l.review[0], 1, n, self.revert_tab.selected_row) {
                    Some(i) => self.revert_at(i as int).revert_row(i as int),
                    None => if mouse::button_hit(x, y, mouse::inner(l.review[1]), seq!["Revert All (A)"@]) is Some {
                        self.revert_all()
                    } else {
                        self
                    },
                },
                None => self,
            },
        }
    }

    /// The screen after a mouse event. The question about risky changes and
    /// the close look at a tunable are for the keyboard alone.
    pub open spec fn on_mouse(self, me: MouseEvent, l: KernelTuneLayoutModel) -> KernelTuneScreenModel {
        if self.log.alert is Some {
            if mouse::clicked(me) is Some {
                self.with_log(self.log.dismissed())
            } else {
                self
            }
        } else if self.confirm_apply is Some || self.catalog_tab.detail is Some {
            self
        } else {
            match KernelTuneScreenModel::tab_hit(me, l) {
                Some(i) => self.on_tab(
                    if i == 0 {
                        Tab::Target
                    } else if i == 1 {
                        Tab::Catalog
                    } else if i == 2 {
                        Tab::Review
                    } else {
                        Tab::Revert
                    },
                ),
                None => match self.tab {
                    Tab::Target => self.on_target_mouse(me, l),
                    Tab::Catalog => self.on_catalog_mouse(me, l),
                    Tab::Review => self.on_review_mouse(me, l),
                    Tab::Revert => self.on_revert_mouse(me, l),
                },
            }
        }
    }

    /// The screen after a change was applied: it is current, no longer
    /// staged, and kept for a later revert.
    pub open spec fn applied(self, item: ApplyItemModel) -> KernelTuneScreenModel {
        let s = KernelTuneScreenModel {
            current_values: with_value(self.current_values, item.key, item.value),
            staged: without_key(self.staged, item.key),
            ..self
        };
        match by_key(self.catalog.tunables, item.key) {
            Some(t) => s.ask(
                RequestModel::Record {
                    label: self.target_label,
                    key: t.key,
                    title: t.title,
                    previous: item.previous,
                    value: item.value,
                    persisted: item.recorded,
                },
            ),
            None => s,
        }
    }

    /// The screen with what a message brings, but for the line that it leaves.
    pub open spec fn absorb(self, m: MsgModel) -> KernelTuneScreenModel {
        match m {
            MsgModel::Connected { label, info, values } => KernelTuneScreenModel {
                target_tab: TargetTabModel { connecting: false, ..self.target_tab },
                target_label: label,
                target_info: Some(info),
                current_values: values,
                staged: Seq::empty(),
                ..self
            },
            MsgModel::ConnectFailed(_) => self.with_target(
                TargetTabModel { connecting: false, ..self.target_tab },
            ),
            MsgModel::Applied { item, message: _ } => self.applied(item),
            MsgModel::Reverted { key, label, previous } => KernelTuneScreenModel {
                current_values: with_value(self.current_values, key, previous),
                ..self
            }.ask(RequestModel::Forget { label, key }),
            MsgModel::Entries(entries) => KernelTuneScreenModel { history_entries: entries, ..self },
            MsgModel::Hosts(all) => self.with_target(
                TargetTabModel { host_picker: Some(HostPickerModel::over(all)), ..self.target_tab },
            ),
            MsgModel::HostsFailed(e) => self.with_target(
                TargetTabModel { host_picker: Some(HostPickerModel::failed(e)), ..self.target_tab },
            ),
            MsgModel::KeyDir { listing, preselect } => self.with_target(
                TargetTabModel {
                    key_picker: Some(FilePickerModel::opened(listing, preselect)),
                    ..self.target_tab
                },
            ),
            MsgModel::DirRead(listing) => if self.target_tab.key_picker is Some {
                self.with_target(
                    TargetTabModel {
                        key_picker: Some(FilePickerModel::opened(listing, None)),
                        ..self.target_tab
                    },
                )
            } else {
                self
            },
            MsgModel::HistoryCopied(ok) => self.with_log(self.log.copied(ok)),
            _ => self,
        }
    }

    pub open spec fn on_msg(self, m: MsgModel) -> KernelTuneScreenModel {
        let s = self.absorb(m);
        match m.line() {
            Some((ok, line)) => s.note(ok, line),
            None => s,
        }
    }

    pub open spec fn ticked(self, msgs: Seq<MsgModel>) -> KernelTuneScreenModel
        decreases msgs.len(),
    {
        if msgs.len() == 0 {
            self
        } else {
            self.ticked(msgs.drop_last()).on_msg(msgs.last())
        }
    }
}

fn risky_lines(staged: &Vec<StagedChange>, catalog: &Catalog) -> (r: Vec<String>)
    ensures
        r.deep_view() == risky(staged.deep_view(), catalog@.tunables),
{
    let ghost all = staged.deep_view();
    let mut r: Vec<String> = Vec::new();
    let mut i: usize = 0;
    assert(all.take(0) =~= Seq::empty());
    assert(r.deep_view() =~= risky(all.take(0), catalog@.tunables));
    while i < staged.len()
        invariant
            i <= staged@.len(),
            all == staged.deep_view(),
            r.deep_view() == risky(all.take(i as int), catalog@.tunables),
        decreases staged@.len() - i,
    {
        proof {
            assert(all.take(i + 1).drop_last() =~= all.take(i as int));
            assert(all.take(i + 1).last() == staged@[i as int]@);
        }
        if let Some(t) = catalog.find(staged[i].key.as_str()) {
            if t.risk != Risk::Safe {
                append_to(&mut r, text::cat3(t.title.as_str(), " — ", t.risk.label()));
            }
        }
        i = i + 1;
    }
    assert(all.take(all.len() as int) =~= all);
    r
}

fn items_to_apply(staged: &Vec<StagedChange>, catalog: &Catalog) -> (r: Vec<ApplyItem>)
    ensures
        r.deep_view() == to_apply(staged.deep_view(), catalog@.tunables),
{
    let ghost all = staged.deep_view();
    let mut r: Vec<ApplyItem> = Vec::new();
    let mut i: usize = 0;
    assert(all.take(0) =~= Seq::empty());
    assert(r.deep_view() =~= to_apply(all.take(0), catalog@.tunables));
    while i < staged.len()
        invariant
            i <= staged@.len(),
            all == staged.deep_view(),
            r.deep_view() == to_apply(all.take(i as int), catalog@.tunables),
        decreases staged@.len() - i,
    {
        proof {
            assert(all.take(i + 1).drop_last() =~= all.take(i as int));
            assert(all.take(i + 1).last() == staged@[i as int]@);
        }
        let c = &staged[i];
        if let Some(t) = catalog.find(c.key.as_str()) {
            append_to(
                &mut r,
                ApplyItem {
                    key: t.key.clone(),
                    previous: c.previous.clone(),
                    value: c.value.clone(),
                    persist: c.persist,
                    recorded: c.persist || t.always_persists,
                },
            );
        }
        i = i + 1;
    }
    assert(all.take(all.len() as int) =~= all);
    r
}

/// The changes that were applied to a target.
pub fn filtered_history(entries: &Vec<HistoryEntry>, label: &str) -> (r: Vec<HistoryEntry>)
    ensures
        r.deep_view() == entries_of(entries.deep_view(), label@),
{
    let ghost keep = |e: HistoryEntryModel| e.target == label@;
    let ghost all = entries.deep_view();
    let mut r: Vec<HistoryEntry> = Vec::new();
    let mut i: usize = 0;
    proof {
        reveal(Seq::filter);
        assert(all.take(0) =~= Seq::empty());
        assert(r.deep_view() =~= Seq::<HistoryEntryModel>::empty().filter(keep));
    }
    while i < entries.len()
        invariant
            i <= entries@.len(),
            all == entries.deep_view(),
            keep == (|e: HistoryEntryModel| e.target == label@),
            r.deep_view() == all.take(i as int).filter(keep),
        decreases entries@.len() - i,
    {
        proof {
            reveal(Seq::filter);
            assert(all.take(i + 1).drop_last() =~= all.take(i as int));
            assert(all.take(i + 1).last() == entries@[i as int]@);
        }
        if text::same(entries[i].target.as_str(), label) {
            append_to(&mut r, entries[i].copy());
        }
        i = i + 1;
    }
    assert(all.take(all.len() as int) =~= all);
    r
}

fn keep_known(entries: &Vec<HistoryEntry>, catalog: &Catalog) -> (r: Vec<HistoryEntry>)
    ensures
        r.deep_view() == known_entries(entries.deep_view(), catalog@.tunables),
{
    let ghost keep = |e: HistoryEntryModel| by_key(catalog@.tunables, e.key) is Some;
    let ghost all = entries.deep_view();
    let mut r: Vec<HistoryEntry> = Vec::new();
    let mut i: usize = 0;
    proof {
        reveal(Seq::filter);
        assert(all.take(0) =~= Seq::empty());
        assert(r.deep_view() =~= Seq::<HistoryEntryModel>::empty().filter(keep));
    }
    while i < entries.len()
        invariant
            i <= entries@.len(),
            all == entries.deep_view(),
            keep == (|e: HistoryEntryModel| by_key(catalog@.tunables, e.key) is Some),
            r.deep_view() == all.take(i as int).filter(keep),
        decreases entries@.len() - i,
    {
        proof {
            reveal(Seq::filter);
            assert(all.take(i + 1).drop_last() =~= all.take(i as int));
            assert(all.take(i + 1).last() == entries@[i as int]@);
        }
        if catalog.find(entries[i].key.as_str()).is_some() {
            append_to(&mut r, entries[i].copy());
        }
        i = i + 1;
    }
    assert(all.take(all.len() as int) =~= all);
    r
}

fn find_entry(v: &Vec<HistoryEntry>, label: &str, key: &str) -> (r: Option<HistoryEntry>)
    ensures
        r.deep_view() == entry_of(v.deep_view(), label@, key@),
{
    let ghost s = v.deep_view();
    let mut i: usize = 0;
    assert(s.skip(0) =~= s);
    while i < v.len()
        invariant
            i <= v@.len(),
            s == v.deep_view(),
            entry_of(s, label@, key@) == entry_of(s.skip(i as int), label@, key@),
        decreases v@.len() - i,
    {
        assert(s.skip(i as int)[0] == v@[i as int]@);
        if text::same(v[i].target.as_str(), label) && text::same(v[i].key.as_str(), key) {
            return Some(v[i].copy());
        }
        assert(s.skip(i as int).drop_first() =~= s.skip(i + 1));
        i = i + 1;
    }
    None
}

impl KernelTuneScreen {
    /// A screen over a catalog and the changes that are kept.
    pub fn new(catalog: Catalog, entries: Vec<HistoryEntry>) -> (r: KernelTuneScreen)
        ensures
            r@ == KernelTuneScreenModel::fresh(catalog@, entries.deep_view()),
    {
        let r = KernelTuneScreen {
            tab: Tab::Target,
            target_tab: TargetTab::new(),
            catalog,
            catalog_tab: CatalogTab::new(),
            review_tab: ReviewTab { field: ReviewField::Table, selected_row: 0 },
            revert_tab: RevertTab { selected_row: 0 },
            confirm_apply: None,
            target_label: String::new(),
            target_info: None,
            current_values: Vec::new(),
            staged: Vec::new(),
            history_entries: entries,
            log: Log::new(),
            requests: Vec::new(),
        };
        assert(r@.requests =~= Seq::empty());
        assert(r@.staged =~= Seq::empty());
        assert(r@.current_values =~= Seq::empty());
        r
    }

    /// Hands out the queued requests.
    pub fn take_requests(&mut self) -> (r: Vec<Request>)
        ensures
            r.deep_view() == old(self)@.requests,
            final(self)@ == (KernelTuneScreenModel { requests: Seq::empty(), ..old(self)@ }),
    {
        let mut r: Vec<Request> = Vec::new();
        std::mem::swap(&mut r, &mut self.requests);
        assert(self@.requests =~= Seq::empty());
        r
    }

    fn ask(&mut self, r: Request)
        ensures
            final(self)@ == old(self)@.ask(r@),
    {
        append_to(&mut self.requests, r);
    }

    fn error(&mut self, msg: &str)
        ensures
            final(self)@ == old(self)@.error(msg@),
    {
        self.log.error(msg);
    }

    fn clear_staged(&mut self)
        ensures
            final(self)@ == old(self)@.with_staged(Seq::empty()),
    {
        self.staged = Vec::new();
        assert(self@.staged =~= Seq::empty());
    }

    /// Takes in what came of requests.
    pub fn tick(&mut self, msgs: Vec<Msg>)
        ensures
            final(self)@ == old(self)@.ticked(msgs.deep_view()),
    {
        let ghost all = msgs.deep_view();
        let ghost start = self@;
        let mut i: usize = 0;
        assert(all.take(0) =~= Seq::empty());
        while i < msgs.len()
            invariant
                i <= msgs@.len(),
                all == msgs.deep_view(),
                self@ == start.ticked(all.take(i as int)),
            decreases msgs@.len() - i,
        {
            proof {
                assert(all.take(i + 1).drop_last() =~= all.take(i as int));
                assert(all.take(i + 1).last() == msgs@[i as int]@);
            }
            self.receive(&msgs[i]);
            i = i + 1;
        }
        assert(all.take(all.len() as int) =~= all);
    }

    fn receive(&mut self, m: &Msg)
        ensures
            final(self)@ == old(self)@.on_msg(m@),
    {
        self.absorb(m);
        if let Some((ok, line)) = m.line() {
            self.log.note(ok, line);
        }
    }

    fn take_applied(&mut self, item: &ApplyItem)
        ensures
            final(self)@ == old(self)@.applied(item@),
    {
        set_value(&mut self.current_values, item.key.as_str(), item.value.clone());
        self.staged = drop_key(&self.staged, item.key.as_str());
        let r = match self.catalog.find(item.key.as_str()) {
            Some(t) => Request::Record {
                label: self.target_label.clone(),
                key: t.key.clone(),
                title: t.title.clone(),
                previous: item.previous.clone(),
                value: item.value.clone(),
                persisted: item.recorded,
            },
            None => {
                return;
            },
        };
        self.ask(r);
    }

    fn absorb(&mut self, m: &Msg)
        ensures
            final(self)@ == old(self)@.absorb(m@),
    {
        match m {
            Msg::Connected { label, info, values } => {
                self.target_tab.connecting = false;
                self.target_label = label.clone();
                self.target_info = Some(info.copy());
                self.current_values = values.copy();
                self.clear_staged();
            },
            Msg::ConnectFailed(_) => self.target_tab.connecting = false,
            Msg::Applied { item, message: _ } => self.take_applied(item),
            Msg::Reverted { key, label, previous } => {
                set_value(&mut self.current_values, key.as_str(), previous.clone());
                self.ask(Request::Forget { label: label.clone(), key: key.clone() });
            },
            Msg::Entries(entries) => self.history_entries = entries.copy(),
            Msg::Hosts(all) => self.target_tab.host_picker = Some(HostPicker::new(Ok(all.copy()))),
            Msg::HostsFailed(e) => self.target_tab.host_picker = Some(HostPicker::new(Err(e.clone()))),
            Msg::KeyDir { listing, preselect } => {
                self.target_tab.key_picker = Some(FilePicker::new(listing, preselect.copy()));
            },
            Msg::DirRead(listing) => {
                if self.target_tab.key_picker.is_some() {
                    self.target_tab.key_picker = Some(FilePicker::new(listing, None));
                }
            },
            Msg::HistoryCopied(ok) => self.log.copied(*ok),
            _ => {},
        }
    }

    pub fn trigger_connect(&mut self)
        ensures
            final(self)@ == old(self)@.connect(),
    {
        proof {
            reveal(KernelTuneScreenModel::connect);
        }
        if self.target_tab.lacks_host() {
            self.error("Enter a remote host first (or switch Mode to Local)");
            return;
        }
        self.target_tab.connecting = true;
        let target = self.target_tab.as_target();
        self.ask(Request::Connect(target));
    }

    fn do_target(&mut self, a: TargetAction)
        ensures
            final(self)@ == old(self)@.target_done(a@),
    {
        proof {
            reveal(KernelTuneScreenModel::target_done);
        }
        match a {
            TargetAction::ListHosts => self.ask(Request::ListHosts),
            TargetAction::BrowseKey(p) => self.ask(Request::BrowseKey(p)),
            TargetAction::ReadDir(p) => self.ask(Request::ReadDir(p)),
            TargetAction::Connect => self.trigger_connect(),
            TargetAction::ScrollHistory(up) => self.log.scroll_by(up),
            _ => {},
        }
    }

    // ------------------------------------------------------------- catalog

    pub fn open_detail_for_selected(&mut self)
        ensures
            final(self)@ == old(self)@.open_detail(),
    {
        proof {
            reveal(KernelTuneScreenModel::open_detail);
        }
        let rows = self.catalog_tab.filtered(&self.catalog);
        let i: usize = self.catalog_tab.selected_row;
        if i >= rows.len() {
            return;
        }
        assert(rows.deep_view()[i as int] == rows@[i as int]@);
        let t = rows[i];
        let current = find_value(&self.current_values, t.key.as_str());
        let staged = match find_staged(&self.staged, t.key.as_str()) {
            Some(c) => Some(c.value),
            None => None,
        };
        let m = DetailModal::open(t, &current, &staged, self.catalog_tab.profile_filter);
        self.catalog_tab.detail = Some(m);
    }

    fn recommended(&self, m: &DetailModal) -> (r: Option<String>)
        ensures
            r.deep_view() == self@.recommended(m@),
    {
        match (self.catalog_tab.profile_filter, self.catalog.find(m.key.as_str())) {
            (Some(p), Some(t)) => t.recommended_for(p),
            _ => None,
        }
    }

    fn stage_detail(&mut self, m: &DetailModal)
        ensures
            final(self)@ == old(self)@.stage_detail(m@),
    {
        let value = m.value.trimmed();
        if value.as_str().is_empty() {
            self.error("Enter a value first");
            return;
        }
        let key = match self.catalog.find(m.key.as_str()) {
            Some(t) => t.key.clone(),
            None => {
                return;
            },
        };
        let previous = find_or_empty(&self.current_values, key.as_str());
        self.staged = stage(&self.staged, key.as_str(), previous, value.clone());
        self.log.note(true, text::cat4("Staged ", key.as_str(), " = ", value.as_str()));
    }

    fn end_detail(&mut self, m: DetailModal, a: DetailAction)
        ensures
            final(self)@ == old(self)@.detail_done(m@, a),
    {
        proof {
            reveal(KernelTuneScreenModel::detail_done);
        }
        self.catalog_tab.detail = None;
        match a {
            DetailAction::Nothing => self.catalog_tab.detail = Some(m),
            DetailAction::Close => {},
            DetailAction::UseRecommended => {
                let mut m = m;
                match self.recommended(&m) {
                    Some(v) => m.value = Input::new(v.as_str()),
                    None => self.log.say(
                        false,
                        "No recommendation for the current Profile filter — pick one on the Catalog tab, or check the list in this dialog.",
                    ),
                }
                self.catalog_tab.detail = Some(m);
            },
            DetailAction::Stage => self.stage_detail(&m),
        }
    }

    fn stage_profile(&mut self, p: usize) -> (n: usize)
        ensures
            final(self)@ == old(self)@.with_staged(
                profile_staged(
                    old(self)@.catalog.tunables,
                    old(self)@.staged,
                    old(self)@.current_values,
                    p as int,
                ),
            ),
            n as nat == recommendations(old(self)@.catalog.tunables, p as int),
    {
        let ghost all = self.catalog.tunables.deep_view();
        let ghost start = self@;
        let mut n: usize = 0;
        let mut i: usize = 0;
        assert(all.take(0) =~= Seq::empty());
        while i < self.catalog.tunables.len()
            invariant
                i <= self.catalog.tunables@.len(),
                n <= i,
                all == self.catalog.tunables.deep_view(),
                all == start.catalog.tunables,
                n as nat == recommendations(all.take(i as int), p as int),
                self@ == start.with_staged(
                    profile_staged(all.take(i as int), start.staged, start.current_values, p as int),
                ),
            decreases self.catalog.tunables@.len() - i,
        {
            proof {
                assert(all.take(i + 1).drop_last() =~= all.take(i as int));
                assert(all.take(i + 1).last() == self.catalog.tunables@[i as int]@);
            }
            if let Some(v) = self.catalog.tunables[i].recommended_for(p) {
                let key = self.catalog.tunables[i].key.clone();
                let previous = find_or_empty(&self.current_values, key.as_str());
                self.staged = stage(&self.staged, key.as_str(), previous, v);
                n = n + 1;
            }
            i = i + 1;
        }
        assert(all.take(all.len() as int) =~= all);
        n
    }

    pub fn trigger_apply_profile(&mut self)
        ensures
            final(self)@ == old(self)@.apply_profile(),
    {
        proof {
            reveal(KernelTuneScreenModel::apply_profile);
        }
        let Some(p) = self.catalog_tab.profile_filter else {
            self.error("Pick a profile first (Left/Right on the Profile field)");
            return;
        };
        let n: usize = self.stage_profile(p);
        let label = if p < self.catalog.profiles.len() {
            assert(self@.catalog.profiles[p as int] == self.catalog.profiles@[p as int]@);
            self.catalog.profiles[p].clone()
        } else {
            String::new()
        };
        let count = text::number(n as u64);
        let line = text::cat5(
            "Staged ",
            count.as_str(),
            " change(s) for profile '",
            label.as_str(),
            "' — review on the Review tab",
        );
        self.log.note(true, line);
        self.tab = Tab::Review;
    }

    fn handle_catalog_field_key(&mut self, key: KeyCode) -> (taken: bool)
        ensures
            taken == (old(self)@.on_catalog_field_key(key) is Some),
            taken ==> old(self)@.on_catalog_field_key(key) == Some(final(self)@),
            !taken ==> final(self)@ == old(self)@,
    {
        proof {
            reveal(KernelTuneScreenModel::on_catalog_field_key);
        }
        match self.catalog_tab.field {
            CatalogField::Table => {
                let n: usize = self.catalog_tab.filtered(&self.catalog).len();
                if n == 0 {
                    return false;
                }
                match key {
                    KeyCode::Up | KeyCode::Down => {
                        self.catalog_tab.selected_row = cycle::step(
                            self.catalog_tab.selected_row,
                            key == KeyCode::Up,
                            n,
                        );
                        true
                    },
                    KeyCode::Enter => {
                        self.open_detail_for_selected();
                        true
                    },
                    _ => false,
                }
            },
            CatalogField::ProfileFilter => match key {
                KeyCode::Left | KeyCode::Right => {
                    self.catalog_tab.cycle_profile(key == KeyCode::Left, &self.catalog);
                    true
                },
                _ => false,
            },
            CatalogField::CategoryFilter => match key {
                KeyCode::Left | KeyCode::Right => {
                    self.catalog_tab.cycle_category(key == KeyCode::Left, &self.catalog);
                    true
                },
                _ => false,
            },
            CatalogField::BtnApplyProfile => false,
        }
    }

    pub fn handle_catalog_key(&mut self, key: KeyCode)
        ensures
            final(self)@ == old(self)@.on_catalog_key(key),
    {
        proof {
            reveal(KernelTuneScreenModel::detail_done);
            reveal(KernelTuneScreenModel::on_catalog_key);
        }
        let mut detail: Option<DetailModal> = None;
        std::mem::swap(&mut detail, &mut self.catalog_tab.detail);
        if let Some(m) = detail {
            let mut m = m;
            let a = m.handle_key(key);
            self.end_detail(m, a);
            return;
        }
        if self.handle_catalog_field_key(key) {
            return;
        }
        match key {
            KeyCode::Tab | KeyCode::Down => self.catalog_tab.next_field(),
            KeyCode::BackTab | KeyCode::Up => self.catalog_tab.prev_field(),
            KeyCode::Enter => if self.catalog_tab.field == CatalogField::BtnApplyProfile {
                self.trigger_apply_profile();
            },
            _ => {},
        }
    }

    // -------------------------------------------------------------- review

    fn turn_persist(&mut self, i: usize)
        ensures
            final(self)@ == old(self)@.turn_persist(i as int),
    {
        proof {
            reveal(KernelTuneScreenModel::turn_persist);
        }
        if i < self.staged.len() {
            let ghost before = self.staged.deep_view();
            assert(before[i as int] == self.staged@[i as int]@);
            let mut c = self.staged[i].copy();
            c.persist = !c.persist;
            self.staged.set(i, c);
            assert(self.staged.deep_view() =~= before.update(i as int, c@));
        }
    }

    fn turn_all(&mut self)
        ensures
            final(self)@ == old(self)@.turn_all(),
    {
        proof {
            reveal(KernelTuneScreenModel::turn_all);
        }
        let ghost all = self.staged.deep_view();
        let mut all_on = self.staged.len() > 0;
        let mut i: usize = 0;
        while i < self.staged.len()
            invariant
                i <= self.staged@.len(),
                all == self.staged.deep_view(),
                all_on == (all.len() > 0 && forall|k: int| 0 <= k < i ==> (#[trigger] all[k]).persist),
            decreases self.staged@.len() - i,
        {
            assert(all[i as int] == self.staged@[i as int]@);
            if !self.staged[i].persist {
                all_on = false;
            }
            i = i + 1;
        }
        assert(all_on == all_persist(all));
        let ghost start = self@;
        let mut r: Vec<StagedChange> = Vec::new();
        let mut k: usize = 0;
        while k < self.staged.len()
            invariant
                k <= self.staged@.len(),
                self@ == start,
                all == self.staged.deep_view(),
                r.deep_view() =~= persisting(all, !all_on).take(k as int),
            decreases self.staged@.len() - k,
        {
            assert(all[k as int] == self.staged@[k as int]@);
            let mut c = self.staged[k].copy();
            c.persist = !all_on;
            append_to(&mut r, c);
            k = k + 1;
        }
        assert(r.deep_view() =~= persisting(all, !all_on));
        self.staged = r;
    }

    fn unstage(&mut self)
        ensures
            final(self)@ == old(self)@.unstage(),
    {
        proof {
            reveal(KernelTuneScreenModel::unstage);
        }
        let i: usize = self.review_tab.selected_row;
        if i < self.staged.len() {
            let ghost before = self.staged.deep_view();
            self.staged.remove(i);
            assert(self.staged.deep_view() =~= before.remove(i as int));
            if i >= self.staged.len() {
                self.review_tab.selected_row = self.staged.len().saturating_sub(1);
            }
        }
    }

    fn clear_all(&mut self)
        ensures
            final(self)@ == old(self)@.clear_all(),
    {
        self.clear_staged();
        self.review_tab.selected_row = 0;
    }

    pub fn request_apply_all(&mut self)
        ensures
            final(self)@ == old(self)@.request_apply(),
    {
        proof {
            reveal(KernelTuneScreenModel::request_apply);
        }
        if self.staged.len() == 0 {
            self.error("Nothing staged — pick values from the Catalog tab first");
            return;
        }
        if self.target_label.as_str().is_empty() {
            self.error("Connect to a target first (Target tab)");
            return;
        }
        let lines = risky_lines(&self.staged, &self.catalog);
        if lines.len() > 0 {
            self.confirm_apply = Some(ConfirmModal { lines });
        } else {
            self.spawn_apply_all();
        }
    }

    pub fn spawn_apply_all(&mut self)
        ensures
            final(self)@ == old(self)@.apply_all(),
    {
        let target = self.target_tab.as_target();
        let items = items_to_apply(&self.staged, &self.catalog);
        self.ask(Request::Apply { target, items });
    }

    fn handle_staged_key(&mut self, key: KeyCode) -> (taken: bool)
        ensures
            taken == (old(self)@.on_staged_key(key) is Some),
            taken ==> old(self)@.on_staged_key(key) == Some(final(self)@),
            !taken ==> final(self)@ == old(self)@,
    {
        proof {
            reveal(KernelTuneScreenModel::on_staged_key);
        }
        let n: usize = self.staged.len();
        if self.review_tab.field != ReviewField::Table || n == 0 {
            return false;
        }
        let i: usize = self.review_tab.selected_row;
        match key {
            KeyCode::Up | KeyCode::Down => self.review_tab.selected_row = cycle::step(i, key == KeyCode::Up, n),
            KeyCode::Enter => self.turn_persist(i),
            KeyCode::Char(c) => {
                if c != ' ' {
                    return false;
                }
                self.turn_persist(i);
            },
            KeyCode::Delete | KeyCode::Backspace => self.unstage(),
            _ => {
                return false;
            },
        }
        true
    }

    pub fn next_review_field(&mut self)
        ensures
            final(self)@ == old(self)@.review(
                old(self)@.review_tab.field.next(),
                old(self)@.review_tab.selected_row,
            ),
    {
        self.review_tab.field = match self.review_tab.field {
            ReviewField::Table => ReviewField::BtnPersistAll,
            ReviewField::BtnPersistAll => ReviewField::BtnApplyAll,
            ReviewField::BtnApplyAll => ReviewField::BtnClearAll,
            ReviewField::BtnClearAll => ReviewField::Table,
        };
    }

    pub fn prev_review_field(&mut self)
        ensures
            final(self)@ == old(self)@.review(
                old(self)@.review_tab.field.prev(),
                old(self)@.review_tab.selected_row,
            ),
    {
        self.review_tab.field = match self.review_tab.field {
            ReviewField::Table => ReviewField::BtnClearAll,
            ReviewField::BtnPersistAll => ReviewField::Table,
            ReviewField::BtnApplyAll => ReviewField::BtnPersistAll,
            ReviewField::BtnClearAll => ReviewField::BtnApplyAll,
        };
    }

    pub fn handle_review_key(&mut self, key: KeyCode)
        ensures
            final(self)@ == old(self)@.on_review_key(key),
    {
        proof {
            reveal(KernelTuneScreenModel::on_review_key);
        }
        if self.handle_staged_key(key) {
            return;
        }
        match key {
            KeyCode::Tab => self.next_review_field(),
            KeyCode::BackTab => self.prev_review_field(),
            KeyCode::Enter => match self.review_tab.field {
                ReviewField::BtnPersistAll => self.turn_all(),
                ReviewField::BtnApplyAll => self.request_apply_all(),
                ReviewField::BtnClearAll => self.clear_all(),
                ReviewField::Table => self.next_review_field(),
            },
            _ => {},
        }
    }

    // -------------------------------------------------------------- revert

    pub fn entries(&self) -> (r: Vec<HistoryEntry>)
        ensures
            r.deep_view() == self@.entries(),
    {
        filtered_history(&self.history_entries, self.target_label.as_str())
    }

    pub fn trigger_revert_one(&mut self, key: &str)
        ensures
            final(self)@ == old(self)@.revert_one(key@),
    {
        proof {
            reveal(KernelTuneScreenModel::revert_one);
        }
        if self.target_label.as_str().is_empty() {
            self.error("Connect to the target first");
            return;
        }
        let Some(entry) = find_entry(&self.history_entries, self.target_label.as_str(), key) else {
            return;
        };
        if self.catalog.find(entry.key.as_str()).is_some() {
            let target = self.target_tab.as_target();
            let label = self.target_label.clone();
            self.ask(Request::RevertOne { target, label, entry });
        }
    }

    fn revert_row(&mut self, i: usize)
        ensures
            final(self)@ == old(self)@.revert_row(i as int),
    {
        proof {
            reveal(KernelTuneScreenModel::revert_row);
        }
        let entries = self.entries();
        if i < entries.len() {
            assert(entries.deep_view()[i as int] == entries@[i as int]@);
            self.trigger_revert_one(entries[i].key.as_str());
        }
    }

    pub fn trigger_revert_all(&mut self)
        ensures
            final(self)@ == old(self)@.revert_all(),
    {
        proof {
            reveal(KernelTuneScreenModel::revert_all);
        }
        if self.target_label.as_str().is_empty() {
            self.error("Connect to the target first");
            return;
        }
        let entries = self.entries();
        if entries.len() == 0 {
            return;
        }
        let target = self.target_tab.as_target();
        let label = self.target_label.clone();
        let entries = keep_known(&entries, &self.catalog);
        self.ask(Request::RevertAll { target, label, entries });
    }

    pub fn handle_revert_key(&mut self, key: KeyCode)
        ensures
            final(self)@ == old(self)@.on_revert_key(key),
    {
        proof {
            reveal(KernelTuneScreenModel::on_revert_key);
        }
        match key {
            KeyCode::Up | KeyCode::Down => {
                let n: usize = self.entries().len();
                self.revert_tab.selected_row = cycle::step(self.revert_tab.selected_row, key == KeyCode::Up, n);
            },
            KeyCode::Enter => {
                let i: usize = self.revert_tab.selected_row;
                self.revert_row(i);
            },
            KeyCode::Char(c) => if c == 'a' || c == 'A' {
                self.trigger_revert_all();
            },
            _ => {},
        }
    }

    // ---------------------------------------------------------------- keys

    pub fn handle_target_key(&mut self, key: KeyCode)
        ensures
            final(self)@ == old(self)@.on_target_key(key),
    {
        proof {
            reveal(KernelTuneScreenModel::on_target_key);
        }
        let a = self.target_tab.handle_key(key);
        self.do_target(a);
    }

    fn handle_confirm_key(&mut self, key: KeyCode)
        ensures
            final(self)@ == old(self)@.on_confirm_key(key),
    {
        proof {
            reveal(KernelTuneScreenModel::on_confirm_key);
        }
        match key {
            KeyCode::Enter => {
                self.confirm_apply = None;
                self.spawn_apply_all();
            },
            KeyCode::Esc => self.confirm_apply = None,
            _ => {},
        }
    }

    fn handle_tab_key(&mut self, key: KeyCode)
        ensures
            final(self)@ == old(self)@.on_tab_key(key),
    {
        proof {
            reveal(KernelTuneScreenModel::on_tab_key);
        }
        match self.tab {
            Tab::Target => self.handle_target_key(key),
            Tab::Catalog => self.handle_catalog_key(key),
            Tab::Review => self.handle_review_key(key),
            Tab::Revert => self.handle_revert_key(key),
        }
    }

    pub fn handle_key(&mut self, key: KeyEvent) -> (leave: bool)
        ensures
            (final(self)@, leave) == old(self)@.on_key(key),
    {
        if self.log.alert.is_some() {
            if is_closing(key.code) {
                self.log.dismiss();
            }
            return false;
        }
        if self.confirm_apply.is_some() {
            self.handle_confirm_key(key.code);
            return false;
        }
        if key.is_chord('c') {
            return true;
        }
        if key.is_chord('y') {
            self.ask(Request::CopyHistory);
            return false;
        }
        if !self.target_tab.is_picking() && self.catalog_tab.detail.is_none() {
            match key.code {
                KeyCode::Esc => {
                    return true;
                },
                KeyCode::F(n) => if n == 1 {
                    self.tab = Tab::Target;
                    return false;
                } else if n == 2 {
                    self.tab = Tab::Catalog;
                    return false;
                } else if n == 3 {
                    self.tab = Tab::Review;
                    return false;
                } else if n == 4 {
                    self.tab = Tab::Revert;
                    return false;
                },
                _ => {},
            }
        }
        self.handle_tab_key(key.code);
        false
    }

    // --------------------------------------------------------------- mouse

    /// The rectangles that the screen is drawn into.
    pub fn layout(&self, area: Rect) -> (l: KernelTuneLayout)
        ensures
            l@.of(area, self@.target_tab.is_remote),
            l@.complete(self@.target_tab.is_remote),
    {
        let cs = vec![Constraint::Length(1), Constraint::Min(0)];
        assert(cs@ =~= screen_rows());
        let screen = split_rows(area, 0, &cs);
        let target = self.target_tab.layout(screen[1]);
        let cs = vec![Constraint::Length(5), Constraint::Min(6), Constraint::Length(8)];
        assert(cs@ =~= catalog_rows());
        let catalog = split_rows(screen[1], 0, &cs);
        let cs = vec![Constraint::Length(1), Constraint::Length(1), Constraint::Length(1)];
        assert(cs@ =~= filter_rows());
        let filters = split_rows(mouse::block_inner(catalog[0]), 0, &cs);
        let cs = vec![Constraint::Min(6), Constraint::Length(3), Constraint::Length(8)];
        assert(cs@ =~= review_rows());
        let review = split_rows(screen[1], 0, &cs);
        KernelTuneLayout { screen, target, catalog, filters, review }
    }

    /// A mouse event on a screen drawn into `area`.
    pub fn handle_mouse(&mut self, me: MouseEvent, area: Rect)
        ensures
            exists|l: KernelTuneLayoutModel| #[trigger]
                l.of(area, old(self)@.target_tab.is_remote) && final(self)@ == old(self)@.on_mouse(me, l),
    {
        let l = self.layout(area);
        self.mouse_on(me, &l);
    }

    /// A mouse event on a screen drawn into these rectangles.
    pub fn mouse_on(&mut self, me: MouseEvent, l: &KernelTuneLayout)
        requires
            l@.complete(old(self)@.target_tab.is_remote),
        ensures
            final(self)@ == old(self)@.on_mouse(me, l@),
    {
        if self.log.alert.is_some() {
            if mouse::left_click(&me).is_some() {
                self.log.dismiss();
            }
            return;
        }
        if self.confirm_apply.is_some() || self.catalog_tab.detail.is_some() {
            return;
        }
        if let Some((x, y)) = mouse::left_click(&me) {
            let labels = ["F1 Target", "F2 Catalog", "F3 Review", "F4 Revert"];
            assert(labels.deep_view() =~= tab_labels());
            if let Some(i) = mouse::label_row_hit(x, y, l.screen[0], &labels) {
                self.tab = if i == 0 {
                    Tab::Target
                } else if i == 1 {
                    Tab::Catalog
                } else if i == 2 {
                    Tab::Review
                } else {
                    Tab::Revert
                };
                return;
            }
        }
        match self.tab {
            Tab::Target => self.handle_target_mouse(me, l),
            Tab::Catalog => self.handle_catalog_mouse(me, l),
            Tab::Review => self.handle_review_mouse(me, l),
            Tab::Revert => self.handle_revert_mouse(me, l),
        }
    }

    pub fn handle_target_mouse(&mut self, me: MouseEvent, l: &KernelTuneLayout)
        requires
            l@.complete(old(self)@.target_tab.is_remote),
        ensures
            final(self)@ == old(self)@.on_target_mouse(me, l@),
    {
        proof {
            reveal(KernelTuneScreenModel::on_target_mouse);
        }
        let a = self.target_tab.handle_mouse(&me, &l.target);
        self.do_target(a);
    }

    fn click_catalog(&mut self, x: u16, y: u16, l: &KernelTuneLayout)
        requires
            l@.complete_tabs(),
        ensures
            final(self)@ == old(self)@.catalog_clicked(x, y, l@),
    {
        proof {
            reveal(KernelTuneScreenModel::catalog_clicked);
        }
        if mouse::in_rect(l.filters[0], x, y) {
            self.catalog_tab.field = CatalogField::ProfileFilter;
            let back = (x as u32) < l.filters[0].x as u32 + (l.filters[0].width / 2) as u32;
            self.catalog_tab.cycle_profile(back, &self.catalog);
            return;
        }
        if mouse::in_rect(l.filters[1], x, y) {
            self.catalog_tab.field = CatalogField::CategoryFilter;
            let back = (x as u32) < l.filters[1].x as u32 + (l.filters[1].width / 2) as u32;
            self.catalog_tab.cycle_category(back, &self.catalog);
            return;
        }
        let labels = ["Apply Profile to Staged"];
        assert(labels.deep_view() =~= seq!["Apply Profile to Staged"@]);
        if mouse::button_row_hit(x, y, l.filters[2], &labels).is_some() {
            self.trigger_apply_profile();
            return;
        }
        let n: usize = self.catalog_tab.filtered(&self.catalog).len();
        if let Some(i) = mouse::table_row_hit(x, y, l.catalog[1], 1, n, self.catalog_tab.selected_row) {
            self.catalog_tab.selected_row = i;
            self.catalog_tab.field = CatalogField::Table;
            self.open_detail_for_selected();
        }
    }

    pub fn handle_catalog_mouse(&mut self, me: MouseEvent, l: &KernelTuneLayout)
        requires
            l@.complete_tabs(),
        ensures
            final(self)@ == old(self)@.on_catalog_mouse(me, l@),
    {
        proof {
            reveal(KernelTuneScreenModel::on_catalog_mouse);
        }
        if let Some(delta) = mouse::scroll_delta(&me) {
            let n: usize = self.catalog_tab.filtered(&self.catalog).len();
            if n > 0 && mouse::in_rect(l.catalog[1], me.column, me.row) {
                self.catalog_tab.selected_row = cycle::step(self.catalog_tab.selected_row, delta < 0, n);
            } else if mouse::in_rect(l.catalog[2], me.column, me.row) {
                self.log.scroll_by(delta < 0);
            }
            return;
        }
        if let Some((x, y)) = mouse::left_click(&me) {
            self.click_catalog(x, y, l);
        }
    }

    fn click_review(&mut self, x: u16, y: u16, l: &KernelTuneLayout)
        requires
            l@.complete_tabs(),
        ensures
            final(self)@ == old(self)@.review_clicked(x, y, l@),
    {
        proof {
            reveal(KernelTuneScreenModel::review_clicked);
        }
        if let Some(i) = mouse::table_row_hit(
            x,
            y,
            l.review[0],
            1,
            self.staged.len(),
            self.review_tab.selected_row,
        ) {
            self.review_tab.selected_row = i;
            self.turn_persist(i);
            return;
        }
        let labels = ["Toggle Persist All", "Apply All", "Clear All"];
        assert(labels.deep_view() =~= review_buttons());
        if let Some(i) = mouse::button_row_hit(x, y, mouse::block_inner(l.review[1]), &labels) {
            if i == 0 {
                self.turn_all();
            } else if i == 1 {
                self.request_apply_all();
            } else {
                self.clear_all();
            }
        }
    }

    pub fn handle_review_mouse(&mut self, me: MouseEvent, l: &KernelTuneLayout)
        requires
            l@.complete_tabs(),
        ensures
            final(self)@ == old(self)@.on_review_mouse(me, l@),
    {
        proof {
            reveal(KernelTuneScreenModel::on_review_mouse);
        }
        if let Some(delta) = mouse::scroll_delta(&me) {
            let n: usize = self.staged.len();
            if n > 0 && mouse::in_rect(l.review[0], me.column, me.row) {
                self.review_tab.selected_row = cycle::step(self.review_tab.selected_row, delta < 0, n);
            } else if mouse::in_rect(l.review[2], me.column, me.row) {
                self.log.scroll_by(delta < 0);
            }
            return;
        }
        if let Some((x, y)) = mouse::left_click(&me) {
            self.click_review(x, y, l);
        }
    }

    pub fn handle_revert_mouse(&mut self, me: MouseEvent, l: &KernelTuneLayout)
        requires
            l@.complete_tabs(),
        ensures
            final(self)@ == old(self)@.on_revert_mouse(me, l@),
    {
        proof {
            reveal(KernelTuneScreenModel::on_revert_mouse);
        }
        let n: usize = self.entries().len();
        if let Some(delta) = mouse::scroll_delta(&me) {
            if n > 0 && mouse::in_rect(l.review[0], me.column, me.row) {
                self.revert_tab.selected_row = cycle::step(self.revert_tab.selected_row, delta < 0, n);
            } else if mouse::in_rect(l.review[2], me.column, me.row) {
                self.log.scroll_by(delta < 0);
            }
            return;
        }
        let Some((x, y)) = mouse::left_click(&me) else {
            return;
        };
        if let Some(i) = mouse::table_row_hit(x, y, l.review[0], 1, n, self.revert_tab.selected_row) {
            self.revert_tab.selected_row = i;
            self.revert_row(i);
            return;
        }
        let labels = ["Revert All (A)"];
        assert(labels.deep_view() =~= seq!["Revert All (A)"@]);
        if mouse::button_row_hit(x, y, mouse::block_inner(l.review[1]), &labels).is_some() {
            self.trigger_revert_all();
        }
    }
}

} // verus!
