//! Cloudflare DNS Manager: several accounts, records searched and filtered
//! across all of them, and records added, edited and deleted through modals.
//!
//! `rows` holds whatever was fetched last. Account, type and search filter it
//! on the screen, so a search across everything is: fetch all accounts once,
//! then type.
use vstd::prelude::*;

use crate::cycle::{next_of, prev_of, Field};
use crate::cycle;
use crate::dns_record::{
    form_field_list, DnsRecord, DnsRecordInput, DnsRecordInputModel, DnsRecordModel, FormField, RecordForm,
    RecordFormModel, RecordType, Zone, ZoneModel,
};
use crate::dns_record;
use crate::event::{KeyCode, KeyEvent, MouseEvent};
use crate::form::{line_constraints, field_row_hit, Row};
use crate::form;
use crate::geometry::{modal_area, split_rows, Constraint, Rect};
use crate::geometry;
use crate::log::{is_closing, is_history_scroll, Log, LogModel};
use crate::log;
use crate::model::{append_to, Copyable};
use crate::mouse;
use crate::text;
use crate::widgets::{Input, InputModel};

verus! {

// ---------------------------------------------------------------- accounts

/// A saved account, without its token.
pub struct Account {
    pub id: String,
    pub label: String,
}

pub struct AccountModel {
    pub id: Seq<char>,
    pub label: Seq<char>,
}

impl View for Account {
    type V = AccountModel;

    open spec fn view(&self) -> AccountModel {
        AccountModel {
            id: self.id@,
            label: self.label@,
        }
    }
}

impl DeepView for Account {
    type V = AccountModel;

    open spec fn deep_view(&self) -> AccountModel {
        self@
    }
}

impl Copyable for Account {
    fn copy(&self) -> (r: Self) {
        Account {
            id: self.id.clone(),
            label: self.label.clone(),
        }
    }
}

/// An account with its token in the clear.
pub struct AccountWithSecret {
    pub id: String,
    pub label: String,
    pub api_token: String,
}

pub struct AccountWithSecretModel {
    pub id: Seq<char>,
    pub label: Seq<char>,
    pub api_token: Seq<char>,
}

impl View for AccountWithSecret {
    type V = AccountWithSecretModel;

    open spec fn view(&self) -> AccountWithSecretModel {
        AccountWithSecretModel {
            id: self.id@,
            label: self.label@,
            api_token: self.api_token@,
        }
    }
}

impl DeepView for AccountWithSecret {
    type V = AccountWithSecretModel;

    open spec fn deep_view(&self) -> AccountWithSecretModel {
        self@
    }
}

impl Copyable for AccountWithSecret {
    fn copy(&self) -> (r: Self) {
        AccountWithSecret {
            id: self.id.clone(),
            label: self.label.clone(),
            api_token: self.api_token.clone(),
        }
    }
}

/// The saved accounts, and those whose tokens could be opened.
pub struct Config {
    pub accounts: Vec<Account>,
    pub opened: Vec<AccountWithSecret>,
}

pub struct ConfigModel {
    pub accounts: Seq<AccountModel>,
    pub opened: Seq<AccountWithSecretModel>,
}

impl View for Config {
    type V = ConfigModel;

    open spec fn view(&self) -> ConfigModel {
        ConfigModel {
            accounts: self.accounts.deep_view(),
            opened: self.opened.deep_view(),
        }
    }
}

impl DeepView for Config {
    type V = ConfigModel;

    open spec fn deep_view(&self) -> ConfigModel {
        self@
    }
}

impl Copyable for Config {
    fn copy(&self) -> (r: Self) {
        Config {
            accounts: self.accounts.copy(),
            opened: self.opened.copy(),
        }
    }
}

/// The first account of that label.
pub open spec fn by_label(s: Seq<AccountModel>, label: Seq<char>) -> Option<AccountModel>
    decreases s.len(),
{
    if s.len() == 0 {
        None
    } else if s[0].label == label {
        Some(s[0])
    } else {
        by_label(s.drop_first(), label)
    }
}

/// The first opened account of that id.
pub open spec fn by_id(s: Seq<AccountWithSecretModel>, id: Seq<char>) -> Option<AccountWithSecretModel>
    decreases s.len(),
{
    if s.len() == 0 {
        None
    } else if s[0].id == id {
        Some(s[0])
    } else {
        by_id(s.drop_first(), id)
    }
}

/// The id of the first zone of that name.
pub open spec fn zone_id(s: Seq<ZoneModel>, name: Seq<char>) -> Option<Seq<char>>
    decreases s.len(),
{
    if s.len() == 0 {
        None
    } else if s[0].name == name {
        Some(s[0].id)
    } else {
        zone_id(s.drop_first(), name)
    }
}

/// The names that contain a query in lower case.
pub open spec fn names_matching(s: Seq<Seq<char>>, q: Seq<char>) -> Seq<Seq<char>> {
    s.filter(|name: Seq<char>| q.len() == 0 || text::occurs(text::lowercase(name), q))
}

pub open spec fn account_labels(s: Seq<AccountModel>) -> Seq<Seq<char>> {
    Seq::new(s.len(), |i: int| s[i].label)
}

pub open spec fn zone_names(s: Seq<ZoneModel>) -> Seq<Seq<char>> {
    Seq::new(s.len(), |i: int| s[i].name)
}

/// The accounts that could be opened, of those that are saved.
pub open spec fn all_opened(s: Seq<AccountModel>, opened: Seq<AccountWithSecretModel>) -> Seq<AccountWithSecretModel>
    decreases s.len(),
{
    if s.len() == 0 {
        Seq::empty()
    } else {
        let front = all_opened(s.drop_last(), opened);
        match by_id(opened, s.last().id) {
            Some(a) => front.push(a),
            None => front,
        }
    }
}

impl ConfigModel {
    pub open spec fn with_secret(self, id: Seq<char>) -> Option<AccountWithSecretModel> {
        by_id(self.opened, id)
    }

    pub open spec fn get(self, i: int) -> Option<AccountModel> {
        if 0 <= i < self.accounts.len() {
            Some(self.accounts[i])
        } else {
            None
        }
    }

    /// The labels of the accounts that match what was typed.
    pub open spec fn filtered(self, query: Seq<char>) -> Seq<Seq<char>> {
        names_matching(account_labels(self.accounts), text::lowercase(query))
    }
}

/// The names of the zones that match what was typed.
pub open spec fn zones_filtered(known: Seq<ZoneModel>, query: Seq<char>) -> Seq<Seq<char>> {
    names_matching(zone_names(known), text::lowercase(query))
}

/// The names that contain a query in lower case.
fn matching(names: &Vec<String>, q: &str) -> (r: Vec<String>)
    ensures
        r.deep_view() == names_matching(names.deep_view(), q@),
{
    let ghost keep = |name: Seq<char>| q@.len() == 0 || text::occurs(text::lowercase(name), q@);
    let ghost all = names.deep_view();
    let mut r: Vec<String> = Vec::new();
    let mut i: usize = 0;
    proof {
        reveal(Seq::filter);
        assert(all.take(0) =~= Seq::empty());
        assert(r.deep_view() =~= Seq::<Seq<char>>::empty().filter(keep));
    }
    while i < names.len()
        invariant
            i <= names@.len(),
            all == names.deep_view(),
            keep == (|name: Seq<char>| q@.len() == 0 || text::occurs(text::lowercase(name), q@)),
            r.deep_view() == all.take(i as int).filter(keep),
        decreases names@.len() - i,
    {
        proof {
            reveal(Seq::filter);
            assert(all.take(i + 1).drop_last() =~= all.take(i as int));
            assert(all.take(i + 1).last() == names@[i as int]@);
        }
        if q.is_empty() || text::lower_contains(names[i].as_str(), q) {
            append_to(&mut r, names[i].clone());
        }
        i = i + 1;
    }
    assert(all.take(all.len() as int) =~= all);
    r
}

pub fn filtered_accounts(cfg: &Config, query: &str) -> (r: Vec<String>)
    ensures
        r.deep_view() == cfg@.filtered(query@),
{
    let mut names: Vec<String> = Vec::new();
    let mut i: usize = 0;
    while i < cfg.accounts.len()
        invariant
            i <= cfg.accounts@.len(),
            names.deep_view() =~= account_labels(cfg@.accounts).take(i as int),
        decreases cfg.accounts@.len() - i,
    {
        assert(cfg@.accounts[i as int] == cfg.accounts@[i as int]@);
        append_to(&mut names, cfg.accounts[i].label.clone());
        i = i + 1;
    }
    assert(names.deep_view() =~= account_labels(cfg@.accounts));
    let q = query.to_lowercase();
    matching(&names, q.as_str())
}

pub fn filtered_zones(known: &Vec<Zone>, query: &str) -> (r: Vec<String>)
    ensures
        r.deep_view() == zones_filtered(known.deep_view(), query@),
{
    let mut names: Vec<String> = Vec::new();
    let mut i: usize = 0;
    while i < known.len()
        invariant
            i <= known@.len(),
            names.deep_view() =~= zone_names(known.deep_view()).take(i as int),
        decreases known@.len() - i,
    {
        assert(known.deep_view()[i as int] == known@[i as int]@);
        append_to(&mut names, known[i].name.clone());
        i = i + 1;
    }
    assert(names.deep_view() =~= zone_names(known.deep_view()));
    let q = query.to_lowercase();
    matching(&names, q.as_str())
}

/// The id of the zone of that name, among the zones that are known.
pub fn zone_id_for(known: &Vec<Zone>, name: &str) -> (r: Option<String>)
    ensures
        r.deep_view() == zone_id(known.deep_view(), name@),
{
    let ghost s = known.deep_view();
    let mut i: usize = 0;
    assert(s.skip(0) =~= s);
    while i < known.len()
        invariant
            i <= known@.len(),
            s == known.deep_view(),
            zone_id(s, name@) == zone_id(s.skip(i as int), name@),
        decreases known@.len() - i,
    {
        assert(s.skip(i as int)[0] == known@[i as int]@);
        if text::same(known[i].name.as_str(), name) {
            return Some(known[i].id.clone());
        }
        assert(s.skip(i as int).drop_first() =~= s.skip(i + 1));
        i = i + 1;
    }
    None
}

impl Config {
    pub fn with_secret(&self, id: &str) -> (r: Option<AccountWithSecret>)
        ensures
            r.deep_view() == self@.with_secret(id@),
    {
        let ghost s = self.opened.deep_view();
        let mut i: usize = 0;
        assert(s.skip(0) =~= s);
        while i < self.opened.len()
            invariant
                i <= self.opened@.len(),
                s == self.opened.deep_view(),
                by_id(s, id@) == by_id(s.skip(i as int), id@),
            decreases self.opened@.len() - i,
        {
            assert(s.skip(i as int)[0] == self.opened@[i as int]@);
            if text::same(self.opened[i].id.as_str(), id) {
                return Some(self.opened[i].copy());
            }
            assert(s.skip(i as int).drop_first() =~= s.skip(i + 1));
            i = i + 1;
        }
        None
    }

    fn find_label(&self, label: &str) -> (r: Option<&Account>)
        ensures
            match r {
                Some(a) => by_label(self@.accounts, label@) == Some(a@),
                None => by_label(self@.accounts, label@) is None,
            },
    {
        let ghost s = self.accounts.deep_view();
        let mut i: usize = 0;
        assert(s.skip(0) =~= s);
        while i < self.accounts.len()
            invariant
                i <= self.accounts@.len(),
                s == self.accounts.deep_view(),
                by_label(s, label@) == by_label(s.skip(i as int), label@),
            decreases self.accounts@.len() - i,
        {
            assert(s.skip(i as int)[0] == self.accounts@[i as int]@);
            if text::same(self.accounts[i].label.as_str(), label) {
                return Some(&self.accounts[i]);
            }
            assert(s.skip(i as int).drop_first() =~= s.skip(i + 1));
            i = i + 1;
        }
        None
    }

    fn get(&self, i: usize) -> (r: Option<&Account>)
        ensures
            match r {
                Some(a) => self@.get(i as int) == Some(a@),
                None => self@.get(i as int) is None,
            },
    {
        if i < self.accounts.len() {
            assert(self.accounts.deep_view()[i as int] == self.accounts@[i as int]@);
            Some(&self.accounts[i])
        } else {
            None
        }
    }

    /// Every saved account whose token could be opened.
    fn all_opened(&self) -> (r: Vec<AccountWithSecret>)
        ensures
            r.deep_view() == all_opened(self@.accounts, self@.opened),
    {
        let ghost s = self.accounts.deep_view();
        let mut r: Vec<AccountWithSecret> = Vec::new();
        let mut i: usize = 0;
        assert(s.take(0) =~= Seq::empty());
        assert(r.deep_view() =~= all_opened(s.take(0), self@.opened));
        while i < self.accounts.len()
            invariant
                i <= self.accounts@.len(),
                s == self.accounts.deep_view(),
                r.deep_view() == all_opened(s.take(i as int), self@.opened),
            decreases self.accounts@.len() - i,
        {
            proof {
                assert(s.take(i + 1).drop_last() =~= s.take(i as int));
                assert(s.take(i + 1).last() == self.accounts@[i as int]@);
            }
            if let Some(a) = self.with_secret(self.accounts[i].id.as_str()) {
                append_to(&mut r, a);
            }
            i = i + 1;
        }
        assert(s.take(s.len() as int) =~= s);
        r
    }
}

#[derive(Clone, Copy, PartialEq, Eq, Structural, Debug)]
pub enum Tab {
    Accounts,
    Records,
}

#[derive(Clone, Copy, PartialEq, Eq, Structural, Debug)]
pub enum AccField {
    Table,
    Label,
    ApiToken,
    BtnSave,
    BtnNew,
    BtnDelete,
    BtnTest,
}

impl AccField {
    pub open spec fn next(self) -> AccField {
        match self {
            AccField::Table => AccField::Label,
            AccField::Label => AccField::ApiToken,
            AccField::ApiToken => AccField::BtnSave,
            AccField::BtnSave => AccField::BtnNew,
            AccField::BtnNew => AccField::BtnDelete,
            AccField::BtnDelete => AccField::BtnTest,
            AccField::BtnTest => AccField::Table,
        }
    }

    pub open spec fn prev(self) -> AccField {
        match self {
            AccField::Table => AccField::BtnTest,
            AccField::Label => AccField::Table,
            AccField::ApiToken => AccField::Label,
            AccField::BtnSave => AccField::ApiToken,
            AccField::BtnNew => AccField::BtnSave,
            AccField::BtnDelete => AccField::BtnNew,
            AccField::BtnTest => AccField::BtnDelete,
        }
    }
}

/// What the screen has to do after an event on the accounts tab.
#[derive(Clone, Copy, PartialEq, Eq, Structural, Debug)]
pub enum AccAction {
    Nothing,
    Save,
    Delete,
    Test,
    /// Scroll the history, towards older lines or back.
    ScrollHistory(bool),
}

pub struct AccountsTab {
    /// The account that is edited; none while a new one is made.
    pub selected: Option<usize>,
    pub table_idx: usize,
    pub label: Input,
    pub api_token: Input,
    pub field: AccField,
}

pub struct AccountsTabModel {
    pub selected: Option<usize>,
    pub table_idx: int,
    pub label: InputModel,
    pub api_token: InputModel,
    pub field: AccField,
}

impl View for AccountsTab {
    type V = AccountsTabModel;

    open spec fn view(&self) -> AccountsTabModel {
        AccountsTabModel {
            selected: self.selected,
            table_idx: self.table_idx as int,
            label: self.label@,
            api_token: self.api_token@,
            field: self.field,
        }
    }
}

impl DeepView for AccountsTab {
    type V = AccountsTabModel;

    open spec fn deep_view(&self) -> AccountsTabModel {
        self@
    }
}

/// The lines of the account form, which is drawn from them and hit-tested by them.
pub open spec fn account_form() -> Seq<Row<AccField>> {
    seq![
        Row::Field(AccField::Label),
        Row::Gap,
        Row::Field(AccField::ApiToken),
        Row::Gap,
        Row::Hint,
        Row::Gap,
        Row::Buttons,
    ]
}

pub fn account_form_rows() -> (r: Vec<Row<AccField>>)
    ensures
        r@ == account_form(),
{
    let r = vec![
        Row::Field(AccField::Label),
        Row::Gap,
        Row::Field(AccField::ApiToken),
        Row::Gap,
        Row::Hint,
        Row::Gap,
        Row::Buttons,
    ];
    assert(r@ =~= account_form());
    r
}

pub open spec fn account_buttons() -> Seq<Seq<char>> {
    seq!["Save"@, "New"@, "Delete"@, "Test Token"@]
}

impl AccountsTabModel {
    pub open spec fn empty() -> AccountsTabModel {
        AccountsTabModel {
            selected: None,
            table_idx: 0,
            label: InputModel::empty(),
            api_token: InputModel::empty(),
            field: AccField::Table,
        }
    }

    pub open spec fn focus(self, field: AccField) -> AccountsTabModel {
        AccountsTabModel { field, ..self }
    }

    pub open spec fn cleared(self) -> AccountsTabModel {
        AccountsTabModel { selected: None, label: InputModel::empty(), api_token: InputModel::empty(), ..self }
    }

    /// The form filled from an account, the token left empty.
    pub open spec fn loaded(self, idx: int, accounts: Seq<AccountModel>) -> AccountsTabModel {
        if 0 <= idx < accounts.len() {
            AccountsTabModel {
                selected: Some(idx as usize),
                label: InputModel::of(accounts[idx].label),
                api_token: InputModel::empty(),
                ..self
            }
        } else {
            self
        }
    }

    pub open spec fn edit(self, key: KeyCode) -> AccountsTabModel {
        match self.field {
            AccField::Label => AccountsTabModel { label: self.label.edit(key), ..self },
            AccField::ApiToken => AccountsTabModel { api_token: self.api_token.edit(key), ..self },
            _ => self,
        }
    }

    pub open spec fn entered(self) -> (AccountsTabModel, AccAction) {
        match self.field {
            AccField::BtnSave => (self, AccAction::Save),
            AccField::BtnNew => (self.cleared(), AccAction::Nothing),
            AccField::BtnDelete => (self, AccAction::Delete),
            AccField::BtnTest => (self, AccAction::Test),
            _ => (self.focus(self.field.next()), AccAction::Nothing),
        }
    }

    pub open spec fn on_key(self, key: KeyCode, accounts: Seq<AccountModel>) -> (AccountsTabModel, AccAction) {
        let n = accounts.len() as int;
        let on_table = self.field == AccField::Table && n > 0;
        match key {
            KeyCode::Tab => (self.focus(self.field.next()), AccAction::Nothing),
            KeyCode::BackTab => (self.focus(self.field.prev()), AccAction::Nothing),
            KeyCode::Up => (if on_table {
                AccountsTabModel { table_idx: cycle::moved(self.table_idx, true, n), ..self }
            } else {
                self.focus(self.field.prev())
            }, AccAction::Nothing),
            KeyCode::Down => (if on_table {
                AccountsTabModel { table_idx: cycle::moved(self.table_idx, false, n), ..self }
            } else {
                self.focus(self.field.next())
            }, AccAction::Nothing),
            KeyCode::Enter => if on_table {
                (self.loaded(self.table_idx, accounts), AccAction::Nothing)
            } else {
                self.entered()
            },
            _ => (self.edit(key), AccAction::Nothing),
        }
    }

    pub open spec fn clicked(
        self,
        x: u16,
        y: u16,
        l: CloudflareLayoutModel,
        accounts: Seq<AccountModel>,
    ) -> (AccountsTabModel, AccAction) {
        match mouse::table_hit(x, y, l.accounts[0], 1, accounts.len() as int, self.table_idx) {
            Some(i) => (
                AccountsTabModel { table_idx: i as int, ..self }.loaded(i as int, accounts),
                AccAction::Nothing,
            ),
            None => match mouse::button_hit(x, y, l.account_form[6], account_buttons()) {
                Some(i) => if i == 0 {
                    (self, AccAction::Save)
                } else if i == 1 {
                    (self.cleared(), AccAction::Nothing)
                } else if i == 2 {
                    (self, AccAction::Delete)
                } else {
                    (self, AccAction::Test)
                },
                None => match form::field_hit(l.account_form, account_form(), x, y) {
                    Some(f) => (self.focus(f), AccAction::Nothing),
                    None => (self, AccAction::Nothing),
                },
            },
        }
    }

    #[verifier::opaque]
    pub open spec fn on_mouse(
        self,
        me: MouseEvent,
        l: CloudflareLayoutModel,
        accounts: Seq<AccountModel>,
    ) -> (AccountsTabModel, AccAction) {
        match mouse::scrolled(me) {
            Some(d) => if accounts.len() > 0 && mouse::hits(l.accounts[0], me.column, me.row) {
                (
                    AccountsTabModel {
                        table_idx: cycle::moved(self.table_idx, d < 0, accounts.len() as int),
                        ..self
                    },
                    AccAction::Nothing,
                )
            } else if mouse::hits(l.accounts[2], me.column, me.row) {
                (self, AccAction::ScrollHistory(d < 0))
            } else {
                (self, AccAction::Nothing)
            },
            None => match mouse::clicked(me) {
                Some((x, y)) => self.clicked(x, y, l, accounts),
                None => (self, AccAction::Nothing),
            },
        }
    }
}

impl AccountsTab {
    pub fn new() -> (r: AccountsTab)
        ensures
            r@ == AccountsTabModel::empty(),
    {
        AccountsTab {
            selected: None,
            table_idx: 0,
            label: Input::default(),
            api_token: Input::default(),
            field: AccField::Table,
        }
    }

    pub fn next_field(&mut self)
        ensures
            final(self)@ == old(self)@.focus(old(self)@.field.next()),
    {
        self.field = match self.field {
            AccField::Table => AccField::Label,
            AccField::Label => AccField::ApiToken,
            AccField::ApiToken => AccField::BtnSave,
            AccField::BtnSave => AccField::BtnNew,
            AccField::BtnNew => AccField::BtnDelete,
            AccField::BtnDelete => AccField::BtnTest,
            AccField::BtnTest => AccField::Table,
        };
    }

    pub fn prev_field(&mut self)
        ensures
            final(self)@ == old(self)@.focus(old(self)@.field.prev()),
    {
        self.field = match self.field {
            AccField::Table => AccField::BtnTest,
            AccField::Label => AccField::Table,
            AccField::ApiToken => AccField::Label,
            AccField::BtnSave => AccField::ApiToken,
            AccField::BtnNew => AccField::BtnSave,
            AccField::BtnDelete => AccField::BtnNew,
            AccField::BtnTest => AccField::BtnDelete,
        };
    }

    pub fn clear_form(&mut self)
        ensures
            final(self)@ == old(self)@.cleared(),
    {
        self.selected = None;
        self.label = Input::default();
        self.api_token = Input::default();
    }

    fn load(&mut self, idx: usize, accounts: &Vec<Account>)
        ensures
            final(self)@ == old(self)@.loaded(idx as int, accounts.deep_view()),
    {
        if idx < accounts.len() {
            assert(accounts.deep_view()[idx as int] == accounts@[idx as int]@);
            self.selected = Some(idx);
            self.label = Input::new(accounts[idx].label.as_str());
            self.api_token = Input::default();
        }
    }

    fn enter(&mut self) -> (r: AccAction)
        ensures
            (final(self)@, r) == old(self)@.entered(),
    {
        match self.field {
            AccField::BtnSave => return AccAction::Save,
            AccField::BtnNew => self.clear_form(),
            AccField::BtnDelete => return AccAction::Delete,
            AccField::BtnTest => return AccAction::Test,
            _ => self.next_field(),
        }
        AccAction::Nothing
    }

    pub fn handle_key(&mut self, key: KeyCode, accounts: &Vec<Account>) -> (r: AccAction)
        ensures
            (final(self)@, r) == old(self)@.on_key(key, accounts.deep_view()),
    {
        let n: usize = accounts.len();
        let on_table = self.field == AccField::Table && n > 0;
        match key {
            KeyCode::Tab => self.next_field(),
            KeyCode::BackTab => self.prev_field(),
            KeyCode::Up => if on_table {
                self.table_idx = cycle::step(self.table_idx, true, n);
            } else {
                self.prev_field();
            },
            KeyCode::Down => if on_table {
                self.table_idx = cycle::step(self.table_idx, false, n);
            } else {
                self.next_field();
            },
            KeyCode::Enter => if on_table {
                let idx: usize = self.table_idx;
                self.load(idx, accounts);
            } else {
                return self.enter();
            },
            _ => match self.field {
                AccField::Label => self.label.edit(key),
                AccField::ApiToken => self.api_token.edit(key),
                _ => {},
            },
        }
        AccAction::Nothing
    }

    pub fn handle_mouse(&mut self, me: &MouseEvent, l: &CloudflareLayout, accounts: &Vec<Account>) -> (r: AccAction)
        requires
            l@.complete(),
        ensures
            (final(self)@, r) == old(self)@.on_mouse(*me, l@, accounts.deep_view()),
    {
        proof {
            reveal(AccountsTabModel::on_mouse);
        }
        let n: usize = accounts.len();
        if let Some(delta) = mouse::scroll_delta(me) {
            if n > 0 && mouse::in_rect(l.accounts[0], me.column, me.row) {
                self.table_idx = cycle::step(self.table_idx, delta < 0, n);
            } else if mouse::in_rect(l.accounts[2], me.column, me.row) {
                return AccAction::ScrollHistory(delta < 0);
            }
            return AccAction::Nothing;
        }
        let Some((x, y)) = mouse::left_click(me) else {
            return AccAction::Nothing;
        };
        if let Some(i) = mouse::table_row_hit(x, y, l.accounts[0], 1, n, self.table_idx) {
            self.table_idx = i;
            self.load(i, accounts);
            return AccAction::Nothing;
        }
        let labels = ["Save", "New", "Delete", "Test Token"];
        assert(labels.deep_view() =~= account_buttons());
        if let Some(i) = mouse::button_row_hit(x, y, l.account_form[6], &labels) {
            if i == 0 {
                return AccAction::Save;
            } else if i == 1 {
                self.clear_form();
                return AccAction::Nothing;
            } else if i == 2 {
                return AccAction::Delete;
            } else {
                return AccAction::Test;
            }
        }
        let rows = account_form_rows();
        if let Some(f) = field_row_hit(&l.account_form, &rows, x, y) {
            self.field = f;
        }
        AccAction::Nothing
    }
}

// ------------------------------------------------------------- record modals

#[derive(Clone, Copy, PartialEq, Eq, Structural, Debug)]
pub enum AddField {
    Zone,
    Form(FormField),
    BtnStage,
    PendingList,
    BtnSaveAll,
    BtnCancel,
}

#[derive(Clone, Copy, PartialEq, Eq, Structural, Debug)]
pub enum EditField {
    Form(FormField),
    BtnUpdate,
    BtnDelete,
    BtnCancel,
}

impl Field for AddField {
    fn same(self, other: Self) -> (r: bool) {
        self == other
    }
}

impl Field for EditField {
    fn same(self, other: Self) -> (r: bool) {
        self == other
    }
}

/// The fields of the add modal for a type, in the order of the focus. The
/// modal reshapes itself around the selected type.
pub open spec fn add_fields(kind: RecordType) -> Seq<AddField> {
    seq![AddField::Zone] + dns_record::form_fields(kind).map_values(|f: FormField| AddField::Form(f)) + seq![
        AddField::BtnStage,
        AddField::PendingList,
        AddField::BtnSaveAll,
        AddField::BtnCancel,
    ]
}

/// The fields of the edit modal for a type, in the order of the focus.
pub open spec fn edit_fields(kind: RecordType) -> Seq<EditField> {
    dns_record::form_fields(kind).map_values(|f: FormField| EditField::Form(f)) + seq![
        EditField::BtnUpdate,
        EditField::BtnDelete,
        EditField::BtnCancel,
    ]
}

pub fn add_active_fields(kind: RecordType) -> (r: Vec<AddField>)
    ensures
        r@ == add_fields(kind),
        r@.len() > 0,
{
    let fs = form_field_list(kind);
    let mut v: Vec<AddField> = vec![AddField::Zone];
    let mut i: usize = 0;
    while i < fs.len()
        invariant
            i <= fs@.len(),
            v@ =~= seq![AddField::Zone] + fs@.take(i as int).map_values(|f: FormField| AddField::Form(f)),
        decreases fs@.len() - i,
    {
        v.push(AddField::Form(fs[i]));
        i = i + 1;
    }
    v.push(AddField::BtnStage);
    v.push(AddField::PendingList);
    v.push(AddField::BtnSaveAll);
    v.push(AddField::BtnCancel);
    assert(fs@.take(fs@.len() as int) =~= fs@);
    assert(v@ =~= add_fields(kind));
    v
}

pub fn edit_active_fields(kind: RecordType) -> (r: Vec<EditField>)
    ensures
        r@ == edit_fields(kind),
        r@.len() > 0,
{
    let fs = form_field_list(kind);
    let mut v: Vec<EditField> = Vec::new();
    let mut i: usize = 0;
    while i < fs.len()
        invariant
            i <= fs@.len(),
            v@ =~= fs@.take(i as int).map_values(|f: FormField| EditField::Form(f)),
        decreases fs@.len() - i,
    {
        v.push(EditField::Form(fs[i]));
        i = i + 1;
    }
    v.push(EditField::BtnUpdate);
    v.push(EditField::BtnDelete);
    v.push(EditField::BtnCancel);
    assert(fs@.take(fs@.len() as int) =~= fs@);
    assert(v@ =~= edit_fields(kind));
    v
}

pub struct AddModal {
    pub zone: Input,
    pub zone_dropdown_open: bool,
    pub zone_idx: usize,
    pub form: RecordForm,
    /// Records that are staged, not saved.
    pub pending: Vec<DnsRecordInput>,
    pub pending_idx: usize,
    pub field: AddField,
    /// Set by the first attempt to leave while records are staged; a second
    /// one is needed to discard them.
    pub confirm_discard: bool,
}

pub struct AddModalModel {
    pub zone: InputModel,
    pub zone_dropdown_open: bool,
    pub zone_idx: int,
    pub form: RecordFormModel,
    pub pending: Seq<DnsRecordInputModel>,
    pub pending_idx: int,
    pub field: AddField,
    pub confirm_discard: bool,
}

impl View for AddModal {
    type V = AddModalModel;

    open spec fn view(&self) -> AddModalModel {
        AddModalModel {
            zone: self.zone@,
            zone_dropdown_open: self.zone_dropdown_open,
            zone_idx: self.zone_idx as int,
            form: self.form@,
            pending: self.pending.deep_view(),
            pending_idx: self.pending_idx as int,
            field: self.field,
            confirm_discard: self.confirm_discard,
        }
    }
}

impl DeepView for AddModal {
    type V = AddModalModel;

    open spec fn deep_view(&self) -> AddModalModel {
        self@
    }
}

pub struct EditModal {
    pub original: DnsRecord,
    pub form: RecordForm,
    pub field: EditField,
}

pub struct EditModalModel {
    pub original: DnsRecordModel,
    pub form: RecordFormModel,
    pub field: EditField,
}

impl View for EditModal {
    type V = EditModalModel;

    open spec fn view(&self) -> EditModalModel {
        EditModalModel {
            original: self.original@,
            form: self.form@,
            field: self.field,
        }
    }
}

impl DeepView for EditModal {
    type V = EditModalModel;

    open spec fn deep_view(&self) -> EditModalModel {
        self@
    }
}

pub enum RecordModal {
    Add(AddModal),
    Edit(EditModal),
}

pub enum RecordModalModel {
    Add(AddModalModel),
    Edit(EditModalModel),
}

impl View for RecordModal {
    type V = RecordModalModel;

    open spec fn view(&self) -> RecordModalModel {
        match self {
            RecordModal::Add(a) => RecordModalModel::Add(a@),
            RecordModal::Edit(a) => RecordModalModel::Edit(a@),
        }
    }
}

impl DeepView for RecordModal {
    type V = RecordModalModel;

    open spec fn deep_view(&self) -> RecordModalModel {
        self@
    }
}

/// What the screen has to do after an event on the add modal.
pub enum AddAction {
    Nothing,
    Close,
    /// Create the staged records.
    SaveAll,
    /// Show what is wrong with the record.
    Complain(String),
}

pub enum AddActionModel {
    Nothing,
    Close,
    SaveAll,
    Complain(Seq<char>),
}

impl View for AddAction {
    type V = AddActionModel;

    open spec fn view(&self) -> AddActionModel {
        match self {
            AddAction::Nothing => AddActionModel::Nothing,
            AddAction::Close => AddActionModel::Close,
            AddAction::SaveAll => AddActionModel::SaveAll,
            AddAction::Complain(a) => AddActionModel::Complain(a@),
        }
    }
}

impl DeepView for AddAction {
    type V = AddActionModel;

    open spec fn deep_view(&self) -> AddActionModel {
        self@
    }
}

/// What the screen has to do after an event on the edit modal.
#[derive(Clone, Copy, PartialEq, Eq, Structural, Debug)]
pub enum EditAction {
    Nothing,
    Close,
    Update,
    Delete,
}

/// The records without the one at a place.
pub open spec fn dropped(s: Seq<DnsRecordInputModel>, i: int) -> Seq<DnsRecordInputModel> {
    if 0 <= i < s.len() {
        s.remove(i)
    } else {
        s
    }
}

impl AddModalModel {
    /// A modal that opens on a zone; the focus starts where there is work left.
    pub open spec fn opened(zone: Seq<char>) -> AddModalModel {
        AddModalModel {
            zone: InputModel::of(zone),
            zone_dropdown_open: false,
            zone_idx: 0,
            form: RecordFormModel::empty(),
            pending: Seq::empty(),
            pending_idx: 0,
            field: if zone.len() == 0 {
                AddField::Zone
            } else {
                AddField::Form(FormField::Type)
            },
            confirm_discard: false,
        }
    }

    pub open spec fn focus(self, field: AddField) -> AddModalModel {
        AddModalModel { field, ..self }
    }

    pub open spec fn next_field(self) -> AddModalModel {
        self.focus(cycle::after(add_fields(self.form.kind), self.field))
    }

    pub open spec fn prev_field(self) -> AddModalModel {
        self.focus(cycle::before(add_fields(self.form.kind), self.field))
    }

    pub open spec fn dropdown(self, open: bool) -> AddModalModel {
        AddModalModel { zone_dropdown_open: open, ..self }
    }

    pub open spec fn with_form(self, form: RecordFormModel) -> AddModalModel {
        AddModalModel { form, ..self }
    }

    pub open spec fn disarmed(self) -> AddModalModel {
        AddModalModel { confirm_discard: false, ..self }
    }

    /// Whether a key tries to leave the modal.
    pub open spec fn discards(self, key: KeyCode) -> bool {
        key == KeyCode::Esc || (key == KeyCode::Enter && self.field == AddField::BtnCancel)
    }

    /// An attempt to leave: the first one only warns while records are staged.
    pub open spec fn left(self) -> (AddModalModel, AddActionModel) {
        if self.pending.len() > 0 && !self.confirm_discard {
            (AddModalModel { confirm_discard: true, ..self }, AddActionModel::Nothing)
        } else {
            (self, AddActionModel::Close)
        }
    }

    /// The selected record taken out of the list; the selection stays in it.
    pub open spec fn unstaged(self) -> AddModalModel {
        let pending = dropped(self.pending, self.pending_idx);
        AddModalModel {
            pending,
            pending_idx: if self.pending_idx >= pending.len() {
                geometry::less(pending.len() as int, 1)
            } else {
                self.pending_idx
            },
            ..self
        }
    }

    /// The record in the form staged, and the form emptied for the next one.
    pub open spec fn staged(self) -> (AddModalModel, AddActionModel) {
        match self.form.parsed() {
            Ok(r) => (
                AddModalModel { pending: self.pending.push(r), form: self.form.cleared(), ..self },
                AddActionModel::Nothing,
            ),
            Err(e) => (self, AddActionModel::Complain(e)),
        }
    }

    /// Keys while the dropdown of zones is open.
    pub open spec fn on_dropdown_key(self, key: KeyCode, found: Seq<Seq<char>>) -> AddModalModel {
        let n = found.len() as int;
        match key {
            KeyCode::Esc => self.dropdown(false),
            KeyCode::Tab => self.dropdown(false).next_field(),
            KeyCode::BackTab => self.dropdown(false).prev_field(),
            KeyCode::Up => AddModalModel { zone_idx: cycle::moved(self.zone_idx, true, n), ..self },
            KeyCode::Down => AddModalModel { zone_idx: cycle::moved(self.zone_idx, false, n), ..self },
            KeyCode::Enter => self.zone_picked(self.zone_idx, found),
            KeyCode::Char(_) | KeyCode::Backspace => AddModalModel {
                zone: self.zone.edit(key),
                zone_idx: 0,
                ..self
            },
            _ => AddModalModel { zone: self.zone.edit(key), ..self },
        }
    }

    /// A zone of the dropdown taken, where there is one, and the dropdown closed.
    pub open spec fn zone_picked(self, i: int, found: Seq<Seq<char>>) -> AddModalModel {
        if 0 <= i < found.len() {
            AddModalModel { zone: InputModel::of(found[i]), ..self.dropdown(false) }
        } else {
            self.dropdown(false)
        }
    }

    pub open spec fn entered(self, zones_known: bool) -> (AddModalModel, AddActionModel) {
        match self.field {
            AddField::Zone => (if zones_known {
                AddModalModel { zone_idx: 0, zone_dropdown_open: true, ..self }
            } else {
                self.next_field()
            }, AddActionModel::Nothing),
            AddField::Form(f) => (if f == FormField::Type || f == FormField::Tag || f == FormField::Proxied {
                self.with_form(self.form.switched(f, false))
            } else {
                self.next_field()
            }, AddActionModel::Nothing),
            AddField::BtnStage => self.staged(),
            AddField::BtnSaveAll => (self, AddActionModel::SaveAll),
            AddField::BtnCancel => self.left(),
            AddField::PendingList => (self.next_field(), AddActionModel::Nothing),
        }
    }

    /// A key that edits or turns what has the focus.
    pub open spec fn typed(self, key: KeyCode, zones_known: bool) -> AddModalModel {
        match self.field {
            AddField::Zone => match key {
                KeyCode::Char(_) => if zones_known {
                    AddModalModel {
                        zone: self.zone.edit(key),
                        zone_dropdown_open: true,
                        zone_idx: 0,
                        ..self
                    }
                } else {
                    AddModalModel { zone: self.zone.edit(key), ..self }
                },
                _ => AddModalModel { zone: self.zone.edit(key), ..self },
            },
            AddField::Form(f) => if key == KeyCode::Left || key == KeyCode::Right {
                self.with_form(self.form.switched(f, key == KeyCode::Left).edit(f, key))
            } else {
                self.with_form(self.form.edit(f, key))
            },
            _ => self,
        }
    }

    /// The modal after a key. Any key but a second attempt to leave takes
    /// back the first one.
    pub open spec fn on_key(
        self,
        key: KeyCode,
        zones_known: bool,
        found: Seq<Seq<char>>,
    ) -> (AddModalModel, AddActionModel) {
        if self.zone_dropdown_open {
            (self.on_dropdown_key(key, found), AddActionModel::Nothing)
        } else {
            let m = if self.discards(key) {
                self
            } else {
                self.disarmed()
            };
            let n = m.pending.len() as int;
            let on_list = m.field == AddField::PendingList && n > 0;
            match key {
                KeyCode::Esc => m.left(),
                KeyCode::Tab => (m.next_field(), AddActionModel::Nothing),
                KeyCode::BackTab => (m.prev_field(), AddActionModel::Nothing),
                KeyCode::Up => (if on_list {
                    AddModalModel { pending_idx: cycle::moved(m.pending_idx, true, n), ..m }
                } else {
                    m.prev_field()
                }, AddActionModel::Nothing),
                KeyCode::Down => (if on_list {
                    AddModalModel { pending_idx: cycle::moved(m.pending_idx, false, n), ..m }
                } else {
                    m.next_field()
                }, AddActionModel::Nothing),
                KeyCode::Delete => (if on_list {
                    m.unstaged()
                } else {
                    m.typed(key, zones_known)
                }, AddActionModel::Nothing),
                KeyCode::Enter => m.entered(zones_known),
                _ => (m.typed(key, zones_known), AddActionModel::Nothing),
            }
        }
    }

    /// The area of the dropdown of zones, below the zone.
    pub open spec fn dropdown_area(row: Rect, area: Rect, n: nat) -> Rect {
        let x = geometry::min_int(row.x + 6, u16::MAX as int);
        Rect {
            x: x as u16,
            y: geometry::min_int(row.y + 1, u16::MAX as int) as u16,
            width: geometry::min_int(34, geometry::less(area.width as int, x)) as u16,
            height: geometry::min_int(n as int + 2, 10) as u16,
        }
    }

    /// What a click on the form means: the modal with the focus moved, and
    /// whether the click also presses what it hit.
    #[verifier::opaque]
    pub open spec fn aimed(self, x: u16, y: u16, rows: Seq<Rect>) -> (AddModalModel, bool) {
        if mouse::hits(rows[0], x, y) {
            (self.focus(AddField::Zone), true)
        } else {
            match mouse::plain_hit(x, y, rows[11], self.pending.len() as int) {
                Some(i) => (
                    AddModalModel { pending_idx: i as int, ..self.focus(AddField::PendingList) },
                    false,
                ),
                None => if mouse::button_hit(x, y, rows[8], seq!["+ Add to list"@]) is Some {
                    (self.focus(AddField::BtnStage), true)
                } else {
                    match mouse::button_hit(x, y, rows[13], seq!["Save All"@, "Cancel"@]) {
                        Some(i) => (
                            self.focus(
                                if i == 0 {
                                    AddField::BtnSaveAll
                                } else {
                                    AddField::BtnCancel
                                },
                            ),
                            true,
                        ),
                        None => if mouse::hits(rows[6], x, y) {
                            (self.focus(AddField::Form(FormField::Value)), false)
                        } else if mouse::hits(rows[2], x, y) {
                            self.aimed_at(self.form.main_hit(x - rows[2].x))
                        } else if mouse::hits(rows[4], x, y) {
                            self.aimed_at(self.form.extra_hit(x - rows[4].x))
                        } else {
                            (self, false)
                        },
                    }
                },
            }
        }
    }

    pub open spec fn aimed_at(self, hit: Option<(FormField, bool)>) -> (AddModalModel, bool) {
        match hit {
            Some((f, press)) => (self.focus(AddField::Form(f)), press),
            None => (self, false),
        }
    }

    /// The modal after a mouse event. A click that presses something does
    /// what Enter on it does.
    pub open spec fn on_mouse(
        self,
        me: MouseEvent,
        rows: Seq<Rect>,
        area: Rect,
        zones_known: bool,
        found: Seq<Seq<char>>,
    ) -> (AddModalModel, AddActionModel) {
        if self.zone_dropdown_open {
            (match mouse::clicked(me) {
                Some((x, y)) => match mouse::table_hit(
                    x,
                    y,
                    AddModalModel::dropdown_area(rows[0], area, found.len()),
                    0,
                    found.len() as int,
                    self.zone_idx,
                ) {
                    Some(i) => self.zone_picked(i as int, found),
                    None => self.dropdown(false),
                },
                None => self,
            }, AddActionModel::Nothing)
        } else {
            match mouse::scrolled(me) {
                Some(d) => (if self.pending.len() > 0 && mouse::hits(rows[11], me.column, me.row) {
                    AddModalModel {
                        pending_idx: cycle::moved(self.pending_idx, d < 0, self.pending.len() as int),
                        ..self
                    }
                } else {
                    self
                }, AddActionModel::Nothing),
                None => match mouse::clicked(me) {
                    Some((x, y)) => {
                        let (m, press) = self.aimed(x, y, rows);
                        if press {
                            m.on_key(KeyCode::Enter, zones_known, found)
                        } else {
                            (m.disarmed(), AddActionModel::Nothing)
                        }
                    },
                    None => (self, AddActionModel::Nothing),
                },
            }
        }
    }
}

impl AddModal {
    pub fn new(zone: &str) -> (r: AddModal)
        ensures
            r@ == AddModalModel::opened(zone@),
    {
        let field = if zone.is_empty() {
            AddField::Zone
        } else {
            AddField::Form(FormField::Type)
        };
        let r = AddModal {
            zone: Input::new(zone),
            zone_dropdown_open: false,
            zone_idx: 0,
            form: RecordForm::new(),
            pending: Vec::new(),
            pending_idx: 0,
            field,
            confirm_discard: false,
        };
        assert(r@.pending =~= Seq::empty());
        r
    }

    pub fn next_field(&mut self)
        ensures
            final(self)@ == old(self)@.next_field(),
    {
        let fields = add_active_fields(self.form.kind);
        self.field = next_of(&fields, self.field);
    }

    pub fn prev_field(&mut self)
        ensures
            final(self)@ == old(self)@.prev_field(),
    {
        let fields = add_active_fields(self.form.kind);
        self.field = prev_of(&fields, self.field);
    }

    fn pick_zone(&mut self, i: usize, found: &Vec<String>)
        ensures
            final(self)@ == old(self)@.zone_picked(i as int, found.deep_view()),
    {
        if i < found.len() {
            assert(found.deep_view()[i as int] == found@[i as int]@);
            self.zone = Input::new(found[i].as_str());
        }
        self.zone_dropdown_open = false;
    }

    pub fn handle_dropdown_key(&mut self, key: KeyCode, found: &Vec<String>)
        ensures
            final(self)@ == old(self)@.on_dropdown_key(key, found.deep_view()),
    {
        match key {
            KeyCode::Esc => self.zone_dropdown_open = false,
            KeyCode::Tab => {
                self.zone_dropdown_open = false;
                self.next_field();
            },
            KeyCode::BackTab => {
                self.zone_dropdown_open = false;
                self.prev_field();
            },
            KeyCode::Up => self.zone_idx = cycle::step(self.zone_idx, true, found.len()),
            KeyCode::Down => self.zone_idx = cycle::step(self.zone_idx, false, found.len()),
            KeyCode::Enter => {
                let i: usize = self.zone_idx;
                self.pick_zone(i, found);
            },
            KeyCode::Char(_) | KeyCode::Backspace => {
                self.zone.edit(key);
                self.zone_idx = 0;
            },
            _ => self.zone.edit(key),
        }
    }

    fn leave(&mut self) -> (r: AddAction)
        ensures
            (final(self)@, r@) == old(self)@.left(),
    {
        if self.pending.len() > 0 && !self.confirm_discard {
            self.confirm_discard = true;
            AddAction::Nothing
        } else {
            AddAction::Close
        }
    }

    fn unstage(&mut self)
        ensures
            final(self)@ == old(self)@.unstaged(),
    {
        if self.pending_idx < self.pending.len() {
            let ghost before = self.pending.deep_view();
            self.pending.remove(self.pending_idx);
            assert(self.pending.deep_view() =~= before.remove(self.pending_idx as int));
        }
        if self.pending_idx >= self.pending.len() {
            self.pending_idx = self.pending.len().saturating_sub(1);
        }
    }

    fn stage(&mut self) -> (r: AddAction)
        ensures
            (final(self)@, r@) == old(self)@.staged(),
    {
        match self.form.parse_modal_record() {
            Ok(input) => {
                append_to(&mut self.pending, input);
                self.form.clear_inputs();
                AddAction::Nothing
            },
            Err(e) => AddAction::Complain(e),
        }
    }

    fn enter(&mut self, zones_known: bool) -> (r: AddAction)
        ensures
            (final(self)@, r@) == old(self)@.entered(zones_known),
    {
        match self.field {
            AddField::Zone => if zones_known {
                self.zone_idx = 0;
                self.zone_dropdown_open = true;
            } else {
                self.next_field();
            },
            AddField::Form(f) => if f == FormField::Type || f == FormField::Tag || f == FormField::Proxied {
                self.form.switch(f, false);
            } else {
                self.next_field();
            },
            AddField::BtnStage => return self.stage(),
            AddField::BtnSaveAll => return AddAction::SaveAll,
            AddField::BtnCancel => return self.leave(),
            AddField::PendingList => self.next_field(),
        }
        AddAction::Nothing
    }

    fn type_key(&mut self, key: KeyCode, zones_known: bool)
        ensures
            final(self)@ == old(self)@.typed(key, zones_known),
    {
        match self.field {
            AddField::Zone => {
                self.zone.edit(key);
                if let KeyCode::Char(_) = key {
                    if zones_known {
                        self.zone_dropdown_open = true;
                        self.zone_idx = 0;
                    }
                }
            },
            AddField::Form(f) => {
                if key == KeyCode::Left || key == KeyCode::Right {
                    self.form.switch(f, key == KeyCode::Left);
                }
                self.form.edit(f, key);
            },
            _ => {},
        }
    }

    pub fn handle_key(&mut self, key: KeyCode, zones_known: bool, found: &Vec<String>) -> (r: AddAction)
        ensures
            (final(self)@, r@) == old(self)@.on_key(key, zones_known, found.deep_view()),
    {
        if self.zone_dropdown_open {
            self.handle_dropdown_key(key, found);
            return AddAction::Nothing;
        }
        let discards = key == KeyCode::Esc || (key == KeyCode::Enter && self.field == AddField::BtnCancel);
        if !discards {
            self.confirm_discard = false;
        }
        let n: usize = self.pending.len();
        let on_list = self.field == AddField::PendingList && n > 0;
        match key {
            KeyCode::Esc => return self.leave(),
            KeyCode::Tab => self.next_field(),
            KeyCode::BackTab => self.prev_field(),
            KeyCode::Up => if on_list {
                self.pending_idx = cycle::step(self.pending_idx, true, n);
            } else {
                self.prev_field();
            },
            KeyCode::Down => if on_list {
                self.pending_idx = cycle::step(self.pending_idx, false, n);
            } else {
                self.next_field();
            },
            KeyCode::Delete => if on_list {
                self.unstage();
            } else {
                self.type_key(key, zones_known);
            },
            KeyCode::Enter => return self.enter(zones_known),
            _ => self.type_key(key, zones_known),
        }
        AddAction::Nothing
    }

    fn aim(&mut self, x: u16, y: u16, rows: &Vec<Rect>) -> (press: bool)
        requires
            rows@.len() == 15,
        ensures
            (final(self)@, press) == old(self)@.aimed(x, y, rows@),
    {
        proof {
            reveal(AddModalModel::aimed);
        }
        if mouse::in_rect(rows[0], x, y) {
            self.field = AddField::Zone;
            return true;
        }
        if let Some(i) = mouse::plain_row_hit(x, y, rows[11], self.pending.len()) {
            self.field = AddField::PendingList;
            self.pending_idx = i;
            return false;
        }
        let labels = ["+ Add to list"];
        assert(labels.deep_view() =~= seq!["+ Add to list"@]);
        if mouse::button_row_hit(x, y, rows[8], &labels).is_some() {
            self.field = AddField::BtnStage;
            return true;
        }
        let labels = ["Save All", "Cancel"];
        assert(labels.deep_view() =~= seq!["Save All"@, "Cancel"@]);
        if let Some(i) = mouse::button_row_hit(x, y, rows[13], &labels) {
            self.field = if i == 0 {
                AddField::BtnSaveAll
            } else {
                AddField::BtnCancel
            };
            return true;
        }
        if mouse::in_rect(rows[6], x, y) {
            self.field = AddField::Form(FormField::Value);
            return false;
        }
        let hit = if mouse::in_rect(rows[2], x, y) {
            self.form.main_row_hit((x - rows[2].x) as usize)
        } else if mouse::in_rect(rows[4], x, y) {
            self.form.extra_row_hit((x - rows[4].x) as usize)
        } else {
            None
        };
        match hit {
            Some((f, press)) => {
                self.field = AddField::Form(f);
                press
            },
            None => false,
        }
    }

    pub fn handle_mouse(
        &mut self,
        me: &MouseEvent,
        rows: &Vec<Rect>,
        area: Rect,
        zones_known: bool,
        found: &Vec<String>,
    ) -> (r: AddAction)
        requires
            rows@.len() == 15,
        ensures
            (final(self)@, r@) == old(self)@.on_mouse(*me, rows@, area, zones_known, found.deep_view()),
    {
        if self.zone_dropdown_open {
            if let Some((x, y)) = mouse::left_click(me) {
                let n: usize = found.len();
                let left: u16 = rows[0].x.saturating_add(6);
                let dd = Rect {
                    x: left,
                    y: rows[0].y.saturating_add(1),
                    width: geometry::min_u16(34, area.width.saturating_sub(left)),
                    height: if n >= 8 {
                        10
                    } else {
                        n as u16 + 2
                    },
                };
                match mouse::table_row_hit(x, y, dd, 0, n, self.zone_idx) {
                    Some(i) => self.pick_zone(i, found),
                    None => self.zone_dropdown_open = false,
                }
            }
            return AddAction::Nothing;
        }
        if let Some(delta) = mouse::scroll_delta(me) {
            if self.pending.len() > 0 && mouse::in_rect(rows[11], me.column, me.row) {
                self.pending_idx = cycle::step(self.pending_idx, delta < 0, self.pending.len());
            }
            return AddAction::Nothing;
        }
        let Some((x, y)) = mouse::left_click(me) else {
            return AddAction::Nothing;
        };
        if self.aim(x, y, rows) {
            return self.handle_key(KeyCode::Enter, zones_known, found);
        }
        self.confirm_discard = false;
        AddAction::Nothing
    }
}

impl EditModalModel {
    pub open spec fn of(r: DnsRecordModel) -> EditModalModel {
        EditModalModel { original: r, form: RecordFormModel::of(r), field: EditField::Form(FormField::Type) }
    }

    pub open spec fn focus(self, field: EditField) -> EditModalModel {
        EditModalModel { field, ..self }
    }

    pub open spec fn next_field(self) -> EditModalModel {
        self.focus(cycle::after(edit_fields(self.form.kind), self.field))
    }

    pub open spec fn prev_field(self) -> EditModalModel {
        self.focus(cycle::before(edit_fields(self.form.kind), self.field))
    }

    pub open spec fn entered(self) -> (EditModalModel, EditAction) {
        match self.field {
            EditField::Form(f) => (if f == FormField::Type || f == FormField::Tag || f == FormField::Proxied {
                EditModalModel { form: self.form.switched(f, false), ..self }
            } else {
                self.next_field()
            }, EditAction::Nothing),
            EditField::BtnUpdate => (self, EditAction::Update),
            EditField::BtnDelete => (self, EditAction::Delete),
            EditField::BtnCancel => (self, EditAction::Close),
        }
    }

    pub open spec fn typed(self, key: KeyCode) -> EditModalModel {
        match self.field {
            EditField::Form(f) => if key == KeyCode::Left || key == KeyCode::Right {
                EditModalModel { form: self.form.switched(f, key == KeyCode::Left).edit(f, key), ..self }
            } else {
                EditModalModel { form: self.form.edit(f, key), ..self }
            },
            _ => self,
        }
    }

    pub open spec fn on_key(self, key: KeyCode) -> (EditModalModel, EditAction) {
        match key {
            KeyCode::Esc => (self, EditAction::Close),
            KeyCode::Tab | KeyCode::Down => (self.next_field(), EditAction::Nothing),
            KeyCode::BackTab | KeyCode::Up => (self.prev_field(), EditAction::Nothing),
            KeyCode::Enter => self.entered(),
            _ => (self.typed(key), EditAction::Nothing),
        }
    }

    pub open spec fn aimed_at(self, hit: Option<(FormField, bool)>) -> (EditModalModel, bool) {
        match hit {
            Some((f, press)) => (self.focus(EditField::Form(f)), press),
            None => (self, false),
        }
    }

    /// What a click on the form means.
    #[verifier::opaque]
    pub open spec fn aimed(self, x: u16, y: u16, rows: Seq<Rect>) -> (EditModalModel, bool) {
        match mouse::button_hit(x, y, rows[6], seq!["Update"@, "Delete"@, "Cancel"@]) {
            Some(i) => (
                self.focus(
                    if i == 0 {
                        EditField::BtnUpdate
                    } else if i == 1 {
                        EditField::BtnDelete
                    } else {
                        EditField::BtnCancel
                    },
                ),
                true,
            ),
            None => if mouse::hits(rows[4], x, y) {
                (self.focus(EditField::Form(FormField::Value)), false)
            } else if mouse::hits(rows[0], x, y) {
                self.aimed_at(self.form.main_hit(x - rows[0].x))
            } else if mouse::hits(rows[2], x, y) {
                self.aimed_at(self.form.extra_hit(x - rows[2].x))
            } else {
                (self, false)
            },
        }
    }

    pub open spec fn on_mouse(self, me: MouseEvent, rows: Seq<Rect>) -> (EditModalModel, EditAction) {
        match mouse::clicked(me) {
            Some((x, y)) => {
                let (m, press) = self.aimed(x, y, rows);
                if press {
                    m.on_key(KeyCode::Enter)
                } else {
                    (m, EditAction::Nothing)
                }
            },
            None => (self, EditAction::Nothing),
        }
    }
}

impl EditModal {
    pub fn new(r: &DnsRecord) -> (m: EditModal)
        ensures
            m@ == EditModalModel::of(r@),
    {
        EditModal { original: r.copy(), form: RecordForm::from_record(r), field: EditField::Form(FormField::Type) }
    }

    pub fn next_field(&mut self)
        ensures
            final(self)@ == old(self)@.next_field(),
    {
        let fields = edit_active_fields(self.form.kind);
        self.field = next_of(&fields, self.field);
    }

    pub fn prev_field(&mut self)
        ensures
            final(self)@ == old(self)@.prev_field(),
    {
        let fields = edit_active_fields(self.form.kind);
        self.field = prev_of(&fields, self.field);
    }

    fn enter(&mut self) -> (r: EditAction)
        ensures
            (final(self)@, r) == old(self)@.entered(),
    {
        match self.field {
            EditField::Form(f) => if f == FormField::Type || f == FormField::Tag || f == FormField::Proxied {
                self.form.switch(f, false);
            } else {
                self.next_field();
            },
            EditField::BtnUpdate => return EditAction::Update,
            EditField::BtnDelete => return EditAction::Delete,
            EditField::BtnCancel => return EditAction::Close,
        }
        EditAction::Nothing
    }

    pub fn handle_key(&mut self, key: KeyCode) -> (r: EditAction)
        ensures
            (final(self)@, r) == old(self)@.on_key(key),
    {
        match key {
            KeyCode::Esc => return EditAction::Close,
            KeyCode::Tab | KeyCode::Down => self.next_field(),
            KeyCode::BackTab | KeyCode::Up => self.prev_field(),
            KeyCode::Enter => return self.enter(),
            _ => {
                if let EditField::Form(f) = self.field {
                    if key == KeyCode::Left || key == KeyCode::Right {
                        self.form.switch(f, key == KeyCode::Left);
                    }
                    self.form.edit(f, key);
                }
            },
        }
        EditAction::Nothing
    }

    pub fn handle_mouse(&mut self, me: &MouseEvent, rows: &Vec<Rect>) -> (r: EditAction)
        requires
            rows@.len() == 10,
        ensures
            (final(self)@, r) == old(self)@.on_mouse(*me, rows@),
    {
        proof {
            reveal(EditModalModel::aimed);
        }
        let Some((x, y)) = mouse::left_click(me) else {
            return EditAction::Nothing;
        };
        let labels = ["Update", "Delete", "Cancel"];
        assert(labels.deep_view() =~= seq!["Update"@, "Delete"@, "Cancel"@]);
        if let Some(i) = mouse::button_row_hit(x, y, rows[6], &labels) {
            self.field = if i == 0 {
                EditField::BtnUpdate
            } else if i == 1 {
                EditField::BtnDelete
            } else {
                EditField::BtnCancel
            };
            return self.handle_key(KeyCode::Enter);
        }
        if mouse::in_rect(rows[4], x, y) {
            self.field = EditField::Form(FormField::Value);
            return EditAction::Nothing;
        }
        let hit = if mouse::in_rect(rows[0], x, y) {
            self.form.main_row_hit((x - rows[0].x) as usize)
        } else if mouse::in_rect(rows[2], x, y) {
            self.form.extra_row_hit((x - rows[2].x) as usize)
        } else {
            None
        };
        if let Some((f, press)) = hit {
            self.field = EditField::Form(f);
            if press {
                return self.handle_key(KeyCode::Enter);
            }
        }
        EditAction::Nothing
    }
}

// --------------------------------------------------------------- records tab

#[derive(Clone, Copy, PartialEq, Eq, Structural, Debug)]
pub enum RecField {
    Account,
    Zone,
    BtnFetch,
    Search,
    TypeFilter,
    BtnFetchAll,
    Table,
    BtnAddRecords,
}

impl RecField {
    pub open spec fn next(self) -> RecField {
        match self {
            RecField::Account => RecField::Zone,
            RecField::Zone => RecField::BtnFetch,
            RecField::BtnFetch => RecField::Search,
            RecField::Search => RecField::TypeFilter,
            RecField::TypeFilter => RecField::BtnFetchAll,
            RecField::BtnFetchAll => RecField::Table,
            RecField::Table => RecField::BtnAddRecords,
            RecField::BtnAddRecords => RecField::Account,
        }
    }

    pub open spec fn prev(self) -> RecField {
        match self {
            RecField::Account => RecField::BtnAddRecords,
            RecField::Zone => RecField::Account,
            RecField::BtnFetch => RecField::Zone,
            RecField::Search => RecField::BtnFetch,
            RecField::TypeFilter => RecField::Search,
            RecField::BtnFetchAll => RecField::TypeFilter,
            RecField::Table => RecField::BtnFetchAll,
            RecField::BtnAddRecords => RecField::Table,
        }
    }
}

/// Which records the table shows by type.
#[derive(Clone, Copy, PartialEq, Eq, Structural, Debug)]
pub enum TypeFilter {
    All,
    Only(RecordType),
}

impl TypeFilter {
    pub open spec fn next(self) -> TypeFilter {
        match self {
            TypeFilter::All => TypeFilter::Only(RecordType::A),
            TypeFilter::Only(RecordType::Caa) => TypeFilter::All,
            TypeFilter::Only(k) => TypeFilter::Only(k.next()),
        }
    }

    pub open spec fn prev(self) -> TypeFilter {
        match self {
            TypeFilter::All => TypeFilter::Only(RecordType::Caa),
            TypeFilter::Only(RecordType::A) => TypeFilter::All,
            TypeFilter::Only(k) => TypeFilter::Only(k.prev()),
        }
    }

    pub open spec fn name(self) -> Seq<char> {
        match self {
            TypeFilter::All => "All"@,
            TypeFilter::Only(k) => k.name(),
        }
    }

    /// Whether a record of that type is shown.
    pub open spec fn admits(self, kind_name: Seq<char>) -> bool {
        match self {
            TypeFilter::All => true,
            TypeFilter::Only(k) => kind_name == k.name(),
        }
    }

    pub fn following(self) -> (r: TypeFilter)
        ensures
            r == self.next(),
    {
        match self {
            TypeFilter::All => TypeFilter::Only(RecordType::A),
            TypeFilter::Only(RecordType::Caa) => TypeFilter::All,
            TypeFilter::Only(k) => TypeFilter::Only(k.following()),
        }
    }

    pub fn preceding(self) -> (r: TypeFilter)
        ensures
            r == self.prev(),
    {
        match self {
            TypeFilter::All => TypeFilter::Only(RecordType::Caa),
            TypeFilter::Only(RecordType::A) => TypeFilter::All,
            TypeFilter::Only(k) => TypeFilter::Only(k.preceding()),
        }
    }

    pub fn label(self) -> (r: &'static str)
        ensures
            r@ == self.name(),
            r@.len() <= 5,
    {
        proof {
            reveal_strlit("All");
            dns_record::lemma_name_lengths();
        }
        match self {
            TypeFilter::All => "All",
            TypeFilter::Only(k) => k.label(),
        }
    }
}

pub struct RecordsTab {
    pub account_input: Input,
    pub account_dropdown_open: bool,
    pub account_idx: usize,
    pub zone: Input,
    pub zone_dropdown_open: bool,
    pub zone_idx: usize,
    /// The zones of the account, once they are listed.
    pub known_zones: Vec<Zone>,
    pub search: Input,
    pub type_filter: TypeFilter,
    /// The records fetched last, before any filter.
    pub rows: Vec<DnsRecord>,
    pub selected_row: usize,
    pub field: RecField,
    pub modal: Option<RecordModal>,
}

pub struct RecordsTabModel {
    pub account_input: InputModel,
    pub account_dropdown_open: bool,
    pub account_idx: int,
    pub zone: InputModel,
    pub zone_dropdown_open: bool,
    pub zone_idx: int,
    pub known_zones: Seq<ZoneModel>,
    pub search: InputModel,
    pub type_filter: TypeFilter,
    pub rows: Seq<DnsRecordModel>,
    pub selected_row: int,
    pub field: RecField,
    pub modal: Option<RecordModalModel>,
}

impl View for RecordsTab {
    type V = RecordsTabModel;

    open spec fn view(&self) -> RecordsTabModel {
        RecordsTabModel {
            account_input: self.account_input@,
            account_dropdown_open: self.account_dropdown_open,
            account_idx: self.account_idx as int,
            zone: self.zone@,
            zone_dropdown_open: self.zone_dropdown_open,
            zone_idx: self.zone_idx as int,
            known_zones: self.known_zones.deep_view(),
            search: self.search@,
            type_filter: self.type_filter,
            rows: self.rows.deep_view(),
            selected_row: self.selected_row as int,
            field: self.field,
            modal: self.modal.deep_view(),
        }
    }
}

impl DeepView for RecordsTab {
    type V = RecordsTabModel;

    open spec fn deep_view(&self) -> RecordsTabModel {
        self@
    }
}

/// What the screen has to do after an event on the records tab.
pub enum RecAction {
    Nothing,
    Fetch,
    /// List the zones of an account that was picked, then fetch.
    Picked(String),
    FetchAll,
    OpenAdd,
    CopyValue(String),
    ScrollHistory(bool),
    SaveAll,
    Update,
    Delete,
    Complain(String),
}

pub enum RecActionModel {
    Nothing,
    Fetch,
    Picked(Seq<char>),
    FetchAll,
    OpenAdd,
    CopyValue(Seq<char>),
    ScrollHistory(bool),
    SaveAll,
    Update,
    Delete,
    Complain(Seq<char>),
}

impl View for RecAction {
    type V = RecActionModel;

    open spec fn view(&self) -> RecActionModel {
        match self {
            RecAction::Nothing => RecActionModel::Nothing,
            RecAction::Fetch => RecActionModel::Fetch,
            RecAction::Picked(a) => RecActionModel::Picked(a@),
            RecAction::FetchAll => RecActionModel::FetchAll,
            RecAction::OpenAdd => RecActionModel::OpenAdd,
            RecAction::CopyValue(a) => RecActionModel::CopyValue(a@),
            RecAction::ScrollHistory(a) => RecActionModel::ScrollHistory(*a),
            RecAction::SaveAll => RecActionModel::SaveAll,
            RecAction::Update => RecActionModel::Update,
            RecAction::Delete => RecActionModel::Delete,
            RecAction::Complain(a) => RecActionModel::Complain(a@),
        }
    }
}

impl DeepView for RecAction {
    type V = RecActionModel;

    open spec fn deep_view(&self) -> RecActionModel {
        self@
    }
}

/// The text of a record that a search looks through.
pub open spec fn haystack(r: DnsRecordModel) -> Seq<char> {
    text::lowercase(r.domain + " "@ + r.subdomain + " "@ + r.type_ + " "@ + r.value)
}

/// Whether a record passes the account, the type and the search. An account
/// that is not saved filters nothing.
pub open spec fn shown(
    r: DnsRecordModel,
    account: Option<Seq<char>>,
    types: TypeFilter,
    search: Seq<char>,
) -> bool {
    &&& match account {
        Some(label) => r.account_label == label,
        None => true,
    }
    &&& types.admits(r.type_)
    &&& search.len() == 0 || text::occurs(haystack(r), search)
}

impl RecordsTabModel {
    pub open spec fn empty() -> RecordsTabModel {
        RecordsTabModel {
            account_input: InputModel::empty(),
            account_dropdown_open: false,
            account_idx: 0,
            zone: InputModel::empty(),
            zone_dropdown_open: false,
            zone_idx: 0,
            known_zones: Seq::empty(),
            search: InputModel::empty(),
            type_filter: TypeFilter::All,
            rows: Seq::empty(),
            selected_row: 0,
            field: RecField::Account,
            modal: None,
        }
    }

    pub open spec fn focus(self, field: RecField) -> RecordsTabModel {
        RecordsTabModel { field, ..self }
    }

    pub open spec fn with_modal(self, modal: Option<RecordModalModel>) -> RecordsTabModel {
        RecordsTabModel { modal, ..self }
    }

    pub open spec fn filtered_by(self, type_filter: TypeFilter) -> RecordsTabModel {
        RecordsTabModel { type_filter, ..self }
    }

    pub open spec fn account_dropdown(self, open: bool) -> RecordsTabModel {
        RecordsTabModel { account_dropdown_open: open, ..self }
    }

    pub open spec fn zone_dropdown(self, open: bool) -> RecordsTabModel {
        RecordsTabModel { zone_dropdown_open: open, ..self }
    }

    /// The account typed, where it is the label of a saved one.
    pub open spec fn account_filter(self, accounts: Seq<AccountModel>) -> Option<Seq<char>> {
        let label = text::trimmed(self.account_input.text);
        if label.len() > 0 && by_label(accounts, label) is Some {
            Some(label)
        } else {
            None
        }
    }

    /// The records that the table shows.
    pub open spec fn visible(self, accounts: Seq<AccountModel>) -> Seq<DnsRecordModel> {
        let account = self.account_filter(accounts);
        let search = text::lowercase(text::trimmed(self.search.text));
        self.rows.filter(|r: DnsRecordModel| shown(r, account, self.type_filter, search))
    }

    /// The record that is selected, the last one where the selection is past the end.
    pub open spec fn current(self, visible: Seq<DnsRecordModel>) -> DnsRecordModel {
        visible[geometry::min_int(self.selected_row, visible.len() - 1)]
    }

    pub open spec fn zones_found(self) -> Seq<Seq<char>> {
        zones_filtered(self.known_zones, self.zone.text)
    }

    /// The account field opened for picking.
    pub open spec fn pick_account(self, cfg: ConfigModel) -> RecordsTabModel {
        if cfg.accounts.len() > 0 {
            RecordsTabModel { account_idx: 0, account_dropdown_open: true, ..self }
        } else {
            self
        }
    }

    /// The zone field opened for picking.
    pub open spec fn pick_zone(self) -> RecordsTabModel {
        if self.known_zones.len() > 0 {
            RecordsTabModel { zone_idx: 0, zone_dropdown_open: true, ..self }
        } else {
            self
        }
    }

    /// Another account is typed: its zones are not known yet.
    pub open spec fn account_edited(self, key: KeyCode) -> RecordsTabModel {
        match key {
            KeyCode::Char(_) | KeyCode::Backspace => RecordsTabModel {
                account_input: self.account_input.edit(key),
                known_zones: Seq::empty(),
                ..self
            },
            _ => RecordsTabModel { account_input: self.account_input.edit(key), ..self },
        }
    }

    pub open spec fn typed(self, key: KeyCode, cfg: ConfigModel) -> RecordsTabModel {
        match self.field {
            RecField::Account => match key {
                KeyCode::Char(_) => self.account_edited(key).pick_account(cfg),
                _ => self.account_edited(key),
            },
            RecField::Zone => match key {
                KeyCode::Char(_) => RecordsTabModel { zone: self.zone.edit(key), ..self }.pick_zone(),
                _ => RecordsTabModel { zone: self.zone.edit(key), ..self },
            },
            RecField::Search => RecordsTabModel { search: self.search.edit(key), ..self },
            _ => self,
        }
    }

    /// Keys while the dropdown of accounts is open. Picking one is meant to
    /// work with it now, so its records are fetched right away.
    pub open spec fn on_account_key(self, key: KeyCode, found: Seq<Seq<char>>) -> (RecordsTabModel, RecActionModel) {
        let n = found.len() as int;
        match key {
            KeyCode::Esc => (self.account_dropdown(false), RecActionModel::Nothing),
            KeyCode::Tab => (self.account_dropdown(false).focus(self.field.next()), RecActionModel::Nothing),
            KeyCode::BackTab => (self.account_dropdown(false).focus(self.field.prev()), RecActionModel::Nothing),
            KeyCode::Up => (
                RecordsTabModel { account_idx: cycle::moved(self.account_idx, true, n), ..self },
                RecActionModel::Nothing,
            ),
            KeyCode::Down => (
                RecordsTabModel { account_idx: cycle::moved(self.account_idx, false, n), ..self },
                RecActionModel::Nothing,
            ),
            KeyCode::Enter => if 0 <= self.account_idx < n {
                (
                    RecordsTabModel {
                        account_input: InputModel::of(found[self.account_idx]),
                        known_zones: Seq::empty(),
                        ..self.account_dropdown(false)
                    },
                    RecActionModel::Picked(found[self.account_idx]),
                )
            } else {
                (self.account_dropdown(false), RecActionModel::Nothing)
            },
            KeyCode::Char(_) | KeyCode::Backspace => (
                RecordsTabModel { account_idx: 0, ..self.account_edited(key) },
                RecActionModel::Nothing,
            ),
            _ => (self.account_edited(key), RecActionModel::Nothing),
        }
    }

    /// Keys while the dropdown of zones is open.
    pub open spec fn on_zone_key(self, key: KeyCode) -> (RecordsTabModel, RecActionModel) {
        let found = self.zones_found();
        let n = found.len() as int;
        match key {
            KeyCode::Esc => (self.zone_dropdown(false), RecActionModel::Nothing),
            KeyCode::Tab => (self.zone_dropdown(false).focus(self.field.next()), RecActionModel::Nothing),
            KeyCode::BackTab => (self.zone_dropdown(false).focus(self.field.prev()), RecActionModel::Nothing),
            KeyCode::Up => (
                RecordsTabModel { zone_idx: cycle::moved(self.zone_idx, true, n), ..self },
                RecActionModel::Nothing,
            ),
            KeyCode::Down => (
                RecordsTabModel { zone_idx: cycle::moved(self.zone_idx, false, n), ..self },
                RecActionModel::Nothing,
            ),
            KeyCode::Enter => if 0 <= self.zone_idx < n {
                (
                    RecordsTabModel { zone: InputModel::of(found[self.zone_idx]), ..self.zone_dropdown(false) },
                    RecActionModel::Fetch,
                )
            } else {
                (self.zone_dropdown(false), RecActionModel::Nothing)
            },
            KeyCode::Char(_) | KeyCode::Backspace => (
                RecordsTabModel { zone: self.zone.edit(key), zone_idx: 0, ..self },
                RecActionModel::Nothing,
            ),
            _ => (RecordsTabModel { zone: self.zone.edit(key), ..self }, RecActionModel::Nothing),
        }
    }

    /// The keys that the table takes for itself, with what they do.
    #[verifier::opaque]
    pub open spec fn on_table_key(
        self,
        key: KeyCode,
        visible: Seq<DnsRecordModel>,
    ) -> Option<(RecordsTabModel, RecActionModel)> {
        let n = visible.len() as int;
        if self.field != RecField::Table || n == 0 {
            None
        } else {
            match key {
                KeyCode::Up => Some(
                    (
                        RecordsTabModel { selected_row: cycle::moved(self.selected_row, true, n), ..self },
                        RecActionModel::Nothing,
                    ),
                ),
                KeyCode::Down => Some(
                    (
                        RecordsTabModel { selected_row: cycle::moved(self.selected_row, false, n), ..self },
                        RecActionModel::Nothing,
                    ),
                ),
                KeyCode::Enter => Some(
                    (
                        self.with_modal(Some(RecordModalModel::Edit(EditModalModel::of(self.current(visible))))),
                        RecActionModel::Nothing,
                    ),
                ),
                KeyCode::Char(c) => if c == 'y' {
                    Some((self, RecActionModel::CopyValue(self.current(visible).value)))
                } else {
                    None
                },
                _ => None,
            }
        }
    }

    pub open spec fn entered(self, cfg: ConfigModel) -> (RecordsTabModel, RecActionModel) {
        match self.field {
            RecField::Account => (self.pick_account(cfg), RecActionModel::Nothing),
            RecField::Zone => (self.pick_zone(), RecActionModel::Nothing),
            RecField::BtnFetch => (self, RecActionModel::Fetch),
            RecField::TypeFilter => (self.filtered_by(self.type_filter.next()), RecActionModel::Nothing),
            RecField::BtnFetchAll => (self, RecActionModel::FetchAll),
            RecField::BtnAddRecords => (self, RecActionModel::OpenAdd),
            _ => (self.focus(self.field.next()), RecActionModel::Nothing),
        }
    }

    /// Keys on the form, with nothing open over it.
    #[verifier::opaque]
    pub open spec fn on_form_key(self, key: KeyCode, cfg: ConfigModel) -> (RecordsTabModel, RecActionModel) {
        match key {
            KeyCode::Tab | KeyCode::Down => (self.focus(self.field.next()), RecActionModel::Nothing),
            KeyCode::BackTab | KeyCode::Up => (self.focus(self.field.prev()), RecActionModel::Nothing),
            KeyCode::Enter => self.entered(cfg),
            KeyCode::Left => (if self.field == RecField::TypeFilter {
                self.filtered_by(self.type_filter.prev())
            } else {
                self.typed(key, cfg)
            }, RecActionModel::Nothing),
            KeyCode::Right => (if self.field == RecField::TypeFilter {
                self.filtered_by(self.type_filter.next())
            } else {
                self.typed(key, cfg)
            }, RecActionModel::Nothing),
            _ => (self.typed(key, cfg), RecActionModel::Nothing),
        }
    }

    /// The tab with what came of the add modal.
    pub open spec fn add_done(self, m: AddModalModel, a: AddActionModel) -> (RecordsTabModel, RecActionModel) {
        match a {
            AddActionModel::Nothing => (
                self.with_modal(Some(RecordModalModel::Add(m))),
                RecActionModel::Nothing,
            ),
            AddActionModel::Close => (self.with_modal(None), RecActionModel::Nothing),
            AddActionModel::SaveAll => (
                self.with_modal(Some(RecordModalModel::Add(m))),
                RecActionModel::SaveAll,
            ),
            AddActionModel::Complain(e) => (
                self.with_modal(Some(RecordModalModel::Add(m))),
                RecActionModel::Complain(e),
            ),
        }
    }

    /// The tab with what came of the edit modal.
    pub open spec fn edit_done(self, m: EditModalModel, a: EditAction) -> (RecordsTabModel, RecActionModel) {
        match a {
            EditAction::Nothing => (
                self.with_modal(Some(RecordModalModel::Edit(m))),
                RecActionModel::Nothing,
            ),
            EditAction::Close => (self.with_modal(None), RecActionModel::Nothing),
            EditAction::Update => (self.with_modal(Some(RecordModalModel::Edit(m))), RecActionModel::Update),
            EditAction::Delete => (self.with_modal(Some(RecordModalModel::Edit(m))), RecActionModel::Delete),
        }
    }

    #[verifier::opaque]
    pub open spec fn on_modal_key(self, m: RecordModalModel, key: KeyCode) -> (RecordsTabModel, RecActionModel) {
        match m {
            RecordModalModel::Add(m) => {
                let r = m.on_key(key, self.known_zones.len() > 0, zones_filtered(self.known_zones, m.zone.text));
                self.add_done(r.0, r.1)
            },
            RecordModalModel::Edit(m) => {
                let r = m.on_key(key);
                self.edit_done(r.0, r.1)
            },
        }
    }

    /// The tab after a key.
    pub open spec fn on_key(self, key: KeyCode, cfg: ConfigModel) -> (RecordsTabModel, RecActionModel) {
        match self.modal {
            Some(m) => self.with_modal(None).on_modal_key(m, key),
            None => if self.account_dropdown_open {
                self.on_account_key(key, cfg.filtered(self.account_input.text))
            } else if self.zone_dropdown_open {
                self.on_zone_key(key)
            } else {
                match self.on_table_key(key, self.visible(cfg.accounts)) {
                    Some(r) => r,
                    None => self.on_form_key(key, cfg),
                }
            },
        }
    }

    #[verifier::opaque]
    pub open spec fn on_modal_mouse(
        self,
        m: RecordModalModel,
        me: MouseEvent,
        l: CloudflareLayoutModel,
    ) -> (RecordsTabModel, RecActionModel) {
        match m {
            RecordModalModel::Add(m) => {
                let r = m.on_mouse(
                    me,
                    l.add,
                    l.area,
                    self.known_zones.len() > 0,
                    zones_filtered(self.known_zones, m.zone.text),
                );
                self.add_done(r.0, r.1)
            },
            RecordModalModel::Edit(m) => {
                let r = m.on_mouse(me, l.edit);
                self.edit_done(r.0, r.1)
            },
        }
    }

    /// The column of the row of the zone where the button starts.
    pub open spec fn fetch_column(row: Rect) -> int {
        12 + geometry::less(row.width as int, 30) + 2
    }

    /// The column after the button of the type.
    pub open spec fn type_end(self) -> int {
        6 + self.type_filter.name().len() as int + 4
    }

    /// A click on the row of the type.
    pub open spec fn type_row_clicked(self, off: int) -> (RecordsTabModel, RecActionModel) {
        if 6 <= off < self.type_end() {
            (self.filtered_by(self.type_filter.next()), RecActionModel::Nothing)
        } else if self.type_end() + 10 <= off < self.type_end() + 10 + 22 {
            (self, RecActionModel::FetchAll)
        } else {
            (self.focus(RecField::TypeFilter), RecActionModel::Nothing)
        }
    }

    #[verifier::opaque]
    pub open spec fn clicked(
        self,
        x: u16,
        y: u16,
        l: CloudflareLayoutModel,
        cfg: ConfigModel,
    ) -> (RecordsTabModel, RecActionModel) {
        let visible = self.visible(cfg.accounts);
        if mouse::hits(l.top[0], x, y) {
            (self.focus(RecField::Account).pick_account(cfg), RecActionModel::Nothing)
        } else if mouse::hits(l.top[2], x, y) {
            if x - l.top[2].x >= RecordsTabModel::fetch_column(l.top[2]) {
                (self, RecActionModel::Fetch)
            } else {
                (self.focus(RecField::Zone).pick_zone(), RecActionModel::Nothing)
            }
        } else if mouse::hits(l.search[0], x, y) {
            (self.focus(RecField::Search), RecActionModel::Nothing)
        } else if mouse::hits(l.search[2], x, y) {
            self.type_row_clicked(x - l.search[2].x)
        } else {
            match mouse::table_hit(x, y, l.records[2], 1, visible.len() as int, self.selected_row) {
                Some(i) => (
                    RecordsTabModel {
                        selected_row: i as int,
                        modal: Some(RecordModalModel::Edit(EditModalModel::of(visible[i as int]))),
                        ..self.focus(RecField::Table)
                    },
                    RecActionModel::Nothing,
                ),
                None => if mouse::button_hit(x, y, l.actions[0], seq!["Add Record(s)"@]) is Some {
                    (self, RecActionModel::OpenAdd)
                } else {
                    (self, RecActionModel::Nothing)
                },
            }
        }
    }

    /// The tab after a mouse event. A modal keeps every event from what is
    /// behind it. A dropdown is closed by a click anywhere and keeps the wheel
    /// from what is behind it.
    #[verifier::opaque]
    pub open spec fn on_mouse(
        self,
        me: MouseEvent,
        l: CloudflareLayoutModel,
        cfg: ConfigModel,
    ) -> (RecordsTabModel, RecActionModel) {
        if self.modal is Some {
            (self, RecActionModel::Nothing)
        } else if self.account_dropdown_open || self.zone_dropdown_open {
            (if mouse::clicked(me) is Some {
                self.account_dropdown(false).zone_dropdown(false)
            } else {
                self
            }, RecActionModel::Nothing)
        } else {
            match mouse::scrolled(me) {
                Some(d) => {
                    let n = self.visible(cfg.accounts).len() as int;
                    if n > 0 && mouse::hits(l.records[2], me.column, me.row) {
                        (
                            RecordsTabModel { selected_row: cycle::moved(self.selected_row, d < 0, n), ..self },
                            RecActionModel::Nothing,
                        )
                    } else if mouse::hits(l.records[4], me.column, me.row) {
                        (self, RecActionModel::ScrollHistory(d < 0))
                    } else {
                        (self, RecActionModel::Nothing)
                    }
                },
                None => match mouse::clicked(me) {
                    Some((x, y)) => self.clicked(x, y, l, cfg),
                    None => (self, RecActionModel::Nothing),
                },
            }
        }
    }
}

impl RecordsTab {
    pub fn new() -> (r: RecordsTab)
        ensures
            r@ == RecordsTabModel::empty(),
    {
        let r = RecordsTab {
            account_input: Input::default(),
            account_dropdown_open: false,
            account_idx: 0,
            zone: Input::default(),
            zone_dropdown_open: false,
            zone_idx: 0,
            known_zones: Vec::new(),
            search: Input::default(),
            type_filter: TypeFilter::All,
            rows: Vec::new(),
            selected_row: 0,
            field: RecField::Account,
            modal: None,
        };
        assert(r@.known_zones =~= Seq::empty());
        assert(r@.rows =~= Seq::empty());
        r
    }

    pub fn next_field(&mut self)
        ensures
            final(self)@ == old(self)@.focus(old(self)@.field.next()),
    {
        self.field = match self.field {
            RecField::Account => RecField::Zone,
            RecField::Zone => RecField::BtnFetch,
            RecField::BtnFetch => RecField::Search,
            RecField::Search => RecField::TypeFilter,
            RecField::TypeFilter => RecField::BtnFetchAll,
            RecField::BtnFetchAll => RecField::Table,
            RecField::Table => RecField::BtnAddRecords,
            RecField::BtnAddRecords => RecField::Account,
        };
    }

    pub fn prev_field(&mut self)
        ensures
            final(self)@ == old(self)@.focus(old(self)@.field.prev()),
    {
        self.field = match self.field {
            RecField::Account => RecField::BtnAddRecords,
            RecField::Zone => RecField::Account,
            RecField::BtnFetch => RecField::Zone,
            RecField::Search => RecField::BtnFetch,
            RecField::TypeFilter => RecField::Search,
            RecField::BtnFetchAll => RecField::TypeFilter,
            RecField::Table => RecField::BtnFetchAll,
            RecField::BtnAddRecords => RecField::Table,
        };
    }

    /// The zone id of what is typed or picked.
    pub fn zone_id_for(&self, name: &str) -> (r: Option<String>)
        ensures
            r.deep_view() == zone_id(self@.known_zones, name@),
    {
        zone_id_for(&self.known_zones, name)
    }

    fn forget_zones(&mut self)
        ensures
            final(self)@ == (RecordsTabModel { known_zones: Seq::empty(), ..old(self)@ }),
    {
        self.known_zones = Vec::new();
        assert(self@.known_zones =~= Seq::empty());
    }

    fn is_shown(&self, r: &DnsRecord, label: &str, by_account: bool, search: &str) -> (b: bool)
        ensures
            b == shown(
                r@,
                if by_account {
                    Some(label@)
                } else {
                    None
                },
                self@.type_filter,
                search@,
            ),
    {
        if by_account && !text::same(r.account_label.as_str(), label) {
            return false;
        }
        if let TypeFilter::Only(k) = self.type_filter {
            if !text::same(r.type_.as_str(), k.label()) {
                return false;
            }
        }
        if search.is_empty() {
            return true;
        }
        let front = text::cat5(r.domain.as_str(), " ", r.subdomain.as_str(), " ", r.type_.as_str());
        let all = text::cat3(front.as_str(), " ", r.value.as_str());
        assert(all@ =~= r.domain@ + " "@ + r.subdomain@ + " "@ + r.type_@ + " "@ + r.value@);
        text::lower_contains(all.as_str(), search)
    }

    /// The records that the table shows: a search over everything that is
    /// loaded, cut down by account and type.
    pub fn visible_rows(&self, cfg: &Config) -> (r: Vec<&DnsRecord>)
        ensures
            r.deep_view() == self@.visible(cfg@.accounts),
    {
        let label = self.account_input.trimmed();
        let by_account = !label.as_str().is_empty() && cfg.find_label(label.as_str()).is_some();
        let search = text::trim_lower(self.search.value().as_str());
        let ghost account = self@.account_filter(cfg@.accounts);
        let ghost keep = |r: DnsRecordModel| shown(r, account, self@.type_filter, search@);
        let ghost all = self.rows.deep_view();
        let mut r: Vec<&DnsRecord> = Vec::new();
        let mut i: usize = 0;
        proof {
            reveal(Seq::filter);
            assert(all.take(0) =~= Seq::empty());
            assert(r.deep_view() =~= Seq::<DnsRecordModel>::empty().filter(keep));
        }
        while i < self.rows.len()
            invariant
                i <= self.rows@.len(),
                all == self.rows.deep_view(),
                account == (if by_account {
                    Some(label@)
                } else {
                    None
                }),
                keep == (|r: DnsRecordModel| shown(r, account, self@.type_filter, search@)),
                r.deep_view() == all.take(i as int).filter(keep),
            decreases self.rows@.len() - i,
        {
            proof {
                reveal(Seq::filter);
                assert(all.take(i + 1).drop_last() =~= all.take(i as int));
                assert(all.take(i + 1).last() == self.rows@[i as int]@);
            }
            if self.is_shown(&self.rows[i], label.as_str(), by_account, search.as_str()) {
                let ghost before = r.deep_view();
                r.push(&self.rows[i]);
                assert(r.deep_view() =~= before.push(self.rows@[i as int]@));
            }
            i = i + 1;
        }
        assert(all.take(all.len() as int) =~= all);
        r
    }

    fn pick_account(&mut self, cfg: &Config)
        ensures
            final(self)@ == old(self)@.pick_account(cfg@),
    {
        if cfg.accounts.len() > 0 {
            self.account_idx = 0;
            self.account_dropdown_open = true;
        }
    }

    fn pick_zone(&mut self)
        ensures
            final(self)@ == old(self)@.pick_zone(),
    {
        if self.known_zones.len() > 0 {
            self.zone_idx = 0;
            self.zone_dropdown_open = true;
        }
    }

    fn edit_account(&mut self, key: KeyCode)
        ensures
            final(self)@ == old(self)@.account_edited(key),
    {
        self.account_input.edit(key);
        match key {
            KeyCode::Char(_) | KeyCode::Backspace => self.forget_zones(),
            _ => {},
        }
    }

    fn type_key(&mut self, key: KeyCode, cfg: &Config)
        ensures
            final(self)@ == old(self)@.typed(key, cfg@),
    {
        match self.field {
            RecField::Account => {
                self.edit_account(key);
                if let KeyCode::Char(_) = key {
                    self.pick_account(cfg);
                }
            },
            RecField::Zone => {
                self.zone.edit(key);
                if let KeyCode::Char(_) = key {
                    self.pick_zone();
                }
            },
            RecField::Search => self.search.edit(key),
            _ => {},
        }
    }

    pub fn handle_account_dropdown_key(&mut self, key: KeyCode, cfg: &Config) -> (r: RecAction)
        ensures
            (final(self)@, r@) == old(self)@.on_account_key(key, cfg@.filtered(old(self)@.account_input.text)),
    {
        let typed = self.account_input.value();
        let found = filtered_accounts(cfg, typed.as_str());
        match key {
            KeyCode::Esc => self.account_dropdown_open = false,
            KeyCode::Tab => {
                self.account_dropdown_open = false;
                self.next_field();
            },
            KeyCode::BackTab => {
                self.account_dropdown_open = false;
                self.prev_field();
            },
            KeyCode::Up => self.account_idx = cycle::step(self.account_idx, true, found.len()),
            KeyCode::Down => self.account_idx = cycle::step(self.account_idx, false, found.len()),
            KeyCode::Enter => {
                let i: usize = self.account_idx;
                self.account_dropdown_open = false;
                if i < found.len() {
                    assert(found.deep_view()[i as int] == found@[i as int]@);
                    self.account_input = Input::new(found[i].as_str());
                    self.forget_zones();
                    return RecAction::Picked(found[i].clone());
                }
            },
            KeyCode::Char(_) | KeyCode::Backspace => {
                self.edit_account(key);
                self.account_idx = 0;
            },
            _ => self.edit_account(key),
        }
        RecAction::Nothing
    }

    pub fn handle_zone_dropdown_key(&mut self, key: KeyCode) -> (r: RecAction)
        ensures
            (final(self)@, r@) == old(self)@.on_zone_key(key),
    {
        let typed = self.zone.value();
        let found = filtered_zones(&self.known_zones, typed.as_str());
        match key {
            KeyCode::Esc => self.zone_dropdown_open = false,
            KeyCode::Tab => {
                self.zone_dropdown_open = false;
                self.next_field();
            },
            KeyCode::BackTab => {
                self.zone_dropdown_open = false;
                self.prev_field();
            },
            KeyCode::Up => self.zone_idx = cycle::step(self.zone_idx, true, found.len()),
            KeyCode::Down => self.zone_idx = cycle::step(self.zone_idx, false, found.len()),
            KeyCode::Enter => {
                let i: usize = self.zone_idx;
                self.zone_dropdown_open = false;
                if i < found.len() {
                    assert(found.deep_view()[i as int] == found@[i as int]@);
                    self.zone = Input::new(found[i].as_str());
                    return RecAction::Fetch;
                }
            },
            KeyCode::Char(_) | KeyCode::Backspace => {
                self.zone.edit(key);
                self.zone_idx = 0;
            },
            _ => self.zone.edit(key),
        }
        RecAction::Nothing
    }

    fn current(&self, visible: &Vec<&DnsRecord>) -> (r: DnsRecord)
        requires
            visible@.len() > 0,
        ensures
            r@ == self@.current(visible.deep_view()),
    {
        let n: usize = visible.len();
        let i: usize = if self.selected_row < n {
            self.selected_row
        } else {
            n - 1
        };
        assert(visible.deep_view()[i as int] == visible@[i as int]@);
        visible[i].copy()
    }

    fn handle_table_key(&mut self, key: KeyCode, cfg: &Config) -> (r: Option<RecAction>)
        ensures
            match r {
                Some(a) => old(self)@.on_table_key(key, old(self)@.visible(cfg@.accounts)) == Some((final(self)@, a@)),
                None => old(self)@.on_table_key(key, old(self)@.visible(cfg@.accounts)) is None && final(self)@
                    == old(self)@,
            },
    {
        proof {
            reveal(RecordsTabModel::on_table_key);
        }
        if self.field != RecField::Table {
            return None;
        }
        let visible = self.visible_rows(cfg);
        let n: usize = visible.len();
        if n == 0 {
            return None;
        }
        match key {
            KeyCode::Up => self.selected_row = cycle::step(self.selected_row, true, n),
            KeyCode::Down => self.selected_row = cycle::step(self.selected_row, false, n),
            KeyCode::Enter => {
                let record = self.current(&visible);
                self.modal = Some(RecordModal::Edit(EditModal::new(&record)));
            },
            KeyCode::Char(c) => {
                if c != 'y' {
                    return None;
                }
                let record = self.current(&visible);
                return Some(RecAction::CopyValue(record.value));
            },
            _ => {
                return None;
            },
        }
        Some(RecAction::Nothing)
    }

    fn enter(&mut self, cfg: &Config) -> (r: RecAction)
        ensures
            (final(self)@, r@) == old(self)@.entered(cfg@),
    {
        match self.field {
            RecField::Account => self.pick_account(cfg),
            RecField::Zone => self.pick_zone(),
            RecField::BtnFetch => return RecAction::Fetch,
            RecField::TypeFilter => self.type_filter = self.type_filter.following(),
            RecField::BtnFetchAll => return RecAction::FetchAll,
            RecField::BtnAddRecords => return RecAction::OpenAdd,
            _ => self.next_field(),
        }
        RecAction::Nothing
    }

    fn handle_form_key(&mut self, key: KeyCode, cfg: &Config) -> (r: RecAction)
        ensures
            (final(self)@, r@) == old(self)@.on_form_key(key, cfg@),
    {
        proof {
            reveal(RecordsTabModel::on_form_key);
        }
        match key {
            KeyCode::Tab | KeyCode::Down => self.next_field(),
            KeyCode::BackTab | KeyCode::Up => self.prev_field(),
            KeyCode::Enter => return self.enter(cfg),
            KeyCode::Left => if self.field == RecField::TypeFilter {
                self.type_filter = self.type_filter.preceding();
            } else {
                self.type_key(key, cfg);
            },
            KeyCode::Right => if self.field == RecField::TypeFilter {
                self.type_filter = self.type_filter.following();
            } else {
                self.type_key(key, cfg);
            },
            _ => self.type_key(key, cfg),
        }
        RecAction::Nothing
    }

    fn end_add(&mut self, m: AddModal, a: AddAction) -> (r: RecAction)
        ensures
            (final(self)@, r@) == old(self)@.add_done(m@, a@),
    {
        self.modal = None;
        match a {
            AddAction::Nothing => self.modal = Some(RecordModal::Add(m)),
            AddAction::Close => {},
            AddAction::SaveAll => {
                self.modal = Some(RecordModal::Add(m));
                return RecAction::SaveAll;
            },
            AddAction::Complain(e) => {
                self.modal = Some(RecordModal::Add(m));
                return RecAction::Complain(e);
            },
        }
        RecAction::Nothing
    }

    fn end_edit(&mut self, m: EditModal, a: EditAction) -> (r: RecAction)
        ensures
            (final(self)@, r@) == old(self)@.edit_done(m@, a),
    {
        self.modal = None;
        match a {
            EditAction::Nothing => self.modal = Some(RecordModal::Edit(m)),
            EditAction::Close => {},
            EditAction::Update => {
                self.modal = Some(RecordModal::Edit(m));
                return RecAction::Update;
            },
            EditAction::Delete => {
                self.modal = Some(RecordModal::Edit(m));
                return RecAction::Delete;
            },
        }
        RecAction::Nothing
    }

    pub fn handle_record_modal_key(&mut self, m: RecordModal, key: KeyCode) -> (r: RecAction)
        ensures
            (final(self)@, r@) == old(self)@.on_modal_key(m@, key),
    {
        proof {
            reveal(RecordsTabModel::on_modal_key);
        }
        let known = self.known_zones.len() > 0;
        match m {
            RecordModal::Add(m) => {
                let mut m = m;
                let typed = m.zone.value();
                let found = filtered_zones(&self.known_zones, typed.as_str());
                let a = m.handle_key(key, known, &found);
                self.end_add(m, a)
            },
            RecordModal::Edit(m) => {
                let mut m = m;
                let a = m.handle_key(key);
                self.end_edit(m, a)
            },
        }
    }

    pub fn handle_key(&mut self, key: KeyCode, cfg: &Config) -> (r: RecAction)
        ensures
            (final(self)@, r@) == old(self)@.on_key(key, cfg@),
    {
        let mut modal: Option<RecordModal> = None;
        std::mem::swap(&mut modal, &mut self.modal);
        if let Some(m) = modal {
            return self.handle_record_modal_key(m, key);
        }
        if self.account_dropdown_open {
            return self.handle_account_dropdown_key(key, cfg);
        }
        if self.zone_dropdown_open {
            return self.handle_zone_dropdown_key(key);
        }
        match self.handle_table_key(key, cfg) {
            Some(a) => a,
            None => self.handle_form_key(key, cfg),
        }
    }

    pub fn handle_record_modal_mouse(&mut self, m: RecordModal, me: &MouseEvent, l: &CloudflareLayout) -> (r: RecAction)
        requires
            l@.complete(),
        ensures
            (final(self)@, r@) == old(self)@.on_modal_mouse(m@, *me, l@),
    {
        proof {
            reveal(RecordsTabModel::on_modal_mouse);
        }
        let known = self.known_zones.len() > 0;
        match m {
            RecordModal::Add(m) => {
                let mut m = m;
                let typed = m.zone.value();
                let found = filtered_zones(&self.known_zones, typed.as_str());
                let a = m.handle_mouse(me, &l.add, l.area, known, &found);
                self.end_add(m, a)
            },
            RecordModal::Edit(m) => {
                let mut m = m;
                let a = m.handle_mouse(me, &l.edit);
                self.end_edit(m, a)
            },
        }
    }

    fn click_type_row(&mut self, off: usize) -> (r: RecAction)
        ensures
            (final(self)@, r@) == old(self)@.type_row_clicked(off as int),
    {
        let name = text::chars_of(self.type_filter.label());
        let end: usize = 6 + name.len() + 4;
        if 6 <= off && off < end {
            self.type_filter = self.type_filter.following();
        } else if end + 10 <= off && off < end + 10 + 22 {
            return RecAction::FetchAll;
        } else {
            self.field = RecField::TypeFilter;
        }
        RecAction::Nothing
    }

    fn click(&mut self, x: u16, y: u16, l: &CloudflareLayout, cfg: &Config) -> (r: RecAction)
        requires
            l@.complete(),
        ensures
            (final(self)@, r@) == old(self)@.clicked(x, y, l@, cfg@),
    {
        proof {
            reveal(RecordsTabModel::clicked);
        }
        if mouse::in_rect(l.top[0], x, y) {
            self.field = RecField::Account;
            self.pick_account(cfg);
            return RecAction::Nothing;
        }
        if mouse::in_rect(l.top[2], x, y) {
            let off: u16 = x - l.top[2].x;
            let start: u32 = 12 + l.top[2].width.saturating_sub(30) as u32 + 2;
            if off as u32 >= start {
                return RecAction::Fetch;
            }
            self.field = RecField::Zone;
            self.pick_zone();
            return RecAction::Nothing;
        }
        if mouse::in_rect(l.search[0], x, y) {
            self.field = RecField::Search;
            return RecAction::Nothing;
        }
        if mouse::in_rect(l.search[2], x, y) {
            return self.click_type_row((x - l.search[2].x) as usize);
        }
        let visible = self.visible_rows(cfg);
        if let Some(i) = mouse::table_row_hit(x, y, l.records[2], 1, visible.len(), self.selected_row) {
            assert(visible.deep_view()[i as int] == visible@[i as int]@);
            let modal = EditModal::new(visible[i]);
            self.field = RecField::Table;
            self.selected_row = i;
            self.modal = Some(RecordModal::Edit(modal));
            return RecAction::Nothing;
        }
        let labels = ["Add Record(s)"];
        assert(labels.deep_view() =~= seq!["Add Record(s)"@]);
        if mouse::button_row_hit(x, y, l.actions[0], &labels).is_some() {
            return RecAction::OpenAdd;
        }
        RecAction::Nothing
    }

    /// A mouse event on the tab; a modal over it keeps the event away.
    pub fn handle_mouse(&mut self, me: &MouseEvent, l: &CloudflareLayout, cfg: &Config) -> (r: RecAction)
        requires
            l@.complete(),
        ensures
            (final(self)@, r@) == old(self)@.on_mouse(*me, l@, cfg@),
    {
        proof {
            reveal(RecordsTabModel::on_mouse);
        }
        if self.modal.is_some() {
            return RecAction::Nothing;
        }
        if self.account_dropdown_open || self.zone_dropdown_open {
            if mouse::left_click(me).is_some() {
                self.account_dropdown_open = false;
                self.zone_dropdown_open = false;
            }
            return RecAction::Nothing;
        }
        if let Some(delta) = mouse::scroll_delta(me) {
            let n: usize = self.visible_rows(cfg).len();
            if n > 0 && mouse::in_rect(l.records[2], me.column, me.row) {
                self.selected_row = cycle::step(self.selected_row, delta < 0, n);
            } else if mouse::in_rect(l.records[4], me.column, me.row) {
                return RecAction::ScrollHistory(delta < 0);
            }
            return RecAction::Nothing;
        }
        match mouse::left_click(me) {
            Some((x, y)) => self.click(x, y, l, cfg),
            None => RecAction::Nothing,
        }
    }
}

// -------------------------------------------------------------------- screen

/// Work that the screen hands out.
pub enum Request {
    SaveAccount { id: Option<String>, label: String, api_token: String },
    DeleteAccount { id: String, label: String },
    TestToken(String),
    ListZones(AccountWithSecret),
    FetchAccount(AccountWithSecret),
    FetchZone { account: AccountWithSecret, zone_id: String, zone_name: String },
    FetchAll(Vec<AccountWithSecret>),
    /// Create records in a zone, then fetch the zone.
    AddRecords { account: AccountWithSecret, zone_id: String, zone_name: String, batch: Vec<DnsRecordInput> },
    /// Change a record, then fetch the zone under the name `refresh`.
    UpdateRecord { account: AccountWithSecret, original: DnsRecord, input: DnsRecordInput, refresh: String },
    /// Delete a record, then fetch the zone under the name `refresh`.
    DeleteRecord { account: AccountWithSecret, original: DnsRecord, refresh: String },
    CopyValue(String),
    CopyHistory,
}

pub enum RequestModel {
    SaveAccount { id: Option<Seq<char>>, label: Seq<char>, api_token: Seq<char> },
    DeleteAccount { id: Seq<char>, label: Seq<char> },
    TestToken(Seq<char>),
    ListZones(AccountWithSecretModel),
    FetchAccount(AccountWithSecretModel),
    FetchZone { account: AccountWithSecretModel, zone_id: Seq<char>, zone_name: Seq<char> },
    FetchAll(Seq<AccountWithSecretModel>),
    AddRecords { account: AccountWithSecretModel, zone_id: Seq<char>, zone_name: Seq<char>, batch: Seq<DnsRecordInputModel> },
    UpdateRecord { account: AccountWithSecretModel, original: DnsRecordModel, input: DnsRecordInputModel, refresh: Seq<char> },
    DeleteRecord { account: AccountWithSecretModel, original: DnsRecordModel, refresh: Seq<char> },
    CopyValue(Seq<char>),
    CopyHistory,
}

impl View for Request {
    type V = RequestModel;

    open spec fn view(&self) -> RequestModel {
        match self {
            Request::SaveAccount { id, label, api_token } => RequestModel::SaveAccount { id: id.deep_view(), label: label@, api_token: api_token@ },
            Request::DeleteAccount { id, label } => RequestModel::DeleteAccount { id: id@, label: label@ },
            Request::TestToken(a) => RequestModel::TestToken(a@),
            Request::ListZones(a) => RequestModel::ListZones(a@),
            Request::FetchAccount(a) => RequestModel::FetchAccount(a@),
            Request::FetchZone { account, zone_id, zone_name } => RequestModel::FetchZone { account: account@, zone_id: zone_id@, zone_name: zone_name@ },
            Request::FetchAll(a) => RequestModel::FetchAll(a.deep_view()),
            Request::AddRecords { account, zone_id, zone_name, batch } => RequestModel::AddRecords { account: account@, zone_id: zone_id@, zone_name: zone_name@, batch: batch.deep_view() },
            Request::UpdateRecord { account, original, input, refresh } => RequestModel::UpdateRecord { account: account@, original: original@, input: input@, refresh: refresh@ },
            Request::DeleteRecord { account, original, refresh } => RequestModel::DeleteRecord { account: account@, original: original@, refresh: refresh@ },
            Request::CopyValue(a) => RequestModel::CopyValue(a@),
            Request::CopyHistory => RequestModel::CopyHistory,
        }
    }
}

impl DeepView for Request {
    type V = RequestModel;

    open spec fn deep_view(&self) -> RequestModel {
        self@
    }
}

/// What came of the work.
pub enum Msg {
    AccountSaved(Config),
    SaveFailed { cfg: Config, error: String },
    AccountDeleted { cfg: Config, label: String },
    DeleteFailed { cfg: Config, error: String },
    TokenValid(usize),
    TokenFailed(String),
    Zones(Vec<Zone>),
    ZonesFailed(String),
    Records { records: Vec<DnsRecord>, zones: usize, skipped: usize },
    RecordsFailed(String),
    /// An account that could not be read while all were fetched.
    AccountFailed { label: String, error: String },
    /// Each record of a batch, with the error where it was refused.
    BatchAdded { zone_name: String, results: Vec<(DnsRecordInput, Option<String>)> },
    Updated { zone_name: String, input: DnsRecordInput },
    UpdateFailed { zone_name: String, input: DnsRecordInput, error: String },
    Deleted(DnsRecord),
    DeleteRecordFailed { record: DnsRecord, error: String },
    ValueCopied { ok: bool, value: String },
    HistoryCopied(bool),
}

pub enum MsgModel {
    AccountSaved(ConfigModel),
    SaveFailed { cfg: ConfigModel, error: Seq<char> },
    AccountDeleted { cfg: ConfigModel, label: Seq<char> },
    DeleteFailed { cfg: ConfigModel, error: Seq<char> },
    TokenValid(int),
    TokenFailed(Seq<char>),
    Zones(Seq<ZoneModel>),
    ZonesFailed(Seq<char>),
    Records { records: Seq<DnsRecordModel>, zones: int, skipped: int },
    RecordsFailed(Seq<char>),
    AccountFailed { label: Seq<char>, error: Seq<char> },
    BatchAdded { zone_name: Seq<char>, results: Seq<(DnsRecordInputModel, Option<Seq<char>>)> },
    Updated { zone_name: Seq<char>, input: DnsRecordInputModel },
    UpdateFailed { zone_name: Seq<char>, input: DnsRecordInputModel, error: Seq<char> },
    Deleted(DnsRecordModel),
    DeleteRecordFailed { record: DnsRecordModel, error: Seq<char> },
    ValueCopied { ok: bool, value: Seq<char> },
    HistoryCopied(bool),
}

impl View for Msg {
    type V = MsgModel;

    open spec fn view(&self) -> MsgModel {
        match self {
            Msg::AccountSaved(a) => MsgModel::AccountSaved(a@),
            Msg::SaveFailed { cfg, error } => MsgModel::SaveFailed { cfg: cfg@, error: error@ },
            Msg::AccountDeleted { cfg, label } => MsgModel::AccountDeleted { cfg: cfg@, label: label@ },
            Msg::DeleteFailed { cfg, error } => MsgModel::DeleteFailed { cfg: cfg@, error: error@ },
            Msg::TokenValid(a) => MsgModel::TokenValid(*a as int),
            Msg::TokenFailed(a) => MsgModel::TokenFailed(a@),
            Msg::Zones(a) => MsgModel::Zones(a.deep_view()),
            Msg::ZonesFailed(a) => MsgModel::ZonesFailed(a@),
            Msg::Records { records, zones, skipped } => MsgModel::Records { records: records.deep_view(), zones: *zones as int, skipped: *skipped as int },
            Msg::RecordsFailed(a) => MsgModel::RecordsFailed(a@),
            Msg::AccountFailed { label, error } => MsgModel::AccountFailed { label: label@, error: error@ },
            Msg::BatchAdded { zone_name, results } => MsgModel::BatchAdded { zone_name: zone_name@, results: results.deep_view() },
            Msg::Updated { zone_name, input } => MsgModel::Updated { zone_name: zone_name@, input: input@ },
            Msg::UpdateFailed { zone_name, input, error } => MsgModel::UpdateFailed { zone_name: zone_name@, input: input@, error: error@ },
            Msg::Deleted(a) => MsgModel::Deleted(a@),
            Msg::DeleteRecordFailed { record, error } => MsgModel::DeleteRecordFailed { record: record@, error: error@ },
            Msg::ValueCopied { ok, value } => MsgModel::ValueCopied { ok: *ok, value: value@ },
            Msg::HistoryCopied(a) => MsgModel::HistoryCopied(*a),
        }
    }
}

impl DeepView for Msg {
    type V = MsgModel;

    open spec fn deep_view(&self) -> MsgModel {
        self@
    }
}

pub struct CloudflareScreen {
    pub tab: Tab,
    pub accounts_tab: AccountsTab,
    pub records_tab: RecordsTab,
    pub cfg: Config,
    pub log: Log,
    /// Work that waits to be handed out, oldest first.
    pub requests: Vec<Request>,
}

pub struct CloudflareScreenModel {
    pub tab: Tab,
    pub accounts_tab: AccountsTabModel,
    pub records_tab: RecordsTabModel,
    pub cfg: ConfigModel,
    pub log: LogModel,
    pub requests: Seq<RequestModel>,
}

impl View for CloudflareScreen {
    type V = CloudflareScreenModel;

    open spec fn view(&self) -> CloudflareScreenModel {
        CloudflareScreenModel {
            tab: self.tab,
            accounts_tab: self.accounts_tab@,
            records_tab: self.records_tab@,
            cfg: self.cfg@,
            log: self.log@,
            requests: self.requests.deep_view(),
        }
    }
}

impl DeepView for CloudflareScreen {
    type V = CloudflareScreenModel;

    open spec fn deep_view(&self) -> CloudflareScreenModel {
        self@
    }
}

/// The rectangles that the screen is drawn into.
pub struct CloudflareLayout {
    pub area: Rect,
    pub screen: Vec<Rect>,
    pub accounts: Vec<Rect>,
    pub account_form: Vec<Rect>,
    pub records: Vec<Rect>,
    pub top: Vec<Rect>,
    pub search: Vec<Rect>,
    pub actions: Vec<Rect>,
    pub add: Vec<Rect>,
    pub edit: Vec<Rect>,
}

pub struct CloudflareLayoutModel {
    pub area: Rect,
    pub screen: Seq<Rect>,
    pub accounts: Seq<Rect>,
    pub account_form: Seq<Rect>,
    pub records: Seq<Rect>,
    pub top: Seq<Rect>,
    pub search: Seq<Rect>,
    pub actions: Seq<Rect>,
    pub add: Seq<Rect>,
    pub edit: Seq<Rect>,
}

impl View for CloudflareLayout {
    type V = CloudflareLayoutModel;

    open spec fn view(&self) -> CloudflareLayoutModel {
        CloudflareLayoutModel {
            area: self.area,
            screen: self.screen@,
            accounts: self.accounts@,
            account_form: self.account_form@,
            records: self.records@,
            top: self.top@,
            search: self.search@,
            actions: self.actions@,
            add: self.add@,
            edit: self.edit@,
        }
    }
}

impl DeepView for CloudflareLayout {
    type V = CloudflareLayoutModel;

    open spec fn deep_view(&self) -> CloudflareLayoutModel {
        self@
    }
}

pub open spec fn tab_labels() -> Seq<Seq<char>> {
    seq!["F1 Accounts"@, "F2 Records"@]
}

pub open spec fn screen_rows() -> Seq<Constraint> {
    seq![Constraint::Length(1), Constraint::Min(0)]
}

pub open spec fn account_rows() -> Seq<Constraint> {
    seq![Constraint::Min(0), Constraint::Length(12), Constraint::Length(6)]
}

pub open spec fn record_rows() -> Seq<Constraint> {
    seq![
        Constraint::Length(7),
        Constraint::Length(7),
        Constraint::Min(6),
        Constraint::Length(6),
        Constraint::Length(7),
    ]
}

pub open spec fn three_lines() -> Seq<Constraint> {
    seq![Constraint::Length(1), Constraint::Length(1), Constraint::Length(1)]
}

pub open spec fn two_lines() -> Seq<Constraint> {
    seq![Constraint::Length(1), Constraint::Length(1)]
}

/// The lines of the add modal: the form, the pending list, the buttons and the help.
pub open spec fn add_rows() -> Seq<Constraint> {
    Seq::new(
        15,
        |i: int|
            if i == 11 {
                Constraint::Min(3)
            } else {
                Constraint::Length(1)
            },
    )
}

fn add_row_constraints() -> (r: Vec<Constraint>)
    ensures
        r@ == add_rows(),
{
    let mut r: Vec<Constraint> = Vec::new();
    let mut i: usize = 0;
    while i < 15
        invariant
            i <= 15,
            r@ =~= add_rows().take(i as int),
        decreases 15 - i,
    {
        r.push(
            if i == 11 {
                Constraint::Min(3)
            } else {
                Constraint::Length(1)
            },
        );
        i = i + 1;
    }
    assert(r@ =~= add_rows());
    r
}

impl CloudflareLayoutModel {
    /// Whether the rectangles are those of a screen on `area`.
    pub open spec fn of(self, area: Rect) -> bool {
        &&& self.area == area
        &&& geometry::stacked(area, 0, screen_rows(), self.screen)
        &&& geometry::stacked(self.screen[1], 0, account_rows(), self.accounts)
        &&& geometry::stacked(mouse::inner(mouse::inner(self.accounts[1])), 0, form::lines(7), self.account_form)
        &&& geometry::stacked(self.screen[1], 0, record_rows(), self.records)
        &&& geometry::stacked(mouse::inner(self.records[0]), 1, three_lines(), self.top)
        &&& geometry::stacked(mouse::inner(self.records[1]), 1, three_lines(), self.search)
        &&& geometry::stacked(mouse::inner(self.records[3]), 1, two_lines(), self.actions)
        &&& geometry::stacked(mouse::inner(geometry::modal_rect(92, 23, 4, 2, area)), 1, add_rows(), self.add)
        &&& geometry::stacked(mouse::inner(geometry::modal_rect(92, 15, 4, 2, area)), 1, form::lines(9), self.edit)
    }

    pub open spec fn complete(self) -> bool {
        &&& self.screen.len() == 2
        &&& self.accounts.len() == 3
        &&& self.account_form.len() == 8
        &&& self.records.len() == 5
        &&& self.top.len() == 3
        &&& self.search.len() == 3
        &&& self.actions.len() == 2
        &&& self.add.len() == 15
        &&& self.edit.len() == 10
    }
}

/// The line that tells what was fetched.
pub open spec fn fetched_line(n: int, zones: int, skipped: int) -> Seq<char> {
    "Fetched "@ + text::decimal(n as nat) + " record(s) across "@ + text::decimal(zones as nat) + " zone(s) ("@
        + text::decimal(skipped as nat) + " skipped)"@
}

/// A line about a record of a zone.
pub open spec fn zone_line(zone: Seq<char>, what: Seq<char>) -> Seq<char> {
    "["@ + zone + "] "@ + what
}

/// The lines about the records of a batch that were refused.
pub open spec fn refusals(
    zone: Seq<char>,
    results: Seq<(DnsRecordInputModel, Option<Seq<char>>)>,
) -> Seq<(bool, Seq<char>)>
    decreases results.len(),
{
    if results.len() == 0 {
        Seq::empty()
    } else {
        let front = refusals(zone, results.drop_last());
        let (input, error) = results.last();
        match error {
            Some(e) => front.push(
                (
                    false,
                    zone_line(
                        zone,
                        "failed to add "@ + input.type_ + " "@ + input.subdomain + ": "@ + text::single_line(e),
                    ),
                ),
            ),
            None => front,
        }
    }
}

/// How many records of a batch were created.
pub open spec fn added(results: Seq<(DnsRecordInputModel, Option<Seq<char>>)>) -> nat
    decreases results.len(),
{
    if results.len() == 0 {
        0
    } else {
        added(results.drop_last()) + if results.last().1 is None {
            1nat
        } else {
            0nat
        }
    }
}

/// The lines about a batch: one for each refusal, then how many were created.
pub open spec fn batch_lines(
    zone: Seq<char>,
    results: Seq<(DnsRecordInputModel, Option<Seq<char>>)>,
) -> Seq<(bool, Seq<char>)> {
    refusals(zone, results).push(
        (
            added(results) == results.len(),
            zone_line(
                zone,
                "added "@ + text::decimal(added(results)) + "/"@ + text::decimal(results.len()) + " record(s)"@,
            ),
        ),
    )
}

fn zone_text(zone: &str, what: &str) -> (r: String)
    ensures
        r@ == zone_line(zone@, what@),
{
    text::cat4("[", zone, "] ", what)
}

fn batch_text(zone: &str, results: &Vec<(DnsRecordInput, Option<String>)>) -> (r: Vec<(bool, String)>)
    ensures
        r.deep_view() == batch_lines(zone@, results.deep_view()),
{
    let ghost all = results.deep_view();
    let mut r: Vec<(bool, String)> = Vec::new();
    let mut n: usize = 0;
    let mut i: usize = 0;
    assert(all.take(0) =~= Seq::empty());
    assert(r.deep_view() =~= refusals(zone@, all.take(0)));
    while i < results.len()
        invariant
            i <= results@.len(),
            n <= i,
            all == results.deep_view(),
            n as nat == added(all.take(i as int)),
            r.deep_view() == refusals(zone@, all.take(i as int)),
        decreases results@.len() - i,
    {
        proof {
            assert(all.take(i + 1).drop_last() =~= all.take(i as int));
            assert(all.take(i + 1).last() == results@[i as int].deep_view());
        }
        match &results[i].1 {
            Some(e) => {
                let one = text::one_line(e.as_str());
                let what = text::cat5(
                    "failed to add ",
                    results[i].0.type_.as_str(),
                    " ",
                    results[i].0.subdomain.as_str(),
                    ": ",
                );
                let what = text::cat2(what.as_str(), one.as_str());
                append_to(&mut r, (false, zone_text(zone, what.as_str())));
            },
            None => {
                n = n + 1;
            },
        }
        i = i + 1;
    }
    assert(all.take(all.len() as int) =~= all);
    let done = text::number(n as u64);
    let total = text::number(results.len() as u64);
    let what = text::cat5("added ", done.as_str(), "/", total.as_str(), " record(s)");
    append_to(&mut r, (n == results.len(), zone_text(zone, what.as_str())));
    r
}

impl MsgModel {
    /// The line that a message leaves in the history, where it leaves one.
    pub open spec fn line(self) -> Option<(bool, Seq<char>)> {
        match self {
            MsgModel::AccountSaved(_) => Some((true, "Account saved"@)),
            MsgModel::AccountDeleted { cfg: _, label } => Some((true, "Account '"@ + label + "' deleted"@)),
            MsgModel::TokenValid(n) => Some((true, "Token valid — sees "@ + text::decimal(n as nat) + " zone(s)"@)),
            MsgModel::TokenFailed(e) => Some((false, "Token test failed: "@ + text::single_line(e))),
            MsgModel::ZonesFailed(e) => Some((false, "Failed to list zones: "@ + text::single_line(e))),
            MsgModel::Records { records, zones, skipped } => Some(
                (true, fetched_line(records.len() as int, zones, skipped)),
            ),
            MsgModel::RecordsFailed(e) => Some((false, text::single_line(e))),
            MsgModel::AccountFailed { label, error } => Some((false, zone_line(label, text::single_line(error)))),
            MsgModel::Updated { zone_name, input } => Some(
                (true, zone_line(zone_name, "updated "@ + input.type_ + " "@ + input.subdomain)),
            ),
            MsgModel::UpdateFailed { zone_name, input, error } => Some(
                (
                    false,
                    zone_line(zone_name, "failed to update "@ + input.type_ + ": "@ + text::single_line(error)),
                ),
            ),
            MsgModel::Deleted(r) => Some((true, zone_line(r.domain, "deleted "@ + r.type_ + " "@ + r.subdomain))),
            MsgModel::DeleteRecordFailed { record, error } => Some(
                (
                    false,
                    zone_line(record.domain, "failed to delete "@ + record.type_ + ": "@ + text::single_line(error)),
                ),
            ),
            MsgModel::ValueCopied { ok, value } => Some(
                (
                    ok,
                    if ok {
                        "Copied to clipboard: "@ + value
                    } else {
                        "Couldn't access the clipboard"@
                    },
                ),
            ),
            _ => None,
        }
    }
}

impl Msg {
    /// The line that a message leaves in the history, where it leaves one.
    pub fn line(&self) -> (r: Option<(bool, String)>)
        ensures
            r.deep_view() == self@.line(),
    {
        match self {
            Msg::AccountSaved(_) => Some((true, text::owned("Account saved"))),
            Msg::AccountDeleted { cfg: _, label } => Some((true, text::cat3("Account '", label.as_str(), "' deleted"))),
            Msg::TokenValid(n) => {
                let n = text::number(*n as u64);
                Some((true, text::cat3("Token valid — sees ", n.as_str(), " zone(s)")))
            },
            Msg::TokenFailed(e) => Some(
                (false, text::cat2("Token test failed: ", text::one_line(e.as_str()).as_str())),
            ),
            Msg::ZonesFailed(e) => Some(
                (false, text::cat2("Failed to list zones: ", text::one_line(e.as_str()).as_str())),
            ),
            Msg::Records { records, zones, skipped } => {
                let n = text::number(records.len() as u64);
                let zones = text::number(*zones as u64);
                let skipped = text::number(*skipped as u64);
                let front = text::cat5("Fetched ", n.as_str(), " record(s) across ", zones.as_str(), " zone(s) (");
                Some((true, text::cat3(front.as_str(), skipped.as_str(), " skipped)")))
            },
            Msg::RecordsFailed(e) => Some((false, text::one_line(e.as_str()))),
            Msg::AccountFailed { label, error } => Some(
                (false, zone_text(label.as_str(), text::one_line(error.as_str()).as_str())),
            ),
            _ => self.record_line(),
        }
    }

    fn record_line(&self) -> (r: Option<(bool, String)>)
        requires
            self is Updated || self is UpdateFailed || self is Deleted || self is DeleteRecordFailed
                || self is ValueCopied || self@.line() is None,
        ensures
            r.deep_view() == self@.line(),
    {
        match self {
            Msg::Updated { zone_name, input } => {
                let what = text::cat4("updated ", input.type_.as_str(), " ", input.subdomain.as_str());
                Some((true, zone_text(zone_name.as_str(), what.as_str())))
            },
            Msg::UpdateFailed { zone_name, input, error } => {
                let one = text::one_line(error.as_str());
                let what = text::cat4("failed to update ", input.type_.as_str(), ": ", one.as_str());
                Some((false, zone_text(zone_name.as_str(), what.as_str())))
            },
            Msg::Deleted(r) => {
                let what = text::cat4("deleted ", r.type_.as_str(), " ", r.subdomain.as_str());
                Some((true, zone_text(r.domain.as_str(), what.as_str())))
            },
            Msg::DeleteRecordFailed { record, error } => {
                let one = text::one_line(error.as_str());
                let what = text::cat4("failed to delete ", record.type_.as_str(), ": ", one.as_str());
                Some((false, zone_text(record.domain.as_str(), what.as_str())))
            },
            Msg::ValueCopied { ok, value } => if *ok {
                Some((true, text::cat2("Copied to clipboard: ", value.as_str())))
            } else {
                Some((false, text::owned("Couldn't access the clipboard")))
            },
            _ => None,
        }
    }
}

impl CloudflareScreenModel {
    pub open spec fn fresh(cfg: ConfigModel) -> CloudflareScreenModel {
        CloudflareScreenModel {
            tab: Tab::Accounts,
            accounts_tab: AccountsTabModel::empty(),
            records_tab: RecordsTabModel::empty(),
            cfg,
            log: LogModel::empty(),
            requests: Seq::empty(),
        }
    }

    pub open spec fn with_accounts(self, accounts_tab: AccountsTabModel) -> CloudflareScreenModel {
        CloudflareScreenModel { accounts_tab, ..self }
    }

    pub open spec fn with_records(self, records_tab: RecordsTabModel) -> CloudflareScreenModel {
        CloudflareScreenModel { records_tab, ..self }
    }

    pub open spec fn with_log(self, log: LogModel) -> CloudflareScreenModel {
        CloudflareScreenModel { log, ..self }
    }

    pub open spec fn warn(self, msg: Seq<char>) -> CloudflareScreenModel {
        self.with_log(self.log.warned(msg))
    }

    pub open spec fn ask(self, r: RequestModel) -> CloudflareScreenModel {
        CloudflareScreenModel { requests: self.requests.push(r), ..self }
    }

    pub open spec fn on_tab(self, tab: Tab) -> CloudflareScreenModel {
        CloudflareScreenModel { tab, ..self }
    }

    /// The saved account of that label, with its token.
    pub open spec fn account_by_label(self, label: Seq<char>) -> Option<AccountWithSecretModel> {
        match by_label(self.cfg.accounts, label) {
            Some(a) => self.cfg.with_secret(a.id),
            None => None,
        }
    }

    pub open spec fn typed_account(self) -> Option<AccountWithSecretModel> {
        self.account_by_label(text::trimmed(self.records_tab.account_input.text))
    }

    /// The account that is edited, if one is.
    pub open spec fn edited(self) -> Option<AccountModel> {
        match self.accounts_tab.selected {
            Some(i) => self.cfg.get(i as int),
            None => None,
        }
    }

    pub open spec fn save_account(self) -> CloudflareScreenModel {
        let label = text::trimmed(self.accounts_tab.label.text);
        let api_token = text::trimmed(self.accounts_tab.api_token.text);
        if label.len() == 0 {
            self.warn("Label is required"@)
        } else if api_token.len() == 0 {
            self.warn(
                if self.edited() is Some {
                    "API Token is required to update (re-enter it)"@
                } else {
                    "API Token is required"@
                },
            )
        } else {
            self.ask(
                RequestModel::SaveAccount {
                    id: match self.edited() {
                        Some(a) => Some(a.id),
                        None => None,
                    },
                    label,
                    api_token,
                },
            )
        }
    }

    /// The account that the delete button means.
    pub open spec fn delete_target(self) -> Option<int> {
        match self.accounts_tab.selected {
            Some(i) => Some(i as int),
            None => if self.cfg.accounts.len() == 0 {
                None
            } else {
                Some(self.accounts_tab.table_idx)
            },
        }
    }

    pub open spec fn delete_account(self) -> CloudflareScreenModel {
        match self.delete_target() {
            None => self.warn("No account selected"@),
            Some(i) => match self.cfg.get(i) {
                Some(a) => self.ask(RequestModel::DeleteAccount { id: a.id, label: a.label }),
                None => self,
            },
        }
    }

    /// The token to test: the typed one, or that of the account being edited.
    pub open spec fn token_to_test(self) -> Seq<char> {
        let typed = text::trimmed(self.accounts_tab.api_token.text);
        if typed.len() > 0 {
            typed
        } else {
            match self.edited() {
                Some(a) => match self.cfg.with_secret(a.id) {
                    Some(s) => s.api_token,
                    None => Seq::empty(),
                },
                None => Seq::empty(),
            }
        }
    }

    pub open spec fn test_token(self) -> CloudflareScreenModel {
        if self.token_to_test().len() == 0 {
            self.warn("API Token is required to test"@)
        } else {
            self.ask(RequestModel::TestToken(self.token_to_test()))
        }
    }

    /// The zones of an account asked for where none is known.
    pub open spec fn list_zones_if_unknown(self, account: AccountWithSecretModel) -> CloudflareScreenModel {
        if self.records_tab.known_zones.len() == 0 {
            self.ask(RequestModel::ListZones(account))
        } else {
            self
        }
    }

    pub open spec fn unknown_zone(name: Seq<char>) -> Seq<char> {
        "Unknown zone '"@ + name + "' — pick one from the dropdown"@
    }

    /// The records of the typed zone, or of the whole account where none is typed.
    pub open spec fn fetch_from(self, account: AccountWithSecretModel) -> CloudflareScreenModel {
        let zone_name = text::trimmed(self.records_tab.zone.text);
        if zone_name.len() == 0 {
            self.ask(RequestModel::FetchAccount(account))
        } else {
            match zone_id(self.records_tab.known_zones, zone_name) {
                Some(id) => self.ask(RequestModel::FetchZone { account, zone_id: id, zone_name }),
                None => self.with_log(
                    self.log.note(false, text::single_line(CloudflareScreenModel::unknown_zone(zone_name))),
                ),
            }
        }
    }

    pub open spec fn fetch_records(self) -> CloudflareScreenModel {
        match self.typed_account() {
            None => self.warn("Select a valid account (use the dropdown)"@),
            Some(account) => self.list_zones_if_unknown(account).fetch_from(account),
        }
    }

    pub open spec fn fetch_all(self) -> CloudflareScreenModel {
        if self.cfg.accounts.len() == 0 {
            self.warn("Add at least one account first (F1 Accounts)"@)
        } else {
            self.ask(RequestModel::FetchAll(all_opened(self.cfg.accounts, self.cfg.opened)))
        }
    }

    /// Everything fetched when the tab is opened with nothing loaded yet,
    /// and silence where no account is saved.
    pub open spec fn fetch_all_if_empty(self) -> CloudflareScreenModel {
        if self.cfg.accounts.len() > 0 && self.records_tab.rows.len() == 0 {
            self.fetch_all()
        } else {
            self
        }
    }

    pub open spec fn open_add_modal(self) -> CloudflareScreenModel {
        match self.typed_account() {
            None => self.warn("Select a valid account first (Account field above, use the dropdown)"@),
            Some(account) => {
                let s = self.list_zones_if_unknown(account);
                s.with_records(
                    s.records_tab.with_modal(
                        Some(
                            RecordModalModel::Add(
                                AddModalModel::opened(text::trimmed(s.records_tab.zone.text)),
                            ),
                        ),
                    ),
                )
            },
        }
    }

    pub open spec fn picked_account(self, label: Seq<char>) -> CloudflareScreenModel {
        match self.account_by_label(label) {
            Some(account) => self.ask(RequestModel::ListZones(account)).fetch_records(),
            None => self.fetch_records(),
        }
    }

    pub open spec fn without_modal(self) -> CloudflareScreenModel {
        self.with_records(self.records_tab.with_modal(None))
    }

    /// Records sent off to a zone, and the modal closed. Whatever is missing
    /// is told, and the modal stays.
    pub open spec fn batch_sent(self, zone_name: Seq<char>, batch: Seq<DnsRecordInputModel>) -> CloudflareScreenModel {
        if zone_name.len() == 0 {
            self.warn("Pick or type a zone first"@)
        } else if batch.len() == 0 {
            self.warn("Stage at least one record first (\"+ Add to list\")"@)
        } else {
            match self.typed_account() {
                None => self.warn("Select a valid account"@),
                Some(account) => match zone_id(self.records_tab.known_zones, zone_name) {
                    None => self.warn(CloudflareScreenModel::unknown_zone(zone_name)),
                    Some(id) => self.without_modal().ask(
                        RequestModel::AddRecords { account, zone_id: id, zone_name, batch },
                    ),
                },
            }
        }
    }

    /// The staged records sent off to the zone that was typed.
    pub open spec fn save_all(self, m: AddModalModel) -> CloudflareScreenModel {
        self.batch_sent(text::trimmed(m.zone.text), m.pending)
    }

    /// The name under which a zone is fetched after a change to a record of it.
    pub open spec fn refresh_name(self, original: DnsRecordModel) -> Seq<char> {
        let typed = text::trimmed(self.records_tab.zone.text);
        if typed.len() == 0 {
            original.domain
        } else {
            typed
        }
    }

    pub open spec fn update_record(self, m: EditModalModel) -> CloudflareScreenModel {
        match m.form.parsed() {
            Err(e) => self.warn(e),
            Ok(input) => match self.typed_account() {
                None => self.warn("Select a valid account"@),
                Some(account) => self.without_modal().ask(
                    RequestModel::UpdateRecord {
                        account,
                        original: m.original,
                        input,
                        refresh: self.refresh_name(m.original),
                    },
                ),
            },
        }
    }

    pub open spec fn delete_record(self, m: EditModalModel) -> CloudflareScreenModel {
        match self.typed_account() {
            None => self.warn("Select a valid account"@),
            Some(account) => self.without_modal().ask(
                RequestModel::DeleteRecord {
                    account,
                    original: m.original,
                    refresh: self.refresh_name(m.original),
                },
            ),
        }
    }

    #[verifier::opaque]
    pub open spec fn account_done(self, a: AccAction) -> CloudflareScreenModel {
        match a {
            AccAction::Nothing => self,
            AccAction::Save => self.save_account(),
            AccAction::Delete => self.delete_account(),
            AccAction::Test => self.test_token(),
            AccAction::ScrollHistory(up) => self.with_log(self.log.scrolled(up)),
        }
    }

    #[verifier::opaque]
    pub open spec fn record_done(self, a: RecActionModel) -> CloudflareScreenModel {
        match a {
            RecActionModel::Nothing => self,
            RecActionModel::Fetch => self.fetch_records(),
            RecActionModel::Picked(label) => self.picked_account(label),
            RecActionModel::FetchAll => self.fetch_all(),
            RecActionModel::OpenAdd => self.open_add_modal(),
            RecActionModel::CopyValue(v) => self.ask(RequestModel::CopyValue(v)),
            RecActionModel::ScrollHistory(up) => self.with_log(self.log.scrolled(up)),
            RecActionModel::SaveAll => match self.records_tab.modal {
                Some(RecordModalModel::Add(m)) => self.save_all(m),
                _ => self,
            },
            RecActionModel::Update => match self.records_tab.modal {
                Some(RecordModalModel::Edit(m)) => self.update_record(m),
                _ => self,
            },
            RecActionModel::Delete => match self.records_tab.modal {
                Some(RecordModalModel::Edit(m)) => self.delete_record(m),
                _ => self,
            },
            RecActionModel::Complain(e) => self.warn(e),
        }
    }

    pub open spec fn on_accounts_key(self, key: KeyCode) -> CloudflareScreenModel {
        let r = self.accounts_tab.on_key(key, self.cfg.accounts);
        self.with_accounts(r.0).account_done(r.1)
    }

    pub open spec fn on_records_key(self, key: KeyCode) -> CloudflareScreenModel {
        let r = self.records_tab.on_key(key, self.cfg);
        self.with_records(r.0).record_done(r.1)
    }

    pub open spec fn open_records(self) -> CloudflareScreenModel {
        self.on_tab(Tab::Records).fetch_all_if_empty()
    }

    /// The screen after a key, and whether the key leaves it.
    pub open spec fn on_key(self, key: KeyEvent) -> (CloudflareScreenModel, bool) {
        let no_modal = self.records_tab.modal is None;
        if self.log.alert is Some {
            (if log::closes_alert(key.code) {
                self.with_log(self.log.dismissed())
            } else {
                self
            }, false)
        } else if key.chord('c') {
            (self, true)
        } else if key.chord('y') {
            (self.ask(RequestModel::CopyHistory), false)
        } else if log::scrolls_history(key) {
            (self.with_log(self.log.scrolled(key.code == KeyCode::Up)), false)
        } else if key.code == KeyCode::Esc && !self.records_tab.account_dropdown_open
            && !self.records_tab.zone_dropdown_open && no_modal {
            (self, true)
        } else if key.code == KeyCode::F(1) && no_modal {
            (self.on_tab(Tab::Accounts), false)
        } else if key.code == KeyCode::F(2) && no_modal {
            (self.open_records(), false)
        } else {
            (match self.tab {
                Tab::Accounts => self.on_accounts_key(key.code),
                Tab::Records => self.on_records_key(key.code),
            }, false)
        }
    }

    pub open spec fn on_accounts_mouse(self, me: MouseEvent, l: CloudflareLayoutModel) -> CloudflareScreenModel {
        let r = self.accounts_tab.on_mouse(me, l, self.cfg.accounts);
        self.with_accounts(r.0).account_done(r.1)
    }

    /// The Records tab after a mouse event. With a record modal open nothing
    /// happens.
    pub open spec fn on_records_mouse(self, me: MouseEvent, l: CloudflareLayoutModel) -> CloudflareScreenModel {
        if self.records_tab.modal is Some {
            self
        } else {
            let r = self.records_tab.on_mouse(me, l, self.cfg);
            self.with_records(r.0).record_done(r.1)
        }
    }

    /// The tab whose label a click hits.
    pub open spec fn tab_hit(me: MouseEvent, l: CloudflareLayoutModel) -> Option<usize> {
        match mouse::clicked(me) {
            Some((x, y)) => mouse::label_hit(x, y, l.screen[0], tab_labels()),
            None => None,
        }
    }

    /// The screen after a mouse event. A message box is dismissed by a click;
    /// a record modal takes every event.
    pub open spec fn on_mouse(self, me: MouseEvent, l: CloudflareLayoutModel) -> CloudflareScreenModel {
        if self.log.alert is Some {
            if mouse::clicked(me) is Some {
                self.with_log(self.log.dismissed())
            } else {
                self
            }
        } else if self.tab == Tab::Records && self.records_tab.modal is Some {
            let r = self.records_tab.with_modal(None).on_modal_mouse(self.records_tab.modal->0, me, l);
            self.with_records(r.0).record_done(r.1)
        } else {
            match CloudflareScreenModel::tab_hit(me, l) {
                Some(i) => if i == 0 {
                    self.on_tab(Tab::Accounts)
                } else {
                    self.open_records()
                },
                None => match self.tab {
                    Tab::Accounts => self.on_accounts_mouse(me, l),
                    Tab::Records => self.on_records_mouse(me, l),
                },
            }
        }
    }

    /// The screen with what a message brings, but for the lines that it leaves.
    pub open spec fn absorb(self, m: MsgModel) -> CloudflareScreenModel {
        match m {
            MsgModel::AccountSaved(cfg) => CloudflareScreenModel {
                cfg,
                accounts_tab: self.accounts_tab.cleared(),
                ..self
            },
            MsgModel::SaveFailed { cfg, error } => CloudflareScreenModel { cfg, ..self }.warn(error),
            MsgModel::AccountDeleted { cfg, label: _ } => CloudflareScreenModel {
                cfg,
                accounts_tab: AccountsTabModel { table_idx: 0, ..self.accounts_tab.cleared() },
                ..self
            },
            MsgModel::DeleteFailed { cfg, error } => CloudflareScreenModel { cfg, ..self }.warn(error),
            MsgModel::Zones(zones) => self.with_records(
                RecordsTabModel { known_zones: zones, ..self.records_tab },
            ),
            MsgModel::Records { records, zones: _, skipped: _ } => self.with_records(
                RecordsTabModel { rows: records, selected_row: 0, ..self.records_tab },
            ),
            MsgModel::HistoryCopied(ok) => self.with_log(self.log.copied(ok)),
            MsgModel::BatchAdded { zone_name, results } => self.with_log(
                self.log.noted(batch_lines(zone_name, results)),
            ),
            _ => self,
        }
    }

    pub open spec fn on_msg(self, m: MsgModel) -> CloudflareScreenModel {
        let s = self.absorb(m);
        match m.line() {
            Some((ok, line)) => s.with_log(s.log.note(ok, line)),
            None => s,
        }
    }

    pub open spec fn ticked(self, msgs: Seq<MsgModel>) -> CloudflareScreenModel
        decreases msgs.len(),
    {
        if msgs.len() == 0 {
            self
        } else {
            self.ticked(msgs.drop_last()).on_msg(msgs.last())
        }
    }
}

impl CloudflareScreen {
    /// A screen over the saved accounts.
    pub fn new(cfg: Config) -> (r: CloudflareScreen)
        ensures
            r@ == CloudflareScreenModel::fresh(cfg@),
    {
        let r = CloudflareScreen {
            tab: Tab::Accounts,
            accounts_tab: AccountsTab::new(),
            records_tab: RecordsTab::new(),
            cfg,
            log: Log::new(),
            requests: Vec::new(),
        };
        assert(r@.requests =~= Seq::empty());
        r
    }

    /// Hands out the queued requests.
    pub fn take_requests(&mut self) -> (r: Vec<Request>)
        ensures
            r.deep_view() == old(self)@.requests,
            final(self)@ == (CloudflareScreenModel { requests: Seq::empty(), ..old(self)@ }),
    {
        let mut r: Vec<Request> = Vec::new();
        std::mem::swap(&mut r, &mut self.requests);
        assert(self@.requests =~= Seq::empty());
        r
    }

    fn ask(&mut self, r: Request)
        ensures
            final(self)@ == old(self)@.ask(r@),
    {
        append_to(&mut self.requests, r);
    }

    fn warn(&mut self, msg: &str)
        ensures
            final(self)@ == old(self)@.warn(msg@),
    {
        self.log.warn(msg);
    }

    /// Takes in what came of requests.
    pub fn tick(&mut self, msgs: Vec<Msg>)
        ensures
            final(self)@ == old(self)@.ticked(msgs.deep_view()),
    {
        let ghost all = msgs.deep_view();
        let ghost start = self@;
        let mut i: usize = 0;
        assert(all.take(0) =~= Seq::empty());
        while i < msgs.len()
            invariant
                i <= msgs@.len(),
                all == msgs.deep_view(),
                self@ == start.ticked(all.take(i as int)),
            decreases msgs@.len() - i,
        {
            proof {
                assert(all.take(i + 1).drop_last() =~= all.take(i as int));
                assert(all.take(i + 1).last() == msgs@[i as int]@);
            }
            self.receive(&msgs[i]);
            i = i + 1;
        }
        assert(all.take(all.len() as int) =~= all);
    }

    fn receive(&mut self, m: &Msg)
        ensures
            final(self)@ == old(self)@.on_msg(m@),
    {
        self.absorb(m);
        if let Some((ok, line)) = m.line() {
            self.log.note(ok, line);
        }
    }

    fn absorb(&mut self, m: &Msg)
        ensures
            final(self)@ == old(self)@.absorb(m@),
    {
        match m {
            Msg::AccountSaved(cfg) => {
                self.cfg = cfg.copy();
                self.accounts_tab.clear_form();
            },
            Msg::SaveFailed { cfg, error } => {
                self.cfg = cfg.copy();
                self.warn(error.as_str());
            },
            Msg::AccountDeleted { cfg, label: _ } => {
                self.cfg = cfg.copy();
                self.accounts_tab.clear_form();
                self.accounts_tab.table_idx = 0;
            },
            Msg::DeleteFailed { cfg, error } => {
                self.cfg = cfg.copy();
                self.warn(error.as_str());
            },
            Msg::Zones(zones) => self.records_tab.known_zones = zones.copy(),
            Msg::Records { records, zones: _, skipped: _ } => {
                self.records_tab.rows = records.copy();
                self.records_tab.selected_row = 0;
            },
            Msg::HistoryCopied(ok) => self.log.copied(*ok),
            Msg::BatchAdded { zone_name, results } => self.log.note_all(batch_text(zone_name.as_str(), results)),
            _ => {},
        }
    }

    pub fn account_by_label(&self, label: &str) -> (r: Option<AccountWithSecret>)
        ensures
            r.deep_view() == self@.account_by_label(label@),
    {
        match self.cfg.find_label(label) {
            Some(a) => self.cfg.with_secret(a.id.as_str()),
            None => None,
        }
    }

    fn typed_account(&self) -> (r: Option<AccountWithSecret>)
        ensures
            r.deep_view() == self@.typed_account(),
    {
        let label = self.records_tab.account_input.trimmed();
        self.account_by_label(label.as_str())
    }

    /// The records that the table shows.
    pub fn visible_rows(&self) -> (r: Vec<&DnsRecord>)
        ensures
            r.deep_view() == self@.records_tab.visible(self@.cfg.accounts),
    {
        self.records_tab.visible_rows(&self.cfg)
    }

    fn edited(&self) -> (r: Option<&Account>)
        ensures
            match r {
                Some(a) => self@.edited() == Some(a@),
                None => self@.edited() is None,
            },
    {
        match self.accounts_tab.selected {
            Some(i) => self.cfg.get(i),
            None => None,
        }
    }

    pub fn trigger_save_account(&mut self)
        ensures
            final(self)@ == old(self)@.save_account(),
    {
        let label = self.accounts_tab.label.trimmed();
        let api_token = self.accounts_tab.api_token.trimmed();
        if label.as_str().is_empty() {
            self.warn("Label is required");
            return;
        }
        let id = match self.edited() {
            Some(a) => Some(a.id.clone()),
            None => None,
        };
        if api_token.as_str().is_empty() {
            if id.is_some() {
                self.warn("API Token is required to update (re-enter it)");
            } else {
                self.warn("API Token is required");
            }
            return;
        }
        self.ask(Request::SaveAccount { id, label, api_token });
    }

    pub fn trigger_delete_account(&mut self)
        ensures
            final(self)@ == old(self)@.delete_account(),
    {
        let target = match self.accounts_tab.selected {
            Some(i) => Some(i),
            None => if self.cfg.accounts.len() == 0 {
                None
            } else {
                Some(self.accounts_tab.table_idx)
            },
        };
        match target {
            None => self.warn("No account selected"),
            Some(i) => {
                let r = match self.cfg.get(i) {
                    Some(a) => Request::DeleteAccount { id: a.id.clone(), label: a.label.clone() },
                    None => {
                        return;
                    },
                };
                self.ask(r);
            },
        }
    }

    fn token_to_test(&self) -> (r: String)
        ensures
            r@ == self@.token_to_test(),
    {
        let typed = self.accounts_tab.api_token.trimmed();
        if !typed.as_str().is_empty() {
            return typed;
        }
        if let Some(a) = self.edited() {
            if let Some(s) = self.cfg.with_secret(a.id.as_str()) {
                return s.api_token;
            }
        }
        proof {
            reveal_strlit("");
            assert(""@ =~= Seq::empty());
        }
        text::owned("")
    }

    pub fn trigger_test_token(&mut self)
        ensures
            final(self)@ == old(self)@.test_token(),
    {
        let token = self.token_to_test();
        if token.as_str().is_empty() {
            self.warn("API Token is required to test");
        } else {
            self.ask(Request::TestToken(token));
        }
    }

    fn list_zones_if_unknown(&mut self, account: &AccountWithSecret)
        ensures
            final(self)@ == old(self)@.list_zones_if_unknown(account@),
    {
        if self.records_tab.known_zones.len() == 0 {
            self.ask(Request::ListZones(account.copy()));
        }
    }

    fn fetch_from(&mut self, account: AccountWithSecret)
        ensures
            final(self)@ == old(self)@.fetch_from(account@),
    {
        let zone_name = self.records_tab.zone.trimmed();
        if zone_name.as_str().is_empty() {
            self.ask(Request::FetchAccount(account));
            return;
        }
        match self.records_tab.zone_id_for(zone_name.as_str()) {
            Some(zone_id) => self.ask(Request::FetchZone { account, zone_id, zone_name }),
            None => {
                let msg = text::cat3("Unknown zone '", zone_name.as_str(), "' — pick one from the dropdown");
                self.log.note(false, text::one_line(msg.as_str()));
            },
        }
    }

    pub fn trigger_fetch_records(&mut self)
        ensures
            final(self)@ == old(self)@.fetch_records(),
    {
        match self.typed_account() {
            None => self.warn("Select a valid account (use the dropdown)"),
            Some(account) => {
                self.list_zones_if_unknown(&account);
                self.fetch_from(account);
            },
        }
    }

    pub fn trigger_fetch_all_accounts(&mut self)
        ensures
            final(self)@ == old(self)@.fetch_all(),
    {
        if self.cfg.accounts.len() == 0 {
            self.warn("Add at least one account first (F1 Accounts)");
            return;
        }
        let all = self.cfg.all_opened();
        self.ask(Request::FetchAll(all));
    }

    /// Loads every account's records when the tab is opened with nothing
    /// loaded yet. Having no account is a normal state, and stays silent.
    pub fn trigger_fetch_all_if_empty(&mut self)
        ensures
            final(self)@ == old(self)@.fetch_all_if_empty(),
    {
        if self.cfg.accounts.len() > 0 && self.records_tab.rows.len() == 0 {
            self.trigger_fetch_all_accounts();
        }
    }

    pub fn trigger_open_add_modal(&mut self)
        ensures
            final(self)@ == old(self)@.open_add_modal(),
    {
        match self.typed_account() {
            None => self.warn("Select a valid account first (Account field above, use the dropdown)"),
            Some(account) => {
                self.list_zones_if_unknown(&account);
                let zone = self.records_tab.zone.trimmed();
                self.records_tab.modal = Some(RecordModal::Add(AddModal::new(zone.as_str())));
            },
        }
    }

    fn pick_account(&mut self, label: &str)
        ensures
            final(self)@ == old(self)@.picked_account(label@),
    {
        if let Some(account) = self.account_by_label(label) {
            self.ask(Request::ListZones(account));
        }
        self.trigger_fetch_records();
    }

    fn send_batch(&mut self, zone_name: String, batch: Vec<DnsRecordInput>)
        ensures
            final(self)@ == old(self)@.batch_sent(zone_name@, batch.deep_view()),
    {
        if zone_name.as_str().is_empty() {
            self.warn("Pick or type a zone first");
            return;
        }
        if batch.len() == 0 {
            self.warn("Stage at least one record first (\"+ Add to list\")");
            return;
        }
        let Some(account) = self.typed_account() else {
            self.warn("Select a valid account");
            return;
        };
        match self.records_tab.zone_id_for(zone_name.as_str()) {
            None => {
                let msg = text::cat3("Unknown zone '", zone_name.as_str(), "' — pick one from the dropdown");
                self.warn(msg.as_str());
            },
            Some(zone_id) => {
                self.records_tab.modal = None;
                self.ask(Request::AddRecords { account, zone_id, zone_name, batch });
            },
        }
    }

    fn save_all(&mut self)
        ensures
            final(self)@ == old(self)@.record_done(RecActionModel::SaveAll),
    {
        proof {
            reveal(CloudflareScreenModel::record_done);
        }
        let (zone_name, batch) = match &self.records_tab.modal {
            Some(RecordModal::Add(m)) => (m.zone.trimmed(), m.pending.copy()),
            _ => {
                return;
            },
        };
        self.send_batch(zone_name, batch);
    }

    fn refresh_name(&self, original: &DnsRecord) -> (r: String)
        ensures
            r@ == self@.refresh_name(original@),
    {
        let typed = self.records_tab.zone.trimmed();
        if typed.as_str().is_empty() {
            original.domain.clone()
        } else {
            typed
        }
    }

    fn update_record(&mut self)
        ensures
            final(self)@ == old(self)@.record_done(RecActionModel::Update),
    {
        proof {
            reveal(CloudflareScreenModel::record_done);
        }
        let (parsed, original) = match &self.records_tab.modal {
            Some(RecordModal::Edit(m)) => (m.form.parse_modal_record(), m.original.copy()),
            _ => {
                return;
            },
        };
        match parsed {
            Err(e) => self.warn(e.as_str()),
            Ok(input) => match self.typed_account() {
                None => self.warn("Select a valid account"),
                Some(account) => {
                    let refresh = self.refresh_name(&original);
                    self.records_tab.modal = None;
                    self.ask(Request::UpdateRecord { account, original, input, refresh });
                },
            },
        }
    }

    fn delete_record(&mut self)
        ensures
            final(self)@ == old(self)@.record_done(RecActionModel::Delete),
    {
        proof {
            reveal(CloudflareScreenModel::record_done);
        }
        let original = match &self.records_tab.modal {
            Some(RecordModal::Edit(m)) => m.original.copy(),
            _ => {
                return;
            },
        };
        match self.typed_account() {
            None => self.warn("Select a valid account"),
            Some(account) => {
                let refresh = self.refresh_name(&original);
                self.records_tab.modal = None;
                self.ask(Request::DeleteRecord { account, original, refresh });
            },
        }
    }

    fn do_account(&mut self, a: AccAction)
        ensures
            final(self)@ == old(self)@.account_done(a),
    {
        proof {
            reveal(CloudflareScreenModel::account_done);
        }
        match a {
            AccAction::Nothing => {},
            AccAction::Save => self.trigger_save_account(),
            AccAction::Delete => self.trigger_delete_account(),
            AccAction::Test => self.trigger_test_token(),
            AccAction::ScrollHistory(up) => self.log.scroll_by(up),
        }
    }

    fn do_record(&mut self, a: RecAction)
        ensures
            final(self)@ == old(self)@.record_done(a@),
    {
        proof {
            reveal(CloudflareScreenModel::record_done);
        }
        match a {
            RecAction::Nothing => {},
            RecAction::Fetch => self.trigger_fetch_records(),
            RecAction::Picked(label) => self.pick_account(label.as_str()),
            RecAction::FetchAll => self.trigger_fetch_all_accounts(),
            RecAction::OpenAdd => self.trigger_open_add_modal(),
            RecAction::CopyValue(v) => self.ask(Request::CopyValue(v)),
            RecAction::ScrollHistory(up) => self.log.scroll_by(up),
            RecAction::SaveAll => self.save_all(),
            RecAction::Update => self.update_record(),
            RecAction::Delete => self.delete_record(),
            RecAction::Complain(e) => self.warn(e.as_str()),
        }
    }

    pub fn handle_accounts_key(&mut self, key: KeyCode)
        ensures
            final(self)@ == old(self)@.on_accounts_key(key),
    {
        let a = self.accounts_tab.handle_key(key, &self.cfg.accounts);
        self.do_account(a);
    }

    pub fn handle_records_key(&mut self, key: KeyCode)
        ensures
            final(self)@ == old(self)@.on_records_key(key),
    {
        let a = self.records_tab.handle_key(key, &self.cfg);
        self.do_record(a);
    }

    pub fn handle_key(&mut self, key: KeyEvent) -> (leave: bool)
        ensures
            (final(self)@, leave) == old(self)@.on_key(key),
    {
        if self.log.alert.is_some() {
            if is_closing(key.code) {
                self.log.dismiss();
            }
            return false;
        }
        if key.is_chord('c') {
            return true;
        }
        if key.is_chord('y') {
            self.ask(Request::CopyHistory);
            return false;
        }
        if is_history_scroll(&key) {
            self.log.scroll_by(key.code == KeyCode::Up);
            return false;
        }
        if self.records_tab.modal.is_none() {
            match key.code {
                KeyCode::Esc => if !self.records_tab.account_dropdown_open && !self.records_tab.zone_dropdown_open {
                    return true;
                },
                KeyCode::F(n) => if n == 1 {
                    self.tab = Tab::Accounts;
                    return false;
                } else if n == 2 {
                    self.tab = Tab::Records;
                    self.trigger_fetch_all_if_empty();
                    return false;
                },
                _ => {},
            }
        }
        match self.tab {
            Tab::Accounts => self.handle_accounts_key(key.code),
            Tab::Records => self.handle_records_key(key.code),
        }
        false
    }

    /// The rectangles that the screen is drawn into.
    pub fn layout(&self, area: Rect) -> (l: CloudflareLayout)
        ensures
            l@.of(area),
            l@.complete(),
    {
        let cs = vec![Constraint::Length(1), Constraint::Min(0)];
        assert(cs@ =~= screen_rows());
        let screen = split_rows(area, 0, &cs);
        let cs = vec![Constraint::Min(0), Constraint::Length(12), Constraint::Length(6)];
        assert(cs@ =~= account_rows());
        let accounts = split_rows(screen[1], 0, &cs);
        let account_form = split_rows(
            mouse::block_inner(mouse::block_inner(accounts[1])),
            0,
            &line_constraints(7),
        );
        let cs = vec![
            Constraint::Length(7),
            Constraint::Length(7),
            Constraint::Min(6),
            Constraint::Length(6),
            Constraint::Length(7),
        ];
        assert(cs@ =~= record_rows());
        let records = split_rows(screen[1], 0, &cs);
        let three = vec![Constraint::Length(1), Constraint::Length(1), Constraint::Length(1)];
        assert(three@ =~= three_lines());
        let top = split_rows(mouse::block_inner(records[0]), 1, &three);
        let search = split_rows(mouse::block_inner(records[1]), 1, &three);
        let two = vec![Constraint::Length(1), Constraint::Length(1)];
        assert(two@ =~= two_lines());
        let actions = split_rows(mouse::block_inner(records[3]), 1, &two);
        let add = split_rows(mouse::block_inner(modal_area(92, 23, 4, 2, area)), 1, &add_row_constraints());
        let edit = split_rows(mouse::block_inner(modal_area(92, 15, 4, 2, area)), 1, &line_constraints(9));
        CloudflareLayout { area, screen, accounts, account_form, records, top, search, actions, add, edit }
    }

    /// A mouse event on a screen drawn into `area`.
    pub fn handle_mouse(&mut self, me: MouseEvent, area: Rect)
        ensures
            exists|l: CloudflareLayoutModel| #[trigger] l.of(area) && final(self)@ == old(self)@.on_mouse(me, l),
    {
        let l = self.layout(area);
        self.mouse_on(me, &l);
    }

    /// A mouse event on a screen drawn into these rectangles.
    pub fn mouse_on(&mut self, me: MouseEvent, l: &CloudflareLayout)
        requires
            l@.complete(),
        ensures
            final(self)@ == old(self)@.on_mouse(me, l@),
    {
        if self.log.alert.is_some() {
            if mouse::left_click(&me).is_some() {
                self.log.dismiss();
            }
            return;
        }
        if self.tab == Tab::Records {
            let mut modal: Option<RecordModal> = None;
            std::mem::swap(&mut modal, &mut self.records_tab.modal);
            if let Some(m) = modal {
                let a = self.records_tab.handle_record_modal_mouse(m, &me, l);
                self.do_record(a);
                return;
            }
        }
        if let Some((x, y)) = mouse::left_click(&me) {
            let labels = ["F1 Accounts", "F2 Records"];
            assert(labels.deep_view() =~= tab_labels());
            if let Some(i) = mouse::label_row_hit(x, y, l.screen[0], &labels) {
                if i == 0 {
                    self.tab = Tab::Accounts;
                } else {
                    self.tab = Tab::Records;
                    self.trigger_fetch_all_if_empty();
                }
                return;
            }
        }
        match self.tab {
            Tab::Accounts => self.handle_accounts_mouse(me, l),
            Tab::Records => self.handle_records_mouse(me, l),
        }
    }

    pub fn handle_accounts_mouse(&mut self, me: MouseEvent, l: &CloudflareLayout)
        requires
            l@.complete(),
        ensures
            final(self)@ == old(self)@.on_accounts_mouse(me, l@),
    {
        let a = self.accounts_tab.handle_mouse(&me, l, &self.cfg.accounts);
        self.do_account(a);
    }

    pub fn handle_records_mouse(&mut self, me: MouseEvent, l: &CloudflareLayout)
        requires
            l@.complete(),
        ensures
            final(self)@ == old(self)@.on_records_mouse(me, l@),
    {
        if self.records_tab.modal.is_some() {
            return;
        }
        let a = self.records_tab.handle_mouse(&me, l, &self.cfg);
        self.do_record(a);
    }
}

} // verus!
