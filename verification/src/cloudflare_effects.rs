//! What the operations of the Cloudflare DNS manager are for.
use crate::cloudflare_screen;
use crate::cloudflare_screen::{
    AccField, AccountModel, AccountWithSecretModel, AddField, AddModalModel, CloudflareScreenModel, ConfigModel,
    EditField, EditModalModel, MsgModel, RecField, RecordModalModel, RecordsTabModel, RequestModel, Tab, TypeFilter,
};
use crate::dns_record::{DnsRecordInputModel, DnsRecordModel, FormField, RecordFormModel, RecordType, ZoneModel};
use crate::event::{KeyCode, KeyEvent};
use crate::lists;
use crate::text;
use crate::widgets::InputModel;
use vstd::prelude::*;

verus! {

// ----------------------------------------------------------------- look-ups

/// An account is found by its label.
pub proof fn accounts_are_found_by_label(s: Seq<AccountModel>, label: Seq<char>)
    ensures
        lists::finds(s, |a: AccountModel| a.label == label, cloudflare_screen::by_label(s, label)),
    decreases s.len(),
{
    if s.len() > 0 {
        accounts_are_found_by_label(s.drop_first(), label);
    }
    lists::lemma_finds(
        s,
        |a: AccountModel| a.label == label,
        |a: AccountModel| a,
        cloudflare_screen::by_label(s, label),
    );
}

/// The secret of an account is found by its id.
pub proof fn secrets_are_found_by_id(s: Seq<AccountWithSecretModel>, id: Seq<char>)
    ensures
        lists::finds(s, |a: AccountWithSecretModel| a.id == id, cloudflare_screen::by_id(s, id)),
    decreases s.len(),
{
    if s.len() > 0 {
        secrets_are_found_by_id(s.drop_first(), id);
    }
    lists::lemma_finds(
        s,
        |a: AccountWithSecretModel| a.id == id,
        |a: AccountWithSecretModel| a,
        cloudflare_screen::by_id(s, id),
    );
}

/// The id of a zone is that of the first zone of its name.
pub proof fn zones_are_found_by_name(s: Seq<ZoneModel>, name: Seq<char>)
    ensures
        lists::finds_as(
            s,
            |z: ZoneModel| z.name == name,
            |z: ZoneModel| z.id,
            cloudflare_screen::zone_id(s, name),
        ),
    decreases s.len(),
{
    if s.len() > 0 {
        zones_are_found_by_name(s.drop_first(), name);
    }
    lists::lemma_finds(
        s,
        |z: ZoneModel| z.name == name,
        |z: ZoneModel| z.id,
        cloudflare_screen::zone_id(s, name),
    );
}

/// The account that work is done for is the one whose label was typed, with
/// the secret of its id.
pub proof fn the_account_is_the_one_typed(s: CloudflareScreenModel)
    ensures
        s.typed_account() == match cloudflare_screen::by_label(
            s.cfg.accounts,
            text::trimmed(s.records_tab.account_input.text),
        ) {
            Some(a) => cloudflare_screen::by_id(s.cfg.opened, a.id),
            None => None,
        },
{
}

/// Every account whose secret is known takes part in a fetch of all, in order.
pub proof fn all_known_accounts_take_part(s: Seq<AccountModel>, opened: Seq<AccountWithSecretModel>)
    ensures
        ({
            let with = s.filter(|a: AccountModel| cloudflare_screen::by_id(opened, a.id) is Some);
            let all = cloudflare_screen::all_opened(s, opened);
            &&& all.len() == with.len()
            &&& forall|i: int| 0 <= i < all.len() ==> Some(#[trigger] all[i]) == cloudflare_screen::by_id(opened, with[i].id)
        }),
    decreases s.len(),
{
    reveal(Seq::filter);
    if s.len() > 0 {
        all_known_accounts_take_part(s.drop_last(), opened);
        let with = s.filter(|a: AccountModel| cloudflare_screen::by_id(opened, a.id) is Some);
        let part = s.drop_last().filter(|a: AccountModel| cloudflare_screen::by_id(opened, a.id) is Some);
        let all = cloudflare_screen::all_opened(s, opened);
        let front = cloudflare_screen::all_opened(s.drop_last(), opened);
        assert forall|i: int| 0 <= i < front.len() implies (#[trigger] all[i]) == front[i] && with[i] == part[i] by {}
    }
}

/// The accounts and zones on offer are those whose name has what was typed in
/// it, in either case of letters.
pub proof fn choices_have_what_was_typed(cfg: ConfigModel, zones: Seq<ZoneModel>, typed: Seq<char>, name: Seq<char>)
    ensures
        cfg.filtered(typed).contains(name) <==> {
            &&& exists|i: int| 0 <= i < cfg.accounts.len() && (#[trigger] cfg.accounts[i]).label == name
            &&& text::lowercase(typed).len() == 0 || text::occurs(text::lowercase(name), text::lowercase(typed))
        },
        cloudflare_screen::zones_filtered(zones, typed).contains(name) <==> {
            &&& exists|i: int| 0 <= i < zones.len() && (#[trigger] zones[i]).name == name
            &&& text::lowercase(typed).len() == 0 || text::occurs(text::lowercase(name), text::lowercase(typed))
        },
{
    let q = text::lowercase(typed);
    let labels = cloudflare_screen::account_labels(cfg.accounts);
    let names = cloudflare_screen::zone_names(zones);
    lemma_matching(labels, q, name);
    lemma_matching(names, q, name);
    if exists|i: int| 0 <= i < cfg.accounts.len() && (#[trigger] cfg.accounts[i]).label == name {
        let i = choose|i: int| 0 <= i < cfg.accounts.len() && (#[trigger] cfg.accounts[i]).label == name;
        assert(labels[i] == name);
    }
    if labels.contains(name) {
        let i = choose|i: int| 0 <= i < labels.len() && labels[i] == name;
        assert(cfg.accounts[i].label == name);
    }
    if exists|i: int| 0 <= i < zones.len() && (#[trigger] zones[i]).name == name {
        let i = choose|i: int| 0 <= i < zones.len() && (#[trigger] zones[i]).name == name;
        assert(names[i] == name);
    }
    if names.contains(name) {
        let i = choose|i: int| 0 <= i < names.len() && names[i] == name;
        assert(zones[i].name == name);
    }
}

proof fn lemma_matching(s: Seq<Seq<char>>, q: Seq<char>, name: Seq<char>)
    ensures
        cloudflare_screen::names_matching(s, q).contains(name) <==> s.contains(name) && (q.len() == 0 || text::occurs(
            text::lowercase(name),
            q,
        )),
{
    lists::lemma_filter_contains(s, |name: Seq<char>| q.len() == 0 || text::occurs(text::lowercase(name), q), name);
}

/// The table shows a record exactly where it was loaded, is of the account
/// that was typed in, of the type chosen, and has the search text in its
/// domain, name, type and value.
pub proof fn the_table_shows_what_is_looked_for(t: RecordsTabModel, accounts: Seq<AccountModel>, r: DnsRecordModel)
    ensures
        t.visible(accounts).contains(r) <==> {
            let typed = text::trimmed(t.account_input.text);
            let search = text::lowercase(text::trimmed(t.search.text));
            &&& t.rows.contains(r)
            &&& typed.len() > 0 && cloudflare_screen::by_label(accounts, typed) is Some ==> r.account_label == typed
            &&& t.type_filter matches TypeFilter::Only(k) ==> r.type_ == k.name()
            &&& search.len() > 0 ==> text::occurs(
                text::lowercase(r.domain + " "@ + r.subdomain + " "@ + r.type_ + " "@ + r.value),
                search,
            )
        },
{
    let account = t.account_filter(accounts);
    let search = text::lowercase(text::trimmed(t.search.text));
    lists::lemma_filter_contains(
        t.rows,
        |r: DnsRecordModel| cloudflare_screen::shown(r, account, t.type_filter, search),
        r,
    );
}

// ------------------------------------------------------------------ records

/// Whether a text is a number that a record can hold.
pub open spec fn reads_as(t: Seq<char>, n: i64) -> bool {
    text::integer_value(text::trimmed(t)) == Some(n as int)
}

/// Whether a text is some number that a record can hold.
pub open spec fn is_number(t: Seq<char>) -> bool {
    exists|n: i64| #[trigger] reads_as(t, n)
}

/// A record takes each of its parts from the field of the same name.
pub proof fn a_record_is_what_the_form_says(f: RecordFormModel)
    ensures
        f.parsed() matches Ok(r) ==> {
            &&& r.type_ == f.kind.name()
            &&& r.subdomain == text::trimmed(f.name.text)
            &&& r.value == text::trimmed(f.value.text)
            &&& reads_as(f.ttl.text, r.ttl)
            &&& r.proxied <==> f.kind.proxiable() && f.proxied
            &&& r.priority matches Some(n) ==> reads_as(f.priority.text, n)
            &&& r.weight matches Some(n) ==> reads_as(f.weight.text, n)
            &&& r.port matches Some(n) ==> reads_as(f.port.text, n)
            &&& r.flags matches Some(n) ==> reads_as(f.flags.text, n)
            &&& r.tag matches Some(t) ==> t == f.tag.name()
        },
{
}

/// A form makes a record exactly where its value is filled in, its time to
/// live is a positive number, and the numbers of its type are numbers.
pub proof fn complete_forms_make_records(f: RecordFormModel)
    ensures
        f.parsed() is Ok <==> {
            &&& exists|n: i64| #[trigger] reads_as(f.ttl.text, n) && n >= 1
            &&& text::trimmed(f.value.text).len() > 0
            &&& f.kind == RecordType::Mx || f.kind == RecordType::Srv ==> is_number(f.priority.text)
            &&& f.kind == RecordType::Srv ==> is_number(f.weight.text) && is_number(f.port.text)
            &&& f.kind == RecordType::Caa ==> is_number(f.flags.text)
        },
{
    lemma_number(f.ttl.text);
    lemma_number(f.priority.text);
    lemma_number(f.weight.text);
    lemma_number(f.port.text);
    lemma_number(f.flags.text);
    let n = text::in_range(text::integer_value(text::trimmed(f.ttl.text)), i64::MIN as int, i64::MAX as int);
    if n is Some {
        assert(reads_as(f.ttl.text, n->0 as i64));
    }
}

proof fn lemma_number(t: Seq<char>)
    ensures
        is_number(t) <==> text::in_range(
            text::integer_value(text::trimmed(t)),
            i64::MIN as int,
            i64::MAX as int,
        ) is Some,
{
    let n = text::in_range(text::integer_value(text::trimmed(t)), i64::MIN as int, i64::MAX as int);
    if n is Some {
        assert(reads_as(t, n->0 as i64));
    }
}

/// The proxy is for address and alias records alone.
pub proof fn addresses_and_aliases_can_be_proxied(k: RecordType)
    ensures
        k.proxiable() <==> (k.name() == "A"@ || k.name() == "AAAA"@ || k.name() == "CNAME"@),
{
    crate::dns_record::lemma_name_lengths();
    reveal_strlit("A");
    reveal_strlit("AAAA");
    reveal_strlit("CNAME");
    reveal_strlit("MX");
    reveal_strlit("TXT");
    reveal_strlit("NS");
    reveal_strlit("SRV");
    reveal_strlit("CAA");
    assert(!k.proxiable() ==> k.name().len() == 2 || k.name().len() == 3);
    assert("A"@.len() == 1 && "AAAA"@.len() == 4 && "CNAME"@.len() == 5);
}

/// The text of an input of the form.
pub open spec fn text_of(f: RecordFormModel, field: FormField) -> Option<InputModel> {
    match field {
        FormField::Name => Some(f.name),
        FormField::Priority => Some(f.priority),
        FormField::Weight => Some(f.weight),
        FormField::Port => Some(f.port),
        FormField::Flags => Some(f.flags),
        FormField::Value => Some(f.value),
        FormField::Ttl => Some(f.ttl),
        FormField::Type | FormField::Tag | FormField::Proxied => None,
    }
}

/// What is typed into a field of the form goes there and nowhere else.
pub proof fn typing_changes_one_input(f: RecordFormModel, field: FormField, other: FormField, c: char)
    ensures
        ({
            let g = f.edit(field, KeyCode::Char(c));
            &&& g.kind == f.kind && g.tag == f.tag && g.proxied == f.proxied
            &&& other != field ==> text_of(g, other) == text_of(f, other)
            &&& text_of(f, field) matches Some(i) ==> text_of(g, field) == Some(
                InputModel { text: i.text.insert(i.cursor, c), cursor: i.cursor + 1 },
            )
        }),
{
}

/// Whether the form of a modal has a row open and no message over it.
pub open spec fn adding(s: CloudflareScreenModel, m: AddModalModel) -> bool {
    &&& s.log.alert is None
    &&& s.tab == Tab::Records
    &&& s.records_tab.modal == Some(RecordModalModel::Add(m))
    &&& !m.zone_dropdown_open
}

pub open spec fn editing(s: CloudflareScreenModel, m: EditModalModel) -> bool {
    &&& s.log.alert is None
    &&& s.tab == Tab::Records
    &&& s.records_tab.modal == Some(RecordModalModel::Edit(m))
}

/// "+ Add to list" puts the record of the form behind those that are staged,
/// and leaves them as they are. A form that makes no record is told, and
/// nothing is staged.
pub proof fn staging_puts_the_record_behind_the_others(s: CloudflareScreenModel, m: AddModalModel, key: KeyEvent)
    requires
        adding(s, m),
        m.field == AddField::BtnStage,
        key.code == KeyCode::Enter,
    ensures
        ({
            let t = s.on_key(key).0;
            &&& t.records_tab.modal matches Some(RecordModalModel::Add(a))
            &&& a.zone == m.zone
            &&& t.requests == s.requests
            &&& m.form.parsed() matches Ok(r) ==> a.pending == m.pending.push(r) && a.form.kind == m.form.kind
                && t.log == s.log
            &&& m.form.parsed() matches Err(e) ==> {
                &&& a.pending == m.pending
                &&& a.form == m.form
                &&& t.log.alert matches Some((title, told))
                &&& told == e
            }
        }),
{
    reveal(RecordsTabModel::on_modal_key);
    reveal(CloudflareScreenModel::record_done);
}

/// Delete takes the selected record off the list, and no other.
pub proof fn a_staged_record_can_be_taken_off(s: CloudflareScreenModel, m: AddModalModel, key: KeyEvent)
    requires
        adding(s, m),
        m.field == AddField::PendingList,
        0 <= m.pending_idx < m.pending.len(),
        key.code == KeyCode::Delete,
    ensures
        ({
            let t = s.on_key(key).0;
            &&& t.records_tab.modal matches Some(RecordModalModel::Add(a))
            &&& a.pending == m.pending.take(m.pending_idx) + m.pending.skip(m.pending_idx + 1)
            &&& t.requests == s.requests
        }),
{
    reveal(RecordsTabModel::on_modal_key);
    reveal(CloudflareScreenModel::record_done);
    let i = m.pending_idx;
    assert(m.pending.remove(i) =~= m.pending.take(i) + m.pending.skip(i + 1));
}

/// Save All sends every staged record, in order, to the zone that was typed,
/// for the account that was typed, and closes the modal. Where one of these is
/// missing, that is told, nothing is sent and the modal stays.
pub proof fn save_all_sends_every_staged_record(s: CloudflareScreenModel, m: AddModalModel, key: KeyEvent)
    requires
        adding(s, m),
        m.field == AddField::BtnSaveAll,
        key.code == KeyCode::Enter,
    ensures
        ({
            let t = s.on_key(key).0;
            let zone = text::trimmed(m.zone.text);
            let account = s.typed_account();
            let id = cloudflare_screen::zone_id(s.records_tab.known_zones, zone);
            let ready = zone.len() > 0 && m.pending.len() > 0 && account is Some && id is Some;
            &&& ready ==> t == (CloudflareScreenModel {
                records_tab: RecordsTabModel { modal: None, ..s.records_tab },
                requests: s.requests.push(
                    RequestModel::AddRecords {
                        account: account->0,
                        zone_id: id->0,
                        zone_name: zone,
                        batch: m.pending,
                    },
                ),
                ..s
            })
            &&& !ready ==> {
                &&& t.requests == s.requests
                &&& t.log.alert is Some
                &&& t.records_tab.modal matches Some(RecordModalModel::Add(a))
                &&& a.pending == m.pending && a.zone == m.zone && a.form == m.form
            }
        }),
{
    reveal(RecordsTabModel::on_modal_key);
    reveal(CloudflareScreenModel::record_done);
}

/// Enter on a record of the table opens that record, to be changed or deleted.
pub proof fn a_row_opens_its_record(s: CloudflareScreenModel, key: KeyEvent)
    requires
        s.log.alert is None,
        s.tab == Tab::Records,
        s.records_tab.modal is None,
        !s.records_tab.account_dropdown_open,
        !s.records_tab.zone_dropdown_open,
        s.records_tab.field == RecField::Table,
        0 <= s.records_tab.selected_row < s.records_tab.visible(s.cfg.accounts).len(),
        key.code == KeyCode::Enter || key == (KeyEvent { code: KeyCode::Char('y'), control: false }),
    ensures
        ({
            let t = s.on_key(key).0;
            let r = s.records_tab.visible(s.cfg.accounts)[s.records_tab.selected_row];
            &&& key.code == KeyCode::Enter ==> {
                &&& t.records_tab.modal matches Some(RecordModalModel::Edit(m))
                &&& m.original == r
                &&& m.form.name.text == r.subdomain
                &&& m.form.value.text == r.value
                &&& m.form.proxied == r.proxied
                &&& m.form.ttl.text == text::decimal_int(r.ttl as int)
                &&& t == (CloudflareScreenModel {
                    records_tab: RecordsTabModel { modal: t.records_tab.modal, ..s.records_tab },
                    ..s
                })
            }
            &&& key.code == KeyCode::Char('y') ==> t == (CloudflareScreenModel {
                requests: s.requests.push(RequestModel::CopyValue(r.value)),
                ..s
            })
        }),
{
    reveal(RecordsTabModel::on_table_key);
    reveal(CloudflareScreenModel::record_done);
}

/// What is fetched after a change: the zone that was typed, else the domain
/// of the record.
pub open spec fn refreshes(s: CloudflareScreenModel, r: DnsRecordModel, name: Seq<char>) -> bool {
    let typed = text::trimmed(s.records_tab.zone.text);
    &&& typed.len() > 0 ==> name == typed
    &&& typed.len() == 0 ==> name == r.domain
}

/// Update sends what the form says of the record that was opened, for the
/// account that was typed, and closes the modal.
pub proof fn updating_sends_what_the_form_says(s: CloudflareScreenModel, m: EditModalModel, key: KeyEvent)
    requires
        editing(s, m),
        m.field == EditField::BtnUpdate,
        key.code == KeyCode::Enter,
    ensures
        ({
            let t = s.on_key(key).0;
            &&& m.form.parsed() is Ok && s.typed_account() is Some ==> {
                &&& t.requests.len() == s.requests.len() + 1
                &&& t == (CloudflareScreenModel {
                    records_tab: RecordsTabModel { modal: None, ..s.records_tab },
                    requests: s.requests.push(t.requests.last()),
                    ..s
                })
                &&& t.requests.last() matches RequestModel::UpdateRecord { account, original, input, refresh }
                &&& Some(account) == s.typed_account()
                &&& original == m.original
                &&& m.form.parsed() == Ok::<DnsRecordInputModel, Seq<char>>(input)
                &&& refreshes(s, m.original, refresh)
            }
            &&& m.form.parsed() is Err || s.typed_account() is None ==> {
                &&& t.requests == s.requests
                &&& t.log.alert is Some
                &&& t.records_tab.modal == s.records_tab.modal
            }
        }),
{
    reveal(RecordsTabModel::on_modal_key);
    reveal(CloudflareScreenModel::record_done);
}

/// Delete asks for the deletion of the record that was opened, and of no
/// other, and closes the modal.
pub proof fn deleting_deletes_the_record_opened(s: CloudflareScreenModel, m: EditModalModel, key: KeyEvent)
    requires
        editing(s, m),
        m.field == EditField::BtnDelete,
        key.code == KeyCode::Enter,
    ensures
        ({
            let t = s.on_key(key).0;
            &&& s.typed_account() is Some ==> {
                &&& t.requests.len() == s.requests.len() + 1
                &&& t == (CloudflareScreenModel {
                    records_tab: RecordsTabModel { modal: None, ..s.records_tab },
                    requests: s.requests.push(t.requests.last()),
                    ..s
                })
                &&& t.requests.last() matches RequestModel::DeleteRecord { account, original, refresh }
                &&& Some(account) == s.typed_account()
                &&& original == m.original
                &&& refreshes(s, m.original, refresh)
            }
            &&& s.typed_account() is None ==> t.requests == s.requests && t.log.alert is Some
                && t.records_tab.modal == s.records_tab.modal
        }),
{
    reveal(RecordsTabModel::on_modal_key);
    reveal(CloudflareScreenModel::record_done);
}

/// Cancel and Esc close the record and change nothing.
pub proof fn an_opened_record_can_be_left(s: CloudflareScreenModel, m: EditModalModel, key: KeyEvent)
    requires
        editing(s, m),
        key.code == KeyCode::Esc || (key.code == KeyCode::Enter && m.field == EditField::BtnCancel),
    ensures
        s.on_key(key) == (CloudflareScreenModel {
            records_tab: RecordsTabModel { modal: None, ..s.records_tab },
            ..s
        }, false),
{
    reveal(RecordsTabModel::on_modal_key);
    reveal(CloudflareScreenModel::record_done);
}

/// Whether the form of the Records tab takes the keys.
pub open spec fn on_records(s: CloudflareScreenModel, field: RecField) -> bool {
    &&& s.log.alert is None
    &&& s.tab == Tab::Records
    &&& s.records_tab.modal is None
    &&& !s.records_tab.account_dropdown_open
    &&& !s.records_tab.zone_dropdown_open
    &&& s.records_tab.field == field
}

/// Fetch loads the zone that was typed, or all zones of the account where
/// none was. The zones are asked for where they are not known yet.
pub proof fn fetching_loads_the_zone_typed(s: CloudflareScreenModel, key: KeyEvent)
    requires
        on_records(s, RecField::BtnFetch),
        key.code == KeyCode::Enter,
    ensures
        ({
            let t = s.on_key(key).0;
            let zone = text::trimmed(s.records_tab.zone.text);
            let id = cloudflare_screen::zone_id(s.records_tab.known_zones, zone);
            let zones = if s.records_tab.known_zones.len() == 0 {
                s.requests.push(RequestModel::ListZones(s.typed_account()->0))
            } else {
                s.requests
            };
            &&& t.records_tab == s.records_tab
            &&& s.typed_account() is None ==> t.requests == s.requests && t.log.alert is Some
            &&& s.typed_account() matches Some(account) ==> {
                &&& zone.len() == 0 ==> t.requests == zones.push(RequestModel::FetchAccount(account))
                &&& zone.len() > 0 && id is Some ==> t.requests == zones.push(
                    RequestModel::FetchZone { account, zone_id: id->0, zone_name: zone },
                )
                &&& zone.len() > 0 && id is None ==> {
                    &&& t.requests == zones
                    &&& t.log.history.len() == s.log.history.len() + 1
                    &&& !t.log.history.last().0
                }
            }
        }),
{
    reveal(RecordsTabModel::on_table_key);
    reveal(RecordsTabModel::on_form_key);
    reveal(CloudflareScreenModel::record_done);
}

/// Fetch All loads the records of every account whose secret is known.
pub proof fn fetching_all_loads_every_account(s: CloudflareScreenModel, key: KeyEvent)
    requires
        on_records(s, RecField::BtnFetchAll),
        key.code == KeyCode::Enter,
        s.cfg.accounts.len() > 0,
    ensures
        s.on_key(key).0 == (CloudflareScreenModel {
            requests: s.requests.push(
                RequestModel::FetchAll(cloudflare_screen::all_opened(s.cfg.accounts, s.cfg.opened)),
            ),
            ..s
        }),
{
    reveal(RecordsTabModel::on_table_key);
    reveal(RecordsTabModel::on_form_key);
    reveal(CloudflareScreenModel::record_done);
}

/// Add Record(s) opens an empty list for the zone that was typed, where an
/// account was chosen.
pub proof fn adding_starts_with_an_empty_list(s: CloudflareScreenModel, key: KeyEvent)
    requires
        on_records(s, RecField::BtnAddRecords),
        key.code == KeyCode::Enter,
    ensures
        ({
            let t = s.on_key(key).0;
            &&& s.typed_account() is None ==> t.records_tab == s.records_tab && t.log.alert is Some && t.requests
                == s.requests
            &&& s.typed_account() matches Some(account) ==> {
                &&& t.records_tab.modal matches Some(RecordModalModel::Add(m))
                &&& m.pending.len() == 0
                &&& m.zone.text == text::trimmed(s.records_tab.zone.text)
                &&& !m.confirm_discard
                &&& t.requests == if s.records_tab.known_zones.len() == 0 {
                    s.requests.push(RequestModel::ListZones(account))
                } else {
                    s.requests
                }
            }
        }),
{
    reveal(RecordsTabModel::on_table_key);
    reveal(RecordsTabModel::on_form_key);
    reveal(CloudflareScreenModel::record_done);
}

/// What is typed on the Records tab goes into the field with the focus. A
/// changed account has other zones.
pub proof fn typing_goes_to_the_field_with_the_focus(s: CloudflareScreenModel, f: RecField, c: char)
    requires
        on_records(s, f),
        f == RecField::Account || f == RecField::Zone || f == RecField::Search,
    ensures
        ({
            let t = s.on_key(KeyEvent { code: KeyCode::Char(c), control: false }).0.records_tab;
            let old = s.records_tab;
            &&& t.account_input == if f == RecField::Account {
                inserted(old.account_input, c)
            } else {
                old.account_input
            }
            &&& t.zone == if f == RecField::Zone {
                inserted(old.zone, c)
            } else {
                old.zone
            }
            &&& t.search == if f == RecField::Search {
                inserted(old.search, c)
            } else {
                old.search
            }
            &&& f == RecField::Account ==> t.known_zones.len() == 0
            &&& f != RecField::Account ==> t.known_zones == old.known_zones
            &&& t.rows == old.rows && t.type_filter == old.type_filter
        }),
{
    reveal(RecordsTabModel::on_table_key);
    reveal(RecordsTabModel::on_form_key);
    reveal(CloudflareScreenModel::record_done);
}

/// An input with a character put in at its cursor.
pub open spec fn inserted(i: InputModel, c: char) -> InputModel {
    InputModel { text: i.text.insert(i.cursor, c), cursor: i.cursor + 1 }
}

/// Picking a zone takes its name and loads its records.
pub proof fn picking_a_zone_loads_it(s: CloudflareScreenModel, key: KeyEvent)
    requires
        s.log.alert is None,
        s.tab == Tab::Records,
        s.records_tab.modal is None,
        !s.records_tab.account_dropdown_open,
        s.records_tab.zone_dropdown_open,
        key.code == KeyCode::Enter,
        0 <= s.records_tab.zone_idx < s.records_tab.zones_found().len(),
        s.typed_account() is Some,
        s.records_tab.known_zones.len() > 0,
    ensures
        ({
            let t = s.on_key(key).0;
            let name = s.records_tab.zones_found()[s.records_tab.zone_idx];
            let id = cloudflare_screen::zone_id(s.records_tab.known_zones, text::trimmed(name));
            &&& t.records_tab.zone.text == name
            &&& !t.records_tab.zone_dropdown_open
            &&& text::trimmed(name).len() > 0 && id is Some ==> t.requests == s.requests.push(
                RequestModel::FetchZone {
                    account: s.typed_account()->0,
                    zone_id: id->0,
                    zone_name: text::trimmed(name),
                },
            )
        }),
{
    reveal(CloudflareScreenModel::record_done);
}

// ----------------------------------------------------------------- accounts

/// Whether the Accounts tab takes the keys with the focus on a field.
pub open spec fn on_accounts(s: CloudflareScreenModel, field: AccField) -> bool {
    &&& s.log.alert is None
    &&& s.tab == Tab::Accounts
    &&& s.accounts_tab.field == field
}

/// The account that was loaded into the form.
pub open spec fn loaded_account(s: CloudflareScreenModel) -> Option<AccountModel> {
    match s.accounts_tab.selected {
        Some(i) => if i < s.cfg.accounts.len() {
            Some(s.cfg.accounts[i as int])
        } else {
            None
        },
        None => None,
    }
}

/// Save stores the label and the token of the form: over the account that
/// was loaded, or as a new one. Both are needed.
pub proof fn saving_stores_the_form(s: CloudflareScreenModel, key: KeyEvent)
    requires
        on_accounts(s, AccField::BtnSave),
        key.code == KeyCode::Enter,
    ensures
        ({
            let t = s.on_key(key).0;
            let label = text::trimmed(s.accounts_tab.label.text);
            let token = text::trimmed(s.accounts_tab.api_token.text);
            &&& label.len() > 0 && token.len() > 0 ==> t == (CloudflareScreenModel {
                requests: s.requests.push(
                    RequestModel::SaveAccount {
                        id: match loaded_account(s) {
                            Some(a) => Some(a.id),
                            None => None,
                        },
                        label,
                        api_token: token,
                    },
                ),
                ..s
            })
            &&& label.len() == 0 || token.len() == 0 ==> {
                &&& t == (CloudflareScreenModel { log: t.log, ..s })
                &&& t.log.alert is Some
            }
        }),
{
    reveal(CloudflareScreenModel::account_done);
}

/// Delete deletes the account that was loaded, else the one in the selected
/// row.
pub proof fn deleting_deletes_the_account_chosen(s: CloudflareScreenModel, key: KeyEvent)
    requires
        on_accounts(s, AccField::BtnDelete),
        key.code == KeyCode::Enter,
    ensures
        ({
            let t = s.on_key(key).0;
            let i = match s.accounts_tab.selected {
                Some(i) => i as int,
                None => s.accounts_tab.table_idx,
            };
            &&& 0 <= i < s.cfg.accounts.len() ==> t == (CloudflareScreenModel {
                requests: s.requests.push(
                    RequestModel::DeleteAccount { id: s.cfg.accounts[i].id, label: s.cfg.accounts[i].label },
                ),
                ..s
            })
            &&& !(0 <= i < s.cfg.accounts.len()) ==> t == (CloudflareScreenModel { log: t.log, ..s })
        }),
{
    reveal(CloudflareScreenModel::account_done);
}

/// Test Token tests the token that was typed, else the stored one of the
/// account that was loaded.
pub proof fn testing_tests_the_token_at_hand(s: CloudflareScreenModel, key: KeyEvent)
    requires
        on_accounts(s, AccField::BtnTest),
        key.code == KeyCode::Enter,
    ensures
        ({
            let t = s.on_key(key).0;
            let typed = text::trimmed(s.accounts_tab.api_token.text);
            let stored = match loaded_account(s) {
                Some(a) => cloudflare_screen::by_id(s.cfg.opened, a.id),
                None => None,
            };
            &&& typed.len() > 0 ==> t.requests == s.requests.push(RequestModel::TestToken(typed))
            &&& typed.len() == 0 && stored is Some && stored->0.api_token.len() > 0 ==> t.requests == s.requests.push(
                RequestModel::TestToken(stored->0.api_token),
            )
            &&& typed.len() == 0 && stored is None ==> t.requests == s.requests && t.log.alert is Some
            &&& t == (CloudflareScreenModel { requests: t.requests, log: t.log, ..s })
        }),
{
    reveal(CloudflareScreenModel::account_done);
}

/// Enter on a row loads that account into the form, but never its token; New
/// empties the form.
pub proof fn rows_are_loaded_without_their_token(s: CloudflareScreenModel, key: KeyEvent)
    requires
        s.log.alert is None,
        s.tab == Tab::Accounts,
        key.code == KeyCode::Enter,
    ensures
        ({
            let t = s.on_key(key).0;
            let i = s.accounts_tab.table_idx;
            &&& s.accounts_tab.field == AccField::Table && 0 <= i < s.cfg.accounts.len() && i <= usize::MAX ==> {
                &&& t.accounts_tab.selected == Some(i as usize)
                &&& t.accounts_tab.label.text == s.cfg.accounts[i].label
                &&& t.accounts_tab.api_token.text.len() == 0
                &&& t == (CloudflareScreenModel { accounts_tab: t.accounts_tab, ..s })
            }
            &&& s.accounts_tab.field == AccField::BtnNew ==> {
                &&& t.accounts_tab.selected is None
                &&& t.accounts_tab.label.text.len() == 0
                &&& t.accounts_tab.api_token.text.len() == 0
                &&& t == (CloudflareScreenModel { accounts_tab: t.accounts_tab, ..s })
            }
        }),
{
    reveal(CloudflareScreenModel::account_done);
}

/// What is typed on the Accounts tab goes into the field with the focus.
pub proof fn typing_fills_the_account_form(s: CloudflareScreenModel, c: char)
    requires
        s.log.alert is None,
        s.tab == Tab::Accounts,
    ensures
        ({
            let t = s.on_key(KeyEvent { code: KeyCode::Char(c), control: false }).0.accounts_tab;
            let old = s.accounts_tab;
            &&& t.label == if old.field == AccField::Label {
                inserted(old.label, c)
            } else {
                old.label
            }
            &&& t.api_token == if old.field == AccField::ApiToken {
                inserted(old.api_token, c)
            } else {
                old.api_token
            }
            &&& t.selected == old.selected && t.table_idx == old.table_idx
        }),
{
    reveal(CloudflareScreenModel::account_done);
}

// ----------------------------------------------------------------- messages

/// Records that were loaded replace those that were shown; a failure is told
/// and keeps them.
pub proof fn loaded_records_are_shown(
    s: CloudflareScreenModel,
    records: Seq<DnsRecordModel>,
    zones: int,
    skipped: int,
    error: Seq<char>,
)
    ensures
        ({
            let t = s.on_msg(MsgModel::Records { records, zones, skipped });
            t == (CloudflareScreenModel {
                records_tab: RecordsTabModel { rows: records, selected_row: 0, ..s.records_tab },
                log: t.log,
                ..s
            })
        }),
        ({
            let t = s.on_msg(MsgModel::RecordsFailed(error));
            &&& t == (CloudflareScreenModel { log: t.log, ..s })
            &&& t.log.history.len() == s.log.history.len() + 1
            &&& !t.log.history.last().0
        }),
{
}

/// Zones that were listed are the known ones.
pub proof fn listed_zones_are_known(s: CloudflareScreenModel, zones: Seq<ZoneModel>)
    ensures
        s.on_msg(MsgModel::Zones(zones)) == (CloudflareScreenModel {
            records_tab: RecordsTabModel { known_zones: zones, ..s.records_tab },
            ..s
        }),
{
}

/// What was saved or deleted brings the settings as they are now and empties
/// the form; a failure is told and keeps the form.
pub proof fn saved_accounts_are_taken_over(s: CloudflareScreenModel, cfg: ConfigModel, text: Seq<char>)
    ensures
        ({
            let t = s.on_msg(MsgModel::AccountSaved(cfg));
            &&& t == (CloudflareScreenModel { cfg, accounts_tab: t.accounts_tab, log: t.log, ..s })
            &&& t.accounts_tab.selected is None
            &&& t.accounts_tab.label.text.len() == 0 && t.accounts_tab.api_token.text.len() == 0
        }),
        ({
            let t = s.on_msg(MsgModel::AccountDeleted { cfg, label: text });
            &&& t == (CloudflareScreenModel { cfg, accounts_tab: t.accounts_tab, log: t.log, ..s })
            &&& t.accounts_tab.selected is None && t.accounts_tab.table_idx == 0
        }),
        ({
            let t = s.on_msg(MsgModel::SaveFailed { cfg, error: text });
            &&& t == (CloudflareScreenModel { cfg, log: t.log, ..s })
            &&& t.log.alert matches Some((title, told)) && told == text
        }),
{
}

/// What went wrong is told as a failure, and all else as a success.
pub proof fn failures_are_told_as_failures(m: MsgModel)
    ensures
        m.line() matches Some((ok, line)) ==> (ok <==> !(m is TokenFailed || m is ZonesFailed || m is RecordsFailed || m
            is AccountFailed || m is UpdateFailed || m is DeleteRecordFailed || (m matches MsgModel::ValueCopied {
            ok: copied,
            value,
        } && !copied))),
        m is TokenFailed || m is ZonesFailed || m is RecordsFailed || m is AccountFailed || m is UpdateFailed || m
            is DeleteRecordFailed || m is TokenValid || m is Records || m is Updated || m is Deleted ==> m.line()
            is Some,
{
}

/// A batch is told with one line for each record that was refused, and a last
/// one that is a success exactly where none was.
pub proof fn every_refused_record_is_told(
    s: CloudflareScreenModel,
    zone_name: Seq<char>,
    results: Seq<(DnsRecordInputModel, Option<Seq<char>>)>,
)
    ensures
        ({
            let t = s.on_msg(MsgModel::BatchAdded { zone_name, results });
            let refused = results.filter(|r: (DnsRecordInputModel, Option<Seq<char>>)| r.1 is Some);
            &&& t == (CloudflareScreenModel { log: t.log, ..s })
            &&& t.log.history.len() == s.log.history.len() + refused.len() + 1
            &&& forall|i: int|
                s.log.history.len() <= i < t.log.history.len() - 1 ==> !(#[trigger] t.log.history[i]).0
            &&& t.log.history.last().0 <==> refused.len() == 0
        }),
{
    lemma_refusals(zone_name, results);
}

proof fn lemma_refusals(zone: Seq<char>, results: Seq<(DnsRecordInputModel, Option<Seq<char>>)>)
    ensures
        ({
            let refused = results.filter(|r: (DnsRecordInputModel, Option<Seq<char>>)| r.1 is Some);
            let lines = cloudflare_screen::refusals(zone, results);
            &&& lines.len() == refused.len()
            &&& forall|i: int| 0 <= i < lines.len() ==> !(#[trigger] lines[i]).0
            &&& cloudflare_screen::added(results) + refused.len() == results.len()
        }),
    decreases results.len(),
{
    reveal(Seq::filter);
    if results.len() > 0 {
        lemma_refusals(zone, results.drop_last());
    }
}

/// The function keys open their tabs.
pub proof fn function_keys_open_their_tabs(s: CloudflareScreenModel, key: KeyEvent)
    requires
        s.log.alert is None,
        s.records_tab.modal is None,
    ensures
        key.code == KeyCode::F(1) ==> s.on_key(key) == (CloudflareScreenModel { tab: Tab::Accounts, ..s }, false),
        key.code == KeyCode::F(2) ==> {
            let t = s.on_key(key).0;
            &&& t.tab == Tab::Records
            &&& t == (CloudflareScreenModel { tab: Tab::Records, requests: t.requests, ..s })
            &&& s.records_tab.rows.len() > 0 ==> t.requests == s.requests
        },
{
}

/// An account that was picked has its zones listed and its records fetched, in
/// this order.
pub proof fn a_picked_account_is_asked_for_its_zones(s: CloudflareScreenModel, label: Seq<char>)
    ensures
        s.account_by_label(label) matches Some(a) ==> {
            let asked = CloudflareScreenModel { requests: s.requests.push(RequestModel::ListZones(a)), ..s };
            s.picked_account(label) == asked.fetch_records()
        },
        s.account_by_label(label) is None ==> s.picked_account(label) == s.fetch_records(),
{
}

} // verus!
