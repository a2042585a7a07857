//! What holds of the Cloudflare DNS manager as a whole.
use crate::cloudflare_screen;
use crate::cloudflare_screen::{
    AccField, AccountModel, AddActionModel, AddField, AddModalModel, CloudflareLayoutModel, CloudflareScreenModel,
    ConfigModel, EditAction, EditField, EditModalModel, RecActionModel, RecField, RecordsTabModel, RequestModel, Tab,
    TypeFilter,
};
use crate::cycle;
use crate::dns_record;
use crate::dns_record::{CaaTag, DnsRecordInputModel, DnsRecordModel, FormField, RecordFormModel, RecordType};
use crate::event::{KeyCode, KeyEvent, MouseEvent};
use crate::geometry::Rect;
use crate::lists;
use crate::log;
use crate::mouse;
use crate::text;
use crate::widgets::InputModel;
use vstd::prelude::*;

verus! {

/// Going to the next field, or type, and back ends where it started.
pub proof fn fields_cycle(a: AccField, r: RecField, t: TypeFilter)
    ensures
        a.next().prev() == a && a.prev().next() == a,
        r.next().prev() == r && r.prev().next() == r,
        t.next().prev() == t && t.prev().next() == t,
{
}

/// The fields of the two modals are a cycle for every type of record.
pub proof fn modal_fields_cycle(kind: RecordType, a: AddField, e: EditField)
    ensures
        cloudflare_screen::add_fields(kind).contains(a) ==> {
            let s = cloudflare_screen::add_fields(kind);
            cycle::before(s, cycle::after(s, a)) == a && cycle::after(s, cycle::before(s, a)) == a
        },
        cloudflare_screen::edit_fields(kind).contains(e) ==> {
            let s = cloudflare_screen::edit_fields(kind);
            cycle::before(s, cycle::after(s, e)) == e && cycle::after(s, cycle::before(s, e)) == e
        },
{
    dns_record::form_fields_are_distinct(kind);
    let f = dns_record::form_fields(kind);
    let s = cloudflare_screen::add_fields(kind);
    lemma_add_fields(s, f);
    if s.contains(a) {
        cycle::before_undoes_after(s, a);
    }
    let s = cloudflare_screen::edit_fields(kind);
    lemma_edit_fields(s, f);
    if s.contains(e) {
        cycle::before_undoes_after(s, e);
    }
}

proof fn lemma_add_fields(s: Seq<AddField>, f: Seq<FormField>)
    requires
        f.no_duplicates(),
        s.len() == f.len() + 5,
        s[0] == AddField::Zone,
        forall|i: int| 0 < i <= f.len() ==> #[trigger] s[i] == AddField::Form(f[i - 1]),
        s[(f.len() + 1) as int] == AddField::BtnStage,
        s[(f.len() + 2) as int] == AddField::PendingList,
        s[(f.len() + 3) as int] == AddField::BtnSaveAll,
        s[(f.len() + 4) as int] == AddField::BtnCancel,
    ensures
        s.no_duplicates(),
{
    assert forall|i: int, j: int| 0 <= i < s.len() && 0 <= j < s.len() && i != j implies s[i] != s[j] by {
        if 0 < i <= f.len() && 0 < j <= f.len() {
            assert(f[i - 1] != f[j - 1]);
        }
    }
}

proof fn lemma_edit_fields(s: Seq<EditField>, f: Seq<FormField>)
    requires
        f.no_duplicates(),
        s.len() == f.len() + 3,
        forall|i: int| 0 <= i < f.len() ==> #[trigger] s[i] == EditField::Form(f[i]),
        s[f.len() as int] == EditField::BtnUpdate,
        s[(f.len() + 1) as int] == EditField::BtnDelete,
        s[(f.len() + 2) as int] == EditField::BtnCancel,
    ensures
        s.no_duplicates(),
{
}

/// The table shows only records that were loaded and that pass every filter.
pub proof fn shown_records_pass_the_filters(t: RecordsTabModel, accounts: Seq<AccountModel>, i: int)
    requires
        0 <= i < t.visible(accounts).len(),
    ensures
        t.rows.contains(t.visible(accounts)[i]),
        t.type_filter.admits(t.visible(accounts)[i].type_),
        t.account_filter(accounts) matches Some(label) ==> t.visible(accounts)[i].account_label == label,
        ({
            let search = text::lowercase(text::trimmed(t.search.text));
            search.len() == 0 || text::occurs(cloudflare_screen::haystack(t.visible(accounts)[i]), search)
        }),
{
    let account = t.account_filter(accounts);
    let search = text::lowercase(text::trimmed(t.search.text));
    let keep = |r: DnsRecordModel| cloudflare_screen::shown(r, account, t.type_filter, search);
    lists::lemma_filter_part(t.rows, keep, i);
}

/// Without a filter the table shows every record, in the order in which they
/// were loaded. A text in the account field that names no account filters
/// nothing.
pub proof fn without_filters_everything_is_shown(t: RecordsTabModel, accounts: Seq<AccountModel>)
    requires
        text::lowercase(text::trimmed(t.search.text)).len() == 0,
        t.type_filter == TypeFilter::All,
        cloudflare_screen::by_label(accounts, text::trimmed(t.account_input.text)) is None,
    ensures
        t.visible(accounts) == t.rows,
{
    let account = t.account_filter(accounts);
    let search = text::lowercase(text::trimmed(t.search.text));
    let keep = |r: DnsRecordModel| cloudflare_screen::shown(r, account, t.type_filter, search);
    lists::lemma_filter_all(t.rows, keep);
}

/// Staged records are never thrown away by one attempt to leave: the first
/// only warns, and the modal with its records stays. A second one leaves.
pub proof fn staged_records_need_two_attempts(
    m: AddModalModel,
    key: KeyCode,
    again: KeyCode,
    zones_known: bool,
    found: Seq<Seq<char>>,
)
    requires
        !m.zone_dropdown_open,
        m.discards(key),
        m.discards(again),
    ensures
        ({
            let (one, first) = m.on_key(key, zones_known, found);
            let (two, second) = one.on_key(again, zones_known, found);
            &&& first == AddActionModel::Close <==> m.pending.len() == 0 || m.confirm_discard
            &&& first != AddActionModel::Close ==> one == (AddModalModel { confirm_discard: true, ..m }) && second
                == AddActionModel::Close
        }),
{
}

/// Any other key between the two attempts takes the first one back, so that
/// the next one only warns again.
pub proof fn other_keys_take_the_attempt_back(
    m: AddModalModel,
    key: KeyCode,
    zones_known: bool,
    found: Seq<Seq<char>>,
)
    requires
        !m.zone_dropdown_open,
        !m.discards(key),
    ensures
        m.on_key(key, zones_known, found).1 != AddActionModel::Close,
        !m.on_key(key, zones_known, found).0.confirm_discard,
{
}

/// A click that does not press Cancel takes the attempt back as well.
pub proof fn clicks_take_the_attempt_back(
    m: AddModalModel,
    me: MouseEvent,
    rows: Seq<Rect>,
    area: Rect,
    zones_known: bool,
    found: Seq<Seq<char>>,
)
    requires
        !m.zone_dropdown_open,
        mouse::clicked(me) is Some,
    ensures
        ({
            let (x, y) = mouse::clicked(me)->0;
            let (aimed, press) = m.aimed(x, y, rows);
            let r = m.on_mouse(me, rows, area, zones_known, found);
            &&& press ==> r == aimed.on_key(KeyCode::Enter, zones_known, found)
            &&& !(press && aimed.field == AddField::BtnCancel) ==> !r.0.confirm_discard
        }),
{
    reveal(AddModalModel::aimed);
}

/// Staging empties the form for the next record of the same type and puts
/// the record at the end of the list; what cannot be staged is told and
/// changes nothing.
pub proof fn staging_keeps_the_type(m: AddModalModel)
    ensures
        m.form.parsed() matches Ok(r) ==> {
            let s = m.staged().0;
            &&& s.pending == m.pending.push(r)
            &&& s.form == RecordFormModel { kind: m.form.kind, ..RecordFormModel::empty() }
            &&& s.zone == m.zone
        },
        m.form.parsed() matches Err(e) ==> m.staged() == (m, AddActionModel::Complain(e)),
{
}

/// The selection in the list of staged records stays on a record.
pub proof fn the_staged_selection_stays_in_range(
    m: AddModalModel,
    key: KeyCode,
    zones_known: bool,
    found: Seq<Seq<char>>,
)
    requires
        0 <= m.pending_idx && (m.pending_idx < m.pending.len() || m.pending_idx == 0),
    ensures
        ({
            let n = m.on_key(key, zones_known, found).0;
            0 <= n.pending_idx && (n.pending_idx < n.pending.len() || n.pending_idx == 0)
        }),
{
    if m.pending.len() > 0 {
        cycle::lemma_wrap(m.pending_idx, m.pending.len() as int);
    }
}

/// Opening the records loads everything once: only where nothing is loaded
/// yet and an account exists, and without a word where none does.
pub proof fn records_load_themselves_once(s: CloudflareScreenModel)
    ensures
        s.records_tab.rows.len() > 0 || s.cfg.accounts.len() == 0 ==> s.open_records() == s.on_tab(Tab::Records),
        s.records_tab.rows.len() == 0 && s.cfg.accounts.len() > 0 ==> s.open_records() == s.on_tab(Tab::Records).ask(
            RequestModel::FetchAll(cloudflare_screen::all_opened(s.cfg.accounts, s.cfg.opened)),
        ),
{
}

/// Picking an account takes its label, forgets the zones of the one before,
/// and asks for the zones and the records of the new one.
pub proof fn picking_an_account_fetches(s: CloudflareScreenModel, key: KeyEvent)
    requires
        s.log.alert is None,
        s.tab == Tab::Records,
        s.records_tab.modal is None,
        s.records_tab.account_dropdown_open,
        !key.control,
        key.code == KeyCode::Enter,
        0 <= s.records_tab.account_idx < s.cfg.filtered(s.records_tab.account_input.text).len(),
    ensures
        ({
            let label = s.cfg.filtered(s.records_tab.account_input.text)[s.records_tab.account_idx];
            let t = RecordsTabModel {
                account_input: InputModel::of(label),
                known_zones: Seq::empty(),
                account_dropdown_open: false,
                ..s.records_tab
            };
            s.on_key(key) == (s.with_records(t).picked_account(label), false)
        }),
{
    reveal(CloudflareScreenModel::record_done);
}

/// A message box takes every key and every mouse event until it is dismissed.
pub proof fn messages_take_all_input(
    s: CloudflareScreenModel,
    key: KeyEvent,
    me: MouseEvent,
    l: CloudflareLayoutModel,
)
    requires
        s.log.alert is Some,
    ensures
        s.on_key(key) == (if log::closes_alert(key.code) {
            s.with_log(s.log.dismissed())
        } else {
            s
        }, false),
        s.on_mouse(me, l) == if mouse::clicked(me) is Some {
            s.with_log(s.log.dismissed())
        } else {
            s
        },
{
}

/// A key that leaves the screen changes nothing on it, and an open dropdown
/// or modal is never left but by Ctrl+C.
pub proof fn leaving_changes_nothing(s: CloudflareScreenModel, key: KeyEvent)
    ensures
        s.on_key(key).1 ==> s.on_key(key).0 == s,
        s.on_key(key).1 && !key.chord('c') ==> s.records_tab.modal is None && !s.records_tab.account_dropdown_open
            && !s.records_tab.zone_dropdown_open,
{
}

/// An open dropdown is closed by a click, whatever it hits, and keeps every
/// other mouse event from what is behind it.
pub proof fn dropdowns_take_the_mouse(
    t: RecordsTabModel,
    me: MouseEvent,
    l: CloudflareLayoutModel,
    cfg: ConfigModel,
)
    requires
        t.modal is None,
        t.account_dropdown_open || t.zone_dropdown_open,
    ensures
        t.on_mouse(me, l, cfg) == (if mouse::clicked(me) is Some {
            RecordsTabModel { account_dropdown_open: false, zone_dropdown_open: false, ..t }
        } else {
            t
        }, RecActionModel::Nothing),
{
    reveal(RecordsTabModel::on_mouse);
}

/// An open record modal keeps every mouse event from the tab behind it.
pub proof fn record_modals_cover_the_tab(s: CloudflareScreenModel, me: MouseEvent, l: CloudflareLayoutModel)
    requires
        s.records_tab.modal is Some,
    ensures
        s.records_tab.on_mouse(me, l, s.cfg) == (s.records_tab, RecActionModel::Nothing),
        s.on_records_mouse(me, l) == s,
{
    reveal(RecordsTabModel::on_mouse);
}

/// Clicking a button of the edit modal is pressing it.
pub proof fn clicking_a_button_is_pressing_it(m: EditModalModel, me: MouseEvent, rows: Seq<Rect>)
    requires
        mouse::clicked(me) matches Some(p) && mouse::button_hit(
            p.0,
            p.1,
            rows[6],
            seq!["Update"@, "Delete"@, "Cancel"@],
        ) is Some,
    ensures
        ({
            let p = mouse::clicked(me)->0;
            let i = mouse::button_hit(p.0, p.1, rows[6], seq!["Update"@, "Delete"@, "Cancel"@])->0;
            m.on_mouse(me, rows).1 == if i == 0 {
                EditAction::Update
            } else if i == 1 {
                EditAction::Delete
            } else {
                EditAction::Close
            }
        }),
{
    reveal(EditModalModel::aimed);
}

/// A record as the service keeps it: of a known type, with a value, a
/// lifetime, and the numbers of its type, and with no white space at the
/// ends of its texts.
pub open spec fn complete(r: DnsRecordModel) -> bool {
    &&& RecordType::of_name(r.type_).name() == r.type_
    &&& text::trimmed(r.subdomain) == r.subdomain
    &&& text::trimmed(r.value) == r.value
    &&& r.value.len() > 0
    &&& r.ttl >= 1
    &&& r.proxied ==> RecordType::of_name(r.type_).proxiable()
    &&& match RecordType::of_name(r.type_) {
        RecordType::Mx => r.priority is Some && r.weight is None && r.port is None && r.flags is None && r.tag is None,
        RecordType::Srv => r.priority is Some && r.weight is Some && r.port is Some && r.flags is None
            && r.tag is None,
        RecordType::Caa => r.priority is None && r.weight is None && r.port is None && r.flags is Some && r.tag
            == Some(CaaTag::of_name(r.tag).name()),
        _ => r.priority is None && r.weight is None && r.port is None && r.flags is None && r.tag is None,
    }
}

/// Opening a record and updating it as it stands sends what it holds.
pub proof fn updating_an_unchanged_record_changes_nothing(r: DnsRecordModel)
    requires
        complete(r),
    ensures
        EditModalModel::of(r).form.parsed() == Ok::<DnsRecordInputModel, Seq<char>>(
            DnsRecordInputModel {
                type_: r.type_,
                subdomain: r.subdomain,
                value: r.value,
                ttl: r.ttl,
                proxied: r.proxied,
                priority: r.priority,
                weight: r.weight,
                port: r.port,
                flags: r.flags,
                tag: r.tag,
            },
        ),
{
    text::numbers_read_as_written(r.ttl as int);
    text::numbers_read_as_written(dns_record::or_else(r.priority, 10));
    text::numbers_read_as_written(dns_record::or_else(r.weight, 10));
    text::numbers_read_as_written(dns_record::or_else(r.port, 443));
    text::numbers_read_as_written(dns_record::or_else(r.flags, 0));
}

} // verus!
