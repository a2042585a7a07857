//! The arrows in the tables and lists of the tools.
use crate::clickhouse_screen;
use crate::clickhouse_screen::{ClickHouseScreenModel, UsersField, UsersTabModel};
use crate::cloudflare_screen::{
    AccAction, AccField, AccountModel, AccountsTabModel, AddActionModel, AddField, AddModalModel, ConfigModel, EditField,
    EditModalModel, RecActionModel, RecField, RecordsTabModel, TypeFilter,
};
use crate::config_check_screen::{BrowserModel, Format, FormatChoice};
use crate::dns_record::{CaaTag, FormField, RecordFormModel, RecordType};
use crate::easyssh_screen;
use crate::easyssh_screen::{EasySshScreenModel, TagsView};
use crate::event::{KeyCode, KeyEvent};
use crate::kerneltune_screen;
use crate::kerneltune_screen::{
    CatalogField, CatalogTabModel, KernelTuneScreenModel, ReviewField, ReviewTabModel, RevertTabModel, TunableModel,
};
use crate::logs_screen;
use crate::logs_screen::{ConnActionModel, ConnField, ConnectionModel, ViewerAction, ViewerTabModel};
use crate::servers::ServerModel;
use crate::widgets::InputModel;
use vstd::prelude::*;

verus! {

/// An arrow key.
pub open spec fn arrow(up: bool) -> KeyCode {
    if up {
        KeyCode::Up
    } else {
        KeyCode::Down
    }
}

/// The row that an arrow leads to from another, in a table of n rows.
pub open spec fn leads(i: int, up: bool, n: int, j: int) -> bool {
    &&& up && i > 0 ==> j == i - 1
    &&& up && i == 0 ==> j == 0
    &&& !up && i < n - 1 ==> j == i + 1
    &&& !up && i == n - 1 ==> j == i
}

/// The groups and the hosts of a group.
pub proof fn arrows_move_in_the_groups(s: EasySshScreenModel, up: bool)
    requires
        s.modal is None,
        s.tab == easyssh_screen::Tab::Tags,
    ensures
        ({
            let t = s.on_key(KeyEvent { code: arrow(up), control: false }).0;
            &&& s.tags_view == TagsView::List && 0 <= s.tags_selected_row < s.groups().len() ==> {
                &&& t == (EasySshScreenModel { tags_selected_row: t.tags_selected_row, ..s })
                &&& leads(s.tags_selected_row, up, s.groups().len() as int, t.tags_selected_row)
            }
            &&& s.tags_view == TagsView::Filtered && 0 <= s.selected_row < s.group_rows(s.tag_filter).len() ==> {
                &&& t == (EasySshScreenModel { selected_row: t.selected_row, ..s })
                &&& leads(s.selected_row, up, s.group_rows(s.tag_filter).len() as int, t.selected_row)
            }
        }),
{
}

/// The parameters, the staged changes and the applied ones.
pub proof fn arrows_move_in_the_tuner(s: KernelTuneScreenModel, up: bool)
    requires
        s.log.alert is None,
        s.confirm_apply is None,
        s.catalog_tab.detail is None,
    ensures
        ({
            let t = s.on_key(KeyEvent { code: arrow(up), control: false }).0;
            let n = s.catalog_tab.filtered(s.catalog).len() as int;
            &&& s.tab == kerneltune_screen::Tab::Catalog && s.catalog_tab.field == CatalogField::Table && 0
                <= s.catalog_tab.selected_row < n ==> {
                &&& t == (KernelTuneScreenModel {
                    catalog_tab: CatalogTabModel { selected_row: t.catalog_tab.selected_row, ..s.catalog_tab },
                    ..s
                })
                &&& leads(s.catalog_tab.selected_row, up, n, t.catalog_tab.selected_row)
            }
            &&& s.tab == kerneltune_screen::Tab::Review && s.review_tab.field == ReviewField::Table && 0
                <= s.review_tab.selected_row < s.staged.len() ==> {
                &&& t == (KernelTuneScreenModel {
                    review_tab: ReviewTabModel { selected_row: t.review_tab.selected_row, ..s.review_tab },
                    ..s
                })
                &&& leads(s.review_tab.selected_row, up, s.staged.len() as int, t.review_tab.selected_row)
            }
            &&& s.tab == kerneltune_screen::Tab::Revert && 0 <= s.revert_tab.selected_row < s.entries().len() ==> {
                &&& t == (KernelTuneScreenModel {
                    revert_tab: RevertTabModel { selected_row: t.revert_tab.selected_row },
                    ..s
                })
                &&& leads(s.revert_tab.selected_row, up, s.entries().len() as int, t.revert_tab.selected_row)
            }
        }),
{
    reveal(KernelTuneScreenModel::on_tab_key);
    reveal(KernelTuneScreenModel::on_catalog_key);
    reveal(KernelTuneScreenModel::on_catalog_field_key);
    reveal(KernelTuneScreenModel::on_review_key);
    reveal(KernelTuneScreenModel::on_staged_key);
    reveal(KernelTuneScreenModel::on_revert_key);
}

/// The filters of the catalog turn by the arrows: from all to the first, on
/// from one to the next, and from the last back to all.
pub proof fn arrows_turn_the_filters(s: KernelTuneScreenModel)
    requires
        s.log.alert is None,
        s.confirm_apply is None,
        s.catalog_tab.detail is None,
        s.tab == kerneltune_screen::Tab::Catalog,
    ensures
        ({
            let t = s.on_key(KeyEvent { code: KeyCode::Right, control: false }).0.catalog_tab;
            let c = s.catalog_tab;
            let (np, nc) = (s.catalog.profiles.len(), s.catalog.categories.len());
            &&& c.field == CatalogField::ProfileFilter ==> {
                &&& t == (CatalogTabModel { profile_filter: t.profile_filter, selected_row: 0, ..c })
                &&& c.profile_filter is None && np > 0 ==> t.profile_filter == Some(0usize)
                &&& c.profile_filter matches Some(i) ==> (i + 1 < np <= usize::MAX ==> t.profile_filter == Some(
                    (i + 1) as usize,
                ))
                &&& c.profile_filter matches Some(i) ==> (i + 1 >= np ==> t.profile_filter is None)
            }
            &&& c.field == CatalogField::CategoryFilter ==> {
                &&& t == (CatalogTabModel { category_filter: t.category_filter, selected_row: 0, ..c })
                &&& c.category_filter is None && nc > 0 ==> t.category_filter == Some(0usize)
                &&& c.category_filter matches Some(i) ==> (i + 1 < nc <= usize::MAX ==> t.category_filter == Some(
                    (i + 1) as usize,
                ))
                &&& c.category_filter matches Some(i) ==> (i + 1 >= nc ==> t.category_filter is None)
            }
        }),
{
    reveal(KernelTuneScreenModel::on_tab_key);
    reveal(KernelTuneScreenModel::on_catalog_key);
    reveal(KernelTuneScreenModel::on_catalog_field_key);
}

/// What a profile stages is counted right.
pub proof fn recommendations_are_counted(tunables: Seq<TunableModel>, p: int)
    ensures
        kerneltune_screen::recommendations(tunables, p) == tunables.filter(
            |t: TunableModel| t.recommended_for(p) is Some,
        ).len(),
    decreases tunables.len(),
{
    reveal(Seq::filter);
    if tunables.len() > 0 {
        recommendations_are_counted(tunables.drop_last(), p);
    }
}

/// The connections of the logs.
pub proof fn arrows_move_in_the_log_connections(
    t: logs_screen::ConnectionsTabModel,
    saved: Seq<ConnectionModel>,
    extra: Seq<ServerModel>,
    up: bool,
)
    requires
        t.host_picker is None,
        t.key_picker is None,
        t.field == ConnField::Table,
        0 <= t.table_idx < logs_screen::row_total(saved.len(), extra.len()),
    ensures
        ({
            let r = t.on_key(arrow(up), saved, extra);
            &&& r == (logs_screen::ConnectionsTabModel { table_idx: r.0.table_idx, ..t }, ConnActionModel::Nothing)
            &&& leads(t.table_idx, up, logs_screen::row_total(saved.len(), extra.len()), r.0.table_idx)
        }),
{
}

/// The open list of connections in the viewer: the arrows move, Enter takes
/// the one that is selected, typing goes into the input and starts at the top.
pub proof fn keys_in_the_list_of_the_viewer(t: ViewerTabModel, n: int, found: Seq<Seq<char>>, up: bool, c: char)
    requires
        t.connection_dropdown_open,
        0 <= t.connection_idx < found.len(),
    ensures
        ({
            let r = t.on_key(arrow(up), n, found);
            &&& r == (ViewerTabModel { connection_idx: r.0.connection_idx, ..t }, ViewerAction::Nothing)
            &&& leads(t.connection_idx, up, found.len() as int, r.0.connection_idx)
        }),
        t.on_key(KeyCode::Enter, n, found) == (ViewerTabModel {
            connection_input: InputModel::of(found[t.connection_idx]),
            connection_dropdown_open: false,
            ..t
        }, ViewerAction::Fetch),
        t.on_key(KeyCode::Esc, n, found) == (ViewerTabModel { connection_dropdown_open: false, ..t }, ViewerAction::Nothing),
        t.on_key(KeyCode::Char(c), n, found) == (ViewerTabModel {
            connection_input: InputModel {
                text: t.connection_input.text.insert(t.connection_input.cursor, c),
                cursor: t.connection_input.cursor + 1,
            },
            connection_idx: 0,
            ..t
        }, ViewerAction::Nothing),
{
}

/// The saved connections and the users of ClickHouse.
pub proof fn arrows_move_in_clickhouse(m: ClickHouseScreenModel, up: bool)
    requires
        m.log.alert is None,
        m.users_tab.modal is None,
        !m.users_tab.connection_dropdown_open,
        m.connections_tab.host_picker is None,
        m.connections_tab.key_picker is None,
    ensures
        ({
            let t = m.on_key(KeyEvent { code: arrow(up), control: false }).0;
            let (ct, ut) = (m.connections_tab, m.users_tab);
            &&& m.tab == clickhouse_screen::Tab::Connections && ct.field == clickhouse_screen::ConnField::Table && 0
                <= ct.table_idx < m.cfg.connections.len() ==> {
                &&& t == (ClickHouseScreenModel {
                    connections_tab: clickhouse_screen::ConnectionsTabModel {
                        table_idx: t.connections_tab.table_idx,
                        ..ct
                    },
                    ..m
                })
                &&& leads(ct.table_idx, up, m.cfg.connections.len() as int, t.connections_tab.table_idx)
            }
            &&& m.tab == clickhouse_screen::Tab::Users && ut.field == UsersField::Table && 0 <= ut.selected_row
                < ut.rows.len() ==> {
                &&& t == (ClickHouseScreenModel {
                    users_tab: UsersTabModel { selected_row: t.users_tab.selected_row, ..ut },
                    ..m
                })
                &&& leads(ut.selected_row, up, ut.rows.len() as int, t.users_tab.selected_row)
            }
        }),
{
    reveal(ClickHouseScreenModel::on_connections_key);
    reveal(ClickHouseScreenModel::on_users_key);
}

/// The open list of connections of the users.
pub proof fn keys_in_the_list_of_the_users(m: ClickHouseScreenModel, up: bool)
    requires
        m.log.alert is None,
        m.tab == clickhouse_screen::Tab::Users,
        m.users_tab.modal is None,
        m.users_tab.connection_dropdown_open,
        0 <= m.users_tab.connection_idx < m.cfg.filtered(m.users_tab.connection_input.text).len(),
    ensures
        ({
            let found = m.cfg.filtered(m.users_tab.connection_input.text);
            let ut = m.users_tab;
            let t = m.on_key(KeyEvent { code: arrow(up), control: false }).0;
            let e = m.on_key(KeyEvent { code: KeyCode::Enter, control: false }).0;
            &&& t == (ClickHouseScreenModel {
                users_tab: UsersTabModel { connection_idx: t.users_tab.connection_idx, ..ut },
                ..m
            })
            &&& leads(ut.connection_idx, up, found.len() as int, t.users_tab.connection_idx)
            &&& e.users_tab == (UsersTabModel {
                connection_input: InputModel::of(found[ut.connection_idx]),
                connection_dropdown_open: false,
                ..ut
            })
        }),
{
    reveal(ClickHouseScreenModel::on_users_key);
    reveal(ClickHouseScreenModel::on_dropdown_key);
}

/// The accounts.
pub proof fn arrows_move_in_the_accounts(t: AccountsTabModel, accounts: Seq<AccountModel>, up: bool)
    requires
        t.field == AccField::Table,
        0 <= t.table_idx < accounts.len(),
    ensures
        ({
            let r = t.on_key(arrow(up), accounts);
            &&& r == (AccountsTabModel { table_idx: r.0.table_idx, ..t }, AccAction::Nothing)
            &&& leads(t.table_idx, up, accounts.len() as int, r.0.table_idx)
        }),
{
}

/// The records.
pub proof fn arrows_move_in_the_records(t: RecordsTabModel, cfg: ConfigModel, up: bool)
    requires
        t.field == RecField::Table,
        0 <= t.selected_row < t.visible(cfg.accounts).len(),
    ensures
        ({
            let r = t.on_table_key(arrow(up), t.visible(cfg.accounts))->0;
            &&& t.on_table_key(arrow(up), t.visible(cfg.accounts)) is Some
            &&& r == (RecordsTabModel { selected_row: r.0.selected_row, ..t }, RecActionModel::Nothing)
            &&& leads(t.selected_row, up, t.visible(cfg.accounts).len() as int, r.0.selected_row)
        }),
{
    reveal(RecordsTabModel::on_table_key);
}

/// The staged records and the open list of zones.
pub proof fn arrows_move_in_the_window_of_new_records(
    m: AddModalModel,
    known: bool,
    found: Seq<Seq<char>>,
    up: bool,
)
    ensures
        ({
            let r = m.on_key(arrow(up), known, found);
            &&& !m.zone_dropdown_open && m.field == AddField::PendingList && 0 <= m.pending_idx < m.pending.len() ==> {
                &&& r.0.pending == m.pending
                &&& r.1 == AddActionModel::Nothing
                &&& leads(m.pending_idx, up, m.pending.len() as int, r.0.pending_idx)
            }
            &&& m.zone_dropdown_open && 0 <= m.zone_idx < found.len() ==> {
                &&& r == (AddModalModel { zone_idx: r.0.zone_idx, ..m }, AddActionModel::Nothing)
                &&& leads(m.zone_idx, up, found.len() as int, r.0.zone_idx)
                &&& m.on_key(KeyCode::Enter, known, found) == (AddModalModel {
                    zone: InputModel::of(found[m.zone_idx]),
                    zone_dropdown_open: false,
                    ..m
                }, AddActionModel::Nothing)
            }
        }),
{
}

/// The browser of the checker.
pub proof fn the_browser_moves_by_one(b: BrowserModel)
    requires
        0 <= b.selected < b.entries.len(),
    ensures
        b.up() == (BrowserModel { selected: b.up().selected, ..b }),
        b.down() == (BrowserModel { selected: b.down().selected, ..b }),
        leads(b.selected, true, b.entries.len() as int, b.up().selected),
        leads(b.selected, false, b.entries.len() as int, b.down().selected),
{
}

/// The types of records turn in this order, the tags of a CAA record in that.
pub proof fn types_and_tags_turn_in_order()
    ensures
        RecordType::A.next() == RecordType::Aaaa,
        RecordType::Aaaa.next() == RecordType::Cname,
        RecordType::Cname.next() == RecordType::Mx,
        RecordType::Mx.next() == RecordType::Txt,
        RecordType::Txt.next() == RecordType::Ns,
        RecordType::Ns.next() == RecordType::Srv,
        RecordType::Srv.next() == RecordType::Caa,
        RecordType::Caa.next() == RecordType::A,
        CaaTag::Issue.next() == CaaTag::IssueWild,
        CaaTag::IssueWild.next() == CaaTag::Iodef,
        CaaTag::Iodef.next() == CaaTag::Issue,
{
}

/// The form of a record: the arrows turn the type, the tag and the proxy, on by
/// the right one and back by the left one, and nothing else.
pub proof fn arrows_turn_the_form_of_a_record(f: RecordFormModel)
    ensures
        f.switched(FormField::Type, false) == (RecordFormModel { kind: f.kind.next(), ..f }),
        f.switched(FormField::Type, true) == (RecordFormModel { kind: f.kind.prev(), ..f }),
        f.switched(FormField::Tag, false) == (RecordFormModel { tag: f.tag.next(), ..f }),
        f.switched(FormField::Tag, true) == (RecordFormModel { tag: f.tag.prev(), ..f }),
        f.switched(FormField::Proxied, false) == (RecordFormModel { proxied: !f.proxied, ..f }),
        f.switched(FormField::Proxied, true) == (RecordFormModel { proxied: !f.proxied, ..f }),
        f.switched(FormField::Value, false) == f,
{
}

/// The windows of records hand the arrows on to their form.
pub proof fn arrows_reach_the_form_of_a_record(a: AddModalModel, e: EditModalModel, k: FormField, found: Seq<Seq<char>>)
    requires
        k == FormField::Type || k == FormField::Tag || k == FormField::Proxied,
    ensures
        !a.zone_dropdown_open && a.field == AddField::Form(k) ==> a.on_key(KeyCode::Right, true, found).0.form
            == a.form.switched(k, false),
        !a.zone_dropdown_open && a.field == AddField::Form(k) ==> a.on_key(KeyCode::Left, true, found).0.form
            == a.form.switched(k, true),
        e.field == EditField::Form(k) ==> e.on_key(KeyCode::Right).0.form == e.form.switched(k, false),
        e.field == EditField::Form(k) ==> e.on_key(KeyCode::Left).0.form == e.form.switched(k, true),
{
}

/// The filter by type turns from all to the first type, on from one to the
/// next, and from the last back to all; the left arrow turns it back.
pub proof fn arrows_turn_the_type_filter(t: RecordsTabModel, cfg: ConfigModel)
    requires
        t.field == RecField::TypeFilter,
    ensures
        ({
            let r = t.on_form_key(KeyCode::Right, cfg).0;
            let l = r.on_form_key(KeyCode::Left, cfg).0;
            &&& r == (RecordsTabModel { type_filter: r.type_filter, ..t })
            &&& t.type_filter == TypeFilter::All ==> r.type_filter == TypeFilter::Only(RecordType::A)
            &&& t.type_filter == TypeFilter::Only(RecordType::Caa) ==> r.type_filter == TypeFilter::All
            &&& t.type_filter matches TypeFilter::Only(k) ==> (k != RecordType::Caa ==> r.type_filter
                == TypeFilter::Only(k.next()))
            &&& l == t
            &&& t.on_form_key(KeyCode::Enter, cfg).0 == r
        }),
{
    reveal(RecordsTabModel::on_form_key);
}

/// The format of a check turns from that of the name through all formats.
pub proof fn formats_turn_in_order()
    ensures
        FormatChoice::Auto.next() == FormatChoice::Forced(Format::Json),
        FormatChoice::Forced(Format::Json).next() == FormatChoice::Forced(Format::Toml),
        FormatChoice::Forced(Format::Toml).next() == FormatChoice::Forced(Format::Yaml),
        FormatChoice::Forced(Format::Yaml).next() == FormatChoice::Forced(Format::Xml),
        FormatChoice::Forced(Format::Xml).next() == FormatChoice::Auto,
{
}

} // verus!
