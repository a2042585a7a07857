//! The mouse does what the keys do: a click on a button is Enter on it, a click
//! on a row is Enter on that row, and the wheel is an arrow.
use crate::clickhouse_screen;
use crate::clickhouse_screen::{ClickHouseLayoutModel, ClickHouseScreenModel, UsersField, UsersTabModel};
use crate::cloudflare_screen;
use crate::cloudflare_screen::{
    AccAction, AccField, AccountModel, AccountsTabModel, AddField, AddModalModel, CloudflareLayoutModel,
    CloudflareScreenModel, ConfigModel, EditAction, EditField, EditModalModel, RecActionModel, RecField,
    RecordModalModel, RecordsTabModel,
};
use crate::config_check_screen;
use crate::config_check_screen::{
    CheckActionModel, CheckField, CheckTabModel, ConfigCheckLayoutModel, ConfigCheckScreenModel,
};
use crate::create_db_modal::{CreateDbAction, CreateDbField, CreateDbModel};
use crate::easyssh_screen::{ConfirmDeleteModalModel, EditTagsField, EditTagsModalModel, SmallAction};
use crate::event::{KeyCode, KeyEvent, MouseEvent};
use crate::form;
use crate::geometry::Rect;
use crate::kerneltune_screen;
use crate::kerneltune_screen::{
    CatalogField, CatalogTabModel, KernelTuneLayoutModel, KernelTuneScreenModel, ReviewField, ReviewTabModel,
    RevertTabModel, StagedChangeModel,
};
use crate::logs_screen;
use crate::logs_screen::{
    ConnActionModel, ConnField, ConnectionModel, ConnectionsTabModel, LogsLayoutModel, LogsScreenModel, ViewerAction,
    ViewerField, ViewerTabModel,
};
use crate::mouse;
use crate::servers::ServerModel;
use crate::target;
use crate::target::{TargetActionModel, TargetField, TargetLayoutModel, TargetTabModel};
use vstd::prelude::*;

verus! {

/// The Enter key.
pub open spec fn enter() -> KeyEvent {
    KeyEvent { code: KeyCode::Enter, control: false }
}

/// Whether a press of the left button hits the cell.
pub open spec fn pressed(me: MouseEvent, x: u16, y: u16) -> bool {
    mouse::clicked(me) == Some((x, y))
}

// ------------------------------------------------------------- kernel tuner

/// Whether the tuner takes the mouse for the tab that shows.
pub open spec fn tuner_free(s: KernelTuneScreenModel, me: MouseEvent, l: KernelTuneLayoutModel) -> bool {
    &&& s.log.alert is None
    &&& s.confirm_apply is None
    &&& s.catalog_tab.detail is None
    &&& KernelTuneScreenModel::tab_hit(me, l) is None
}

/// A click on a staged change turns whether it persists, and changes nothing
/// else that is staged.
pub proof fn clicking_a_change_turns_it(
    s: KernelTuneScreenModel,
    me: MouseEvent,
    l: KernelTuneLayoutModel,
    x: u16,
    y: u16,
    i: usize,
)
    requires
        tuner_free(s, me, l),
        s.tab == kerneltune_screen::Tab::Review,
        pressed(me, x, y),
        mouse::table_hit(x, y, l.review[0], 1, s.staged.len() as int, s.review_tab.selected_row) == Some(i),
        i < s.staged.len(),
    ensures
        ({
            let t = s.on_mouse(me, l);
            &&& t.staged == s.staged.update(
                i as int,
                StagedChangeModel { persist: !s.staged[i as int].persist, ..s.staged[i as int] },
            )
            &&& t.review_tab.selected_row == i
            &&& t.requests == s.requests
        }),
{
    reveal(KernelTuneScreenModel::on_review_mouse);
    reveal(KernelTuneScreenModel::review_clicked);
    reveal(KernelTuneScreenModel::turn_persist);
}

/// The buttons below the staged changes: persist all, apply all, clear all.
pub proof fn clicking_the_review_buttons_presses_them(
    s: KernelTuneScreenModel,
    me: MouseEvent,
    l: KernelTuneLayoutModel,
    x: u16,
    y: u16,
    i: usize,
)
    requires
        tuner_free(s, me, l),
        s.tab == kerneltune_screen::Tab::Review,
        pressed(me, x, y),
        mouse::table_hit(x, y, l.review[0], 1, s.staged.len() as int, s.review_tab.selected_row) is None,
        mouse::button_hit(x, y, mouse::inner(l.review[1]), kerneltune_screen::review_buttons()) == Some(i),
    ensures
        ({
            let field = if i == 0 {
                ReviewField::BtnPersistAll
            } else if i == 1 {
                ReviewField::BtnApplyAll
            } else {
                ReviewField::BtnClearAll
            };
            let at = KernelTuneScreenModel { review_tab: ReviewTabModel { field, ..s.review_tab }, ..s };
            let t = s.on_mouse(me, l);
            let k = at.on_key(enter()).0;
            t.staged == k.staged && t.requests == k.requests && t.confirm_apply == k.confirm_apply && t.log == k.log
        }),
{
    reveal(KernelTuneScreenModel::on_review_mouse);
    reveal(KernelTuneScreenModel::review_clicked);
    reveal(KernelTuneScreenModel::turn_all);
    reveal(KernelTuneScreenModel::request_apply);
    reveal(KernelTuneScreenModel::on_tab_key);
    reveal(KernelTuneScreenModel::on_review_key);
    reveal(KernelTuneScreenModel::on_staged_key);
}

/// A click on a parameter opens it, as Enter does.
pub proof fn clicking_a_parameter_opens_it(
    s: KernelTuneScreenModel,
    me: MouseEvent,
    l: KernelTuneLayoutModel,
    x: u16,
    y: u16,
    i: usize,
)
    requires
        tuner_free(s, me, l),
        s.tab == kerneltune_screen::Tab::Catalog,
        pressed(me, x, y),
        !mouse::hits(l.filters[0], x, y),
        !mouse::hits(l.filters[1], x, y),
        mouse::button_hit(x, y, l.filters[2], seq!["Apply Profile to Staged"@]) is None,
        mouse::table_hit(
            x,
            y,
            l.catalog[1],
            1,
            s.catalog_tab.filtered(s.catalog).len() as int,
            s.catalog_tab.selected_row,
        ) == Some(i),
        i < s.catalog_tab.filtered(s.catalog).len(),
    ensures
        ({
            let at = KernelTuneScreenModel {
                catalog_tab: CatalogTabModel {
                    selected_row: i as int,
                    field: CatalogField::Table,
                    ..s.catalog_tab
                },
                ..s
            };
            s.on_mouse(me, l) == at.on_key(enter()).0
        }),
{
    reveal(KernelTuneScreenModel::on_catalog_mouse);
    reveal(KernelTuneScreenModel::catalog_clicked);
    reveal(KernelTuneScreenModel::on_tab_key);
    reveal(KernelTuneScreenModel::on_catalog_key);
    reveal(KernelTuneScreenModel::on_catalog_field_key);
}

/// A click on a filter turns it, back on its left half and on on its right, as
/// the arrows do; the button applies the profile, as Enter on it does.
pub proof fn clicking_the_filters_turns_them(
    s: KernelTuneScreenModel,
    me: MouseEvent,
    l: KernelTuneLayoutModel,
    x: u16,
    y: u16,
)
    requires
        tuner_free(s, me, l),
        s.tab == kerneltune_screen::Tab::Catalog,
        pressed(me, x, y),
    ensures
        ({
            let on = |f: CatalogField| KernelTuneScreenModel {
                catalog_tab: CatalogTabModel { field: f, ..s.catalog_tab },
                ..s
            };
            let arrow = |r: Rect| KeyEvent {
                code: if x < r.x + r.width / 2 {
                    KeyCode::Left
                } else {
                    KeyCode::Right
                },
                control: false,
            };
            let t = s.on_mouse(me, l);
            &&& mouse::hits(l.filters[0], x, y) ==> t == on(CatalogField::ProfileFilter).on_key(arrow(l.filters[0])).0
            &&& !mouse::hits(l.filters[0], x, y) && mouse::hits(l.filters[1], x, y) ==> t == on(
                CatalogField::CategoryFilter,
            ).on_key(arrow(l.filters[1])).0
            &&& !mouse::hits(l.filters[0], x, y) && !mouse::hits(l.filters[1], x, y) && mouse::button_hit(
                x,
                y,
                l.filters[2],
                seq!["Apply Profile to Staged"@],
            ) is Some ==> {
                let k = on(CatalogField::BtnApplyProfile).on_key(enter()).0;
                t.staged == k.staged && t.tab == k.tab && t.log == k.log && t.requests == s.requests
            }
        }),
{
    reveal(KernelTuneScreenModel::on_catalog_mouse);
    reveal(KernelTuneScreenModel::catalog_clicked);
    reveal(KernelTuneScreenModel::on_tab_key);
    reveal(KernelTuneScreenModel::on_catalog_key);
    reveal(KernelTuneScreenModel::on_catalog_field_key);
    reveal(KernelTuneScreenModel::apply_profile);
}

/// A click on a change of the history reverts it, as Enter does; the button
/// reverts all, as the key A does.
pub proof fn clicking_the_history_reverts(
    s: KernelTuneScreenModel,
    me: MouseEvent,
    l: KernelTuneLayoutModel,
    x: u16,
    y: u16,
)
    requires
        tuner_free(s, me, l),
        s.tab == kerneltune_screen::Tab::Revert,
        pressed(me, x, y),
    ensures
        ({
            let hit = mouse::table_hit(x, y, l.review[0], 1, s.entries().len() as int, s.revert_tab.selected_row);
            let t = s.on_mouse(me, l);
            &&& hit matches Some(i) ==> t == (KernelTuneScreenModel {
                revert_tab: RevertTabModel { selected_row: i as int },
                ..s
            }).on_key(enter()).0
            &&& hit is None && mouse::button_hit(x, y, mouse::inner(l.review[1]), seq!["Revert All (A)"@]) is Some
                ==> t == s.on_key(KeyEvent { code: KeyCode::Char('A'), control: false }).0
        }),
{
    reveal(KernelTuneScreenModel::on_revert_mouse);
    reveal(KernelTuneScreenModel::on_tab_key);
    reveal(KernelTuneScreenModel::on_revert_key);
}

/// A click on a tab opens it: target, catalog, review and history in order.
pub proof fn clicking_a_tuner_tab_opens_it(s: KernelTuneScreenModel, me: MouseEvent, l: KernelTuneLayoutModel, i: usize)
    requires
        s.log.alert is None,
        s.confirm_apply is None,
        s.catalog_tab.detail is None,
        KernelTuneScreenModel::tab_hit(me, l) == Some(i),
        i < 4,
    ensures
        ({
            let f = KeyCode::F((i + 1) as u8);
            !s.target_tab.picking() ==> s.on_mouse(me, l) == s.on_key(KeyEvent { code: f, control: false }).0
        }),
{
}

/// The wheel moves the selection of the table under it, up where it turns up.
pub proof fn the_wheel_moves_the_tuner_tables(s: KernelTuneScreenModel, me: MouseEvent, l: KernelTuneLayoutModel, d: i32)
    requires
        tuner_free(s, me, l),
        mouse::scrolled(me) == Some(d),
    ensures
        ({
            let t = s.on_mouse(me, l);
            let step = if d < 0 {
                -1int
            } else {
                1
            };
            &&& s.tab == kerneltune_screen::Tab::Review && mouse::hits(l.review[0], me.column, me.row) && 0
                <= s.review_tab.selected_row + step < s.staged.len() && 0 <= s.review_tab.selected_row < s.staged.len()
                ==> t.review_tab.selected_row == s.review_tab.selected_row + step && t.staged == s.staged
            &&& s.tab == kerneltune_screen::Tab::Revert && mouse::hits(l.review[0], me.column, me.row) && 0
                <= s.revert_tab.selected_row + step < s.entries().len() && 0 <= s.revert_tab.selected_row
                < s.entries().len() ==> t.revert_tab.selected_row == s.revert_tab.selected_row + step && t.requests
                == s.requests
            &&& s.tab == kerneltune_screen::Tab::Catalog && mouse::hits(l.catalog[1], me.column, me.row) && 0
                <= s.catalog_tab.selected_row + step < s.catalog_tab.filtered(s.catalog).len() && 0
                <= s.catalog_tab.selected_row < s.catalog_tab.filtered(s.catalog).len() ==> t.catalog_tab.selected_row
                == s.catalog_tab.selected_row + step && t.staged == s.staged
        }),
{
    reveal(KernelTuneScreenModel::on_review_mouse);
    reveal(KernelTuneScreenModel::on_revert_mouse);
    reveal(KernelTuneScreenModel::on_catalog_mouse);
}

// ------------------------------------------------------------------- target

/// Whether the form of the target takes the mouse.
pub open spec fn target_free(t: TargetTabModel) -> bool {
    t.host_picker is None && t.key_picker is None
}

/// A click on the form of a target: the mode that was hit is taken, Connect
/// connects, the fields with a picker open it, and the others get the focus.
pub proof fn clicking_the_target_form(t: TargetTabModel, me: MouseEvent, l: TargetLayoutModel, x: u16, y: u16)
    requires
        target_free(t),
        pressed(me, x, y),
    ensures
        ({
            let mode = target::mode_hit(x, y, l.form[0]);
            let button = mouse::button_hit(x, y, l.form[target::connect_row(t.is_remote)], seq!["Connect"@]);
            let field = form::field_hit(l.form, target::target_form(t.is_remote), x, y);
            let r = t.on_mouse(me, l);
            &&& mode matches Some(i) ==> r.0 == (TargetTabModel { is_remote: i == 1, ..t })
            &&& mode is None && button is Some ==> r == (t, TargetActionModel::Connect)
            &&& mode is None && button is None ==> (field matches Some(f) ==> {
                let at = TargetTabModel { field: f, ..t };
                &&& f == TargetField::SshHost || f == TargetField::SshKeyPath ==> r.0 == t && r.1 == at.on_key(
                    KeyCode::Enter,
                ).1
                &&& f != TargetField::SshHost && f != TargetField::SshKeyPath ==> r == (at, TargetActionModel::Nothing)
            })
        }),
{
}

// --------------------------------------------------------------------- logs

/// Whether the form of a connection takes the mouse.
pub open spec fn logs_form_free(t: ConnectionsTabModel) -> bool {
    t.host_picker is None && t.key_picker is None
}

/// A click on a known connection loads it, as Enter on its row does; the
/// buttons do what Enter on them does; fields get the focus.
pub proof fn clicking_the_connections_of_the_logs(
    t: ConnectionsTabModel,
    me: MouseEvent,
    l: LogsLayoutModel,
    saved: Seq<ConnectionModel>,
    extra: Seq<ServerModel>,
    x: u16,
    y: u16,
)
    requires
        logs_form_free(t),
        pressed(me, x, y),
    ensures
        ({
            let total = logs_screen::row_total(saved.len(), extra.len());
            let row = mouse::table_hit(x, y, l.conn[0], 1, total, t.table_idx);
            let button = mouse::button_hit(x, y, l.form[13], seq!["Save"@, "New"@, "Delete"@, "Test Connection"@]);
            let field = form::field_hit(l.form, logs_screen::conn_form(), x, y);
            let on = |f: ConnField| ConnectionsTabModel { field: f, ..t };
            let r = t.on_mouse(me, l, saved, extra);
            &&& row matches Some(i) ==> {
                let k = (ConnectionsTabModel { table_idx: i as int, field: ConnField::Table, ..t }).on_key(
                    KeyCode::Enter,
                    saved,
                    extra,
                );
                total > 0 ==> r == (ConnectionsTabModel { field: r.0.field, ..k.0 }, k.1)
            }
            &&& row is None ==> (button matches Some(i) ==> {
                let f = if i == 0 {
                    ConnField::BtnSave
                } else if i == 1 {
                    ConnField::BtnNew
                } else if i == 2 {
                    ConnField::BtnDelete
                } else {
                    ConnField::BtnTest
                };
                let k = on(f).on_key(KeyCode::Enter, saved, extra);
                r.1 == k.1 && r.0 == (ConnectionsTabModel { field: r.0.field, ..k.0 })
            })
            &&& row is None && button is None ==> (field matches Some(f) ==> {
                &&& f == ConnField::Host || f == ConnField::SshKeyPath ==> r == (t, on(f).on_key(
                    KeyCode::Enter,
                    saved,
                    extra,
                ).1)
                &&& f != ConnField::Host && f != ConnField::SshKeyPath ==> r == (on(f), ConnActionModel::Nothing)
            })
        }),
{
}

/// A click in the viewer: the log gets the focus, the switches turn, the
/// buttons fetch and browse.
pub proof fn clicking_the_viewer(t: ViewerTabModel, me: MouseEvent, l: LogsLayoutModel, x: u16, y: u16)
    requires
        !t.connection_dropdown_open,
        pressed(me, x, y),
        mouse::scrolled(me) is None,
    ensures
        ({
            let rows = logs_screen::viewer_form(t.journal);
            let pane = mouse::hits(l.viewer[1], x, y);
            let field = form::field_hit(l.filters, rows, x, y);
            let row = l.filters[form::button_row(rows)];
            let r = t.on_mouse(me, l);
            &&& pane ==> r == (ViewerTabModel { field: ViewerField::LogPane, ..t }, ViewerAction::Nothing)
            &&& !pane && field is None && t.journal && mouse::button_hit(x, y, row, seq!["Fetch"@]) is Some ==> r == (
                t,
                ViewerAction::Fetch,
            )
            &&& !pane && field is None && !t.journal ==> (mouse::button_hit(x, y, row, seq!["Browse"@, "Fetch"@])
                matches Some(i) ==> {
                &&& i == 0 ==> r == (t, ViewerAction::Browse)
                &&& i != 0 ==> r == (t, ViewerAction::Fetch)
            })
            &&& !pane ==> (field matches Some(f) ==> {
                &&& r.0.field == f
                &&& r.1 == ViewerAction::Nothing
                &&& f == ViewerField::Source ==> r.0.journal == !t.journal
                &&& f == ViewerField::AutoRefresh ==> r.0.auto_refresh == !t.auto_refresh
            })
        }),
{
}

/// The tabs of the logs open by a click, and the actions of the mouse are
/// carried out as those of the keys.
pub proof fn clicks_in_the_logs_are_carried_out(m: LogsScreenModel, me: MouseEvent, l: LogsLayoutModel)
    requires
        m.log.alert is None,
    ensures
        ({
            let t = m.on_mouse(me, l);
            let hit = LogsScreenModel::tab_hit(me, l);
            &&& hit matches Some(i) ==> (i == 0 ==> t == (LogsScreenModel { tab: logs_screen::Tab::Connections, ..m }))
            &&& hit matches Some(i) ==> (i != 0 ==> t == (LogsScreenModel { tab: logs_screen::Tab::Viewer, ..m }))
            &&& hit is None && m.tab == logs_screen::Tab::Connections ==> {
                let r = m.connections_tab.on_mouse(me, l, m.cfg.connections, m.extra());
                t == (LogsScreenModel { connections_tab: r.0, ..m }).conn_done(r.1)
            }
            &&& hit is None && m.tab == logs_screen::Tab::Viewer && m.viewer_tab.browser is None ==> {
                let r = m.viewer_tab.on_mouse(me, l);
                t == (LogsScreenModel { viewer_tab: r.0, ..m }).viewer_done(r.1)
            }
        }),
{
}

/// The wheel scrolls the log by three lines where it is over it.
pub proof fn the_wheel_scrolls_the_log(t: ViewerTabModel, me: MouseEvent, l: LogsLayoutModel, d: i32)
    requires
        !t.connection_dropdown_open,
        mouse::scrolled(me) == Some(d),
        mouse::hits(l.viewer[1], me.column, me.row),
    ensures
        d < 0 ==> t.on_mouse(me, l) == (t.scroll_up(3), ViewerAction::Nothing),
        d >= 0 ==> t.on_mouse(me, l) == (t.scroll_down(3), ViewerAction::Nothing),
{
}

// ------------------------------------------------------------ configuration

/// A click in the form of a check: the fields get the focus, the buttons browse
/// and check.
pub proof fn clicking_the_check_form(t: CheckTabModel, me: MouseEvent, l: ConfigCheckLayoutModel, x: u16, y: u16)
    requires
        t.browser is None,
        pressed(me, x, y),
        mouse::scrolled(me) is None,
    ensures
        ({
            let rows = l.check_form;
            let path = mouse::hits(rows[0], x, y);
            let kind = mouse::hits(rows[2], x, y);
            let button = mouse::button_hit(x, y, rows[4], config_check_screen::check_buttons());
            let r = t.on_mouse(me, l);
            &&& path ==> r == (CheckTabModel { field: CheckField::Path, ..t }, CheckActionModel::Nothing)
            &&& !path && kind ==> r == (CheckTabModel { field: CheckField::Format, ..t }, CheckActionModel::Nothing)
            &&& !path && !kind ==> (button matches Some(i) ==> {
                &&& i == 0 ==> r == (t, CheckActionModel::Browse)
                &&& i != 0 ==> r == (t, CheckActionModel::Check)
            })
        }),
{
    reveal(CheckTabModel::clicked);
    reveal(CheckTabModel::on_mouse);
}

/// The tabs of the checker open by a click, the results scroll by the wheel.
pub proof fn clicking_a_checker_tab_opens_it(
    s: ConfigCheckScreenModel,
    me: MouseEvent,
    l: ConfigCheckLayoutModel,
    i: usize,
)
    requires
        s.log.alert is None,
        !s.check_tab.confirm_fix,
        !s.check_tab.show_results,
        ConfigCheckScreenModel::tab_hit(me, l) == Some(i),
    ensures
        i == 0 ==> s.on_mouse(me, l) == (ConfigCheckScreenModel { tab: config_check_screen::Tab::Target, ..s }),
        i != 0 ==> s.on_mouse(me, l) == (ConfigCheckScreenModel { tab: config_check_screen::Tab::Check, ..s }),
{
}

// --------------------------------------------------------------- ClickHouse

/// Whether the connections of ClickHouse take the mouse.
pub open spec fn clickhouse_free(m: ClickHouseScreenModel, me: MouseEvent, l: ClickHouseLayoutModel) -> bool {
    &&& m.log.alert is None
    &&& m.users_tab.modal is None
    &&& ClickHouseScreenModel::tab_hit(me, l) is None
}

/// A click on a saved connection loads it, as Enter on its row does; the
/// buttons do what Enter on them does.
pub proof fn clicking_the_connections_of_clickhouse(
    m: ClickHouseScreenModel,
    me: MouseEvent,
    l: ClickHouseLayoutModel,
    x: u16,
    y: u16,
)
    requires
        clickhouse_free(m, me, l),
        m.tab == clickhouse_screen::Tab::Connections,
        m.connections_tab.host_picker is None,
        m.connections_tab.key_picker is None,
        pressed(me, x, y),
    ensures
        ({
            let ct = m.connections_tab;
            let n = m.cfg.connections.len() as int;
            let row = mouse::table_hit(x, y, l.conn[0], 1, n, ct.table_idx);
            let button = mouse::button_hit(
                x,
                y,
                l.form[form::button_row(ct.rows())],
                seq!["Save"@, "New"@, "Delete"@, "Test Connection"@],
            );
            let on = |f: clickhouse_screen::ConnField| ClickHouseScreenModel {
                connections_tab: clickhouse_screen::ConnectionsTabModel { field: f, ..ct },
                ..m
            };
            let same = |a: ClickHouseScreenModel, b: ClickHouseScreenModel| a == ClickHouseScreenModel {
                connections_tab: clickhouse_screen::ConnectionsTabModel {
                    field: a.connections_tab.field,
                    ..b.connections_tab
                },
                ..b
            };
            let t = m.on_mouse(me, l);
            &&& row matches Some(i) ==> n > 0 ==> {
                let at = on(clickhouse_screen::ConnField::Table);
                same(
                    t,
                    (ClickHouseScreenModel {
                        connections_tab: clickhouse_screen::ConnectionsTabModel {
                            table_idx: i as int,
                            ..at.connections_tab
                        },
                        ..at
                    }).on_key(enter()).0,
                )
            }
            &&& row is None ==> (button matches Some(i) ==> {
                let f = if i == 0 {
                    clickhouse_screen::ConnField::BtnSave
                } else if i == 1 {
                    clickhouse_screen::ConnField::BtnNew
                } else if i == 2 {
                    clickhouse_screen::ConnField::BtnDelete
                } else {
                    clickhouse_screen::ConnField::BtnTest
                };
                same(t, on(f).on_key(enter()).0)
            })
        }),
{
    reveal(ClickHouseScreenModel::on_connections_mouse);
    reveal(ClickHouseScreenModel::click_connections);
    reveal(ClickHouseScreenModel::on_connections_key);
}

/// A click on a user opens it, the buttons list and add, as Enter on them does.
pub proof fn clicking_the_users(
    m: ClickHouseScreenModel,
    me: MouseEvent,
    l: ClickHouseLayoutModel,
    x: u16,
    y: u16,
)
    requires
        clickhouse_free(m, me, l),
        m.tab == clickhouse_screen::Tab::Users,
        !m.users_tab.connection_dropdown_open,
        pressed(me, x, y),
        !mouse::hits(l.top[0], x, y),
    ensures
        ({
            let ut = m.users_tab;
            let connect = mouse::button_hit(x, y, l.top[1], seq!["Connect / Refresh"@]);
            let row = mouse::table_hit(x, y, l.users[1], 1, ut.rows.len() as int, ut.selected_row);
            let add = mouse::button_hit(x, y, l.action[0], seq!["Add User"@]);
            let on = |f: UsersField, row: int| ClickHouseScreenModel {
                users_tab: UsersTabModel { field: f, selected_row: row, ..ut },
                ..m
            };
            let t = m.on_mouse(me, l);
            &&& connect is Some ==> {
                let k = on(UsersField::BtnConnect, ut.selected_row).on_key(enter()).0;
                t.requests == k.requests && t.log == k.log && t.users_tab == ut
            }
            &&& connect is None ==> (row matches Some(i) ==> (i < ut.rows.len() ==> {
                let k = on(UsersField::Table, i as int).on_key(enter()).0;
                t.users_tab.modal == k.users_tab.modal && t.users_tab.selected_row == i && t.requests == m.requests
            }))
            &&& connect is None && row is None && add is Some ==> {
                let k = on(UsersField::BtnAddUser, ut.selected_row).on_key(enter()).0;
                t.users_tab.modal == k.users_tab.modal && t.log == k.log && t.requests == m.requests
            }
        }),
{
    reveal(ClickHouseScreenModel::on_users_mouse);
    reveal(ClickHouseScreenModel::click_users);
    reveal(ClickHouseScreenModel::on_users_key);
}

/// The tabs of ClickHouse open by a click.
pub proof fn clicking_a_clickhouse_tab_opens_it(
    m: ClickHouseScreenModel,
    me: MouseEvent,
    l: ClickHouseLayoutModel,
    i: usize,
)
    requires
        m.log.alert is None,
        m.users_tab.modal is None,
        ClickHouseScreenModel::tab_hit(me, l) == Some(i),
    ensures
        i == 0 ==> m.on_mouse(me, l) == (ClickHouseScreenModel { tab: clickhouse_screen::Tab::Connections, ..m }),
        i != 0 ==> m.on_mouse(me, l) == (ClickHouseScreenModel { tab: clickhouse_screen::Tab::Users, ..m }),
{
}

// --------------------------------------------------------------- Cloudflare

/// A click on an account loads it, as Enter on its row does; the buttons do
/// what Enter on them does; fields get the focus.
pub proof fn clicking_the_accounts(
    t: AccountsTabModel,
    me: MouseEvent,
    l: CloudflareLayoutModel,
    accounts: Seq<AccountModel>,
    x: u16,
    y: u16,
)
    requires
        pressed(me, x, y),
    ensures
        ({
            let row = mouse::table_hit(x, y, l.accounts[0], 1, accounts.len() as int, t.table_idx);
            let button = mouse::button_hit(x, y, l.account_form[6], seq!["Save"@, "New"@, "Delete"@, "Test Token"@]);
            let field = form::field_hit(l.account_form, cloudflare_screen::account_form(), x, y);
            let on = |f: AccField| AccountsTabModel { field: f, ..t };
            let r = t.on_mouse(me, l, accounts);
            &&& row matches Some(i) ==> (accounts.len() > 0 ==> {
                let k = (AccountsTabModel { table_idx: i as int, field: AccField::Table, ..t }).on_key(
                    KeyCode::Enter,
                    accounts,
                );
                r == (AccountsTabModel { field: t.field, ..k.0 }, AccAction::Nothing)
            })
            &&& row is None ==> (button matches Some(i) ==> {
                let f = if i == 0 {
                    AccField::BtnSave
                } else if i == 1 {
                    AccField::BtnNew
                } else if i == 2 {
                    AccField::BtnDelete
                } else {
                    AccField::BtnTest
                };
                let k = on(f).on_key(KeyCode::Enter, accounts);
                r == (AccountsTabModel { field: t.field, ..k.0 }, k.1)
            })
            &&& row is None && button is None ==> (field matches Some(f) ==> r == (on(f), AccAction::Nothing))
        }),
{
    reveal(AccountsTabModel::on_mouse);
    reveal(AccountsTabModel::clicked);
}

/// A click on a record opens it; the buttons fetch and add, as Enter on them
/// does.
pub proof fn clicking_the_records(
    t: RecordsTabModel,
    me: MouseEvent,
    l: CloudflareLayoutModel,
    cfg: ConfigModel,
    x: u16,
    y: u16,
)
    requires
        t.modal is None,
        !t.account_dropdown_open,
        !t.zone_dropdown_open,
        pressed(me, x, y),
        mouse::scrolled(me) is None,
        !mouse::hits(l.top[0], x, y),
        !mouse::hits(l.search[0], x, y),
        !mouse::hits(l.search[2], x, y),
    ensures
        ({
            let visible = t.visible(cfg.accounts);
            let zone = mouse::hits(l.top[2], x, y);
            let row = mouse::table_hit(x, y, l.records[2], 1, visible.len() as int, t.selected_row);
            let r = t.on_mouse(me, l, cfg);
            &&& zone && x - l.top[2].x >= RecordsTabModel::fetch_column(l.top[2]) ==> r == (t, RecActionModel::Fetch)
            &&& !zone ==> (row matches Some(i) ==> r == (RecordsTabModel {
                selected_row: i as int,
                field: RecField::Table,
                modal: Some(RecordModalModel::Edit(EditModalModel::of(visible[i as int]))),
                ..t
            }, RecActionModel::Nothing))
            &&& !zone && row is None && mouse::button_hit(x, y, l.actions[0], seq!["Add Record(s)"@]) is Some ==> r == (
                t,
                RecActionModel::OpenAdd,
            )
        }),
{
    reveal(RecordsTabModel::on_mouse);
    reveal(RecordsTabModel::clicked);
}

/// A click on the search gives it the focus.
pub proof fn clicking_the_search_takes_the_focus(
    t: RecordsTabModel,
    me: MouseEvent,
    l: CloudflareLayoutModel,
    cfg: ConfigModel,
    x: u16,
    y: u16,
)
    requires
        t.modal is None,
        !t.account_dropdown_open,
        !t.zone_dropdown_open,
        pressed(me, x, y),
        mouse::scrolled(me) is None,
        !mouse::hits(l.top[0], x, y),
        !mouse::hits(l.top[2], x, y),
        mouse::hits(l.search[0], x, y),
    ensures
        t.on_mouse(me, l, cfg) == (RecordsTabModel { field: RecField::Search, ..t }, RecActionModel::Nothing),
{
    reveal(RecordsTabModel::on_mouse);
    reveal(RecordsTabModel::clicked);
}

/// The buttons of the window for new records stage, save and leave, as Enter on
/// them does.
pub proof fn clicking_the_buttons_of_new_records(
    m: AddModalModel,
    me: MouseEvent,
    rows: Seq<Rect>,
    area: Rect,
    zones_known: bool,
    found: Seq<Seq<char>>,
    x: u16,
    y: u16,
)
    requires
        !m.zone_dropdown_open,
        pressed(me, x, y),
        mouse::scrolled(me) is None,
        !mouse::hits(rows[0], x, y),
        mouse::plain_hit(x, y, rows[11], m.pending.len() as int) is None,
    ensures
        ({
            let stage = mouse::button_hit(x, y, rows[8], seq!["+ Add to list"@]);
            let button = mouse::button_hit(x, y, rows[13], seq!["Save All"@, "Cancel"@]);
            let on = |f: AddField| AddModalModel { field: f, ..m };
            let r = m.on_mouse(me, rows, area, zones_known, found);
            &&& stage is Some ==> r == on(AddField::BtnStage).on_key(KeyCode::Enter, zones_known, found)
            &&& stage is None ==> (button matches Some(i) ==> {
                &&& i == 0 ==> r == on(AddField::BtnSaveAll).on_key(KeyCode::Enter, zones_known, found)
                &&& i != 0 ==> r == on(AddField::BtnCancel).on_key(KeyCode::Enter, zones_known, found)
            })
        }),
{
    reveal(AddModalModel::on_mouse);
    reveal(AddModalModel::aimed);
}

/// The buttons of the window of a record update, delete and leave.
pub proof fn clicking_the_buttons_of_a_record(m: EditModalModel, me: MouseEvent, rows: Seq<Rect>, x: u16, y: u16)
    requires
        pressed(me, x, y),
    ensures
        ({
            let button = mouse::button_hit(x, y, rows[6], seq!["Update"@, "Delete"@, "Cancel"@]);
            let on = |f: EditField| EditModalModel { field: f, ..m };
            let r = m.on_mouse(me, rows);
            button matches Some(i) ==> {
                &&& i == 0 ==> r == (on(EditField::BtnUpdate), EditAction::Update)
                &&& i == 1 ==> r == (on(EditField::BtnDelete), EditAction::Delete)
                &&& i > 1 ==> r == (on(EditField::BtnCancel), EditAction::Close)
            }
        }),
{
    reveal(EditModalModel::aimed);
}

/// The actions of the mouse are carried out as those of the keys, and a click
/// on a tab opens it.
pub proof fn clicks_in_cloudflare_are_carried_out(
    s: CloudflareScreenModel,
    me: MouseEvent,
    l: CloudflareLayoutModel,
)
    requires
        s.log.alert is None,
        s.records_tab.modal is None,
    ensures
        ({
            let t = s.on_mouse(me, l);
            let hit = CloudflareScreenModel::tab_hit(me, l);
            &&& hit matches Some(i) ==> (i == 0 ==> t == s.on_key(KeyEvent { code: KeyCode::F(1), control: false }).0)
            &&& hit matches Some(i) ==> (i != 0 ==> t == s.on_key(KeyEvent { code: KeyCode::F(2), control: false }).0)
            &&& hit is None && s.tab == cloudflare_screen::Tab::Accounts ==> {
                let r = s.accounts_tab.on_mouse(me, l, s.cfg.accounts);
                t == (CloudflareScreenModel { accounts_tab: r.0, ..s }).account_done(r.1)
            }
            &&& hit is None && s.tab == cloudflare_screen::Tab::Records ==> {
                let r = s.records_tab.on_mouse(me, l, s.cfg);
                t == (CloudflareScreenModel { records_tab: r.0, ..s }).record_done(r.1)
            }
        }),
{
}

// ------------------------------------------------------------------ windows

/// Clicks in the window of a database: the inputs get the focus, the buttons
/// create and leave.
pub proof fn clicking_the_window_of_a_database(m: CreateDbModel, me: MouseEvent, rows: Seq<Rect>, x: u16, y: u16)
    requires
        pressed(me, x, y),
    ensures
        ({
            let r = m.on_mouse(me, rows);
            let on = |f: CreateDbField| (CreateDbModel { field: f, ..m }, CreateDbAction::Nothing);
            let (one, two, three) = (mouse::hits(rows[0], x, y), mouse::hits(rows[2], x, y), mouse::hits(rows[5], x, y));
            let button = mouse::button_hit(x, y, rows[9], seq!["Create"@, "Cancel"@]);
            &&& one ==> r == on(CreateDbField::Name)
            &&& !one && two ==> r == on(CreateDbField::Opt1)
            &&& !one && !two && three ==> r == on(CreateDbField::Opt2)
            &&& !one && !two && !three ==> (button matches Some(i) ==> {
                &&& i == 0 ==> r == (m, CreateDbAction::Submit)
                &&& i != 0 ==> r == (m, CreateDbAction::Close)
            })
        }),
{
}

/// Clicks in the window of the tags: the input gets the focus, the buttons save
/// and leave; in the question of a deletion they delete and leave.
pub proof fn clicking_the_windows_of_a_host(
    t: EditTagsModalModel,
    c: ConfirmDeleteModalModel,
    rows: Seq<Rect>,
    x: u16,
    y: u16,
)
    ensures
        ({
            let button = mouse::button_hit(x, y, rows[3], seq!["Save"@, "Cancel"@]);
            let r = t.clicked(x, y, rows);
            &&& button matches Some(i) ==> (i == 0 ==> r == (t, SmallAction::Act))
            &&& button matches Some(i) ==> (i != 0 ==> r == (t, SmallAction::Close))
            &&& button is None && mouse::hits(rows[0], x, y) ==> r == (
                EditTagsModalModel { field: EditTagsField::Tags, ..t },
                SmallAction::Nothing,
            )
            &&& button is None && !mouse::hits(rows[0], x, y) ==> r == (t, SmallAction::Nothing)
        }),
        ({
            let button = mouse::button_hit(x, y, rows[2], seq!["Delete"@, "Cancel"@]);
            let r = c.clicked(x, y, rows);
            &&& button matches Some(i) ==> (i == 0 ==> r == SmallAction::Act)
            &&& button matches Some(i) ==> (i != 0 ==> r == SmallAction::Close)
            &&& button is None ==> r == SmallAction::Nothing
        }),
{
}

/// A plain list is hit at the row under the pointer.
pub proof fn plain_rows_are_hit_where_they_stand(area: Rect, n: int, x: u16, y: u16, i: usize)
    ensures
        mouse::plain_hit(x, y, area, n) == Some(i) <==> {
            &&& area.x <= x < area.x + area.width
            &&& area.y <= y < area.y + area.height
            &&& y == area.y + i
            &&& i < n
        },
{
}

} // verus!
