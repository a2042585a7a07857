//! What is drawn shows what is there: every row its own item, every input its own
//! text, and passwords never.
use crate::clickhouse_draw;
use crate::clickhouse_screen;
use crate::clickhouse_screen::{AddUserModalModel, ClickHouseLayoutModel, ClickHouseScreenModel, EditUserModalModel};
use crate::cloudflare_draw;
use crate::cloudflare_screen;
use crate::cloudflare_screen::{AccField, AccountsTabModel, CloudflareLayoutModel, CloudflareScreenModel};
use crate::config_check_draw;
use crate::config_check_screen;
use crate::config_check_screen::{CheckField, CheckTabModel};
use crate::create_db_modal::{CreateDbField, CreateDbModel};
use crate::dns_record;
use crate::dns_record::{FormField, RecordFormModel, RecordType};
use crate::easyssh_draw;
use crate::easyssh_screen;
use crate::easyssh_screen::{EasySshScreenModel, EditField, EditTagsField, EditTagsModalModel, ServerFormModel};
use crate::file_picker;
use crate::form::Row;
use crate::geometry::Rect;
use crate::home;
use crate::host_picker;
use crate::kerneltune_draw;
use crate::kerneltune_screen;
use crate::kerneltune_screen::{
    CatalogModel, DetailField, DetailModalModel, HistoryEntryModel, KernelTuneLayoutModel, KernelTuneScreenModel,
    StagedChangeModel, TunableModel,
};
use crate::log::LogModel;
use crate::logs_draw;
use crate::logs_screen;
use crate::logs_screen::{ConnField, ConnectionsTabModel, LogsLayoutModel, LogsScreenModel, ViewerField, ViewerTabModel};
use crate::mouse;
use crate::picture;
use crate::picture::{LineModel, OpModel, PictureModel, SpanModel};
use crate::screen::Screen;
use crate::servers::ServerModel;
use crate::target::{TargetField, TargetTabModel};
use crate::text;
use crate::widgets::InputModel;
use vstd::prelude::*;

verus! {

/// The text of a cell of a line.
pub open spec fn cell(line: LineModel, k: int) -> Seq<char> {
    match line.spans[k] {
        SpanModel::Text { text, tone } => text,
        _ => Seq::empty(),
    }
}

/// Whether an input is drawn in an area, behind its label.
pub open spec fn is_input(op: OpModel, area: Rect, input: InputModel, focused: bool, secret: bool) -> bool {
    match op {
        OpModel::Line { area: a, line } => {
            &&& a == area
            &&& line.spans.len() >= 2
            &&& match line.spans[1] {
                SpanModel::Field { input: i, focused: f, secret: s, width } => i == input && f == focused && s
                    == secret,
                _ => false,
            }
        },
        _ => false,
    }
}

/// Whether a picture shows an input in an area.
pub open spec fn draws(p: PictureModel, area: Rect, input: InputModel, focused: bool, secret: bool) -> bool {
    exists|i: int| 0 <= i < p.ops.len() && is_input(#[trigger] p.ops[i], area, input, focused, secret)
}

/// Whether a table is drawn in an area, with these columns and rows.
pub open spec fn is_table(op: OpModel, area: Rect, titles: Seq<Seq<char>>, rows: Seq<LineModel>) -> bool {
    match op {
        OpModel::Table { area: a, table } => {
            &&& a == area
            &&& table.rows == rows
            &&& table.columns.len() == titles.len()
            &&& forall|k: int| 0 <= k < titles.len() ==> (#[trigger] table.columns[k]).title == titles[k]
        },
        _ => false,
    }
}

/// Whether a picture shows a table in an area, with these columns and rows.
pub open spec fn draws_table(p: PictureModel, area: Rect, titles: Seq<Seq<char>>, rows: Seq<LineModel>) -> bool {
    exists|i: int| 0 <= i < p.ops.len() && is_table(#[trigger] p.ops[i], area, titles, rows)
}

/// Whether a picture shows the history in an area.
pub open spec fn draws_history(p: PictureModel, area: Rect, log: LogModel) -> bool {
    exists|i: int|
        0 <= i < p.ops.len() && #[trigger] p.ops[i] == (OpModel::History {
            area,
            lines: log.history,
            scroll: log.scroll,
        })
}

// --------------------------------------------------------------------- rows

/// The row of a host shows its alias, its host name, its user, its tags and its last
/// connection, with a mark for a pin and for a forwarding.
pub proof fn hosts_are_listed_in_their_row(v: Seq<ServerModel>, i: int)
    requires
        0 <= i < v.len(),
    ensures
        easyssh_draw::server_lines(v).len() == v.len(),
        ({
            let x = v[i];
            let line = easyssh_draw::server_lines(v)[i];
            &&& cell(line, 1) == x.alias
            &&& cell(line, 2) == (if x.host.len() > 0 { x.host } else { x.alias })
            &&& cell(line, 3) == x.user
            &&& cell(line, 4) == text::joined(x.tags, ", "@)
            &&& cell(line, 5) == x.last_seen_text
            &&& cell(line, 0) == (if x.pinned_at is Some { "\u{2605}"@ } else { ""@ })
            &&& cell(line, 6) == (if x.forwarding { "F"@ } else { ""@ })
        }),
    decreases v.len(),
{
    reveal_with_fuel(easyssh_draw::server_lines, 2);
    if i < v.len() - 1 {
        hosts_are_listed_in_their_row(v.drop_last(), i);
    } else if v.len() > 1 {
        hosts_are_listed_in_their_row(v.drop_last(), 0);
    }
}

/// The row of a group shows its tag and how many hosts have it.
pub proof fn groups_are_listed_in_their_row(v: Seq<(Seq<char>, int)>, i: int)
    requires
        0 <= i < v.len(),
    ensures
        easyssh_draw::tag_lines(v).len() == v.len(),
        ({
            let x = v[i];
            let line = easyssh_draw::tag_lines(v)[i];
            &&& cell(line, 0) == "  "@ + x.0
            &&& cell(line, 1) == "  ("@ + text::decimal(x.1 as nat) + ")"@
        }),
    decreases v.len(),
{
    reveal_with_fuel(easyssh_draw::tag_lines, 2);
    if i < v.len() - 1 {
        groups_are_listed_in_their_row(v.drop_last(), i);
    } else if v.len() > 1 {
        groups_are_listed_in_their_row(v.drop_last(), 0);
    }
}

/// The row of an offered host shows its alias first, padded, then who logs in where.
pub proof fn offered_hosts_are_listed_in_their_row(v: Seq<ServerModel>, i: int)
    requires
        0 <= i < v.len(),
    ensures
        host_picker::host_lines(v).len() == v.len(),
        ({
            let x = v[i];
            let line = host_picker::host_lines(v)[i];
            let login = if x.user.len() > 0 {
                x.user + "@"@
            } else {
                ""@
            };
            let host = if x.host.len() > 0 {
                x.host
            } else {
                x.alias
            };
            &&& cell(line, 0) == picture::padded(x.alias, 22)
            &&& cell(line, 1) == " "@ + login + host
        }),
    decreases v.len(),
{
    reveal_with_fuel(host_picker::host_lines, 2);
    if i < v.len() - 1 {
        offered_hosts_are_listed_in_their_row(v.drop_last(), i);
    } else if v.len() > 1 {
        offered_hosts_are_listed_in_their_row(v.drop_last(), 0);
    }
}

/// The row of a file shows its name, that of a directory its name and a slash.
pub proof fn files_are_listed_in_their_row(v: Seq<file_picker::EntryModel>, i: int)
    requires
        0 <= i < v.len(),
    ensures
        file_picker::entry_lines(v).len() == v.len(),
        ({
            let x = v[i];
            let line = file_picker::entry_lines(v)[i];
            &&& cell(line, 0) == (if x.is_dir { x.name + "/"@ } else { x.name })
        }),
    decreases v.len(),
{
    reveal_with_fuel(file_picker::entry_lines, 2);
    if i < v.len() - 1 {
        files_are_listed_in_their_row(v.drop_last(), i);
    } else if v.len() > 1 {
        files_are_listed_in_their_row(v.drop_last(), 0);
    }
}

/// The row of a ClickHouse connection shows its label, its mode, where it leads and
/// whether through a tunnel.
pub proof fn clickhouse_connections_are_listed_in_their_row(v: Seq<clickhouse_screen::ConnectionModel>, i: int)
    requires
        0 <= i < v.len(),
    ensures
        clickhouse_draw::connection_lines(v).len() == v.len(),
        ({
            let x = v[i];
            let line = clickhouse_draw::connection_lines(v)[i];
            &&& cell(line, 0) == x.label
            &&& cell(line, 1) == (if x.is_sql { "SQL"@ } else { "SSH XML"@ })
            &&& cell(line, 2) == (if x.is_sql { x.host + ":"@ + x.port } else { x.ssh_host + " (ssh)"@ })
            &&& cell(line, 3) == (if !x.is_sql { "-"@ } else if x.use_tunnel { "yes"@ } else { "no"@ })
        }),
    decreases v.len(),
{
    reveal_with_fuel(clickhouse_draw::connection_lines, 2);
    if i < v.len() - 1 {
        clickhouse_connections_are_listed_in_their_row(v.drop_last(), i);
    } else if v.len() > 1 {
        clickhouse_connections_are_listed_in_their_row(v.drop_last(), 0);
    }
}

/// The row of a user shows its name, its profile and where it may come from.
pub proof fn users_are_listed_in_their_row(v: Seq<clickhouse_screen::UserInfoModel>, i: int)
    requires
        0 <= i < v.len(),
    ensures
        clickhouse_draw::user_lines(v).len() == v.len(),
        ({
            let x = v[i];
            let line = clickhouse_draw::user_lines(v)[i];
            &&& cell(line, 0) == x.name
            &&& cell(line, 1) == x.profile
            &&& cell(line, 2) == (if x.ips.len() > 0 { text::joined(x.ips, ", "@) } else { "localhost only"@ })
        }),
    decreases v.len(),
{
    reveal_with_fuel(clickhouse_draw::user_lines, 2);
    if i < v.len() - 1 {
        users_are_listed_in_their_row(v.drop_last(), i);
    } else if v.len() > 1 {
        users_are_listed_in_their_row(v.drop_last(), 0);
    }
}

/// The row of an account shows its label and nothing of its token.
pub proof fn accounts_are_listed_without_their_token(v: Seq<cloudflare_screen::AccountModel>, i: int)
    requires
        0 <= i < v.len(),
    ensures
        cloudflare_draw::account_lines(v).len() == v.len(),
        ({
            let x = v[i];
            let line = cloudflare_draw::account_lines(v)[i];
            &&& cell(line, 0) == x.label
            &&& cell(line, 1) == "\u{2022}\u{2022}\u{2022}\u{2022}\u{2022}\u{2022} (encrypted)"@
        }),
    decreases v.len(),
{
    reveal_with_fuel(cloudflare_draw::account_lines, 2);
    if i < v.len() - 1 {
        accounts_are_listed_without_their_token(v.drop_last(), i);
    } else if v.len() > 1 {
        accounts_are_listed_without_their_token(v.drop_last(), 0);
    }
}

/// The row of a record shows its zone, type, name, value, time to live, whether it is
/// proxied, and its account.
pub proof fn records_are_listed_in_their_row(v: Seq<dns_record::DnsRecordModel>, i: int)
    requires
        0 <= i < v.len(),
    ensures
        cloudflare_draw::record_lines(v).len() == v.len(),
        ({
            let x = v[i];
            let line = cloudflare_draw::record_lines(v)[i];
            &&& cell(line, 0) == x.domain
            &&& cell(line, 1) == x.type_
            &&& cell(line, 2) == x.subdomain
            &&& cell(line, 3) == x.value
            &&& cell(line, 4) == (if x.ttl == 1 { "Auto"@ } else { text::decimal_int(x.ttl as int) })
            &&& cell(line, 5) == (if !dns_record::proxiable_name(x.type_) {
                "\u{2014}"@
            } else if x.proxied {
                "\u{2601} on"@
            } else {
                "off"@
            })
            &&& cell(line, 6) == x.account_label
        }),
    decreases v.len(),
{
    reveal_with_fuel(cloudflare_draw::record_lines, 2);
    if i < v.len() - 1 {
        records_are_listed_in_their_row(v.drop_last(), i);
    } else if v.len() > 1 {
        records_are_listed_in_their_row(v.drop_last(), 0);
    }
}

/// The row of a connection of the logs shows its label, its host with the port, and its
/// user.
pub proof fn log_connections_are_listed_in_their_row(v: Seq<logs_screen::ConnectionModel>, i: int)
    requires
        0 <= i < v.len(),
    ensures
        logs_draw::connection_lines(v).len() == v.len(),
        ({
            let x = v[i];
            let line = logs_draw::connection_lines(v)[i];
            &&& cell(line, 0) == x.label
            &&& cell(line, 1) == x.host + ":"@ + x.ssh_port
            &&& cell(line, 2) == x.ssh_user
        }),
    decreases v.len(),
{
    reveal_with_fuel(logs_draw::connection_lines, 2);
    if i < v.len() - 1 {
        log_connections_are_listed_in_their_row(v.drop_last(), i);
    } else if v.len() > 1 {
        log_connections_are_listed_in_their_row(v.drop_last(), 0);
    }
}

/// The row of a known host shows its alias, its host name with the port, and its user.
pub proof fn known_hosts_are_listed_in_their_row(v: Seq<ServerModel>, i: int)
    requires
        0 <= i < v.len(),
    ensures
        logs_draw::extra_lines(v).len() == v.len(),
        ({
            let x = v[i];
            let line = logs_draw::extra_lines(v)[i];
            &&& cell(line, 0) == x.alias
            &&& cell(line, 1) == (if x.host.len() > 0 {
                x.host
            } else {
                x.alias
            }) + ":"@ + (if x.port == 0 {
                "22"@
            } else {
                text::decimal(x.port as nat)
            })
            &&& cell(line, 2) == x.user
        }),
    decreases v.len(),
{
    reveal_with_fuel(logs_draw::extra_lines, 2);
    if i < v.len() - 1 {
        known_hosts_are_listed_in_their_row(v.drop_last(), i);
    } else if v.len() > 1 {
        known_hosts_are_listed_in_their_row(v.drop_last(), 0);
    }
}

/// Each line of the log is shown as it is.
pub proof fn the_log_is_shown_line_by_line(v: Seq<Seq<char>>, i: int)
    requires
        0 <= i < v.len(),
    ensures
        logs_draw::log_lines(v).len() == v.len(),
        ({
            let x = v[i];
            let line = logs_draw::log_lines(v)[i];
            &&& cell(line, 0) == x
        }),
    decreases v.len(),
{
    reveal_with_fuel(logs_draw::log_lines, 2);
    if i < v.len() - 1 {
        the_log_is_shown_line_by_line(v.drop_last(), i);
    } else if v.len() > 1 {
        the_log_is_shown_line_by_line(v.drop_last(), 0);
    }
}

/// The row of a remote file shows its name, that of a directory its name and a slash.
pub proof fn remote_files_are_listed_in_their_row(v: Seq<logs_screen::RemoteEntryModel>, i: int)
    requires
        0 <= i < v.len(),
    ensures
        logs_draw::entry_lines(v).len() == v.len(),
        ({
            let x = v[i];
            let line = logs_draw::entry_lines(v)[i];
            &&& cell(line, 0) == (if x.is_dir { x.name + "/"@ } else { x.name })
        }),
    decreases v.len(),
{
    reveal_with_fuel(logs_draw::entry_lines, 2);
    if i < v.len() - 1 {
        remote_files_are_listed_in_their_row(v.drop_last(), i);
    } else if v.len() > 1 {
        remote_files_are_listed_in_their_row(v.drop_last(), 0);
    }
}

/// The row of a file to check shows its name, that of a directory its name and a slash.
pub proof fn browsed_files_are_listed_in_their_row(v: Seq<config_check_screen::EntryModel>, i: int)
    requires
        0 <= i < v.len(),
    ensures
        config_check_draw::entry_lines(v).len() == v.len(),
        ({
            let x = v[i];
            let line = config_check_draw::entry_lines(v)[i];
            &&& cell(line, 0) == (if x.is_dir { x.name + "/"@ } else { x.name })
        }),
    decreases v.len(),
{
    reveal_with_fuel(config_check_draw::entry_lines, 2);
    if i < v.len() - 1 {
        browsed_files_are_listed_in_their_row(v.drop_last(), i);
    } else if v.len() > 1 {
        browsed_files_are_listed_in_their_row(v.drop_last(), 0);
    }
}

/// The row of a parameter shows its title, its value, the value that is staged and its
/// risk.
pub proof fn parameters_are_listed_in_their_row(
    v: Seq<TunableModel>,
    values: Seq<(Seq<char>, Seq<char>)>,
    staged: Seq<StagedChangeModel>,
    i: int,
)
    requires
        0 <= i < v.len(),
    ensures
        kerneltune_draw::catalog_lines(v, values, staged).len() == v.len(),
        ({
            let x = v[i];
            let line = kerneltune_draw::catalog_lines(v, values, staged)[i];
            &&& cell(line, 0) == x.title
            &&& cell(line, 1) == (match kerneltune_screen::value_of(values, x.key) { Some(s) => s, None => "n/a"@ })
            &&& cell(line, 2) == (match kerneltune_screen::staged_of(staged, x.key) { Some(c) => c.value, None => ""@ })
            &&& cell(line, 3) == x.risk.name()
        }),
    decreases v.len(),
{
    reveal_with_fuel(kerneltune_draw::catalog_lines, 2);
    if i < v.len() - 1 {
        parameters_are_listed_in_their_row(v.drop_last(), values, staged, i);
    } else if v.len() > 1 {
        parameters_are_listed_in_their_row(v.drop_last(), values, staged, 0);
    }
}

/// The row of a staged change shows its parameter, the value before, the new value,
/// whether it persists, and its risk.
pub proof fn staged_changes_are_listed_in_their_row(v: Seq<StagedChangeModel>, catalog: CatalogModel, i: int)
    requires
        0 <= i < v.len(),
    ensures
        kerneltune_draw::staged_lines(v, catalog).len() == v.len(),
        ({
            let x = v[i];
            let line = kerneltune_draw::staged_lines(v, catalog)[i];
            &&& cell(line, 0) == (match kerneltune_screen::by_key(catalog.tunables, x.key) {
                Some(t) => t.title,
                None => x.key,
            })
            &&& cell(line, 1) == x.previous
            &&& cell(line, 2) == x.value
            &&& cell(line, 3) == (if kerneltune_screen::by_key(catalog.tunables, x.key) matches Some(t) && t.always_persists {
                "always (no runtime-only form)"@
            } else if x.persist {
                "[x] yes — survives reboot"@
            } else {
                "[ ] no — this session only"@
            })
            &&& cell(line, 4) == (match kerneltune_screen::by_key(catalog.tunables, x.key) {
                Some(t) => t.risk.name(),
                None => kerneltune_screen::Risk::Safe.name(),
            })
        }),
    decreases v.len(),
{
    reveal_with_fuel(kerneltune_draw::staged_lines, 2);
    if i < v.len() - 1 {
        staged_changes_are_listed_in_their_row(v.drop_last(), catalog, i);
    } else if v.len() > 1 {
        staged_changes_are_listed_in_their_row(v.drop_last(), catalog, 0);
    }
}

/// The row of an applied change shows its parameter, the value before, the value that
/// was set, whether it persists, and how long ago that was.
pub proof fn applied_changes_are_listed_in_their_row(v: Seq<HistoryEntryModel>, now: u64, i: int)
    requires
        0 <= i < v.len(),
    ensures
        kerneltune_draw::history_lines(v, now).len() == v.len(),
        ({
            let x = v[i];
            let line = kerneltune_draw::history_lines(v, now)[i];
            &&& cell(line, 0) == x.title
            &&& cell(line, 1) == x.previous_value
            &&& cell(line, 2) == x.new_value
            &&& cell(line, 3) == (if x.persisted { "yes"@ } else { "no"@ })
            &&& cell(line, 4) == kerneltune_screen::ago(x.when, now)
        }),
    decreases v.len(),
{
    reveal_with_fuel(kerneltune_draw::history_lines, 2);
    if i < v.len() - 1 {
        applied_changes_are_listed_in_their_row(v.drop_last(), now, i);
    } else if v.len() > 1 {
        applied_changes_are_listed_in_their_row(v.drop_last(), now, 0);
    }
}

// ------------------------------------------------------------------- tables

/// The hosts that the list has are drawn in a table, in its order.
pub proof fn hosts_are_drawn_in_a_table(
    s: EasySshScreenModel,
    p: PictureModel,
    rows: Seq<ServerModel>,
    area: Rect,
    title: Seq<char>,
    focused: bool,
)
    ensures
        draws_table(
            s.drawn_server_table(p, rows, area, title, focused),
            area,
            seq![""@, "Alias"@, "Host"@, "User"@, "Tags"@, "Last SSH"@, "Fwd"@],
            easyssh_draw::server_lines(rows),
        ),
{
    let t = s.drawn_server_table(p, rows, area, title, focused);
    assert(is_table(
        t.ops[p.ops.len() as int],
        area,
        seq![""@, "Alias"@, "Host"@, "User"@, "Tags"@, "Last SSH"@, "Fwd"@],
        easyssh_draw::server_lines(rows),
    ));
}

/// The host manager draws the hosts that match, or those of the open group,
/// and its history.
pub proof fn the_list_that_shows_is_drawn(
    s: EasySshScreenModel,
    p: PictureModel,
    l: easyssh_screen::EasySshLayoutModel,
    search: Seq<Rect>,
)
    ensures
        draws_table(
            s.drawn_servers(p, l, search),
            l.servers[1],
            seq![""@, "Alias"@, "Host"@, "User"@, "Tags"@, "Last SSH"@, "Fwd"@],
            easyssh_draw::server_lines(s.server_rows()),
        ),
        draws_history(s.drawn_servers(p, l, search), l.servers[3], s.log),
        draws_table(
            s.drawn_tags_filtered(p, l),
            l.tag_rows[0],
            seq![""@, "Alias"@, "Host"@, "User"@, "Tags"@, "Last SSH"@, "Fwd"@],
            easyssh_draw::server_lines(s.group_rows(s.tag_filter)),
        ),
        draws_history(s.drawn_tags_filtered(p, l), l.tag_rows[2], s.log),
{
    let n = p.ops.len() as int;
    let titles = seq![""@, "Alias"@, "Host"@, "User"@, "Tags"@, "Last SSH"@, "Fwd"@];
    let t = s.drawn_servers(p, l, search);
    assert(is_table(t.ops[n + 2], l.servers[1], titles, easyssh_draw::server_lines(s.server_rows())));
    assert(t.ops[n + 4] == (OpModel::History { area: l.servers[3], lines: s.log.history, scroll: s.log.scroll }));
    let u = s.drawn_tags_filtered(p, l);
    assert(is_table(u.ops[n], l.tag_rows[0], titles, easyssh_draw::server_lines(s.group_rows(s.tag_filter))));
    assert(u.ops[n + 2] == (OpModel::History { area: l.tag_rows[2], lines: s.log.history, scroll: s.log.scroll }));
}

/// The accounts are drawn in a table.
pub proof fn accounts_are_drawn_in_a_table(
    s: CloudflareScreenModel,
    p: PictureModel,
    l: CloudflareLayoutModel,
    rows: Seq<Rect>,
)
    ensures
        draws_table(
            s.drawn_accounts(p, l, rows),
            l.accounts[0],
            seq!["Label"@, "API Token"@],
            cloudflare_draw::account_lines(s.cfg.accounts),
        ),
{
    let t = s.drawn_accounts(p, l, rows);
    assert(is_table(
        t.ops[p.ops.len() as int],
        l.accounts[0],
        seq!["Label"@, "API Token"@],
        cloudflare_draw::account_lines(s.cfg.accounts),
    ));
}

/// The records that are looked for are drawn in a table.
pub proof fn records_are_drawn_in_a_table(s: CloudflareScreenModel, p: PictureModel, l: CloudflareLayoutModel)
    ensures
        draws_table(
            s.drawn_records(p, l),
            l.records[2],
            seq!["Zone"@, "Type"@, "Name"@, "Value"@, "TTL"@, "Proxy"@, "Account"@],
            cloudflare_draw::record_lines(s.records_tab.visible(s.cfg.accounts)),
        ),
{
    let t = s.drawn_records(p, l);
    let n = p.ops.len() as int;
    assert(s.drawn_fetch(p, l).ops.len() == n + 6);
    assert(is_table(
        t.ops[n + 6],
        l.records[2],
        seq!["Zone"@, "Type"@, "Name"@, "Value"@, "TTL"@, "Proxy"@, "Account"@],
        cloudflare_draw::record_lines(s.records_tab.visible(s.cfg.accounts)),
    ));
}

/// The users of the server are drawn in a table.
pub proof fn users_are_drawn_in_a_table(s: ClickHouseScreenModel, p: PictureModel, l: ClickHouseLayoutModel)
    ensures
        draws_table(
            s.drawn_users(p, l),
            l.users[1],
            seq!["Username"@, "Profile"@, "Allowed IPs"@],
            clickhouse_draw::user_lines(s.users_tab.rows),
        ),
        draws_history(s.drawn_users(p, l), l.users[3], s.log),
{
    let t = s.drawn_users(p, l);
    let n = p.ops.len() as int;
    assert(is_table(
        t.ops[n + 3],
        l.users[1],
        seq!["Username"@, "Profile"@, "Allowed IPs"@],
        clickhouse_draw::user_lines(s.users_tab.rows),
    ));
    assert(t.ops[n + 7] == (OpModel::History { area: l.users[3], lines: s.log.history, scroll: s.log.scroll }));
}

/// The catalog, the staged changes and the applied ones are drawn in tables.
pub proof fn parameters_are_drawn_in_tables(
    s: KernelTuneScreenModel,
    p: PictureModel,
    l: KernelTuneLayoutModel,
    now: u64,
)
    ensures
        draws_table(
            s.drawn_catalog(p, l),
            l.catalog[1],
            seq!["Tunable"@, "Current"@, "Staged"@, "Risk"@],
            kerneltune_draw::catalog_lines(s.catalog_tab.filtered(s.catalog), s.current_values, s.staged),
        ),
        draws_table(
            s.drawn_review(p, l),
            l.review[0],
            seq!["Tunable"@, "Current"@, "New"@, "Persist?"@, "Risk"@],
            kerneltune_draw::staged_lines(s.staged, s.catalog),
        ),
        draws_table(
            s.drawn_revert(p, now, l),
            l.review[0],
            seq!["Tunable"@, "Previous"@, "Applied"@, "Persisted"@, "When"@],
            kerneltune_draw::history_lines(s.entries(), now),
        ),
{
    let n = p.ops.len() as int;
    assert(is_table(
        s.drawn_catalog(p, l).ops[n + 4],
        l.catalog[1],
        seq!["Tunable"@, "Current"@, "Staged"@, "Risk"@],
        kerneltune_draw::catalog_lines(s.catalog_tab.filtered(s.catalog), s.current_values, s.staged),
    ));
    assert(is_table(
        s.drawn_review(p, l).ops[n],
        l.review[0],
        seq!["Tunable"@, "Current"@, "New"@, "Persist?"@, "Risk"@],
        kerneltune_draw::staged_lines(s.staged, s.catalog),
    ));
    assert(is_table(
        s.drawn_revert(p, now, l).ops[n],
        l.review[0],
        seq!["Tunable"@, "Previous"@, "Applied"@, "Persisted"@, "When"@],
        kerneltune_draw::history_lines(s.entries(), now),
    ));
}

/// A message that is not dismissed is drawn over everything else.
pub proof fn messages_are_drawn(p: PictureModel, area: Rect, log: LogModel)
    ensures
        log.alert matches Some((title, text)) ==> p.alert(area, log).ops == p.ops.push(
            OpModel::Message { area, title, text },
        ),
        log.alert is None ==> p.alert(area, log) == p,
{
}

// -------------------------------------------------------------------- forms

/// The form of a host draws each input with its own text, and only the
/// password as a secret.
pub proof fn the_form_of_a_host_is_drawn(
    f: ServerFormModel,
    p: PictureModel,
    area: Rect,
    rows: Seq<Rect>,
    keys_area: Rect,
    keys: Seq<Rect>,
)
    requires
        f.key_picker is None,
    ensures
        ({
            let t = f.drawn_on(p, area, rows, keys_area, keys);
            &&& draws(t, rows[0], f.alias, f.field == EditField::Alias, false)
            &&& draws(t, rows[2], f.host, f.field == EditField::Host, false)
            &&& draws(t, rows[4], f.user, f.field == EditField::User, false)
            &&& draws(t, rows[6], f.port, f.field == EditField::Port, false)
            &&& draws(t, rows[8], f.ssh_password, f.field == EditField::SshPassword, true)
            &&& draws(t, rows[10], f.identity_files, f.field == EditField::IdentityFiles, false)
            &&& draws(t, rows[13], f.proxy_jump, f.field == EditField::ProxyJump, false)
            &&& draws(t, rows[15], f.local_forward, f.field == EditField::LocalForward, false)
            &&& draws(t, rows[20], f.tags, f.field == EditField::Tags, false)
            &&& draws(t, rows[22], f.advanced, f.field == EditField::Advanced, false)
        }),
{
    let t = f.drawn_on(p, area, rows, keys_area, keys);
    let n = p.ops.len() as int;
    assert(is_input(t.ops[n + 2], rows[0], f.alias, f.field == EditField::Alias, false));
    assert(is_input(t.ops[n + 3], rows[2], f.host, f.field == EditField::Host, false));
    assert(is_input(t.ops[n + 4], rows[4], f.user, f.field == EditField::User, false));
    assert(is_input(t.ops[n + 5], rows[6], f.port, f.field == EditField::Port, false));
    assert(is_input(t.ops[n + 6], rows[8], f.ssh_password, f.field == EditField::SshPassword, true));
    assert(is_input(t.ops[n + 7], rows[10], f.identity_files, f.field == EditField::IdentityFiles, false));
    assert(is_input(t.ops[n + 9], rows[13], f.proxy_jump, f.field == EditField::ProxyJump, false));
    assert(is_input(t.ops[n + 10], rows[15], f.local_forward, f.field == EditField::LocalForward, false));
    assert(is_input(t.ops[n + 13], rows[20], f.tags, f.field == EditField::Tags, false));
    assert(is_input(t.ops[n + 14], rows[22], f.advanced, f.field == EditField::Advanced, false));
}

/// The window of the tags draws the tags that are typed.
pub proof fn the_window_of_the_tags_is_drawn(m: EditTagsModalModel, p: PictureModel, area: Rect, rows: Seq<Rect>)
    ensures
        draws(m.drawn_on(p, area, rows), rows[0], m.tags, m.field == EditTagsField::Tags, false),
{
    let t = m.drawn_on(p, area, rows);
    assert(is_input(t.ops[p.ops.len() as int + 2], rows[0], m.tags, m.field == EditTagsField::Tags, false));
}

/// The form of a target draws each input with its own text, and only the
/// password as a secret.
pub proof fn the_form_of_a_target_is_drawn(t: TargetTabModel, p: PictureModel, f: TargetField, at: Rect, w: int)
    ensures
        ({
            let d = t.drawn_field(p, f, at, w);
            let on = t.field == f;
            &&& f == TargetField::SshHost ==> draws(d, at, t.ssh_host, on, false)
            &&& f == TargetField::SshPort ==> draws(d, at, t.ssh_port, on, false)
            &&& f == TargetField::SshUser ==> draws(d, at, t.ssh_user, on, false)
            &&& f == TargetField::SshKeyPath ==> draws(d, at, t.ssh_key_path, on, false)
            &&& f == TargetField::SshPassword ==> draws(d, at, t.ssh_password, on, true)
        }),
{
    let d = t.drawn_field(p, f, at, w);
    let n = p.ops.len() as int;
    if d.ops.len() > n {
        let op = d.ops[n];
        assert(d.ops[n] == op);
    }
}

/// The form of a connection of the logs draws each input with its own text,
/// and only the password as a secret.
pub proof fn the_form_of_a_log_connection_is_drawn(
    t: ConnectionsTabModel,
    p: PictureModel,
    f: ConnField,
    at: Rect,
    w: int,
)
    ensures
        ({
            let d = t.drawn_field(p, f, at, w);
            let on = t.field == f;
            &&& f == ConnField::Label ==> draws(d, at, t.label, on, false)
            &&& f == ConnField::Host ==> draws(d, at, t.host, on, false)
            &&& f == ConnField::SshPort ==> draws(d, at, t.ssh_port, on, false)
            &&& f == ConnField::SshUser ==> draws(d, at, t.ssh_user, on, false)
            &&& f == ConnField::SshKeyPath ==> draws(d, at, t.ssh_key_path, on, false)
            &&& f == ConnField::SshPassword ==> draws(d, at, t.ssh_password, on, true)
        }),
{
    let d = t.drawn_field(p, f, at, w);
    let n = p.ops.len() as int;
    if d.ops.len() > n {
        let op = d.ops[n];
        assert(d.ops[n] == op);
    }
}

/// The form of the viewer draws each input with its own text, the unit for the
/// journal and the path for a file.
pub proof fn the_form_of_the_viewer_is_drawn(
    t: ViewerTabModel,
    p: PictureModel,
    f: ViewerField,
    at: Rect,
    w: int,
    priority: Seq<char>,
)
    ensures
        ({
            let d = t.drawn_field(p, f, at, w, priority);
            let on = t.field == f;
            &&& f == ViewerField::Connection ==> draws(d, at, t.connection_input, on, false)
            &&& f == ViewerField::UnitOrPath && t.journal ==> draws(d, at, t.unit, on, false)
            &&& f == ViewerField::UnitOrPath && !t.journal ==> draws(d, at, t.path, on, false)
            &&& f == ViewerField::Since ==> draws(d, at, t.since, on, false)
            &&& f == ViewerField::Lines ==> draws(d, at, t.lines, on, false)
            &&& f == ViewerField::Search ==> draws(d, at, t.search, on, false)
        }),
{
    let d = t.drawn_field(p, f, at, w, priority);
    let n = p.ops.len() as int;
    if d.ops.len() > n {
        let op = d.ops[n];
        assert(d.ops[n] == op);
    }
}

/// The form of a ClickHouse connection draws each input with its own text, and
/// only the passwords as secrets.
pub proof fn the_form_of_a_clickhouse_connection_is_drawn(
    t: clickhouse_screen::ConnectionsTabModel,
    p: PictureModel,
    f: clickhouse_screen::ConnField,
    at: Rect,
    w: int,
    tag: Seq<char>,
)
    ensures
        ({
            let d = t.drawn_field(p, f, at, w, tag);
            let on = t.field == f;
            &&& f == clickhouse_screen::ConnField::Label ==> draws(d, at, t.label, on, false)
            &&& f == clickhouse_screen::ConnField::Host ==> draws(d, at, t.host, on, false)
            &&& f == clickhouse_screen::ConnField::Port ==> draws(d, at, t.port, on, false)
            &&& f == clickhouse_screen::ConnField::DbUser ==> draws(d, at, t.db_user, on, false)
            &&& f == clickhouse_screen::ConnField::DbPassword ==> draws(d, at, t.db_password, on, true)
            &&& f == clickhouse_screen::ConnField::SshHost ==> draws(d, at, t.ssh_host, on, false)
            &&& f == clickhouse_screen::ConnField::SshPort ==> draws(d, at, t.ssh_port, on, false)
            &&& f == clickhouse_screen::ConnField::SshUser ==> draws(d, at, t.ssh_user, on, false)
            &&& f == clickhouse_screen::ConnField::SshKeyPath ==> draws(d, at, t.ssh_key_path, on, false)
            &&& f == clickhouse_screen::ConnField::SshPassword ==> draws(d, at, t.ssh_password, on, true)
        }),
{
    let d = t.drawn_field(p, f, at, w, tag);
    let n = p.ops.len() as int;
    if d.ops.len() > n {
        let op = d.ops[n];
        assert(d.ops[n] == op);
    }
}

/// The windows of a user draw each input with its own text, and the password
/// as a secret.
pub proof fn the_windows_of_a_user_are_drawn(
    a: AddUserModalModel,
    e: EditUserModalModel,
    p: PictureModel,
    area: Rect,
    rows: Seq<Rect>,
)
    ensures
        ({
            let t = a.drawn_on(p, area, rows);
            &&& draws(t, rows[0], a.username, a.field == clickhouse_screen::AddField::Username, false)
            &&& draws(t, rows[2], a.password, a.field == clickhouse_screen::AddField::Password, true)
            &&& draws(t, rows[6], a.ips, a.field == clickhouse_screen::AddField::Ips, false)
        }),
        ({
            let t = e.drawn_on(p, area, rows);
            &&& draws(t, rows[0], e.password, e.field == clickhouse_screen::EditField::Password, true)
            &&& draws(t, rows[5], e.ips, e.field == clickhouse_screen::EditField::Ips, false)
        }),
{
    let n = p.ops.len() as int;
    let t = a.drawn_on(p, area, rows);
    assert(is_input(t.ops[n + 2], rows[0], a.username, a.field == clickhouse_screen::AddField::Username, false));
    assert(is_input(t.ops[n + 3], rows[2], a.password, a.field == clickhouse_screen::AddField::Password, true));
    assert(is_input(t.ops[n + 5], rows[6], a.ips, a.field == clickhouse_screen::AddField::Ips, false));
    let u = e.drawn_on(p, area, rows);
    assert(is_input(u.ops[n + 2], rows[0], e.password, e.field == clickhouse_screen::EditField::Password, true));
    assert(is_input(u.ops[n + 5], rows[5], e.ips, e.field == clickhouse_screen::EditField::Ips, false));
}

/// The form of an account draws its label, and its token as a secret.
pub proof fn the_form_of_an_account_is_drawn(t: AccountsTabModel, p: PictureModel, rows: Seq<Rect>)
    ensures
        draws(t.drawn_form(p, rows), rows[0], t.label, t.field == AccField::Label, false),
        draws(t.drawn_form(p, rows), rows[2], t.api_token, t.field == AccField::ApiToken, true),
{
    let d = t.drawn_form(p, rows);
    let n = p.ops.len() as int;
    assert(is_input(d.ops[n], rows[0], t.label, t.field == AccField::Label, false));
    assert(is_input(d.ops[n + 1], rows[2], t.api_token, t.field == AccField::ApiToken, true));
}

/// The form of a check draws the path.
pub proof fn the_form_of_a_check_is_drawn(t: CheckTabModel, p: PictureModel, rows: Seq<Rect>)
    ensures
        draws(t.drawn_form(p, rows), rows[0], t.path, t.field == CheckField::Path, false),
{
    let d = t.drawn_form(p, rows);
    assert(is_input(d.ops[p.ops.len() as int], rows[0], t.path, t.field == CheckField::Path, false));
}

/// The window of a parameter draws the value that is typed.
pub proof fn the_window_of_a_parameter_is_drawn(
    m: DetailModalModel,
    p: PictureModel,
    t: TunableModel,
    names: Seq<Seq<char>>,
    area: Rect,
    rows: Seq<Rect>,
)
    ensures
        draws(m.drawn_on(p, t, names, area, rows), rows[8], m.value, m.field == DetailField::Value, false),
{
    let d = m.drawn_on(p, t, names, area, rows);
    assert(is_input(d.ops[p.ops.len() as int + 6], rows[8], m.value, m.field == DetailField::Value, false));
}

/// The window of a new database draws its three inputs.
pub proof fn the_window_of_a_database_is_drawn(m: CreateDbModel, p: PictureModel, area: Rect, rows: Seq<Rect>)
    ensures
        ({
            let t = m.drawn_on(p, area, rows);
            &&& draws(t, rows[0], m.name, m.field == CreateDbField::Name, false)
            &&& draws(t, rows[2], m.opt1, m.field == CreateDbField::Opt1, false)
            &&& draws(t, rows[5], m.opt2, m.field == CreateDbField::Opt2, false)
        }),
{
    let t = m.drawn_on(p, area, rows);
    let n = p.ops.len() as int;
    assert(is_input(t.ops[n + 2], rows[0], m.name, m.field == CreateDbField::Name, false));
    assert(is_input(t.ops[n + 3], rows[2], m.opt1, m.field == CreateDbField::Opt1, false));
    assert(is_input(t.ops[n + 5], rows[5], m.opt2, m.field == CreateDbField::Opt2, false));
}

/// A span that shows an input.
pub open spec fn shows_input(s: SpanModel, input: InputModel, focused: bool) -> bool {
    match s {
        SpanModel::Field { input: i, focused: f, secret, width } => i == input && f == focused && !secret,
        _ => false,
    }
}

/// The line of a record draws its type, name and time to live, and whether it
/// is proxied where it can be.
pub proof fn the_line_of_a_record_is_drawn(f: RecordFormModel, focus: Option<FormField>)
    ensures
        ({
            let s = f.main_line(focus).spans;
            &&& s[1] == (SpanModel::Button { label: f.kind.name(), focused: focus == Some(FormField::Type) })
            &&& shows_input(s[4], f.name, focus == Some(FormField::Name))
            &&& shows_input(s[7], f.ttl, focus == Some(FormField::Ttl))
            &&& f.kind.proxiable() ==> s[10] == (SpanModel::Button {
                label: if f.proxied {
                    "Yes"@
                } else {
                    "No"@
                },
                focused: focus == Some(FormField::Proxied),
            })
            &&& !f.kind.proxiable() ==> s.len() == 8
        }),
{
}

/// The second line of a record draws what its type needs.
pub proof fn the_extras_of_a_record_are_drawn(f: RecordFormModel, p: PictureModel, focus: Option<FormField>, at: Rect)
    ensures
        ({
            let d = f.drawn_extra(p, focus, at);
            let line = match d.ops.last() {
                OpModel::Line { area, line } => line,
                _ => LineModel::empty(),
            };
            &&& f.kind == RecordType::Mx ==> shows_input(line.spans[1], f.priority, focus == Some(FormField::Priority))
            &&& f.kind == RecordType::Srv ==> {
                &&& shows_input(line.spans[1], f.priority, focus == Some(FormField::Priority))
                &&& shows_input(line.spans[4], f.weight, focus == Some(FormField::Weight))
                &&& shows_input(line.spans[7], f.port, focus == Some(FormField::Port))
            }
            &&& f.kind == RecordType::Caa ==> {
                &&& shows_input(line.spans[1], f.flags, focus == Some(FormField::Flags))
                &&& line.spans[4] == (SpanModel::Button { label: f.tag.name(), focused: focus == Some(FormField::Tag) })
            }
        }),
{
}

// ------------------------------------------------------------ more pictures

/// Whether a picture has another in front.
pub open spec fn keeps(p: PictureModel, q: PictureModel) -> bool {
    &&& p.ops.len() <= q.ops.len()
    &&& forall|i: int| 0 <= i < p.ops.len() ==> #[trigger] q.ops[i] == p.ops[i]
}

proof fn lemma_log_form_keeps(
    t: ConnectionsTabModel,
    p: PictureModel,
    rows: Seq<Row<ConnField>>,
    at: Seq<Rect>,
    w: int,
    n: int,
)
    ensures
        keeps(p, t.drawn_lines(p, rows, at, w, n)),
    decreases n,
{
    if n > 0 {
        lemma_log_form_keeps(t, p, rows, at, w, n - 1);
    }
}

proof fn lemma_viewer_form_keeps(
    t: ViewerTabModel,
    p: PictureModel,
    rows: Seq<Row<ViewerField>>,
    at: Seq<Rect>,
    w: int,
    priority: Seq<char>,
    n: int,
)
    ensures
        keeps(p, t.drawn_lines(p, rows, at, w, priority, n)),
    decreases n,
{
    if n > 0 {
        lemma_viewer_form_keeps(t, p, rows, at, w, priority, n - 1);
    }
}

proof fn lemma_clickhouse_form_keeps(
    t: clickhouse_screen::ConnectionsTabModel,
    p: PictureModel,
    rows: Seq<Row<clickhouse_screen::ConnField>>,
    at: Seq<Rect>,
    w: int,
    tag: Seq<char>,
    n: int,
)
    ensures
        keeps(p, t.drawn_lines(p, rows, at, w, tag, n)),
    decreases n,
{
    if n > 0 {
        lemma_clickhouse_form_keeps(t, p, rows, at, w, tag, n - 1);
    }
}

/// The connections of the logs are drawn in a table: the saved ones, then the
/// other known hosts.
pub proof fn log_connections_are_drawn_in_a_table(s: LogsScreenModel, p: PictureModel, l: LogsLayoutModel)
    ensures
        draws_table(
            s.drawn_connections(p, l),
            l.conn[0],
            seq!["Label"@, "Host:Port"@, "SSH User"@],
            logs_draw::connection_lines(s.cfg.connections) + logs_draw::extra_lines(
                logs_screen::extras(s.cfg.connections, s.hosts),
            ),
        ),
{
    let n = p.ops.len() as int;
    let titles = seq!["Label"@, "Host:Port"@, "SSH User"@];
    let lines = logs_draw::connection_lines(s.cfg.connections) + logs_draw::extra_lines(
        logs_screen::extras(s.cfg.connections, s.hosts),
    );
    let t = s.drawn_connections(p, l);
    let q = p.table(
        l.conn[0],
        picture::TableModel::new(s.connections_title(), s.connections_tab.field == ConnField::Table).column(
            "Label"@,
            picture::Width::Fixed(20),
        ).column("Host:Port"@, picture::Width::Fixed(26)).column("SSH User"@, picture::Width::Fixed(16)).rows(
            lines,
            s.connections_tab.table_idx,
        ),
    ).panel(l.conn[1], " Add / Edit Connection "@);
    let rows = logs_screen::conn_form();
    lemma_log_form_keeps(s.connections_tab, q, rows, l.form, picture::room_in(l.form[0], 16), rows.len() as int);
    assert(is_table(q.ops[n], l.conn[0], titles, lines));
    assert(is_table(t.ops[n], l.conn[0], titles, lines));
}

/// The saved connections of ClickHouse are drawn in a table.
pub proof fn clickhouse_connections_are_drawn_in_a_table(
    s: ClickHouseScreenModel,
    p: PictureModel,
    l: ClickHouseLayoutModel,
)
    ensures
        draws_table(
            s.drawn_connections(p, l),
            l.conn[0],
            seq!["Label"@, "Mode"@, "Target"@, "Tunnel"@],
            clickhouse_draw::connection_lines(s.cfg.connections),
        ),
{
    let n = p.ops.len() as int;
    let titles = seq!["Label"@, "Mode"@, "Target"@, "Tunnel"@];
    let lines = clickhouse_draw::connection_lines(s.cfg.connections);
    let t = s.drawn_connections(p, l);
    let ct = s.connections_tab;
    let q = p.table(
        l.conn[0],
        picture::TableModel::new(" Connections "@, ct.field == clickhouse_screen::ConnField::Table).column(
            "Label"@,
            picture::Width::Fixed(18),
        ).column("Mode"@, picture::Width::Fixed(10)).column("Target"@, picture::Width::Fixed(28)).column(
            "Tunnel"@,
            picture::Width::Fixed(8),
        ).rows(lines, ct.table_idx),
    ).panel(l.conn[1], " Add / Edit Connection "@);
    let rows = ct.rows();
    lemma_clickhouse_form_keeps(
        ct,
        q,
        rows,
        l.form,
        picture::room_in(l.form[0], 16),
        s.tag_modes[ct.tag_mode_idx],
        rows.len() as int,
    );
    assert(is_table(q.ops[n], l.conn[0], titles, lines));
    assert(is_table(t.ops[n], l.conn[0], titles, lines));
}

/// The viewer draws the log that was fetched, from where it is scrolled to, and
/// its history.
pub proof fn the_log_is_drawn(s: LogsScreenModel, p: PictureModel, l: LogsLayoutModel)
    ensures
        exists|i: int|
            0 <= i < s.drawn_viewer(p, l).ops.len() && (#[trigger] s.drawn_viewer(p, l).ops[i] matches OpModel::Paragraph {
                area,
                lines,
                scroll,
                wrap,
            } && area == mouse::inner(l.viewer[1]) && lines == logs_draw::log_lines(s.viewer_tab.log_lines) && scroll
                == s.viewer_tab.scroll),
        draws_history(s.drawn_viewer(p, l), l.viewer[2], s.log),
{
    let n = p.ops.len() as int;
    let vt = s.viewer_tab;
    let q = p.panel(l.viewer[0], " Filters "@);
    let rows = logs_screen::viewer_form(vt.journal);
    let priority = s.priorities[vt.priority_idx];
    let w = picture::room_in(l.filters[0], 16);
    lemma_viewer_form_keeps(vt, q, rows, l.filters, w, priority, rows.len() as int);
    let r = vt.drawn_lines(q, rows, l.filters, w, priority, rows.len() as int);
    let t = s.drawn_viewer(p, l);
    let k = r.ops.len() as int;
    assert(t.ops[k + 1] is Paragraph);
    assert(t.ops[k + 2] == (OpModel::History { area: l.viewer[2], lines: s.log.history, scroll: s.log.scroll }));
}

/// Whether a list is drawn in an area.
pub open spec fn draws_list(p: PictureModel, area: Rect, items: Seq<LineModel>) -> bool {
    exists|i: int|
        0 <= i < p.ops.len() && match #[trigger] p.ops[i] {
            OpModel::List { area: a, title, items: v, selected } => a == area && v == items,
            _ => false,
        }
}

/// The pickers and browsers draw what they offer.
pub proof fn pickers_draw_what_they_offer(
    h: host_picker::HostPickerModel,
    f: file_picker::FilePickerModel,
    b: logs_screen::RemoteBrowserModel,
    c: config_check_screen::BrowserModel,
    p: PictureModel,
    area: Rect,
    rows: Seq<Rect>,
)
    ensures
        h.error is None && h.filtered().len() > 0 ==> draws_list(
            h.drawn_on(p, area, rows),
            rows[2],
            host_picker::host_lines(h.filtered()),
        ),
        draws(h.drawn_on(p, area, rows), rows[0], h.query, true, false),
        f.error is None ==> draws_list(f.drawn_on(p, area, rows), rows[0], file_picker::entry_lines(f.entries)),
        !b.loading && b.error is None ==> draws_list(
            b.drawn_on(p, area, rows),
            rows[0],
            logs_draw::entry_lines(b.entries),
        ),
        !c.loading && c.error is None ==> draws_list(
            c.drawn_on(p, area, rows),
            rows[0],
            config_check_draw::entry_lines(c.entries),
        ),
{
    let n = p.ops.len() as int;
    let d = h.drawn_on(p, area, rows);
    assert(is_input(d.ops[n + 2], rows[0], h.query, true, false));
    if h.error is None && h.filtered().len() > 0 {
        assert(d.ops[n + 3] is List);
    }
    if f.error is None {
        assert(f.drawn_on(p, area, rows).ops[n + 2] is List);
    }
    if !b.loading && b.error is None {
        assert(b.drawn_on(p, area, rows).ops[n + 2] is List);
    }
    if !c.loading && c.error is None {
        assert(c.drawn_on(p, area, rows).ops[n + 2] is List);
    }
}

/// The menu draws every tool in its place: its number, its title and its
/// program in front, and what it is about below.
pub proof fn tools_are_drawn_in_their_place(order: Seq<Screen>, width: int, n: int, i: int)
    requires
        0 <= i < n,
    ensures
        home::listed(order, width, n).len() == n,
        ({
            let head = home::listed(order, width, n)[i][0];
            &&& cell(head, 0) == "  "@ + text::decimal((i + 1) as nat) + ". "@
            &&& cell(head, 1) == order[i].title()
            &&& cell(head, 2) == "  ("@ + order[i].program() + ")"@
        }),
    decreases n,
{
    reveal_with_fuel(home::listed, 2);
    if i < n - 1 {
        tools_are_drawn_in_their_place(order, width, n - 1, i);
    } else if n > 1 {
        tools_are_drawn_in_their_place(order, width, n - 1, 0);
    }
}

proof fn lemma_plain_lines(v: Seq<Seq<char>>, i: int)
    requires
        0 <= i < v.len(),
    ensures
        picture::plain_lines(v).len() == v.len(),
        cell(picture::plain_lines(v)[i], 0) == v[i],
    decreases v.len(),
{
    reveal_with_fuel(picture::plain_lines, 2);
    if i < v.len() - 1 {
        lemma_plain_lines(v.drop_last(), i);
    } else if v.len() > 1 {
        lemma_plain_lines(v.drop_last(), 0);
    }
}

/// The results of a check show what is wrong, line by line, or that nothing is.
pub proof fn results_show_what_is_wrong(r: config_check_screen::CheckResultModel, i: int)
    requires
        0 <= i < text::lines_in(r.error_text).len(),
    ensures
        !r.valid ==> cell(r.result_lines()[i], 0) == text::lines_in(r.error_text)[i],
        r.valid ==> r.result_lines().len() == 1 && cell(r.result_lines()[0], 0) == "No syntax errors found."@,
        r.valid ==> r.title() == " "@ + r.format.name() + " — "@ + "VALID"@ + (" — "@ + r.path + " "@),
        !r.valid ==> r.title() == " "@ + r.format.name() + " — "@ + "INVALID"@ + (" — "@ + r.path + " "@),
{
    lemma_plain_lines(text::lines_in(r.error_text), i);
}

// ------------------------------------------------------------------ buttons

/// Whether a line is drawn in an area that has these buttons, each with the
/// focus as it is said.
pub open spec fn is_buttons(op: OpModel, area: Rect, buttons: Seq<(Seq<char>, bool)>) -> bool {
    match op {
        OpModel::Line { area: a, line } => {
            &&& a == area
            &&& line.spans.len() == 2 * buttons.len() - 1
            &&& forall|k: int|
                0 <= k < buttons.len() ==> line.spans[2 * k] == (SpanModel::Button {
                    label: (#[trigger] buttons[k]).0,
                    focused: buttons[k].1,
                })
        },
        _ => false,
    }
}

/// Whether a picture shows these buttons in an area.
pub open spec fn draws_buttons(p: PictureModel, area: Rect, buttons: Seq<(Seq<char>, bool)>) -> bool {
    exists|i: int| 0 <= i < p.ops.len() && is_buttons(#[trigger] p.ops[i], area, buttons)
}

/// The windows of the host manager draw their buttons, the one with the focus
/// as such.
pub proof fn the_buttons_of_the_host_manager_are_drawn(
    f: ServerFormModel,
    t: EditTagsModalModel,
    c: easyssh_screen::ConfirmDeleteModalModel,
    p: PictureModel,
    area: Rect,
    rows: Seq<Rect>,
    keys_area: Rect,
    keys: Seq<Rect>,
)
    ensures
        f.key_picker is None ==> draws_buttons(
            f.drawn_on(p, area, rows, keys_area, keys),
            rows[25],
            seq![("Save"@, f.field == EditField::BtnSave), ("Cancel"@, f.field == EditField::BtnCancel)],
        ),
        draws_buttons(
            t.drawn_on(p, area, rows),
            rows[3],
            seq![("Save"@, t.field == EditTagsField::BtnSave), ("Cancel"@, t.field == EditTagsField::BtnCancel)],
        ),
        draws_buttons(
            c.drawn_on(p, area, rows),
            rows[2],
            seq![
                ("Delete"@, c.field == easyssh_screen::ConfirmField::BtnDelete),
                ("Cancel"@, c.field == easyssh_screen::ConfirmField::BtnCancel),
            ],
        ),
{
    let n = p.ops.len() as int;
    if f.key_picker is None {
        assert(is_buttons(
            f.drawn_on(p, area, rows, keys_area, keys).ops[n + 16],
            rows[25],
            seq![("Save"@, f.field == EditField::BtnSave), ("Cancel"@, f.field == EditField::BtnCancel)],
        ));
    }
    assert(is_buttons(
        t.drawn_on(p, area, rows).ops[n + 4],
        rows[3],
        seq![("Save"@, t.field == EditTagsField::BtnSave), ("Cancel"@, t.field == EditTagsField::BtnCancel)],
    ));
    assert(is_buttons(
        c.drawn_on(p, area, rows).ops[n + 3],
        rows[2],
        seq![
            ("Delete"@, c.field == easyssh_screen::ConfirmField::BtnDelete),
            ("Cancel"@, c.field == easyssh_screen::ConfirmField::BtnCancel),
        ],
    ));
}

/// The question of a deletion names the host, and so does the window of its
/// tags.
pub proof fn windows_name_their_host(
    t: EditTagsModalModel,
    c: easyssh_screen::ConfirmDeleteModalModel,
    p: PictureModel,
    area: Rect,
    rows: Seq<Rect>,
)
    ensures
        ({
            let n = p.ops.len() as int;
            let text = "Delete server '"@ + c.alias + "'? This removes its Host block from ~/.ssh/config."@;
            &&& c.drawn_on(p, area, rows).ops[n + 2] == (OpModel::Paragraph {
                area: rows[0],
                lines: seq![LineModel { spans: seq![SpanModel::Text { text, tone: picture::Tone::Plain }] }],
                scroll: 0,
                wrap: picture::Wrap::Trim,
            })
            &&& t.drawn_on(p, area, rows).ops[n + 1] == (OpModel::Panel {
                area,
                title: " Edit Tags: "@ + t.alias + " "@,
                frame: picture::Frame::Modal,
            })
        }),
{
}

/// The windows of a ClickHouse user draw their buttons.
pub proof fn the_buttons_of_a_user_are_drawn(
    a: AddUserModalModel,
    e: EditUserModalModel,
    p: PictureModel,
    area: Rect,
    rows: Seq<Rect>,
)
    ensures
        draws_buttons(
            a.drawn_on(p, area, rows),
            rows[9],
            seq![
                ("Create"@, a.field == clickhouse_screen::AddField::BtnCreate),
                ("Cancel"@, a.field == clickhouse_screen::AddField::BtnCancel),
            ],
        ),
        draws_buttons(
            e.drawn_on(p, area, rows),
            rows[8],
            seq![
                ("Save"@, e.field == clickhouse_screen::EditField::BtnSave),
                ("Delete"@, e.field == clickhouse_screen::EditField::BtnDelete),
                ("Cancel"@, e.field == clickhouse_screen::EditField::BtnCancel),
            ],
        ),
{
    let n = p.ops.len() as int;
    assert(is_buttons(
        a.drawn_on(p, area, rows).ops[n + 7],
        rows[9],
        seq![
            ("Create"@, a.field == clickhouse_screen::AddField::BtnCreate),
            ("Cancel"@, a.field == clickhouse_screen::AddField::BtnCancel),
        ],
    ));
    assert(is_buttons(
        e.drawn_on(p, area, rows).ops[n + 7],
        rows[8],
        seq![
            ("Save"@, e.field == clickhouse_screen::EditField::BtnSave),
            ("Delete"@, e.field == clickhouse_screen::EditField::BtnDelete),
            ("Cancel"@, e.field == clickhouse_screen::EditField::BtnCancel),
        ],
    ));
}

/// The form of an account and the window of a database draw their buttons.
pub proof fn the_other_buttons_are_drawn(
    t: AccountsTabModel,
    d: CreateDbModel,
    p: PictureModel,
    area: Rect,
    rows: Seq<Rect>,
)
    ensures
        draws_buttons(
            t.drawn_form(p, rows),
            rows[6],
            seq![
                ("Save"@, t.field == AccField::BtnSave),
                ("New"@, t.field == AccField::BtnNew),
                ("Delete"@, t.field == AccField::BtnDelete),
                ("Test Token"@, t.field == AccField::BtnTest),
            ],
        ),
        draws_buttons(
            d.drawn_on(p, area, rows),
            rows[9],
            seq![
                ("Create"@, d.field == CreateDbField::BtnCreate),
                ("Cancel"@, d.field == CreateDbField::BtnCancel),
            ],
        ),
{
    let n = p.ops.len() as int;
    assert(is_buttons(
        t.drawn_form(p, rows).ops[n + 3],
        rows[6],
        seq![
            ("Save"@, t.field == AccField::BtnSave),
            ("New"@, t.field == AccField::BtnNew),
            ("Delete"@, t.field == AccField::BtnDelete),
            ("Test Token"@, t.field == AccField::BtnTest),
        ],
    ));
    assert(is_buttons(
        d.drawn_on(p, area, rows).ops[n + 7],
        rows[9],
        seq![("Create"@, d.field == CreateDbField::BtnCreate), ("Cancel"@, d.field == CreateDbField::BtnCancel)],
    ));
}

/// The window of a parameter and the staged changes draw their buttons.
pub proof fn the_buttons_of_the_tuner_are_drawn(
    s: KernelTuneScreenModel,
    m: DetailModalModel,
    t: TunableModel,
    names: Seq<Seq<char>>,
    p: PictureModel,
    area: Rect,
    rows: Seq<Rect>,
    l: KernelTuneLayoutModel,
)
    ensures
        draws_buttons(
            m.drawn_on(p, t, names, area, rows),
            rows[10],
            seq![
                ("Use Recommended"@, m.field == DetailField::BtnUseRecommended),
                ("Stage"@, m.field == DetailField::BtnStage),
                ("Cancel"@, m.field == DetailField::BtnCancel),
            ],
        ),
        draws_buttons(
            s.drawn_review(p, l),
            mouse::inner(l.review[1]),
            seq![
                ("Toggle Persist All"@, s.review_tab.field == kerneltune_screen::ReviewField::BtnPersistAll),
                ("Apply All"@, s.review_tab.field == kerneltune_screen::ReviewField::BtnApplyAll),
                ("Clear All"@, s.review_tab.field == kerneltune_screen::ReviewField::BtnClearAll),
            ],
        ),
{
    let n = p.ops.len() as int;
    assert(is_buttons(
        m.drawn_on(p, t, names, area, rows).ops[n + 7],
        rows[10],
        seq![
            ("Use Recommended"@, m.field == DetailField::BtnUseRecommended),
            ("Stage"@, m.field == DetailField::BtnStage),
            ("Cancel"@, m.field == DetailField::BtnCancel),
        ],
    ));
    assert(is_buttons(
        s.drawn_review(p, l).ops[n + 2],
        mouse::inner(l.review[1]),
        seq![
            ("Toggle Persist All"@, s.review_tab.field == kerneltune_screen::ReviewField::BtnPersistAll),
            ("Apply All"@, s.review_tab.field == kerneltune_screen::ReviewField::BtnApplyAll),
            ("Clear All"@, s.review_tab.field == kerneltune_screen::ReviewField::BtnClearAll),
        ],
    ));
}

/// The row that is selected is drawn as such, and the last row where the
/// selection stands behind it.
pub proof fn the_selected_row_is_highlighted(selected: int, n: int)
    requires
        0 <= selected,
        0 <= n <= usize::MAX,
    ensures
        selected < n ==> picture::highlighted(selected, n) == Some(selected as usize),
        n > 0 && selected >= n ==> picture::highlighted(selected, n) == Some((n - 1) as usize),
        n == 0 ==> picture::highlighted(selected, n) is None,
{
}

/// A text is padded with spaces behind it up to its width, and never cut.
pub proof fn texts_are_padded_behind(s: Seq<char>, width: int)
    ensures
        ({
            let t = picture::padded(s, width);
            &&& s.len() >= width ==> t == s
            &&& s.len() < width ==> t.len() == width && t.take(s.len() as int) == s
            &&& forall|i: int| s.len() <= i < t.len() ==> #[trigger] t[i] == ' '
        }),
    decreases width - s.len(),
{
    if s.len() < width {
        texts_are_padded_behind(s.push(' '), width);
        let t = picture::padded(s, width);
        if s.len() + 1 < width {
            assert(t.take(s.len() as int + 1) == s.push(' '));
            assert(t.take(s.len() as int) =~= t.take(s.len() as int + 1).take(s.len() as int));
            assert(s.push(' ').take(s.len() as int) =~= s);
            assert(t[s.len() as int] == t.take(s.len() as int + 1)[s.len() as int]);
        } else {
            assert(t == s.push(' '));
            assert(t.take(s.len() as int) =~= s);
        }
    }
}

// ----------------------------------------------------------- what is known

/// What is known of a target is shown: its label, system, kernel, architecture,
/// processors and memory, each behind its name.
pub proof fn the_target_is_described(s: KernelTuneScreenModel, memory: Seq<char>)
    requires
        !s.target_tab.connecting,
    ensures
        s.target_info matches Some(info) ==> {
            let lines = s.info_lines(memory);
            &&& lines.len() == 4
            &&& cell(lines[0], 0) == "Connected to: "@ && cell(lines[0], 1) == s.target_label
            &&& cell(lines[1], 0) == "OS: "@ && cell(lines[1], 1) == info.os_pretty
            &&& cell(lines[2], 0) == "Kernel: "@ && cell(lines[2], 1) == info.kernel
            &&& cell(lines[2], 3) == "Arch: "@ && cell(lines[2], 4) == info.arch
            &&& cell(lines[3], 0) == "CPUs: "@ && cell(lines[3], 1) == info.cpus
            &&& cell(lines[3], 3) == "RAM: "@ && cell(lines[3], 4) == memory
        },
{
}

/// A recommendation is shown with its profile, its value and its note.
pub proof fn recommendations_are_shown(v: kerneltune_screen::ProfileValueModel, names: Seq<Seq<char>>)
    requires
        0 <= v.profile < names.len() <= usize::MAX,
    ensures
        v.note.len() == 0 ==> v.advice(names) == names[v.profile as int] + ": "@ + v.value,
        v.note.len() > 0 ==> v.advice(names) == names[v.profile as int] + ": "@ + v.value + " — "@ + v.note,
{
}

/// The last result of a check is summed up by its path and its format.
pub proof fn results_are_summed_up(t: CheckTabModel)
    ensures
        t.result matches Some(r) ==> {
            &&& cell(t.summary(), 1) == r.path
            &&& r.valid ==> cell(t.summary(), 0) == "\u{2713} "@
            &&& r.valid ==> cell(t.summary(), 2) == " — valid "@ + r.format.name()
            &&& !r.valid ==> cell(t.summary(), 0) == "\u{2717} "@
            &&& !r.valid ==> cell(t.summary(), 2) == " — invalid "@ + r.format.name()
                + " (Esc back then re-check to reopen the details)"@
        },
{
}

/// The results tell of a fix, and where the file was kept as it was.
pub proof fn results_tell_of_a_fix(r: config_check_screen::CheckResultModel)
    ensures
        r.fix_message is None ==> r.fix_lines().len() == 0,
        r.fix_message matches Some(m) ==> cell(r.fix_lines()[0], 0) == m,
        r.fix_message is Some ==> (r.fix_backup matches Some(b) ==> cell(r.fix_lines()[1], 0)
            == "Original backed up to "@ + b),
{
}

/// An open list lies under its input, at its text, as high as its items up to
/// ten lines.
pub proof fn lists_open_under_their_input(
    items: Seq<Seq<char>>,
    anchor: Rect,
    off: u16,
    least: u16,
    most: u16,
    bounds: Rect,
)
    requires
        anchor.x + off <= u16::MAX,
        anchor.y + 1 <= u16::MAX,
    ensures
        ({
            let r = picture::dropdown_area(items, anchor, off, least, most, bounds);
            &&& r.x == anchor.x + off
            &&& r.y == anchor.y + 1
            &&& items.len() <= 8 ==> r.height == items.len() + 2
            &&& items.len() > 8 ==> r.height == 10
        }),
{
}

/// The tab that shows is drawn as such.
pub open spec fn is_tabs(op: OpModel, area: Rect, tabs: Seq<(Seq<char>, bool)>) -> bool {
    match op {
        OpModel::Line { area: a, line } => {
            &&& a == area
            &&& line.spans.len() >= 2 * tabs.len()
            &&& forall|k: int|
                0 <= k < tabs.len() ==> line.spans[2 * k] == (SpanModel::Tab {
                    label: (#[trigger] tabs[k]).0,
                    active: tabs[k].1,
                })
        },
        _ => false,
    }
}

/// The host manager draws the tab that shows.
pub proof fn the_tab_of_the_host_manager_is_drawn(
    s: EasySshScreenModel,
    p: PictureModel,
    area: Rect,
    l: easyssh_screen::EasySshLayoutModel,
    search: Seq<Rect>,
    form: Seq<Rect>,
    keys: Seq<Rect>,
)
    requires
        s.modal is None,
    ensures
        is_tabs(
            s.drawn_on(p, area, l, search, form, keys).ops[p.ops.len() as int],
            l.screen[0],
            seq![
                ("F1 Servers"@, s.tab == easyssh_screen::Tab::Servers),
                ("F2 Tags"@, s.tab == easyssh_screen::Tab::Tags),
            ],
        ),
{
}

} // verus!
