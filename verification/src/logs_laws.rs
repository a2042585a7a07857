//! What holds of the Logs & Journals Reader as a whole.
use crate::cycle;
use crate::event::{KeyCode, KeyEvent, MouseEvent};
use crate::geometry::Rect;
use crate::lists;
use crate::log;
use crate::logs_draw;
use crate::logs_screen;
use crate::logs_screen::{
    ConnField, ConnectionModel, ConnectionsTabModel, LogsLayoutModel, LogsScreenModel, RemoteBrowserModel,
    RemoteEntryModel, RequestModel, ViewerField, ViewerTabModel,
};
use crate::mouse;
use crate::picture::Tone;
use crate::remote_path;
use crate::servers::ServerModel;
use crate::text;
use crate::widgets::InputModel;
use vstd::prelude::*;

verus! {

/// Going to the next field of a form and back ends where it started.
pub proof fn form_fields_cycle(journal: bool, f: ConnField, g: ViewerField)
    ensures
        logs_screen::conn_fields().contains(f) ==> {
            let s = logs_screen::conn_fields();
            cycle::before(s, cycle::after(s, f)) == f && cycle::after(s, cycle::before(s, f)) == f
        },
        logs_screen::viewer_fields(journal).contains(g) ==> {
            let s = logs_screen::viewer_fields(journal);
            cycle::before(s, cycle::after(s, g)) == g && cycle::after(s, cycle::before(s, g)) == g
        },
{
    lemma_fields_differ(journal);
    if logs_screen::conn_fields().contains(f) {
        cycle::before_undoes_after(logs_screen::conn_fields(), f);
    }
    if logs_screen::viewer_fields(journal).contains(g) {
        cycle::before_undoes_after(logs_screen::viewer_fields(journal), g);
    }
}

proof fn lemma_fields_differ(journal: bool)
    ensures
        logs_screen::conn_fields().no_duplicates(),
        logs_screen::viewer_fields(journal).no_duplicates(),
{
}

/// A known host is listed below the saved profiles exactly if none of them
/// leads to it, so that saving one leaves no second row for the same host.
pub proof fn hosts_are_listed_once(conns: Seq<ConnectionModel>, hosts: Seq<ServerModel>, s: ServerModel)
    ensures
        logs_screen::extras(conns, hosts).contains(s) <==> hosts.contains(s) && !logs_screen::covered(
            conns,
            s.effective_host(),
        ),
{
    let keep = |h: ServerModel| !logs_screen::covered(conns, h.effective_host());
    let kept = hosts.filter(keep);
    if kept.contains(s) {
        let i = choose|i: int| 0 <= i < kept.len() && kept[i] == s;
        lists::lemma_filter_part(hosts, keep, i);
    }
    if hosts.contains(s) && keep(s) {
        let i = choose|i: int| 0 <= i < hosts.len() && hosts[i] == s;
        lists::lemma_filter_keeps(hosts, keep, i);
    }
}

/// Every profile and every known host can be typed as a connection: a host
/// needs no profile of its own, and a profile of the same label goes first.
pub proof fn known_hosts_need_no_profile(m: LogsScreenModel, label: Seq<char>)
    ensures
        logs_screen::by_label(m.cfg.connections, label) is None ==> {
            &&& logs_screen::by_alias(m.hosts, label) matches Some(s) ==> m.connection_by_label(label) == Some(
                s.as_connection(),
            )
            &&& logs_screen::by_alias(m.hosts, label) is None ==> m.connection_by_label(label) is None
        },
        logs_screen::by_label(m.cfg.connections, label) matches Some(c) ==> m.connection_by_label(label)
            == m.cfg.with_secrets(c.id),
{
}

/// A host that is used without a profile brings no password along.
pub proof fn unsaved_hosts_have_no_password(s: ServerModel)
    ensures
        s.as_connection().ssh_password.len() == 0,
        s.as_connection().label == s.alias,
        s.as_connection().host == s.effective_host(),
{
}

/// Filling the form from a host keeps a label that is there, and takes the
/// alias of the host otherwise.
pub proof fn labels_default_to_the_alias(t: ConnectionsTabModel, s: ServerModel)
    ensures
        t.label.trimmed().len() == 0 ==> t.filled_from(s).label == InputModel::of(s.alias),
        t.label.trimmed().len() > 0 ==> t.filled_from(s).label == t.label,
        t.filled_from(s).host.text == s.effective_host(),
        s.port == 0 ==> t.filled_from(s).ssh_port == t.ssh_port,
        s.user.len() == 0 ==> t.filled_from(s).ssh_user == t.ssh_user,
{
}

/// A row of the table below the saved profiles fills an empty form; the row
/// is no profile yet, so saving it makes a new one.
pub proof fn taking_a_host_row_makes_a_new_profile(
    t: ConnectionsTabModel,
    i: int,
    saved: Seq<ConnectionModel>,
    extra: Seq<ServerModel>,
)
    requires
        saved.len() <= i < saved.len() + extra.len(),
    ensures
        t.row_taken(i, saved, extra).selected is None,
        t.row_taken(i, saved, extra).label.text == extra[i - saved.len()].alias,
        t.row_taken(i, saved, extra).table_idx == t.table_idx,
{
    let e = InputModel::empty();
    assert(text::trimmed(e.text).len() == 0) by {
        assert(text::trim_start(e.text) =~= Seq::empty());
        assert(text::trim_end(Seq::<char>::empty()) =~= Seq::empty());
    }
}

/// Loading a profile and saving it unchanged asks to save what was there.
pub proof fn saving_a_loaded_profile_changes_nothing(m: LogsScreenModel, i: int)
    requires
        m.cfg.connections.len() <= usize::MAX,
        0 <= i < m.cfg.connections.len(),
        text::trimmed(m.cfg.connections[i].label) == m.cfg.connections[i].label,
        text::trimmed(m.cfg.connections[i].host) == m.cfg.connections[i].host,
        text::trimmed(m.cfg.connections[i].ssh_port) == m.cfg.connections[i].ssh_port,
        text::trimmed(m.cfg.connections[i].ssh_user) == m.cfg.connections[i].ssh_user,
        text::trimmed(m.cfg.connections[i].ssh_key_path) == m.cfg.connections[i].ssh_key_path,
    ensures
        ({
            let c = m.cfg.connections[i];
            let loaded = m.with_conn(m.connections_tab.loaded(i, c));
            let input = loaded.connections_tab.as_input();
            &&& loaded.edited() == Some(c)
            &&& input.label == c.label
            &&& input.host == c.host
            &&& input.ssh_port == c.ssh_port
            &&& input.ssh_user == c.ssh_user
            &&& input.ssh_key_path == c.ssh_key_path
            &&& input.ssh_password.len() == 0
            &&& c.label.len() > 0 && c.host.len() > 0 && c.ssh_user.len() > 0 ==> loaded.save_connection()
                == loaded.ask(RequestModel::SaveConnection { existing: Some(c.id), input })
        }),
{
}

/// A message box keeps every key and every click to itself.
pub proof fn messages_take_all_input(m: LogsScreenModel, key: KeyEvent, me: MouseEvent, l: LogsLayoutModel)
    requires
        m.log.alert is Some,
    ensures
        !m.on_key(key).1,
        m.on_key(key).0 == m || m.on_key(key).0 == m.with_log(m.log.dismissed()),
        log::closes_alert(key.code) ==> m.on_key(key).0 == m.with_log(m.log.dismissed()),
        mouse::clicked(me) is Some ==> m.on_mouse(me, l) == m.with_log(m.log.dismissed()),
        mouse::clicked(me) is None ==> m.on_mouse(me, l) == m,
{
}

/// Leaving the screen changes nothing, and an open browser, dropdown or
/// picker is closed first.
pub proof fn leaving_changes_nothing(m: LogsScreenModel, key: KeyEvent)
    ensures
        m.on_key(key).1 ==> m.on_key(key).0 == m,
        m.on_key(key).1 && !key.chord('c') ==> {
            &&& key.code == KeyCode::Esc
            &&& m.viewer_tab.browser is None
            &&& !m.viewer_tab.connection_dropdown_open
            &&& m.connections_tab.key_picker is None
            &&& m.connections_tab.host_picker is None
        },
{
}

/// Picking a connection from the dropdown fetches with it at once.
pub proof fn picking_a_connection_fetches(m: LogsScreenModel)
    requires
        m.viewer_tab.connection_dropdown_open,
        0 <= m.viewer_tab.connection_idx < m.found().len(),
    ensures
        ({
            let label = m.found()[m.viewer_tab.connection_idx];
            let picked = m.with_viewer(
                ViewerTabModel {
                    connection_input: InputModel::of(label),
                    connection_dropdown_open: false,
                    ..m.viewer_tab
                },
            );
            m.on_viewer_key(KeyCode::Enter) == picked.fetch()
        }),
{
}

/// The log is fetched anew on its own only while that is switched on, with
/// no fetch under way and five seconds after the last one.
pub proof fn refreshing_waits_its_turn(m: LogsScreenModel, now: u64)
    ensures
        m.ticked(Seq::empty(), now) != m ==> {
            &&& m.viewer_tab.auto_refresh
            &&& !m.viewer_tab.fetching
            &&& m.viewer_tab.last_fetch matches Some(t) ==> now - t >= 5000
        },
{
}

/// While a fetch is under way no second one starts on its own, and when it
/// has ended none does for another five seconds.
pub proof fn fetches_do_not_pile_up(m: LogsScreenModel, now: u64, later: u64, lines: Seq<Seq<char>>)
    requires
        now <= later < now + 5000,
    ensures
        m.viewer_tab.fetching ==> !m.refresh_due(now),
        !m.absorb(logs_screen::MsgModel::Fetched(lines), now).refresh_due(later),
{
}

/// Turning a switch forward and back again leaves it where it was.
pub proof fn switching_back_undoes_switching(t: ViewerTabModel, n: int)
    requires
        0 <= t.priority_idx < n,
    ensures
        t.switched(false, n).switched(true, n) == t,
        t.switched(true, n).switched(false, n) == t,
{
    let i = t.priority_idx;
    cycle::lemma_wrap(i, n);
    cycle::lemma_wrap((i + 1) % n, n);
    cycle::lemma_wrap((i + n - 1) % n, n);
}

/// The number of lines is at least one, and takes only digits as it is typed.
pub proof fn line_counts_are_numbers(t: ViewerTabModel, c: char)
    ensures
        t.line_count() >= 1,
        t.field == ViewerField::Lines && !text::is_digit(c) ==> t.edit(KeyCode::Char(c)) == t,
{
}

/// Browsing starts in the directory that holds the file that is typed.
pub proof fn browsing_starts_at_the_file(t: ViewerTabModel, p: Seq<char>)
    requires
        t.path.trimmed() == p,
        p.len() > 0,
        p.last() != '/',
    ensures
        t.browse_start() == remote_path::parent(p),
{
}

/// A click on a row of the browser does what Enter on the row that is drawn
/// there does: the list shows its rows from the first, or, with the selection
/// further down, ends with the selected one.
pub proof fn browser_clicks_are_enters(
    m: LogsScreenModel,
    b: RemoteBrowserModel,
    me: MouseEvent,
    list: Rect,
    line: int,
)
    requires
        0 <= b.selected < b.entries.len() <= usize::MAX,
        0 <= line < list.height,
        mouse::clicked(me) matches Some((x, y)) && list.x <= x < list.right() && y == list.y + line,
    ensures
        ({
            let first = if b.selected < list.height {
                0
            } else {
                b.selected - list.height + 1
            };
            let chosen = RemoteBrowserModel { selected: first + line, ..b };
            &&& first + line < b.entries.len() ==> m.on_browser_mouse(b, me, list) == m.with_browser(
                Some(chosen),
            ).on_browser_key(chosen, KeyCode::Enter)
            &&& first + line >= b.entries.len() ==> m.on_browser_mouse(b, me, list) == m
        }),
{
    let (x, y) = mouse::clicked(me)->0;
    mouse::clicks_hit_the_list_row_shown(x, y, list, b.entries.len() as int, b.selected, line);
}

/// A directory that was listed is shown with one way up, first, but at the
/// root with none, whether or not the listing names it; every other entry is
/// one that was listed.
pub proof fn listings_have_one_way_up(path: Seq<char>, listed: Seq<RemoteEntryModel>, i: int)
    requires
        0 <= i < logs_screen::browser_rows(path, listed).len(),
    ensures
        ({
            let row = logs_screen::browser_rows(path, listed)[i];
            &&& row.name == ".."@ <==> path != "/"@ && i == 0
            &&& row.name != ".."@ ==> listed.contains(row)
        }),
{
    let keep = |e: RemoteEntryModel| e.name != ".."@;
    let up: int = if path == "/"@ {
        0
    } else {
        1
    };
    if i >= up {
        lists::lemma_filter_part(listed, keep, i - up);
    }
}

/// The rows of the browser are its entries, one to one: the row that is
/// highlighted and hit is the entry that Enter takes.
pub proof fn browser_rows_are_its_entries(entries: Seq<RemoteEntryModel>, i: int)
    requires
        0 <= i < entries.len(),
    ensures
        logs_draw::entry_lines(entries).len() == entries.len(),
        logs_draw::entry_lines(entries)[i] == entries[i].listed(),
    decreases entries.len(),
{
    if entries.len() > 1 {
        let front = entries.drop_last();
        browser_rows_are_its_entries(
            front,
            if i < front.len() {
                i
            } else {
                0
            },
        );
    } else {
        assert(logs_draw::entry_lines(entries.drop_last()) =~= Seq::empty());
    }
}

/// The colour of a line depends on its words alone, not on their case: a
/// line with `error` in brackets is bad, one with `warn` a warning at most.
pub proof fn severity_goes_by_words(line: Seq<char>)
    ensures
        logs_draw::severity(line) == Tone::Bad || logs_draw::severity(line) == Tone::Warn
            || logs_draw::severity(line) == Tone::Plain,
        text::occurs(text::lowercase(line), "[error]"@) ==> logs_draw::severity(line) == Tone::Bad,
        text::occurs(text::lowercase(line), "warn"@) ==> logs_draw::severity(line) != Tone::Plain,
{
}

} // verus!
