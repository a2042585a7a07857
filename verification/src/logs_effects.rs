//! What the operations of the log viewer are for.
use crate::event::{KeyCode, KeyEvent};
use crate::lists;
use crate::logs_screen;
use crate::logs_screen::{
    ConfigModel, ConnField, ConnectionInputModel, ConnectionModel, ConnectionWithSecretsModel, ConnectionsTabModel,
    LogsScreenModel, MsgModel, RemoteBrowserModel, RemoteEntryModel, RequestModel, Tab, ViewerField, ViewerTabModel,
};
use crate::remote_path;
use crate::servers::ServerModel;
use crate::text;
use crate::widgets::InputModel;
use vstd::prelude::*;

verus! {

// ----------------------------------------------------------------- look-ups

/// A profile is found by its label.
pub proof fn profiles_are_found_by_label(s: Seq<ConnectionModel>, label: Seq<char>)
    ensures
        lists::finds(s, |c: ConnectionModel| c.label == label, logs_screen::by_label(s, label)),
    decreases s.len(),
{
    if s.len() > 0 {
        profiles_are_found_by_label(s.drop_first(), label);
    }
    lists::lemma_finds(
        s,
        |c: ConnectionModel| c.label == label,
        |c: ConnectionModel| c,
        logs_screen::by_label(s, label),
    );
}

/// The secrets of a profile are found by its id.
pub proof fn secrets_are_found_by_id(s: Seq<ConnectionWithSecretsModel>, id: Seq<char>)
    ensures
        lists::finds(s, |c: ConnectionWithSecretsModel| c.id == id, logs_screen::by_id(s, id)),
    decreases s.len(),
{
    if s.len() > 0 {
        secrets_are_found_by_id(s.drop_first(), id);
    }
    lists::lemma_finds(
        s,
        |c: ConnectionWithSecretsModel| c.id == id,
        |c: ConnectionWithSecretsModel| c,
        logs_screen::by_id(s, id),
    );
}

/// A known host is found by its alias.
pub proof fn hosts_are_found_by_alias(s: Seq<ServerModel>, alias: Seq<char>)
    ensures
        lists::finds(s, |h: ServerModel| h.alias == alias, logs_screen::by_alias(s, alias)),
    decreases s.len(),
{
    if s.len() > 0 {
        hosts_are_found_by_alias(s.drop_first(), alias);
    }
    lists::lemma_finds(s, |h: ServerModel| h.alias == alias, |h: ServerModel| h, logs_screen::by_alias(s, alias));
}

/// The connection that work is done over is the one that was typed.
pub proof fn the_connection_is_the_one_typed(m: LogsScreenModel)
    ensures
        m.typed_connection() == m.connection_by_label(text::trimmed(m.viewer_tab.connection_input.text)),
{
}

/// A known host is contacted as its entry says: at its port, or the usual one
/// where it has none, as its user, with its first key.
pub proof fn known_hosts_are_contacted_as_they_say(s: ServerModel)
    ensures
        ({
            let c = s.as_connection();
            &&& c.host == if s.host.len() > 0 {
                s.host
            } else {
                s.alias
            }
            &&& s.port != 0 ==> c.ssh_port == text::decimal(s.port as nat)
            &&& s.port == 0 ==> c.ssh_port == "22"@
            &&& c.ssh_user == s.user
            &&& s.identity_files.len() > 0 ==> c.ssh_key_path == s.identity_files[0]
            &&& s.identity_files.len() == 0 ==> c.ssh_key_path.len() == 0
        }),
{
}

/// Whether a choice of the dropdown has a text in its label or its host.
pub open spec fn has_text(c: (Seq<char>, Seq<char>), q: Seq<char>) -> bool {
    q.len() == 0 || text::occurs(text::lowercase(c.0), q) || text::occurs(text::lowercase(c.1), q)
}

/// The dropdown offers the labels of the connections that have what was typed
/// in their label or host, in order.
pub proof fn choices_have_what_was_typed(s: Seq<(Seq<char>, Seq<char>)>, q: Seq<char>)
    ensures
        ({
            let kept = s.filter(|c: (Seq<char>, Seq<char>)| has_text(c, q));
            let labels = logs_screen::labels_matching(s, q);
            &&& labels.len() == kept.len()
            &&& forall|i: int| 0 <= i < labels.len() ==> #[trigger] labels[i] == kept[i].0
        }),
    decreases s.len(),
{
    reveal(Seq::filter);
    if s.len() > 0 {
        choices_have_what_was_typed(s.drop_last(), q);
        let kept = s.filter(|c: (Seq<char>, Seq<char>)| has_text(c, q));
        let part = s.drop_last().filter(|c: (Seq<char>, Seq<char>)| has_text(c, q));
        let labels = logs_screen::labels_matching(s, q);
        let front = logs_screen::labels_matching(s.drop_last(), q);
        assert forall|i: int| 0 <= i < front.len() implies #[trigger] labels[i] == front[i] && kept[i] == part[i] by {}
    }
}

/// Every profile is among the choices, with its label and host.
pub proof fn every_profile_is_a_choice(conns: Seq<ConnectionModel>, hosts: Seq<ServerModel>, i: int)
    requires
        0 <= i < conns.len(),
    ensures
        i < logs_screen::merged(conns, hosts).len(),
        logs_screen::merged(conns, hosts)[i] == (conns[i].label, conns[i].host),
    decreases hosts.len(),
{
    if hosts.len() > 0 {
        every_profile_is_a_choice(conns, hosts.drop_last(), i);
    }
}

/// A known host that no profile covers is among the choices under its alias.
pub proof fn every_other_host_is_a_choice(conns: Seq<ConnectionModel>, hosts: Seq<ServerModel>, i: int)
    requires
        0 <= i < hosts.len(),
        !logs_screen::covered(conns, hosts[i].effective_host()),
    ensures
        logs_screen::has_label(logs_screen::merged(conns, hosts), hosts[i].alias),
    decreases hosts.len(),
{
    let all = logs_screen::merged(conns, hosts);
    let front = logs_screen::merged(conns, hosts.drop_last());
    if i < hosts.len() - 1 {
        every_other_host_is_a_choice(conns, hosts.drop_last(), i);
        let k = choose|k: int| 0 <= k < front.len() && (#[trigger] front[k]).0 == hosts[i].alias;
        assert(all[k] == front[k]);
    } else if !logs_screen::has_label(front, hosts[i].alias) {
        assert(all[all.len() - 1].0 == hosts[i].alias);
    } else {
        let k = choose|k: int| 0 <= k < front.len() && (#[trigger] front[k]).0 == hosts[i].alias;
        assert(all[k].0 == hosts[i].alias);
    }
}

// ----------------------------------------------------------------- fetching

/// Each part of what is fetched is what was typed into its own field, or set
/// by its own switch. The number of lines is the one typed, and at least one;
/// where it is no number it is 200.
pub proof fn what_is_fetched_is_what_the_form_says(t: ViewerTabModel)
    ensures
        ({
            let p = t.params();
            let n = text::unsigned_value(text::trimmed(t.lines.text));
            &&& p.journal == t.journal
            &&& p.unit == text::trimmed(t.unit.text)
            &&& p.since == text::trimmed(t.since.text)
            &&& p.path == text::trimmed(t.path.text)
            &&& p.search == text::trimmed(t.search.text)
            &&& p.priority == t.priority_idx
            &&& n is Some && 1 <= n->0 <= u32::MAX ==> p.lines == n->0
            &&& n == Some(0nat) ==> p.lines == 1
            &&& n is None || n->0 > u32::MAX ==> p.lines == 200
        }),
{
}

/// Whether the form of the viewer takes the keys.
pub open spec fn on_viewer(m: LogsScreenModel, field: ViewerField) -> bool {
    &&& m.log.alert is None
    &&& m.tab == Tab::Viewer
    &&& m.viewer_tab.browser is None
    &&& !m.viewer_tab.connection_dropdown_open
    &&& m.viewer_tab.field == field
}

/// Whether a screen asked for the lines that its form describes, and for
/// nothing else.
pub open spec fn asked_for_its_lines(m: LogsScreenModel, t: LogsScreenModel) -> bool {
    &&& t.requests.len() == m.requests.len() + 1
    &&& t.requests == m.requests.push(t.requests.last())
    &&& t.requests.last() matches RequestModel::Fetch { conn, params }
    &&& Some(conn) == m.typed_connection()
    &&& params.journal == m.viewer_tab.journal
    &&& params.unit == text::trimmed(m.viewer_tab.unit.text)
    &&& params.since == text::trimmed(m.viewer_tab.since.text)
    &&& params.path == text::trimmed(m.viewer_tab.path.text)
    &&& params.search == text::trimmed(m.viewer_tab.search.text)
    &&& params.priority == m.viewer_tab.priority_idx
    &&& params.lines >= 1
    &&& text::unsigned_value(text::trimmed(m.viewer_tab.lines.text)) matches Some(n) ==> (1 <= n <= u32::MAX
        ==> params.lines == n)
}

/// Fetch asks for the lines that the form describes, over the connection that
/// was typed. Without a connection, or without a path where a file is read,
/// that is told and nothing is asked for.
pub proof fn fetching_asks_for_what_the_form_says(m: LogsScreenModel, key: KeyEvent)
    requires
        on_viewer(m, ViewerField::BtnFetch),
        key.code == KeyCode::Enter,
    ensures
        ({
            let t = m.on_key(key).0;
            let ready = m.typed_connection() is Some && (m.viewer_tab.journal || text::trimmed(
                m.viewer_tab.path.text,
            ).len() > 0);
            &&& ready ==> asked_for_its_lines(m, t) && t == (LogsScreenModel {
                viewer_tab: ViewerTabModel { fetching: true, ..m.viewer_tab },
                requests: t.requests,
                ..m
            })
            &&& !ready ==> t == (LogsScreenModel { log: t.log, ..m }) && t.log.alert is Some
        }),
{
    what_is_fetched_is_what_the_form_says(m.viewer_tab);
}

/// Where it is switched on, the log is fetched anew, with the form as it
/// stands, once five seconds have passed since the last time.
pub proof fn the_log_is_refreshed_when_it_is_due(m: LogsScreenModel, now: u64)
    requires
        m.viewer_tab.auto_refresh,
        !m.viewer_tab.fetching,
        m.viewer_tab.last_fetch matches Some(t) ==> now >= t + 5000,
        m.typed_connection() is Some,
        text::trimmed(m.viewer_tab.connection_input.text).len() > 0,
        m.viewer_tab.journal || text::trimmed(m.viewer_tab.path.text).len() > 0,
    ensures
        asked_for_its_lines(m, m.ticked(Seq::empty(), now)),
        m.ticked(Seq::empty(), now).viewer_tab.fetching,
{
    what_is_fetched_is_what_the_form_says(m.viewer_tab);
}

/// Picking a connection takes its label and asks for the lines over it.
pub proof fn a_picked_connection_is_fetched_from(m: LogsScreenModel, key: KeyEvent)
    requires
        m.log.alert is None,
        m.tab == Tab::Viewer,
        m.viewer_tab.browser is None,
        m.viewer_tab.connection_dropdown_open,
        0 <= m.viewer_tab.connection_idx < m.found().len(),
        m.viewer_tab.journal,
        key.code == KeyCode::Enter,
    ensures
        ({
            let t = m.on_key(key).0;
            let label = m.found()[m.viewer_tab.connection_idx];
            &&& t.viewer_tab.connection_input.text == label
            &&& !t.viewer_tab.connection_dropdown_open
            &&& m.connection_by_label(text::trimmed(label)) matches Some(conn) ==> {
                &&& t.requests.len() == m.requests.len() + 1
                &&& t.requests.last() matches RequestModel::Fetch { conn: asked, params }
                &&& asked == conn
            }
        }),
{
}

/// What was fetched is shown from the top; a failure is told and keeps what
/// was shown. Either ends the fetch.
pub proof fn fetched_lines_are_shown(m: LogsScreenModel, lines: Seq<Seq<char>>, error: Seq<char>, now: u64)
    ensures
        ({
            let t = m.on_msg(MsgModel::Fetched(lines), now);
            t == (LogsScreenModel {
                viewer_tab: ViewerTabModel {
                    log_lines: lines,
                    scroll: 0,
                    fetching: false,
                    last_fetch: Some(now),
                    ..m.viewer_tab
                },
                log: t.log,
                ..m
            })
        }),
        ({
            let t = m.on_msg(MsgModel::FetchFailed(error), now);
            &&& t == (LogsScreenModel {
                viewer_tab: ViewerTabModel { fetching: false, last_fetch: Some(now), ..m.viewer_tab },
                log: t.log,
                ..m
            })
            &&& t.log.history.len() == m.log.history.len() + 1 && !t.log.history.last().0
        }),
{
}

/// The text of an input of the viewer.
pub open spec fn viewer_input(t: ViewerTabModel, f: ViewerField) -> Option<InputModel> {
    match f {
        ViewerField::Connection => Some(t.connection_input),
        ViewerField::UnitOrPath => Some(
            if t.journal {
                t.unit
            } else {
                t.path
            },
        ),
        ViewerField::Since => Some(t.since),
        ViewerField::Lines => Some(t.lines),
        ViewerField::Search => Some(t.search),
        _ => None,
    }
}

/// An input with a character put in at its cursor.
pub open spec fn inserted(i: InputModel, c: char) -> InputModel {
    InputModel { text: i.text.insert(i.cursor, c), cursor: i.cursor + 1 }
}

/// What is typed in the viewer goes into the field with the focus, and into
/// no other: the unit in journal mode, the path in file mode.
pub proof fn typing_goes_to_the_field_with_the_focus(m: LogsScreenModel, f: ViewerField, other: ViewerField, c: char)
    requires
        on_viewer(m, f),
        f == ViewerField::Lines ==> '0' <= c <= '9',
    ensures
        ({
            let t = m.on_key(KeyEvent { code: KeyCode::Char(c), control: false }).0.viewer_tab;
            let old = m.viewer_tab;
            &&& viewer_input(old, f) matches Some(i) ==> viewer_input(t, f) == Some(inserted(i, c))
            &&& other != f ==> viewer_input(t, other) == viewer_input(old, other)
            &&& t.journal == old.journal
            &&& old.journal ==> t.path == old.path
            &&& !old.journal ==> t.unit == old.unit
            &&& t.priority_idx == old.priority_idx && t.auto_refresh == old.auto_refresh
        }),
{
}

/// The switches of the viewer turn what they name: the source, the severity
/// and the refresh.
pub proof fn switches_turn_what_they_name(m: LogsScreenModel, key: KeyEvent)
    requires
        m.log.alert is None,
        m.tab == Tab::Viewer,
        m.viewer_tab.browser is None,
        !m.viewer_tab.connection_dropdown_open,
        m.wf(),
        key.code == KeyCode::Enter || key.code == KeyCode::Right,
    ensures
        ({
            let t = m.on_key(key).0;
            let old = m.viewer_tab;
            &&& old.field == ViewerField::Source ==> t == (LogsScreenModel {
                viewer_tab: ViewerTabModel { journal: !old.journal, ..old },
                ..m
            })
            &&& old.field == ViewerField::AutoRefresh ==> t == (LogsScreenModel {
                viewer_tab: ViewerTabModel { auto_refresh: !old.auto_refresh, ..old },
                ..m
            })
            &&& old.field == ViewerField::Priority ==> t == (LogsScreenModel {
                viewer_tab: ViewerTabModel {
                    priority_idx: if old.priority_idx + 1 < m.priorities.len() {
                        old.priority_idx + 1
                    } else {
                        0
                    },
                    ..old
                },
                ..m
            })
        }),
{
    crate::cycle::lemma_wrap(m.viewer_tab.priority_idx, m.priorities.len() as int);
}

/// The log scrolls by one line, by twenty, and to its ends, and never past
/// them.
pub proof fn the_log_scrolls_within_its_lines(t: ViewerTabModel, key: KeyCode)
    requires
        t.log_lines.len() <= u16::MAX,
        t.scroll <= t.log_lines.len(),
    ensures
        ({
            let s = t.pane_scrolled(key);
            let last = t.log_lines.len() as int;
            &&& key == KeyCode::Up ==> s.scroll == if t.scroll >= 1 {
                t.scroll - 1
            } else {
                0
            }
            &&& key == KeyCode::Down ==> s.scroll == if t.scroll + 1 <= last {
                t.scroll + 1
            } else {
                last
            }
            &&& key == KeyCode::PageUp ==> s.scroll == if t.scroll >= 20 {
                t.scroll - 20
            } else {
                0
            }
            &&& key == KeyCode::PageDown ==> s.scroll == if t.scroll + 20 <= last {
                t.scroll + 20
            } else {
                last
            }
            &&& key == KeyCode::Home ==> s.scroll == 0
            &&& key == KeyCode::End ==> s.scroll == last
            &&& s == (ViewerTabModel { scroll: s.scroll, ..t })
        }),
{
}

// ----------------------------------------------------------------- browsing

/// Browse opens the directory to start in over the connection that was typed.
pub proof fn browsing_lists_the_directory(m: LogsScreenModel, key: KeyEvent)
    requires
        on_viewer(m, ViewerField::BtnBrowse),
        key.code == KeyCode::Enter,
    ensures
        ({
            let t = m.on_key(key).0;
            &&& m.typed_connection() is None ==> t == (LogsScreenModel { log: t.log, ..m }) && t.log.alert is Some
            &&& m.typed_connection() matches Some(conn) ==> {
                &&& t.viewer_tab.browser matches Some(b)
                &&& b.path == m.viewer_tab.browse_start()
                &&& b.loading
                &&& t == (LogsScreenModel {
                    viewer_tab: ViewerTabModel { browser: t.viewer_tab.browser, ..m.viewer_tab },
                    requests: m.requests.push(RequestModel::ListDir { conn, path: b.path }),
                    ..m
                })
            }
        }),
{
}

/// Browsing starts in the directory that was typed, in that of the file that
/// was typed, or with the logs where nothing was.
pub proof fn browsing_starts_where_the_path_is(t: ViewerTabModel)
    ensures
        ({
            let p = text::trimmed(t.path.text);
            &&& p.len() == 0 ==> t.browse_start() == "/var/log"@
            &&& p.len() > 0 && p.last() == '/' ==> t.browse_start() == p
            &&& p.len() > 0 && p.last() != '/' ==> t.browse_start() == remote_path::parent(p)
        }),
{
}

/// Enter on an entry opens a directory, and takes the path of a file into the
/// form.
pub proof fn entries_are_opened_or_taken(m: LogsScreenModel, b: RemoteBrowserModel, key: KeyEvent)
    requires
        m.log.alert is None,
        m.viewer_tab.browser == Some(b),
        0 <= b.selected < b.entries.len(),
        key.code == KeyCode::Enter,
    ensures
        ({
            let t = m.on_key(key).0;
            let e = b.entries[b.selected];
            let path = remote_path::joined(b.path, e.name);
            &&& !e.is_dir ==> {
                &&& t.viewer_tab.path.text == path
                &&& t == (LogsScreenModel {
                    viewer_tab: ViewerTabModel { path: t.viewer_tab.path, browser: None, ..m.viewer_tab },
                    ..m
                })
            }
            &&& e.is_dir ==> (m.typed_connection() matches Some(conn) ==> t.requests == m.requests.push(
                RequestModel::ListDir { conn, path },
            ) && t.viewer_tab.path == m.viewer_tab.path && t.viewer_tab.browser is Some)
        }),
{
}

/// Esc closes the browser and keeps the form.
pub proof fn the_browser_can_be_left(m: LogsScreenModel, key: KeyEvent)
    requires
        m.log.alert is None,
        m.viewer_tab.browser is Some,
        key.code == KeyCode::Esc,
    ensures
        m.on_key(key) == (LogsScreenModel {
            viewer_tab: ViewerTabModel { browser: None, ..m.viewer_tab },
            ..m
        }, false),
{
}

/// A listing fills an open browser, and is dropped where there is none.
pub proof fn listings_fill_an_open_browser(
    m: LogsScreenModel,
    path: Seq<char>,
    entries: Seq<RemoteEntryModel>,
    error: Seq<char>,
    now: u64,
)
    ensures
        m.viewer_tab.browser is None ==> m.on_msg(MsgModel::Listed { path, entries }, now) == m,
        m.viewer_tab.browser is Some ==> {
            let t = m.on_msg(MsgModel::Listed { path, entries }, now);
            &&& t.viewer_tab.browser matches Some(b)
            &&& b.path == path && !b.loading && b.error is None && b.selected == 0
            &&& b.entries == logs_screen::browser_rows(path, entries)
        },
        m.viewer_tab.browser matches Some(b) ==> {
            let t = m.on_msg(MsgModel::ListFailed(error), now);
            &&& t.viewer_tab.browser matches Some(c)
            &&& c.error is Some && !c.loading && c.path == b.path && c.entries == b.entries
        },
{
}

// -------------------------------------------------------------- connections

/// Whether the form of the connections takes the keys.
pub open spec fn on_connections(m: LogsScreenModel, field: ConnField) -> bool {
    &&& m.log.alert is None
    &&& m.tab == Tab::Connections
    &&& m.viewer_tab.browser is None
    &&& m.connections_tab.key_picker is None
    &&& m.connections_tab.host_picker is None
    &&& m.connections_tab.field == field
}

/// The profile that was loaded into the form.
pub open spec fn loaded_profile(m: LogsScreenModel) -> Option<ConnectionModel> {
    match m.connections_tab.selected {
        Some(i) => if i < m.cfg.connections.len() {
            Some(m.cfg.connections[i as int])
        } else {
            None
        },
        None => None,
    }
}

/// Save stores what the form says, each part from its own field: over the
/// profile that was loaded, or as a new one. Label, host and user are needed.
pub proof fn saving_stores_the_form(m: LogsScreenModel, key: KeyEvent)
    requires
        on_connections(m, ConnField::BtnSave),
        key.code == KeyCode::Enter,
    ensures
        ({
            let t = m.on_key(key).0;
            let f = m.connections_tab;
            let ready = text::trimmed(f.label.text).len() > 0 && text::trimmed(f.host.text).len() > 0 && text::trimmed(
                f.ssh_user.text,
            ).len() > 0;
            &&& ready ==> t == (LogsScreenModel {
                requests: m.requests.push(
                    RequestModel::SaveConnection {
                        existing: match loaded_profile(m) {
                            Some(c) => Some(c.id),
                            None => None,
                        },
                        input: ConnectionInputModel {
                            label: text::trimmed(f.label.text),
                            host: text::trimmed(f.host.text),
                            ssh_port: text::trimmed(f.ssh_port.text),
                            ssh_user: text::trimmed(f.ssh_user.text),
                            ssh_key_path: text::trimmed(f.ssh_key_path.text),
                            ssh_password: f.ssh_password.text,
                        },
                    },
                ),
                ..m
            })
            &&& !ready ==> t == (LogsScreenModel { log: t.log, ..m }) && t.log.alert is Some
        }),
{
}

/// Test tries the form as it stands, with the stored password where none was
/// typed.
pub proof fn testing_tries_the_form(m: LogsScreenModel, key: KeyEvent)
    requires
        on_connections(m, ConnField::BtnTest),
        key.code == KeyCode::Enter,
        text::trimmed(m.connections_tab.host.text).len() > 0,
        text::trimmed(m.connections_tab.ssh_user.text).len() > 0,
    ensures
        ({
            let t = m.on_key(key).0;
            let f = m.connections_tab;
            &&& t.requests.len() == m.requests.len() + 1
            &&& t == (LogsScreenModel { requests: m.requests.push(t.requests.last()), ..m })
            &&& t.requests.last() matches RequestModel::TestConnection(c)
            &&& c.label == text::trimmed(f.label.text)
            &&& c.host == text::trimmed(f.host.text)
            &&& c.ssh_port == text::trimmed(f.ssh_port.text)
            &&& c.ssh_user == text::trimmed(f.ssh_user.text)
            &&& c.ssh_key_path == text::trimmed(f.ssh_key_path.text)
            &&& f.ssh_password.text.len() > 0 ==> c.ssh_password == f.ssh_password.text
            &&& f.ssh_password.text.len() == 0 ==> (loaded_profile(m) matches Some(p) ==> (logs_screen::by_id(
                m.cfg.opened,
                p.id,
            ) matches Some(o) ==> c.ssh_password == o.ssh_password))
            &&& f.ssh_password.text.len() == 0 && loaded_profile(m) is None ==> c.ssh_password.len() == 0
        }),
{
}

/// Delete deletes the profile that was loaded, else the one in the selected
/// row.
pub proof fn deleting_deletes_the_profile_chosen(m: LogsScreenModel, key: KeyEvent)
    requires
        on_connections(m, ConnField::BtnDelete),
        key.code == KeyCode::Enter,
    ensures
        ({
            let t = m.on_key(key).0;
            let i = match m.connections_tab.selected {
                Some(i) => i as int,
                None => m.connections_tab.table_idx,
            };
            &&& 0 <= i < m.cfg.connections.len() ==> t == (LogsScreenModel {
                requests: m.requests.push(
                    RequestModel::DeleteConnection { id: m.cfg.connections[i].id, label: m.cfg.connections[i].label },
                ),
                ..m
            })
            &&& !(0 <= i < m.cfg.connections.len()) ==> t == (LogsScreenModel { log: t.log, ..m })
        }),
{
}

/// Enter on a row loads that profile, each part into its own field and without
/// its password; New empties the form.
pub proof fn rows_are_loaded_without_their_password(m: LogsScreenModel, key: KeyEvent)
    requires
        m.log.alert is None,
        m.tab == Tab::Connections,
        m.viewer_tab.browser is None,
        m.connections_tab.key_picker is None,
        m.connections_tab.host_picker is None,
        key.code == KeyCode::Enter,
        m.cfg.connections.len() <= usize::MAX,
    ensures
        ({
            let t = m.on_key(key).0.connections_tab;
            let i = m.connections_tab.table_idx;
            &&& m.connections_tab.field == ConnField::Table && 0 <= i < m.cfg.connections.len() ==> {
                let c = m.cfg.connections[i];
                &&& t.selected == Some(i as usize)
                &&& t.label.text == c.label
                &&& t.host.text == c.host
                &&& t.ssh_port.text == c.ssh_port
                &&& t.ssh_user.text == c.ssh_user
                &&& t.ssh_key_path.text == c.ssh_key_path
                &&& t.ssh_password.text.len() == 0
            }
            &&& m.connections_tab.field == ConnField::BtnNew ==> {
                &&& t.selected is None
                &&& t.label.text.len() == 0 && t.host.text.len() == 0 && t.ssh_user.text.len() == 0
                &&& t.ssh_key_path.text.len() == 0 && t.ssh_password.text.len() == 0
                &&& t.ssh_port.text == "22"@
            }
            &&& m.connections_tab.field == ConnField::Table || m.connections_tab.field == ConnField::BtnNew
                ==> m.on_key(key).0 == (LogsScreenModel { connections_tab: t, ..m })
        }),
{
}

/// A host fills in all that it knows, each into its own field.
pub proof fn a_host_fills_in_what_it_knows(t: ConnectionsTabModel, s: ServerModel)
    ensures
        ({
            let f = t.filled_from(s);
            &&& f.host.text == if s.host.len() > 0 {
                s.host
            } else {
                s.alias
            }
            &&& s.port != 0 ==> f.ssh_port.text == text::decimal(s.port as nat)
            &&& s.user.len() > 0 ==> f.ssh_user.text == s.user
            &&& s.identity_files.len() > 0 ==> f.ssh_key_path.text == s.identity_files[0]
            &&& s.identity_files.len() == 0 ==> f.ssh_key_path == t.ssh_key_path
            &&& s.ssh_password.len() > 0 ==> f.ssh_password.text == s.ssh_password
            &&& s.ssh_password.len() == 0 ==> f.ssh_password == t.ssh_password
            &&& f.selected == t.selected && f.field == t.field && f.table_idx == t.table_idx
        }),
{
}

/// The text of an input of the connection form.
pub open spec fn conn_input(t: ConnectionsTabModel, f: ConnField) -> Option<InputModel> {
    match f {
        ConnField::Label => Some(t.label),
        ConnField::Host => Some(t.host),
        ConnField::SshPort => Some(t.ssh_port),
        ConnField::SshUser => Some(t.ssh_user),
        ConnField::SshKeyPath => Some(t.ssh_key_path),
        ConnField::SshPassword => Some(t.ssh_password),
        _ => None,
    }
}

/// What is typed in the connection form goes into the field with the focus.
pub proof fn typing_fills_the_connection_form(m: LogsScreenModel, f: ConnField, other: ConnField, c: char)
    requires
        on_connections(m, f),
    ensures
        ({
            let t = m.on_key(KeyEvent { code: KeyCode::Char(c), control: false }).0.connections_tab;
            let old = m.connections_tab;
            &&& conn_input(old, f) matches Some(i) ==> conn_input(t, f) == Some(inserted(i, c))
            &&& other != f ==> conn_input(t, other) == conn_input(old, other)
            &&& t.selected == old.selected && t.table_idx == old.table_idx && t.field == old.field
        }),
{
}

/// Enter on the host and on the key path asks for the hosts and for the
/// directory of the key.
pub proof fn the_connection_form_asks_for_lists(m: LogsScreenModel, key: KeyEvent)
    requires
        key.code == KeyCode::Enter,
    ensures
        on_connections(m, ConnField::Host) ==> m.on_key(key).0 == (LogsScreenModel {
            requests: m.requests.push(RequestModel::ListHosts),
            ..m
        }),
        on_connections(m, ConnField::SshKeyPath) ==> m.on_key(key).0 == (LogsScreenModel {
            requests: m.requests.push(RequestModel::BrowseKey(m.connections_tab.ssh_key_path.text)),
            ..m
        }),
{
}

/// What was saved or deleted brings the settings as they are now and empties
/// the form; a failure is told and keeps the form.
pub proof fn saved_profiles_are_taken_over(m: LogsScreenModel, cfg: ConfigModel, told: Seq<char>, now: u64)
    ensures
        ({
            let t = m.on_msg(MsgModel::Saved(cfg), now);
            &&& t == (LogsScreenModel { cfg, connections_tab: t.connections_tab, log: t.log, ..m })
            &&& t.connections_tab.selected is None && t.connections_tab.label.text.len() == 0
        }),
        ({
            let t = m.on_msg(MsgModel::Deleted { cfg, label: told }, now);
            &&& t == (LogsScreenModel { cfg, connections_tab: t.connections_tab, log: t.log, ..m })
            &&& t.connections_tab.selected is None && t.connections_tab.table_idx == 0
        }),
        ({
            let t = m.on_msg(MsgModel::SaveFailed { cfg, error: told }, now);
            &&& t == (LogsScreenModel { cfg, log: t.log, ..m })
            &&& t.log.alert matches Some((title, shown)) && shown == told
        }),
{
}

/// What went wrong is told as a failure, and all else as a success.
pub proof fn failures_are_told_as_failures(m: MsgModel)
    ensures
        m.line() matches Some((ok, line)) ==> (ok <==> !(m is TestFailed || m is FetchFailed)),
        m is TestFailed || m is FetchFailed || m is Tested || m is Fetched || m is Saved || m is Deleted ==> m.line()
            is Some,
{
}

/// The function keys open their tabs.
pub proof fn function_keys_open_their_tabs(m: LogsScreenModel, key: KeyEvent)
    requires
        m.log.alert is None,
        m.viewer_tab.browser is None,
    ensures
        key.code == KeyCode::F(1) ==> m.on_key(key) == (LogsScreenModel { tab: Tab::Connections, ..m }, false),
        key.code == KeyCode::F(2) ==> m.on_key(key) == (LogsScreenModel { tab: Tab::Viewer, ..m }, false),
{
}

} // verus!
