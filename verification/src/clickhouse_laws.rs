//! What holds of the ClickHouse User Manager as a whole.
use crate::clickhouse_screen;
use crate::clickhouse_screen::{
    ClickHouseLayoutModel, ClickHouseScreenModel, ConnField, ConnectionModel, ConnectionsTabModel, EditUserModalModel,
    RequestModel, UserInfoModel,
};
use crate::cycle;
use crate::event::{KeyCode, KeyEvent, MouseEvent};
use crate::log;
use crate::mouse;
use crate::server_list;
use crate::servers::ServerModel;
use crate::text;
use crate::widgets::InputModel;
use vstd::prelude::*;

verus! {

/// Going to the next field of the form and back ends where it started,
/// whatever fields the mode shows.
pub proof fn form_fields_cycle(mode_is_sql: bool, use_tunnel: bool, f: ConnField)
    requires
        clickhouse_screen::active_fields(mode_is_sql, use_tunnel).contains(f),
    ensures
        ({
            let fields = clickhouse_screen::active_fields(mode_is_sql, use_tunnel);
            &&& cycle::before(fields, cycle::after(fields, f)) == f
            &&& cycle::after(fields, cycle::before(fields, f)) == f
        }),
{
    let fields = clickhouse_screen::active_fields(mode_is_sql, use_tunnel);
    assert(fields.no_duplicates());
    cycle::before_undoes_after(fields, f);
}

/// A known host fills the SSH side of the form alone: what belongs to the
/// database is left to the user, and so is what the host does not say.
pub proof fn hosts_fill_the_ssh_side_alone(t: ConnectionsTabModel, s: ServerModel)
    ensures
        ({
            let f = t.filled_from(s);
            &&& f == (ConnectionsTabModel {
                ssh_host: f.ssh_host,
                ssh_port: f.ssh_port,
                ssh_user: f.ssh_user,
                ssh_key_path: f.ssh_key_path,
                ssh_password: f.ssh_password,
                ..t
            })
            &&& f.ssh_host.text == s.effective_host()
            &&& s.port == 0 ==> f.ssh_port == t.ssh_port
            &&& s.user.len() == 0 ==> f.ssh_user == t.ssh_user
            &&& s.identity_files.len() == 0 ==> f.ssh_key_path == t.ssh_key_path
            &&& s.ssh_password.len() == 0 ==> f.ssh_password == t.ssh_password
        }),
{
}

/// Whether the texts of a profile have no white space at their ends.
pub open spec fn tidy(c: ConnectionModel) -> bool {
    &&& text::trimmed(c.label) == c.label
    &&& text::trimmed(c.host) == c.host
    &&& text::trimmed(c.port) == c.port
    &&& text::trimmed(c.db_user) == c.db_user
    &&& text::trimmed(c.ssh_host) == c.ssh_host
    &&& text::trimmed(c.ssh_port) == c.ssh_port
    &&& text::trimmed(c.ssh_user) == c.ssh_user
    &&& text::trimmed(c.ssh_key_path) == c.ssh_key_path
}

/// Loading a profile into the form and saving it unchanged asks to save what
/// was there, under the same id and without new passwords.
pub proof fn saving_a_loaded_profile_changes_nothing(m: ClickHouseScreenModel, i: int)
    requires
        m.cfg.connections.len() <= usize::MAX,
        0 <= i < m.cfg.connections.len(),
        tidy(m.cfg.connections[i]),
        m.tag_modes.contains(m.cfg.connections[i].tag_mode),
    ensures
        ({
            let c = m.cfg.connections[i];
            let loaded = m.load(i);
            let input = loaded.connections_tab.as_input(m.tag_modes);
            &&& loaded.edited() == Some(c)
            &&& input.label == c.label
            &&& input.is_sql == c.is_sql
            &&& input.host == c.host
            &&& input.port == c.port
            &&& input.db_user == c.db_user
            &&& input.use_tunnel == c.use_tunnel
            &&& input.ssh_host == c.ssh_host
            &&& input.ssh_port == c.ssh_port
            &&& input.ssh_user == c.ssh_user
            &&& input.ssh_key_path == c.ssh_key_path
            &&& input.tag_mode == c.tag_mode
            &&& input.db_password.len() == 0
            &&& input.ssh_password.len() == 0
            &&& c.label.len() > 0 && (c.is_sql ==> c.host.len() > 0 && c.db_user.len() > 0) && (!c.is_sql
                || c.use_tunnel ==> c.ssh_host.len() > 0) ==> loaded.save_connection() == loaded.ask(
                RequestModel::SaveConnection { existing: Some(c.id), input },
            )
        }),
{
    cycle::lemma_place(m.tag_modes, m.cfg.connections[i].tag_mode);
}

/// A test of the profile in the form uses the saved passwords where none are typed.
pub proof fn tests_fall_back_on_saved_passwords(m: ClickHouseScreenModel)
    ensures
        m.test_connection().requests != m.requests ==> {
            &&& m.test_connection().requests.len() == m.requests.len() + 1
            &&& m.test_connection().requests.last() matches RequestModel::ListUsers(c) && {
                &&& c.db_password == if m.connections_tab.db_password.text.len() > 0 {
                    m.connections_tab.db_password.text
                } else {
                    m.saved_passwords().0
                }
                &&& c.ssh_password == if m.connections_tab.ssh_password.text.len() > 0 {
                    m.connections_tab.ssh_password.text
                } else {
                    m.saved_passwords().1
                }
            }
        },
{
}

/// A profile is only ever saved with a label and with the hosts its mode needs.
pub proof fn incomplete_profiles_are_not_saved(m: ClickHouseScreenModel)
    ensures
        m.save_connection().requests != m.requests ==> {
            let input = m.connections_tab.as_input(m.tag_modes);
            &&& input.label.len() > 0
            &&& input.is_sql ==> input.host.len() > 0 && input.db_user.len() > 0
            &&& !input.is_sql || input.use_tunnel ==> input.ssh_host.len() > 0
        },
        m.save_connection().requests == m.requests ==> m.save_connection().log.alert is Some,
{
    if m.save_connection().requests == m.requests {
        let r = RequestModel::SaveConnection {
            existing: match m.edited() {
                Some(c) => Some(c.id),
                None => None,
            },
            input: m.connections_tab.as_input(m.tag_modes),
        };
        assert(m.requests.push(r).len() != m.requests.len());
    }
}

/// A message box keeps every key and every click to itself: it is dismissed
/// or stays, and nothing else changes.
pub proof fn messages_take_all_input(
    m: ClickHouseScreenModel,
    key: KeyEvent,
    me: MouseEvent,
    l: ClickHouseLayoutModel,
)
    requires
        m.log.alert is Some,
    ensures
        !m.on_key(key).1,
        m.on_key(key).0 == m || m.on_key(key).0 == m.with_log(m.log.dismissed()),
        log::closes_alert(key.code) ==> m.on_key(key).0 == m.with_log(m.log.dismissed()),
        mouse::clicked(me) is Some ==> m.on_mouse(me, l) == m.with_log(m.log.dismissed()),
        mouse::clicked(me) is None ==> m.on_mouse(me, l) == m,
{
}

/// The screen is left by Ctrl+C, or by Esc when nothing is open that Esc
/// would close first; leaving changes nothing.
pub proof fn leaving_changes_nothing(m: ClickHouseScreenModel, key: KeyEvent)
    ensures
        m.on_key(key).1 <==> m.log.alert is None && (key.chord('c') || (key.code == KeyCode::Esc
            && m.esc_leaves() && !log::scrolls_history(key))),
        m.on_key(key).1 ==> m.on_key(key).0 == m,
{
}

/// Esc closes an open picker, dropdown or modal, and stays on the screen.
pub proof fn esc_closes_what_is_open(m: ClickHouseScreenModel)
    requires
        m.log.alert is None,
        m.tab == clickhouse_screen::Tab::Users,
        m.users_tab.modal is Some || m.users_tab.connection_dropdown_open,
    ensures
        ({
            let after = m.on_key(KeyEvent { code: KeyCode::Esc, control: false });
            &&& !after.1
            &&& m.users_tab.modal is Some ==> after.0 == m.modal_closed()
            &&& m.users_tab.modal is None ==> after.0 == m.with_users(m.users_tab.dropdown(false))
        }),
{
    reveal(ClickHouseScreenModel::on_users_key);
    reveal(ClickHouseScreenModel::on_add_key);
    reveal(ClickHouseScreenModel::on_edit_key);
    reveal(ClickHouseScreenModel::on_dropdown_key);
}

/// Turning a switch forward and back again leaves it where it was.
pub proof fn switching_back_undoes_switching(t: ConnectionsTabModel, n: int)
    requires
        0 <= t.tag_mode_idx < n,
    ensures
        t.switched(false, n).switched(true, n) == t,
        t.switched(true, n).switched(false, n) == t,
        0 <= t.switched(false, n).tag_mode_idx < n,
{
    let i = t.tag_mode_idx;
    cycle::lemma_wrap(i, n);
    cycle::lemma_wrap((i + 1) % n, n);
    cycle::lemma_wrap((i + n - 1) % n, n);
}

/// Picking a profile from the dropdown fetches its users at once.
pub proof fn picking_a_profile_fetches_its_users(m: ClickHouseScreenModel)
    requires
        m.users_tab.modal is None,
        m.users_tab.connection_dropdown_open,
        0 <= m.users_tab.connection_idx < m.cfg.filtered(m.users_tab.connection_input.text).len(),
    ensures
        ({
            let label = m.cfg.filtered(m.users_tab.connection_input.text)[m.users_tab.connection_idx];
            let after = m.on_users_key(KeyCode::Enter);
            &&& after.users_tab.connection_input == InputModel::of(label)
            &&& !after.users_tab.connection_dropdown_open
            &&& m.connection_by_label(text::trimmed(label)) matches Some(c) ==> after.requests == m.requests.push(
                RequestModel::ListUsers(c),
            )
        }),
{
    reveal(ClickHouseScreenModel::on_users_key);
    reveal(ClickHouseScreenModel::on_dropdown_key);
}

/// The choices are the labels of the profiles that match what was typed, by
/// label or by the host that is the target of the profile.
pub proof fn choices_match_label_or_host(s: Seq<ConnectionModel>, q: Seq<char>, label: Seq<char>)
    ensures
        clickhouse_screen::labels_matching(s, q).contains(label) <==> exists|i: int|
            0 <= i < s.len() && #[trigger] s[i].label == label && s[i].matches(q),
    decreases s.len(),
{
    let all = clickhouse_screen::labels_matching(s, q);
    if s.len() > 0 {
        let front = s.drop_last();
        let part = clickhouse_screen::labels_matching(front, q);
        choices_match_label_or_host(front, q, label);
        if all.contains(label) {
            let k = choose|k: int| 0 <= k < all.len() && all[k] == label;
            if k < part.len() {
                assert(part[k] == label);
                let i = choose|i: int| 0 <= i < front.len() && #[trigger] front[i].label == label && front[i].matches(q);
                assert(s[i].label == label && s[i].matches(q));
            } else {
                assert(s[s.len() - 1].label == label && s[s.len() - 1].matches(q));
            }
        }
        if exists|i: int| 0 <= i < s.len() && #[trigger] s[i].label == label && s[i].matches(q) {
            let i = choose|i: int| 0 <= i < s.len() && #[trigger] s[i].label == label && s[i].matches(q);
            if i < s.len() - 1 {
                assert(front[i].label == label && front[i].matches(q));
                let k = choose|k: int| 0 <= k < part.len() && part[k] == label;
                assert(all[k] == label);
            } else {
                assert(all[all.len() - 1] == label);
            }
        }
    }
}

/// An open user modal takes no mouse.
pub proof fn user_modals_take_no_mouse(m: ClickHouseScreenModel, me: MouseEvent, l: ClickHouseLayoutModel)
    requires
        m.log.alert is None,
        m.users_tab.modal is Some,
    ensures
        m.on_mouse(me, l) == m,
{
}

/// A click on a button of the form does what Enter on it does.
pub proof fn clicking_a_button_is_pressing_it(m: ClickHouseScreenModel, i: usize)
    requires
        i < 4,
    ensures
        ({
            let button = seq![ConnField::BtnSave, ConnField::BtnNew, ConnField::BtnDelete, ConnField::BtnTest][i as int];
            let clicked = m.click_conn_button(i);
            m.with_conn(m.connections_tab.focus(button)).on_conn_enter() == clicked.with_conn(
                clicked.connections_tab.focus(button),
            )
        }),
{
}

/// Editing a user shows what the user has, and saving without a change keeps it.
pub proof fn saving_an_unchanged_user_keeps_it(m: ClickHouseScreenModel, u: UserInfoModel)
    requires
        u.profile == "default"@ || u.profile == "readonly"@,
        forall|i: int| 0 <= i < u.ips.len() ==> server_list::is_item(#[trigger] u.ips[i]),
        m.typed_connection() is Some,
    ensures
        m.update_user(EditUserModalModel::of(u)) == m.modal_closed().ask(
            RequestModel::UpdateUser {
                conn: m.typed_connection()->0,
                username: u.name,
                profile: u.profile,
                ips: u.ips,
                password: Seq::empty(),
            },
        ),
{
    server_list::csv_reads_what_was_written(u.ips);
    reveal_strlit("default");
    reveal_strlit("readonly");
    assert("default"@.len() == 7 && "readonly"@.len() == 8);
}

} // verus!
