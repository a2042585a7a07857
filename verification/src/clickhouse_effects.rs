//! What the operations of the ClickHouse user manager are for.
use crate::clickhouse_screen;
use crate::clickhouse_screen::{
    AddField, AddUserModalModel, ClickHouseScreenModel, ConfigModel, ConnField, ConnectionInputModel, ConnectionModel,
    ConnectionWithSecretsModel, ConnectionsTabModel, EditField, EditUserModalModel, MsgModel, RequestModel, Tab,
    UserInfoModel, UserModalModel, UsersField, UsersTabModel,
};
use crate::event::{KeyCode, KeyEvent};
use crate::lists;
use crate::servers::ServerModel;
use crate::text;
use crate::widgets::InputModel;
use vstd::prelude::*;

verus! {

// ----------------------------------------------------------------- look-ups

/// A profile is found by its label.
pub proof fn profiles_are_found_by_label(s: Seq<ConnectionModel>, label: Seq<char>)
    ensures
        lists::finds(s, |c: ConnectionModel| c.label == label, clickhouse_screen::by_label(s, label)),
    decreases s.len(),
{
    if s.len() > 0 {
        profiles_are_found_by_label(s.drop_first(), label);
    }
    lists::lemma_finds(
        s,
        |c: ConnectionModel| c.label == label,
        |c: ConnectionModel| c,
        clickhouse_screen::by_label(s, label),
    );
}

/// The secrets of a profile are found by its id.
pub proof fn secrets_are_found_by_id(s: Seq<ConnectionWithSecretsModel>, id: Seq<char>)
    ensures
        lists::finds(s, |c: ConnectionWithSecretsModel| c.id == id, clickhouse_screen::by_id(s, id)),
    decreases s.len(),
{
    if s.len() > 0 {
        secrets_are_found_by_id(s.drop_first(), id);
    }
    lists::lemma_finds(
        s,
        |c: ConnectionWithSecretsModel| c.id == id,
        |c: ConnectionWithSecretsModel| c,
        clickhouse_screen::by_id(s, id),
    );
}

/// The connection that work is done over is the profile whose label was
/// typed, with the secrets of its id.
pub proof fn the_connection_is_the_one_typed(m: ClickHouseScreenModel)
    ensures
        m.typed_connection() == match clickhouse_screen::by_label(
            m.cfg.connections,
            text::trimmed(m.users_tab.connection_input.text),
        ) {
            Some(c) => clickhouse_screen::by_id(m.cfg.opened, c.id),
            None => None,
        },
{
}

// -------------------------------------------------------------------- users

/// Whether the window for a new user takes the keys.
pub open spec fn adding(m: ClickHouseScreenModel, a: AddUserModalModel) -> bool {
    &&& m.log.alert is None
    &&& m.tab == Tab::Users
    &&& m.users_tab.modal == Some(UserModalModel::Add(a))
}

/// Whether the window of a user takes the keys.
pub open spec fn editing(m: ClickHouseScreenModel, e: EditUserModalModel) -> bool {
    &&& m.log.alert is None
    &&& m.tab == Tab::Users
    &&& m.users_tab.modal == Some(UserModalModel::Edit(e))
}

/// Whether a list holds the items between the commas of a text, each without
/// white space round it and without the empty ones, in order.
pub open spec fn lists_items(items: Seq<Seq<char>>, typed: Seq<char>) -> bool {
    items == text::pieces(typed, |c: char| c == ',').filter(
        |p: Seq<char>| text::trimmed(p).len() > 0,
    ).map_values(|p: Seq<char>| text::trimmed(p))
}

/// Create asks for the user that the window describes, over the connection
/// that was typed, and closes the window. Without a name or a connection that
/// is told, and nothing is asked for.
pub proof fn creating_asks_for_the_user_described(m: ClickHouseScreenModel, a: AddUserModalModel, key: KeyEvent)
    requires
        adding(m, a),
        a.field == AddField::BtnCreate,
        key.code == KeyCode::Enter,
    ensures
        ({
            let t = m.on_key(key).0;
            let ready = text::trimmed(a.username.text).len() > 0 && m.typed_connection() is Some;
            &&& ready ==> {
                &&& t.requests.len() == m.requests.len() + 1
                &&& t == (ClickHouseScreenModel {
                    users_tab: UsersTabModel { modal: None, ..m.users_tab },
                    requests: m.requests.push(t.requests.last()),
                    ..m
                })
                &&& t.requests.last() matches RequestModel::CreateUser { conn, username, profile, ips, password }
                &&& Some(conn) == m.typed_connection()
                &&& username == text::trimmed(a.username.text)
                &&& a.profile_is_default ==> profile == "default"@
                &&& !a.profile_is_default ==> profile == "readonly"@
                &&& lists_items(ips, a.ips.text)
                &&& password == a.password.text
            }
            &&& !ready ==> {
                &&& t == (ClickHouseScreenModel { log: t.log, ..m })
                &&& t.log.alert is Some
            }
        }),
{
    reveal(ClickHouseScreenModel::on_users_key);
    reveal(ClickHouseScreenModel::on_add_key);
    crate::text_laws::comma_lists_hold_their_items(a.ips.text);
}

/// Save asks for the user of the window to be changed as it says; the name
/// stays.
pub proof fn saving_changes_the_user_as_said(m: ClickHouseScreenModel, e: EditUserModalModel, key: KeyEvent)
    requires
        editing(m, e),
        e.field == EditField::BtnSave,
        key.code == KeyCode::Enter,
    ensures
        ({
            let t = m.on_key(key).0;
            &&& m.typed_connection() is Some ==> {
                &&& t.requests.len() == m.requests.len() + 1
                &&& t == (ClickHouseScreenModel {
                    users_tab: UsersTabModel { modal: None, ..m.users_tab },
                    requests: m.requests.push(t.requests.last()),
                    ..m
                })
                &&& t.requests.last() matches RequestModel::UpdateUser { conn, username, profile, ips, password }
                &&& Some(conn) == m.typed_connection()
                &&& username == e.username
                &&& e.profile_is_default ==> profile == "default"@
                &&& !e.profile_is_default ==> profile == "readonly"@
                &&& lists_items(ips, e.ips.text)
                &&& password == e.password.text
            }
            &&& m.typed_connection() is None ==> t == (ClickHouseScreenModel { log: t.log, ..m }) && t.log.alert
                is Some
        }),
{
    reveal(ClickHouseScreenModel::on_users_key);
    reveal(ClickHouseScreenModel::on_edit_key);
    crate::text_laws::comma_lists_hold_their_items(e.ips.text);
}

/// Delete asks for the deletion of the user of the window, and of no other.
pub proof fn deleting_deletes_the_user_opened(m: ClickHouseScreenModel, e: EditUserModalModel, key: KeyEvent)
    requires
        editing(m, e),
        e.field == EditField::BtnDelete,
        key.code == KeyCode::Enter,
    ensures
        ({
            let t = m.on_key(key).0;
            &&& m.typed_connection() matches Some(conn) ==> t == (ClickHouseScreenModel {
                users_tab: UsersTabModel { modal: None, ..m.users_tab },
                requests: m.requests.push(RequestModel::DeleteUser { conn, username: e.username }),
                ..m
            })
            &&& m.typed_connection() is None ==> t == (ClickHouseScreenModel { log: t.log, ..m }) && t.log.alert
                is Some
        }),
{
    reveal(ClickHouseScreenModel::on_users_key);
    reveal(ClickHouseScreenModel::on_edit_key);
}

/// Cancel and Esc close the window and ask for nothing.
pub proof fn windows_can_be_left(m: ClickHouseScreenModel, a: AddUserModalModel, e: EditUserModalModel, key: KeyEvent)
    requires
        adding(m, a) && (key.code == KeyCode::Esc || (key.code == KeyCode::Enter && a.field == AddField::BtnCancel))
            || editing(m, e) && (key.code == KeyCode::Esc || (key.code == KeyCode::Enter && e.field
            == EditField::BtnCancel)),
    ensures
        m.on_key(key) == (ClickHouseScreenModel {
            users_tab: UsersTabModel { modal: None, ..m.users_tab },
            ..m
        }, false),
{
    reveal(ClickHouseScreenModel::on_users_key);
    reveal(ClickHouseScreenModel::on_add_key);
    reveal(ClickHouseScreenModel::on_edit_key);
}

/// The window of a user turns between the two profiles, and nothing else.
pub proof fn the_profile_turns_alone(m: ClickHouseScreenModel, a: AddUserModalModel, e: EditUserModalModel, key: KeyEvent)
    requires
        key.code == KeyCode::Enter || key.code == KeyCode::Left || key.code == KeyCode::Right,
    ensures
        adding(m, a) && a.field == AddField::Profile ==> m.on_key(key).0 == (ClickHouseScreenModel {
            users_tab: UsersTabModel {
                modal: Some(
                    UserModalModel::Add(AddUserModalModel { profile_is_default: !a.profile_is_default, ..a }),
                ),
                ..m.users_tab
            },
            ..m
        }),
        editing(m, e) && e.field == EditField::Profile ==> m.on_key(key).0 == (ClickHouseScreenModel {
            users_tab: UsersTabModel {
                modal: Some(
                    UserModalModel::Edit(EditUserModalModel { profile_is_default: !e.profile_is_default, ..e }),
                ),
                ..m.users_tab
            },
            ..m
        }),
{
    reveal(ClickHouseScreenModel::on_users_key);
    reveal(ClickHouseScreenModel::on_add_key);
    reveal(ClickHouseScreenModel::on_edit_key);
}

/// An input with a character put in at its cursor.
pub open spec fn inserted(i: InputModel, c: char) -> InputModel {
    InputModel { text: i.text.insert(i.cursor, c), cursor: i.cursor + 1 }
}

/// What is typed in a window goes into the field with the focus.
pub proof fn typing_fills_the_windows(m: ClickHouseScreenModel, a: AddUserModalModel, e: EditUserModalModel, c: char)
    ensures
        ({
            let t = m.on_key(KeyEvent { code: KeyCode::Char(c), control: false }).0;
            &&& adding(m, a) ==> {
                &&& t.users_tab.modal matches Some(UserModalModel::Add(b))
                &&& b.username == if a.field == AddField::Username {
                    inserted(a.username, c)
                } else {
                    a.username
                }
                &&& b.password == if a.field == AddField::Password {
                    inserted(a.password, c)
                } else {
                    a.password
                }
                &&& b.ips == if a.field == AddField::Ips {
                    inserted(a.ips, c)
                } else {
                    a.ips
                }
                &&& b.profile_is_default == a.profile_is_default
                &&& t.requests == m.requests
            }
            &&& editing(m, e) ==> {
                &&& t.users_tab.modal matches Some(UserModalModel::Edit(b))
                &&& b.username == e.username
                &&& b.password == if e.field == EditField::Password {
                    inserted(e.password, c)
                } else {
                    e.password
                }
                &&& b.ips == if e.field == EditField::Ips {
                    inserted(e.ips, c)
                } else {
                    e.ips
                }
                &&& b.profile_is_default == e.profile_is_default
                &&& t.requests == m.requests
            }
        }),
{
    reveal(ClickHouseScreenModel::on_users_key);
    reveal(ClickHouseScreenModel::on_add_key);
    reveal(ClickHouseScreenModel::on_edit_key);
}

/// Generate asks for a password, and the one that comes is put in.
pub proof fn a_generated_password_is_put_in(
    m: ClickHouseScreenModel,
    a: AddUserModalModel,
    key: KeyEvent,
    password: Seq<char>,
    copied: bool,
)
    requires
        adding(m, a),
    ensures
        key.code == KeyCode::Enter && a.field == AddField::BtnGenerate ==> m.on_key(key).0 == (ClickHouseScreenModel {
            requests: m.requests.push(RequestModel::GeneratePassword),
            ..m
        }),
        ({
            let t = m.on_msg(MsgModel::Password { password, copied });
            &&& t.users_tab.modal matches Some(UserModalModel::Add(b))
            &&& b.password.text == password
            &&& b == (AddUserModalModel { password: b.password, ..a })
        }),
{
    reveal(ClickHouseScreenModel::on_users_key);
    reveal(ClickHouseScreenModel::on_add_key);
}

/// Whether the Users tab takes the keys.
pub open spec fn on_users(m: ClickHouseScreenModel, field: UsersField) -> bool {
    &&& m.log.alert is None
    &&& m.tab == Tab::Users
    &&& m.users_tab.modal is None
    &&& !m.users_tab.connection_dropdown_open
    &&& m.users_tab.field == field
}

/// Connect lists the users of the connection that was typed.
pub proof fn connecting_lists_the_users(m: ClickHouseScreenModel, key: KeyEvent)
    requires
        on_users(m, UsersField::BtnConnect),
        key.code == KeyCode::Enter,
    ensures
        ({
            let t = m.on_key(key).0;
            &&& m.typed_connection() matches Some(conn) ==> t == (ClickHouseScreenModel {
                requests: m.requests.push(RequestModel::ListUsers(conn)),
                ..m
            })
            &&& m.typed_connection() is None ==> t == (ClickHouseScreenModel { log: t.log, ..m }) && t.log.alert
                is Some
        }),
{
    reveal(ClickHouseScreenModel::on_users_key);
}

/// Enter on a user opens the window of that user; Add User opens an empty
/// one, with the default profile.
pub proof fn rows_open_their_user(m: ClickHouseScreenModel, key: KeyEvent)
    requires
        key.code == KeyCode::Enter,
    ensures
        on_users(m, UsersField::Table) && 0 <= m.users_tab.selected_row < m.users_tab.rows.len() ==> {
            let t = m.on_key(key).0;
            let u = m.users_tab.rows[m.users_tab.selected_row];
            &&& t.users_tab.modal matches Some(UserModalModel::Edit(e))
            &&& e.username == u.name
            &&& e.password.text.len() == 0
            &&& u.profile == "readonly"@ <==> !e.profile_is_default
            &&& t == (ClickHouseScreenModel { users_tab: t.users_tab, ..m })
        },
        on_users(m, UsersField::BtnAddUser) && m.typed_connection() is Some ==> {
            let t = m.on_key(key).0;
            &&& t.users_tab.modal matches Some(UserModalModel::Add(a))
            &&& a.username.text.len() == 0 && a.password.text.len() == 0 && a.ips.text.len() == 0
            &&& a.profile_is_default
            &&& t == (ClickHouseScreenModel { users_tab: t.users_tab, ..m })
        },
        on_users(m, UsersField::BtnAddUser) && m.typed_connection() is None ==> {
            let t = m.on_key(key).0;
            t == (ClickHouseScreenModel { log: t.log, ..m }) && t.log.alert is Some
        },
{
    reveal(ClickHouseScreenModel::on_users_key);
}

/// Users that were listed replace those that were shown; a failure is told
/// and keeps them.
pub proof fn listed_users_are_shown(m: ClickHouseScreenModel, rows: Seq<UserInfoModel>, error: Seq<char>)
    ensures
        ({
            let t = m.on_msg(MsgModel::Users(rows));
            t == (ClickHouseScreenModel {
                users_tab: UsersTabModel { rows, selected_row: 0, ..m.users_tab },
                log: t.log,
                ..m
            })
        }),
        ({
            let t = m.on_msg(MsgModel::UsersFailed(error));
            &&& t == (ClickHouseScreenModel { log: t.log, ..m })
            &&& t.log.history.len() == m.log.history.len() + 1 && !t.log.history.last().0
        }),
{
}

// -------------------------------------------------------------- connections

/// Whether the form of the connections takes the keys.
pub open spec fn on_connections(m: ClickHouseScreenModel, field: ConnField) -> bool {
    &&& m.log.alert is None
    &&& m.tab == Tab::Connections
    &&& m.users_tab.modal is None
    &&& m.connections_tab.key_picker is None
    &&& m.connections_tab.host_picker is None
    &&& m.connections_tab.field == field
}

/// The profile that was loaded into the form.
pub open spec fn loaded_profile(m: ClickHouseScreenModel) -> Option<ConnectionModel> {
    match m.connections_tab.selected {
        Some(i) => if i < m.cfg.connections.len() {
            Some(m.cfg.connections[i as int])
        } else {
            None
        },
        None => None,
    }
}

/// Whether an input is what the form says, each part from its own field.
pub open spec fn is_form(i: ConnectionInputModel, f: ConnectionsTabModel, tags: Seq<Seq<char>>) -> bool {
    &&& i.label == text::trimmed(f.label.text)
    &&& i.is_sql == f.mode_is_sql
    &&& i.host == text::trimmed(f.host.text)
    &&& i.port == text::trimmed(f.port.text)
    &&& i.db_user == text::trimmed(f.db_user.text)
    &&& i.db_password == f.db_password.text
    &&& i.use_tunnel == f.use_tunnel
    &&& i.ssh_host == text::trimmed(f.ssh_host.text)
    &&& i.ssh_port == text::trimmed(f.ssh_port.text)
    &&& i.ssh_user == text::trimmed(f.ssh_user.text)
    &&& i.ssh_key_path == text::trimmed(f.ssh_key_path.text)
    &&& i.ssh_password == f.ssh_password.text
    &&& i.tag_mode == tags[f.tag_mode_idx]
}

/// Whether the form names what its mode needs: host and user of the database
/// in SQL mode, and the SSH host where SSH is used.
pub open spec fn names_what_it_needs(f: ConnectionsTabModel) -> bool {
    &&& f.mode_is_sql ==> text::trimmed(f.host.text).len() > 0 && text::trimmed(f.db_user.text).len() > 0
    &&& !f.mode_is_sql || f.use_tunnel ==> text::trimmed(f.ssh_host.text).len() > 0
}

/// Save stores what the form says, over the profile that was loaded or as a
/// new one, where it has a label and what its mode needs.
pub proof fn saving_stores_the_form(m: ClickHouseScreenModel, key: KeyEvent)
    requires
        on_connections(m, ConnField::BtnSave),
        key.code == KeyCode::Enter,
    ensures
        ({
            let t = m.on_key(key).0;
            let f = m.connections_tab;
            let ready = text::trimmed(f.label.text).len() > 0 && names_what_it_needs(f);
            &&& ready ==> {
                &&& t.requests.len() == m.requests.len() + 1
                &&& t == (ClickHouseScreenModel { requests: m.requests.push(t.requests.last()), ..m })
                &&& t.requests.last() matches RequestModel::SaveConnection { existing, input }
                &&& is_form(input, f, m.tag_modes)
                &&& existing == match loaded_profile(m) {
                    Some(c) => Some(c.id),
                    None => None,
                }
            }
            &&& !ready ==> t == (ClickHouseScreenModel { log: t.log, ..m }) && t.log.alert is Some
        }),
{
    reveal(ClickHouseScreenModel::on_connections_key);
}

/// Test lists the users over the form as it stands, with the stored passwords
/// where none were typed.
pub proof fn testing_tries_the_form(m: ClickHouseScreenModel, key: KeyEvent)
    requires
        on_connections(m, ConnField::BtnTest),
        key.code == KeyCode::Enter,
    ensures
        ({
            let t = m.on_key(key).0;
            let f = m.connections_tab;
            let stored = match loaded_profile(m) {
                Some(p) => clickhouse_screen::by_id(m.cfg.opened, p.id),
                None => None,
            };
            &&& names_what_it_needs(f) ==> {
                &&& t.requests.len() == m.requests.len() + 1
                &&& t == (ClickHouseScreenModel { requests: m.requests.push(t.requests.last()), ..m })
                &&& t.requests.last() matches RequestModel::ListUsers(c)
                &&& c.is_sql == f.mode_is_sql && c.use_tunnel == f.use_tunnel
                &&& c.label == text::trimmed(f.label.text)
                &&& c.host == text::trimmed(f.host.text)
                &&& c.port == text::trimmed(f.port.text)
                &&& c.db_user == text::trimmed(f.db_user.text)
                &&& c.ssh_host == text::trimmed(f.ssh_host.text)
                &&& c.ssh_port == text::trimmed(f.ssh_port.text)
                &&& c.ssh_user == text::trimmed(f.ssh_user.text)
                &&& c.ssh_key_path == text::trimmed(f.ssh_key_path.text)
                &&& c.tag_mode == m.tag_modes[f.tag_mode_idx]
                &&& f.db_password.text.len() > 0 ==> c.db_password == f.db_password.text
                &&& f.ssh_password.text.len() > 0 ==> c.ssh_password == f.ssh_password.text
                &&& f.db_password.text.len() == 0 ==> c.db_password == match stored {
                    Some(o) => o.db_password,
                    None => Seq::empty(),
                }
                &&& f.ssh_password.text.len() == 0 ==> c.ssh_password == match stored {
                    Some(o) => o.ssh_password,
                    None => Seq::empty(),
                }
            }
            &&& !names_what_it_needs(f) ==> t == (ClickHouseScreenModel { log: t.log, ..m }) && t.log.alert is Some
        }),
{
    reveal(ClickHouseScreenModel::on_connections_key);
}

/// Delete deletes the profile that was loaded, else the one in the selected
/// row.
pub proof fn deleting_deletes_the_profile_chosen(m: ClickHouseScreenModel, key: KeyEvent)
    requires
        on_connections(m, ConnField::BtnDelete),
        key.code == KeyCode::Enter,
    ensures
        ({
            let t = m.on_key(key).0;
            let i = match m.connections_tab.selected {
                Some(i) => i as int,
                None => m.connections_tab.table_idx,
            };
            &&& 0 <= i < m.cfg.connections.len() ==> t == (ClickHouseScreenModel {
                requests: m.requests.push(
                    RequestModel::DeleteConnection { id: m.cfg.connections[i].id, label: m.cfg.connections[i].label },
                ),
                ..m
            })
            &&& !(0 <= i < m.cfg.connections.len()) ==> t == (ClickHouseScreenModel { log: t.log, ..m })
        }),
{
    reveal(ClickHouseScreenModel::on_connections_key);
}

/// Enter on a row loads that profile, each part into its own field and without
/// its passwords.
pub proof fn rows_are_loaded_without_their_passwords(m: ClickHouseScreenModel, key: KeyEvent)
    requires
        on_connections(m, ConnField::Table),
        0 <= m.connections_tab.table_idx < m.cfg.connections.len(),
        m.cfg.connections.len() <= usize::MAX,
        key.code == KeyCode::Enter,
    ensures
        ({
            let t = m.on_key(key).0.connections_tab;
            let i = m.connections_tab.table_idx;
            let c = m.cfg.connections[i];
            &&& t.selected == Some(i as usize)
            &&& t.label.text == c.label
            &&& t.mode_is_sql == c.is_sql && t.use_tunnel == c.use_tunnel
            &&& t.host.text == c.host && t.port.text == c.port && t.db_user.text == c.db_user
            &&& t.ssh_host.text == c.ssh_host && t.ssh_port.text == c.ssh_port && t.ssh_user.text == c.ssh_user
            &&& t.ssh_key_path.text == c.ssh_key_path
            &&& t.db_password.text.len() == 0 && t.ssh_password.text.len() == 0
            &&& m.tag_modes.contains(c.tag_mode) ==> m.tag_modes[t.tag_mode_idx] == c.tag_mode
            &&& m.on_key(key).0 == (ClickHouseScreenModel { connections_tab: t, ..m })
        }),
{
    reveal(ClickHouseScreenModel::on_connections_key);
    let c = m.cfg.connections[m.connections_tab.table_idx];
    if m.tag_modes.contains(c.tag_mode) {
        crate::cycle::lemma_place(m.tag_modes, c.tag_mode);
    }
}

/// New empties the form and sets the usual ports.
pub proof fn a_new_profile_is_empty(m: ClickHouseScreenModel, key: KeyEvent)
    requires
        on_connections(m, ConnField::BtnNew),
        key.code == KeyCode::Enter,
    ensures
        ({
            let t = m.on_key(key).0.connections_tab;
            &&& t.selected is None
            &&& t.label.text.len() == 0 && t.host.text.len() == 0 && t.db_user.text.len() == 0
            &&& t.db_password.text.len() == 0 && t.ssh_host.text.len() == 0 && t.ssh_user.text.len() == 0
            &&& t.ssh_key_path.text.len() == 0 && t.ssh_password.text.len() == 0
            &&& t.port.text == "8123"@ && t.ssh_port.text == "22"@
            &&& t.mode_is_sql && !t.use_tunnel
            &&& m.on_key(key).0 == (ClickHouseScreenModel { connections_tab: t, ..m })
        }),
{
    reveal(ClickHouseScreenModel::on_connections_key);
}

/// A host fills in all that it knows, each into its own field.
pub proof fn a_host_fills_in_what_it_knows(t: ConnectionsTabModel, s: ServerModel)
    ensures
        ({
            let f = t.filled_from(s);
            &&& f.ssh_host.text == if s.host.len() > 0 {
                s.host
            } else {
                s.alias
            }
            &&& s.port != 0 ==> f.ssh_port.text == text::decimal(s.port as nat)
            &&& s.user.len() > 0 ==> f.ssh_user.text == s.user
            &&& s.identity_files.len() > 0 ==> f.ssh_key_path.text == s.identity_files[0]
            &&& s.ssh_password.len() > 0 ==> f.ssh_password.text == s.ssh_password
        }),
{
}

/// The text of an input of the form.
pub open spec fn conn_input(t: ConnectionsTabModel, f: ConnField) -> Option<InputModel> {
    match f {
        ConnField::Label => Some(t.label),
        ConnField::Host => Some(t.host),
        ConnField::Port => Some(t.port),
        ConnField::DbUser => Some(t.db_user),
        ConnField::DbPassword => Some(t.db_password),
        ConnField::SshHost => Some(t.ssh_host),
        ConnField::SshPort => Some(t.ssh_port),
        ConnField::SshUser => Some(t.ssh_user),
        ConnField::SshKeyPath => Some(t.ssh_key_path),
        ConnField::SshPassword => Some(t.ssh_password),
        _ => None,
    }
}

/// What is typed in the form goes into the field with the focus, and into no
/// other.
pub proof fn typing_goes_to_the_field_with_the_focus(m: ClickHouseScreenModel, f: ConnField, other: ConnField, c: char)
    requires
        on_connections(m, f),
    ensures
        ({
            let t = m.on_key(KeyEvent { code: KeyCode::Char(c), control: false }).0.connections_tab;
            let old = m.connections_tab;
            &&& conn_input(old, f) matches Some(i) ==> conn_input(t, f) == Some(inserted(i, c))
            &&& other != f ==> conn_input(t, other) == conn_input(old, other)
            &&& t.mode_is_sql == old.mode_is_sql && t.use_tunnel == old.use_tunnel
            &&& t.tag_mode_idx == old.tag_mode_idx && t.selected == old.selected && t.field == old.field
        }),
{
    reveal(ClickHouseScreenModel::on_connections_key);
}

/// The switches of the form turn what they name, and nothing else.
pub proof fn switches_turn_what_they_name(m: ClickHouseScreenModel, key: KeyEvent)
    requires
        m.wf(),
        key.code == KeyCode::Enter || key.code == KeyCode::Right,
    ensures
        ({
            let t = m.on_key(key).0;
            let old = m.connections_tab;
            &&& on_connections(m, ConnField::Mode) ==> t == (ClickHouseScreenModel {
                connections_tab: ConnectionsTabModel { mode_is_sql: !old.mode_is_sql, ..old },
                ..m
            })
            &&& on_connections(m, ConnField::UseTunnel) ==> t == (ClickHouseScreenModel {
                connections_tab: ConnectionsTabModel { use_tunnel: !old.use_tunnel, ..old },
                ..m
            })
            &&& on_connections(m, ConnField::TagMode) ==> t == (ClickHouseScreenModel {
                connections_tab: ConnectionsTabModel {
                    tag_mode_idx: if old.tag_mode_idx + 1 < m.tag_modes.len() {
                        old.tag_mode_idx + 1
                    } else {
                        0
                    },
                    ..old
                },
                ..m
            })
        }),
{
    reveal(ClickHouseScreenModel::on_connections_key);
    crate::cycle::lemma_wrap(m.connections_tab.tag_mode_idx, m.tag_modes.len() as int);
}

/// Enter on the SSH host and on the key path asks for the hosts and for the
/// directory of the key.
pub proof fn the_form_asks_for_lists(m: ClickHouseScreenModel, key: KeyEvent)
    requires
        key.code == KeyCode::Enter,
    ensures
        on_connections(m, ConnField::SshHost) ==> m.on_key(key).0 == (ClickHouseScreenModel {
            requests: m.requests.push(RequestModel::ListHosts),
            ..m
        }),
        on_connections(m, ConnField::SshKeyPath) ==> m.on_key(key).0 == (ClickHouseScreenModel {
            requests: m.requests.push(RequestModel::BrowseKey(m.connections_tab.ssh_key_path.text)),
            ..m
        }),
{
    reveal(ClickHouseScreenModel::on_connections_key);
}

/// What was saved or deleted brings the settings as they are now and empties
/// the form; a failure is told and keeps the form.
pub proof fn saved_profiles_are_taken_over(m: ClickHouseScreenModel, cfg: ConfigModel, told: Seq<char>)
    ensures
        ({
            let t = m.on_msg(MsgModel::Saved(cfg));
            &&& t == (ClickHouseScreenModel { cfg, connections_tab: t.connections_tab, log: t.log, ..m })
            &&& t.connections_tab.selected is None && t.connections_tab.label.text.len() == 0
        }),
        ({
            let t = m.on_msg(MsgModel::Deleted { cfg, label: told });
            &&& t == (ClickHouseScreenModel { cfg, connections_tab: t.connections_tab, log: t.log, ..m })
            &&& t.connections_tab.selected is None && t.connections_tab.table_idx == 0
        }),
        ({
            let t = m.on_msg(MsgModel::SaveFailed { cfg, error: told });
            &&& t == (ClickHouseScreenModel { cfg, log: t.log, ..m })
            &&& t.log.alert matches Some((title, shown)) && shown == told
        }),
{
}

/// What went wrong is told as a failure, and all else as a success.
pub proof fn failures_are_told_as_failures(m: MsgModel)
    ensures
        m.line() matches Some((ok, line)) ==> (ok <==> !(m is UsersFailed || m is CreateFailed || m is UpdateFailed || m
            is UserDeleteFailed)),
        m is UsersFailed || m is CreateFailed || m is UpdateFailed || m is UserDeleteFailed || m is Created || m
            is Updated || m is UserDeleted || m is Users || m is Password ==> m.line() is Some,
{
}

/// The password of a new user is told once, with the name.
pub proof fn a_new_password_is_told(username: Seq<char>, password: Seq<char>, copied: bool)
    ensures
        ({
            let (ok, line) = MsgModel::Created { username, password, copied }.line()->0;
            &&& text::occurs(line, username)
            &&& text::occurs(line, password)
        }),
{
    let (ok, line) = MsgModel::Created { username, password, copied }.line()->0;
    let a = "User "@;
    let b = " created, password: "@;
    let n = a.len() as int;
    let k = (a + username + b).len() as int;
    assert(line.subrange(n, n + username.len()) =~= username);
    assert(text::occurs_at(line, username, n));
    assert(line.subrange(k, k + password.len()) =~= password);
    assert(text::occurs_at(line, password, k));
}

/// The function keys open their tabs.
pub proof fn function_keys_open_their_tabs(m: ClickHouseScreenModel, key: KeyEvent)
    requires
        m.log.alert is None,
        m.users_tab.modal is None,
        m.connections_tab.key_picker is None,
        m.connections_tab.host_picker is None,
    ensures
        key.code == KeyCode::F(1) ==> m.on_key(key) == (ClickHouseScreenModel { tab: Tab::Connections, ..m }, false),
        key.code == KeyCode::F(2) ==> m.on_key(key) == (ClickHouseScreenModel { tab: Tab::Users, ..m }, false),
{
}

} // verus!
