use atk_tui::clickhouse_screen::{
    conn_active_fields, filtered_connections, parse_ips, profile_str, AddField, ClickHouseScreen, Config, ConnField,
    Connection, ConnectionWithSecrets, ConnectionsTab, Msg, Request, Route, Tab, UserInfo, UserModal,
    UsersField,
};
use atk_tui::event::{KeyCode, KeyEvent, MouseEvent, MouseKind};
use atk_tui::geometry::Rect;
use atk_tui::servers::Server;
use atk_tui::widgets::Input;

fn key(code: KeyCode) -> KeyEvent {
    KeyEvent::plain(code)
}

fn connection(id: &str, label: &str) -> Connection {
    Connection {
        id: id.to_string(),
        label: label.to_string(),
        is_sql: true,
        host: "ch.internal".to_string(),
        port: "9000".to_string(),
        db_user: "admin".to_string(),
        use_tunnel: false,
        ssh_host: "".to_string(),
        ssh_port: "22".to_string(),
        ssh_user: "".to_string(),
        ssh_key_path: "".to_string(),
        tag_mode: "yandex".to_string(),
    }
}

fn opened(id: &str, label: &str) -> ConnectionWithSecrets {
    let c = connection(id, label);
    ConnectionWithSecrets {
        id: c.id,
        label: c.label,
        is_sql: c.is_sql,
        host: c.host,
        port: c.port,
        db_user: c.db_user,
        db_password: "s3cret".to_string(),
        use_tunnel: c.use_tunnel,
        ssh_host: c.ssh_host,
        ssh_port: c.ssh_port,
        ssh_user: c.ssh_user,
        ssh_key_path: c.ssh_key_path,
        ssh_password: "tunnel".to_string(),
        tag_mode: c.tag_mode,
    }
}

fn config() -> Config {
    Config {
        connections: vec![connection("1", "Main"), connection("2", "Other")],
        opened: vec![opened("1", "Main"), opened("2", "Other")],
    }
}

fn screen() -> ClickHouseScreen {
    ClickHouseScreen::new(config(), vec!["clickhouse".to_string(), "yandex".to_string()])
}

#[test]
fn profiles_and_lists_are_read() {
    assert_eq!(profile_str(true), "default");
    assert_eq!(profile_str(false), "readonly");
    assert_eq!(parse_ips("10.0.0.1, ::1 ,"), vec!["10.0.0.1".to_string(), "::1".to_string()]);
    assert!(matches!(opened("1", "a").route(), Route::Sql));
    let mut xml = opened("1", "a");
    xml.is_sql = false;
    assert!(matches!(xml.route(), Route::SshXml));
}

#[test]
fn the_form_shows_what_the_mode_needs() {
    assert!(!conn_active_fields(true, false).contains(&ConnField::SshHost));
    assert!(conn_active_fields(true, true).contains(&ConnField::SshHost));
    assert!(conn_active_fields(false, false).contains(&ConnField::SshHost));
    assert!(!conn_active_fields(false, false).contains(&ConnField::DbUser));
}

#[test]
fn saving_a_loaded_profile_changes_nothing() {
    let tags = vec!["clickhouse".to_string(), "yandex".to_string()];
    let mut tab = ConnectionsTab::new();
    tab.load_from(1, &connection("2", "Other"), &tags);
    assert_eq!(tab.selected, Some(1));
    let input = tab.as_input(&tags);
    assert_eq!(input.label, "Other");
    assert_eq!(input.host, "ch.internal");
    assert_eq!(input.tag_mode, "yandex");
    assert_eq!(input.db_password, "");
    tab.clear_form();
    assert_eq!(tab.selected, None);
    assert_eq!(tab.as_input(&tags).label, "");
}

#[test]
fn hosts_fill_the_ssh_side_alone() {
    let mut tab = ConnectionsTab::new();
    tab.host = Input::new("ch.internal");
    tab.ssh_user = Input::new("old");
    let server = Server {
        alias: "bastion".to_string(),
        port: 2222,
        identity_files: vec!["~/.ssh/a".to_string(), "~/.ssh/b".to_string()],
        ..Server::default()
    };
    tab.fill_ssh_from_host(&server);
    assert_eq!(tab.ssh_host.value(), "bastion");
    assert_eq!(tab.ssh_port.value(), "2222");
    assert_eq!(tab.ssh_user.value(), "old");
    assert_eq!(tab.ssh_key_path.value(), "~/.ssh/a");
    assert_eq!(tab.host.value(), "ch.internal");
}

#[test]
fn incomplete_profiles_are_not_saved() {
    let mut s = screen();
    s.trigger_save_connection();
    assert_eq!(s.log.alert.as_ref().map(|a| a.1.as_str()), Some("Label is required"));
    assert!(s.take_requests().is_empty());
    s.log.dismiss();
    s.connections_tab.label = Input::new("New");
    s.connections_tab.mode_is_sql = true;
    s.trigger_save_connection();
    assert_eq!(
        s.log.alert.as_ref().map(|a| a.1.as_str()),
        Some("Host and DB User are required for SQL mode")
    );
    s.connections_tab.mode_is_sql = false;
    s.trigger_save_connection();
    assert_eq!(s.log.alert.as_ref().map(|a| a.1.as_str()), Some("SSH Host is required"));
    s.connections_tab.ssh_host = Input::new(" host ");
    s.trigger_save_connection();
    let asked = s.take_requests();
    assert!(matches!(
        &asked[..],
        [Request::SaveConnection { existing: None, input }] if input.ssh_host == "host"
    ));
}

#[test]
fn tests_fall_back_on_saved_passwords() {
    let mut s = screen();
    let tags = s.tag_modes.clone();
    let saved = connection("1", "Main");
    s.connections_tab.load_from(0, &saved, &tags);
    s.trigger_test_connection();
    assert!(matches!(&s.take_requests()[..], [Request::ListUsers(c)] if c.db_password == "s3cret"));
    s.connections_tab.db_password = Input::new("typed");
    s.trigger_test_connection();
    assert!(matches!(
        &s.take_requests()[..],
        [Request::ListUsers(c)] if c.db_password == "typed" && c.ssh_password == "tunnel"
    ));
}

#[test]
fn choices_match_label_or_host() {
    let cfg = config();
    assert_eq!(filtered_connections(&cfg, "main"), vec!["Main".to_string()]);
    assert_eq!(filtered_connections(&cfg, "INTERNAL").len(), 2);
    assert_eq!(filtered_connections(&cfg, "").len(), 2);
    assert!(filtered_connections(&cfg, "nowhere").is_empty());
    assert_eq!(cfg.with_secrets("2").map(|c| c.db_password), Some("s3cret".to_string()));
    assert!(cfg.with_secrets("9").is_none());
}

#[test]
fn picking_a_profile_fetches_its_users() {
    let mut s = screen();
    s.handle_key(key(KeyCode::F(2)));
    assert!(matches!(s.tab, Tab::Users));
    s.handle_key(key(KeyCode::Char('o')));
    s.handle_key(key(KeyCode::Enter));
    assert_eq!(s.users_tab.connection_input.value(), "Other");
    assert!(!s.users_tab.connection_dropdown_open);
    assert!(matches!(&s.take_requests()[..], [Request::ListUsers(c)] if c.id == "2"));
}

#[test]
fn users_come_in_and_errors_are_kept() {
    let mut s = screen();
    let user = |n: &str| UserInfo { name: n.to_string(), profile: "default".to_string(), ips: vec![] };
    s.tick(vec![Msg::Users(vec![user("a"), user("b")]), Msg::UsersFailed("no\nroute".to_string())]);
    assert_eq!(s.users_tab.rows.len(), 2);
    let last = &s.log.history[s.log.history.len() - 1];
    assert!(!last.0);
    assert!(last.1.contains("no route"));
}

#[test]
fn messages_take_all_keys() {
    let mut s = screen();
    s.trigger_save_connection();
    assert!(!s.handle_key(key(KeyCode::F(2))));
    assert!(matches!(s.tab, Tab::Connections));
    assert!(!s.handle_key(key(KeyCode::Enter)));
    assert!(s.log.alert.is_none());
    assert!(s.handle_key(key(KeyCode::Esc)));
}

#[test]
fn clicking_a_tab_opens_it() {
    let area = Rect::new(0, 0, 120, 40);
    let mut s = screen();
    let row = s.layout(area).screen[0];
    let users = MouseEvent { kind: MouseKind::LeftDown, column: row.x + 30, row: row.y };
    s.handle_mouse(users, area);
    s.handle_key(key(KeyCode::F(1)));
    assert!(matches!(s.tab, Tab::Connections));
    let first = MouseEvent { kind: MouseKind::LeftDown, column: row.x + 1, row: row.y };
    s.handle_key(key(KeyCode::F(2)));
    s.handle_mouse(first, area);
    assert!(matches!(s.tab, Tab::Connections));
}

#[test]
fn a_user_is_added_with_a_typed_password() {
    let mut s = screen();
    s.users_tab.connection_input = Input::new("Main");
    s.handle_key(key(KeyCode::F(2)));
    s.users_tab.field = UsersField::BtnAddUser;
    s.handle_key(key(KeyCode::Enter));
    assert!(matches!(s.users_tab.modal, Some(UserModal::Add(_))));
    for c in "eve".chars() {
        s.handle_key(key(KeyCode::Char(c)));
    }
    if let Some(UserModal::Add(m)) = &mut s.users_tab.modal {
        assert_eq!(m.username.value(), "eve");
        m.password = Input::new("pw");
        m.ips = Input::new("10.0.0.1, ::1");
        m.field = AddField::BtnCreate;
    }
    s.handle_key(key(KeyCode::Enter));
    assert!(s.users_tab.modal.is_none());
    assert!(matches!(
        &s.take_requests()[..],
        [Request::CreateUser { conn, username, password, ips, .. }]
            if conn.id == "1" && username == "eve" && password == "pw" && ips.len() == 2
    ));
}
