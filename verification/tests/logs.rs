use atk_tui::event::{KeyCode, KeyEvent, MouseEvent, MouseKind};
use atk_tui::geometry::Rect;
use atk_tui::logs_draw::colorize_line;
use atk_tui::logs_screen::{
    filtered_connections, known_ssh_extras, rows_of_listing, server_port, viewer_active_fields, Config, Connection,
    ConnectionWithSecrets, ConnectionsTab, LogsScreen, Msg, RemoteEntry, Request, Tab, ViewerField,
};
use atk_tui::picture::Tone;
use atk_tui::servers::Server;
use atk_tui::widgets::Input;

fn key(code: KeyCode) -> KeyEvent {
    KeyEvent::plain(code)
}

fn config() -> Config {
    Config {
        connections: vec![Connection {
            id: "1".to_string(),
            label: "Web".to_string(),
            host: "10.0.0.1".to_string(),
            ssh_port: "22".to_string(),
            ssh_user: "root".to_string(),
            ssh_key_path: "".to_string(),
        }],
        opened: vec![ConnectionWithSecrets {
            id: "1".to_string(),
            label: "Web".to_string(),
            host: "10.0.0.1".to_string(),
            ssh_port: "22".to_string(),
            ssh_user: "root".to_string(),
            ssh_key_path: "".to_string(),
            ssh_password: "pw".to_string(),
        }],
    }
}

fn host(alias: &str, name: &str, port: u16) -> Server {
    Server { alias: alias.to_string(), host: name.to_string(), port, ..Server::default() }
}

fn hosts() -> Vec<Server> {
    vec![host("same", "10.0.0.1", 22), host("other", "10.0.0.2", 2200)]
}

fn screen() -> LogsScreen {
    let priorities = ["(all)", "debug", "info", "warning", "err"].iter().map(|s| s.to_string()).collect();
    LogsScreen::new(config(), hosts(), priorities)
}

#[test]
fn hosts_are_listed_once() {
    let all = hosts();
    let extra = known_ssh_extras(&config().connections, &all);
    assert_eq!(extra.len(), 1);
    assert_eq!(extra[0].alias, "other");
    assert_eq!(filtered_connections(&config(), &all, ""), vec!["Web".to_string(), "other".to_string()]);
    assert_eq!(filtered_connections(&config(), &all, "oth"), vec!["other".to_string()]);
}

#[test]
fn known_hosts_need_no_profile() {
    let s = screen();
    let c = s.connection_by_label("other");
    assert!(c.is_some_and(|c| c.host == "10.0.0.2" && c.ssh_port == "2200" && c.ssh_password.is_empty()));
    assert!(s.connection_by_label("Web").is_some_and(|c| c.ssh_password == "pw"));
    assert!(s.connection_by_label("nobody").is_none());
    assert_eq!(server_port(&host("a", "b", 0)), "22");
}

#[test]
fn taking_a_host_fills_the_form() {
    let mut tab = ConnectionsTab::new();
    tab.fill_from_host(&host("other", "10.0.0.2", 2200));
    let input = tab.as_input();
    assert_eq!((input.label.as_str(), input.host.as_str(), input.ssh_port.as_str()), ("other", "10.0.0.2", "2200"));
}

#[test]
fn fields_follow_the_source() {
    assert!(viewer_active_fields(true).contains(&ViewerField::Since));
    assert!(!viewer_active_fields(true).contains(&ViewerField::BtnBrowse));
    assert!(viewer_active_fields(false).contains(&ViewerField::BtnBrowse));
    assert!(!viewer_active_fields(false).contains(&ViewerField::Since));
}

#[test]
fn fetches_do_not_pile_up() {
    let mut s = screen();
    s.viewer_tab.connection_input = Input::new("Web");
    s.viewer_tab.auto_refresh = true;
    s.tick(vec![], 4000);
    assert!(s.viewer_tab.fetching);
    s.tick(vec![], 20_000);
    assert_eq!(s.take_requests().iter().filter(|r| matches!(r, Request::Fetch { .. })).count(), 1);
    s.tick(vec![Msg::Fetched(vec!["one".to_string(), "two".to_string()])], 5000);
    assert!(!s.viewer_tab.fetching);
    assert_eq!(s.viewer_tab.log_lines.len(), 2);
    assert_eq!(s.viewer_tab.last_fetch, Some(5000));
    s.tick(vec![], 9999);
    assert!(s.take_requests().is_empty());
}

#[test]
fn refreshing_waits_its_turn() {
    let mut s = screen();
    s.viewer_tab.connection_input = Input::new("Web");
    s.viewer_tab.auto_refresh = true;
    s.trigger_fetch();
    s.take_requests();
    s.tick(vec![Msg::Fetched(vec![])], 10_000);
    s.handle_key(key(KeyCode::F(2)));
    s.tick(vec![], 10_100);
    assert!(s.take_requests().is_empty());
    s.tick(vec![], 60_000);
    assert_eq!(s.take_requests().len(), 1);
}

#[test]
fn a_fetch_needs_a_connection() {
    let mut s = screen();
    s.viewer_tab.connection_input = Input::new("nobody");
    s.trigger_fetch();
    assert!(s.log.alert.is_some());
    assert!(s.take_requests().is_empty());
}

#[test]
fn line_counts_are_numbers() {
    let mut s = screen();
    s.viewer_tab.lines = Input::new(" 50 ");
    assert_eq!(s.viewer_tab.params().lines, 50);
    s.viewer_tab.lines = Input::new("many");
    assert_eq!(s.viewer_tab.params().lines, 200);
}

#[test]
fn browsing_starts_at_the_file() {
    let mut s = screen();
    s.viewer_tab.connection_input = Input::new("Web");
    s.viewer_tab.journal = false;
    s.viewer_tab.path = Input::new("/var/log/syslog");
    s.trigger_browse();
    assert!(matches!(&s.take_requests()[..], [Request::ListDir { path, .. }] if path == "/var/log"));
    let entry = |n: &str, d: bool| RemoteEntry { name: n.to_string(), is_dir: d };
    s.tick(
        vec![Msg::Listed { path: "/var/log".to_string(), entries: vec![entry("apt", true), entry("syslog", false)] }],
        0,
    );
    s.handle_key(key(KeyCode::F(2)));
    let rows = s.viewer_tab.browser.as_ref().map(|b| b.entries.len());
    // The way up comes first, though the listing did not name it.
    assert_eq!(rows, Some(3));
    assert!(s.viewer_tab.browser.as_ref().is_some_and(|b| b.entries[0].name == ".." && b.entries[0].is_dir));
    s.handle_key(key(KeyCode::Esc));
    assert!(s.viewer_tab.browser.is_none());
}

#[test]
fn deleting_without_a_profile_is_told() {
    let mut s = screen();
    s.cfg = Config { connections: vec![], opened: vec![] };
    s.hosts = vec![];
    s.trigger_delete_connection();
    assert!(s.log.alert.is_some());
}

#[test]
fn tabs_follow_the_function_keys() {
    let mut s = screen();
    assert!(matches!(s.tab, Tab::Connections));
    s.handle_key(key(KeyCode::F(2)));
    assert!(matches!(s.tab, Tab::Viewer));
    assert!(s.handle_key(key(KeyCode::Esc)));
}

#[test]
fn severity_goes_by_words() {
    assert_eq!(colorize_line("disk: I/O Error"), Tone::Bad);
    assert_eq!(colorize_line("error without a space before it"), Tone::Plain);
    assert_eq!(colorize_line("[ERROR] x"), Tone::Bad);
    assert_eq!(colorize_line("kernel: CRITICAL"), Tone::Bad);
    assert_eq!(colorize_line("Warning: low"), Tone::Warn);
    assert_eq!(colorize_line("all is well"), Tone::Plain);
}

#[test]
fn listings_have_one_way_up() {
    let entry = |n: &str| RemoteEntry { name: n.to_string(), is_dir: true };
    let listed = vec![entry(".."), entry("a"), entry("b")];
    let names = |p: &str| rows_of_listing(p, &listed).into_iter().map(|e| e.name).collect::<Vec<_>>();
    assert_eq!(names("/var"), ["..", "a", "b"]);
    assert_eq!(names("/"), ["a", "b"]);
}

#[test]
fn a_scrolled_browser_is_hit_by_what_it_shows() {
    let mut s = screen();
    s.viewer_tab.connection_input = Input::new("Web");
    s.trigger_browse();
    s.take_requests();
    let entries = (0..60).map(|i| RemoteEntry { name: format!("f{i:02}"), is_dir: false }).collect();
    s.tick(vec![Msg::Listed { path: "/var/log".to_string(), entries }], 0);
    if let Some(b) = &mut s.viewer_tab.browser {
        b.selected = 60;
    }
    let list = Rect::new(10, 5, 60, 10);
    s.handle_browser_mouse(MouseEvent { kind: MouseKind::LeftDown, column: 20, row: 14 }, list);
    assert_eq!(s.viewer_tab.path.value(), "/var/log/f59");
}

#[test]
fn a_closed_browser_takes_nothing() {
    let mut s = screen();
    let list = Rect { x: 10, y: 5, width: 40, height: 10 };
    s.viewer_tab.browser = None;
    s.handle_browser_key(KeyCode::Enter);
    s.handle_browser_key(KeyCode::Esc);
    s.handle_browser_mouse(MouseEvent { kind: MouseKind::LeftDown, column: 12, row: 6 }, list);
    assert!(s.viewer_tab.browser.is_none());
    assert!(s.log.alert.is_none());
    assert!(s.take_requests().is_empty());
}
