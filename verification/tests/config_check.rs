use atk_tui::config_check_screen::{
    starting_dir, Browser, BrowserAction, CheckField, ConfigCheckScreen, Entry, Format, FormatChoice, Msg, Request, Tab,
};
use atk_tui::event::{KeyCode, KeyEvent, MouseEvent, MouseKind};
use atk_tui::geometry::Rect;
use atk_tui::target::{mode_row_hit, target_active_fields, Target, TargetField, TargetTab};
use atk_tui::servers::Server;
use atk_tui::widgets::Input;

fn key(code: KeyCode) -> KeyEvent {
    KeyEvent::plain(code)
}

fn entry(name: &str, is_dir: bool) -> Entry {
    Entry { name: name.to_string(), is_dir }
}

fn remote(s: &mut ConfigCheckScreen) {
    s.target_tab.is_remote = true;
    s.target_tab.ssh_host = Input::new("10.0.0.1");
}

#[test]
fn formats_are_told_by_the_name() {
    assert_eq!(Format::detect("/etc/app.JSON"), Some(Format::Json));
    assert_eq!(Format::detect("a.yml"), Some(Format::Yaml));
    assert_eq!(Format::detect("a.yaml"), Some(Format::Yaml));
    assert_eq!(Format::detect("a.toml"), Some(Format::Toml));
    assert_eq!(Format::detect("a.xml"), Some(Format::Xml));
    assert_eq!(Format::detect("/etc/hosts"), None);
    assert_eq!(Format::Json.label(), "JSON");
    assert_eq!(FormatChoice::Auto.label(), "Auto");
    assert_eq!(FormatChoice::Auto.cycle(false).cycle(true), FormatChoice::Auto);
    assert_eq!(FormatChoice::Forced(Format::Xml).resolve("a.json"), Some(Format::Xml));
    assert_eq!(FormatChoice::Auto.resolve("a.json"), Some(Format::Json));
}

#[test]
fn the_checker_browses_from_the_path() {
    let home = Some("/home/me".to_string());
    assert_eq!(starting_dir("", true, &home, ""), "/etc");
    assert_eq!(starting_dir("", false, &home, ""), "/home/me");
    assert_eq!(starting_dir("", false, &None, ""), "/");
    assert_eq!(starting_dir("/etc/app/a.json", true, &home, ""), "/etc/app");
    assert_eq!(starting_dir("~/a.toml", false, &home, "/home/me/a.toml"), "/home/me");
    assert_eq!(starting_dir("/etc/app", true, &home, ""), "/etc/app");
}

#[test]
fn entries_lead_where_they_say() {
    let mut b = Browser::new("/etc");
    assert!(b.loading);
    assert!(matches!(b.on_enter(), BrowserAction::Nothing));
    b.apply_listing("/var", &vec![entry("stale", false)]);
    assert!(b.loading && b.entries.is_empty());
    b.apply_listing("/etc", &vec![entry("app", true), entry("a.json", false)]);
    assert!(!b.loading);
    assert!(matches!(b.on_enter(), BrowserAction::Navigate(p) if p == "/"));
    b.down();
    assert!(matches!(b.on_enter(), BrowserAction::Navigate(p) if p == "/etc/app"));
    b.down();
    assert!(matches!(b.on_enter(), BrowserAction::Picked(p) if p == "/etc/a.json"));
    b.apply_error("/var", "late");
    assert_eq!(b.error, None);
    b.apply_error("/etc", "denied");
    assert_eq!(b.error.as_deref(), Some("denied"));
    assert!(b.entries.is_empty());
}

#[test]
fn checks_need_a_path_and_a_format() {
    let mut s = ConfigCheckScreen::new();
    s.trigger_check();
    assert_eq!(s.log.alert.as_ref().map(|a| a.1.as_str()), Some("Enter a path first"));
    s.log.dismiss();
    s.check_tab.path = Input::new("/etc/hosts");
    s.trigger_check();
    assert!(s.log.alert.is_some());
    s.log.dismiss();
    s.check_tab.path = Input::new(" conf/a.json ");
    s.trigger_check();
    assert!(s.check_tab.checking);
    assert!(matches!(
        &s.take_requests()[..],
        [Request::CheckFile { target: Target::Local, path, format: Format::Json }] if path == "conf/a.json"
    ));
    remote(&mut s);
    s.trigger_check();
    assert_eq!(
        s.log.alert.as_ref().map(|a| a.1.as_str()),
        Some("Remote paths must be absolute (e.g. /etc/nginx/nginx.conf)")
    );
    assert!(s.take_requests().is_empty());
}

#[test]
fn nothing_is_fixed_without_the_question() {
    let area = Rect::new(0, 0, 120, 40);
    let mut s = ConfigCheckScreen::new();
    s.tick(vec![Msg::Checked { path: "/a.json".to_string(), format: Format::Json, error: Some("line 1".to_string()) }]);
    assert!(s.check_tab.show_results);
    assert!(s.check_tab.is_fixable());
    s.handle_key(key(KeyCode::Char('f')));
    assert!(s.check_tab.confirm_fix);
    for y in 0..40 {
        s.handle_mouse(MouseEvent { kind: MouseKind::LeftDown, column: 60, row: y }, area);
    }
    assert!(s.check_tab.confirm_fix);
    assert!(s.take_requests().is_empty());
    s.handle_key(key(KeyCode::Esc));
    assert!(!s.check_tab.confirm_fix);
    s.handle_key(key(KeyCode::Char('F')));
    s.handle_key(key(KeyCode::Enter));
    assert!(s.check_tab.fixing);
    assert!(matches!(&s.take_requests()[..], [Request::FixFile { path, .. }] if path == "/a.json"));
    assert!(!s.check_tab.is_fixable());
    s.tick(vec![Msg::Fixed { backup: "/a.json.bak".to_string(), remaining: None }]);
    let r = s.check_tab.result.as_ref();
    assert!(r.is_some_and(|r| r.valid && r.fix_backup.as_deref() == Some("/a.json.bak")));
}

#[test]
fn a_valid_file_is_not_fixed() {
    let mut s = ConfigCheckScreen::new();
    s.tick(vec![Msg::Checked { path: "/a.json".to_string(), format: Format::Json, error: None }]);
    s.handle_key(key(KeyCode::Char('f')));
    assert!(!s.check_tab.confirm_fix);
    s.handle_key(KeyEvent { code: KeyCode::Char('y'), control: true });
    assert!(matches!(&s.take_requests()[..], [Request::CopyResult(t)] if t == "/a.json: valid JSON"));
    s.handle_key(key(KeyCode::Up));
    assert_eq!(s.check_tab.results_scroll, 1);
    assert!(!s.handle_key(key(KeyCode::Esc)));
    assert!(!s.check_tab.show_results);
    assert!(s.handle_key(key(KeyCode::Esc)));
}

#[test]
fn remote_browsing_takes_absolute_paths() {
    let mut s = ConfigCheckScreen::new();
    remote(&mut s);
    s.check_tab.path = Input::new("~/conf");
    s.start_browse();
    assert!(s.log.alert.is_some());
    s.log.dismiss();
    s.check_tab.path = Input::new("");
    s.start_browse();
    assert!(matches!(&s.take_requests()[..], [Request::ListDir { path, .. }] if path == "/etc"));
    s.handle_key(key(KeyCode::F(2)));
    assert!(matches!(s.tab, Tab::Target));
    let mut local = ConfigCheckScreen::new();
    local.check_tab.path = Input::new(" ~/conf ");
    local.start_browse();
    assert!(matches!(&local.take_requests()[..], [Request::ResolvePath(p)] if p == "~/conf"));
    local.tick(vec![Msg::Resolved { raw: "~/conf".to_string(), home: None, expanded: "/home/me/conf".to_string() }]);
    assert!(matches!(&local.take_requests()[..], [Request::ListDir { path, .. }] if path == "/home/me/conf"));
}

#[test]
fn targets_are_local_or_remote() {
    assert!(!target_active_fields(false).contains(&TargetField::SshHost));
    assert!(target_active_fields(true).contains(&TargetField::SshHost));
    let mut t = TargetTab::new();
    assert!(matches!(t.as_target(), Target::Local));
    t.is_remote = true;
    assert!(t.lacks_host());
    t.fill_from_host(&Server { alias: "web".to_string(), user: "root".to_string(), ..Server::default() });
    assert!(!t.lacks_host());
    assert!(matches!(t.as_target(), Target::Remote { host, user, .. } if host == "web" && user == "root"));
}

#[test]
fn connecting_needs_a_host() {
    let mut s = ConfigCheckScreen::new();
    s.target_tab.is_remote = true;
    s.trigger_connect();
    assert!(s.log.alert.is_some());
    s.log.dismiss();
    remote(&mut s);
    s.trigger_connect();
    assert!(s.target_tab.connecting);
    s.tick(vec![Msg::ConnectFailed("refused".to_string())]);
    assert!(!s.target_tab.connecting);
    assert_eq!(s.connected_label, None);
    s.tick(vec![Msg::Connected("10.0.0.1".to_string())]);
    assert_eq!(s.connected_label.as_deref(), Some("10.0.0.1"));
}

#[test]
fn check_fields_cycle() {
    let mut s = ConfigCheckScreen::new();
    s.handle_key(key(KeyCode::F(2)));
    assert_eq!(s.check_tab.field, CheckField::Path);
    for _ in 0..4 {
        s.handle_key(key(KeyCode::Tab));
    }
    assert_eq!(s.check_tab.field, CheckField::Path);
    s.handle_key(key(KeyCode::BackTab));
    assert_eq!(s.check_tab.field, CheckField::BtnCheck);
}

#[test]
fn a_click_picks_the_mode_drawn_under_it() {
    let area = Rect { x: 0, y: 0, width: 120, height: 40 };
    let row = ConfigCheckScreen::new().layout(area).target.form[0];
    // "Mode: Local  Remote"
    let picked: Vec<Option<usize>> = (0..21).map(|off| mode_row_hit(row.x + off, row.y, row)).collect();
    assert!(picked[..6].iter().all(|p| p.is_none()));
    assert!(picked[6..11].iter().all(|p| *p == Some(0)));
    assert_eq!(picked[11..13], [None, None]);
    assert!(picked[13..19].iter().all(|p| *p == Some(1)));
    assert_eq!(picked[19..], [None, None]);
    assert_eq!(mode_row_hit(row.x + 8, row.y + 1, row), None);

    let mut s = ConfigCheckScreen::new();
    s.connected_label = Some("10.0.0.1".to_string());
    s.handle_mouse(MouseEvent { kind: MouseKind::LeftDown, column: row.x + 14, row: row.y }, area);
    assert!(s.target_tab.is_remote);
    assert_eq!(s.target_tab.field, TargetField::Mode);
    assert_eq!(s.connected_label, None);
    s.handle_mouse(MouseEvent { kind: MouseKind::LeftDown, column: row.x + 6, row: row.y }, area);
    assert!(!s.target_tab.is_remote);
}
