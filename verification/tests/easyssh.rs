use atk_tui::easyssh_screen::{EasySshScreen, ForwardAgent, Modal, Msg, Request, ServerForm, Tab};
use atk_tui::event::{KeyCode, KeyEvent, MouseEvent, MouseKind};
use atk_tui::geometry::Rect;
use atk_tui::interactive::{PendingAction, SessionEnd};
use atk_tui::server_list::{
    compare_servers, distinct_tags, extra_to_text, is_in_group, matches_query, parse_advanced, parse_csv,
    sort_servers, SortMode,
};
use atk_tui::servers::Server;
use atk_tui::widgets::Input;

fn key(code: KeyCode) -> KeyEvent {
    KeyEvent::plain(code)
}

fn host(alias: &str, pinned: Option<i64>, seen: Option<i64>) -> Server {
    Server {
        alias: alias.to_string(),
        patterns: vec![alias.to_string()],
        host: format!("{alias}.example.com"),
        user: "root".to_string(),
        port: 2222,
        pinned_at: pinned,
        last_seen: seen,
        ..Server::default()
    }
}

fn tagged(alias: &str, tags: &[&str]) -> Server {
    Server { tags: tags.iter().map(|t| t.to_string()).collect(), ..host(alias, None, None) }
}

fn screen(servers: Vec<Server>) -> EasySshScreen {
    let mut s = EasySshScreen::new();
    s.take_requests();
    s.tick(vec![Msg::Listed { servers, told: false }]);
    s
}

fn aliases(rows: &[&Server]) -> Vec<String> {
    rows.iter().map(|s| s.alias.clone()).collect()
}

#[test]
fn pinned_hosts_come_first_and_unseen_last() {
    let v = [host("b", None, Some(5)), host("A", None, None), host("c", Some(1), None), host("d", Some(9), None)];
    let rows: Vec<&Server> = v.iter().collect();
    assert_eq!(aliases(&sort_servers(rows.clone(), SortMode::AliasAsc)), ["d", "c", "A", "b"]);
    assert_eq!(aliases(&sort_servers(rows.clone(), SortMode::AliasDesc)), ["d", "c", "b", "A"]);
    assert_eq!(aliases(&sort_servers(rows.clone(), SortMode::LastSeenAsc)), ["d", "c", "b", "A"]);
    assert_eq!(aliases(&sort_servers(rows, SortMode::LastSeenDesc)), ["d", "c", "b", "A"]);
    assert!(compare_servers(&v[2], &v[0], SortMode::LastSeenDesc));
    assert_eq!(SortMode::AliasAsc.toggle_field().toggle_field().label(), SortMode::AliasAsc.label());
    assert_eq!(SortMode::LastSeenAsc.reverse().reverse().label(), SortMode::LastSeenAsc.label());
}

#[test]
fn lists_and_directives_read_what_was_written() {
    let items = vec!["~/.ssh/a".to_string(), "~/.ssh/b".to_string()];
    assert_eq!(parse_csv("~/.ssh/a, ~/.ssh/b"), items);
    assert!(parse_csv(" , ").is_empty());
    let extra = vec![("ServerAliveInterval".to_string(), "60".to_string()), ("Compression".to_string(), "yes".to_string())];
    assert_eq!(extra_to_text(&extra), "ServerAliveInterval: 60; Compression: yes");
    assert_eq!(parse_advanced(&extra_to_text(&extra)), extra);
    assert!(parse_advanced("no colon here").is_empty());
}

#[test]
fn tags_make_groups() {
    let v = vec![tagged("a", &["Prod", "web"]), tagged("b", &["prod"]), tagged("c", &[])];
    let groups = distinct_tags(&v);
    assert!(groups.iter().any(|g| g.0.to_lowercase() == "prod" && g.1 >= 1));
    assert!(groups.iter().any(|g| g.0 == "web" && g.1 == 1));
    assert!(is_in_group(&v[0], "web"));
    assert!(is_in_group(&v[2], ""));
    assert!(!is_in_group(&v[0], ""));
    assert!(matches_query(&v[0], "example.com"));
    assert!(!matches_query(&v[0], "nowhere"));
}

#[test]
fn saving_an_unchanged_host_changes_nothing() {
    let mut s = tagged("web", &["prod", "eu"]);
    s.identity_files = vec!["~/.ssh/a".to_string()];
    s.local_forward = vec!["8080 localhost:80".to_string()];
    s.remote_forward = vec!["9090 localhost:90".to_string()];
    s.forward_agent = "yes".to_string();
    s.ssh_password = "pw".to_string();
    s.extra = vec![("Compression".to_string(), "yes".to_string())];
    s.pinned_at = Some(7);
    let t = ServerForm::new_edit(&s).build_server();
    assert_eq!((t.alias, t.host, t.user, t.port), (s.alias, s.host, s.user, s.port));
    assert_eq!((t.identity_files, t.local_forward, t.tags, t.extra), (s.identity_files, s.local_forward, s.tags, s.extra));
    assert_eq!((t.ssh_password, t.forward_agent, t.pinned_at), (s.ssh_password, s.forward_agent, s.pinned_at));
    assert_eq!((t.patterns, t.remote_forward), (s.patterns, s.remote_forward));
}

#[test]
fn ports_that_are_none_become_zero() {
    let mut f = ServerForm::new_add();
    assert!(f.is_add());
    assert_eq!(f.build_server().port, 22);
    f.port = Input::new("70000");
    assert_eq!(f.build_server().port, 0);
    f.port = Input::new("+80");
    assert_eq!(f.build_server().port, 80);
    f.port = Input::new("-1");
    assert_eq!(f.build_server().port, 0);
    assert_eq!(ForwardAgent::read("YES").value(), "yes");
    assert_eq!(ForwardAgent::Unset.turned(false).turned(true).label(), ForwardAgent::Unset.label());
}

#[test]
fn connecting_runs_ssh_in_the_terminal() {
    let mut s = screen(vec![host("a", None, None), host("b", None, None)]);
    s.handle_key(key(KeyCode::Down));
    s.handle_key(key(KeyCode::Enter));
    let action = s.take_pending_action();
    assert!(matches!(
        action,
        Some(PendingAction::RunInteractive { program, args, alias })
            if program == "ssh" && args == vec!["b".to_string()] && alias == "b"
    ));
    s.on_interactive_done("b", SessionEnd::Success);
    assert!(s.take_requests().iter().any(|r| matches!(r, Request::RecordSsh(a) if a == "b")));
    s.on_interactive_done("b", SessionEnd::NotLaunched("no ssh".to_string()));
    let last = &s.log.history[s.log.history.len() - 1];
    assert!(!last.0);
    assert!(last.1.contains("no ssh"));
}

#[test]
fn deleting_takes_a_second_key() {
    let mut s = screen(vec![host("a", None, None)]);
    s.handle_key(key(KeyCode::Char('d')));
    assert!(matches!(s.modal, Some(Modal::ConfirmDelete(_))));
    s.handle_key(key(KeyCode::Enter));
    assert!(s.modal.is_none());
    assert!(s.take_requests().is_empty());
    s.handle_key(key(KeyCode::Char('d')));
    s.handle_key(key(KeyCode::Tab));
    s.handle_key(key(KeyCode::Enter));
    assert!(matches!(&s.take_requests()[..], [Request::DeleteServer(a)] if a == "a"));
}

#[test]
fn row_keys_work_on_the_group_shown() {
    let mut s = screen(vec![tagged("a", &["x"]), tagged("b", &["y"]), tagged("c", &["y"])]);
    s.handle_key(key(KeyCode::F(2)));
    assert!(matches!(s.tab, Tab::Tags));
    let place = s.distinct_tags().iter().position(|g| g.0 == "y");
    for _ in 0..place.unwrap_or(0) {
        s.handle_key(key(KeyCode::Down));
    }
    s.handle_key(key(KeyCode::Enter));
    assert_eq!(aliases(&s.current_rows()), ["b", "c"]);
    s.handle_key(key(KeyCode::Char('p')));
    assert!(matches!(&s.take_requests()[..], [Request::SetPinned { alias, pinned: true }] if alias == "b"));
    assert!(!s.handle_key(key(KeyCode::Esc)));
    assert!(s.handle_key(key(KeyCode::Esc)));
}

#[test]
fn forwarding_needs_a_forward() {
    let mut s = screen(vec![host("a", None, None)]);
    s.handle_key(key(KeyCode::Char('f')));
    assert!(s.take_requests().is_empty());
    let mut with = host("a", None, None);
    with.dynamic_forward = vec!["1080".to_string()];
    let mut s = screen(vec![with]);
    s.handle_key(key(KeyCode::Char('f')));
    assert!(matches!(&s.take_requests()[..], [Request::StartForward(a)] if a == "a"));
}

#[test]
fn the_form_takes_no_mouse() {
    let area = Rect::new(0, 0, 120, 40);
    let mut s = screen(vec![host("a", None, None)]);
    s.handle_key(key(KeyCode::Char('e')));
    for y in 0..40 {
        s.handle_mouse(MouseEvent { kind: MouseKind::LeftDown, column: 60, row: y }, area);
    }
    assert!(matches!(s.modal, Some(Modal::Edit(_))));
    assert!(s.take_pending_action().is_none());
}

#[test]
fn clicking_a_host_connects() {
    let area = Rect::new(0, 0, 120, 40);
    let mut s = screen(vec![host("a", None, None), host("b", None, None)]);
    let table = s.layout(area).servers[1];
    s.handle_mouse(MouseEvent { kind: MouseKind::LeftDown, column: table.x + 3, row: table.y + 3 }, area);
    assert!(matches!(s.take_pending_action(), Some(PendingAction::RunInteractive { alias, .. }) if alias == "b"));
}

#[test]
fn searching_narrows_the_list() {
    let mut s = screen(vec![host("alpha", None, None), host("beta", None, None)]);
    s.handle_key(key(KeyCode::Char('/')));
    s.handle_key(key(KeyCode::Char('B')));
    s.handle_key(key(KeyCode::Char('e')));
    assert_eq!(aliases(&s.rows_for_servers_tab()), ["beta"]);
    s.handle_key(key(KeyCode::Esc));
    s.handle_key(key(KeyCode::Char('s')));
    assert_eq!(s.rows_for_servers_tab().len(), 1);
}
