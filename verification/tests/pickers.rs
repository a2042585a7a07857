use atk_tui::event::{KeyCode, MouseEvent, MouseKind};
use atk_tui::file_picker::{start_location, Activation, Entry, FilePicker, Listing, StartFacts};
use atk_tui::geometry::Rect;
use atk_tui::host_picker::{HostPicker, PickerStep};
use atk_tui::local_path::{join_path, name_of, parent_of};
use atk_tui::servers::Server;

fn host(alias: &str, name: &str, tags: &[&str]) -> Server {
    Server {
        alias: alias.to_string(),
        host: name.to_string(),
        tags: tags.iter().map(|t| t.to_string()).collect(),
        ..Server::default()
    }
}

fn hosts() -> Vec<Server> {
    vec![host("web1", "10.0.0.1", &["prod"]), host("db1", "db.internal", &["Prod", "data"]), host("lab", "", &[])]
}

fn entry(name: &str, is_dir: bool) -> Entry {
    Entry { name: name.to_string(), is_dir }
}

fn listing() -> Listing {
    Listing {
        cwd: "/home/me".to_string(),
        entries: vec![entry("zeta", false), entry("Beta", true), entry("alpha", true), entry("Apple", false)],
        error: None,
    }
}

#[test]
fn a_host_without_a_name_is_reached_by_its_alias() {
    assert_eq!(host("lab", "", &[]).effective_host(), "lab");
    assert_eq!(host("web1", "10.0.0.1", &[]).effective_host(), "10.0.0.1");
}

#[test]
fn only_matching_hosts_are_offered() {
    let mut p = HostPicker::new(Ok(hosts()));
    assert_eq!(p.filtered().len(), 3);
    for c in "PROD".chars() {
        assert!(matches!(p.handle_key(KeyCode::Char(c)), PickerStep::Stay));
    }
    let found: Vec<&str> = p.filtered().iter().map(|s| s.alias.as_str()).collect();
    assert_eq!(found, vec!["web1", "db1"]);
    p.handle_key(KeyCode::Down);
    assert_eq!(p.activate().map(|s| s.alias), Some("db1".to_string()));
    p.handle_key(KeyCode::Down);
    assert_eq!(p.selected, 1);
    p.handle_key(KeyCode::Char('x'));
    assert_eq!(p.selected, 0);
    assert!(p.filtered().is_empty());
    assert!(p.activate().is_none());
    p.handle_key(KeyCode::Backspace);
    assert_eq!(p.filtered().len(), 2);
    assert!(matches!(p.handle_key(KeyCode::Esc), PickerStep::Close));
}

#[test]
fn a_failed_list_of_hosts_is_told() {
    let p = HostPicker::new(Err("no config".to_string()));
    assert_eq!(p.error.as_deref(), Some("no config"));
    assert!(p.filtered().is_empty());
}

#[test]
fn a_click_picks_the_host_under_it() {
    let area = Rect::new(0, 0, 100, 40);
    let mut p = HostPicker::new(Ok(hosts()));
    let list = p.list_rect(area);
    let at = MouseEvent { kind: MouseKind::LeftDown, column: list.x + 1, row: list.y + 1 };
    assert_eq!(p.row_at(area, at.column, at.row), Some(1));
    assert!(matches!(p.handle_mouse(&at, list), PickerStep::Pick));
    assert_eq!(p.activate().map(|s| s.alias), Some("db1".to_string()));
    assert_eq!(p.row_at(area, list.x + 1, list.y + 3), None);
}

#[test]
fn directories_come_first_and_names_ascend() {
    let p = FilePicker::new(&listing(), None);
    let names: Vec<&str> = p.entries.iter().map(|e| e.name.as_str()).collect();
    assert_eq!(names, vec!["..", "alpha", "Beta", "Apple", "zeta"]);
    assert_eq!(p.selected, 0);
}

#[test]
fn directories_open_and_files_are_picked() {
    let mut p = FilePicker::new(&listing(), Some("zeta".to_string()));
    assert_eq!(p.entries[p.selected].name, "zeta");
    assert!(matches!(p.activate(), Activation::Picked(path) if path == "/home/me/zeta"));
    p.down();
    assert_eq!(p.selected, 4);
    for _ in 0..5 {
        p.up();
    }
    assert_eq!(p.selected, 0);
    assert!(matches!(p.activate(), Activation::Open(path) if path == "/home"));
    p.down();
    assert!(matches!(p.activate(), Activation::Open(path) if path == "/home/me/alpha"));
}

#[test]
fn an_unreadable_directory_is_told() {
    let mut l = listing();
    l.entries = vec![];
    l.error = Some("denied".to_string());
    let p = FilePicker::new(&l, None);
    assert_eq!(p.error.as_deref(), Some("denied"));
    let mut root = listing();
    root.cwd = "/".to_string();
    root.entries = vec![];
    assert!(matches!(FilePicker::new(&root, None).activate(), Activation::Nothing));
}

#[test]
fn browsing_starts_where_the_path_leads() {
    let facts = |path: &str, is_dir: bool, is_file: bool, parent: bool, home: Option<&str>, ssh: bool| StartFacts {
        path: path.to_string(),
        is_dir,
        is_file,
        parent_is_dir: parent,
        home: home.map(|s| s.to_string()),
        ssh_dir_exists: ssh,
    };
    let me = Some("/home/me");
    let dir = start_location(&facts("/data", true, false, true, me, true));
    assert_eq!(dir, ("/data".to_string(), None));
    let file = start_location(&facts("/data/key", false, true, true, me, true));
    assert_eq!(file, ("/data".to_string(), Some("key".to_string())));
    let missing = start_location(&facts("/data/missing", false, false, true, me, true));
    assert_eq!(missing, ("/home/me/.ssh".to_string(), None));
    let home = start_location(&facts("", false, false, false, me, false));
    assert_eq!(home, ("/home/me".to_string(), None));
    let root = start_location(&facts("", false, false, false, None, false));
    assert_eq!(root, ("/".to_string(), None));
    let root_ssh = start_location(&facts("", false, false, false, None, true));
    assert_eq!(root_ssh, ("/.ssh".to_string(), None));
}

#[test]
fn local_paths_go_up_and_down() {
    assert_eq!(parent_of("/home/me"), Some("/home".to_string()));
    assert_eq!(parent_of("/home/me/"), Some("/home".to_string()));
    assert_eq!(parent_of("/home/./me/."), Some("/home".to_string()));
    assert_eq!(parent_of("/home"), Some("/".to_string()));
    assert_eq!(parent_of("/"), None);
    assert_eq!(parent_of(""), None);
    assert_eq!(parent_of("key"), Some("".to_string()));
    assert_eq!(name_of("/home/me/key"), "key");
    assert_eq!(join_path("/home/me", "key"), "/home/me/key");
    assert_eq!(join_path("/", "key"), "/key");
    assert_eq!(join_path("", "key"), "key");
    assert_eq!(join_path("/home", "/etc"), "/etc");
    for p in ["/home/me", "/home/me/", "/home", "/", "", "key", "./a", "a/./b", "/a//b", "//", "..", "/.."] {
        let std = std::path::Path::new(p);
        assert_eq!(parent_of(p), std.parent().map(|d| d.display().to_string()), "{}", p);
        assert_eq!(join_path(p, "x"), std.join("x").display().to_string(), "{}", p);
    }
}

#[test]
fn scrolled_pickers_are_hit_by_what_they_show() {
    let area = Rect::new(0, 0, 100, 40);
    let many: Vec<Server> = (0..50).map(|i| host(&format!("h{i:02}"), "", &[])).collect();
    let mut p = HostPicker::new(Ok(many));
    let list = p.list_rect(area);
    let h = list.height as usize;
    p.selected = 40;
    assert_eq!(p.row_at(area, list.x + 1, list.y), Some(40 + 1 - h));
    assert_eq!(p.row_at(area, list.x + 1, list.y + list.height - 1), Some(40));
    let at = MouseEvent { kind: MouseKind::LeftDown, column: list.x + 1, row: list.y + 2 };
    assert!(matches!(p.handle_mouse(&at, list), PickerStep::Pick));
    assert_eq!(p.selected, 40 + 3 - h);

    let mut l = listing();
    l.entries = (0..60).map(|i| entry(&format!("f{i:02}"), false)).collect();
    let mut f = FilePicker::new(&l, Some("f59".to_string()));
    let rows = FilePicker::rows(area);
    assert_eq!(f.selected, 60);
    assert_eq!(f.row_at(area, rows[0].x + 1, rows[0].y + rows[0].height - 1), Some(60));
    assert_eq!(f.row_at(area, rows[0].x + 1, rows[0].y), Some(61 - rows[0].height as usize));
    f.up();
    assert_eq!(f.row_at(area, rows[0].x, rows[0].y), None);
}
