use atk_tui::clickhouse_screen;
use atk_tui::clickhouse_screen::ClickHouseScreen;
use atk_tui::cloudflare_screen;
use atk_tui::cloudflare_screen::{AddModal, CloudflareScreen};
use atk_tui::config_check_screen::ConfigCheckScreen;
use atk_tui::create_db_modal::{CreateDbAction, CreateDbField, CreateDbModal, OptSpec};
use atk_tui::easyssh_screen::{EditTagsModal, Modal, ServerForm, SmallAction};
use atk_tui::event::{KeyCode, KeyEvent, MouseEvent, MouseKind};
use atk_tui::geometry::Rect;
use atk_tui::home::{description_width, item_heights};
use atk_tui::kerneltune_screen::{Catalog, DetailModal, KernelTuneScreen, StagedChange};
use atk_tui::logs_screen;
use atk_tui::logs_screen::{ConnectionsTab, LogsScreen, RemoteBrowser, RemoteEntry};
use atk_tui::mouse::{button_row_hit, label_row_hit, table_row_hit};
use atk_tui::screen::{default_order, screen_about};
use atk_tui::servers::Server;
use atk_tui::sort::in_text_order;
use atk_tui::target::TargetTab;
use atk_tui::widgets::Input;
use atk_tui::wrap::wrap_text;

const AREA: Rect = Rect { x: 0, y: 0, width: 120, height: 40 };

fn key(code: KeyCode) -> KeyEvent {
    KeyEvent::plain(code)
}

fn click(x: u16, y: u16) -> MouseEvent {
    MouseEvent { kind: MouseKind::LeftDown, column: x, row: y }
}

fn catalog() -> Catalog {
    Catalog { tunables: vec![], profiles: vec![], categories: vec![] }
}

#[test]
fn message_boxes_take_all_input() {
    let wheel = MouseEvent { kind: MouseKind::ScrollUp, column: 1, row: 1 };
    let mut k = KernelTuneScreen::new(catalog(), vec![]);
    k.request_apply_all();
    assert!(!k.handle_key(KeyEvent { code: KeyCode::Char('c'), control: true }));
    k.handle_mouse(wheel, AREA);
    assert!(k.log.alert.is_some());
    k.handle_mouse(click(0, 0), AREA);
    assert!(k.log.alert.is_none());

    let mut c = ConfigCheckScreen::new();
    c.trigger_check();
    c.handle_mouse(wheel, AREA);
    assert!(c.log.alert.is_some());
    assert!(!c.handle_key(key(KeyCode::Esc)));
    assert!(c.log.alert.is_none());

    let mut f = CloudflareScreen::new(cloudflare_screen::Config { accounts: vec![], opened: vec![] });
    f.trigger_fetch_all_accounts();
    assert!(f.log.alert.is_some());
    assert!(!f.handle_key(key(KeyCode::Char('x'))));
    assert!(f.log.alert.is_some());
    assert!(!f.handle_key(key(KeyCode::Enter)));
    assert!(f.log.alert.is_none());

    let cfg = logs_screen::Config { connections: vec![], opened: vec![] };
    let mut l = LogsScreen::new(cfg, vec![], vec!["(all)".to_string()]);
    l.trigger_fetch();
    assert!(!l.handle_key(key(KeyCode::F(2))));
    assert!(l.log.alert.is_some());
}

#[test]
fn esc_closes_what_is_open_first() {
    let cfg = clickhouse_screen::Config { connections: vec![], opened: vec![] };
    let mut s = ClickHouseScreen::new(cfg, vec!["yandex".to_string()]);
    s.tick(vec![clickhouse_screen::Msg::Hosts(vec![])]);
    assert!(s.connections_tab.host_picker.is_some());
    assert!(!s.handle_key(key(KeyCode::Esc)));
    assert!(s.connections_tab.host_picker.is_none());
    assert!(s.handle_key(key(KeyCode::Esc)));
}

#[test]
fn wrapped_lines_fit_where_their_words_do() {
    for s in default_order() {
        for line in wrap_text(screen_about(s), 30) {
            assert!(line.chars().count() <= 30 || !line.contains(' '));
        }
        let joined = wrap_text(screen_about(s), 30).join(" ");
        let words: Vec<&str> = screen_about(s).split_whitespace().collect();
        assert_eq!(joined, words.join(" "));
    }
}

#[test]
fn menu_items_are_as_high_as_their_text() {
    let order = default_order();
    let width = description_width(40);
    let heights = item_heights(&order, width);
    for (s, h) in order.iter().zip(heights) {
        assert!(h > wrap_text(screen_about(*s), width).len());
    }
}

#[test]
fn every_column_belongs_to_one_label_at_most() {
    let row = Rect::new(3, 7, 60, 1);
    let labels = ["One", "Three", "Seven"];
    let mut seen: Vec<usize> = vec![];
    for x in 0..80 {
        if let Some(i) = button_row_hit(x, 7, row, &labels) {
            if seen.last() != Some(&i) {
                seen.push(i);
            }
        }
    }
    assert_eq!(seen, vec![0, 1, 2]);
    assert_eq!(label_row_hit(2, 7, row, &labels), None);
    assert_eq!(label_row_hit(3, 8, row, &labels), None);
}

#[test]
fn scrolled_tables_are_hit_by_what_they_show() {
    // Eight lines are left for rows; with the last of twenty selected, the
    // first row shown is the thirteenth.
    let table = Rect::new(0, 0, 40, 11);
    assert_eq!(table_row_hit(5, 2, table, 1, 20, 19), Some(12));
    assert_eq!(table_row_hit(5, 9, table, 1, 20, 19), Some(19));
    assert_eq!(table_row_hit(5, 10, table, 1, 20, 19), None);
}

#[test]
fn creating_is_submitted_from_its_button_alone() {
    let specs = || {
        [OptSpec { label: "A:", hint: "", default: "" }, OptSpec { label: "B:", hint: "", default: "" }]
    };
    let mut m = CreateDbModal::new("T", specs());
    let start = m.field;
    let mut submits = 0;
    for _ in 0..5 {
        if matches!(m.handle_key(key(KeyCode::Enter)), CreateDbAction::Submit) {
            assert_eq!(m.field, CreateDbField::BtnCreate);
            submits += 1;
            m.handle_key(key(KeyCode::Tab));
        }
    }
    assert_eq!(submits, 1);
    let mut n = CreateDbModal::new("T", specs());
    for _ in 0..5 {
        n.handle_key(key(KeyCode::Tab));
    }
    assert_eq!(n.field, start);
    n.handle_key(key(KeyCode::Tab));
    n.handle_key(key(KeyCode::BackTab));
    assert_eq!(n.field, start);
}

#[test]
fn deleting_is_going_right_and_back() {
    let mut a = Input::new("abc");
    let mut b = Input::new("abc");
    for i in [&mut a, &mut b] {
        i.home();
        i.right();
    }
    a.delete();
    b.right();
    b.backspace();
    assert_eq!((a.value(), a.position()), (b.value(), b.position()));
    let mut typed = Input::new("");
    for c in "näme".chars() {
        typed.insert(c);
    }
    assert_eq!((typed.value(), typed.position()), ("näme".to_string(), 4));
}

#[test]
fn the_text_order_is_total_and_transitive() {
    let v = ["", "a", "aa", "ab", "b", "é"];
    for a in v {
        for b in v {
            assert!(in_text_order(a, b) || in_text_order(b, a));
            for c in v {
                assert!(!in_text_order(a, b) || !in_text_order(b, c) || in_text_order(a, c));
            }
        }
    }
}

#[test]
fn filling_a_target_keeps_what_the_host_leaves_open() {
    let mut t = TargetTab::new();
    t.is_remote = true;
    t.ssh_user = Input::new("me");
    t.ssh_port = Input::new("2022");
    t.fill_from_host(&Server { alias: "web".to_string(), host: "10.0.0.9".to_string(), ..Server::default() });
    assert_eq!(t.ssh_host.value(), "10.0.0.9");
    assert_eq!(t.ssh_user.value(), "me");
    assert_eq!(t.ssh_port.value(), "2022");
    let first = t.field;
    t.next_field();
    t.prev_field();
    assert_eq!(t.field, first);
}

#[test]
fn turning_persistence_twice_changes_nothing() {
    let mut k = KernelTuneScreen::new(catalog(), vec![]);
    let change = |key: &str, persist: bool| StagedChange {
        key: key.to_string(),
        previous: "".to_string(),
        value: "1".to_string(),
        persist,
    };
    k.staged = vec![change("a", false), change("b", true)];
    k.handle_key(key(KeyCode::F(3)));
    k.handle_key(key(KeyCode::Char(' ')));
    assert!(k.staged[0].persist);
    k.handle_key(key(KeyCode::Char(' ')));
    assert!(!k.staged[0].persist);
    k.handle_key(key(KeyCode::Tab));
    k.handle_key(key(KeyCode::Enter));
    assert!(k.staged.iter().all(|c| c.persist));
    k.handle_key(key(KeyCode::Enter));
    assert!(k.staged.iter().all(|c| !c.persist));
}

#[test]
fn the_window_of_a_tunable_starts_with_what_is_known() {
    let t = atk_tui::kerneltune_screen::Tunable {
        key: "k".to_string(),
        title: "".to_string(),
        description: "".to_string(),
        why: "".to_string(),
        default_hint: "".to_string(),
        category: 0,
        risk: atk_tui::kerneltune_screen::Risk::Safe,
        always_persists: false,
        profiles: vec![atk_tui::kerneltune_screen::ProfileValue {
            profile: 0,
            value: "9".to_string(),
            note: "".to_string(),
        }],
    };
    let some = |s: &str| Some(s.to_string());
    assert_eq!(DetailModal::open(&t, &some("1"), &some("2"), Some(0)).value.value(), "2");
    assert_eq!(DetailModal::open(&t, &some("1"), &None, Some(0)).value.value(), "1");
    assert_eq!(DetailModal::open(&t, &None, &None, Some(0)).value.value(), "9");
    assert_eq!(DetailModal::open(&t, &None, &None, None).value.value(), "");
}

#[test]
fn labels_default_to_the_alias() {
    let mut tab = ConnectionsTab::new();
    tab.label = Input::new("mine");
    tab.fill_from_host(&Server { alias: "web".to_string(), ..Server::default() });
    assert_eq!(tab.label.value(), "mine");
    tab.label = Input::new("");
    tab.fill_from_host(&Server { alias: "web".to_string(), ..Server::default() });
    assert_eq!(tab.label.value(), "web");
}

#[test]
fn opening_an_entry_of_a_remote_directory_lists_it() {
    let mut l = LogsScreen::new(
        logs_screen::Config { connections: vec![], opened: vec![] },
        vec![Server { alias: "web".to_string(), ..Server::default() }],
        vec!["(all)".to_string()],
    );
    l.handle_key(key(KeyCode::F(2)));
    l.viewer_tab.connection_input = Input::new("web");
    l.viewer_tab.journal = false;
    l.viewer_tab.browser = Some(RemoteBrowser {
        path: "/var/log".to_string(),
        entries: vec![RemoteEntry { name: "syslog".to_string(), is_dir: false }],
        selected: 0,
        loading: false,
        error: None,
    });
    l.handle_key(key(KeyCode::Enter));
    assert!(l.viewer_tab.browser.is_none());
    assert_eq!(l.viewer_tab.path.value(), "/var/log/syslog");
}

#[test]
fn saving_unchanged_tags_keeps_them() {
    let s = Server {
        alias: "a".to_string(),
        tags: vec!["prod".to_string(), "eu".to_string()],
        ..Server::default()
    };
    let mut m = EditTagsModal::new(&s);
    assert_eq!(atk_tui::server_list::parse_csv(&m.tags.value()), s.tags);
    assert!(matches!(m.handle_key(KeyCode::Enter), SmallAction::Nothing));
    assert!(matches!(m.handle_key(KeyCode::Enter), SmallAction::Act));
    let modal = Modal::Edit(ServerForm::new_edit(&s));
    assert!(matches!(modal, Modal::Edit(f) if !f.is_add()));
}

#[test]
fn an_open_dropdown_keeps_the_mouse() {
    let account = cloudflare_screen::Account { id: "1".to_string(), label: "Main".to_string() };
    let mut s = CloudflareScreen::new(cloudflare_screen::Config { accounts: vec![account], opened: vec![] });
    s.handle_key(key(KeyCode::F(2)));
    s.take_requests();
    s.handle_key(key(KeyCode::Enter));
    assert!(s.records_tab.account_dropdown_open);
    s.handle_mouse(MouseEvent { kind: MouseKind::ScrollDown, column: 60, row: 20 }, AREA);
    assert!(s.records_tab.account_dropdown_open);
    s.handle_mouse(click(60, 20), AREA);
    assert!(!s.records_tab.account_dropdown_open);
    assert!(s.records_tab.modal.is_none());
    let m = AddModal::new("");
    assert!(m.field == cloudflare_screen::AddField::Zone);
}
