use atk_tui::app::{Answers, App, CLICK_DEBOUNCE};
use atk_tui::cloudflare_screen;
use atk_tui::event::{KeyCode, KeyEvent, MouseEvent, MouseKind};
use atk_tui::geometry::Rect;
use atk_tui::home::{description_width, home_layout, item_heights, load_order, save_order, HomeState};
use atk_tui::screen::{
    default_order, order_from_keys, order_keys, screen_about, screen_from_key, screen_key, screen_program,
    screen_title, Screen,
};

fn key(code: KeyCode) -> KeyEvent {
    KeyEvent::plain(code)
}

fn chord(c: char) -> KeyEvent {
    KeyEvent { code: KeyCode::Char(c), control: true }
}

fn click(x: u16, y: u16) -> MouseEvent {
    MouseEvent { kind: MouseKind::LeftDown, column: x, row: y }
}

fn nothing() -> Answers {
    Answers { easyssh: vec![], cloudflare: vec![], clickhouse: vec![], logs: vec![], kerneltune: vec![] }
}

#[test]
fn screens_have_keys_and_names() {
    for s in default_order() {
        assert_eq!(screen_from_key(screen_key(s)), Some(s));
        assert!(!screen_title(s).is_empty());
        assert!(!screen_about(s).is_empty());
        assert!(!screen_program(s).is_empty());
    }
    assert_eq!(screen_from_key("home"), None);
    assert_eq!(screen_from_key("nonsense"), None);
    assert_eq!(screen_key(Screen::ClickHouse), "clickhouse");
    assert_eq!(screen_title(Screen::KernelTune), "Kernel Tuner");
}

#[test]
fn saved_orders_are_completed() {
    // Unknown and repeated keys are dropped; missing tools come at the end.
    let keys = Some(vec!["logs".to_string(), "gone".to_string(), "logs".to_string(), "mysql".to_string()]);
    let order = order_from_keys(&keys);
    assert_eq!(order[..2], [Screen::Logs, Screen::Mysql]);
    assert_eq!(order[2], Screen::EasySsh);
    assert_eq!(order.len(), default_order().len());
    assert_eq!(order_from_keys(&None), default_order());
}

#[test]
fn loading_undoes_saving() {
    let mut order = default_order();
    order.swap(0, 5);
    let document = save_order(&order);
    assert!(document.contains("\"easyssh\""));
    assert_eq!(load_order(&Some(document)), order);
    assert_eq!(order_keys(&order)[5], "easyssh");
}

#[test]
fn broken_documents_give_the_default_order() {
    assert_eq!(load_order(&Some("not json".to_string())), default_order());
    assert_eq!(load_order(&Some("{\"a\": 1}".to_string())), default_order());
    assert_eq!(load_order(&Some("[1, 2]".to_string())), default_order());
    assert_eq!(load_order(&Some("[\"sslcert\"]".to_string()))[0], Screen::SslCert);
    assert_eq!(load_order(&None), default_order());
}

#[test]
fn the_menu_opens_tools() {
    let mut h = HomeState::new(&None);
    assert_eq!(h.handle_key(key(KeyCode::Enter)), Some(Screen::EasySsh));
    assert_eq!(h.handle_key(key(KeyCode::Char('3'))), Some(Screen::Cloudflare));
    assert_eq!(h.handle_key(key(KeyCode::Char('0'))), None);
    assert_eq!(h.handle_key(key(KeyCode::Up)), None);
    assert_eq!(h.selected, 0);
    assert_eq!(h.handle_key(key(KeyCode::Char('j'))), None);
    assert_eq!(h.selected, 1);
    assert_eq!(h.handle_key(key(KeyCode::Enter)), Some(Screen::SshUser));
    assert_eq!(h.take_unsaved(), None);
}

#[test]
fn reordering_is_saved_and_can_be_undone() {
    let mut h = HomeState::new(&None);
    h.handle_key(key(KeyCode::Char('J')));
    assert_eq!(h.order[..2], [Screen::SshUser, Screen::EasySsh]);
    assert_eq!(h.selected, 1);
    let saved = h.take_unsaved();
    assert!(saved.is_some());
    assert_eq!(HomeState::new(&saved).order, h.order);
    assert_eq!(h.take_unsaved(), None);
    h.handle_key(key(KeyCode::Char('K')));
    assert_eq!(h.order, default_order());
    assert_eq!(h.selected, 0);
}

#[test]
fn clicks_on_the_menu_open_what_is_under_them() {
    let area = Rect::new(0, 0, 100, 60);
    let list = home_layout(area)[1];
    let mut h = HomeState::new(&None);
    let heights = item_heights(&h.order, description_width(list.width));
    assert_eq!(heights.len(), 10);
    let first = MouseEvent { kind: MouseKind::LeftDown, column: list.x + 5, row: list.y + 1 };
    assert_eq!(h.handle_mouse(first, area), Some(Screen::EasySsh));
    let second = MouseEvent { row: list.y + 1 + heights[0] as u16, ..first };
    assert_eq!(h.handle_mouse(second, area), Some(Screen::SshUser));
    assert_eq!(h.selected, 1);
    let wheel = MouseEvent { kind: MouseKind::ScrollDown, ..first };
    assert_eq!(h.handle_mouse(wheel, area), None);
    assert_eq!(h.selected, 2);
    assert_eq!(h.handle_mouse(click(0, 0), area), None);
}

#[test]
fn control_c_quits_and_esc_leaves_a_tool() {
    let mut app = App::new(&None);
    app.handle_key(key(KeyCode::Enter), None);
    assert_eq!(app.screen, Screen::EasySsh);
    assert!(app.easyssh.is_some());
    app.handle_key(key(KeyCode::Esc), None);
    assert_eq!(app.screen, Screen::Home);
    assert!(!app.should_quit);
    assert!(app.easyssh.is_some());
    app.handle_key(chord('c'), None);
    assert!(app.should_quit);
}

#[test]
fn the_menu_is_left_by_q_or_esc() {
    for code in [KeyCode::Char('q'), KeyCode::Esc] {
        let mut app = App::new(&None);
        app.handle_key(key(code), None);
        assert!(app.should_quit);
    }
    let mut app = App::new(&None);
    app.handle_key(key(KeyCode::Char('x')), None);
    assert!(!app.should_quit);
}

#[test]
fn the_mouse_is_turned_off_and_on() {
    let mut app = App::new(&None);
    assert!(!app.mouse_enabled);
    app.handle_key(key(KeyCode::F(12)), None);
    assert!(app.mouse_enabled);
    app.handle_key(key(KeyCode::F(12)), None);
    assert!(!app.mouse_enabled);
}

#[test]
fn repeated_presses_are_one_click() {
    let area = Rect::new(0, 0, 100, 60);
    let list = home_layout(area)[1];
    let mut app = App::new(&None);
    let press = click(list.x + 5, list.y + 1);
    app.handle_mouse(press, area, 1000);
    assert_eq!(app.screen, Screen::EasySsh);
    app.handle_key(key(KeyCode::Esc), None);
    app.handle_mouse(press, area, 1000 + CLICK_DEBOUNCE - 1);
    assert_eq!(app.screen, Screen::Home);
    app.handle_mouse(press, area, 1000 + 3 * CLICK_DEBOUNCE);
    assert_eq!(app.screen, Screen::EasySsh);
}

#[test]
fn tools_that_need_settings_ask_for_them() {
    let mut app = App::new(&None);
    app.handle_key(key(KeyCode::Char('3')), None);
    assert_eq!(app.screen, Screen::Cloudflare);
    assert_eq!(app.wants(), Some(Screen::Cloudflare));
    app.open_cloudflare(cloudflare_screen::Config { accounts: vec![], opened: vec![] });
    assert_eq!(app.wants(), None);
    assert!(app.cloudflare.is_some());
    app.tick(nothing(), 0);
    app.handle_key(key(KeyCode::Esc), None);
    assert_eq!(app.screen, Screen::Home);
}

#[test]
fn screens_kept_elsewhere_say_when_they_are_left() {
    let mut app = App::new(&None);
    app.handle_key(key(KeyCode::Char('4')), None);
    assert_eq!(app.screen, Screen::GoDaddy);
    app.handle_key(key(KeyCode::Char('x')), Some(false));
    assert_eq!(app.screen, Screen::GoDaddy);
    assert!(app.handle_mouse(click(1, 1), Rect::new(0, 0, 80, 24), 0));
    app.handle_key(key(KeyCode::Esc), Some(true));
    assert_eq!(app.screen, Screen::Home);
}

#[test]
fn a_scrolled_menu_opens_what_it_shows() {
    let area = Rect::new(0, 0, 100, 20);
    let list = home_layout(area)[1];
    let mut h = HomeState::new(&None);
    for _ in 0..9 {
        h.handle_key(key(KeyCode::Down));
    }
    let heights = item_heights(&h.order, description_width(list.width));
    let room = list.height as usize - 2;
    // The list ends with the last tool, and starts with the first one that fits above it.
    let mut first = 9;
    while heights[first - 1..].iter().sum::<usize>() <= room {
        first -= 1;
    }
    let top = click(list.x + 5, list.y + 1);
    assert_eq!(h.handle_mouse(top, area), Some(h.order[first]));
    assert_eq!(h.selected, first);
    let mut low = HomeState::new(&None);
    low.selected = 9;
    let lines: usize = heights[first..].iter().sum();
    let last = click(list.x + 5, list.y + lines as u16);
    assert_eq!(low.handle_mouse(last, area), Some(Screen::SslCert));
}

#[test]
fn pasting_is_typing() {
    let mut typed = App::new(&None);
    typed.handle_key(key(KeyCode::Enter), None);
    let mut pasted = App::new(&None);
    pasted.handle_key(key(KeyCode::Enter), None);
    for c in "/web, db".chars() {
        typed.handle_key(key(KeyCode::Char(c)), None);
    }
    assert!(pasted.handle_paste("/web\ndb\n").is_empty());
    let search = |a: &App| a.easyssh.as_ref().map(|s| s.search.value());
    assert_eq!(search(&pasted), search(&typed));
    assert_eq!(search(&pasted), Some("web, db".to_string()));
    // What leads to a screen that waits for its settings is left.
    let mut home = App::new(&None);
    let rest = home.handle_paste("3ab");
    assert_eq!(home.screen, Screen::Cloudflare);
    assert_eq!(rest.len(), 2);
    home.open_cloudflare(cloudflare_screen::Config { accounts: vec![], opened: vec![] });
    assert!(home.feed(rest).is_empty());
}
