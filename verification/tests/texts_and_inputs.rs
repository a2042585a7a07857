use atk_tui::cycle::{next_of, prev_of, step};
use atk_tui::event::{KeyCode, KeyEvent, MouseEvent, MouseKind};
use atk_tui::geometry::{centered_rect, Rect};
use atk_tui::log::{is_closing, is_history_scroll, Log};
use atk_tui::mouse::{
    block_inner, button_row_hit, in_rect, label_row_hit, left_click, plain_row_hit, scroll_delta, table_row_hit,
};
use atk_tui::paste::{normalize_paste, paste_keys};
use atk_tui::remote_path::{join_remote_path, parent_of};
use atk_tui::sort::in_text_order;
use atk_tui::target::TargetField;
use atk_tui::text::{
    contains, ends_with, is_absolute, join, lower_contains, number, one_line, signed_number, split, split_lines, split_trimmed, split_words,
    trim, trim_lower, Separator,
};
use atk_tui::widgets::Input;
use atk_tui::wrap::{wrap_text, wrapped_line_count};

fn strings(v: &[&str]) -> Vec<String> {
    v.iter().map(|s| s.to_string()).collect()
}

#[test]
fn trimming_follows_unicode_white_space() {
    assert_eq!(trim("  a b \t\n"), "a b");
    assert_eq!(trim("\u{2003}x\u{a0}"), "x");
    assert_eq!(trim(" \n "), "");
    assert_eq!(trim_lower("  ÄB "), "äb");
}

#[test]
fn numbers_are_written_out() {
    assert_eq!(number(0), "0");
    assert_eq!(number(10), "10");
    assert_eq!(number(u64::MAX), u64::MAX.to_string());
    assert_eq!(signed_number(i64::MIN), i64::MIN.to_string());
    assert_eq!(signed_number(-7), "-7");
    assert_eq!(signed_number(907), "907");
}

#[test]
fn white_space_is_that_of_unicode() {
    for c in (0..0x11_0000u32).filter_map(char::from_u32).filter(|c| c.is_whitespace()) {
        let known = matches!(c, '\u{9}'..='\u{d}' | ' ' | '\u{85}' | '\u{a0}' | '\u{1680}' | '\u{2000}'..='\u{200a}'
            | '\u{2028}' | '\u{2029}' | '\u{202f}' | '\u{205f}' | '\u{3000}');
        assert!(known, "{:?}", c);
        assert_eq!(trim(&format!("{c}x{c}")), "x");
    }
}

#[test]
fn texts_are_searched_and_split() {
    assert!(contains("hello", "ell"));
    assert!(contains("hello", ""));
    assert!(!contains("hello", "elo"));
    assert!(lower_contains("Hello World", "o w"));
    assert!(!lower_contains("Hello", "H"));
    assert!(ends_with("a.json", ".json"));
    assert!(!ends_with("json", ".json"));
    assert!(is_absolute("/etc"));
    assert!(!is_absolute("etc/"));
    assert_eq!(split("a,b,,c", Separator::Comma), strings(&["a", "b", "", "c"]));
    assert_eq!(split_trimmed(" a ; ;b ", Separator::Semicolon), strings(&["a", "b"]));
    assert_eq!(split_words("  one two\tthree "), strings(&["one", "two", "three"]));
    assert_eq!(split_lines("a\nb"), strings(&["a", "b"]));
    assert_eq!(join(&strings(&["a", "b"]), ", "), "a, b");
    assert_eq!(one_line("first\nsecond\r\nthird"), "first second third");
}

#[test]
fn splitting_undoes_joining() {
    let items = strings(&["10.0.0.1", "db", "x y"]);
    assert_eq!(split_trimmed(&join(&items, ", "), Separator::Comma), items);
}

#[test]
fn inputs_are_edited_at_the_cursor() {
    let mut i = Input::new("ab");
    i.edit(KeyCode::Left);
    i.edit(KeyCode::Char('x'));
    assert_eq!(i.value(), "axb");
    assert_eq!(i.position(), 2);
    i.edit(KeyCode::Backspace);
    assert_eq!(i.value(), "ab");
    i.edit(KeyCode::Delete);
    assert_eq!(i.value(), "a");
    i.edit(KeyCode::Home);
    i.edit(KeyCode::Backspace);
    assert_eq!(i.value(), "a");
    i.edit(KeyCode::End);
    i.edit(KeyCode::Delete);
    i.edit(KeyCode::Right);
    assert_eq!((i.value(), i.position()), ("a".to_string(), 1));
    assert!(Input::new("").is_empty());
    assert_eq!(Input::new("  é ").trimmed(), "é");
}

#[test]
fn backspace_undoes_typing() {
    let mut i = Input::new("héllo");
    i.left();
    i.insert('ß');
    i.backspace();
    assert_eq!((i.value(), i.position()), ("héllo".to_string(), 4));
}

#[test]
fn wrapping_keeps_the_words() {
    let lines = wrap_text("the quick brown fox", 9);
    assert_eq!(lines, strings(&["the quick", "brown fox"]));
    assert_eq!(wrap_text("incomprehensible it", 5), strings(&["incomprehensible", "it"]));
    assert_eq!(wrap_text("   ", 5), strings(&[""]));
    assert_eq!(wrap_text("a b", 0), strings(&["a", "b"]));
    assert_eq!(wrapped_line_count("the quick brown fox", 9), 2);
    assert_eq!(wrapped_line_count("one\ntwo", 80), 2);
}

#[test]
fn pastes_become_one_line() {
    assert_eq!(normalize_paste("10.0.0.1\r\n10.0.0.2\n\n 10.0.0.3 "), "10.0.0.1, 10.0.0.2, 10.0.0.3");
    let keys = paste_keys("a\nb");
    let expected: Vec<KeyEvent> = "a, b".chars().map(|c| KeyEvent::plain(KeyCode::Char(c))).collect();
    assert_eq!(keys, expected);
    assert!(paste_keys("\n \r").is_empty());
}

#[test]
fn texts_are_ordered_by_their_characters() {
    assert!(in_text_order("abc", "abd"));
    assert!(in_text_order("ab", "abc"));
    assert!(!in_text_order("b", "abc"));
    assert!(in_text_order("same", "same"));
}

#[test]
fn selections_stop_at_the_ends_and_fields_go_round() {
    assert_eq!(step(0, true, 3), 0);
    assert_eq!(step(2, false, 3), 2);
    assert_eq!(step(1, false, 3), 2);
    assert_eq!(step(1, true, 3), 0);
    assert_eq!(step(0, true, 0), 0);
    let fields = vec![TargetField::Mode, TargetField::SshHost, TargetField::BtnConnect];
    assert_eq!(next_of(&fields, TargetField::BtnConnect), TargetField::Mode);
    assert_eq!(prev_of(&fields, TargetField::Mode), TargetField::BtnConnect);
    assert_eq!(prev_of(&fields, next_of(&fields, TargetField::SshHost)), TargetField::SshHost);
}

#[test]
fn remote_paths_go_up_and_down() {
    assert_eq!(parent_of("/var/log"), "/var");
    assert_eq!(parent_of("/var"), "/");
    assert_eq!(parent_of("/"), "/");
    assert_eq!(join_remote_path("/", "etc"), "/etc");
    assert_eq!(join_remote_path("/var/", "log"), "/var/log");
    assert_eq!(parent_of(&join_remote_path("/srv/www", "site")), "/srv/www");
}

#[test]
fn rows_and_labels_are_hit_where_they_are() {
    let down = MouseEvent { kind: MouseKind::LeftDown, column: 4, row: 7 };
    assert_eq!(left_click(&down), Some((4, 7)));
    assert_eq!(scroll_delta(&down), None);
    let wheel = MouseEvent { kind: MouseKind::ScrollUp, column: 0, row: 0 };
    assert_eq!(left_click(&wheel), None);
    assert_eq!(scroll_delta(&wheel), Some(-1));
    assert_eq!(scroll_delta(&MouseEvent { kind: MouseKind::ScrollDown, column: 0, row: 0 }), Some(1));

    let area = Rect::new(2, 3, 20, 10);
    assert!(in_rect(area, 2, 3));
    assert!(!in_rect(area, 22, 3));
    assert_eq!(block_inner(area), Rect::new(3, 4, 18, 8));
    assert_eq!(block_inner(Rect::new(0, 0, 1, 1)).width, 0);

    let row = Rect::new(10, 5, 40, 1);
    // "[ One ]" is 7 columns wide and the gap between buttons is two.
    assert_eq!(button_row_hit(10, 5, row, &["One", "Two"]), Some(0));
    assert_eq!(button_row_hit(16, 5, row, &["One", "Two"]), Some(0));
    assert_eq!(button_row_hit(17, 5, row, &["One", "Two"]), None);
    assert_eq!(button_row_hit(19, 5, row, &["One", "Two"]), Some(1));
    assert_eq!(button_row_hit(10, 6, row, &["One", "Two"]), None);
    assert_eq!(label_row_hit(10, 5, row, &["One", "Two"]), Some(0));
    assert_eq!(label_row_hit(50, 5, row, &["One", "Two"]), None);

    assert_eq!(plain_row_hit(5, 4, Rect::new(0, 4, 10, 3), 2), Some(0));
    assert_eq!(plain_row_hit(5, 6, Rect::new(0, 4, 10, 3), 2), None);
    // A table has a border and a heading above its first row.
    let table = Rect::new(0, 0, 30, 10);
    assert_eq!(table_row_hit(3, 2, table, 1, 4, 0), Some(0));
    assert_eq!(table_row_hit(3, 1, table, 1, 4, 0), None);
    assert_eq!(table_row_hit(3, 5, table, 1, 4, 0), Some(3));
    assert_eq!(table_row_hit(3, 6, table, 1, 4, 0), None);
}

#[test]
fn modals_are_centered_and_fit() {
    assert_eq!(centered_rect(20, 10, Rect::new(0, 0, 100, 40)), Rect::new(40, 15, 20, 10));
    assert_eq!(centered_rect(200, 100, Rect::new(3, 4, 50, 20)), Rect::new(3, 4, 50, 20));
}

#[test]
fn errors_are_shown_and_kept() {
    let mut log = Log::new();
    log.say(true, "fine");
    log.error("first line\nsecond line");
    assert_eq!(log.history.last().map(|l| l.0), Some(false));
    assert_eq!(log.history.len(), 2);
    assert_eq!(log.alert.as_ref().map(|a| a.1.as_str()), Some("first line\nsecond line"));
    log.dismiss();
    assert!(log.alert.is_none());
    assert_eq!(log.history.len(), 2);
    assert_eq!(log.text(), "fine\nfirst line\nsecond line");
    log.scroll_by(true);
    log.scroll_by(true);
    log.scroll_by(false);
    assert_eq!(log.scroll, 3);
    log.scroll_by(false);
    log.scroll_by(false);
    assert_eq!(log.scroll, 0);
}

#[test]
fn message_boxes_close_on_a_few_keys() {
    assert!(is_closing(KeyCode::Esc));
    assert!(is_closing(KeyCode::Enter));
    assert!(!is_closing(KeyCode::Char('x')));
    assert!(is_history_scroll(&KeyEvent { code: KeyCode::Up, control: true }));
    assert!(!is_history_scroll(&KeyEvent::plain(KeyCode::Up)));
    assert!(KeyEvent { code: KeyCode::Char('y'), control: true }.is_chord('y'));
    assert!(!KeyEvent::plain(KeyCode::Char('y')).is_chord('y'));
}
