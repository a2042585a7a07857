use atk_tui::app::App;
use atk_tui::create_db_modal;
use atk_tui::create_db_modal::{CreateDbModal, OptSpec};
use atk_tui::easyssh_screen::{EasySshScreen, Msg};
use atk_tui::event::{KeyCode, KeyEvent};
use atk_tui::geometry::Rect;
use atk_tui::kerneltune_screen::{Catalog, KernelTuneScreen};
use atk_tui::picture::{pad, room, room_of, Op, Picture, Span, Tone};
use atk_tui::servers::Server;

fn texts(p: &Picture) -> String {
    let mut out = String::new();
    let mut add = |lines: &[atk_tui::picture::Line]| {
        for l in lines {
            for s in &l.spans {
                match s {
                    Span::Text { text, .. } => out.push_str(text),
                    Span::Field { input, .. } => out.push_str(&input.value()),
                    Span::Button { label, .. } => out.push_str(label),
                    Span::Tab { label, .. } => out.push_str(label),
                }
                out.push('|');
            }
        }
    };
    for op in &p.ops {
        match op {
            Op::Line { line, .. } => add(std::slice::from_ref(line)),
            Op::Centered { lines, .. } => add(lines),
            Op::Paragraph { lines, .. } => add(lines),
            Op::Table { table, .. } => add(&table.rows),
            Op::List { items, .. } => add(items),
            Op::Menu { items, .. } => {
                for i in items {
                    add(i);
                }
            }
            _ => {}
        }
    }
    out
}

#[test]
fn texts_are_padded_and_fields_get_the_room_left() {
    assert_eq!(pad("ab", 4), "ab  ");
    assert_eq!(pad("abcde", 4), "abcde");
    let row = Rect::new(0, 0, 40, 1);
    assert!(room(row, 12) <= 28);
    assert_eq!(room_of(Rect::new(0, 0, 3, 1), 12, 8), 8);
}

#[test]
fn the_menu_shows_every_tool() {
    let app = App::new(&None);
    let p = app.draw("dark", "", 0, Rect::new(0, 0, 120, 60));
    let all = texts(&p);
    for name in ["SSH Server Manager", "Cloudflare DNS Manager", "Kernel Tuner", "SSL Certificate Manager"] {
        assert!(all.contains(name), "{}", name);
    }
}

#[test]
fn a_tool_shows_its_hosts() {
    let mut s = EasySshScreen::new();
    let host = Server { alias: "web1".to_string(), host: "10.0.0.1".to_string(), ..Server::default() };
    s.tick(vec![Msg::Listed { servers: vec![host], told: true }]);
    let p = s.draw(Rect::new(0, 0, 120, 40));
    assert!(texts(&p).contains("web1"));
    s.handle_key(KeyEvent::plain(KeyCode::Char('d')));
    let with_question = s.draw(Rect::new(0, 0, 120, 40));
    assert!(with_question.ops.len() > p.ops.len());
    assert!(texts(&with_question).contains("Delete"));
}

#[test]
fn a_modal_clears_what_is_below_it() {
    let m = CreateDbModal::new(
        "Create",
        [OptSpec { label: "A:", hint: "", default: "x" }, OptSpec { label: "B:", hint: "", default: "" }],
    );
    let mut p = Picture::empty();
    create_db_modal::draw(&mut p, &m, Rect::new(0, 0, 100, 40));
    assert!(p.ops.iter().any(|o| matches!(o, Op::Clear { .. })));
    assert!(p.ops.iter().any(|o| matches!(o, Op::Panel { title, .. } if title.contains("Create"))));
    assert!(texts(&p).contains("Cancel"));
}

#[test]
fn messages_are_drawn_last() {
    let mut s = KernelTuneScreen::new(Catalog { tunables: vec![], profiles: vec![], categories: vec![] }, vec![]);
    s.request_apply_all();
    let p = s.draw("", 0, Rect::new(0, 0, 120, 40));
    assert!(matches!(p.ops.last(), Some(Op::Message { text, .. }) if text.contains("Nothing staged")));
    assert_ne!(Tone::Bad, Tone::Good);
}
