use atk_tui::create_db_modal::{layout, CreateDbAction, CreateDbField, CreateDbModal, OptSpec};
use atk_tui::event::{KeyCode, KeyEvent, MouseEvent, MouseKind};
use atk_tui::geometry::Rect;

fn modal() -> CreateDbModal {
    CreateDbModal::new(
        "Test",
        [
            OptSpec { label: "A:", hint: "", default: "dflt" },
            OptSpec { label: "B:", hint: "", default: "" },
        ],
    )
}

fn key(code: KeyCode) -> KeyEvent {
    KeyEvent::plain(code)
}

fn type_str(m: &mut CreateDbModal, s: &str) {
    for c in s.chars() {
        assert!(matches!(m.handle_key(key(KeyCode::Char(c))), CreateDbAction::Nothing));
    }
}

#[test]
fn prefills_defaults_and_trims_values() {
    let mut m = modal();
    type_str(&mut m, "  shop ");
    m.handle_key(key(KeyCode::Tab));
    m.handle_key(key(KeyCode::Tab));
    type_str(&mut m, "x");
    assert_eq!(m.values(), ("shop".to_string(), "dflt".to_string(), "x".to_string()));
}

#[test]
fn enter_on_buttons_submits_or_closes() {
    let mut m = modal();
    // Enter on an input just advances focus.
    assert!(matches!(m.handle_key(key(KeyCode::Enter)), CreateDbAction::Nothing));
    assert!(m.field == CreateDbField::Opt1);
    m.handle_key(key(KeyCode::BackTab));
    m.handle_key(key(KeyCode::BackTab));
    assert!(m.field == CreateDbField::BtnCancel);
    assert!(matches!(m.handle_key(key(KeyCode::Enter)), CreateDbAction::Close));
    m.handle_key(key(KeyCode::Up));
    assert!(m.field == CreateDbField::BtnCreate);
    assert!(matches!(m.handle_key(key(KeyCode::Enter)), CreateDbAction::Submit));
    assert!(matches!(m.handle_key(key(KeyCode::Esc)), CreateDbAction::Close));
}

#[test]
fn mouse_hits_fields_and_buttons() {
    let area = Rect::new(0, 0, 100, 40);
    let rows = layout(area);
    let click = |x: u16, y: u16| MouseEvent { kind: MouseKind::LeftDown, column: x, row: y };
    let mut m = modal();
    assert!(matches!(m.handle_mouse(&click(rows[5].x + 1, rows[5].y), area), CreateDbAction::Nothing));
    assert!(m.field == CreateDbField::Opt2);
    // "[ Create ]" starts at the row's left edge; "[ Cancel ]" follows a 2-col gap.
    assert!(matches!(m.handle_mouse(&click(rows[9].x + 1, rows[9].y), area), CreateDbAction::Submit));
    assert!(matches!(m.handle_mouse(&click(rows[9].x + 13, rows[9].y), area), CreateDbAction::Close));
}
