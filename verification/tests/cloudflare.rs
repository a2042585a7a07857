use atk_tui::cloudflare_screen::{
    filtered_accounts, filtered_zones, zone_id_for, Account, AccountWithSecret, AddAction, AddField, AddModal,
    CloudflareScreen, Config, EditAction, EditField, EditModal, Msg, RecordModal, Request, Tab, TypeFilter,
};
use atk_tui::dns_record::{
    fmt_ttl, form_field_list, is_proxiable, parse_i64_field, CaaTag, DnsRecord, FormField, RecordForm, RecordType, Zone,
};
use atk_tui::event::{KeyCode, KeyEvent, MouseEvent, MouseKind};
use atk_tui::geometry::Rect;
use atk_tui::widgets::Input;

fn key(code: KeyCode) -> KeyEvent {
    KeyEvent::plain(code)
}

fn record(type_: &str, sub: &str, value: &str) -> DnsRecord {
    DnsRecord {
        id: "r1".to_string(),
        zone_id: "z1".to_string(),
        account_label: "Main".to_string(),
        domain: "example.com".to_string(),
        subdomain: sub.to_string(),
        type_: type_.to_string(),
        value: value.to_string(),
        ttl: 300,
        proxied: false,
        priority: None,
        weight: None,
        port: None,
        flags: None,
        tag: None,
    }
}

fn config() -> Config {
    let account = |id: &str, label: &str| Account { id: id.to_string(), label: label.to_string() };
    let opened = |id: &str, label: &str| AccountWithSecret {
        id: id.to_string(),
        label: label.to_string(),
        api_token: format!("token-{id}"),
    };
    Config {
        accounts: vec![account("1", "Main"), account("2", "Side")],
        opened: vec![opened("1", "Main"), opened("2", "Side")],
    }
}

fn zones() -> Vec<Zone> {
    vec![
        Zone { id: "z1".to_string(), name: "example.com".to_string() },
        Zone { id: "z2".to_string(), name: "example.org".to_string() },
    ]
}

fn last_line(s: &CloudflareScreen) -> (bool, String) {
    s.log.history[s.log.history.len() - 1].clone()
}

fn type_in(form: &mut RecordForm, field: FormField, text: &str) {
    for c in text.chars() {
        form.edit(field, KeyCode::Char(c));
    }
}

#[test]
fn record_types_cycle_and_have_names() {
    assert_eq!(RecordType::A.preceding(), RecordType::Caa);
    assert_eq!(RecordType::Caa.following(), RecordType::A);
    assert_eq!(RecordType::from_name("SRV"), RecordType::Srv);
    assert_eq!(RecordType::from_name("unknown"), RecordType::A);
    assert_eq!(RecordType::Cname.label(), "CNAME");
    assert!(is_proxiable("AAAA"));
    assert!(!is_proxiable("MX"));
    assert_eq!(CaaTag::from_name(&Some("iodef".to_string())).label(), "iodef");
    assert_eq!(CaaTag::Issue.cycled(false).cycled(true), CaaTag::Issue);
    assert_eq!(TypeFilter::All.following().label(), "A");
    assert_eq!(TypeFilter::All.preceding().label(), "CAA");
    assert!(matches!(TypeFilter::All.following().preceding(), TypeFilter::All));
}

#[test]
fn ttls_are_written_out() {
    assert_eq!(fmt_ttl(1), "Auto");
    assert_eq!(fmt_ttl(300), "300");
    assert_eq!(fmt_ttl(-5), "-5");
}

#[test]
fn forms_become_payloads() {
    let mut f = RecordForm::new();
    assert_eq!(f.parse_modal_record().err(), Some("Value is required".to_string()));
    type_in(&mut f, FormField::Value, " 10.0.0.1 ");
    type_in(&mut f, FormField::Name, "www");
    let r = f.parse_modal_record().ok();
    assert!(r.is_some_and(|r| r.type_ == "A" && r.value == "10.0.0.1" && r.subdomain == "www" && r.ttl == 1));
    f.ttl = Input::new("soon");
    assert!(f.parse_modal_record().is_err());
    f.ttl = Input::new("0");
    assert!(f.parse_modal_record().is_err());
    f.ttl = Input::new("120");
    f.kind = RecordType::Mx;
    assert!(f.parse_modal_record().is_ok_and(|r| r.priority == Some(10) && r.ttl == 120 && !r.proxied));
    f.priority = Input::new("x");
    assert_eq!(f.parse_modal_record().err(), Some("Priority must be a number".to_string()));
    assert_eq!(parse_i64_field(&Input::new(" 7 "), "Port"), Ok(7));
    assert_eq!(parse_i64_field(&Input::new("99999999999999999999"), "Port"), Err("Port must be a number".to_string()));
}

#[test]
fn updating_an_unchanged_record_changes_nothing() {
    let mut srv = record("SRV", "_sip._tcp", "sip.example.com");
    srv.priority = Some(5);
    srv.weight = Some(-3);
    srv.port = Some(5060);
    let r = EditModal::new(&srv).form.parse_modal_record().ok();
    assert!(r.is_some_and(|r| {
        r.type_ == "SRV"
            && r.subdomain == "_sip._tcp"
            && r.value == "sip.example.com"
            && r.ttl == 300
            && (r.priority, r.weight, r.port) == (Some(5), Some(-3), Some(5060))
            && r.flags.is_none()
            && r.tag.is_none()
    }));
    let mut caa = record("CAA", "@", "letsencrypt.org");
    caa.flags = Some(0);
    caa.tag = Some("issuewild".to_string());
    let r = EditModal::new(&caa).form.parse_modal_record().ok();
    assert!(r.is_some_and(|r| r.flags == Some(0) && r.tag == Some("issuewild".to_string())));
}

#[test]
fn forms_hold_the_inputs_of_their_type() {
    assert!(form_field_list(RecordType::A).contains(&FormField::Proxied));
    assert!(!form_field_list(RecordType::Txt).contains(&FormField::Proxied));
    assert!(form_field_list(RecordType::Srv).contains(&FormField::Weight));
    assert!(form_field_list(RecordType::Caa).contains(&FormField::Tag));
    let mut f = RecordForm::new();
    f.switch(FormField::Type, true);
    assert_eq!(f.kind, RecordType::Caa);
    type_in(&mut f, FormField::Value, "x");
    f.clear_inputs();
    assert_eq!(f.kind, RecordType::Caa);
    assert!(f.value.is_empty());
}

#[test]
fn accounts_and_zones_are_searched() {
    assert_eq!(filtered_accounts(&config(), "SI"), vec!["Side".to_string()]);
    assert_eq!(filtered_accounts(&config(), "").len(), 2);
    assert_eq!(filtered_zones(&zones(), "org"), vec!["example.org".to_string()]);
    assert_eq!(zone_id_for(&zones(), "example.org"), Some("z2".to_string()));
    assert_eq!(zone_id_for(&zones(), "missing"), None);
    assert_eq!(config().with_secret("2").map(|a| a.api_token), Some("token-2".to_string()));
}

#[test]
fn accounts_are_saved_with_label_and_token() {
    let mut s = CloudflareScreen::new(config());
    s.trigger_save_account();
    assert_eq!(s.log.alert.as_ref().map(|a| a.1.as_str()), Some("Label is required"));
    s.log.dismiss();
    s.accounts_tab.label = Input::new("New");
    s.trigger_save_account();
    assert_eq!(s.log.alert.as_ref().map(|a| a.1.as_str()), Some("API Token is required"));
    s.log.dismiss();
    s.accounts_tab.selected = Some(0);
    s.trigger_save_account();
    assert_eq!(
        s.log.alert.as_ref().map(|a| a.1.as_str()),
        Some("API Token is required to update (re-enter it)")
    );
    s.log.dismiss();
    s.accounts_tab.api_token = Input::new(" t ");
    s.trigger_save_account();
    assert!(matches!(
        &s.take_requests()[..],
        [Request::SaveAccount { id: Some(id), label, api_token }] if id == "1" && label == "New" && api_token == "t"
    ));
    s.accounts_tab.api_token = Input::new("");
    s.trigger_test_token();
    assert!(matches!(&s.take_requests()[..], [Request::TestToken(t)] if t == "token-1"));
    s.tick(vec![Msg::TokenValid(3), Msg::TokenFailed("bad\ntoken".to_string())]);
    assert_eq!(last_line(&s), (false, "Token test failed: bad token".to_string()));
}

#[test]
fn records_load_themselves_once() {
    let mut s = CloudflareScreen::new(config());
    s.handle_key(key(KeyCode::F(2)));
    assert!(matches!(&s.take_requests()[..], [Request::FetchAll(all)] if all.len() == 2));
    s.tick(vec![Msg::Records { records: vec![record("A", "www", "1.1.1.1")], zones: 1, skipped: 0 }]);
    s.handle_key(key(KeyCode::F(1)));
    s.handle_key(key(KeyCode::F(2)));
    assert!(s.take_requests().is_empty());
    let mut empty = CloudflareScreen::new(Config { accounts: vec![], opened: vec![] });
    empty.handle_key(key(KeyCode::F(2)));
    assert!(empty.take_requests().is_empty());
    assert!(empty.log.alert.is_none());
}

#[test]
fn filters_narrow_the_table() {
    let mut s = CloudflareScreen::new(config());
    let mut side = record("MX", "@", "mail.example.com");
    side.account_label = "Side".to_string();
    s.tick(vec![Msg::Records { records: vec![record("A", "www", "1.1.1.1"), side], zones: 1, skipped: 0 }]);
    assert_eq!(s.visible_rows().len(), 2);
    s.records_tab.account_input = Input::new("nobody");
    assert_eq!(s.visible_rows().len(), 2);
    s.records_tab.account_input = Input::new("Side");
    assert_eq!(s.visible_rows().len(), 1);
    s.records_tab.account_input = Input::new("");
    s.records_tab.type_filter = TypeFilter::Only(RecordType::A);
    assert_eq!(s.visible_rows()[0].type_, "A");
    s.records_tab.type_filter = TypeFilter::All;
    s.records_tab.search = Input::new("MAIL");
    assert_eq!(s.visible_rows()[0].type_, "MX");
}

#[test]
fn picking_an_account_fetches() {
    let mut s = CloudflareScreen::new(config());
    s.handle_key(key(KeyCode::F(2)));
    s.take_requests();
    s.handle_key(key(KeyCode::Char('s')));
    assert!(s.records_tab.account_dropdown_open);
    s.handle_key(key(KeyCode::Enter));
    assert_eq!(s.records_tab.account_input.value(), "Side");
    let asked = s.take_requests();
    assert!(asked.iter().any(|r| matches!(r, Request::ListZones(a) if a.id == "2")));
    assert!(asked.iter().any(|r| matches!(r, Request::FetchAccount(a) if a.id == "2")));
}

#[test]
fn staged_records_need_two_attempts_to_discard() {
    let mut m = AddModal::new("example.com");
    assert!(matches!(m.handle_key(KeyCode::Esc, false, &vec![]), AddAction::Close));
    m.form.value = Input::new("1.1.1.1");
    m.field = AddField::BtnStage;
    assert!(matches!(m.handle_key(KeyCode::Enter, false, &vec![]), AddAction::Nothing));
    assert_eq!(m.pending.len(), 1);
    assert!(m.form.value.is_empty());
    assert!(matches!(m.handle_key(KeyCode::Esc, false, &vec![]), AddAction::Nothing));
    assert!(m.confirm_discard);
    m.handle_key(KeyCode::Tab, false, &vec![]);
    assert!(!m.confirm_discard);
    assert!(matches!(m.handle_key(KeyCode::Esc, false, &vec![]), AddAction::Nothing));
    assert!(matches!(m.handle_key(KeyCode::Esc, false, &vec![]), AddAction::Close));
    m.field = AddField::PendingList;
    m.handle_key(KeyCode::Delete, false, &vec![]);
    assert!(m.pending.is_empty());
    m.field = AddField::BtnStage;
    assert!(matches!(
        m.handle_key(KeyCode::Enter, false, &vec![]),
        AddAction::Complain(e) if e == "Value is required"
    ));
}

#[test]
fn clicking_a_button_of_a_record_is_pressing_it() {
    let area = Rect::new(0, 0, 120, 40);
    let mut s = CloudflareScreen::new(config());
    let mut m = EditModal::new(&record("A", "www", "1.1.1.1"));
    let rows = s.layout(area).edit;
    let at = |x: u16| MouseEvent { kind: MouseKind::LeftDown, column: rows[6].x + x, row: rows[6].y };
    assert!(matches!(m.handle_mouse(&at(0), &rows), EditAction::Update));
    assert_eq!(m.field, EditField::BtnUpdate);
    assert!(matches!(m.handle_mouse(&at(13), &rows), EditAction::Delete));
    assert!(matches!(m.handle_mouse(&at(25), &rows), EditAction::Close));
    s.records_tab.modal = Some(RecordModal::Edit(m));
    s.records_tab.account_input = Input::new("Main");
    s.handle_key(key(KeyCode::Esc));
    assert!(matches!(s.tab, Tab::Accounts));
}

#[test]
fn a_record_is_deleted_in_its_zone() {
    let mut s = CloudflareScreen::new(config());
    s.tick(vec![Msg::Records { records: vec![record("A", "www", "1.1.1.1")], zones: 1, skipped: 0 }]);
    s.handle_key(key(KeyCode::F(2)));
    let mut m = EditModal::new(&record("A", "www", "1.1.1.1"));
    m.field = EditField::BtnDelete;
    s.records_tab.modal = Some(RecordModal::Edit(m));
    s.handle_key(key(KeyCode::Enter));
    assert_eq!(s.log.alert.as_ref().map(|a| a.1.as_str()), Some("Select a valid account"));
    assert!(s.records_tab.modal.is_some());
    s.log.dismiss();
    s.records_tab.account_input = Input::new("Main");
    s.handle_key(key(KeyCode::Enter));
    assert!(s.records_tab.modal.is_none());
    assert!(matches!(
        &s.take_requests()[..],
        [Request::DeleteRecord { account, original, refresh }]
            if account.id == "1" && original.id == "r1" && refresh == "example.com"
    ));
}

#[test]
fn a_record_modal_covers_the_tab() {
    let area = Rect { x: 0, y: 0, width: 120, height: 50 };
    let mut s = CloudflareScreen::new(config());
    s.tab = Tab::Records;
    s.records_tab.rows = vec![record("A", "a", "1.1.1.1"), record("A", "b", "2.2.2.2")];
    let l = s.layout(area);
    let table = l.records[2];
    let wheel = MouseEvent { kind: MouseKind::ScrollDown, column: table.x + 2, row: table.y + 2 };
    let search = MouseEvent { kind: MouseKind::LeftDown, column: l.search[0].x, row: l.search[0].y };
    let before = s.records_tab.field;

    s.records_tab.modal = Some(RecordModal::Add(AddModal::new("example.com")));
    s.handle_records_mouse(wheel, &l);
    s.handle_records_mouse(search, &l);
    assert_eq!(s.records_tab.selected_row, 0);
    assert!(s.records_tab.field == before);
    assert!(s.records_tab.modal.is_some());
    assert!(s.take_requests().is_empty());

    s.records_tab.modal = None;
    s.handle_records_mouse(wheel, &l);
    assert_eq!(s.records_tab.selected_row, 1);
    s.handle_records_mouse(search, &l);
    assert!(s.records_tab.field != before);
}
