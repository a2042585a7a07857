use atk_tui::event::{KeyCode, KeyEvent, MouseEvent, MouseKind};
use atk_tui::geometry::Rect;
use atk_tui::kerneltune_screen::{
    cycle_choice, filtered_history, find_staged, find_value, mem_size, relative_time, ApplyItem, Catalog, HistoryEntry,
    KernelTuneScreen, MemSize, Msg, ProfileValue, Request, Risk, StagedChange, Tab, TargetInfo, Tunable,
};

fn key(code: KeyCode) -> KeyEvent {
    KeyEvent::plain(code)
}

fn tunable(key: &str, risk: Risk, recommended: Option<&str>) -> Tunable {
    Tunable {
        key: key.to_string(),
        title: format!("Title of {key}"),
        description: "".to_string(),
        why: "".to_string(),
        default_hint: "".to_string(),
        category: 0,
        risk,
        always_persists: false,
        profiles: match recommended {
            Some(v) => vec![ProfileValue { profile: 1, value: v.to_string(), note: "".to_string() }],
            None => vec![],
        },
    }
}

fn catalog() -> Catalog {
    Catalog {
        tunables: vec![
            tunable("vm.swappiness", Risk::Safe, Some("10")),
            tunable("net.core.somaxconn", Risk::Safe, None),
            tunable("kernel.panic", Risk::Caution, Some("5")),
        ],
        profiles: vec!["Desktop".to_string(), "Database".to_string()],
        categories: vec!["General".to_string(), "Network".to_string()],
    }
}

fn entry(target: &str, key: &str) -> HistoryEntry {
    HistoryEntry {
        target: target.to_string(),
        key: key.to_string(),
        title: "".to_string(),
        previous_value: "60".to_string(),
        new_value: "10".to_string(),
        persisted: false,
        when: "0".to_string(),
    }
}

fn connected() -> KernelTuneScreen {
    let mut s = KernelTuneScreen::new(catalog(), vec![entry("local", "vm.swappiness"), entry("web", "kernel.panic")]);
    let info = TargetInfo {
        os_pretty: "Linux".to_string(),
        kernel: "6.1".to_string(),
        arch: "x86_64".to_string(),
        cpus: "4".to_string(),
        mem_total_kb: "8000000".to_string(),
    };
    let values = vec![("vm.swappiness".to_string(), "60".to_string())];
    s.tick(vec![Msg::Connected { label: "local".to_string(), info, values }]);
    s.take_requests();
    s
}

#[test]
fn sizes_and_ages_are_rounded_down() {
    assert!(matches!(mem_size("2048"), MemSize::Megabytes(2)));
    assert!(matches!(mem_size(" 1048575 "), MemSize::Megabytes(1023)));
    assert!(matches!(mem_size("1048576"), MemSize::Gigabytes(1048576)));
    assert!(matches!(mem_size("lots"), MemSize::Unknown));
    assert_eq!(relative_time("100", 159), "59s ago");
    assert_eq!(relative_time("100", 160), "1m ago");
    assert_eq!(relative_time("0", 3600), "1h ago");
    assert_eq!(relative_time("0", 90000), "1d ago");
    assert_eq!(relative_time("500", 100), "0s ago");
    assert_eq!(relative_time("whenever", 100), "whenever");
}

#[test]
fn filter_choices_cycle() {
    assert_eq!(cycle_choice(None, false, 2), Some(0));
    assert_eq!(cycle_choice(Some(1), false, 2), None);
    assert_eq!(cycle_choice(None, true, 2), Some(1));
    assert_eq!(cycle_choice(Some(0), true, 2), None);
    assert_eq!(cycle_choice(None, false, 0), None);
}

#[test]
fn the_catalog_is_filtered() {
    let c = catalog();
    let mut s = KernelTuneScreen::new(catalog(), vec![]);
    assert_eq!(s.catalog_tab.filtered(&c).len(), 3);
    s.catalog_tab.cycle_profile(true, &c);
    assert_eq!(s.catalog_tab.profile_filter, Some(1));
    assert_eq!(s.catalog_tab.filtered(&c).len(), 2);
    s.catalog_tab.cycle_category(true, &c);
    assert!(s.catalog_tab.filtered(&c).is_empty());
    assert_eq!(c.find("kernel.panic").map(|t| t.title.clone()), Some("Title of kernel.panic".to_string()));
    assert_eq!(c.tunables[0].recommended_for(1), Some("10".to_string()));
    assert_eq!(c.tunables[0].recommended_for(0), None);
}

#[test]
fn a_profile_stages_what_it_recommends() {
    let mut s = connected();
    s.trigger_apply_profile();
    assert!(s.log.alert.is_some());
    s.log.dismiss();
    s.catalog_tab.profile_filter = Some(1);
    s.trigger_apply_profile();
    assert!(matches!(s.tab, Tab::Review));
    assert_eq!(s.staged.len(), 2);
    let c = find_staged(&s.staged, "vm.swappiness");
    assert!(c.is_some_and(|c| c.value == "10" && c.previous == "60" && !c.persist));
    s.handle_review_key(KeyCode::Char(' '));
    assert!(s.staged[0].persist);
    s.trigger_apply_profile();
    assert_eq!(s.staged.len(), 2);
    assert!(find_staged(&s.staged, "vm.swappiness").is_some_and(|c| c.persist));
    assert!(find_staged(&s.staged, "missing").is_none());
}

#[test]
fn risky_changes_need_the_question() {
    let area = Rect::new(0, 0, 120, 40);
    let mut s = connected();
    s.request_apply_all();
    assert!(s.log.alert.is_some());
    s.log.dismiss();
    s.catalog_tab.profile_filter = Some(1);
    s.trigger_apply_profile();
    s.request_apply_all();
    assert!(s.confirm_apply.as_ref().is_some_and(|m| m.lines.len() == 1));
    assert!(s.take_requests().is_empty());
    for y in 0..40 {
        s.handle_mouse(MouseEvent { kind: MouseKind::LeftDown, column: 60, row: y }, area);
    }
    assert!(s.confirm_apply.is_some());
    s.handle_key(key(KeyCode::Enter));
    assert!(s.confirm_apply.is_none());
    assert!(matches!(&s.take_requests()[..], [Request::Apply { items, .. }] if items.len() == 2));
}

#[test]
fn safe_changes_are_applied_at_once_and_recorded() {
    let mut s = connected();
    s.staged = vec![StagedChange {
        key: "vm.swappiness".to_string(),
        previous: "60".to_string(),
        value: "10".to_string(),
        persist: true,
    }];
    s.request_apply_all();
    assert!(matches!(
        &s.take_requests()[..],
        [Request::Apply { items, .. }] if items.len() == 1 && items[0].recorded && items[0].value == "10"
    ));
    let item = ApplyItem {
        key: "vm.swappiness".to_string(),
        previous: "60".to_string(),
        value: "10".to_string(),
        persist: true,
        recorded: true,
    };
    s.tick(vec![Msg::Applied { item, message: "ok".to_string() }]);
    assert!(s.staged.is_empty());
    assert_eq!(find_value(&s.current_values, "vm.swappiness"), Some("10".to_string()));
    assert!(matches!(
        &s.take_requests()[..],
        [Request::Record { label, previous, persisted: true, .. }] if label == "local" && previous == "60"
    ));
}

#[test]
fn only_changes_of_the_target_are_reverted() {
    let mut s = connected();
    assert_eq!(s.entries().len(), 1);
    assert_eq!(filtered_history(&s.history_entries, "web").len(), 1);
    s.trigger_revert_all();
    assert!(matches!(
        &s.take_requests()[..],
        [Request::RevertAll { entries, .. }] if entries.len() == 1 && entries[0].target == "local"
    ));
    s.trigger_revert_one("kernel.panic");
    assert!(s.take_requests().is_empty());
    s.tick(vec![Msg::Reverted {
        key: "vm.swappiness".to_string(),
        label: "local".to_string(),
        previous: "60".to_string(),
    }]);
    assert!(matches!(&s.take_requests()[..], [Request::Forget { key, .. }] if key == "vm.swappiness"));
    let mut off = KernelTuneScreen::new(catalog(), vec![]);
    off.trigger_revert_all();
    assert!(off.log.alert.is_some());
}

#[test]
fn a_value_is_staged_in_the_window_of_a_tunable() {
    let mut s = connected();
    s.handle_key(key(KeyCode::F(2)));
    s.catalog_tab.selected_row = 0;
    s.open_detail_for_selected();
    assert!(s.catalog_tab.detail.as_ref().is_some_and(|d| d.value.value() == "60"));
    s.handle_key(key(KeyCode::Backspace));
    s.handle_key(key(KeyCode::Tab));
    s.handle_key(key(KeyCode::Tab));
    s.handle_key(key(KeyCode::Enter));
    assert!(s.catalog_tab.detail.is_none());
    assert_eq!(find_staged(&s.staged, "vm.swappiness").map(|c| c.value), Some("6".to_string()));
    s.handle_key(key(KeyCode::F(3)));
    s.handle_key(key(KeyCode::Delete));
    assert!(s.staged.is_empty());
}

#[test]
fn the_whole_button_reverts_everything() {
    let area = Rect { x: 0, y: 0, width: 120, height: 40 };
    let mut s = connected();
    s.handle_key(key(KeyCode::F(4)));
    s.take_requests();
    let under = s.layout(area).review[1];
    // "[ Revert All (A) ]" inside the border
    for off in [1, 14, 18] {
        s.handle_mouse(MouseEvent { kind: MouseKind::LeftDown, column: under.x + off, row: under.y + 1 }, area);
        assert!(matches!(&s.take_requests()[..], [Request::RevertAll { .. }]));
    }
    s.handle_mouse(MouseEvent { kind: MouseKind::LeftDown, column: under.x + 19, row: under.y + 1 }, area);
    assert!(s.take_requests().is_empty());
}
