use winapps::classifier::{is_application_frame_window, is_candidate, WindowFacts, WS_EX_APPWINDOW, WS_EX_TOOLWINDOW};
use winapps::dispatcher::{
    classify_notification, owner_of, replay, EventClass, Observation, WindowEvent, EVENT_OBJECT_CLOAKED,
    EVENT_OBJECT_CREATE, EVENT_OBJECT_DESTROY, EVENT_OBJECT_HIDE, EVENT_OBJECT_NAMECHANGE, EVENT_OBJECT_SHOW,
    EVENT_OBJECT_UNCLOAKED, OBJID_WINDOW,
};
use winapps::registry::{row_precedes, Registry, WindowKey};
use winapps::report::{render, render_header, report_rows, truncate, TITLE_CAP};
use winapps::resolver::{find_different_pid, resolve_owner, settles_search};

fn ordinary(key: WindowKey) -> WindowFacts {
    WindowFacts {
        visible: true,
        ex_style: 0,
        class_name: "Notepad".to_string(),
        root_owner: key,
        last_active_popup: key,
        popup_visible: true,
        cloaked: Some(0),
    }
}

fn host_frame(key: WindowKey) -> WindowFacts {
    WindowFacts { class_name: "ApplicationFrameWindow".to_string(), ..ordinary(key) }
}

fn observed(facts: WindowFacts, raw_pid: u32, descendants: Vec<u32>, title: &str) -> Observation {
    Observation { facts, raw_pid, descendant_pids: descendants, title: title.to_string() }
}

fn contents(r: &Registry) -> Vec<(WindowKey, u32, String)> {
    r.ordered_rows().into_iter().map(|(k, e)| (k, e.pid, e.title)).collect()
}

#[test]
fn upsert_inserts_and_overwrites() {
    let mut r = Registry::new();
    r.upsert(7, 100, "a".to_string());
    r.upsert(7, 200, "b".to_string());
    let e = r.get(7).unwrap();
    assert_eq!(e.pid, 200);
    assert_eq!(e.title, "b");
    assert_eq!(r.ordered_rows().len(), 1);
}

#[test]
fn update_title_changes_title_only() {
    let mut r = Registry::new();
    r.upsert(7, 100, "a".to_string());
    r.update_title(7, "renamed".to_string());
    let e = r.get(7).unwrap();
    assert_eq!(e.pid, 100);
    assert_eq!(e.title, "renamed");
}

#[test]
fn rename_of_absent_key_changes_nothing() {
    let mut r = Registry::new();
    r.upsert(1, 10, "x".to_string());
    let before = contents(&r);
    r.update_title(2, "y".to_string());
    assert_eq!(contents(&r), before);
    assert!(r.get(2).is_none());
}

#[test]
fn removal_of_absent_key_changes_nothing() {
    let mut r = Registry::new();
    r.upsert(1, 10, "x".to_string());
    let before = contents(&r);
    r.remove(2);
    assert_eq!(contents(&r), before);
    r.remove(1);
    assert!(r.get(1).is_none());
    r.remove(1);
    assert!(contents(&r).is_empty());
}

#[test]
fn snapshot_orders_by_pid_then_key() {
    let mut r = Registry::new();
    r.upsert(5, 20, "A".to_string());
    r.upsert(2, 10, "B".to_string());
    r.upsert(9, 10, "C".to_string());
    let keys: Vec<WindowKey> = r.snapshot().ordered_rows().iter().map(|(k, _)| *k).collect();
    assert_eq!(keys, vec![2, 9, 5]);
    assert!(row_precedes(2, 10, 9, 10));
    assert!(!row_precedes(5, 20, 9, 10));
}

#[test]
fn ordinary_window_is_candidate() {
    assert!(is_candidate(1, &ordinary(1)));
}

#[test]
fn invisible_window_is_rejected() {
    assert!(!is_candidate(1, &WindowFacts { visible: false, ..ordinary(1) }));
}

#[test]
fn cloaked_window_is_rejected_whatever_else_holds() {
    for visible in [false, true] {
        for ex_style in [0, WS_EX_TOOLWINDOW, WS_EX_APPWINDOW] {
            for class in ["Notepad", "ApplicationFrameWindow"] {
                for root_owner in [1, 2] {
                    for popup_visible in [false, true] {
                        let f = WindowFacts {
                            visible,
                            ex_style,
                            class_name: class.to_string(),
                            root_owner,
                            last_active_popup: 3,
                            popup_visible,
                            cloaked: Some(2),
                        };
                        assert!(!is_candidate(1, &f));
                    }
                }
            }
        }
    }
}

#[test]
fn failed_cloak_query_counts_as_not_cloaked() {
    assert!(is_candidate(1, &WindowFacts { cloaked: None, ..ordinary(1) }));
}

#[test]
fn tool_window_is_rejected() {
    for visible in [false, true] {
        for root_owner in [1, 2] {
            let f = WindowFacts { visible, root_owner, ex_style: WS_EX_TOOLWINDOW, ..ordinary(1) };
            assert!(!is_candidate(1, &f));
        }
    }
}

#[test]
fn owned_window_needs_taskbar_flag_or_host_frame() {
    assert!(!is_candidate(1, &WindowFacts { root_owner: 2, ..ordinary(1) }));
    assert!(is_candidate(1, &WindowFacts { root_owner: 2, ex_style: WS_EX_APPWINDOW, ..ordinary(1) }));
    assert!(is_candidate(1, &WindowFacts { root_owner: 2, ..host_frame(1) }));
}

#[test]
fn hidden_popup_rejects_unless_host_frame() {
    let hidden = WindowFacts { last_active_popup: 4, popup_visible: false, ..ordinary(1) };
    assert!(!is_candidate(1, &hidden));
    let shown = WindowFacts { last_active_popup: 4, popup_visible: true, ..ordinary(1) };
    assert!(is_candidate(1, &shown));
    let frame = WindowFacts { last_active_popup: 4, popup_visible: false, ..host_frame(1) };
    assert!(is_candidate(1, &frame));
}

#[test]
fn host_frame_class_is_recognised() {
    assert!(is_application_frame_window(&"ApplicationFrameWindow".to_string()));
    assert!(!is_application_frame_window(&"ApplicationFrameWindowX".to_string()));
    assert!(!is_application_frame_window(&String::new()));
}

#[test]
fn frame_without_descendants_keeps_its_pid() {
    assert_eq!(resolve_owner(true, 200, &[]), 200);
}

#[test]
fn resolver_stops_at_first_other_pid() {
    assert_eq!(resolve_owner(true, 200, &[200, 200, 300, 400]), 300);
    assert_eq!(find_different_pid(200, &[200, 200, 300, 400]), Some(300));
}

#[test]
fn resolver_skips_failed_queries_and_falls_back() {
    assert_eq!(resolve_owner(true, 200, &[0, 200]), 200);
    assert_eq!(find_different_pid(200, &[0, 200]), None);
    assert!(!settles_search(200, 0));
    assert!(settles_search(200, 5));
}

#[test]
fn ordinary_window_keeps_raw_pid() {
    assert_eq!(resolve_owner(false, 200, &[300]), 200);
}

#[test]
fn notifications_are_classified() {
    let k: WindowKey = 42;
    assert_eq!(classify_notification(EVENT_OBJECT_CREATE, OBJID_WINDOW, k), Some(EventClass::Appeared));
    assert_eq!(classify_notification(EVENT_OBJECT_SHOW, OBJID_WINDOW, k), Some(EventClass::Appeared));
    assert_eq!(classify_notification(EVENT_OBJECT_UNCLOAKED, OBJID_WINDOW, k), Some(EventClass::Appeared));
    assert_eq!(classify_notification(EVENT_OBJECT_NAMECHANGE, OBJID_WINDOW, k), Some(EventClass::Renamed));
    assert_eq!(classify_notification(EVENT_OBJECT_HIDE, OBJID_WINDOW, k), Some(EventClass::Disappeared));
    assert_eq!(classify_notification(EVENT_OBJECT_DESTROY, OBJID_WINDOW, k), Some(EventClass::Disappeared));
    assert_eq!(classify_notification(EVENT_OBJECT_CLOAKED, OBJID_WINDOW, k), Some(EventClass::Disappeared));
    assert_eq!(classify_notification(0x8004, OBJID_WINDOW, k), None);
    assert_eq!(classify_notification(EVENT_OBJECT_CREATE, -4, k), None);
    assert_eq!(classify_notification(EVENT_OBJECT_CREATE, OBJID_WINDOW, 0), None);
}

#[test]
fn replay_folds_events_in_order() {
    let events = vec![
        WindowEvent::Appeared(1, observed(ordinary(1), 10, vec![], "one")),
        WindowEvent::Renamed(1, "uno".to_string()),
        WindowEvent::Renamed(2, "ghost".to_string()),
        WindowEvent::Appeared(2, observed(WindowFacts { visible: false, ..ordinary(2) }, 20, vec![], "two")),
        WindowEvent::Appeared(3, observed(ordinary(3), 30, vec![], "three")),
        WindowEvent::Disappeared(3),
        WindowEvent::Disappeared(4),
    ];
    let r = replay(events);
    assert_eq!(contents(&r), vec![(1, 10, "uno".to_string())]);

    let reordered = vec![
        WindowEvent::Disappeared(3),
        WindowEvent::Appeared(3, observed(ordinary(3), 30, vec![], "three")),
    ];
    assert_eq!(contents(&replay(reordered)), vec![(3, 30, "three".to_string())]);
}

#[test]
fn seeding_skips_unresolved_owner() {
    let mut r = Registry::new();
    r.seed_window(1, observed(ordinary(1), 0, vec![], "zero"));
    assert!(r.get(1).is_none());
    let mut d = Registry::new();
    d.dispatch(WindowEvent::Appeared(1, observed(ordinary(1), 0, vec![], "zero")));
    assert_eq!(d.get(1).unwrap().pid, 0);
}

#[test]
fn owner_of_looks_through_host_frame() {
    assert_eq!(owner_of(&observed(host_frame(9), 200, vec![300], "")), 300);
    assert_eq!(owner_of(&observed(ordinary(9), 200, vec![300], "")), 200);
}

#[test]
fn end_to_end_seed_then_events() {
    let (a, b, f): (WindowKey, WindowKey, WindowKey) = (0x100, 0x200, 0x300);
    let mut r = Registry::new();
    r.seed_window(a, observed(ordinary(a), 100, vec![], "Notepad"));
    let tool = WindowFacts { ex_style: WS_EX_TOOLWINDOW, ..ordinary(b) };
    r.seed_window(b, observed(tool, 101, vec![], "Palette"));
    assert_eq!(contents(&r), vec![(a, 100, "Notepad".to_string())]);

    r.dispatch(WindowEvent::Appeared(f, observed(host_frame(f), 200, vec![300], "")));
    assert_eq!(r.get(f).unwrap().pid, 300);
    assert_eq!(r.get(f).unwrap().title, "");

    r.dispatch(WindowEvent::Renamed(a, "Notepad - file.txt".to_string()));
    assert_eq!(r.get(a).unwrap().title, "Notepad - file.txt");

    r.dispatch(WindowEvent::Disappeared(a));
    assert_eq!(contents(&r), vec![(f, 300, String::new())]);
}

#[test]
fn truncation_at_the_cap() {
    let exact: String = "x".repeat(TITLE_CAP);
    assert_eq!(truncate(&exact, TITLE_CAP), exact);
    let longer: String = "y".repeat(TITLE_CAP + 1);
    let cut = truncate(&longer, TITLE_CAP);
    assert_eq!(cut.chars().count(), TITLE_CAP);
    assert_eq!(cut, format!("{}\u{2026}", "y".repeat(TITLE_CAP - 1)));
}

#[test]
fn truncation_counts_characters_not_bytes() {
    assert_eq!(truncate("\u{e9}\u{e9}\u{e9}", 3), "\u{e9}\u{e9}\u{e9}");
    assert_eq!(truncate("abcdef", 4), "abc\u{2026}");
    assert_eq!(truncate("abc", 0), "\u{2026}");
    assert_eq!(truncate("", 0), "");
}

#[test]
fn header_uses_singular_and_plural() {
    assert_eq!(render_header(1, "T"), "WinApps Monitor Window List - 1 Entry - Last Refresh: T");
    assert_eq!(render_header(0, "T"), "WinApps Monitor Window List - 0 Entries - Last Refresh: T");
    assert_eq!(render_header(12, "T"), "WinApps Monitor Window List - 12 Entries - Last Refresh: T");
    assert_eq!(
        render_header(u64::MAX, ""),
        "WinApps Monitor Window List - 18446744073709551615 Entries - Last Refresh: "
    );
}

#[test]
fn report_rows_are_ordered_and_cut() {
    let mut r = Registry::new();
    r.upsert(5, 20, "z".repeat(100));
    r.upsert(2, 10, "B".to_string());
    let rows = report_rows(&r.ordered_rows());
    assert_eq!(rows.len(), 2);
    assert_eq!((rows[0].key, rows[0].pid, rows[0].title.as_str()), (2, 10, "B"));
    assert_eq!(rows[1].key, 5);
    assert_eq!(rows[1].title.chars().count(), TITLE_CAP);
    let snap = r.snapshot();
    r.remove(5);
    let report = render(&snap, "2024-01-02 03:04:05.678");
    assert_eq!(report.header, "WinApps Monitor Window List - 2 Entries - Last Refresh: 2024-01-02 03:04:05.678");
    assert_eq!(report.rows.len(), 2);
    assert_eq!(report.rows[0].key, 2);
    let one = render(&r, "T");
    assert_eq!(one.header, "WinApps Monitor Window List - 1 Entry - Last Refresh: T");
    assert_eq!(one.rows[0].title, "B");
}

#[test]
fn snapshot_is_an_independent_copy() {
    let mut r = Registry::new();
    r.upsert(1, 10, "a".to_string());
    let snap = r.snapshot();
    r.update_title(1, "b".to_string());
    r.upsert(2, 20, "c".to_string());
    assert_eq!(contents(&snap), vec![(1, 10, "a".to_string())]);
    assert_eq!(contents(&r).len(), 2);
}
