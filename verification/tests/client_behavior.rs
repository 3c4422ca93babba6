use wlactivate::engine::BindAction;
use wlactivate::engine::ManagerDirective;
use wlactivate::engine::ManagerEvent;
use wlactivate::engine::ToplevelEvent;
use wlactivate::engine::MANAGER_BIND_VERSION;
use wlactivate::engine::SEAT_BIND_VERSION;
use wlactivate::session::ConfigError;
use wlactivate::session::Session;

fn session(title: Option<&str>, app_id: Option<&str>, contains: bool, list: bool) -> Session {
    Session::new(
        title.map(|t| t.to_string()),
        app_id.map(|a| a.to_string()),
        contains,
        list,
    )
    .unwrap()
}

fn bind_both(s: &mut Session) {
    s.on_global("zwlr_foreign_toplevel_manager_v1");
    s.on_global("wl_seat");
}

fn track_one(s: &mut Session) -> usize {
    match s.on_manager_event(ManagerEvent::NewToplevel) {
        ManagerDirective::Track(i) => i,
        _ => panic!("a new toplevel must be tracked"),
    }
}

#[test]
fn scenario_a_exact_title_fires_only_on_equality() {
    let mut s = session(Some("Editor"), None, false, false);
    bind_both(&mut s);
    let i = track_one(&mut s);
    let r1 = s.on_toplevel_event(i, ToplevelEvent::Title("Code Editor".to_string()));
    assert!(!r1.activate);
    assert!(!r1.stop_manager);
    let r2 = s.on_toplevel_event(i, ToplevelEvent::Title("Editor".to_string()));
    assert!(r2.activate);
    assert!(r2.stop_manager);
}

#[test]
fn scenario_b_contains_title_fires_on_superstring() {
    let mut s = session(Some("Editor"), None, true, false);
    bind_both(&mut s);
    let i = track_one(&mut s);
    let r = s.on_toplevel_event(i, ToplevelEvent::Title("My Code Editor".to_string()));
    assert!(r.activate);
    assert!(r.stop_manager);
}

#[test]
fn scenario_c_list_mode_prints_each_update_in_order() {
    let mut s = session(None, None, false, true);
    bind_both(&mut s);
    let i = track_one(&mut s);
    let mut lines: Vec<String> = Vec::new();
    for id in ["firefox", "firefox", "code"] {
        let r = s.on_toplevel_event(i, ToplevelEvent::AppId(id.to_string()));
        assert!(!r.activate);
        assert!(!r.stop_manager);
        lines.push(r.print_line.expect("list mode must print every app-id update"));
    }
    assert_eq!(lines, vec!["firefox".to_string(), "firefox".to_string(), "code".to_string()]);
}

#[test]
fn scenario_d_no_target_is_rejected() {
    let r = Session::new(None, None, false, false);
    let e = match r {
        Err(e) => e,
        Ok(_) => panic!("an empty predicate must be rejected"),
    };
    assert!(matches!(e, ConfigError::NoTarget));
    assert_eq!(e.message(), "You must specify either a title or an app_id");
}

#[test]
fn scenario_e_manager_finished_ends_the_run() {
    let mut s = session(Some("Editor"), None, false, false);
    bind_both(&mut s);
    assert!(s.is_running());
    let d = s.on_manager_event(ManagerEvent::Finished);
    assert!(matches!(d, ManagerDirective::Exit));
    assert!(!s.is_running());
}

#[test]
fn exact_mode_rejects_substrings_both_ways() {
    let mut s = session(Some("Editor"), None, false, false);
    bind_both(&mut s);
    let i = track_one(&mut s);
    assert!(!s.on_toplevel_event(i, ToplevelEvent::Title("Edit".to_string())).activate);
    assert!(!s.on_toplevel_event(i, ToplevelEvent::Title("Editors".to_string())).activate);
    assert!(s.on_toplevel_event(i, ToplevelEvent::Title("Editor".to_string())).activate);
}

#[test]
fn contains_mode_includes_equal_titles() {
    let mut s = session(Some("Editor"), None, true, false);
    bind_both(&mut s);
    let i = track_one(&mut s);
    let r = s.on_toplevel_event(i, ToplevelEvent::Title("Editor".to_string()));
    assert!(r.activate);
}

#[test]
fn app_id_matches_exactly_and_ignores_contains_mode() {
    let mut s = session(None, Some("code"), true, false);
    bind_both(&mut s);
    let i = track_one(&mut s);
    assert!(!s.on_toplevel_event(i, ToplevelEvent::AppId("vscode".to_string())).activate);
    assert!(!s.on_toplevel_event(i, ToplevelEvent::AppId("code-oss".to_string())).activate);
    let r = s.on_toplevel_event(i, ToplevelEvent::AppId("code".to_string()));
    assert!(r.activate);
}

#[test]
fn at_most_one_activation_across_windows() {
    let mut s = session(Some("Editor"), None, false, false);
    bind_both(&mut s);
    let i = track_one(&mut s);
    let j = track_one(&mut s);
    assert_ne!(i, j);
    let r1 = s.on_toplevel_event(i, ToplevelEvent::Title("Editor".to_string()));
    assert!(r1.activate);
    let r2 = s.on_toplevel_event(j, ToplevelEvent::Title("Editor".to_string()));
    assert!(!r2.activate);
    assert!(!r2.stop_manager);
}

#[test]
fn registry_binds_each_capability_once_and_ignores_the_rest() {
    let mut s = session(Some("Editor"), None, false, false);
    assert!(matches!(s.on_global("wl_output"), BindAction::Ignore));
    assert!(matches!(s.on_global("zwlr_foreign_toplevel_manager_v1"), BindAction::BindManager));
    assert!(matches!(s.on_global("zwlr_foreign_toplevel_manager_v1"), BindAction::Ignore));
    assert!(matches!(s.on_global("wl_seat"), BindAction::BindSeat));
    assert!(matches!(s.on_global("wl_seat"), BindAction::Ignore));
    assert_eq!(MANAGER_BIND_VERSION, 3);
    assert_eq!(SEAT_BIND_VERSION, 8);
}

#[test]
fn no_activation_before_both_capabilities_are_bound() {
    let mut s = session(Some("Editor"), None, false, false);
    s.on_global("zwlr_foreign_toplevel_manager_v1");
    let i = track_one(&mut s);
    let r = s.on_toplevel_event(i, ToplevelEvent::Title("Editor".to_string()));
    assert!(!r.activate);
}

#[test]
fn list_mode_never_activates_even_on_a_match() {
    let mut s = session(Some("Editor"), None, false, true);
    bind_both(&mut s);
    let i = track_one(&mut s);
    let r = s.on_toplevel_event(i, ToplevelEvent::Title("Editor".to_string()));
    assert!(!r.activate);
    assert!(!r.stop_manager);
}

#[test]
fn outside_list_mode_nothing_is_printed() {
    let mut s = session(None, Some("code"), false, false);
    bind_both(&mut s);
    let i = track_one(&mut s);
    let r = s.on_toplevel_event(i, ToplevelEvent::AppId("code".to_string()));
    assert!(r.print_line.is_none());
}

#[test]
fn unused_targets_never_match() {
    let mut s = session(None, Some("code"), false, false);
    bind_both(&mut s);
    let i = track_one(&mut s);
    let r = s.on_toplevel_event(i, ToplevelEvent::Title("".to_string()));
    assert!(!r.activate);
    let r = s.on_toplevel_event(i, ToplevelEvent::AppId("".to_string()));
    assert!(!r.activate);
}

#[test]
fn properties_are_stored_per_window() {
    let mut s = session(Some("Editor"), None, false, false);
    bind_both(&mut s);
    let i = track_one(&mut s);
    let j = track_one(&mut s);
    assert_eq!(s.toplevel_count(), 2);
    s.on_toplevel_event(i, ToplevelEvent::Title("Terminal".to_string()));
    s.on_toplevel_event(j, ToplevelEvent::AppId("code".to_string()));
    assert_eq!(s.toplevels[i].title, "Terminal");
    assert_eq!(s.toplevels[i].app_id, "");
    assert_eq!(s.toplevels[j].title, "");
    assert_eq!(s.toplevels[j].app_id, "code");
}

#[test]
fn other_events_have_no_effect() {
    let mut s = session(Some("Editor"), None, false, false);
    bind_both(&mut s);
    let i = track_one(&mut s);
    let r = s.on_toplevel_event(i, ToplevelEvent::Other);
    assert!(!r.activate);
    assert!(!r.stop_manager);
    assert!(r.print_line.is_none());
    let d = s.on_manager_event(ManagerEvent::Other);
    assert!(matches!(d, ManagerDirective::Ignore));
    assert!(s.is_running());
}

#[test]
fn either_rule_alone_fires_when_both_targets_are_set() {
    let mut s = session(Some("Editor"), Some("code"), false, false);
    bind_both(&mut s);
    let i = track_one(&mut s);
    let r = s.on_toplevel_event(i, ToplevelEvent::AppId("code".to_string()));
    assert!(r.activate);

    let mut s = session(Some("Editor"), Some("code"), false, false);
    bind_both(&mut s);
    let i = track_one(&mut s);
    let r = s.on_toplevel_event(i, ToplevelEvent::Title("Editor".to_string()));
    assert!(r.activate);
}

#[test]
fn activation_leaves_the_loop_running_for_the_finished_signal() {
    let mut s = session(Some("Editor"), None, false, false);
    bind_both(&mut s);
    let i = track_one(&mut s);
    let r = s.on_toplevel_event(i, ToplevelEvent::Title("Editor".to_string()));
    assert!(r.activate);
    assert!(s.is_running());
    let d = s.on_manager_event(ManagerEvent::Finished);
    assert!(matches!(d, ManagerDirective::Exit));
    assert!(!s.is_running());
}

#[test]
fn validation_fills_absent_targets_with_empty_strings() {
    let s = session(Some("T"), None, false, false);
    assert_eq!(s.title, "T");
    assert_eq!(s.app_id, "");
    assert!(s.is_running());
    assert_eq!(s.toplevel_count(), 0);
    let s = session(None, Some("a"), true, false);
    assert_eq!(s.title, "");
    assert_eq!(s.app_id, "a");
    let s = session(None, None, false, true);
    assert!(s.list_app_id);
}
