use swb::history::HistoryState;

#[test]
fn record_visits_track_call_order() {
    let mut h = HistoryState::new("X".to_string());
    h.record_visit("Y".to_string());
    h.record_visit("Z".to_string());
    assert_eq!(h.visited, vec!["X".to_string(), "Y".to_string(), "Z".to_string()]);
    assert!(h.undone.is_empty());
    assert!(!h.suppress_next_push);
    assert_eq!(h.current(), "Z");
}

#[test]
fn back_then_forward_round_trip() {
    let mut h = HistoryState::new("X".to_string());
    h.record_visit("Y".to_string());
    h.record_visit("Z".to_string());
    let back = h.go_back();
    assert_eq!(back, Some("Y".to_string()));
    let fwd = h.go_forward();
    assert_eq!(fwd, Some("Z".to_string()));
    assert_eq!(h.visited, vec!["X".to_string(), "Y".to_string(), "Z".to_string()]);
    assert!(h.undone.is_empty());
}

#[test]
fn back_at_root_is_noop() {
    let mut h = HistoryState::new("X".to_string());
    let r = h.go_back();
    assert_eq!(r, None);
    assert_eq!(h.visited, vec!["X".to_string()]);
    assert!(h.undone.is_empty());
    assert!(!h.suppress_next_push);
}

#[test]
fn forward_at_end_is_noop() {
    let mut h = HistoryState::new("X".to_string());
    let r = h.go_forward();
    assert_eq!(r, None);
    assert_eq!(h.visited, vec!["X".to_string()]);
    assert!(!h.suppress_next_push);
}

#[test]
fn new_visit_after_forward_discards_forward_history() {
    let mut h = HistoryState::new("X".to_string());
    h.record_visit("Y".to_string());
    h.record_visit("Z".to_string());
    assert_eq!(h.go_back(), Some("Y".to_string()));
    // the notification caused by the back itself is suppressed
    h.record_visit("Y".to_string());
    assert_eq!(h.undone, vec!["Z".to_string()]);
    assert_eq!(h.go_forward(), Some("Z".to_string()));
    // the notification caused by the forward itself is suppressed
    h.record_visit("Z".to_string());
    assert_eq!(h.undone, vec![] as Vec<String>);
    assert_eq!(h.go_back(), Some("Y".to_string()));
    h.record_visit("Y".to_string());
    // a fresh, user-driven visit now discards the forward branch
    h.record_visit("W".to_string());
    assert!(h.undone.is_empty());
    assert_eq!(h.visited, vec!["X".to_string(), "Y".to_string(), "W".to_string()]);
}

#[test]
fn two_backs_pin_undone_order() {
    let mut h = HistoryState::new("X".to_string());
    h.record_visit("Y".to_string());
    h.record_visit("Z".to_string());
    assert_eq!(h.go_back(), Some("Y".to_string()));
    assert_eq!(h.current(), "Y");
    assert_eq!(h.undone, vec!["Z".to_string()]);
    assert_eq!(h.go_back(), Some("X".to_string()));
    assert_eq!(h.current(), "X");
    // most recently undone first: Y is poppable first by go_forward
    assert_eq!(h.undone, vec!["Y".to_string(), "Z".to_string()]);
    assert_eq!(h.go_forward(), Some("Y".to_string()));
}

#[test]
fn suppressed_record_only_consumes_flag() {
    let mut h = HistoryState::new("X".to_string());
    h.mark_suppressed();
    assert!(h.suppress_next_push);
    h.record_visit("Q".to_string());
    assert_eq!(h.visited, vec!["X".to_string()]);
    assert!(h.undone.is_empty());
    assert!(!h.suppress_next_push);
}
