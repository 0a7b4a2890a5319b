use swb::dispatch::{Command, Dispatcher, Event, EventKind};

fn ev(kind: EventKind, url: &str) -> Event {
    Event { kind, url: url.to_string() }
}

fn disp(start: &str) -> Dispatcher {
    Dispatcher::new(start.to_string(), "https://duckduckgo.com/?q=${}".to_string())
}

#[test]
fn navigate_to_emits_load_only() {
    let mut d = disp("X");
    let cmds = d.handle_event(ev(EventKind::NavigateTo, "Y"));
    assert_eq!(cmds, vec![Command::Load("Y".to_string())]);
    // history is updated later, by the PageChanged the load causes
    assert_eq!(d.history.visited, vec!["X".to_string()]);
}

#[test]
fn page_changed_records_and_sets_address() {
    let mut d = disp("X");
    let cmds = d.handle_event(ev(EventKind::PageChanged, "Y"));
    assert_eq!(cmds, vec![Command::SetAddress("Y".to_string())]);
    assert_eq!(d.history.visited, vec!["X".to_string(), "Y".to_string()]);
}

#[test]
fn refresh_suppresses_and_reloads() {
    let mut d = disp("X");
    let cmds = d.handle_event(ev(EventKind::RefreshRequested, ""));
    assert_eq!(cmds, vec![Command::Reload]);
    assert!(d.history.suppress_next_push);
    // the page-change notification the reload causes is not re-recorded
    let cmds = d.handle_event(ev(EventKind::PageChanged, "X"));
    assert_eq!(cmds, vec![] as Vec<Command>);
    assert_eq!(d.history.visited, vec!["X".to_string()]);
}

#[test]
fn back_request_at_start_is_ignored() {
    let mut d = disp("X");
    let cmds = d.handle_event(ev(EventKind::BackRequested, ""));
    assert_eq!(cmds, vec![] as Vec<Command>);
    assert_eq!(d.history.visited, vec!["X".to_string()]);
}

#[test]
fn back_and_forward_walk_history_in_order() {
    let mut d = disp("X");
    d.handle_event(ev(EventKind::PageChanged, "Y"));
    d.handle_event(ev(EventKind::PageChanged, "Z"));

    let cmds = d.handle_event(ev(EventKind::BackRequested, ""));
    assert_eq!(
        cmds,
        vec![Command::Load("Y".to_string()), Command::SetAddress("Y".to_string())]
    );
    assert_eq!(d.history.undone, vec!["Z".to_string()]);
    d.handle_event(ev(EventKind::PageChanged, "Y"));

    let cmds = d.handle_event(ev(EventKind::BackRequested, ""));
    assert_eq!(
        cmds,
        vec![Command::Load("X".to_string()), Command::SetAddress("X".to_string())]
    );
    assert_eq!(d.history.undone, vec!["Y".to_string(), "Z".to_string()]);
    d.handle_event(ev(EventKind::PageChanged, "X"));

    let cmds = d.handle_event(ev(EventKind::ForwardRequested, ""));
    assert_eq!(
        cmds,
        vec![Command::Load("Y".to_string()), Command::SetAddress("Y".to_string())]
    );
    assert_eq!(d.history.visited, vec!["X".to_string(), "Y".to_string()]);
}

#[test]
fn failed_load_substitutes_then_goes_home() {
    let mut d = disp("X");
    let cmds = d.handle_event(ev(EventKind::LoadFailed, "Y"));
    assert_eq!(cmds, vec![Command::Load("https://duckduckgo.com/?q=Y".to_string())]);
    assert_eq!(d.last_fallback, "https://duckduckgo.com/?q=Y".to_string());

    // the substitute itself fails: nothing is left but the home location
    let cmds = d.handle_event(ev(EventKind::LoadFailed, "https://duckduckgo.com/?q=Y"));
    assert_eq!(cmds.len(), 1);
    match &cmds[0] {
        Command::Load(u) => assert!(u.starts_with("file://")),
        Command::ReportHomeFailure => {}
        other => panic!("unexpected command {:?}", other),
    }
    // the failure does not disturb the history
    assert_eq!(d.history.visited, vec!["X".to_string()]);
}

#[test]
fn login_request_only_opens_the_dialog() {
    let mut d = disp("X");
    let cmds = d.handle_event(ev(EventKind::LoginRequested, ""));
    assert_eq!(cmds, vec![Command::ShowLogin]);
    assert_eq!(d.history.visited, vec!["X".to_string()]);
    assert!(!d.history.suppress_next_push);
}
