use rdsk::scanner::{DirectoryEntry, UserProfile};
use rdsk::ui::app::{App, AppState, AscendTarget, Mode, ScanPoll, Screen, Unreadable};
use rdsk::ui::events::{handle_events, Action, Key, KeyInput, KeyKind};
use rdsk::ui::selection::Selection;

fn press(code: Key) -> Option<KeyInput> {
    Some(KeyInput { code, kind: KeyKind::Press })
}

fn entries(names: &[&str]) -> Vec<DirectoryEntry> {
    names.iter().map(|n| DirectoryEntry::new(n.to_string(), 1)).collect()
}

#[test]
fn new_app_waits_for_first_scan() {
    let app = App::new();
    assert!(app.running);
    assert_eq!(app.mode, Mode::UserView);
    assert_eq!(app.state, AppState::Scanning);
    assert!(app.users.is_empty());
    assert_eq!(app.selected_user, None);
    assert_eq!(app.list_state, Selection { selected: None, offset: 0 });
    assert_eq!(app.current_frame, 0);
    assert_eq!(app.screen(), Screen::Users);
    assert!(app.awaiting_scan());
}

#[test]
fn selection_moves_through_ratatui() {
    let mut s = Selection::new();
    s.select_next();
    assert_eq!(s.selected(), Some(0));
    s.select_next();
    assert_eq!(s.selected(), Some(1));
    s.select_previous();
    assert_eq!(s.selected(), Some(0));
    s.select_previous();
    assert_eq!(s.selected(), Some(0));
    let mut t = Selection { selected: None, offset: 4 };
    t.select_previous();
    assert_eq!(t, Selection { selected: Some(usize::MAX), offset: 4 });
    t.select_next();
    assert_eq!(t.selected(), Some(usize::MAX));
    t.select(Some(3));
    assert_eq!(t, Selection { selected: Some(3), offset: 4 });
    t.select(None);
    assert_eq!(t, Selection { selected: None, offset: 0 });
}

#[test]
fn tick_wraps_after_forty_frames() {
    let mut app = App::new();
    for i in 1..40 {
        app.tick();
        assert_eq!(app.current_frame, i);
    }
    app.tick();
    assert_eq!(app.current_frame, 0);
}

#[test]
fn scan_results_end_the_scan() {
    let mut app = App::new();
    assert!(!app.receive_scan(ScanPoll::Pending));
    assert_eq!(app.state, AppState::Scanning);
    assert!(app.receive_scan(ScanPoll::Disconnected));
    assert!(!app.receive_scan(ScanPoll::Ready(vec![UserProfile::new("u".to_string())])));
    assert_eq!(app.state, AppState::Idle);
    assert_eq!(app.users.len(), 1);
    assert!(!app.awaiting_scan());
    // Once idle, answers are not taken in.
    assert!(!app.receive_scan(ScanPoll::Disconnected));
    assert!(!app.receive_scan(ScanPoll::Ready(Vec::new())));
    assert_eq!(app.users.len(), 1);
}

#[test]
fn escape_quits_everywhere() {
    let mut app = App::new();
    assert_eq!(handle_events(&mut app, press(Key::Esc)), Action::Stay);
    assert!(!app.running);
    let mut app = App::new();
    app.selected_user = Some(0);
    handle_events(&mut app, press(Key::Esc));
    assert!(!app.running);
    let mut app = App::new();
    app.mode = Mode::Explorer;
    handle_events(&mut app, press(Key::Esc));
    assert!(!app.running);
}

#[test]
fn releases_and_repeats_do_nothing() {
    let mut app = App::new();
    let r = handle_events(&mut app, Some(KeyInput { code: Key::Esc, kind: KeyKind::Release }));
    assert_eq!(r, Action::Stay);
    assert!(app.running);
    handle_events(&mut app, Some(KeyInput { code: Key::Char('j'), kind: KeyKind::Repeat }));
    assert_eq!(app.list_state.selected, None);
    assert_eq!(handle_events(&mut app, None), Action::Stay);
}

#[test]
fn list_navigation_and_detail() {
    let mut app = App::new();
    handle_events(&mut app, press(Key::Char('j')));
    handle_events(&mut app, press(Key::Char('j')));
    assert_eq!(app.list_state.selected, Some(1));
    handle_events(&mut app, press(Key::Char('k')));
    assert_eq!(app.list_state.selected, Some(0));
    handle_events(&mut app, press(Key::Enter));
    assert_eq!(app.selected_user, Some(0));
    assert_eq!(app.screen(), Screen::Detailed(0));
    // On the breakdown, list keys do nothing.
    handle_events(&mut app, press(Key::Char('j')));
    assert_eq!(app.list_state.selected, Some(0));
    handle_events(&mut app, press(Key::Backspace));
    assert_eq!(app.selected_user, None);
    assert_eq!(app.list_state, Selection { selected: None, offset: 0 });
    assert_eq!(app.screen(), Screen::Users);
}

#[test]
fn scan_key_and_tab() {
    let mut app = App::new();
    app.state = AppState::Idle;
    assert_eq!(handle_events(&mut app, press(Key::Char('S'))), Action::SpawnScan);
    assert_eq!(app.state, AppState::Scanning);
    assert_eq!(handle_events(&mut app, press(Key::Tab)), Action::ToggleMode);
    assert_eq!(handle_events(&mut app, press(Key::Char('s'))), Action::Stay);
}

#[test]
fn explorer_keys() {
    let mut app = App::new();
    app.mode = Mode::Explorer;
    assert_eq!(app.screen(), Screen::Explorer);
    assert_eq!(handle_events(&mut app, press(Key::Enter)), Action::Stay);
    handle_events(&mut app, press(Key::Char('j')));
    assert_eq!(handle_events(&mut app, press(Key::Enter)), Action::Descend(0));
    handle_events(&mut app, press(Key::Char('j')));
    handle_events(&mut app, press(Key::Char('j')));
    handle_events(&mut app, press(Key::Char('k')));
    assert_eq!(app.list_state.selected, Some(1));
    app.list_state.select(Some(2));
    assert_eq!(handle_events(&mut app, press(Key::Enter)), Action::Descend(2));
    assert_eq!(handle_events(&mut app, press(Key::Backspace)), Action::Ascend);
    assert_eq!(handle_events(&mut app, press(Key::Tab)), Action::ToggleMode);
    assert_eq!(handle_events(&mut app, press(Key::Char('S'))), Action::Stay);
    assert_eq!(app.state, AppState::Scanning);
}

#[test]
fn descend_then_ascend_returns() {
    let mut app = App::new();
    app.current_dir = "/home".to_string();
    assert_eq!(app.descend("/home/me".to_string(), Some(entries(&["a", "b"]))), Ok(()));
    assert_eq!(app.current_dir, "/home/me");
    assert_eq!(app.parent_dir.as_deref(), Some("/home"));
    assert_eq!(app.children.len(), 2);
    match app.ascend_target() {
        AscendTarget::Parent(p) => assert_eq!(p, "/home"),
        AscendTarget::Root(_) => panic!("expected the parent"),
    }
    assert_eq!(app.ascend(Some(entries(&["me"])), Some("/".to_string())), Ok(()));
    assert_eq!(app.current_dir, "/home");
    assert_eq!(app.parent_dir.as_deref(), Some("/"));
    assert_eq!(app.children[0].name, "me");
    assert_eq!(app.state, AppState::Idle);
}

#[test]
fn unreadable_listings() {
    let mut app = App::new();
    app.current_dir = "/x".to_string();
    app.children = entries(&["old"]);
    assert_eq!(app.descend("/x/locked".to_string(), None), Err(Unreadable));
    assert_eq!(app.current_dir, "/x/locked");
    assert_eq!(app.children[0].name, "old");
    app.state = AppState::Idle;
    assert_eq!(app.ascend(None, None), Err(Unreadable));
    assert_eq!(app.current_dir, "/x");
    assert_eq!(app.state, AppState::Scanning);
    assert_eq!(app.parent_dir.as_deref(), Some("/x"));
}

#[test]
fn ascend_without_parent_goes_to_drive_root() {
    let mut app = App::new();
    app.current_dir = "D:\\data".to_string();
    match app.ascend_target() {
        AscendTarget::Root(r) => assert_eq!(r, "C:\\"),
        AscendTarget::Parent(_) => panic!("expected the root"),
    }
    assert_eq!(app.ascend(None, None), Ok(()));
    assert_eq!(app.current_dir, "C:\\");
    assert_eq!(app.parent_dir.as_deref(), Some("D:\\data"));
    assert_eq!(app.state, AppState::Idle);
}

#[test]
fn toggle_mode_round_trip() {
    let mut app = App::new();
    assert!(app.toggle_needs_listing());
    app.toggle_mode("/work".to_string(), Some(entries(&["src"])));
    assert_eq!(app.mode, Mode::Explorer);
    assert_eq!(app.current_dir, "/work");
    assert_eq!(app.children[0].name, "src");
    assert_eq!(app.state, AppState::Idle);
    assert!(!app.toggle_needs_listing());
    app.toggle_mode("/ignored".to_string(), None);
    assert_eq!(app.mode, Mode::UserView);
    assert_eq!(app.current_dir, "/work");
}
