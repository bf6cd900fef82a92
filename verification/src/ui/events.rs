//! What a key press does to the viewer. The binary polls the terminal and
//! hands each key event here; the action returned tells it what else to do.

use vstd::prelude::*;
use crate::ui::app::{App, AppState, Mode};
use crate::ui::selection::{Selection, next_index, previous_index};

verus! {

/// The keys the viewer tells apart.
#[derive(Debug, Clone, Copy, PartialEq, Eq, Structural)]
pub enum Key {
    Esc,
    Enter,
    Backspace,
    Tab,
    Char(char),
    /// Any other key.
    Other,
}

/// Whether a key went down, is held, or came up.
#[derive(Debug, Clone, Copy, PartialEq, Eq, Structural)]
pub enum KeyKind {
    Press,
    Repeat,
    Release,
}

/// A key event from the terminal.
#[derive(Debug, Clone, Copy, PartialEq, Eq, Structural)]
pub struct KeyInput {
    pub code: Key,
    pub kind: KeyKind,
}

/// What the binary does after a key has been handled.
#[derive(Debug, Clone, Copy, PartialEq, Eq, Structural)]
pub enum Action {
    /// Nothing more.
    Stay,
    /// Start a new profile scan in the background.
    SpawnScan,
    /// Enter the explorer entry at this index.
    Descend(usize),
    /// Go up a level in the explorer.
    Ascend,
    /// Switch between the profile list and the explorer.
    ToggleMode,
}

/// The state with the viewer stopped.
pub open spec fn quit(a: App) -> App {
    App { running: false, ..a }
}

/// The state with the list selection moved one item down.
pub open spec fn moved_down(a: App) -> App {
    App {
        list_state: Selection {
            selected: Some(next_index(a.list_state.selected)),
            offset: a.list_state.offset,
        },
        ..a
    }
}

/// The state with the list selection moved one item up.
pub open spec fn moved_up(a: App) -> App {
    App {
        list_state: Selection {
            selected: Some(previous_index(a.list_state.selected)),
            offset: a.list_state.offset,
        },
        ..a
    }
}

/// What a key does in the explorer: the keys its controls panel lists.
pub open spec fn explorer_key(a: App, code: Key) -> (App, Action) {
    match code {
        Key::Esc => (quit(a), Action::Stay),
        Key::Char('j') => (moved_down(a), Action::Stay),
        Key::Char('k') => (moved_up(a), Action::Stay),
        Key::Enter => match a.list_state.selected {
            Some(i) => (a, Action::Descend(i)),
            None => (a, Action::Stay),
        },
        Key::Backspace => (a, Action::Ascend),
        Key::Tab => (a, Action::ToggleMode),
        _ => (a, Action::Stay),
    }
}

/// What a key does on the profile list.
pub open spec fn user_list_key(a: App, code: Key) -> (App, Action) {
    match code {
        Key::Esc => (quit(a), Action::Stay),
        Key::Char('j') => (moved_down(a), Action::Stay),
        Key::Char('k') => (moved_up(a), Action::Stay),
        Key::Enter => (App { selected_user: a.list_state.selected, ..a }, Action::Stay),
        Key::Char('S') => (App { state: AppState::Scanning, ..a }, Action::SpawnScan),
        Key::Tab => (a, Action::ToggleMode),
        _ => (a, Action::Stay),
    }
}

/// What a key does on a profile's breakdown.
pub open spec fn detail_key(a: App, code: Key) -> (App, Action) {
    match code {
        Key::Esc => (quit(a), Action::Stay),
        Key::Backspace => (
            App { selected_user: None, list_state: Selection { selected: None, offset: 0 }, ..a },
            Action::Stay,
        ),
        _ => (a, Action::Stay),
    }
}

/// The state and the action after `event`: only key presses count; what a
/// key does depends on the list shown.
pub open spec fn key_step(a: App, event: Option<KeyInput>) -> (App, Action) {
    match event {
        None => (a, Action::Stay),
        Some(k) => if k.kind != KeyKind::Press {
            (a, Action::Stay)
        } else {
            match a.mode {
                Mode::Explorer => explorer_key(a, k.code),
                Mode::UserView => match a.selected_user {
                    None => user_list_key(a, k.code),
                    Some(_) => detail_key(a, k.code),
                },
            }
        },
    }
}

/// Handles the key event read in this frame, if any.
pub fn handle_events(app: &mut App, event: Option<KeyInput>) -> (r: Action)
    ensures
        *final(app) == key_step(*old(app), event).0,
        r == key_step(*old(app), event).1,
{
    let key = match event {
        None => {
            return Action::Stay;
        },
        Some(k) => k,
    };
    if key.kind != KeyKind::Press {
        return Action::Stay;
    }
    match app.mode {
        Mode::Explorer => match key.code {
            Key::Esc => {
                app.running = false;
                Action::Stay
            },
            Key::Char('j') => {
                app.list_state.select_next();
                Action::Stay
            },
            Key::Char('k') => {
                app.list_state.select_previous();
                Action::Stay
            },
            Key::Enter => match app.list_state.selected() {
                Some(i) => Action::Descend(i),
                None => Action::Stay,
            },
            Key::Backspace => Action::Ascend,
            Key::Tab => Action::ToggleMode,
            _ => Action::Stay,
        },
        Mode::UserView => {
            if app.selected_user.is_none() {
                match key.code {
                    Key::Esc => {
                        app.running = false;
                        Action::Stay
                    },
                    Key::Char('j') => {
                        app.list_state.select_next();
                        Action::Stay
                    },
                    Key::Char('k') => {
                        app.list_state.select_previous();
                        Action::Stay
                    },
                    Key::Enter => {
                        app.selected_user = app.list_state.selected();
                        Action::Stay
                    },
                    Key::Char('S') => {
                        app.begin_scan();
                        Action::SpawnScan
                    },
                    Key::Tab => Action::ToggleMode,
                    _ => Action::Stay,
                }
            } else {
                match key.code {
                    Key::Esc => {
                        app.running = false;
                        Action::Stay
                    },
                    Key::Backspace => {
                        app.selected_user = None;
                        app.list_state.select(None);
                        Action::Stay
                    },
                    _ => Action::Stay,
                }
            }
        },
    }
}


/// Escape stops the viewer from every list and every breakdown, and changes
/// nothing else.
pub proof fn lemma_escape_quits(a: App)
    ensures
        key_step(a, Some(KeyInput { code: Key::Esc, kind: KeyKind::Press })) == (
        quit(a), Action::Stay),
{
}

/// Only key presses do anything: repeats, releases and frames without a key
/// leave the state as it is.
pub proof fn lemma_only_presses_count(a: App, event: Option<KeyInput>)
    requires
        event matches Some(k) ==> k.kind != KeyKind::Press,
    ensures
        key_step(a, event) == (a, Action::Stay),
{
}

/// Keys never touch the loaded profiles, the explorer's directories and
/// entries, or the frame counter; so they keep the state well formed.
pub proof fn lemma_keys_keep_data(a: App, event: Option<KeyInput>)
    ensures
        ({
            let b = key_step(a, event).0;
            &&& b.users == a.users
            &&& b.children == a.children
            &&& b.current_dir == a.current_dir
            &&& b.parent_dir == a.parent_dir
            &&& b.current_frame == a.current_frame
            &&& b.mode == a.mode
            &&& a.wf() ==> b.wf()
        }),
{
}

/// On the profile list, Enter opens the breakdown of the selected profile,
/// and Backspace on that breakdown returns to the list with nothing selected.
pub proof fn lemma_open_and_close_detail(a: App, i: usize)
    requires
        a.mode == Mode::UserView,
        a.selected_user is None,
        a.list_state.selected == Some(i),
    ensures
        ({
            let opened = key_step(a, Some(KeyInput { code: Key::Enter, kind: KeyKind::Press })).0;
            let closed = key_step(
                opened,
                Some(KeyInput { code: Key::Backspace, kind: KeyKind::Press }),
            ).0;
            &&& opened.selected_user == Some(i)
            &&& closed.selected_user is None
            &&& closed.list_state == (Selection { selected: None, offset: 0 })
        }),
{
}

/// On either list, moving down and then up returns to the same item,
/// unless the selection was at the largest index.
pub proof fn lemma_down_then_up(a: App, i: usize)
    requires
        a.mode == Mode::Explorer || a.selected_user is None,
        a.list_state.selected == Some(i),
        i < usize::MAX,
    ensures
        key_step(
            key_step(a, Some(KeyInput { code: Key::Char('j'), kind: KeyKind::Press })).0,
            Some(KeyInput { code: Key::Char('k'), kind: KeyKind::Press }),
        ).0.list_state == a.list_state,
{
}

/// `S` on the profile list starts a scan and asks for one in the background.
pub proof fn lemma_scan_key_starts_scan(a: App)
    requires
        a.mode == Mode::UserView,
        a.selected_user is None,
    ensures
        key_step(a, Some(KeyInput { code: Key::Char('S'), kind: KeyKind::Press })) == (
        App { state: AppState::Scanning, ..a }, Action::SpawnScan),
{
}


/// The action a key press asks for depends only on the view and the key:
/// on the profile list only `S` (scan) and Tab (switch) ask for anything; on
/// a profile's breakdown nothing does; in the explorer Enter enters the
/// selected entry, Backspace goes up and Tab switches.
pub proof fn lemma_actions_by_view(a: App, code: Key)
    ensures
        ({
            let act = key_step(a, Some(KeyInput { code, kind: KeyKind::Press })).1;
            &&& (a.mode == Mode::UserView && a.selected_user is None) ==> act == (match code {
                Key::Char('S') => Action::SpawnScan,
                Key::Tab => Action::ToggleMode,
                _ => Action::Stay,
            })
            &&& (a.mode == Mode::UserView && a.selected_user is Some) ==> act == Action::Stay
            &&& a.mode == Mode::Explorer ==> act == (match code {
                Key::Enter => match a.list_state.selected {
                    Some(i) => Action::Descend(i),
                    None => Action::Stay,
                },
                Key::Backspace => Action::Ascend,
                Key::Tab => Action::ToggleMode,
                _ => Action::Stay,
            })
        }),
{
}

/// Enter on the profile list opens the selected profile and changes nothing
/// else; only Esc stops the viewer; only `S` on the profile list starts a
/// scan.
pub proof fn lemma_key_effects(a: App, code: Key)
    ensures
        ({
            let b = key_step(a, Some(KeyInput { code, kind: KeyKind::Press })).0;
            &&& (a.mode == Mode::UserView && a.selected_user is None && code == Key::Enter) ==> b
                == (App { selected_user: a.list_state.selected, ..a })
            &&& b.running == (a.running && code != Key::Esc)
            &&& b.state == (if a.mode == Mode::UserView && a.selected_user is None && code
                == Key::Char('S') {
                AppState::Scanning
            } else {
                a.state
            })
        }),
{
}


/// On either list, `j` moves the selection one item down and `k` one item
/// up (staying at the ends of the index range); with nothing selected, `j`
/// selects the first item and `k` the largest index. The scroll offset is
/// kept.
pub proof fn lemma_j_down_k_up(a: App)
    requires
        a.mode == Mode::Explorer || a.selected_user is None,
    ensures
        ({
            let down = key_step(a, Some(KeyInput { code: Key::Char('j'), kind: KeyKind::Press })).0;
            let up = key_step(a, Some(KeyInput { code: Key::Char('k'), kind: KeyKind::Press })).0;
            &&& down.list_state.offset == a.list_state.offset
            &&& up.list_state.offset == a.list_state.offset
            &&& (a.list_state.selected matches Some(i) ==> down.list_state.selected == Some(
                if i < usize::MAX { (i + 1) as usize } else { i },
            ) && up.list_state.selected == Some(if i > 0 { (i - 1) as usize } else { 0 }))
            &&& (a.list_state.selected is None ==> down.list_state.selected == Some(0usize)
                && up.list_state.selected == Some(usize::MAX))
            &&& down.selected_user == a.selected_user
            &&& up.selected_user == a.selected_user
        }),
{
}

} // verus!
