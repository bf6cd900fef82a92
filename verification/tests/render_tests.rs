use rdsk::scanner::{DirectoryEntry, UserProfile};
use rdsk::ui::app::{AppState, Mode};
use rdsk::ui::render::{control_lines, detailed_text, list_lines, spinner, status_text};

#[test]
fn spinner_turns_every_ten_frames() {
    assert_eq!(spinner(0), '/');
    assert_eq!(spinner(9), '/');
    assert_eq!(spinner(10), '-');
    assert_eq!(spinner(25), '\\');
    assert_eq!(spinner(39), '|');
    assert_eq!(spinner(40), '/');
}

#[test]
fn status_lines() {
    assert_eq!(status_text(AppState::Idle, 17), format!(" Idle "));
    assert_eq!(status_text(AppState::Scanning, 0), format!("Scanning  {:^3}", "/"));
    assert_eq!(status_text(AppState::Scanning, 31), "Scanning   | ");
}

#[test]
fn list_lines_pad_names() {
    let items = vec![
        DirectoryEntry::new("notes.txt".to_string(), 1536),
        DirectoryEntry::new("a-very-long-directory-name-over-thirty".to_string(), 3),
        DirectoryEntry::new("é".to_string(), 0),
    ];
    let lines = list_lines(&items);
    assert_eq!(lines.len(), 3);
    assert_eq!(lines[0], format!("{:<30}\t\t{:<4}", "notes.txt", "1.50 kb"));
    assert_eq!(lines[1], "a-very-long-directory-name-over-thirty\t\t3.00 b");
    assert_eq!(lines[2], format!("{:<30}\t\t{:<4}", "é", "0.00 b"));
    let users = vec![UserProfile::new("root".to_string())];
    assert_eq!(list_lines(&users)[0], format!("{:<30}\t\t{:<4}", "root", "0.00 b"));
}

#[test]
fn controls_by_mode() {
    assert_eq!(
        control_lines(Mode::Explorer),
        vec!["<j> ↓↑ <k>", "<Backspace> Ascend", "<Enter> Descend", "<Tab> Change Mode", "<Esc> Exit"]
    );
    assert_eq!(
        control_lines(Mode::UserView),
        vec!["<j> ↓↑ <k>", "<S> Start Scan", "<Tab> Change Mode", "<Esc> Exit"]
    );
}

#[test]
fn detailed_breakdown() {
    let mut u = UserProfile::new("ann".to_string());
    u.total_size = 2048;
    u.documents = 1024;
    u.other = 1024;
    let expected = format!(
        "Username: {:^10}\n
    Total Size: {:<5}\n
    AppData Local: {:<5}\n
    AppData Roaming: {:<5}\n
    AppData Local Temp: {:<5}\n
    Desktop: {:<5}\n
    Documents: {:<5}\n
    Downloads: {:<5}\n
    Teams Cache: {:<5}\n
    Onedrive: {:<5}\n
    Other: {:<5}",
        "ann", "2.00 kb", "0.00 b", "0.00 b", "0.00 b", "0.00 b", "1.00 kb", "0.00 b", "0.00 b",
        "0.00 b", "1.00 kb"
    );
    assert_eq!(detailed_text(&u), expected);
    assert!(detailed_text(&u).starts_with("Username:    ann    \n\n    Total Size: 2.00 kb"));
}
