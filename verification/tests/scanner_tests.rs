use rdsk::scanner::{
    collect_profiles, directory_total, display_name, DirectoryEntry, EntryKind, FolderSizes,
    Listable, ScannedEntry, UserProfile, UserScan,
};

fn folders(each: u64) -> FolderSizes {
    FolderSizes {
        appdata_local: each,
        appdata_roaming: each,
        appdata_local_temp: each,
        teams_cache: each,
        documents: each,
        downloads: each,
        desktop: each,
        onedrive: each,
    }
}

#[test]
fn directory_entry_new_keeps_fields() {
    let e = DirectoryEntry::new("photos".to_string(), 42);
    assert_eq!(e.name, "photos");
    assert_eq!(e.total_size, 42);
    assert_eq!(e.name(), "photos");
    assert_eq!(e.size(), 42);
}

#[test]
fn user_profile_new_is_empty() {
    let p = UserProfile::new("alice".to_string());
    assert_eq!(p.username, "alice");
    assert_eq!(p.name(), "alice");
    for v in [
        p.total_size,
        p.appdata_local,
        p.appdata_roaming,
        p.appdata_local_temp,
        p.teams_cache,
        p.documents,
        p.desktop,
        p.downloads,
        p.onedrive,
        p.other,
    ] {
        assert_eq!(v, 0);
    }
    assert_eq!(p.size(), 0);
}

#[test]
fn profile_other_is_the_rest() {
    let f = FolderSizes {
        appdata_local: 10,
        appdata_roaming: 20,
        appdata_local_temp: 3,
        teams_cache: 4,
        documents: 50,
        downloads: 6,
        desktop: 7,
        onedrive: 100,
    };
    let p = UserProfile::from_scan("bob".to_string(), 1000, f).unwrap();
    assert_eq!(p.username, "bob");
    assert_eq!(p.total_size, 1000);
    assert_eq!(p.appdata_local, 10);
    assert_eq!(p.appdata_roaming, 20);
    assert_eq!(p.appdata_local_temp, 3);
    assert_eq!(p.teams_cache, 4);
    assert_eq!(p.documents, 50);
    assert_eq!(p.downloads, 6);
    assert_eq!(p.desktop, 7);
    assert_eq!(p.onedrive, 100);
    assert_eq!(p.other, 800);
    let sum = p.appdata_local + p.appdata_roaming + p.appdata_local_temp + p.teams_cache
        + p.documents + p.downloads + p.desktop + p.onedrive + p.other;
    assert_eq!(sum, p.total_size);
}

#[test]
fn profile_with_folders_exceeding_total_is_refused() {
    assert!(UserProfile::from_scan("c".to_string(), 7, folders(1)).is_none());
    assert_eq!(UserProfile::from_scan("c".to_string(), 8, folders(1)).unwrap().other, 0);
}

#[test]
fn collect_keeps_directories_in_order() {
    let scans = vec![
        UserScan { name: "a".to_string(), total_size: 100, folders: Some(folders(2)) },
        UserScan { name: "desktop.ini".to_string(), total_size: 5, folders: None },
        UserScan { name: "b".to_string(), total_size: 16, folders: Some(folders(1)) },
    ];
    let users = collect_profiles(&scans).unwrap();
    assert_eq!(users.len(), 2);
    assert_eq!(users[0].username, "a");
    assert_eq!(users[0].other, 84);
    assert_eq!(users[1].username, "b");
    assert_eq!(users[1].other, 8);
}

#[test]
fn collect_fails_when_a_profile_does_not_add_up() {
    let scans = vec![
        UserScan { name: "a".to_string(), total_size: 100, folders: Some(folders(2)) },
        UserScan { name: "b".to_string(), total_size: 1, folders: Some(folders(1)) },
    ];
    assert!(collect_profiles(&scans).is_none());
    let empty: Vec<UserScan> = Vec::new();
    assert_eq!(collect_profiles(&empty).unwrap().len(), 0);
}

#[test]
fn directory_total_skips_links() {
    let entries = vec![
        ScannedEntry { kind: EntryKind::File, size: 10 },
        ScannedEntry { kind: EntryKind::Symlink, size: 1000 },
        ScannedEntry { kind: EntryKind::Directory, size: 32 },
        ScannedEntry { kind: EntryKind::Unreadable, size: 5 },
        ScannedEntry { kind: EntryKind::Other, size: 7 },
    ];
    assert_eq!(directory_total(&Some(entries)), Some(42));
    assert_eq!(directory_total(&None), Some(0));
    assert_eq!(directory_total(&Some(Vec::new())), Some(0));
}

#[test]
fn directory_total_overflow_is_none() {
    let entries = vec![
        ScannedEntry { kind: EntryKind::File, size: u64::MAX },
        ScannedEntry { kind: EntryKind::File, size: 1 },
    ];
    assert_eq!(directory_total(&Some(entries)), None);
    let entries = vec![
        ScannedEntry { kind: EntryKind::File, size: u64::MAX },
        ScannedEntry { kind: EntryKind::Symlink, size: 1 },
    ];
    assert_eq!(directory_total(&Some(entries)), Some(u64::MAX));
}

#[test]
fn display_name_joins_extension() {
    assert_eq!(display_name("report".to_string(), "pdf".to_string()), "report.pdf");
    assert_eq!(display_name("Makefile".to_string(), String::new()), "Makefile");
    assert_eq!(display_name(String::new(), String::new()), "");
}
