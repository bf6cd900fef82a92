//! What a scan of user profiles and directories computes: directory totals,
//! the per-folder breakdown of a profile, and the entries of a listing.
//! Reading the file system is the caller's part; it hands the sizes in.

use vstd::prelude::*;

verus! {

/// The profiles root that user folders are joined to.
pub const USERS_ROOT: &'static str = "C:\\Users\\";
/// Folder of a profile counted as local application data.
pub const APPDATA_LOCAL: &'static str = "AppData\\Local\\";
/// Folder of a profile counted as roaming application data.
pub const APPDATA_ROAMING: &'static str = "AppData\\Roaming\\";
/// Folder of a profile counted as temporary files.
pub const APPDATA_LOCAL_TEMP: &'static str = "AppData\\Local\\Temp";
/// Folder of a profile counted as the Teams cache.
pub const TEAMS_CACHE: &'static str = "AppData\\Local\\Microsoft\\Teams\\Cache";
/// Folder of a profile counted as documents.
pub const DOCUMENTS: &'static str = "Documents";
/// Folder of a profile counted as downloads.
pub const DOWNLOADS: &'static str = "Downloads";
/// Folder of a profile counted as the desktop.
pub const DESKTOP: &'static str = "Desktop";
/// Folder of a profile counted as OneDrive.
pub const ONEDRIVE: &'static str = "Onedrive\\";

/// Something that can be shown as a line of a list: a name and a size.
pub trait Listable {
    spec fn listed_name(&self) -> Seq<char>;

    spec fn listed_size(&self) -> u64;

    fn name(&self) -> (r: String)
        ensures
            r@ == self.listed_name(),
    ;

    fn size(&self) -> (r: u64)
        ensures
            r == self.listed_size(),
    ;
}

/// One entry of a directory listing with the bytes below it.
#[derive(Debug)]
pub struct DirectoryEntry {
    pub name: String,
    pub total_size: u64,
}

impl DirectoryEntry {
    pub fn new(name: String, total_size: u64) -> (e: Self)
        ensures
            e.name == name,
            e.total_size == total_size,
    {
        DirectoryEntry { name, total_size }
    }
}

impl Listable for DirectoryEntry {
    open spec fn listed_name(&self) -> Seq<char> {
        self.name@
    }

    open spec fn listed_size(&self) -> u64 {
        self.total_size
    }

    fn name(&self) -> (r: String) {
        self.name.clone()
    }

    fn size(&self) -> (r: u64) {
        self.total_size
    }
}

/// The disk usage of one user profile, in bytes, broken down by folder.
#[derive(Debug)]
pub struct UserProfile {
    pub username: String,
    pub total_size: u64,
    pub appdata_local: u64,
    pub appdata_roaming: u64,
    pub appdata_local_temp: u64,
    pub teams_cache: u64,
    pub documents: u64,
    pub desktop: u64,
    pub downloads: u64,
    pub onedrive: u64,
    pub other: u64,
}

/// The sizes of the folders of a profile that are counted on their own.
#[derive(Debug, Clone, Copy)]
pub struct FolderSizes {
    pub appdata_local: u64,
    pub appdata_roaming: u64,
    pub appdata_local_temp: u64,
    pub teams_cache: u64,
    pub documents: u64,
    pub downloads: u64,
    pub desktop: u64,
    pub onedrive: u64,
}

/// The sum of the folder sizes.
pub open spec fn folders_sum(f: FolderSizes) -> int {
    f.appdata_local + f.appdata_roaming + f.appdata_local_temp + f.teams_cache + f.documents
        + f.downloads + f.desktop + f.onedrive
}

/// The profile of `username` with `total` bytes of which `folders` are
/// counted by folder and the rest is "other".
pub open spec fn profile_of(username: String, total: u64, folders: FolderSizes) -> UserProfile {
    UserProfile {
        username,
        total_size: total,
        appdata_local: folders.appdata_local,
        appdata_roaming: folders.appdata_roaming,
        appdata_local_temp: folders.appdata_local_temp,
        teams_cache: folders.teams_cache,
        documents: folders.documents,
        desktop: folders.desktop,
        downloads: folders.downloads,
        onedrive: folders.onedrive,
        other: (total - folders_sum(folders)) as u64,
    }
}

impl UserProfile {
    /// An empty profile named `filename`: every size is zero.
    pub fn new(filename: String) -> (p: Self)
        ensures
            p.username == filename,
            p.total_size == 0,
            p.appdata_local == 0,
            p.appdata_roaming == 0,
            p.appdata_local_temp == 0,
            p.teams_cache == 0,
            p.documents == 0,
            p.desktop == 0,
            p.downloads == 0,
            p.onedrive == 0,
            p.other == 0,
    {
        UserProfile {
            username: filename,
            total_size: 0,
            appdata_local: 0,
            appdata_roaming: 0,
            appdata_local_temp: 0,
            teams_cache: 0,
            documents: 0,
            desktop: 0,
            downloads: 0,
            onedrive: 0,
            other: 0,
        }
    }

    /// The profile of a user folder of `total_size` bytes whose counted
    /// folders hold `folders`; "other" is what the folders leave of the total.
    /// `None` where the folders add up to more than the total, where the
    /// subtraction would go below zero.
    pub fn from_scan(username: String, total_size: u64, folders: FolderSizes) -> (r: Option<
        UserProfile,
    >)
        ensures
            r is Some <==> folders_sum(folders) <= total_size,
            r matches Some(p) ==> p == profile_of(username, total_size, folders),
    {
        let mut user = UserProfile::new(username);
        user.total_size = total_size;
        user.appdata_local = folders.appdata_local;
        user.appdata_roaming = folders.appdata_roaming;
        user.appdata_local_temp = folders.appdata_local_temp;
        user.teams_cache = folders.teams_cache;
        user.documents = folders.documents;
        user.downloads = folders.downloads;
        user.desktop = folders.desktop;
        user.onedrive = folders.onedrive;
        let mut other: u64 = total_size;
        if other < folders.appdata_local {
            return None;
        }
        other = other - folders.appdata_local;
        if other < folders.appdata_roaming {
            return None;
        }
        other = other - folders.appdata_roaming;
        if other < folders.appdata_local_temp {
            return None;
        }
        other = other - folders.appdata_local_temp;
        if other < folders.teams_cache {
            return None;
        }
        other = other - folders.teams_cache;
        if other < folders.documents {
            return None;
        }
        other = other - folders.documents;
        if other < folders.downloads {
            return None;
        }
        other = other - folders.downloads;
        if other < folders.desktop {
            return None;
        }
        other = other - folders.desktop;
        if other < folders.onedrive {
            return None;
        }
        other = other - folders.onedrive;
        user.other = other;
        Some(user)
    }
}

impl Listable for UserProfile {
    open spec fn listed_name(&self) -> Seq<char> {
        self.username@
    }

    open spec fn listed_size(&self) -> u64 {
        self.total_size
    }

    fn name(&self) -> (r: String) {
        self.username.clone()
    }

    fn size(&self) -> (r: u64) {
        self.total_size
    }
}

/// A profile's folder breakdown always adds up: the counted folders and
/// "other" make up the total.
pub proof fn lemma_profile_accounts_for_total(username: String, total: u64, folders: FolderSizes)
    requires
        folders_sum(folders) <= total,
    ensures
        ({
            let p = profile_of(username, total, folders);
            p.appdata_local + p.appdata_roaming + p.appdata_local_temp + p.teams_cache
                + p.documents + p.downloads + p.desktop + p.onedrive + p.other == p.total_size
        }),
{
}


/// What the metadata of a directory entry says it is.
#[derive(Debug, Clone, Copy, PartialEq, Eq, Structural)]
pub enum EntryKind {
    /// A regular file; its size is its length.
    File,
    /// A directory; its size is the total below it.
    Directory,
    /// A symbolic link (or junction); never followed.
    Symlink,
    /// Neither a file, a directory nor a link.
    Other,
    /// An entry whose metadata could not be read.
    Unreadable,
}

/// One entry of a directory being totalled.
#[derive(Debug, Clone, Copy)]
pub struct ScannedEntry {
    pub kind: EntryKind,
    pub size: u64,
}

/// The bytes an entry adds to its directory's total: files and directories
/// count, links and the rest do not.
pub open spec fn contribution(e: ScannedEntry) -> nat {
    match e.kind {
        EntryKind::File => e.size as nat,
        EntryKind::Directory => e.size as nat,
        _ => 0,
    }
}

/// The sum of the contributions of `entries`.
pub open spec fn entries_total(entries: Seq<ScannedEntry>) -> nat
    decreases entries.len(),
{
    if entries.len() == 0 {
        0
    } else {
        entries_total(entries.drop_last()) + contribution(entries.last())
    }
}

/// The total size of a directory from its listing: the sum of the sizes of
/// its files and subdirectories, links skipped. A directory that cannot be
/// listed counts as empty. `None` where the sum does not fit in 64 bits.
pub fn directory_total(listing: &Option<Vec<ScannedEntry>>) -> (r: Option<u64>)
    ensures
        listing is None ==> r == Some(0u64),
        listing matches Some(v) ==> (r is Some <==> entries_total(v@) <= u64::MAX),
        listing matches Some(v) ==> (r matches Some(t) ==> t == entries_total(v@)),
{
    match listing {
        None => Some(0),
        Some(entries) => {
            let mut total: u64 = 0;
            let mut i: usize = 0;
            while i < entries.len()
                invariant
                    i <= entries@.len(),
                    listing matches Some(v) && v@ == entries@,
                    total == entries_total(entries@.subrange(0, i as int)),
                decreases entries@.len() - i,
            {
                let e = entries[i];
                assert(entries@.subrange(0, i + 1).drop_last() =~= entries@.subrange(0, i as int));
                let add: u64 = match e.kind {
                    EntryKind::File => e.size,
                    EntryKind::Directory => e.size,
                    _ => 0,
                };
                if total > u64::MAX - add {
                    proof {
                        lemma_entries_total_prefix(entries@, i + 1);
                    }
                    return None;
                }
                total = total + add;
                i = i + 1;
            }
            assert(entries@.subrange(0, i as int) =~= entries@);
            Some(total)
        }
    }
}

/// A prefix of a listing never totals more than the whole.
proof fn lemma_entries_total_prefix(entries: Seq<ScannedEntry>, k: int)
    requires
        0 <= k <= entries.len(),
    ensures
        entries_total(entries.subrange(0, k)) <= entries_total(entries),
    decreases entries.len(),
{
    if k < entries.len() {
        assert(entries.drop_last().subrange(0, k) =~= entries.subrange(0, k));
        lemma_entries_total_prefix(entries.drop_last(), k);
    } else {
        assert(entries.subrange(0, k) =~= entries);
    }
}

/// Links, entries that are neither files nor directories, and unreadable
/// entries never change a directory's total.
pub proof fn lemma_skipped_entries_add_nothing(entries: Seq<ScannedEntry>, e: ScannedEntry)
    requires
        e.kind != EntryKind::File,
        e.kind != EntryKind::Directory,
    ensures
        entries_total(entries.push(e)) == entries_total(entries),
{
    assert(entries.push(e).drop_last() =~= entries);
}

/// What one entry of the profiles root yielded: its name, the bytes below
/// it, and, for a directory, the sizes of its counted folders.
#[derive(Debug)]
pub struct UserScan {
    pub name: String,
    pub total_size: u64,
    /// `None` for an entry that is not a directory.
    pub folders: Option<FolderSizes>,
}

/// The profiles made from `scans`, in order: one per directory, nothing for
/// the other entries; `None` where some directory's folders add up to more
/// than its total.
pub open spec fn scanned_profiles(scans: Seq<UserScan>) -> Option<Seq<UserProfile>>
    decreases scans.len(),
{
    if scans.len() == 0 {
        Some(Seq::empty())
    } else {
        let last = scans.last();
        match scanned_profiles(scans.drop_last()) {
            None => None,
            Some(ps) => match last.folders {
                None => Some(ps),
                Some(f) => if folders_sum(f) <= last.total_size {
                    Some(ps.push(profile_of(last.name, last.total_size, f)))
                } else {
                    None
                },
            },
        }
    }
}

/// Builds the profiles of the user folders found under the profiles root:
/// entries that are not directories are left out, the others keep their
/// order.
pub fn collect_profiles(scans: &Vec<UserScan>) -> (r: Option<Vec<UserProfile>>)
    ensures
        r matches Some(v) ==> scanned_profiles(scans@) == Some(v@),
        r is None ==> scanned_profiles(scans@) is None,
{
    let mut users: Vec<UserProfile> = Vec::new();
    let mut i: usize = 0;
    while i < scans.len()
        invariant
            i <= scans@.len(),
            scanned_profiles(scans@.subrange(0, i as int)) == Some(users@),
        decreases scans@.len() - i,
    {
        let scan = &scans[i];
        assert(scans@.subrange(0, i + 1).drop_last() =~= scans@.subrange(0, i as int));
        match scan.folders {
            None => {},
            Some(f) => {
                match UserProfile::from_scan(scan.name.clone(), scan.total_size, f) {
                    Some(p) => users.push(p),
                    None => {
                        proof {
                            lemma_scanned_profiles_fail_prefix(scans@, i + 1);
                        }
                        return None;
                    },
                }
            },
        }
        i = i + 1;
    }
    assert(scans@.subrange(0, i as int) =~= scans@);
    Some(users)
}

/// Once a prefix of the scans fails, the whole does.
proof fn lemma_scanned_profiles_fail_prefix(scans: Seq<UserScan>, k: int)
    requires
        0 <= k <= scans.len(),
        scanned_profiles(scans.subrange(0, k)) is None,
    ensures
        scanned_profiles(scans) is None,
    decreases scans.len(),
{
    if k < scans.len() {
        assert(scans.drop_last().subrange(0, k) =~= scans.subrange(0, k));
        lemma_scanned_profiles_fail_prefix(scans.drop_last(), k);
    } else {
        assert(scans.subrange(0, k) =~= scans);
    }
}

/// Every profile built from a scan has as many profiles as the scan has
/// directories, and each adds up: its folders and "other" make up its total.
pub proof fn lemma_collected_profiles_add_up(scans: Seq<UserScan>)
    requires
        scanned_profiles(scans) is Some,
    ensures
        forall|i: int|
            0 <= i < scanned_profiles(scans)->0.len() ==> {
                let p = #[trigger] scanned_profiles(scans)->0[i];
                p.appdata_local + p.appdata_roaming + p.appdata_local_temp + p.teams_cache
                    + p.documents + p.downloads + p.desktop + p.onedrive + p.other == p.total_size
            },
        scanned_profiles(scans)->0.len() == scans.filter(|s: UserScan| s.folders is Some).len(),
    decreases scans.len(),
{
    reveal_with_fuel(Seq::filter, 1);
    if scans.len() > 0 {
        lemma_collected_profiles_add_up(scans.drop_last());
    }
}

/// The name shown for an explorer entry: its stem, and its extension after a
/// dot where it has one.
pub fn display_name(stem: String, ext: String) -> (r: String)
    ensures
        ext@.len() == 0 ==> r@ == stem@,
        ext@.len() > 0 ==> r@ == stem@ + seq!['.'] + ext@,
{
    if ext.as_str().unicode_len() == 0 {
        stem
    } else {
        let mut name = stem;
        crate::text::push_char(&mut name, '.');
        name.append(ext.as_str());
        name
    }
}


/// A directory's total is a plain sum over its listing: an empty listing
/// totals zero, each file and each subdirectory adds its whole size, wherever
/// it stands, and any other entry adds nothing.
pub proof fn lemma_entries_total_is_sum(s: Seq<ScannedEntry>, e: ScannedEntry)
    ensures
        entries_total(Seq::<ScannedEntry>::empty()) == 0,
        e.kind == EntryKind::File ==> entries_total(s.push(e)) == entries_total(s) + e.size,
        e.kind == EntryKind::Directory ==> entries_total(s.push(e)) == entries_total(s) + e.size,
        e.kind != EntryKind::File && e.kind != EntryKind::Directory ==> entries_total(s.push(e))
            == entries_total(s),
{
    assert(s.push(e).drop_last() =~= s);
}

/// Totalling two listings one after the other is totalling each and adding.
pub proof fn lemma_entries_total_concat(s: Seq<ScannedEntry>, t: Seq<ScannedEntry>)
    ensures
        entries_total(s + t) == entries_total(s) + entries_total(t),
    decreases t.len(),
{
    if t.len() == 0 {
        assert(s + t =~= s);
    } else {
        lemma_entries_total_concat(s, t.drop_last());
        assert((s + t).drop_last() =~= s + t.drop_last());
        assert((s + t).last() == t.last());
    }
}

/// A profile keeps each folder's size in the field of that folder, its name
/// and its total, and "other" is the total less all the folders.
pub proof fn lemma_profile_keeps_folders(username: String, total: u64, f: FolderSizes)
    requires
        folders_sum(f) <= total,
    ensures
        ({
            let p = profile_of(username, total, f);
            &&& p.username == username
            &&& p.total_size == total
            &&& p.appdata_local == f.appdata_local
            &&& p.appdata_roaming == f.appdata_roaming
            &&& p.appdata_local_temp == f.appdata_local_temp
            &&& p.teams_cache == f.teams_cache
            &&& p.documents == f.documents
            &&& p.downloads == f.downloads
            &&& p.desktop == f.desktop
            &&& p.onedrive == f.onedrive
            &&& p.other == total - (f.appdata_local + f.appdata_roaming + f.appdata_local_temp
                + f.teams_cache + f.documents + f.downloads + f.desktop + f.onedrive)
        }),
{
}

/// A list shows a profile by its user name and its total size, and a
/// directory entry by its name and its total size.
pub proof fn lemma_listed_name_and_size(p: UserProfile, d: DirectoryEntry)
    ensures
        p.listed_name() == p.username@,
        p.listed_size() == p.total_size,
        d.listed_name() == d.name@,
        d.listed_size() == d.total_size,
{
}


/// Scanning one more entry of the profiles root appends at the end: an
/// entry that is not a directory adds no profile, a directory adds its own
/// profile after those already built, and a directory whose folders exceed
/// its total makes the whole collection fail.
pub proof fn lemma_scan_appends(scans: Seq<UserScan>, x: UserScan)
    requires
        scanned_profiles(scans) is Some,
    ensures
        x.folders is None ==> scanned_profiles(scans.push(x)) == scanned_profiles(scans),
        x.folders matches Some(f) ==> (folders_sum(f) <= x.total_size ==> scanned_profiles(
            scans.push(x),
        ) == Some(scanned_profiles(scans)->0.push(profile_of(x.name, x.total_size, f)))),
        x.folders matches Some(f) ==> (folders_sum(f) > x.total_size ==> scanned_profiles(
            scans.push(x),
        ) is None),
{
    assert(scans.push(x).drop_last() =~= scans);
}

} // verus!
