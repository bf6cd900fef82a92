//! The state of the viewer and its transitions. The binary owns the
//! terminal, the background scan and the file system; it hands each result
//! to these functions and acts on what they decide.

use vstd::prelude::*;
use crate::scanner::{DirectoryEntry, UserProfile};
use crate::ui::selection::Selection;

verus! {

/// The number of frames after which the frame counter starts again at zero.
pub const FRAME_CYCLE: usize = 40;

/// The drive root that the explorer falls back to when there is no parent.
pub const DRIVE_ROOT: &'static str = "C:\\";

/// Whether a profile scan is running.
#[derive(Debug, Clone, Copy, PartialEq, Eq, Structural)]
pub enum AppState {
    Idle,
    Scanning,
}

/// Which of the two lists the viewer shows.
#[derive(Debug, Clone, Copy, PartialEq, Eq, Structural)]
pub enum Mode {
    UserView,
    Explorer,
}

/// What the viewer draws in a frame.
#[derive(Debug, Clone, Copy, PartialEq, Eq, Structural)]
pub enum Screen {
    /// The profile list.
    Users,
    /// The breakdown of the profile at this index.
    Detailed(usize),
    /// The entries of the explorer's current directory.
    Explorer,
}

/// What came of asking the background scan for its result.
pub enum ScanPoll {
    /// The scan finished with these profiles.
    Ready(Vec<UserProfile>),
    /// The scan is still running.
    Pending,
    /// The scan went away without a result.
    Disconnected,
}

/// Which directory the explorer lists when it goes up.
#[derive(Debug)]
pub enum AscendTarget {
    /// The recorded parent directory; its entries are named by file name.
    Parent(String),
    /// The drive root, entered as by `descend`.
    Root(String),
}

/// A directory listing could not be read.
#[derive(Debug, Clone, Copy, PartialEq, Eq, Structural)]
pub struct Unreadable;

/// The whole state of the viewer.
pub struct App {
    pub running: bool,
    pub mode: Mode,
    pub state: AppState,
    pub users: Vec<UserProfile>,
    pub selected_user: Option<usize>,
    pub list_state: Selection,
    pub current_frame: usize,
    pub current_dir: String,
    pub children: Vec<DirectoryEntry>,
    pub parent_dir: Option<String>,
}

/// The frame counter after `frame`: one more, back to zero at the cycle's end.
pub open spec fn next_frame(frame: usize) -> usize {
    if frame + 1 >= FRAME_CYCLE { 0 } else { (frame + 1) as usize }
}

/// The counter after `k` frames from `frame`.
pub open spec fn frames_after(frame: usize, k: nat) -> usize
    decreases k,
{
    if k == 0 { frame } else { next_frame(frames_after(frame, (k - 1) as nat)) }
}

/// The state after entering `path`, whose listing is `listing` (`None` where
/// it could not be read, which leaves the entries as they were).
pub open spec fn descended(a: App, path: String, listing: Option<Vec<DirectoryEntry>>) -> App {
    App {
        parent_dir: Some(a.current_dir),
        current_dir: path,
        children: match listing {
            Some(c) => c,
            None => a.children,
        },
        ..a
    }
}

/// The state after going up to the recorded parent `dir`, whose listing is
/// `listing` and whose own parent is `grandparent`. An unreadable listing
/// stops half way: the directory has changed, the entries and the parent
/// have not, and the scan indicator stays on.
pub open spec fn ascended(
    a: App,
    dir: String,
    listing: Option<Vec<DirectoryEntry>>,
    grandparent: Option<String>,
) -> App {
    match listing {
        Some(c) => App {
            state: AppState::Idle,
            current_dir: dir,
            children: c,
            parent_dir: grandparent,
            ..a
        },
        None => App { state: AppState::Scanning, current_dir: dir, ..a },
    }
}

/// The state after switching lists: back to the profiles from the explorer,
/// or into the explorer at `start_dir`, whose listing is `listing`.
pub open spec fn toggled(a: App, start_dir: String, listing: Option<Vec<DirectoryEntry>>) -> App {
    match a.mode {
        Mode::Explorer => App { mode: Mode::UserView, state: AppState::Idle, ..a },
        Mode::UserView => App {
            mode: Mode::Explorer,
            state: AppState::Idle,
            ..descended(a, start_dir, listing)
        },
    }
}

impl App {
    /// The counter of frames stays within its cycle.
    pub open spec fn wf(&self) -> bool {
        self.current_frame < FRAME_CYCLE
    }

    /// The state at start-up: running, on the profile list, waiting for the
    /// first scan, with nothing loaded or selected.
    pub fn new() -> (a: App)
        ensures
            a.running,
            a.mode == Mode::UserView,
            a.state == AppState::Scanning,
            a.users@.len() == 0,
            a.selected_user is None,
            a.list_state == (Selection { selected: None, offset: 0 }),
            a.current_frame == 0,
            a.current_dir@.len() == 0,
            a.children@.len() == 0,
            a.parent_dir is None,
            a.wf(),
    {
        App {
            running: true,
            mode: Mode::UserView,
            state: AppState::Scanning,
            users: Vec::new(),
            selected_user: None,
            list_state: Selection::new(),
            current_frame: 0,
            current_dir: String::new(),
            children: Vec::new(),
            parent_dir: None,
        }
    }

    /// A new profile scan has been started.
    pub fn begin_scan(&mut self)
        ensures
            *final(self) == (App { state: AppState::Scanning, ..*old(self) }),
    {
        self.state = AppState::Scanning;
    }

    /// Advances the frame counter, which drives the spinner.
    pub fn tick(&mut self)
        requires
            old(self).current_frame < usize::MAX,
        ensures
            *final(self) == (App { current_frame: next_frame(old(self).current_frame), ..*old(self) }),
            old(self).wf() ==> final(self).wf(),
    {
        self.current_frame = self.current_frame + 1;
        if self.current_frame >= FRAME_CYCLE {
            self.current_frame = 0;
        }
    }

    /// Whether the background scan is to be asked for its result.
    pub fn awaiting_scan(&self) -> (r: bool)
        ensures
            r == (self.state == AppState::Scanning),
    {
        self.state == AppState::Scanning
    }

    /// Takes in what the background scan answered: finished profiles replace
    /// the list and end the scan. Returns whether the scan is gone without a
    /// result, which is to be reported.
    pub fn receive_scan(&mut self, poll: ScanPoll) -> (disconnected: bool)
        ensures
            old(self).state == AppState::Scanning ==> (poll matches ScanPoll::Ready(users)
                ==> *final(self) == (App { state: AppState::Idle, users, ..*old(self) })),
            !(old(self).state == AppState::Scanning && poll is Ready) ==> *final(self) == *old(
                self,
            ),
            disconnected == (old(self).state == AppState::Scanning && poll is Disconnected),
    {
        if self.state == AppState::Scanning {
            match poll {
                ScanPoll::Ready(users) => {
                    self.state = AppState::Idle;
                    self.users = users;
                    false
                },
                ScanPoll::Pending => false,
                ScanPoll::Disconnected => true,
            }
        } else {
            false
        }
    }

    /// What to draw: the explorer list, the breakdown of the chosen profile,
    /// or the profile list.
    pub fn screen(&self) -> (s: Screen)
        ensures
            self.mode == Mode::Explorer ==> s == Screen::Explorer,
            self.mode == Mode::UserView ==> s == (match self.selected_user {
                Some(n) => Screen::Detailed(n),
                None => Screen::Users,
            }),
    {
        match self.mode {
            Mode::Explorer => Screen::Explorer,
            Mode::UserView => match self.selected_user {
                Some(n) => Screen::Detailed(n),
                None => Screen::Users,
            },
        }
    }

    /// Enters `path` in the explorer: the current directory becomes the
    /// parent and `listing` the entries. Where the listing could not be read
    /// the directories have changed all the same and an error is returned.
    pub fn descend(&mut self, path: String, listing: Option<Vec<DirectoryEntry>>) -> (r: Result<
        (),
        Unreadable,
    >)
        ensures
            *final(self) == descended(*old(self), path, listing),
            r is Ok <==> listing is Some,
    {
        self.parent_dir = Some(self.current_dir.clone());
        self.current_dir = path;
        match listing {
            Some(c) => {
                self.children = c;
                Ok(())
            },
            None => Err(Unreadable),
        }
    }

    /// The directory that going up will list: the recorded parent, or the
    /// drive root where none is recorded.
    pub fn ascend_target(&self) -> (t: AscendTarget)
        ensures
            self.parent_dir matches Some(d) ==> t == AscendTarget::Parent(d),
            self.parent_dir is None ==> (t matches AscendTarget::Root(root) && root@ == DRIVE_ROOT@),
    {
        match &self.parent_dir {
            Some(d) => AscendTarget::Parent(d.clone()),
            None => AscendTarget::Root(String::from_str(DRIVE_ROOT)),
        }
    }

    /// Goes up a level in the explorer. With a recorded parent, `listing` is
    /// the parent's listing and `grandparent` its own parent; an unreadable
    /// listing is an error that leaves the scan indicator on. Without one,
    /// the drive root is entered as by `descend` with `listing`, whose
    /// failure is ignored.
    pub fn ascend(&mut self, listing: Option<Vec<DirectoryEntry>>, grandparent: Option<String>) -> (r:
        Result<(), Unreadable>)
        ensures
            old(self).parent_dir matches Some(dir) ==> *final(self) == ascended(
                *old(self),
                dir,
                listing,
                grandparent,
            ),
            old(self).parent_dir is Some ==> (r is Ok <==> listing is Some),
            old(self).parent_dir is None ==> r is Ok,
            old(self).parent_dir is None ==> final(self).current_dir@ == DRIVE_ROOT@,
            old(self).parent_dir is None ==> *final(self) == (App {
                state: AppState::Idle,
                ..descended(*old(self), final(self).current_dir, listing)
            }),
    {
        self.state = AppState::Scanning;
        match &self.parent_dir {
            Some(dir) => {
                let dir = dir.clone();
                self.current_dir = dir;
                match listing {
                    None => {
                        return Err(Unreadable);
                    },
                    Some(c) => {
                        self.children = c;
                        self.parent_dir = grandparent;
                    },
                }
            },
            None => {
                let _ = self.descend(String::from_str(DRIVE_ROOT), listing);
            },
        }
        self.state = AppState::Idle;
        Ok(())
    }

    /// Whether switching lists enters the explorer, which then needs the
    /// listing of the working directory.
    pub fn toggle_needs_listing(&self) -> (r: bool)
        ensures
            r == (self.mode == Mode::UserView),
    {
        self.mode == Mode::UserView
    }

    /// Switches between the profile list and the explorer, which opens at
    /// `start_dir` with `listing` (a failed listing is ignored).
    pub fn toggle_mode(&mut self, start_dir: String, listing: Option<Vec<DirectoryEntry>>)
        ensures
            *final(self) == toggled(*old(self), start_dir, listing),
    {
        self.state = AppState::Scanning;
        match self.mode {
            Mode::Explorer => {
                self.mode = Mode::UserView;
            },
            Mode::UserView => {
                self.mode = Mode::Explorer;
                let _ = self.descend(start_dir, listing);
            },
        }
        self.state = AppState::Idle;
    }
}


/// The frame counter never leaves its cycle.
pub proof fn lemma_tick_stays_in_cycle(frame: usize)
    requires
        frame < FRAME_CYCLE,
    ensures
        next_frame(frame) < FRAME_CYCLE,
{
}

/// Within its cycle the counter moves one step per frame, so after a whole
/// cycle of frames it is back where it was.
pub proof fn lemma_frames_cycle(frame: usize, k: nat)
    requires
        frame < FRAME_CYCLE,
    ensures
        frames_after(frame, k) == (frame + k) % (FRAME_CYCLE as int),
        frames_after(frame, FRAME_CYCLE as nat) == frame,
    decreases k,
{
    if k > 0 {
        lemma_frames_cycle(frame, (k - 1) as nat);
    }
    lemma_frames_cycle_step(frame, FRAME_CYCLE as nat);
}

proof fn lemma_frames_cycle_step(frame: usize, k: nat)
    requires
        frame < FRAME_CYCLE,
    ensures
        frames_after(frame, k) == (frame + k) % (FRAME_CYCLE as int),
    decreases k,
{
    if k > 0 {
        lemma_frames_cycle_step(frame, (k - 1) as nat);
    }
}

/// Going up after entering a directory returns to the directory that was
/// left, whether or not the entered directory could be listed.
pub proof fn lemma_ascend_undoes_descend(
    a: App,
    path: String,
    listing: Option<Vec<DirectoryEntry>>,
    back_listing: Option<Vec<DirectoryEntry>>,
    grandparent: Option<String>,
)
    ensures
        descended(a, path, listing).parent_dir == Some(a.current_dir),
        ascended(descended(a, path, listing), a.current_dir, back_listing, grandparent).current_dir
            == a.current_dir,
{
}

/// Switching lists twice comes back to the list one started on.
pub proof fn lemma_toggle_twice_restores_mode(
    a: App,
    start_dir: String,
    listing: Option<Vec<DirectoryEntry>>,
    start_dir2: String,
    listing2: Option<Vec<DirectoryEntry>>,
)
    ensures
        toggled(toggled(a, start_dir, listing), start_dir2, listing2).mode == a.mode,
        toggled(a, start_dir, listing).mode != a.mode,
        toggled(a, start_dir, listing).state == AppState::Idle,
{
}


/// Entering a directory changes only where the explorer is: the directory
/// left becomes the parent, `path` the current directory, and a readable
/// listing the entries. The list shown, the scan, the profiles, the selection
/// and the frame counter are untouched.
pub proof fn lemma_descend_moves_only_location(
    a: App,
    path: String,
    listing: Option<Vec<DirectoryEntry>>,
)
    ensures
        ({
            let b = descended(a, path, listing);
            &&& b.parent_dir == Some(a.current_dir)
            &&& b.current_dir == path
            &&& (listing matches Some(c) ==> b.children == c)
            &&& (listing is None ==> b.children == a.children)
            &&& b.mode == a.mode
            &&& b.running == a.running
            &&& b.state == a.state
            &&& b.users == a.users
            &&& b.selected_user == a.selected_user
            &&& b.list_state == a.list_state
            &&& b.current_frame == a.current_frame
        }),
{
}

/// Going up changes only where the explorer is and the scan indicator: the
/// parent becomes the current directory; with a readable listing the entries
/// and the parent are replaced and the indicator is off, otherwise they are
/// kept and the indicator stays on.
pub proof fn lemma_ascend_moves_only_location(
    a: App,
    dir: String,
    listing: Option<Vec<DirectoryEntry>>,
    grandparent: Option<String>,
)
    ensures
        ({
            let b = ascended(a, dir, listing, grandparent);
            &&& b.current_dir == dir
            &&& (listing matches Some(c) ==> b.children == c && b.parent_dir == grandparent
                && b.state == AppState::Idle)
            &&& (listing is None ==> b.children == a.children && b.parent_dir == a.parent_dir
                && b.state == AppState::Scanning)
            &&& b.mode == a.mode
            &&& b.running == a.running
            &&& b.users == a.users
            &&& b.selected_user == a.selected_user
            &&& b.list_state == a.list_state
            &&& b.current_frame == a.current_frame
        }),
{
}

/// Switching lists flips the mode and ends with the scan indicator off.
/// Leaving the explorer changes nothing else; entering it moves to
/// `start_dir` as entering a directory does.
pub proof fn lemma_toggle_changes(a: App, start_dir: String, listing: Option<Vec<DirectoryEntry>>)
    ensures
        ({
            let b = toggled(a, start_dir, listing);
            &&& b.state == AppState::Idle
            &&& b.running == a.running
            &&& b.users == a.users
            &&& b.selected_user == a.selected_user
            &&& b.list_state == a.list_state
            &&& b.current_frame == a.current_frame
            &&& (a.mode == Mode::Explorer ==> b.mode == Mode::UserView && b.current_dir
                == a.current_dir && b.children == a.children && b.parent_dir == a.parent_dir)
            &&& (a.mode == Mode::UserView ==> b.mode == Mode::Explorer && b.current_dir
                == start_dir && b.parent_dir == Some(a.current_dir) && (listing matches Some(c)
                ==> b.children == c) && (listing is None ==> b.children == a.children))
        }),
{
}

} // verus!
