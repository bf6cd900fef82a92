//! The text the viewer draws: the status line, the lines of a list, the
//! controls and a profile's breakdown. Laying them out on the terminal is the
//! binary's part.

use vstd::prelude::*;
use crate::helpers::{SIZE_LIMIT, format_number, formatted_size};
use crate::scanner::{Listable, UserProfile};
use crate::text::{pad_centered, pad_left_aligned, push_char, push_centered, push_left_aligned};
use crate::ui::app::{AppState, Mode};

verus! {

/// Width of the name column of a list line.
pub const NAME_WIDTH: usize = 30;
/// Width of the size column of a list line.
pub const SIZE_WIDTH: usize = 4;
/// Width the user name is centred in on the breakdown.
pub const USERNAME_WIDTH: usize = 10;
/// Width of a size on the breakdown.
pub const FIELD_WIDTH: usize = 5;
/// Frames that each spinner character is shown for.
pub const SPINNER_FRAMES: usize = 10;

/// The spinner character for frame `frame`: `/ - \ |` in turn, each for
/// ten frames.
pub open spec fn spinner_at(frame: nat) -> char {
    let i = (frame / 10) % 4;
    if i == 0 { '/' } else if i == 1 { '-' } else if i == 2 { '\\' } else { '|' }
}

/// The status line: " Idle ", or "Scanning  " and the spinner centred in
/// three columns.
pub open spec fn status_line(state: AppState, frame: nat) -> Seq<char> {
    match state {
        AppState::Idle => " Idle "@,
        AppState::Scanning => "Scanning  "@ + pad_centered(seq![spinner_at(frame)], 3),
    }
}

/// A line of a list: the name left-aligned in 30 columns, two tabs, and the
/// size left-aligned in 4.
pub open spec fn list_line(name: Seq<char>, size: u64) -> Seq<char> {
    pad_left_aligned(name, NAME_WIDTH as nat) + seq!['\t', '\t'] + pad_left_aligned(
        formatted_size(size as nat),
        SIZE_WIDTH as nat,
    )
}

/// A labelled size of the breakdown.
pub open spec fn detail_field(label: Seq<char>, size: u64) -> Seq<char> {
    label + pad_left_aligned(formatted_size(size as nat), FIELD_WIDTH as nat)
}

/// The breakdown of a profile, one labelled size per paragraph.
pub open spec fn detail_text(u: UserProfile) -> Seq<char> {
    "Username: "@ + pad_centered(u.username@, USERNAME_WIDTH as nat)
        + detail_field("\n\n    Total Size: "@, u.total_size)
        + detail_field("\n\n    AppData Local: "@, u.appdata_local)
        + detail_field("\n\n    AppData Roaming: "@, u.appdata_roaming)
        + detail_field("\n\n    AppData Local Temp: "@, u.appdata_local_temp)
        + detail_field("\n\n    Desktop: "@, u.desktop)
        + detail_field("\n\n    Documents: "@, u.documents)
        + detail_field("\n\n    Downloads: "@, u.downloads)
        + detail_field("\n\n    Teams Cache: "@, u.teams_cache)
        + detail_field("\n\n    Onedrive: "@, u.onedrive)
        + detail_field("\n\n    Other: "@, u.other)
}

/// Every size of the profile can be formatted.
pub open spec fn profile_sizes_in_range(u: UserProfile) -> bool {
    &&& u.total_size < SIZE_LIMIT
    &&& u.appdata_local < SIZE_LIMIT
    &&& u.appdata_roaming < SIZE_LIMIT
    &&& u.appdata_local_temp < SIZE_LIMIT
    &&& u.teams_cache < SIZE_LIMIT
    &&& u.documents < SIZE_LIMIT
    &&& u.desktop < SIZE_LIMIT
    &&& u.downloads < SIZE_LIMIT
    &&& u.onedrive < SIZE_LIMIT
    &&& u.other < SIZE_LIMIT
}

/// The spinner character for `frame`.
pub fn spinner(frame: usize) -> (c: char)
    ensures
        c == spinner_at(frame as nat),
{
    let i = (frame / SPINNER_FRAMES) % 4;
    if i == 0 { '/' } else if i == 1 { '-' } else if i == 2 { '\\' } else { '|' }
}

/// The status line for the scan state and the frame counter.
pub fn status_text(state: AppState, current_frame: usize) -> (r: String)
    ensures
        r@ == status_line(state, current_frame as nat),
{
    match state {
        AppState::Idle => String::from_str(" Idle "),
        AppState::Scanning => {
            let mut s = String::from_str("Scanning  ");
            push_char(&mut s, ' ');
            push_char(&mut s, spinner(current_frame));
            push_char(&mut s, ' ');
            proof {
                let c = spinner_at(current_frame as nat);
                assert(pad_centered(seq![c], 3) =~= seq![' ', c, ' ']);
                assert(s@ =~= "Scanning  "@ + pad_centered(seq![c], 3));
            }
            s
        },
    }
}

/// The lines of a list of named sizes, in order.
pub fn list_lines<T: Listable>(items: &Vec<T>) -> (r: Vec<String>)
    requires
        forall|i: int| 0 <= i < items@.len() ==> #[trigger] items@[i].listed_size() < SIZE_LIMIT,
    ensures
        r@.len() == items@.len(),
        forall|i: int|
            0 <= i < items@.len() ==> #[trigger] r@[i]@ == list_line(
                items@[i].listed_name(),
                items@[i].listed_size(),
            ),
{
    let mut lines: Vec<String> = Vec::new();
    let mut i: usize = 0;
    while i < items.len()
        invariant
            i <= items@.len(),
            lines@.len() == i,
            forall|j: int| 0 <= j < items@.len() ==> #[trigger] items@[j].listed_size() < SIZE_LIMIT,
            forall|j: int|
                0 <= j < i ==> #[trigger] lines@[j]@ == list_line(
                    items@[j].listed_name(),
                    items@[j].listed_size(),
                ),
        decreases items@.len() - i,
    {
        let item = &items[i];
        let name = item.name();
        let size = item.size();
        assert(items@[i as int].listed_size() < SIZE_LIMIT);
        let shown = format_number(size);
        let mut line = String::new();
        push_left_aligned(&mut line, name.as_str(), NAME_WIDTH);
        push_char(&mut line, '\t');
        push_char(&mut line, '\t');
        push_left_aligned(&mut line, shown.as_str(), SIZE_WIDTH);
        assert(line@ =~= list_line(name@, size));
        lines.push(line);
        i = i + 1;
    }
    lines
}

/// The lines of the controls panel for the list shown.
pub fn control_lines(mode: Mode) -> (r: Vec<&'static str>)
    ensures
        mode == Mode::Explorer ==> r@ == seq![
            "<j> ↓↑ <k>",
            "<Backspace> Ascend",
            "<Enter> Descend",
            "<Tab> Change Mode",
            "<Esc> Exit",
        ],
        mode == Mode::UserView ==> r@ == seq![
            "<j> ↓↑ <k>",
            "<S> Start Scan",
            "<Tab> Change Mode",
            "<Esc> Exit",
        ],
{
    let mut lines: Vec<&'static str> = Vec::new();
    match mode {
        Mode::Explorer => {
            lines.push("<j> ↓↑ <k>");
            lines.push("<Backspace> Ascend");
            lines.push("<Enter> Descend");
            lines.push("<Tab> Change Mode");
            lines.push("<Esc> Exit");
        },
        Mode::UserView => {
            lines.push("<j> ↓↑ <k>");
            lines.push("<S> Start Scan");
            lines.push("<Tab> Change Mode");
            lines.push("<Esc> Exit");
        },
    }
    assert(mode == Mode::Explorer ==> lines@ =~= seq![
        "<j> ↓↑ <k>",
        "<Backspace> Ascend",
        "<Enter> Descend",
        "<Tab> Change Mode",
        "<Esc> Exit",
    ]);
    assert(mode == Mode::UserView ==> lines@ =~= seq![
        "<j> ↓↑ <k>",
        "<S> Start Scan",
        "<Tab> Change Mode",
        "<Esc> Exit",
    ]);
    lines
}

/// Appends a labelled size of the breakdown.
fn push_field(s: &mut String, label: &str, size: u64)
    requires
        size < SIZE_LIMIT,
    ensures
        final(s)@ == old(s)@ + detail_field(label@, size),
{
    s.append(label);
    let shown = format_number(size);
    push_left_aligned(s, shown.as_str(), FIELD_WIDTH);
    assert(final(s)@ =~= old(s)@ + detail_field(label@, size));
}

/// The breakdown of a profile.
pub fn detailed_text(user: &UserProfile) -> (r: String)
    requires
        profile_sizes_in_range(*user),
    ensures
        r@ == detail_text(*user),
{
    let mut s = String::from_str("Username: ");
    push_centered(&mut s, user.username.as_str(), USERNAME_WIDTH);
    push_field(&mut s, "\n\n    Total Size: ", user.total_size);
    push_field(&mut s, "\n\n    AppData Local: ", user.appdata_local);
    push_field(&mut s, "\n\n    AppData Roaming: ", user.appdata_roaming);
    push_field(&mut s, "\n\n    AppData Local Temp: ", user.appdata_local_temp);
    push_field(&mut s, "\n\n    Desktop: ", user.desktop);
    push_field(&mut s, "\n\n    Documents: ", user.documents);
    push_field(&mut s, "\n\n    Downloads: ", user.downloads);
    push_field(&mut s, "\n\n    Teams Cache: ", user.teams_cache);
    push_field(&mut s, "\n\n    Onedrive: ", user.onedrive);
    push_field(&mut s, "\n\n    Other: ", user.other);
    assert(s@ =~= detail_text(*user));
    s
}


/// `text` holds `piece` somewhere.
pub open spec fn shows(text: Seq<char>, piece: Seq<char>) -> bool {
    exists|k: int|
        0 <= k && k + piece.len() <= text.len() && #[trigger] text.subrange(k, k + piece.len())
            == piece
}

/// `piece` shows at the end of `p + piece`.
proof fn lemma_shows_end(p: Seq<char>, piece: Seq<char>)
    ensures
        shows(p + piece, piece),
{
    assert((p + piece).subrange(p.len() as int, (p.len() + piece.len()) as int) =~= piece);
}

/// What a text shows, it still shows with more text after it.
proof fn lemma_shows_extend(x: Seq<char>, piece: Seq<char>, more: Seq<char>)
    requires
        shows(x, piece),
    ensures
        shows(x + more, piece),
{
    let k = choose|k: int|
        0 <= k && k + piece.len() <= x.len() && #[trigger] x.subrange(k, k + piece.len()) == piece;
    assert((x + more).subrange(k, k + piece.len()) =~= x.subrange(k, k + piece.len()));
}

/// Each of eleven pieces written one after the other shows in the result.
proof fn lemma_pieces_show(
    f0: Seq<char>,
    f1: Seq<char>,
    f2: Seq<char>,
    f3: Seq<char>,
    f4: Seq<char>,
    f5: Seq<char>,
    f6: Seq<char>,
    f7: Seq<char>,
    f8: Seq<char>,
    f9: Seq<char>,
    f10: Seq<char>,
)
    ensures
        ({
            let t = f0 + f1 + f2 + f3 + f4 + f5 + f6 + f7 + f8 + f9 + f10;
            &&& shows(t, f0)
            &&& shows(t, f1)
            &&& shows(t, f2)
            &&& shows(t, f3)
            &&& shows(t, f4)
            &&& shows(t, f5)
            &&& shows(t, f6)
            &&& shows(t, f7)
            &&& shows(t, f8)
            &&& shows(t, f9)
            &&& shows(t, f10)
        }),
{
    lemma_shows_end(Seq::empty(), f0);
    assert(Seq::<char>::empty() + f0 =~= f0);
    lemma_shows_extend(f0, f0, f1);
    lemma_shows_extend(f0 + f1, f0, f2);
    lemma_shows_extend(f0 + f1 + f2, f0, f3);
    lemma_shows_extend(f0 + f1 + f2 + f3, f0, f4);
    lemma_shows_extend(f0 + f1 + f2 + f3 + f4, f0, f5);
    lemma_shows_extend(f0 + f1 + f2 + f3 + f4 + f5, f0, f6);
    lemma_shows_extend(f0 + f1 + f2 + f3 + f4 + f5 + f6, f0, f7);
    lemma_shows_extend(f0 + f1 + f2 + f3 + f4 + f5 + f6 + f7, f0, f8);
    lemma_shows_extend(f0 + f1 + f2 + f3 + f4 + f5 + f6 + f7 + f8, f0, f9);
    lemma_shows_extend(f0 + f1 + f2 + f3 + f4 + f5 + f6 + f7 + f8 + f9, f0, f10);
    lemma_shows_end(f0, f1);
    lemma_shows_extend(f0 + f1, f1, f2);
    lemma_shows_extend(f0 + f1 + f2, f1, f3);
    lemma_shows_extend(f0 + f1 + f2 + f3, f1, f4);
    lemma_shows_extend(f0 + f1 + f2 + f3 + f4, f1, f5);
    lemma_shows_extend(f0 + f1 + f2 + f3 + f4 + f5, f1, f6);
    lemma_shows_extend(f0 + f1 + f2 + f3 + f4 + f5 + f6, f1, f7);
    lemma_shows_extend(f0 + f1 + f2 + f3 + f4 + f5 + f6 + f7, f1, f8);
    lemma_shows_extend(f0 + f1 + f2 + f3 + f4 + f5 + f6 + f7 + f8, f1, f9);
    lemma_shows_extend(f0 + f1 + f2 + f3 + f4 + f5 + f6 + f7 + f8 + f9, f1, f10);
    lemma_shows_end(f0 + f1, f2);
    lemma_shows_extend(f0 + f1 + f2, f2, f3);
    lemma_shows_extend(f0 + f1 + f2 + f3, f2, f4);
    lemma_shows_extend(f0 + f1 + f2 + f3 + f4, f2, f5);
    lemma_shows_extend(f0 + f1 + f2 + f3 + f4 + f5, f2, f6);
    lemma_shows_extend(f0 + f1 + f2 + f3 + f4 + f5 + f6, f2, f7);
    lemma_shows_extend(f0 + f1 + f2 + f3 + f4 + f5 + f6 + f7, f2, f8);
    lemma_shows_extend(f0 + f1 + f2 + f3 + f4 + f5 + f6 + f7 + f8, f2, f9);
    lemma_shows_extend(f0 + f1 + f2 + f3 + f4 + f5 + f6 + f7 + f8 + f9, f2, f10);
    lemma_shows_end(f0 + f1 + f2, f3);
    lemma_shows_extend(f0 + f1 + f2 + f3, f3, f4);
    lemma_shows_extend(f0 + f1 + f2 + f3 + f4, f3, f5);
    lemma_shows_extend(f0 + f1 + f2 + f3 + f4 + f5, f3, f6);
    lemma_shows_extend(f0 + f1 + f2 + f3 + f4 + f5 + f6, f3, f7);
    lemma_shows_extend(f0 + f1 + f2 + f3 + f4 + f5 + f6 + f7, f3, f8);
    lemma_shows_extend(f0 + f1 + f2 + f3 + f4 + f5 + f6 + f7 + f8, f3, f9);
    lemma_shows_extend(f0 + f1 + f2 + f3 + f4 + f5 + f6 + f7 + f8 + f9, f3, f10);
    lemma_shows_end(f0 + f1 + f2 + f3, f4);
    lemma_shows_extend(f0 + f1 + f2 + f3 + f4, f4, f5);
    lemma_shows_extend(f0 + f1 + f2 + f3 + f4 + f5, f4, f6);
    lemma_shows_extend(f0 + f1 + f2 + f3 + f4 + f5 + f6, f4, f7);
    lemma_shows_extend(f0 + f1 + f2 + f3 + f4 + f5 + f6 + f7, f4, f8);
    lemma_shows_extend(f0 + f1 + f2 + f3 + f4 + f5 + f6 + f7 + f8, f4, f9);
    lemma_shows_extend(f0 + f1 + f2 + f3 + f4 + f5 + f6 + f7 + f8 + f9, f4, f10);
    lemma_shows_end(f0 + f1 + f2 + f3 + f4, f5);
    lemma_shows_extend(f0 + f1 + f2 + f3 + f4 + f5, f5, f6);
    lemma_shows_extend(f0 + f1 + f2 + f3 + f4 + f5 + f6, f5, f7);
    lemma_shows_extend(f0 + f1 + f2 + f3 + f4 + f5 + f6 + f7, f5, f8);
    lemma_shows_extend(f0 + f1 + f2 + f3 + f4 + f5 + f6 + f7 + f8, f5, f9);
    lemma_shows_extend(f0 + f1 + f2 + f3 + f4 + f5 + f6 + f7 + f8 + f9, f5, f10);
    lemma_shows_end(f0 + f1 + f2 + f3 + f4 + f5, f6);
    lemma_shows_extend(f0 + f1 + f2 + f3 + f4 + f5 + f6, f6, f7);
    lemma_shows_extend(f0 + f1 + f2 + f3 + f4 + f5 + f6 + f7, f6, f8);
    lemma_shows_extend(f0 + f1 + f2 + f3 + f4 + f5 + f6 + f7 + f8, f6, f9);
    lemma_shows_extend(f0 + f1 + f2 + f3 + f4 + f5 + f6 + f7 + f8 + f9, f6, f10);
    lemma_shows_end(f0 + f1 + f2 + f3 + f4 + f5 + f6, f7);
    lemma_shows_extend(f0 + f1 + f2 + f3 + f4 + f5 + f6 + f7, f7, f8);
    lemma_shows_extend(f0 + f1 + f2 + f3 + f4 + f5 + f6 + f7 + f8, f7, f9);
    lemma_shows_extend(f0 + f1 + f2 + f3 + f4 + f5 + f6 + f7 + f8 + f9, f7, f10);
    lemma_shows_end(f0 + f1 + f2 + f3 + f4 + f5 + f6 + f7, f8);
    lemma_shows_extend(f0 + f1 + f2 + f3 + f4 + f5 + f6 + f7 + f8, f8, f9);
    lemma_shows_extend(f0 + f1 + f2 + f3 + f4 + f5 + f6 + f7 + f8 + f9, f8, f10);
    lemma_shows_end(f0 + f1 + f2 + f3 + f4 + f5 + f6 + f7 + f8, f9);
    lemma_shows_extend(f0 + f1 + f2 + f3 + f4 + f5 + f6 + f7 + f8 + f9, f9, f10);
    lemma_shows_end(f0 + f1 + f2 + f3 + f4 + f5 + f6 + f7 + f8 + f9, f10);
}

/// The breakdown opens with "Username: " and the user name centred after
/// it, and each label is followed by the formatted size of its own field: a
/// size shows up under its label whatever the other fields hold.
pub proof fn lemma_detail_labels_own_sizes(u: UserProfile)
    ensures
        detail_text(u).subrange(0, 10) == "Username: "@,
        shows(detail_text(u), "Username: "@ + pad_centered(u.username@, USERNAME_WIDTH as nat)),
        shows(detail_text(u), detail_field("\n\n    Total Size: "@, u.total_size)),
        shows(detail_text(u), detail_field("\n\n    AppData Local: "@, u.appdata_local)),
        shows(detail_text(u), detail_field("\n\n    AppData Roaming: "@, u.appdata_roaming)),
        shows(detail_text(u), detail_field("\n\n    AppData Local Temp: "@, u.appdata_local_temp)),
        shows(detail_text(u), detail_field("\n\n    Desktop: "@, u.desktop)),
        shows(detail_text(u), detail_field("\n\n    Documents: "@, u.documents)),
        shows(detail_text(u), detail_field("\n\n    Downloads: "@, u.downloads)),
        shows(detail_text(u), detail_field("\n\n    Teams Cache: "@, u.teams_cache)),
        shows(detail_text(u), detail_field("\n\n    Onedrive: "@, u.onedrive)),
        shows(detail_text(u), detail_field("\n\n    Other: "@, u.other)),
{
    reveal_strlit("Username: ");
    assert(detail_text(u).subrange(0, 10) =~= "Username: "@);
    lemma_pieces_show(
        "Username: "@ + pad_centered(u.username@, USERNAME_WIDTH as nat),
        detail_field("\n\n    Total Size: "@, u.total_size),
        detail_field("\n\n    AppData Local: "@, u.appdata_local),
        detail_field("\n\n    AppData Roaming: "@, u.appdata_roaming),
        detail_field("\n\n    AppData Local Temp: "@, u.appdata_local_temp),
        detail_field("\n\n    Desktop: "@, u.desktop),
        detail_field("\n\n    Documents: "@, u.documents),
        detail_field("\n\n    Downloads: "@, u.downloads),
        detail_field("\n\n    Teams Cache: "@, u.teams_cache),
        detail_field("\n\n    Onedrive: "@, u.onedrive),
        detail_field("\n\n    Other: "@, u.other),
    );
}

/// A list line starts with the item's name padded to its column and holds
/// the formatted size given, whatever the name.
pub proof fn lemma_list_line_parts(name: Seq<char>, size: u64)
    ensures
        list_line(name, size).subrange(0, pad_left_aligned(name, NAME_WIDTH as nat).len() as int)
            == pad_left_aligned(name, NAME_WIDTH as nat),
        shows(
            list_line(name, size),
            pad_left_aligned(formatted_size(size as nat), SIZE_WIDTH as nat),
        ),
{
    let a = pad_left_aligned(name, NAME_WIDTH as nat);
    let b = pad_left_aligned(formatted_size(size as nat), SIZE_WIDTH as nat);
    assert(list_line(name, size).subrange(0, a.len() as int) =~= a);
    lemma_shows_end(a + seq!['\t', '\t'], b);
}

} // verus!
