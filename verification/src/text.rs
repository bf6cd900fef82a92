//! Building display strings character by character.

use vstd::prelude::*;

verus! {

/// Appends one character to a `String` (`String::push` of std: "Appends the
/// given `char` to the end of this `String`"). Trusted: the contract restates
/// that sentence.
#[verifier::external_body]
pub(crate) fn push_char(s: &mut String, c: char)
    ensures
        final(s)@ == old(s)@.push(c),
{
    s.push(c);
}

/// The ASCII digit for `d`, for `d < 10`.
pub open spec fn digit_char(d: nat) -> char {
    if d == 0 { '0' }
    else if d == 1 { '1' }
    else if d == 2 { '2' }
    else if d == 3 { '3' }
    else if d == 4 { '4' }
    else if d == 5 { '5' }
    else if d == 6 { '6' }
    else if d == 7 { '7' }
    else if d == 8 { '8' }
    else { '9' }
}

/// Decimal notation of `n`, without leading zeros (`"0"` for zero).
pub open spec fn decimal(n: nat) -> Seq<char>
    decreases n,
{
    if n < 10 {
        seq![digit_char(n)]
    } else {
        decimal(n / 10).push(digit_char(n % 10))
    }
}

/// `n` copies of the space character.
pub open spec fn spaces(n: nat) -> Seq<char> {
    Seq::new(n, |i: int| ' ')
}

/// What `format!("{:<width$}", s)` gives: `s` followed by spaces up to
/// `width` characters.
pub open spec fn pad_left_aligned(s: Seq<char>, width: nat) -> Seq<char> {
    if s.len() < width {
        s + spaces((width - s.len()) as nat)
    } else {
        s
    }
}

/// What `format!("{:^width$}", s)` gives: `s` between spaces, the extra one
/// (for an odd count) on the right.
pub open spec fn pad_centered(s: Seq<char>, width: nat) -> Seq<char> {
    if s.len() < width {
        let pad = (width - s.len()) as nat;
        spaces(pad / 2) + s + spaces((pad - pad / 2) as nat)
    } else {
        s
    }
}

/// The digit character for `d`.
pub fn digit(d: u64) -> (c: char)
    requires
        d < 10,
    ensures
        c == digit_char(d as nat),
{
    if d == 0 { '0' }
    else if d == 1 { '1' }
    else if d == 2 { '2' }
    else if d == 3 { '3' }
    else if d == 4 { '4' }
    else if d == 5 { '5' }
    else if d == 6 { '6' }
    else if d == 7 { '7' }
    else if d == 8 { '8' }
    else { '9' }
}

/// Appends the decimal notation of `n`.
pub fn push_decimal(s: &mut String, n: u64)
    ensures
        final(s)@ == old(s)@ + decimal(n as nat),
    decreases n,
{
    if n >= 10 {
        push_decimal(s, n / 10);
    }
    push_char(s, digit(n % 10));
    proof {
        if n >= 10 {
            assert(decimal(n as nat) == decimal((n / 10) as nat).push(digit_char((n % 10) as nat)));
        }
        assert(final(s)@ =~= old(s)@ + decimal(n as nat));
    }
}

/// Appends `count` spaces.
pub fn push_spaces(s: &mut String, count: usize)
    ensures
        final(s)@ == old(s)@ + spaces(count as nat),
{
    let ghost start = s@;
    let mut i: usize = 0;
    while i < count
        invariant
            i <= count,
            s@ == start + spaces(i as nat),
        decreases count - i,
    {
        push_char(s, ' ');
        i = i + 1;
        assert(s@ =~= start + spaces(i as nat));
    }
}

/// Appends `item` padded on the right to `width` characters, as
/// `format!("{:<width$}", item)` does.
pub fn push_left_aligned(s: &mut String, item: &str, width: usize)
    ensures
        final(s)@ == old(s)@ + pad_left_aligned(item@, width as nat),
{
    let len = item.unicode_len();
    s.append(item);
    if len < width {
        push_spaces(s, width - len);
    }
    assert(final(s)@ =~= old(s)@ + pad_left_aligned(item@, width as nat));
}

/// Appends `item` centred in `width` characters, as
/// `format!("{:^width$}", item)` does.
pub fn push_centered(s: &mut String, item: &str, width: usize)
    ensures
        final(s)@ == old(s)@ + pad_centered(item@, width as nat),
{
    let len = item.unicode_len();
    if len < width {
        let pad = width - len;
        push_spaces(s, pad / 2);
        s.append(item);
        push_spaces(s, pad - pad / 2);
    } else {
        s.append(item);
    }
    assert(final(s)@ =~= old(s)@ + pad_centered(item@, width as nat));
}

} // verus!
