//! Human-readable byte counts.

use vstd::prelude::*;
use vstd::arithmetic::div_mod::{
    lemma_div_denominator, lemma_fundamental_div_mod, lemma_fundamental_div_mod_converse,
};
use crate::text::{decimal, digit, digit_char, push_char, push_decimal};

verus! {

/// The first count of bytes that `format_number` cannot name: 1024 to the fifth.
pub const SIZE_LIMIT: u64 = 1125899906842624;

/// 1024 to the power `k`.
pub open spec fn pow1024(k: nat) -> nat
    decreases k,
{
    if k == 0 { 1 } else { 1024 * pow1024((k - 1) as nat) }
}

/// How many times 1024 goes into `n` before fewer than 1024 are left: the
/// index of the unit (`b`, `kb`, `mb`, ...) that `n` bytes are shown in.
pub open spec fn unit_step(n: nat) -> nat
    decreases n,
{
    if n < 1024 { 0 } else { 1 + unit_step(n / 1024) }
}

/// `n / 1024^unit_step(n)` in hundredths, rounded to the nearest and, on a
/// tie, to the even neighbour (what `{:.2}` does with the exact value).
pub open spec fn hundredths(n: nat) -> nat {
    let d = pow1024(unit_step(n));
    let q = (n * 100) / d;
    let r = (n * 100) % d;
    if 2 * r > d || (2 * r == d && q % 2 == 1) { q + 1 } else { q }
}

/// The unit's name for step `s`.
pub open spec fn unit_suffix(s: nat) -> Seq<char> {
    if s == 0 { seq!['b'] }
    else if s == 1 { seq!['k', 'b'] }
    else if s == 2 { seq!['m', 'b'] }
    else if s == 3 { seq!['g', 'b'] }
    else { seq!['t', 'b'] }
}

/// The text for `n` bytes: the value in its unit with two decimals, a space,
/// and the unit, e.g. `"1.50 kb"` for 1536.
pub open spec fn formatted_size(n: nat) -> Seq<char> {
    let h = hundredths(n);
    decimal(h / 100) + seq!['.', digit_char((h % 100) / 10), digit_char(h % 10), ' ']
        + unit_suffix(unit_step(n))
}

proof fn lemma_pow1024_values()
    ensures
        pow1024(0) == 1,
        pow1024(1) == 1024,
        pow1024(2) == 1048576,
        pow1024(3) == 1073741824,
        pow1024(4) == 1099511627776,
        pow1024(5) == SIZE_LIMIT,
{
    reveal_with_fuel(pow1024, 6);
}

proof fn lemma_pow1024_positive(k: nat)
    ensures
        pow1024(k) >= 1,
    decreases k,
{
    if k > 0 {
        lemma_pow1024_positive((k - 1) as nat);
    }
}

/// Below `1024^(k+1)` the unit step is at most `k`.
proof fn lemma_unit_step_bound(n: nat, k: nat)
    requires
        n < pow1024(k + 1),
    ensures
        unit_step(n) <= k,
    decreases k,
{
    if n >= 1024 {
        lemma_pow1024_positive(k);
        if k == 0 {
            assert(pow1024(1) == 1024 * pow1024(0));
        } else {
            assert(pow1024(k + 1) == 1024 * pow1024(k));
            lemma_fundamental_div_mod(n as int, 1024);
            assert(n / 1024 < pow1024(k)) by (nonlinear_arith)
                requires
                    n < 1024 * pow1024(k),
                    n == 1024 * (n / 1024) + n % 1024,
                    0 <= n % 1024 < 1024,
            ;
            lemma_unit_step_bound(n / 1024, (k - 1) as nat);
        }
    }
}

/// The unit chosen for `n` is the largest one that `n` reaches: `n` is below
/// 1024 of that unit and, unless it is bytes, at least one of it.
pub proof fn lemma_unit_is_largest_reached(n: nat)
    ensures
        n < 1024 * pow1024(unit_step(n)),
        unit_step(n) > 0 ==> pow1024(unit_step(n)) <= n,
    decreases n,
{
    if n >= 1024 {
        let m = n / 1024;
        lemma_unit_is_largest_reached(m);
        let s = unit_step(m);
        lemma_pow1024_positive(s);
        assert(pow1024(s + 1) == 1024 * pow1024(s));
        lemma_fundamental_div_mod(n as int, 1024);
        assert(n < 1024 * pow1024(s + 1) && pow1024(s + 1) <= n) by (nonlinear_arith)
            requires
                m < 1024 * pow1024(s),
                s > 0 ==> pow1024(s) <= m,
                s == 0 ==> pow1024(s) == 1,
                m >= 1,
                pow1024(s + 1) == 1024 * pow1024(s),
                n == 1024 * m + n % 1024,
                0 <= n % 1024 < 1024,
        ;
    }
}

/// Formats a count of bytes in the largest unit that it reaches, with two
/// decimals: `format_number(1536) == "1.50 kb"`. Counts of 1024^5 bytes and
/// more have no unit.
pub fn format_number(n: u64) -> (r: String)
    requires
        n < SIZE_LIMIT,
    ensures
        r@ == formatted_size(n as nat),
{
    proof {
        lemma_pow1024_values();
        lemma_unit_step_bound(n as nat, 4);
    }
    let mut v: u64 = n;
    let mut step: u64 = 0;
    let mut d: u64 = 1;
    while v >= 1024
        invariant
            n < SIZE_LIMIT,
            unit_step(n as nat) <= 4,
            pow1024(4) == 1099511627776,
            d == pow1024(step as nat),
            v == n / d,
            unit_step(n as nat) == step + unit_step(v as nat),
        decreases v,
    {
        proof {
            lemma_pow1024_positive(step as nat);
            lemma_div_denominator(n as int, d as int, 1024);
            assert(pow1024((step + 1) as nat) == 1024 * pow1024(step as nat));
            lemma_pow_monotone_to_four((step + 1) as nat);
        }
        v = v / 1024;
        step = step + 1;
        d = d * 1024;
    }
    assert(step == unit_step(n as nat));
    proof {
        lemma_pow1024_positive(step as nat);
    }
    let hundred: u64 = n * 100;
    let q: u64 = hundred / d;
    let rem: u64 = hundred % d;
    let h: u64 = if 2 * rem > d || (2 * rem == d && q % 2 == 1) { q + 1 } else { q };
    assert(h == hundredths(n as nat));
    let mut s = String::new();
    push_decimal(&mut s, h / 100);
    push_char(&mut s, '.');
    push_char(&mut s, digit((h % 100) / 10));
    push_char(&mut s, digit(h % 10));
    push_char(&mut s, ' ');
    if step == 0 {
        push_char(&mut s, 'b');
    } else {
        if step == 1 {
            push_char(&mut s, 'k');
        } else if step == 2 {
            push_char(&mut s, 'm');
        } else if step == 3 {
            push_char(&mut s, 'g');
        } else {
            push_char(&mut s, 't');
        }
        push_char(&mut s, 'b');
    }
    assert(s@ =~= formatted_size(n as nat));
    s
}

/// A step that a count below 1024^5 reaches is at most 4, so its power of 1024
/// fits in 64 bits.
proof fn lemma_pow_monotone_to_four(k: nat)
    requires
        k <= 4,
    ensures
        pow1024(k) <= 1099511627776,
{
    reveal_with_fuel(pow1024, 5);
}


/// The hundredths shown are the nearest to the exact value in the chosen
/// unit: they are off by at most half a hundredth, and exactly half only
/// when they are even.
pub proof fn lemma_hundredths_round_to_nearest(n: nat)
    ensures
        ({
            let d = pow1024(unit_step(n));
            let h = hundredths(n);
            &&& 2 * (n * 100 - h * d) <= d
            &&& 2 * (h * d - n * 100) <= d
            &&& (2 * (n * 100 - h * d) == d || 2 * (h * d - n * 100) == d) ==> h % 2 == 0
        }),
{
    let d = pow1024(unit_step(n));
    lemma_pow1024_positive(unit_step(n));
    let x = n * 100;
    let q = x / d;
    let r = x % d;
    lemma_fundamental_div_mod(x as int, d as int);
    let h = hundredths(n);
    assert(x == d * q + r);
    assert(0 <= r < d);
    if 2 * r > d || (2 * r == d && q % 2 == 1) {
        assert(h == q + 1);
        assert(h * d == q * d + d) by (nonlinear_arith)
            requires
                h == q + 1,
        ;
        assert(x == q * d + r) by (nonlinear_arith)
            requires
                x == d * q + r,
        ;
    } else {
        assert(h == q);
        assert(x == h * d + r) by (nonlinear_arith)
            requires
                x == d * q + r,
                h == q,
        ;
    }
}

/// One unit up is 1024 times as many bytes: scaling a count by 1024 moves
/// it to the next unit and keeps the number shown.
pub proof fn lemma_scaling_moves_to_next_unit(n: nat)
    requires
        n >= 1,
    ensures
        unit_step(n * 1024) == unit_step(n) + 1,
        hundredths(n * 1024) == hundredths(n),
{
    assert((n * 1024) / 1024 == n);
    let d = pow1024(unit_step(n));
    lemma_pow1024_positive(unit_step(n));
    assert(pow1024(unit_step(n) + 1) == 1024 * d);
    let x = n * 100;
    let q = x / d;
    let r = x % d;
    lemma_fundamental_div_mod(x as int, d as int);
    assert((n * 1024) * 100 == q * (1024 * d) + 1024 * r && 0 <= 1024 * r < 1024 * d)
        by (nonlinear_arith)
        requires
            x == n * 100,
            x == d * q + r,
            0 <= r < d,
    ;
    lemma_fundamental_div_mod_converse(
        ((n * 1024) * 100) as int,
        (1024 * d) as int,
        q as int,
        (1024 * r) as int,
    );
}

/// The digits of a decimal notation, read back as a number.
pub open spec fn digits_value(s: Seq<char>) -> int
    decreases s.len(),
{
    if s.len() == 0 {
        0
    } else {
        digits_value(s.drop_last()) * 10 + ((s.last() as int) - ('0' as int))
    }
}

/// The decimal notation of `n` is made of the digits `0` to `9`, has no
/// leading zero (but for zero itself), and reads back as `n`.
pub proof fn lemma_decimal_reads_back(n: nat)
    ensures
        digits_value(decimal(n)) == n,
        forall|i: int| 0 <= i < decimal(n).len() ==> '0' <= #[trigger] decimal(n)[i] <= '9',
        decimal(n).len() >= 1,
        decimal(n)[0] == '0' ==> n == 0,
    decreases n,
{
    let d = n % 10;
    assert(digit_char(d) as int - '0' as int == d && '0' <= digit_char(d) <= '9');
    if n >= 10 {
        lemma_decimal_reads_back(n / 10);
        let s = decimal(n / 10);
        assert(decimal(n) == s.push(digit_char(d)));
        assert(decimal(n).drop_last() =~= s);
        assert(decimal(n).last() == digit_char(d));
        lemma_fundamental_div_mod(n as int, 10);
        assert(digits_value(decimal(n)) == digits_value(s) * 10 + d);
        assert(forall|i: int| 0 <= i < s.len() ==> decimal(n)[i] == s[i]);
        assert(decimal(n)[0] == s[0]);
    } else {
        assert(decimal(n) =~= seq![digit_char(n)]);
        assert(decimal(n).drop_last() =~= Seq::<char>::empty());
        assert(digits_value(Seq::<char>::empty()) == 0);
        assert(decimal(n).last() == digit_char(n));
        assert(digits_value(decimal(n)) == digits_value(decimal(n).drop_last()) * 10 + (
        digit_char(n) as int - '0' as int));
    }
}

} // verus!
