//! Decimal rendering of the integers that appear in clock strings and in
//! the protocol payloads.

use vstd::prelude::*;
use vstd::string::StringExecFns;

verus! {

/// Relies on `String::push`: appends the given character to the end of the
/// string.
pub assume_specification[ String::push ](s: &mut String, ch: char)
    ensures
        final(s)@ == old(s)@ + seq![ch],
;

/// The decimal digit character for `d` in `0..10`.
pub open spec fn dec_digit(d: int) -> char {
    if d == 0 { '0' }
    else if d == 1 { '1' }
    else if d == 2 { '2' }
    else if d == 3 { '3' }
    else if d == 4 { '4' }
    else if d == 5 { '5' }
    else if d == 6 { '6' }
    else if d == 7 { '7' }
    else if d == 8 { '8' }
    else { '9' }
}

/// `n` in `0..100` as two zero-padded digits.
pub open spec fn two_dec(n: int) -> Seq<char> {
    seq![dec_digit(n / 10), dec_digit(n % 10)]
}

/// A nonnegative number in ordinary decimal notation, most significant
/// digit first, no padding.
pub open spec fn dec_str(n: nat) -> Seq<char>
    decreases n,
{
    if n < 10 {
        seq![dec_digit(n as int)]
    } else {
        dec_str(n / 10) + seq![dec_digit((n % 10) as int)]
    }
}

/// A signed number in decimal notation: a leading minus sign when negative.
pub open spec fn dec_str_signed(n: int) -> Seq<char> {
    if n < 0 {
        seq!['-'] + dec_str((-n) as nat)
    } else {
        dec_str(n as nat)
    }
}

/// A decimal digit character.
pub open spec fn is_clock_digit(c: char) -> bool {
    '0' <= c && c <= '9'
}

/// The digit character for `d` reads back as `d`.
pub proof fn lemma_dec_digit_value(d: int)
    requires
        0 <= d < 10,
    ensures
        is_clock_digit(dec_digit(d)),
        dec_digit(d) as int - '0' as int == d,
{
}

/// A two-digit field reads back as the value it renders.
pub proof fn lemma_two_dec_value(n: int)
    requires
        0 <= n < 100,
    ensures
        is_clock_digit(two_dec(n)[0]),
        is_clock_digit(two_dec(n)[1]),
        (two_dec(n)[0] as int - '0' as int) * 10 + (two_dec(n)[1] as int - '0' as int) == n,
{
    lemma_dec_digit_value(n / 10);
    lemma_dec_digit_value(n % 10);
}

/// The one-character string for digit `d`.
pub fn digit_str(d: u64) -> (r: &'static str)
    requires
        d < 10,
    ensures
        r@ == seq![dec_digit(d as int)],
{
    proof {
        reveal_strlit("0");
        reveal_strlit("1");
        reveal_strlit("2");
        reveal_strlit("3");
        reveal_strlit("4");
        reveal_strlit("5");
        reveal_strlit("6");
        reveal_strlit("7");
        reveal_strlit("8");
        reveal_strlit("9");
    }
    let r: &'static str = if d == 0 { "0" }
    else if d == 1 { "1" }
    else if d == 2 { "2" }
    else if d == 3 { "3" }
    else if d == 4 { "4" }
    else if d == 5 { "5" }
    else if d == 6 { "6" }
    else if d == 7 { "7" }
    else if d == 8 { "8" }
    else { "9" };
    proof {
        assert(r@ =~= seq![dec_digit(d as int)]);
    }
    r
}

/// Appends `n` in `0..100` as two zero-padded digits.
pub fn append_two_dec(out: &mut String, n: u64)
    requires
        n < 100,
    ensures
        final(out)@ == old(out)@ + two_dec(n as int),
{
    out.append(digit_str(n / 10));
    out.append(digit_str(n % 10));
    assert(out@ =~= old(out)@ + two_dec(n as int));
}

/// Appends `n` in ordinary decimal notation.
pub fn append_u64_dec(out: &mut String, n: u64)
    ensures
        final(out)@ == old(out)@ + dec_str(n as nat),
    decreases n,
{
    if n < 10 {
        out.append(digit_str(n));
    } else {
        append_u64_dec(out, n / 10);
        out.append(digit_str(n % 10));
        assert(out@ =~= old(out)@ + dec_str(n as nat));
    }
}

/// Appends `n` in decimal notation, with a minus sign when negative.
pub fn append_i32_dec(out: &mut String, n: i32)
    ensures
        final(out)@ == old(out)@ + dec_str_signed(n as int),
{
    proof {
        reveal_strlit("-");
    }
    if n < 0 {
        out.append("-");
        let wide: i64 = n as i64;
        let magnitude: u64 = (-wide) as u64;
        assert(magnitude == -(n as int));
        append_u64_dec(out, magnitude);
        assert(out@ =~= old(out)@ + dec_str_signed(n as int));
    } else {
        append_u64_dec(out, n as u64);
    }
}

} // verus!
