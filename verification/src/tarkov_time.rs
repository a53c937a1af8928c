//! The accelerated in-game clock.
//!
//! A wall-clock second count is sped up by a fixed ratio, shifted by a fixed
//! zone offset, and reduced modulo one day; the two readouts (left and
//! right) stand twelve in-game hours apart.  The result is rendered as a
//! zero-padded `HH:MM:SS` string.

use vstd::prelude::*;
use vstd::string::StringExecFns;
use crate::text::{two_dec, append_two_dec, is_clock_digit, lemma_two_dec_value};
use vstd::arithmetic::div_mod::{
    lemma_fundamental_div_mod, lemma_mod_multiples_vanish, lemma_add_mod_noop,
    lemma_small_mod, lemma_mod_division_less_than_divisor,
};

verus! {

/// Two readouts of the in-game clock, each an `HH:MM:SS` string.
pub struct TarkovTime {
    pub right_time: String,
    pub left_time: String,
}

/// Seconds in `num` hours.
pub open spec fn hrs_spec(num: int) -> int {
    3600 * num
}

/// Seconds in `num` hours.
pub fn hrs(num: u64) -> (r: u64)
    requires
        num <= u64::MAX / 3600,
    ensures
        r == hrs_spec(num as int),
{
    proof {
        assert(60 * 60 * (num as int) <= u64::MAX as int) by (nonlinear_arith)
            requires num <= u64::MAX / 3600;
    }
    60 * 60 * num
}

/// The in-game second-of-day for wall-clock second `time`: the left readout
/// carries the three-hour zone shift alone, the right readout twelve hours
/// more.
pub open spec fn tarkov_time_of(time: int, left: bool) -> int {
    ((if left { 0 } else { hrs_spec(12) }) + hrs_spec(3) + time * 7) % hrs_spec(24)
}

/// Maps a wall-clock second count to the in-game second-of-day of one
/// readout.
pub fn real_time_to_tarkov_time(time: u64, left: bool) -> (r: u64)
    ensures
        r == tarkov_time_of(time as int, left),
        r < 86400,
{
    let tarkov_ratio: u64 = 7;
    let one_day: u64 = hrs(24);
    let russia: u64 = hrs(3);
    let offset: u64 = if left { 0 } else { hrs(12) } + russia;
    let day_second: u64 = time % one_day;
    proof {
        lemma_mod_division_less_than_divisor(time as int, 86400);
        lemma_fundamental_div_mod(time as int, 86400);
        // time * 7 leaves the same residue as (time % one_day) * 7.
        lemma_mod_multiples_vanish(
            7 * ((time as int) / 86400),
            offset + (day_second as int) * 7,
            86400,
        );
    }
    (offset + day_second * tarkov_ratio) % one_day
}

/// A second-of-day rendered as `HH:MM:SS`.
pub open spec fn hms(secs: int) -> Seq<char> {
    two_dec(secs / 3600) + seq![':'] + two_dec((secs % 3600) / 60) + seq![':'] + two_dec(secs % 60)
}

/// The left readout of the clock at wall-clock second `t`, as text.
pub open spec fn left_time_spec(t: int) -> Seq<char> {
    hms(tarkov_time_of(t, true))
}

/// The right readout of the clock at wall-clock second `t`, as text.
pub open spec fn right_time_spec(t: int) -> Seq<char> {
    hms(tarkov_time_of(t, false))
}

/// Renders a second-of-day as `HH:MM:SS`.
pub fn format_hms(secs: u64) -> (r: String)
    requires
        secs < 86400,
    ensures
        r@ == hms(secs as int),
{
    proof {
        reveal_strlit(":");
    }
    let mut out = String::new();
    append_two_dec(&mut out, secs / 3600);
    out.append(":");
    append_two_dec(&mut out, (secs % 3600) / 60);
    out.append(":");
    append_two_dec(&mut out, secs % 60);
    proof {
        assert(out@ =~= hms(secs as int));
    }
    out
}

/// A well-formed `HH:MM:SS` string: eight characters, colons in the middle,
/// digits elsewhere, and each field within its range.
pub open spec fn valid_hms(s: Seq<char>) -> bool {
    &&& s.len() == 8
    &&& is_clock_digit(s[0]) && is_clock_digit(s[1])
    &&& s[2] == ':'
    &&& is_clock_digit(s[3]) && is_clock_digit(s[4])
    &&& s[5] == ':'
    &&& is_clock_digit(s[6]) && is_clock_digit(s[7])
    &&& (s[0] as int - '0' as int) * 10 + (s[1] as int - '0' as int) < 24
    &&& (s[3] as int - '0' as int) * 10 + (s[4] as int - '0' as int) < 60
    &&& (s[6] as int - '0' as int) * 10 + (s[7] as int - '0' as int) < 60
}

/// Every second-of-day renders as a well-formed `HH:MM:SS` string whose
/// hour, minute and second fields are in range.
pub proof fn lemma_hms_valid(secs: int)
    requires
        0 <= secs < 86400,
    ensures
        valid_hms(hms(secs)),
{
    let h = secs / 3600;
    let m = (secs % 3600) / 60;
    let s = secs % 60;
    lemma_mod_division_less_than_divisor(secs, 3600);
    lemma_mod_division_less_than_divisor(secs, 60);
    lemma_mod_division_less_than_divisor(secs % 3600, 60);
    assert(0 <= h < 24) by (nonlinear_arith)
        requires 0 <= secs < 86400, h == secs / 3600;
    assert(0 <= m < 60) by (nonlinear_arith)
        requires 0 <= secs % 3600 < 3600, m == (secs % 3600) / 60;
    lemma_two_dec_value(h);
    lemma_two_dec_value(m);
    lemma_two_dec_value(s);
    assert(hms(secs)[0] == two_dec(h)[0]);
    assert(hms(secs)[1] == two_dec(h)[1]);
    assert(hms(secs)[3] == two_dec(m)[0]);
    assert(hms(secs)[4] == two_dec(m)[1]);
    assert(hms(secs)[6] == two_dec(s)[0]);
    assert(hms(secs)[7] == two_dec(s)[1]);
}

/// Both readouts of the clock are well-formed `HH:MM:SS` strings, at every
/// wall-clock second.
pub proof fn lemma_readouts_valid(t: int)
    ensures
        valid_hms(left_time_spec(t)),
        valid_hms(right_time_spec(t)),
{
    lemma_mod_division_less_than_divisor(hrs_spec(12) + hrs_spec(3) + t * 7, 86400);
    lemma_mod_division_less_than_divisor(hrs_spec(3) + t * 7, 86400);
    lemma_hms_valid(tarkov_time_of(t, true));
    lemma_hms_valid(tarkov_time_of(t, false));
}

/// The right readout stands exactly twelve in-game hours after the left
/// one, modulo one day, at every wall-clock second.
pub proof fn lemma_sides_offset(t: int)
    ensures
        tarkov_time_of(t, false) == (tarkov_time_of(t, true) + hrs_spec(12)) % hrs_spec(24),
{
    let left = hrs_spec(3) + t * 7;
    lemma_add_mod_noop(left, hrs_spec(12), 86400);
    lemma_small_mod(43200nat, 86400nat);
}

/// The clock is a function of the wall-clock second alone: two values that
/// both meet the contract of `calculate_tarkov_time` at the same second
/// carry identical strings.
pub proof fn lemma_time_deterministic(t: u64, a: TarkovTime, b: TarkovTime)
    requires
        a.left_time@ == left_time_spec(t as int),
        a.right_time@ == right_time_spec(t as int),
        b.left_time@ == left_time_spec(t as int),
        b.right_time@ == right_time_spec(t as int),
    ensures
        a.left_time@ == b.left_time@,
        a.right_time@ == b.right_time@,
{
}

/// Computes both readouts of the in-game clock for wall-clock second `now`.
/// The caller supplies `now`; the result is a function of it alone.
pub fn calculate_tarkov_time(now: u64) -> (r: TarkovTime)
    ensures
        r.left_time@ == left_time_spec(now as int),
        r.right_time@ == right_time_spec(now as int),
{
    let right_time: u64 = real_time_to_tarkov_time(now, false);
    let left_time: u64 = real_time_to_tarkov_time(now, true);
    TarkovTime {
        left_time: format_hms(left_time),
        right_time: format_hms(right_time),
    }
}

} // verus!
