//! The RFC 3339 date-time rule for `date_created`: its grammar as a
//! specification, and a verified checker.
//!
//! A value is accepted exactly when it reads
//! `YYYY-MM-DDThh:mm:ss[.f+](Z|±hh:mm)`, with a real calendar date
//! (month 1 to 12, day within the month, February 29 only in leap years),
//! hour below 24, minute and second below 60, and an offset hour below 24
//! and offset minute below 60. `T` and `Z` may also be lower case.

use vstd::prelude::*;
use crate::text::str_to_chars;

verus! {

/// Whether `c` is a decimal digit.
pub open spec fn is_digit(c: char) -> bool {
    48 <= c as u32 && c as u32 <= 57
}

/// Numeric value of a decimal digit character.
pub open spec fn digit_val(c: char) -> int {
    c as u32 - 48
}

/// Value of the two digits at positions `i` and `i + 1`.
pub open spec fn two_digit(s: Seq<char>, i: int) -> int {
    10 * digit_val(s[i]) + digit_val(s[i + 1])
}

/// Value of the four year digits at the start of the text.
pub open spec fn year_val(s: Seq<char>) -> int {
    1000 * digit_val(s[0]) + 100 * digit_val(s[1]) + 10 * digit_val(s[2]) + digit_val(s[3])
}

/// Gregorian leap-year rule.
pub open spec fn is_leap_year(y: int) -> bool {
    y % 4 == 0 && (y % 100 != 0 || y % 400 == 0)
}

/// Number of days of month `m` (1-based) in year `y`.
pub open spec fn days_in_month(y: int, m: int) -> int {
    if m == 2 {
        if is_leap_year(y) { 29 } else { 28 }
    } else if m == 4 || m == 6 || m == 9 || m == 11 {
        30
    } else {
        31
    }
}

/// The fixed date-time prefix `YYYY-MM-DDThh:mm:ss`, with its separators,
/// digit positions and component ranges.
pub open spec fn date_time_ok(s: Seq<char>) -> bool {
    &&& is_digit(s[0]) && is_digit(s[1]) && is_digit(s[2]) && is_digit(s[3])
    &&& s[4] == '-'
    &&& is_digit(s[5]) && is_digit(s[6])
    &&& s[7] == '-'
    &&& is_digit(s[8]) && is_digit(s[9])
    &&& s[10] == 'T' || s[10] == 't'
    &&& is_digit(s[11]) && is_digit(s[12])
    &&& s[13] == ':'
    &&& is_digit(s[14]) && is_digit(s[15])
    &&& s[16] == ':'
    &&& is_digit(s[17]) && is_digit(s[18])
    &&& 1 <= two_digit(s, 5) <= 12
    &&& 1 <= two_digit(s, 8) <= days_in_month(year_val(s), two_digit(s, 5))
    &&& two_digit(s, 11) <= 23
    &&& two_digit(s, 14) <= 59
    &&& two_digit(s, 17) <= 59
}

/// Position where the offset part starts: the final `Z`, or six characters
/// before the end for a numeric `±hh:mm` offset.
pub open spec fn offset_start(s: Seq<char>) -> int {
    if s[s.len() - 1] == 'Z' || s[s.len() - 1] == 'z' {
        s.len() - 1
    } else {
        s.len() - 6
    }
}

/// The region between the seconds and the offset is empty, or a point
/// followed by at least one digit.
pub open spec fn frac_ok(s: Seq<char>, off: int) -> bool {
    off == 19 || (off >= 21 && s[19] == '.' && forall|k: int| 20 <= k < off ==> is_digit(s[k]))
}

/// The offset part is `Z`/`z`, or a sign with an hour below 24 and a
/// minute below 60.
pub open spec fn offset_ok(s: Seq<char>, off: int) -> bool {
    if s[off] == 'Z' || s[off] == 'z' {
        off == s.len() - 1
    } else {
        &&& off == s.len() - 6
        &&& s[off] == '+' || s[off] == '-'
        &&& is_digit(s[off + 1]) && is_digit(s[off + 2])
        &&& s[off + 3] == ':'
        &&& is_digit(s[off + 4]) && is_digit(s[off + 5])
        &&& two_digit(s, off + 1) <= 23
        &&& two_digit(s, off + 4) <= 59
    }
}

/// The RFC 3339 date-time grammar accepted for `date_created`.
pub open spec fn is_rfc3339(s: Seq<char>) -> bool {
    &&& s.len() >= 20
    &&& date_time_ok(s)
    &&& 19 <= offset_start(s) <= s.len() - 1
    &&& frac_ok(s, offset_start(s))
    &&& offset_ok(s, offset_start(s))
}

/// Whether `c` is a decimal digit.
pub fn digit(c: char) -> (b: bool)
    ensures
        b == is_digit(c),
{
    let u = c as u32;
    48 <= u && u <= 57
}

/// Numeric value of digit `c`.
pub fn dval(c: char) -> (d: u32)
    requires
        is_digit(c),
    ensures
        d == digit_val(c),
{
    c as u32 - 48
}

/// Value of the two digits of `v` at `i` and `i + 1`.
fn two(v: &Vec<char>, i: usize) -> (d: u32)
    requires
        i + 1 < v.len(),
        is_digit(v@[i as int]),
        is_digit(v@[i + 1]),
    ensures
        d == two_digit(v@, i as int),
{
    10 * dval(v[i]) + dval(v[i + 1])
}

/// Verified checker for the RFC 3339 grammar over a character vector.
pub fn check_rfc3339_chars(v: &Vec<char>) -> (b: bool)
    ensures
        b == is_rfc3339(v@),
{
    let n = v.len();
    if n < 20 {
        return false;
    }
    // Fixed separators of the date-time prefix.
    if !(v[4] == '-' && v[7] == '-' && (v[10] == 'T' || v[10] == 't') && v[13] == ':' && v[16]
        == ':') {
        return false;
    }
    // Digit positions of the date-time prefix.
    if !(digit(v[0]) && digit(v[1]) && digit(v[2]) && digit(v[3]) && digit(v[5]) && digit(v[6])
        && digit(v[8]) && digit(v[9]) && digit(v[11]) && digit(v[12]) && digit(v[14]) && digit(
        v[15],
    ) && digit(v[17]) && digit(v[18])) {
        return false;
    }
    let year = 1000 * dval(v[0]) + 100 * dval(v[1]) + 10 * dval(v[2]) + dval(v[3]);
    let month = two(v, 5);
    let day = two(v, 8);
    let hour = two(v, 11);
    let minute = two(v, 14);
    let second = two(v, 17);
    if month < 1 || month > 12 {
        return false;
    }
    let month_days: u32 = if month == 2 {
        if year % 4 == 0 && (year % 100 != 0 || year % 400 == 0) {
            29
        } else {
            28
        }
    } else if month == 4 || month == 6 || month == 9 || month == 11 {
        30
    } else {
        31
    };
    if day < 1 || day > month_days {
        return false;
    }
    if hour > 23 || minute > 59 || second > 59 {
        return false;
    }
    // Offset position, from the last character.
    let last = v[n - 1];
    let off: usize = if last == 'Z' || last == 'z' {
        n - 1
    } else {
        if n < 25 {
            return false;
        }
        n - 6
    };
    proof {
        assert(off == offset_start(v@));
    }
    // Fractional seconds between position 19 and the offset.
    if off != 19 {
        if off < 21 || v[19] != '.' {
            return false;
        }
        let mut k: usize = 20;
        while k < off
            invariant
                20 <= k <= off,
                off < v.len(),
                off == offset_start(v@),
                forall|j: int| 20 <= j < k ==> is_digit(v@[j]),
            decreases off - k,
        {
            if !digit(v[k]) {
                proof {
                    assert(20 <= k < off && !is_digit(v@[k as int]));
                    assert(!frac_ok(v@, off as int));
                }
                return false;
            }
            k = k + 1;
        }
    }
    // The offset itself.
    if v[off] == 'Z' || v[off] == 'z' {
        off == n - 1
    } else {
        if off != n - 6 {
            return false;
        }
        if !(v[off] == '+' || v[off] == '-') {
            return false;
        }
        if !(digit(v[off + 1]) && digit(v[off + 2]) && v[off + 3] == ':' && digit(v[off + 4])
            && digit(v[off + 5])) {
            return false;
        }
        two(v, off + 1) <= 23 && two(v, off + 4) <= 59
    }
}

/// Verified checker for the RFC 3339 grammar over a string slice.
pub fn rfc3339_ok(s: &str) -> (b: bool)
    ensures
        b == is_rfc3339(s@),
{
    let v = str_to_chars(s);
    check_rfc3339_chars(&v)
}

} // verus!
