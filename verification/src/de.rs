//! The executable decoder: reads the wire text, proved equal to the
//! parsing functions of `wire`.

use vstd::prelude::*;
use vstd::string::StrSliceExecFns;
use crate::rfc3339::{digit, dval, is_digit};
use crate::wire::{
    sp_lit, sp_str, sp_str_body, sp_u64, sp_u32, sp_digits, hex_val, unesc_named, ctl_char,
    lemma_sp_digits_lower,
};

verus! {

/// Reads the fixed text `pat` at position `i`.
pub fn p_lit(cs: &Vec<char>, i: usize, pat: &str) -> (r: Option<usize>)
    requires
        i <= cs.len(),
    ensures
        match r {
            Some(j) => i <= j <= cs.len() && sp_lit(cs@.skip(i as int), pat@) == Some(
                cs@.skip(j as int),
            ),
            None => sp_lit(cs@.skip(i as int), pat@) is None,
        },
{
    let m: usize = pat.unicode_len();
    if m > cs.len() - i {
        return None;
    }
    let mut k: usize = 0;
    while k < m
        invariant
            k <= m,
            i + m <= cs.len(),
            m == pat@.len(),
            forall|x: int| 0 <= x < k ==> cs@[i + x] == pat@[x],
        decreases m - k,
    {
        if cs[i + k] != pat.get_char(k) {
            proof {
                assert(cs@.skip(i as int).take(m as int)[k as int] == cs@[i + k]);
                assert(cs@.skip(i as int).take(m as int) != pat@);
            }
            return None;
        }
        k = k + 1;
    }
    proof {
        assert(cs@.skip(i as int).take(m as int) =~= pat@);
        assert(cs@.skip(i as int).skip(m as int) =~= cs@.skip(i + m));
    }
    Some(i + m)
}

/// Value of a hexadecimal digit character, or -1.
fn hexv(c: char) -> (r: i32)
    ensures
        r == hex_val(c),
        r <= 15,
{
    let u = c as u32;
    if 48 <= u && u <= 57 {
        (u - 48) as i32
    } else if 97 <= u && u <= 102 {
        (u - 87) as i32
    } else if 65 <= u && u <= 70 {
        (u - 55) as i32
    } else {
        -1
    }
}

/// The character a single-letter escape stands for.
fn unesc(e: char) -> (c: char)
    ensures
        c == unesc_named(e),
{
    if e == 'b' { '\u{8}' } else if e == 'f' { '\u{c}' } else if e == 'n' { '\n' }
    else if e == 'r' { '\r' } else if e == 't' { '\t' } else { e }
}

/// The control character with code `v`.
fn ctlc(v: u32) -> (c: char)
    requires
        v < 32,
    ensures
        c == ctl_char(v as int),
{
    if v == 0 { '\u{0}' } else if v == 1 { '\u{1}' } else if v == 2 { '\u{2}' }
    else if v == 3 { '\u{3}' } else if v == 4 { '\u{4}' } else if v == 5 { '\u{5}' }
    else if v == 6 { '\u{6}' } else if v == 7 { '\u{7}' } else if v == 8 { '\u{8}' }
    else if v == 9 { '\u{9}' } else if v == 10 { '\u{a}' } else if v == 11 { '\u{b}' }
    else if v == 12 { '\u{c}' } else if v == 13 { '\u{d}' } else if v == 14 { '\u{e}' }
    else if v == 15 { '\u{f}' } else if v == 16 { '\u{10}' } else if v == 17 { '\u{11}' }
    else if v == 18 { '\u{12}' } else if v == 19 { '\u{13}' } else if v == 20 { '\u{14}' }
    else if v == 21 { '\u{15}' } else if v == 22 { '\u{16}' } else if v == 23 { '\u{17}' }
    else if v == 24 { '\u{18}' } else if v == 25 { '\u{19}' } else if v == 26 { '\u{1a}' }
    else if v == 27 { '\u{1b}' } else if v == 28 { '\u{1c}' } else if v == 29 { '\u{1d}' }
    else if v == 30 { '\u{1e}' } else { '\u{1f}' }
}

/// Reads a string body up to and over its closing quote, returning the
/// characters it stands for.
fn p_str_body(cs: &Vec<char>, i: usize) -> (r: Option<(Vec<char>, usize)>)
    requires
        i <= cs.len(),
    ensures
        match r {
            Some((t, j)) => i <= j <= cs.len() && sp_str_body(cs@.skip(i as int)) == Some(
                (t@, cs@.skip(j as int)),
            ),
            None => sp_str_body(cs@.skip(i as int)) is None,
        },
    decreases cs.len() - i,
{
    if i == cs.len() {
        return None;
    }
    let c = cs[i];
    if c == '"' {
        proof {
            assert(cs@.skip(i as int).skip(1) =~= cs@.skip(i + 1));
        }
        return Some((Vec::new(), i + 1));
    }
    if c == '\\' {
        if i + 1 == cs.len() {
            return None;
        }
        let e = cs[i + 1];
        if e == '"' || e == '\\' || e == '/' || e == 'b' || e == 'f' || e == 'n' || e == 'r' || e
            == 't' {
            proof {
                assert(cs@.skip(i as int).skip(2) =~= cs@.skip(i + 2));
            }
            match p_str_body(cs, i + 2) {
                Some((t, j)) => {
                    let mut t = t;
                    t.insert(0, unesc(e));
                    proof {
                        assert(t@ =~= seq![unesc_named(e)] + t@.skip(1));
                    }
                    Some((t, j))
                },
                None => None,
            }
        } else if e == 'u' {
            if cs.len() - i < 6 {
                return None;
            }
            let h2 = hexv(cs[i + 2]);
            let h3 = hexv(cs[i + 3]);
            let h4 = hexv(cs[i + 4]);
            let h5 = hexv(cs[i + 5]);
            if h2 >= 0 && h3 >= 0 && h4 >= 0 && h5 >= 0 {
                let v: i32 = 4096 * h2 + 256 * h3 + 16 * h4 + h5;
                if v < 32 {
                    proof {
                        assert(cs@.skip(i as int).skip(6) =~= cs@.skip(i + 6));
                    }
                    match p_str_body(cs, i + 6) {
                        Some((t, j)) => {
                            let mut t = t;
                            t.insert(0, ctlc(v as u32));
                            proof {
                                assert(t@ =~= seq![ctl_char(v as int)] + t@.skip(1));
                            }
                            Some((t, j))
                        },
                        None => None,
                    }
                } else {
                    None
                }
            } else {
                None
            }
        } else {
            None
        }
    } else if (c as u32) < 32 {
        None
    } else {
        proof {
            assert(cs@.skip(i as int).skip(1) =~= cs@.skip(i + 1));
        }
        match p_str_body(cs, i + 1) {
            Some((t, j)) => {
                let mut t = t;
                t.insert(0, c);
                proof {
                    assert(t@ =~= seq![c] + t@.skip(1));
                }
                Some((t, j))
            },
            None => None,
        }
    }
}

/// Reads a whole string value at position `i`.
pub fn p_str(cs: &Vec<char>, i: usize) -> (r: Option<(Vec<char>, usize)>)
    requires
        i <= cs.len(),
    ensures
        match r {
            Some((t, j)) => i <= j <= cs.len() && sp_str(cs@.skip(i as int)) == Some(
                (t@, cs@.skip(j as int)),
            ),
            None => sp_str(cs@.skip(i as int)) is None,
        },
{
    if i == cs.len() {
        return None;
    }
    if cs[i] != '"' {
        return None;
    }
    proof {
        assert(cs@.skip(i as int).skip(1) =~= cs@.skip(i + 1));
    }
    p_str_body(cs, i + 1)
}

/// Reads digits greedily onto `acc`; reports a value out of 64-bit range.
fn p_digits(cs: &Vec<char>, i: usize, acc: u64) -> (r: Option<(u64, usize)>)
    requires
        i <= cs.len(),
    ensures
        match r {
            Some((v, j)) => i <= j <= cs.len() && sp_digits(cs@.skip(i as int), acc as nat) == (
                v as nat,
                cs@.skip(j as int),
            ),
            None => sp_digits(cs@.skip(i as int), acc as nat).0 > u64::MAX,
        },
    decreases cs.len() - i,
{
    if i == cs.len() {
        return Some((acc, i));
    }
    let c = cs[i];
    if !digit(c) {
        return Some((acc, i));
    }
    let d = dval(c) as u64;
    proof {
        assert(cs@.skip(i as int).skip(1) =~= cs@.skip(i + 1));
    }
    if acc > (u64::MAX - d) / 10 {
        proof {
            let accn = (acc * 10 + d) as nat;
            lemma_sp_digits_lower(cs@.skip(i + 1), accn);
            assert((u64::MAX - d) / 10 * 10 + 9 >= u64::MAX - d);
            assert(acc * 10 + d > u64::MAX);
        }
        return None;
    }
    proof {
        assert((u64::MAX - d) / 10 * 10 <= u64::MAX - d);
        assert(acc * 10 + d <= u64::MAX);
    }
    p_digits(cs, i + 1, acc * 10 + d)
}

/// Reads an unsigned decimal number into 64 bits at position `i`.
pub fn p_u64(cs: &Vec<char>, i: usize) -> (r: Option<(u64, usize)>)
    requires
        i <= cs.len(),
    ensures
        match r {
            Some((v, j)) => i <= j <= cs.len() && sp_u64(cs@.skip(i as int)) == Some(
                (v, cs@.skip(j as int)),
            ),
            None => sp_u64(cs@.skip(i as int)) is None,
        },
{
    if i == cs.len() {
        return None;
    }
    if !digit(cs[i]) {
        return None;
    }
    if i + 1 < cs.len() {
        proof {
            assert(cs@.skip(i as int)[1] == cs@[i + 1]);
        }
        if cs[i] == '0' && digit(cs[i + 1]) {
            return None;
        }
    }
    match p_digits(cs, i, 0) {
        Some((v, j)) => Some((v, j)),
        None => None,
    }
}

/// Reads an unsigned decimal number into 32 bits at position `i`.
pub fn p_u32(cs: &Vec<char>, i: usize) -> (r: Option<(u32, usize)>)
    requires
        i <= cs.len(),
    ensures
        match r {
            Some((v, j)) => i <= j <= cs.len() && sp_u32(cs@.skip(i as int)) == Some(
                (v, cs@.skip(j as int)),
            ),
            None => sp_u32(cs@.skip(i as int)) is None,
        },
{
    match p_u64(cs, i) {
        Some((v, j)) => if v <= u32::MAX as u64 {
            Some((v as u32, j))
        } else {
            None
        },
        None => None,
    }
}

} // verus!
