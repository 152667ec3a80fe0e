//! The wire format of an order record, as mathematics: printing functions
//! give the exact text a value serializes to, parsing functions give the
//! exact outcome of decoding a text. The executable serializer and decoder
//! are proved against these, and the round-trip law relates the two.
//!
//! The format is a record in the shape the store and the read endpoint use:
//! fields in declaration order, string values quoted with `"` and `\`
//! escaped and control characters written `\u00XX`, unsigned decimal
//! numbers, no insignificant whitespace.

use vstd::prelude::*;
use crate::rfc3339::{is_digit, digit_val};

verus! {

// ---------------------------------------------------------------------
// Printing primitives.
// ---------------------------------------------------------------------

/// Lower-case hexadecimal digit for a value below 16.
pub open spec fn hex_char(v: int) -> char {
    if v == 0 { '0' } else if v == 1 { '1' } else if v == 2 { '2' } else if v == 3 { '3' }
    else if v == 4 { '4' } else if v == 5 { '5' } else if v == 6 { '6' } else if v == 7 { '7' }
    else if v == 8 { '8' } else if v == 9 { '9' } else if v == 10 { 'a' } else if v == 11 { 'b' }
    else if v == 12 { 'c' } else if v == 13 { 'd' } else if v == 14 { 'e' } else { 'f' }
}

/// How one character appears inside a printed string value: quotes and
/// backslashes get a backslash, control characters become `\u00XX`, and
/// every other character stands as itself.
pub open spec fn esc_char(c: char) -> Seq<char> {
    if c == '"' {
        seq!['\\', '"']
    } else if c == '\\' {
        seq!['\\', '\\']
    } else if (c as u32) < 32 {
        seq!['\\', 'u', '0', '0', hex_char(c as u32 as int / 16), hex_char(c as u32 as int % 16)]
    } else {
        seq![c]
    }
}

/// The escaped body of a printed string value.
pub open spec fn esc_str(s: Seq<char>) -> Seq<char>
    decreases s.len(),
{
    if s.len() == 0 {
        Seq::empty()
    } else {
        esc_char(s[0]) + esc_str(s.skip(1))
    }
}

/// A printed string value: the escaped body between quotes.
pub open spec fn pr_str(s: Seq<char>) -> Seq<char> {
    seq!['"'] + esc_str(s) + seq!['"']
}

/// Decimal digit character for a value below 10.
pub open spec fn dig_char(d: int) -> char {
    if d == 0 { '0' } else if d == 1 { '1' } else if d == 2 { '2' } else if d == 3 { '3' }
    else if d == 4 { '4' } else if d == 5 { '5' } else if d == 6 { '6' } else if d == 7 { '7' }
    else if d == 8 { '8' } else { '9' }
}

/// Decimal digits of a natural number, most significant first.
pub open spec fn dec_digits(n: nat) -> Seq<char>
    decreases n,
{
    if n < 10 {
        seq![dig_char(n as int)]
    } else {
        dec_digits(n / 10) + seq![dig_char((n % 10) as int)]
    }
}

/// A printed 64-bit number.
pub open spec fn pr_u64(n: u64) -> Seq<char> {
    dec_digits(n as nat)
}

/// A printed 32-bit number.
pub open spec fn pr_u32(n: u32) -> Seq<char> {
    dec_digits(n as nat)
}

// ---------------------------------------------------------------------
// Parsing primitives. Each takes the remaining text and returns what it
// read together with the text left over, or nothing on a mismatch.
// ---------------------------------------------------------------------

/// Reads the fixed text `pat`.
pub open spec fn sp_lit(s: Seq<char>, pat: Seq<char>) -> Option<Seq<char>> {
    if pat.len() <= s.len() && s.take(pat.len() as int) == pat {
        Some(s.skip(pat.len() as int))
    } else {
        None
    }
}

/// Value of a hexadecimal digit character, or -1.
pub open spec fn hex_val(c: char) -> int {
    if is_digit(c) {
        digit_val(c)
    } else if 'a' <= c && c <= 'f' {
        c as u32 - 87
    } else if 'A' <= c && c <= 'F' {
        c as u32 - 55
    } else {
        -1
    }
}

/// The character a single-letter escape stands for.
pub open spec fn unesc_named(e: char) -> char {
    if e == 'b' { '\u{8}' } else if e == 'f' { '\u{c}' } else if e == 'n' { '\n' }
    else if e == 'r' { '\r' } else if e == 't' { '\t' } else { e }
}

/// The control character with code `v`, for `v` below 32.
pub open spec fn ctl_char(v: int) -> char {
    if v == 0 { '\u{0}' } else if v == 1 { '\u{1}' } else if v == 2 { '\u{2}' }
    else if v == 3 { '\u{3}' } else if v == 4 { '\u{4}' } else if v == 5 { '\u{5}' }
    else if v == 6 { '\u{6}' } else if v == 7 { '\u{7}' } else if v == 8 { '\u{8}' }
    else if v == 9 { '\u{9}' } else if v == 10 { '\u{a}' } else if v == 11 { '\u{b}' }
    else if v == 12 { '\u{c}' } else if v == 13 { '\u{d}' } else if v == 14 { '\u{e}' }
    else if v == 15 { '\u{f}' } else if v == 16 { '\u{10}' } else if v == 17 { '\u{11}' }
    else if v == 18 { '\u{12}' } else if v == 19 { '\u{13}' } else if v == 20 { '\u{14}' }
    else if v == 21 { '\u{15}' } else if v == 22 { '\u{16}' } else if v == 23 { '\u{17}' }
    else if v == 24 { '\u{18}' } else if v == 25 { '\u{19}' } else if v == 26 { '\u{1a}' }
    else if v == 27 { '\u{1b}' } else if v == 28 { '\u{1c}' } else if v == 29 { '\u{1d}' }
    else if v == 30 { '\u{1e}' } else { '\u{1f}' }
}

/// Whether `e` is one of the single-letter escapes.
pub open spec fn is_named_escape(e: char) -> bool {
    e == '"' || e == '\\' || e == '/' || e == 'b' || e == 'f' || e == 'n' || e == 'r' || e == 't'
}

/// Reads the body of a string value up to and over its closing quote.
/// Accepted escapes are the single-letter ones and `\u00XX` for a control
/// character; an unescaped control character is refused.
pub open spec fn sp_str_body(s: Seq<char>) -> Option<(Seq<char>, Seq<char>)>
    decreases s.len(),
{
    if s.len() == 0 {
        None
    } else if s[0] == '"' {
        Some((Seq::empty(), s.skip(1)))
    } else if s[0] == '\\' {
        if s.len() < 2 {
            None
        } else if is_named_escape(s[1]) {
            match sp_str_body(s.skip(2)) {
                Some((t, r)) => Some((seq![unesc_named(s[1])] + t, r)),
                None => None,
            }
        } else if s[1] == 'u' {
            if s.len() < 6 {
                None
            } else {
                let v = 4096 * hex_val(s[2]) + 256 * hex_val(s[3]) + 16 * hex_val(s[4]) + hex_val(
                    s[5],
                );
                if hex_val(s[2]) >= 0 && hex_val(s[3]) >= 0 && hex_val(s[4]) >= 0 && hex_val(s[5])
                    >= 0 && v < 32 {
                    match sp_str_body(s.skip(6)) {
                        Some((t, r)) => Some((seq![ctl_char(v)] + t, r)),
                        None => None,
                    }
                } else {
                    None
                }
            }
        } else {
            None
        }
    } else if (s[0] as u32) < 32 {
        None
    } else {
        match sp_str_body(s.skip(1)) {
            Some((t, r)) => Some((seq![s[0]] + t, r)),
            None => None,
        }
    }
}

/// Reads a whole string value: an opening quote, then its body.
pub open spec fn sp_str(s: Seq<char>) -> Option<(Seq<char>, Seq<char>)> {
    if s.len() >= 1 && s[0] == '"' {
        sp_str_body(s.skip(1))
    } else {
        None
    }
}

/// Reads decimal digits greedily, folding them onto `acc`; stops at the
/// first non-digit.
pub open spec fn sp_digits(s: Seq<char>, acc: nat) -> (nat, Seq<char>)
    decreases s.len(),
{
    if s.len() == 0 || !is_digit(s[0]) {
        (acc, s)
    } else {
        sp_digits(s.skip(1), (acc * 10 + digit_val(s[0])) as nat)
    }
}

/// Reads an unsigned decimal number into 64 bits: at least one digit, no
/// leading zero, value within range.
pub open spec fn sp_u64(s: Seq<char>) -> Option<(u64, Seq<char>)> {
    if s.len() == 0 || !is_digit(s[0]) {
        None
    } else if s[0] == '0' && s.len() >= 2 && is_digit(s[1]) {
        None
    } else {
        let (v, r) = sp_digits(s, 0);
        if v <= u64::MAX {
            Some((v as u64, r))
        } else {
            None
        }
    }
}

/// Reads an unsigned decimal number into 32 bits.
pub open spec fn sp_u32(s: Seq<char>) -> Option<(u32, Seq<char>)> {
    match sp_u64(s) {
        Some((v, r)) => if v <= u32::MAX as u64 {
            Some((v as u32, r))
        } else {
            None
        },
        None => None,
    }
}

// ---------------------------------------------------------------------
// Small facts about the printing functions.
// ---------------------------------------------------------------------

/// Concatenation of sequences is associative.
pub proof fn seq_assoc(a: Seq<char>, b: Seq<char>, c: Seq<char>)
    ensures
        (a + b) + c == a + (b + c),
{
    assert((a + b) + c =~= a + (b + c));
}

/// Folding digits onto an accumulator never lowers it.
pub proof fn lemma_sp_digits_lower(s: Seq<char>, acc: nat)
    ensures
        sp_digits(s, acc).0 >= acc,
    decreases s.len(),
{
    if s.len() == 0 || !is_digit(s[0]) {
    } else {
        lemma_sp_digits_lower(s.skip(1), (acc * 10 + digit_val(s[0])) as nat);
    }
}

/// Escaping a string one character longer appends that character's escape.
pub proof fn lemma_esc_str_snoc(t: Seq<char>, c: char)
    ensures
        esc_str(t.push(c)) == esc_str(t) + esc_char(c),
    decreases t.len(),
{
    if t.len() == 0 {
        assert(t.push(c) =~= seq![c]);
        assert(seq![c].skip(1) =~= Seq::<char>::empty());
        assert(esc_str(Seq::<char>::empty()) =~= Seq::<char>::empty());
        assert(esc_str(t.push(c)) =~= esc_char(c) + esc_str(seq![c].skip(1)));
        assert(esc_str(t.push(c)) =~= esc_str(t) + esc_char(c));
    } else {
        assert(t.push(c).skip(1) =~= t.skip(1).push(c));
        lemma_esc_str_snoc(t.skip(1), c);
        assert(esc_str(t.push(c)) =~= esc_str(t) + esc_char(c));
    }
}

} // verus!
