//! The executable serializer: writes a value's wire text into a character
//! buffer, proved equal to the printing functions of `wire`.

use vstd::prelude::*;
use vstd::string::StrSliceExecFns;
use crate::wire::{esc_char, esc_str, pr_str, dec_digits, dig_char, hex_char, lemma_esc_str_snoc};

verus! {

/// Decimal digit character of `d`.
fn digc(d: u64) -> (c: char)
    requires
        d < 10,
    ensures
        c == dig_char(d as int),
{
    if d == 0 { '0' } else if d == 1 { '1' } else if d == 2 { '2' } else if d == 3 { '3' }
    else if d == 4 { '4' } else if d == 5 { '5' } else if d == 6 { '6' } else if d == 7 { '7' }
    else if d == 8 { '8' } else { '9' }
}

/// Lower-case hexadecimal digit character of `v`.
fn hexc(v: u32) -> (c: char)
    requires
        v < 16,
    ensures
        c == hex_char(v as int),
{
    if v == 0 { '0' } else if v == 1 { '1' } else if v == 2 { '2' } else if v == 3 { '3' }
    else if v == 4 { '4' } else if v == 5 { '5' } else if v == 6 { '6' } else if v == 7 { '7' }
    else if v == 8 { '8' } else if v == 9 { '9' } else if v == 10 { 'a' } else if v == 11 { 'b' }
    else if v == 12 { 'c' } else if v == 13 { 'd' } else if v == 14 { 'e' } else { 'f' }
}

/// Appends the fixed text `lit` to the buffer.
pub fn ser_lit(out: &mut Vec<char>, lit: &str)
    ensures
        final(out)@ == old(out)@ + lit@,
{
    let ghost base: Seq<char> = out@;
    let n: usize = lit.unicode_len();
    let mut i: usize = 0;
    while i < n
        invariant
            n == lit@.len(),
            i <= n,
            out@ == base + lit@.take(i as int),
        decreases n - i,
    {
        out.push(lit.get_char(i));
        proof {
            assert(out@ =~= base + lit@.take(i + 1));
        }
        i = i + 1;
    }
    proof {
        assert(out@ =~= base + lit@);
    }
}

/// Appends one character's escaped form to the buffer.
fn ser_char(out: &mut Vec<char>, c: char)
    ensures
        final(out)@ == old(out)@ + esc_char(c),
{
    let ghost base: Seq<char> = out@;
    if c == '"' {
        out.push('\\');
        out.push('"');
    } else if c == '\\' {
        out.push('\\');
        out.push('\\');
    } else if (c as u32) < 32 {
        let u = c as u32;
        out.push('\\');
        out.push('u');
        out.push('0');
        out.push('0');
        out.push(hexc(u / 16));
        out.push(hexc(u % 16));
    } else {
        out.push(c);
    }
    proof {
        assert(out@ =~= base + esc_char(c));
    }
}

/// Appends a printed string value: quote, escaped body, quote.
pub fn ser_str(out: &mut Vec<char>, s: &str)
    ensures
        final(out)@ == old(out)@ + pr_str(s@),
{
    let ghost base: Seq<char> = out@;
    out.push('"');
    let n: usize = s.unicode_len();
    let mut i: usize = 0;
    while i < n
        invariant
            n == s@.len(),
            i <= n,
            out@ == base + seq!['"'] + esc_str(s@.take(i as int)),
        decreases n - i,
    {
        let c = s.get_char(i);
        ser_char(out, c);
        proof {
            assert(s@.take(i as int).push(s@[i as int]) =~= s@.take(i + 1));
            lemma_esc_str_snoc(s@.take(i as int), s@[i as int]);
        }
        i = i + 1;
    }
    out.push('"');
    proof {
        assert(s@.take(n as int) =~= s@);
        assert(out@ =~= base + pr_str(s@));
    }
}

/// Appends the decimal digits of `n`, most significant first.
pub fn ser_u64(out: &mut Vec<char>, n: u64)
    ensures
        final(out)@ == old(out)@ + dec_digits(n as nat),
    decreases n,
{
    let ghost base: Seq<char> = out@;
    if n < 10 {
        out.push(digc(n));
        proof {
            assert(out@ =~= base + dec_digits(n as nat));
        }
    } else {
        ser_u64(out, n / 10);
        out.push(digc(n % 10));
        proof {
            assert(out@ =~= base + dec_digits(n as nat));
        }
    }
}

/// Appends the decimal digits of a 32-bit number.
pub fn ser_u32(out: &mut Vec<char>, n: u32)
    ensures
        final(out)@ == old(out)@ + dec_digits(n as nat),
{
    ser_u64(out, n as u64);
}

} // verus!
