//! The laws of the wire format: every printed value reads back as
//! itself. The order-level law is the round trip, and with it the exact
//! place of the timestamp rule.

use vstd::prelude::*;
use crate::model::{DeliveryV, PaymentV, ItemV, OrderV, DecodeError, order_well_formed};
use crate::rfc3339::{is_digit, digit_val, is_rfc3339};
use crate::wire::{
    esc_char, esc_str, pr_str, dec_digits, dig_char, hex_char, hex_val, ctl_char, unesc_named,
    pr_u32, pr_u64, sp_lit, sp_str, sp_str_body, sp_digits, sp_u64, sp_u32, seq_assoc,
};
use crate::record::{
    pr_delivery, pr_payment, pr_item, pr_items, pr_items_rest, pr_order,
    sp_delivery, sp_payment, sp_item, sp_items, sp_items_rest, sp_order,
};

verus! {

/// The control characters read back from their codes.
proof fn lemma_ctl_char_inv(c: char)
    requires
        (c as u32) < 32,
    ensures
        ctl_char(c as u32 as int) == c,
{
    let u = c as u32;
    if u == 0 {
        assert(c == '\u{0}');
    } else if u == 1 {
        assert(c == '\u{1}');
    } else if u == 2 {
        assert(c == '\u{2}');
    } else if u == 3 {
        assert(c == '\u{3}');
    } else if u == 4 {
        assert(c == '\u{4}');
    } else if u == 5 {
        assert(c == '\u{5}');
    } else if u == 6 {
        assert(c == '\u{6}');
    } else if u == 7 {
        assert(c == '\u{7}');
    } else if u == 8 {
        assert(c == '\u{8}');
    } else if u == 9 {
        assert(c == '\u{9}');
    } else if u == 10 {
        assert(c == '\u{a}');
    } else if u == 11 {
        assert(c == '\u{b}');
    } else if u == 12 {
        assert(c == '\u{c}');
    } else if u == 13 {
        assert(c == '\u{d}');
    } else if u == 14 {
        assert(c == '\u{e}');
    } else if u == 15 {
        assert(c == '\u{f}');
    } else if u == 16 {
        assert(c == '\u{10}');
    } else if u == 17 {
        assert(c == '\u{11}');
    } else if u == 18 {
        assert(c == '\u{12}');
    } else if u == 19 {
        assert(c == '\u{13}');
    } else if u == 20 {
        assert(c == '\u{14}');
    } else if u == 21 {
        assert(c == '\u{15}');
    } else if u == 22 {
        assert(c == '\u{16}');
    } else if u == 23 {
        assert(c == '\u{17}');
    } else if u == 24 {
        assert(c == '\u{18}');
    } else if u == 25 {
        assert(c == '\u{19}');
    } else if u == 26 {
        assert(c == '\u{1a}');
    } else if u == 27 {
        assert(c == '\u{1b}');
    } else if u == 28 {
        assert(c == '\u{1c}');
    } else if u == 29 {
        assert(c == '\u{1d}');
    } else if u == 30 {
        assert(c == '\u{1e}');
    } else if u == 31 {
        assert(c == '\u{1f}');
    } else {
    }
}

/// Reading a fixed text off the front of itself leaves the rest.
pub proof fn lemma_lit_round(pat: Seq<char>, rest: Seq<char>)
    ensures
        sp_lit(pat + rest, pat) == Some(rest),
{
    assert((pat + rest).take(pat.len() as int) =~= pat);
    assert((pat + rest).skip(pat.len() as int) =~= rest);
}

/// The hexadecimal digit characters read back as their values.
proof fn lemma_hex_inv(x: int)
    requires
        0 <= x < 16,
    ensures
        hex_val(hex_char(x)) == x,
{
}

/// A string body prints and reads back to itself, whatever follows the
/// closing quote.
proof fn lemma_str_body_round(t: Seq<char>, rest: Seq<char>)
    ensures
        sp_str_body(esc_str(t) + (seq!['"'] + rest)) == Some((t, rest)),
    decreases t.len(),
{
    let s = esc_str(t) + (seq!['"'] + rest);
    if t.len() == 0 {
        assert(s =~= seq!['"'] + rest);
        assert(s.skip(1) =~= rest);
    } else {
        let c = t[0];
        let e2 = esc_str(t.skip(1)) + (seq!['"'] + rest);
        lemma_str_body_round(t.skip(1), rest);
        if c == '"' {
            assert(s =~= seq!['\\', '"'] + e2);
            assert(s.skip(2) =~= e2);
            assert(seq![unesc_named('"')] + t.skip(1) =~= t);
        } else if c == '\\' {
            assert(s =~= seq!['\\', '\\'] + e2);
            assert(s.skip(2) =~= e2);
            assert(seq![unesc_named('\\')] + t.skip(1) =~= t);
        } else if (c as u32) < 32 {
            let hi = c as u32 as int / 16;
            let lo = c as u32 as int % 16;
            assert(s =~= seq!['\\', 'u', '0', '0', hex_char(hi), hex_char(lo)] + e2);
            assert(s.skip(6) =~= e2);
            lemma_hex_inv(hi);
            lemma_hex_inv(lo);
            assert(hex_val(s[2]) == 0 && hex_val(s[3]) == 0);
            let v = 4096 * hex_val(s[2]) + 256 * hex_val(s[3]) + 16 * hex_val(s[4]) + hex_val(s[5]);
            assert(v == c as u32);
            lemma_ctl_char_inv(c);
            assert(ctl_char(v) == c);
            assert(seq![c] + t.skip(1) =~= t);
        } else {
            assert(s =~= seq![c] + e2);
            assert(s.skip(1) =~= e2);
            assert(seq![c] + t.skip(1) =~= t);
        }
    }
}

/// A string value prints and reads back to itself.
pub proof fn lemma_str_round(t: Seq<char>, rest: Seq<char>)
    ensures
        sp_str(pr_str(t) + rest) == Some((t, rest)),
{
    let s = pr_str(t) + rest;
    assert(s[0] == '"');
    assert(s.skip(1) =~= esc_str(t) + (seq!['"'] + rest));
    lemma_str_body_round(t, rest);
}

/// The decimal digits of a number are digit characters.
proof fn lemma_dd_digits(n: nat)
    ensures
        forall|i: int| 0 <= i < dec_digits(n).len() ==> is_digit(#[trigger] dec_digits(n)[i]),
        dec_digits(n).len() >= 1,
    decreases n,
{
    if n < 10 {
    } else {
        lemma_dd_digits(n / 10);
        assert forall|i: int| 0 <= i < dec_digits(n).len() implies is_digit(
            #[trigger] dec_digits(n)[i],
        ) by {
            if i < dec_digits(n / 10).len() {
                assert(dec_digits(n)[i] == dec_digits(n / 10)[i]);
            } else {
                assert(dec_digits(n)[i] == dig_char((n % 10) as int));
            }
        }
    }
}

/// A positive number's digits do not start with zero.
proof fn lemma_dd_first(n: nat)
    requires
        n >= 1,
    ensures
        dec_digits(n)[0] != '0',
    decreases n,
{
    if n < 10 {
    } else {
        lemma_dd_first(n / 10);
        lemma_dd_digits(n / 10);
        assert(dec_digits(n)[0] == dec_digits(n / 10)[0]);
    }
}

/// Greedy digit reading passes over a digit text onto what follows.
proof fn lemma_sp_digits_concat(a: Seq<char>, b: Seq<char>, acc: nat)
    requires
        forall|i: int| 0 <= i < a.len() ==> is_digit(#[trigger] a[i]),
        b.len() == 0 || !is_digit(b[0]),
    ensures
        sp_digits(a + b, acc) == (sp_digits(a, acc).0, b),
    decreases a.len(),
{
    if a.len() == 0 {
        assert(a + b =~= b);
    } else {
        assert((a + b)[0] == a[0]);
        assert((a + b).skip(1) =~= a.skip(1) + b);
        lemma_sp_digits_concat(a.skip(1), b, (acc * 10 + digit_val(a[0])) as nat);
    }
}

/// Reading one more digit multiplies the value by ten and adds it.
proof fn lemma_sp_digits_snoc(a: Seq<char>, d: char, acc: nat)
    requires
        forall|i: int| 0 <= i < a.len() ==> is_digit(#[trigger] a[i]),
        is_digit(d),
    ensures
        sp_digits(a + seq![d], acc).0 == sp_digits(a, acc).0 * 10 + digit_val(d),
    decreases a.len(),
{
    if a.len() == 0 {
        assert(a + seq![d] =~= seq![d]);
        assert(seq![d].skip(1) =~= Seq::<char>::empty());
        let acc2 = (acc * 10 + digit_val(d)) as nat;
        assert(sp_digits(Seq::<char>::empty(), acc2) == (acc2, Seq::<char>::empty()));
        assert(sp_digits(seq![d], acc).0 == acc2);
    } else {
        assert((a + seq![d])[0] == a[0]);
        assert((a + seq![d]).skip(1) =~= a.skip(1) + seq![d]);
        lemma_sp_digits_snoc(a.skip(1), d, (acc * 10 + digit_val(a[0])) as nat);
    }
}

/// The digits of a number read back as that number.
proof fn lemma_dd_val(n: nat)
    ensures
        sp_digits(dec_digits(n), 0).0 == n,
    decreases n,
{
    if n < 10 {
        assert(dec_digits(n) == seq![dig_char(n as int)]);
        assert(is_digit(dig_char(n as int)));
        assert(digit_val(dig_char(n as int)) == n);
        assert(dec_digits(n).skip(1) =~= Seq::<char>::empty());
        assert(sp_digits(Seq::<char>::empty(), n) == (n, Seq::<char>::empty()));
        assert(sp_digits(dec_digits(n), 0).0 == n);
    } else {
        lemma_dd_val(n / 10);
        lemma_dd_digits(n / 10);
        lemma_sp_digits_snoc(dec_digits(n / 10), dig_char((n % 10) as int), 0);
    }
}

/// A printed 64-bit number reads back as itself when what follows does
/// not begin with a digit.
pub proof fn lemma_u64_round(n: u64, rest: Seq<char>)
    requires
        rest.len() == 0 || !is_digit(rest[0]),
    ensures
        sp_u64(dec_digits(n as nat) + rest) == Some((n, rest)),
{
    let a = dec_digits(n as nat);
    let s = a + rest;
    lemma_dd_digits(n as nat);
    lemma_dd_val(n as nat);
    lemma_sp_digits_concat(a, rest, 0);
    assert(s[0] == a[0]);
    if n == 0 {
        assert(a =~= seq![dig_char(0)]);
        if s.len() >= 2 {
            assert(s[1] == rest[0]);
        }
    } else {
        lemma_dd_first(n as nat);
    }
}

/// A printed 32-bit number reads back as itself when what follows does
/// not begin with a digit.
pub proof fn lemma_u32_round(n: u32, rest: Seq<char>)
    requires
        rest.len() == 0 || !is_digit(rest[0]),
    ensures
        sp_u32(dec_digits(n as nat) + rest) == Some((n, rest)),
{
    lemma_u64_round(n as u64, rest);
}

/// Reading back a printed delivery record yields the value and the rest.
#[verifier::rlimit(100)]
pub proof fn lemma_delivery_round(d: DeliveryV, rest: Seq<char>)
    ensures
        sp_delivery(pr_delivery(d) + rest) == Some((d, rest)),
{
    reveal(pr_delivery);
    reveal(sp_delivery);
    let t7: Seq<char> = "}"@;
    let v6: Seq<char> = pr_str(d.email);
    let t6: Seq<char> = ",\"email\":"@ + (v6 + t7);
    let v5: Seq<char> = pr_str(d.region);
    let t5: Seq<char> = ",\"region\":"@ + (v5 + t6);
    let v4: Seq<char> = pr_str(d.address);
    let t4: Seq<char> = ",\"address\":"@ + (v4 + t5);
    let v3: Seq<char> = pr_str(d.city);
    let t3: Seq<char> = ",\"city\":"@ + (v3 + t4);
    let v2: Seq<char> = pr_str(d.zip);
    let t2: Seq<char> = ",\"zip\":"@ + (v2 + t3);
    let v1: Seq<char> = pr_str(d.phone);
    let t1: Seq<char> = ",\"phone\":"@ + (v1 + t2);
    let v0: Seq<char> = pr_str(d.name);
    let t0: Seq<char> = "{\"name\":"@ + (v0 + t1);
    assert(pr_delivery(d) == t0);
    seq_assoc("{\"name\":"@, v0 + t1, rest);
    lemma_lit_round("{\"name\":"@, (v0 + t1) + rest);
    seq_assoc(v0, t1, rest);
    lemma_str_round(d.name, t1 + rest);
    seq_assoc(",\"phone\":"@, v1 + t2, rest);
    lemma_lit_round(",\"phone\":"@, (v1 + t2) + rest);
    seq_assoc(v1, t2, rest);
    lemma_str_round(d.phone, t2 + rest);
    seq_assoc(",\"zip\":"@, v2 + t3, rest);
    lemma_lit_round(",\"zip\":"@, (v2 + t3) + rest);
    seq_assoc(v2, t3, rest);
    lemma_str_round(d.zip, t3 + rest);
    seq_assoc(",\"city\":"@, v3 + t4, rest);
    lemma_lit_round(",\"city\":"@, (v3 + t4) + rest);
    seq_assoc(v3, t4, rest);
    lemma_str_round(d.city, t4 + rest);
    seq_assoc(",\"address\":"@, v4 + t5, rest);
    lemma_lit_round(",\"address\":"@, (v4 + t5) + rest);
    seq_assoc(v4, t5, rest);
    lemma_str_round(d.address, t5 + rest);
    seq_assoc(",\"region\":"@, v5 + t6, rest);
    lemma_lit_round(",\"region\":"@, (v5 + t6) + rest);
    seq_assoc(v5, t6, rest);
    lemma_str_round(d.region, t6 + rest);
    seq_assoc(",\"email\":"@, v6 + t7, rest);
    lemma_lit_round(",\"email\":"@, (v6 + t7) + rest);
    seq_assoc(v6, t7, rest);
    lemma_str_round(d.email, t7 + rest);
    lemma_lit_round("}"@, rest);
    assert(DeliveryV { name: d.name, phone: d.phone, zip: d.zip, city: d.city, address: d.address, region: d.region, email: d.email } =~= d);
}

/// Reading back a printed payment record yields the value and the rest.
#[verifier::rlimit(100)]
pub proof fn lemma_payment_round(p: PaymentV, rest: Seq<char>)
    ensures
        sp_payment(pr_payment(p) + rest) == Some((p, rest)),
{
    reveal(pr_payment);
    reveal(sp_payment);
    let t10: Seq<char> = "}"@;
    let v9: Seq<char> = pr_u32(p.custom_fee);
    let t9: Seq<char> = ",\"custom_fee\":"@ + (v9 + t10);
    let v8: Seq<char> = pr_u32(p.goods_total);
    let t8: Seq<char> = ",\"goods_total\":"@ + (v8 + t9);
    let v7: Seq<char> = pr_u32(p.delivery_cost);
    let t7: Seq<char> = ",\"delivery_cost\":"@ + (v7 + t8);
    let v6: Seq<char> = pr_str(p.bank);
    let t6: Seq<char> = ",\"bank\":"@ + (v6 + t7);
    let v5: Seq<char> = pr_u64(p.payment_dt);
    let t5: Seq<char> = ",\"payment_dt\":"@ + (v5 + t6);
    let v4: Seq<char> = pr_u32(p.amount);
    let t4: Seq<char> = ",\"amount\":"@ + (v4 + t5);
    let v3: Seq<char> = pr_str(p.provider);
    let t3: Seq<char> = ",\"provider\":"@ + (v3 + t4);
    let v2: Seq<char> = pr_str(p.currency);
    let t2: Seq<char> = ",\"currency\":"@ + (v2 + t3);
    let v1: Seq<char> = pr_str(p.request_id);
    let t1: Seq<char> = ",\"request_id\":"@ + (v1 + t2);
    let v0: Seq<char> = pr_str(p.transaction);
    let t0: Seq<char> = "{\"transaction\":"@ + (v0 + t1);
    assert(pr_payment(p) == t0);
    seq_assoc("{\"transaction\":"@, v0 + t1, rest);
    lemma_lit_round("{\"transaction\":"@, (v0 + t1) + rest);
    seq_assoc(v0, t1, rest);
    lemma_str_round(p.transaction, t1 + rest);
    seq_assoc(",\"request_id\":"@, v1 + t2, rest);
    lemma_lit_round(",\"request_id\":"@, (v1 + t2) + rest);
    seq_assoc(v1, t2, rest);
    lemma_str_round(p.request_id, t2 + rest);
    seq_assoc(",\"currency\":"@, v2 + t3, rest);
    lemma_lit_round(",\"currency\":"@, (v2 + t3) + rest);
    seq_assoc(v2, t3, rest);
    lemma_str_round(p.currency, t3 + rest);
    seq_assoc(",\"provider\":"@, v3 + t4, rest);
    lemma_lit_round(",\"provider\":"@, (v3 + t4) + rest);
    seq_assoc(v3, t4, rest);
    lemma_str_round(p.provider, t4 + rest);
    seq_assoc(",\"amount\":"@, v4 + t5, rest);
    lemma_lit_round(",\"amount\":"@, (v4 + t5) + rest);
    seq_assoc(v4, t5, rest);
    reveal_strlit(",\"payment_dt\":");
    assert((t5 + rest)[0] == ',');
    assert(!is_digit((t5 + rest)[0]));
    lemma_u32_round(p.amount, t5 + rest);
    seq_assoc(",\"payment_dt\":"@, v5 + t6, rest);
    lemma_lit_round(",\"payment_dt\":"@, (v5 + t6) + rest);
    seq_assoc(v5, t6, rest);
    reveal_strlit(",\"bank\":");
    assert((t6 + rest)[0] == ',');
    assert(!is_digit((t6 + rest)[0]));
    lemma_u64_round(p.payment_dt, t6 + rest);
    seq_assoc(",\"bank\":"@, v6 + t7, rest);
    lemma_lit_round(",\"bank\":"@, (v6 + t7) + rest);
    seq_assoc(v6, t7, rest);
    lemma_str_round(p.bank, t7 + rest);
    seq_assoc(",\"delivery_cost\":"@, v7 + t8, rest);
    lemma_lit_round(",\"delivery_cost\":"@, (v7 + t8) + rest);
    seq_assoc(v7, t8, rest);
    reveal_strlit(",\"goods_total\":");
    assert((t8 + rest)[0] == ',');
    assert(!is_digit((t8 + rest)[0]));
    lemma_u32_round(p.delivery_cost, t8 + rest);
    seq_assoc(",\"goods_total\":"@, v8 + t9, rest);
    lemma_lit_round(",\"goods_total\":"@, (v8 + t9) + rest);
    seq_assoc(v8, t9, rest);
    reveal_strlit(",\"custom_fee\":");
    assert((t9 + rest)[0] == ',');
    assert(!is_digit((t9 + rest)[0]));
    lemma_u32_round(p.goods_total, t9 + rest);
    seq_assoc(",\"custom_fee\":"@, v9 + t10, rest);
    lemma_lit_round(",\"custom_fee\":"@, (v9 + t10) + rest);
    seq_assoc(v9, t10, rest);
    reveal_strlit("}");
    assert((t10 + rest)[0] == '}');
    assert(!is_digit((t10 + rest)[0]));
    lemma_u32_round(p.custom_fee, t10 + rest);
    lemma_lit_round("}"@, rest);
    assert(PaymentV { transaction: p.transaction, request_id: p.request_id, currency: p.currency, provider: p.provider, amount: p.amount, payment_dt: p.payment_dt, bank: p.bank, delivery_cost: p.delivery_cost, goods_total: p.goods_total, custom_fee: p.custom_fee } =~= p);
}

/// Reading back a printed item record yields the value and the rest.
#[verifier::rlimit(100)]
pub proof fn lemma_item_round(it: ItemV, rest: Seq<char>)
    ensures
        sp_item(pr_item(it) + rest) == Some((it, rest)),
{
    reveal(pr_item);
    reveal(sp_item);
    let t11: Seq<char> = "}"@;
    let v10: Seq<char> = pr_u32(it.status);
    let t10: Seq<char> = ",\"status\":"@ + (v10 + t11);
    let v9: Seq<char> = pr_str(it.brand);
    let t9: Seq<char> = ",\"brand\":"@ + (v9 + t10);
    let v8: Seq<char> = pr_u64(it.nm_id);
    let t8: Seq<char> = ",\"nm_id\":"@ + (v8 + t9);
    let v7: Seq<char> = pr_u32(it.total_price);
    let t7: Seq<char> = ",\"total_price\":"@ + (v7 + t8);
    let v6: Seq<char> = pr_str(it.size);
    let t6: Seq<char> = ",\"size\":"@ + (v6 + t7);
    let v5: Seq<char> = pr_u32(it.sale);
    let t5: Seq<char> = ",\"sale\":"@ + (v5 + t6);
    let v4: Seq<char> = pr_str(it.name);
    let t4: Seq<char> = ",\"name\":"@ + (v4 + t5);
    let v3: Seq<char> = pr_str(it.rid);
    let t3: Seq<char> = ",\"rid\":"@ + (v3 + t4);
    let v2: Seq<char> = pr_u32(it.price);
    let t2: Seq<char> = ",\"price\":"@ + (v2 + t3);
    let v1: Seq<char> = pr_str(it.track_number);
    let t1: Seq<char> = ",\"track_number\":"@ + (v1 + t2);
    let v0: Seq<char> = pr_u64(it.chrt_id);
    let t0: Seq<char> = "{\"chrt_id\":"@ + (v0 + t1);
    assert(pr_item(it) == t0);
    seq_assoc("{\"chrt_id\":"@, v0 + t1, rest);
    lemma_lit_round("{\"chrt_id\":"@, (v0 + t1) + rest);
    seq_assoc(v0, t1, rest);
    reveal_strlit(",\"track_number\":");
    assert((t1 + rest)[0] == ',');
    assert(!is_digit((t1 + rest)[0]));
    lemma_u64_round(it.chrt_id, t1 + rest);
    seq_assoc(",\"track_number\":"@, v1 + t2, rest);
    lemma_lit_round(",\"track_number\":"@, (v1 + t2) + rest);
    seq_assoc(v1, t2, rest);
    lemma_str_round(it.track_number, t2 + rest);
    seq_assoc(",\"price\":"@, v2 + t3, rest);
    lemma_lit_round(",\"price\":"@, (v2 + t3) + rest);
    seq_assoc(v2, t3, rest);
    reveal_strlit(",\"rid\":");
    assert((t3 + rest)[0] == ',');
    assert(!is_digit((t3 + rest)[0]));
    lemma_u32_round(it.price, t3 + rest);
    seq_assoc(",\"rid\":"@, v3 + t4, rest);
    lemma_lit_round(",\"rid\":"@, (v3 + t4) + rest);
    seq_assoc(v3, t4, rest);
    lemma_str_round(it.rid, t4 + rest);
    seq_assoc(",\"name\":"@, v4 + t5, rest);
    lemma_lit_round(",\"name\":"@, (v4 + t5) + rest);
    seq_assoc(v4, t5, rest);
    lemma_str_round(it.name, t5 + rest);
    seq_assoc(",\"sale\":"@, v5 + t6, rest);
    lemma_lit_round(",\"sale\":"@, (v5 + t6) + rest);
    seq_assoc(v5, t6, rest);
    reveal_strlit(",\"size\":");
    assert((t6 + rest)[0] == ',');
    assert(!is_digit((t6 + rest)[0]));
    lemma_u32_round(it.sale, t6 + rest);
    seq_assoc(",\"size\":"@, v6 + t7, rest);
    lemma_lit_round(",\"size\":"@, (v6 + t7) + rest);
    seq_assoc(v6, t7, rest);
    lemma_str_round(it.size, t7 + rest);
    seq_assoc(",\"total_price\":"@, v7 + t8, rest);
    lemma_lit_round(",\"total_price\":"@, (v7 + t8) + rest);
    seq_assoc(v7, t8, rest);
    reveal_strlit(",\"nm_id\":");
    assert((t8 + rest)[0] == ',');
    assert(!is_digit((t8 + rest)[0]));
    lemma_u32_round(it.total_price, t8 + rest);
    seq_assoc(",\"nm_id\":"@, v8 + t9, rest);
    lemma_lit_round(",\"nm_id\":"@, (v8 + t9) + rest);
    seq_assoc(v8, t9, rest);
    reveal_strlit(",\"brand\":");
    assert((t9 + rest)[0] == ',');
    assert(!is_digit((t9 + rest)[0]));
    lemma_u64_round(it.nm_id, t9 + rest);
    seq_assoc(",\"brand\":"@, v9 + t10, rest);
    lemma_lit_round(",\"brand\":"@, (v9 + t10) + rest);
    seq_assoc(v9, t10, rest);
    lemma_str_round(it.brand, t10 + rest);
    seq_assoc(",\"status\":"@, v10 + t11, rest);
    lemma_lit_round(",\"status\":"@, (v10 + t11) + rest);
    seq_assoc(v10, t11, rest);
    reveal_strlit("}");
    assert((t11 + rest)[0] == '}');
    assert(!is_digit((t11 + rest)[0]));
    lemma_u32_round(it.status, t11 + rest);
    lemma_lit_round("}"@, rest);
    assert(ItemV { chrt_id: it.chrt_id, track_number: it.track_number, price: it.price, rid: it.rid, name: it.name, sale: it.sale, size: it.size, total_price: it.total_price, nm_id: it.nm_id, brand: it.brand, status: it.status } =~= it);
}

/// The printed tail of an item list is at least one character per item.
proof fn lemma_pr_items_rest_len(items: Seq<ItemV>)
    ensures
        pr_items_rest(items).len() >= items.len(),
    decreases items.len(),
{
    if items.len() == 0 {
    } else {
        lemma_pr_items_rest_len(items.skip(1));
    }
}

/// The printed tail of an item list reads back as those items, given
/// fuel for each of them.
#[verifier::rlimit(100)]
proof fn lemma_items_rest_round(items: Seq<ItemV>, rest: Seq<char>, fuel: nat)
    requires
        fuel >= items.len(),
    ensures
        sp_items_rest(pr_items_rest(items) + rest, fuel) == Some((items, rest)),
    decreases items.len(),
{
    reveal(pr_item);
    let s = pr_items_rest(items) + rest;
    if items.len() == 0 {
        assert(s =~= seq![']'] + rest);
        assert(s.skip(1) =~= rest);
    } else {
        assert(s[0] == ',');
        seq_assoc(pr_item(items[0]), pr_items_rest(items.skip(1)), rest);
        assert(s.skip(1) =~= pr_item(items[0]) + (pr_items_rest(items.skip(1)) + rest));
        lemma_item_round(items[0], pr_items_rest(items.skip(1)) + rest);
        lemma_items_rest_round(items.skip(1), rest, (fuel - 1) as nat);
        assert(seq![items[0]] + items.skip(1) =~= items);
    }
}

/// A printed item list reads back as itself.
pub proof fn lemma_items_round(items: Seq<ItemV>, rest: Seq<char>)
    ensures
        sp_items(pr_items(items) + rest) == Some((items, rest)),
{
    reveal(pr_item);
    let s = pr_items(items) + rest;
    if items.len() == 0 {
        assert(s =~= seq!['[', ']'] + rest);
        assert(s[0] == '[');
        assert(s.skip(1) =~= seq![']'] + rest);
        assert(s.skip(1)[0] == ']');
        assert(s.skip(1).skip(1) =~= rest);
    } else {
        assert(s[0] == '[');
        seq_assoc(pr_item(items[0]), pr_items_rest(items.skip(1)), rest);
        let r0 = s.skip(1);
        assert(r0 =~= pr_item(items[0]) + (pr_items_rest(items.skip(1)) + rest));
        reveal_strlit("{\"chrt_id\":");
        assert(pr_item(items[0])[0] == '{');
        assert(r0[0] == '{');
        lemma_item_round(items[0], pr_items_rest(items.skip(1)) + rest);
        let r1 = pr_items_rest(items.skip(1)) + rest;
        lemma_pr_items_rest_len(items.skip(1));
        lemma_items_rest_round(items.skip(1), rest, r1.len());
        assert(seq![items[0]] + items.skip(1) =~= items);
    }
}

/// Reading back a printed order yields it when its timestamp is well
/// formed, and the timestamp rejection otherwise. Nothing else about
/// the value — no relation among its numeric fields — plays a part.
#[verifier::rlimit(100)]
pub proof fn lemma_order_round(o: OrderV)
    ensures
        sp_order(pr_order(o)) == (if is_rfc3339(o.date_created) {
            Result::<OrderV, DecodeError>::Ok(o)
        } else {
            Result::<OrderV, DecodeError>::Err(DecodeError::InvalidTimestamp)
        }),
{
    reveal(pr_order);
    reveal(sp_order);
    let t14: Seq<char> = "}"@;
    let v13: Seq<char> = pr_str(o.oof_shard);
    let t13: Seq<char> = ",\"oof_shard\":"@ + (v13 + t14);
    let v12: Seq<char> = pr_str(o.date_created);
    let t12: Seq<char> = ",\"date_created\":"@ + (v12 + t13);
    let v11: Seq<char> = pr_u32(o.sm_id);
    let t11: Seq<char> = ",\"sm_id\":"@ + (v11 + t12);
    let v10: Seq<char> = pr_str(o.shardkey);
    let t10: Seq<char> = ",\"shardkey\":"@ + (v10 + t11);
    let v9: Seq<char> = pr_str(o.delivery_service);
    let t9: Seq<char> = ",\"delivery_service\":"@ + (v9 + t10);
    let v8: Seq<char> = pr_str(o.customer_id);
    let t8: Seq<char> = ",\"customer_id\":"@ + (v8 + t9);
    let v7: Seq<char> = pr_str(o.internal_signature);
    let t7: Seq<char> = ",\"internal_signature\":"@ + (v7 + t8);
    let v6: Seq<char> = pr_str(o.locale);
    let t6: Seq<char> = ",\"locale\":"@ + (v6 + t7);
    let v5: Seq<char> = pr_items(o.items);
    let t5: Seq<char> = ",\"items\":"@ + (v5 + t6);
    let v4: Seq<char> = pr_payment(o.payment);
    let t4: Seq<char> = ",\"payment\":"@ + (v4 + t5);
    let v3: Seq<char> = pr_delivery(o.delivery);
    let t3: Seq<char> = ",\"delivery\":"@ + (v3 + t4);
    let v2: Seq<char> = pr_str(o.entry);
    let t2: Seq<char> = ",\"entry\":"@ + (v2 + t3);
    let v1: Seq<char> = pr_str(o.track_number);
    let t1: Seq<char> = ",\"track_number\":"@ + (v1 + t2);
    let v0: Seq<char> = pr_str(o.order_uid);
    let t0: Seq<char> = "{\"order_uid\":"@ + (v0 + t1);
    assert(pr_order(o) == t0);
    lemma_lit_round("{\"order_uid\":"@, v0 + t1);
    lemma_str_round(o.order_uid, t1);
    lemma_lit_round(",\"track_number\":"@, v1 + t2);
    lemma_str_round(o.track_number, t2);
    lemma_lit_round(",\"entry\":"@, v2 + t3);
    lemma_str_round(o.entry, t3);
    lemma_lit_round(",\"delivery\":"@, v3 + t4);
    lemma_delivery_round(o.delivery, t4);
    lemma_lit_round(",\"payment\":"@, v4 + t5);
    lemma_payment_round(o.payment, t5);
    lemma_lit_round(",\"items\":"@, v5 + t6);
    lemma_items_round(o.items, t6);
    lemma_lit_round(",\"locale\":"@, v6 + t7);
    lemma_str_round(o.locale, t7);
    lemma_lit_round(",\"internal_signature\":"@, v7 + t8);
    lemma_str_round(o.internal_signature, t8);
    lemma_lit_round(",\"customer_id\":"@, v8 + t9);
    lemma_str_round(o.customer_id, t9);
    lemma_lit_round(",\"delivery_service\":"@, v9 + t10);
    lemma_str_round(o.delivery_service, t10);
    lemma_lit_round(",\"shardkey\":"@, v10 + t11);
    lemma_str_round(o.shardkey, t11);
    lemma_lit_round(",\"sm_id\":"@, v11 + t12);
    reveal_strlit(",\"date_created\":");
    assert(t12[0] == ',');
    assert(!is_digit(t12[0]));
    lemma_u32_round(o.sm_id, t12);
    lemma_lit_round(",\"date_created\":"@, v12 + t13);
    lemma_str_round(o.date_created, t13);
    lemma_lit_round(",\"oof_shard\":"@, v13 + t14);
    lemma_str_round(o.oof_shard, t14);
    assert("}"@ + Seq::<char>::empty() =~= "}"@);
    lemma_lit_round("}"@, Seq::empty());
    assert(OrderV { order_uid: o.order_uid, track_number: o.track_number, entry: o.entry, delivery: o.delivery, payment: o.payment, items: o.items, locale: o.locale, internal_signature: o.internal_signature, customer_id: o.customer_id, delivery_service: o.delivery_service, shardkey: o.shardkey, sm_id: o.sm_id, date_created: o.date_created, oof_shard: o.oof_shard } =~= o);
}

/// Round trip: a well-formed order, printed and read back, is itself.
/// Well-formedness asks only that the timestamp is RFC 3339; no relation
/// among the numeric fields is required for acceptance.
pub proof fn lemma_round_trip(o: OrderV)
    requires
        order_well_formed(o),
    ensures
        sp_order(pr_order(o)) == Result::<OrderV, DecodeError>::Ok(o),
{
    lemma_order_round(o);
}

/// A printed order whose timestamp is not RFC 3339 is rejected for
/// exactly that reason, however sound the rest of it is.
pub proof fn lemma_timestamp_rejected(o: OrderV)
    requires
        !is_rfc3339(o.date_created),
    ensures
        sp_order(pr_order(o)) == Result::<OrderV, DecodeError>::Err(DecodeError::InvalidTimestamp),
{
    lemma_order_round(o);
}

} // verus!
