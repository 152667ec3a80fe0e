//! The wire shape of each record: what a value prints to, and what a
//! text parses to, field by field in declaration order.

use vstd::prelude::*;
use crate::model::{DeliveryV, PaymentV, ItemV, OrderV, DecodeError};
use crate::rfc3339::is_rfc3339;
use crate::wire::{pr_str, pr_u32, pr_u64, sp_lit, sp_str, sp_u32, sp_u64};

verus! {

/// The printed delivery record.
#[verifier::opaque]
pub open spec fn pr_delivery(d: DeliveryV) -> Seq<char> {
    "{\"name\":"@ + (pr_str(d.name) + ",\"phone\":"@ + (pr_str(d.phone) + ",\"zip\":"@ + (pr_str(d.zip) + ",\"city\":"@ + (pr_str(d.city) + ",\"address\":"@ + (pr_str(d.address) + ",\"region\":"@ + (pr_str(d.region) + ",\"email\":"@ + (pr_str(d.email) + "}"@)))))))
}

/// The printed payment record.
#[verifier::opaque]
pub open spec fn pr_payment(p: PaymentV) -> Seq<char> {
    "{\"transaction\":"@ + (pr_str(p.transaction) + ",\"request_id\":"@ + (pr_str(p.request_id) + ",\"currency\":"@ + (pr_str(p.currency) + ",\"provider\":"@ + (pr_str(p.provider) + ",\"amount\":"@ + (pr_u32(p.amount) + ",\"payment_dt\":"@ + (pr_u64(p.payment_dt) + ",\"bank\":"@ + (pr_str(p.bank) + ",\"delivery_cost\":"@ + (pr_u32(p.delivery_cost) + ",\"goods_total\":"@ + (pr_u32(p.goods_total) + ",\"custom_fee\":"@ + (pr_u32(p.custom_fee) + "}"@))))))))))
}

/// The printed item record.
#[verifier::opaque]
pub open spec fn pr_item(it: ItemV) -> Seq<char> {
    "{\"chrt_id\":"@ + (pr_u64(it.chrt_id) + ",\"track_number\":"@ + (pr_str(it.track_number) + ",\"price\":"@ + (pr_u32(it.price) + ",\"rid\":"@ + (pr_str(it.rid) + ",\"name\":"@ + (pr_str(it.name) + ",\"sale\":"@ + (pr_u32(it.sale) + ",\"size\":"@ + (pr_str(it.size) + ",\"total_price\":"@ + (pr_u32(it.total_price) + ",\"nm_id\":"@ + (pr_u64(it.nm_id) + ",\"brand\":"@ + (pr_str(it.brand) + ",\"status\":"@ + (pr_u32(it.status) + "}"@)))))))))))
}

/// The printed tail of an item list: for each further item a comma and
/// the item, then the closing bracket.
pub open spec fn pr_items_rest(items: Seq<ItemV>) -> Seq<char>
    decreases items.len(),
{
    if items.len() == 0 {
        seq![']']
    } else {
        seq![','] + (pr_item(items[0]) + pr_items_rest(items.skip(1)))
    }
}

/// The printed item list.
pub open spec fn pr_items(items: Seq<ItemV>) -> Seq<char> {
    if items.len() == 0 {
        seq!['[', ']']
    } else {
        seq!['['] + (pr_item(items[0]) + pr_items_rest(items.skip(1)))
    }
}

/// The printed order record.
#[verifier::opaque]
pub open spec fn pr_order(o: OrderV) -> Seq<char> {
    "{\"order_uid\":"@ + (pr_str(o.order_uid) + ",\"track_number\":"@ + (pr_str(o.track_number) + ",\"entry\":"@ + (pr_str(o.entry) + ",\"delivery\":"@ + (pr_delivery(o.delivery) + ",\"payment\":"@ + (pr_payment(o.payment) + ",\"items\":"@ + (pr_items(o.items) + ",\"locale\":"@ + (pr_str(o.locale) + ",\"internal_signature\":"@ + (pr_str(o.internal_signature) + ",\"customer_id\":"@ + (pr_str(o.customer_id) + ",\"delivery_service\":"@ + (pr_str(o.delivery_service) + ",\"shardkey\":"@ + (pr_str(o.shardkey) + ",\"sm_id\":"@ + (pr_u32(o.sm_id) + ",\"date_created\":"@ + (pr_str(o.date_created) + ",\"oof_shard\":"@ + (pr_str(o.oof_shard) + "}"@))))))))))))))
}

/// Reads a delivery record.
#[verifier::opaque]
pub open spec fn sp_delivery(s: Seq<char>) -> Option<(DeliveryV, Seq<char>)> {
    match sp_lit(s, "{\"name\":"@) {
        None => None,
        Some(s1) => match sp_str(s1) {
        None => None,
        Some((f_name, s2)) => match sp_lit(s2, ",\"phone\":"@) {
        None => None,
        Some(s3) => match sp_str(s3) {
        None => None,
        Some((f_phone, s4)) => match sp_lit(s4, ",\"zip\":"@) {
        None => None,
        Some(s5) => match sp_str(s5) {
        None => None,
        Some((f_zip, s6)) => match sp_lit(s6, ",\"city\":"@) {
        None => None,
        Some(s7) => match sp_str(s7) {
        None => None,
        Some((f_city, s8)) => match sp_lit(s8, ",\"address\":"@) {
        None => None,
        Some(s9) => match sp_str(s9) {
        None => None,
        Some((f_address, s10)) => match sp_lit(s10, ",\"region\":"@) {
        None => None,
        Some(s11) => match sp_str(s11) {
        None => None,
        Some((f_region, s12)) => match sp_lit(s12, ",\"email\":"@) {
        None => None,
        Some(s13) => match sp_str(s13) {
        None => None,
        Some((f_email, s14)) => match sp_lit(s14, "}"@) {
        None => None,
        Some(r) => Some((DeliveryV { name: f_name, phone: f_phone, zip: f_zip, city: f_city, address: f_address, region: f_region, email: f_email }, r)),
    },
    },
    },
    },
    },
    },
    },
    },
    },
    },
    },
    },
    },
    },
    }
}

/// Reads a payment record.
#[verifier::opaque]
pub open spec fn sp_payment(s: Seq<char>) -> Option<(PaymentV, Seq<char>)> {
    match sp_lit(s, "{\"transaction\":"@) {
        None => None,
        Some(s1) => match sp_str(s1) {
        None => None,
        Some((f_transaction, s2)) => match sp_lit(s2, ",\"request_id\":"@) {
        None => None,
        Some(s3) => match sp_str(s3) {
        None => None,
        Some((f_request_id, s4)) => match sp_lit(s4, ",\"currency\":"@) {
        None => None,
        Some(s5) => match sp_str(s5) {
        None => None,
        Some((f_currency, s6)) => match sp_lit(s6, ",\"provider\":"@) {
        None => None,
        Some(s7) => match sp_str(s7) {
        None => None,
        Some((f_provider, s8)) => match sp_lit(s8, ",\"amount\":"@) {
        None => None,
        Some(s9) => match sp_u32(s9) {
        None => None,
        Some((f_amount, s10)) => match sp_lit(s10, ",\"payment_dt\":"@) {
        None => None,
        Some(s11) => match sp_u64(s11) {
        None => None,
        Some((f_payment_dt, s12)) => match sp_lit(s12, ",\"bank\":"@) {
        None => None,
        Some(s13) => match sp_str(s13) {
        None => None,
        Some((f_bank, s14)) => match sp_lit(s14, ",\"delivery_cost\":"@) {
        None => None,
        Some(s15) => match sp_u32(s15) {
        None => None,
        Some((f_delivery_cost, s16)) => match sp_lit(s16, ",\"goods_total\":"@) {
        None => None,
        Some(s17) => match sp_u32(s17) {
        None => None,
        Some((f_goods_total, s18)) => match sp_lit(s18, ",\"custom_fee\":"@) {
        None => None,
        Some(s19) => match sp_u32(s19) {
        None => None,
        Some((f_custom_fee, s20)) => match sp_lit(s20, "}"@) {
        None => None,
        Some(r) => Some((PaymentV { transaction: f_transaction, request_id: f_request_id, currency: f_currency, provider: f_provider, amount: f_amount, payment_dt: f_payment_dt, bank: f_bank, delivery_cost: f_delivery_cost, goods_total: f_goods_total, custom_fee: f_custom_fee }, r)),
    },
    },
    },
    },
    },
    },
    },
    },
    },
    },
    },
    },
    },
    },
    },
    },
    },
    },
    },
    },
    }
}

/// Reads an item record.
#[verifier::opaque]
pub open spec fn sp_item(s: Seq<char>) -> Option<(ItemV, Seq<char>)> {
    match sp_lit(s, "{\"chrt_id\":"@) {
        None => None,
        Some(s1) => match sp_u64(s1) {
        None => None,
        Some((f_chrt_id, s2)) => match sp_lit(s2, ",\"track_number\":"@) {
        None => None,
        Some(s3) => match sp_str(s3) {
        None => None,
        Some((f_track_number, s4)) => match sp_lit(s4, ",\"price\":"@) {
        None => None,
        Some(s5) => match sp_u32(s5) {
        None => None,
        Some((f_price, s6)) => match sp_lit(s6, ",\"rid\":"@) {
        None => None,
        Some(s7) => match sp_str(s7) {
        None => None,
        Some((f_rid, s8)) => match sp_lit(s8, ",\"name\":"@) {
        None => None,
        Some(s9) => match sp_str(s9) {
        None => None,
        Some((f_name, s10)) => match sp_lit(s10, ",\"sale\":"@) {
        None => None,
        Some(s11) => match sp_u32(s11) {
        None => None,
        Some((f_sale, s12)) => match sp_lit(s12, ",\"size\":"@) {
        None => None,
        Some(s13) => match sp_str(s13) {
        None => None,
        Some((f_size, s14)) => match sp_lit(s14, ",\"total_price\":"@) {
        None => None,
        Some(s15) => match sp_u32(s15) {
        None => None,
        Some((f_total_price, s16)) => match sp_lit(s16, ",\"nm_id\":"@) {
        None => None,
        Some(s17) => match sp_u64(s17) {
        None => None,
        Some((f_nm_id, s18)) => match sp_lit(s18, ",\"brand\":"@) {
        None => None,
        Some(s19) => match sp_str(s19) {
        None => None,
        Some((f_brand, s20)) => match sp_lit(s20, ",\"status\":"@) {
        None => None,
        Some(s21) => match sp_u32(s21) {
        None => None,
        Some((f_status, s22)) => match sp_lit(s22, "}"@) {
        None => None,
        Some(r) => Some((ItemV { chrt_id: f_chrt_id, track_number: f_track_number, price: f_price, rid: f_rid, name: f_name, sale: f_sale, size: f_size, total_price: f_total_price, nm_id: f_nm_id, brand: f_brand, status: f_status }, r)),
    },
    },
    },
    },
    },
    },
    },
    },
    },
    },
    },
    },
    },
    },
    },
    },
    },
    },
    },
    },
    },
    },
    }
}

/// Reads the tail of an item list: a closing bracket ends it, a comma
/// introduces one more item. The fuel only bounds the recursion; each
/// step consumes input, so remaining input length is always enough.
pub open spec fn sp_items_rest(s: Seq<char>, fuel: nat) -> Option<(Seq<ItemV>, Seq<char>)>
    decreases fuel,
{
    if s.len() >= 1 && s[0] == ']' {
        Some((Seq::empty(), s.skip(1)))
    } else if fuel == 0 {
        None
    } else if s.len() >= 1 && s[0] == ',' {
        match sp_item(s.skip(1)) {
            None => None,
            Some((it, r)) => match sp_items_rest(r, (fuel - 1) as nat) {
                None => None,
                Some((more, r2)) => Some((seq![it] + more, r2)),
            },
        }
    } else {
        None
    }
}

/// Reads an item list.
pub open spec fn sp_items(s: Seq<char>) -> Option<(Seq<ItemV>, Seq<char>)> {
    if s.len() >= 1 && s[0] == '[' {
        let r0 = s.skip(1);
        if r0.len() >= 1 && r0[0] == ']' {
            Some((Seq::empty(), r0.skip(1)))
        } else {
            match sp_item(r0) {
                None => None,
                Some((it, r1)) => match sp_items_rest(r1, r1.len()) {
                    None => None,
                    Some((more, r2)) => Some((seq![it] + more, r2)),
                },
            }
        }
    } else {
        None
    }
}

/// Reads a whole order record; the text must end with it.
#[verifier::opaque]
pub open spec fn sp_order(s: Seq<char>) -> Result<OrderV, DecodeError> {
    match sp_lit(s, "{\"order_uid\":"@) {
        None => Err(DecodeError::Malformed),
        Some(s1) => match sp_str(s1) {
        None => Err(DecodeError::Malformed),
        Some((f_order_uid, s2)) => match sp_lit(s2, ",\"track_number\":"@) {
        None => Err(DecodeError::Malformed),
        Some(s3) => match sp_str(s3) {
        None => Err(DecodeError::Malformed),
        Some((f_track_number, s4)) => match sp_lit(s4, ",\"entry\":"@) {
        None => Err(DecodeError::Malformed),
        Some(s5) => match sp_str(s5) {
        None => Err(DecodeError::Malformed),
        Some((f_entry, s6)) => match sp_lit(s6, ",\"delivery\":"@) {
        None => Err(DecodeError::Malformed),
        Some(s7) => match sp_delivery(s7) {
        None => Err(DecodeError::Malformed),
        Some((f_delivery, s8)) => match sp_lit(s8, ",\"payment\":"@) {
        None => Err(DecodeError::Malformed),
        Some(s9) => match sp_payment(s9) {
        None => Err(DecodeError::Malformed),
        Some((f_payment, s10)) => match sp_lit(s10, ",\"items\":"@) {
        None => Err(DecodeError::Malformed),
        Some(s11) => match sp_items(s11) {
        None => Err(DecodeError::Malformed),
        Some((f_items, s12)) => match sp_lit(s12, ",\"locale\":"@) {
        None => Err(DecodeError::Malformed),
        Some(s13) => match sp_str(s13) {
        None => Err(DecodeError::Malformed),
        Some((f_locale, s14)) => match sp_lit(s14, ",\"internal_signature\":"@) {
        None => Err(DecodeError::Malformed),
        Some(s15) => match sp_str(s15) {
        None => Err(DecodeError::Malformed),
        Some((f_internal_signature, s16)) => match sp_lit(s16, ",\"customer_id\":"@) {
        None => Err(DecodeError::Malformed),
        Some(s17) => match sp_str(s17) {
        None => Err(DecodeError::Malformed),
        Some((f_customer_id, s18)) => match sp_lit(s18, ",\"delivery_service\":"@) {
        None => Err(DecodeError::Malformed),
        Some(s19) => match sp_str(s19) {
        None => Err(DecodeError::Malformed),
        Some((f_delivery_service, s20)) => match sp_lit(s20, ",\"shardkey\":"@) {
        None => Err(DecodeError::Malformed),
        Some(s21) => match sp_str(s21) {
        None => Err(DecodeError::Malformed),
        Some((f_shardkey, s22)) => match sp_lit(s22, ",\"sm_id\":"@) {
        None => Err(DecodeError::Malformed),
        Some(s23) => match sp_u32(s23) {
        None => Err(DecodeError::Malformed),
        Some((f_sm_id, s24)) => match sp_lit(s24, ",\"date_created\":"@) {
        None => Err(DecodeError::Malformed),
        Some(s25) => match sp_str(s25) {
        None => Err(DecodeError::Malformed),
        Some((f_date_created, s26)) => if !is_rfc3339(f_date_created) {
            Err(DecodeError::InvalidTimestamp)
        } else {
            match sp_lit(s26, ",\"oof_shard\":"@) {
        None => Err(DecodeError::Malformed),
        Some(s27) => match sp_str(s27) {
        None => Err(DecodeError::Malformed),
        Some((f_oof_shard, s28)) => match sp_lit(s28, "}"@) {
        None => Err(DecodeError::Malformed),
        Some(r) => if r.len() == 0 {
            Ok(OrderV { order_uid: f_order_uid, track_number: f_track_number, entry: f_entry, delivery: f_delivery, payment: f_payment, items: f_items, locale: f_locale, internal_signature: f_internal_signature, customer_id: f_customer_id, delivery_service: f_delivery_service, shardkey: f_shardkey, sm_id: f_sm_id, date_created: f_date_created, oof_shard: f_oof_shard })
        } else {
            Err(DecodeError::Malformed)
        },
    },
    },
    }
        },
    },
    },
    },
    },
    },
    },
    },
    },
    },
    },
    },
    },
    },
    },
    },
    },
    },
    },
    },
    },
    },
    },
    },
    },
    },
    }
}

} // verus!
