//! The executable decoder of the records, proved against the parsing
//! functions of `record`.

use vstd::prelude::*;
use crate::de::{p_lit, p_str, p_u32, p_u64};
use crate::model::{
    Delivery, DeliveryV, Payment, PaymentV, Item, ItemV, Order, OrderV, DecodeError, items_view,
};
use crate::record::{
    sp_delivery, sp_payment, sp_item, sp_items, sp_items_rest, sp_order,
};
use crate::rfc3339::check_rfc3339_chars;
use crate::text::{chars_to_string, str_to_chars};

verus! {

/// Decodes a delivery record at position `i`.
pub fn p_delivery(cs: &Vec<char>, i: usize) -> (r: Option<(Delivery, usize)>)
    requires
        i <= cs.len(),
    ensures
        match r {
            Some((v, j)) => i <= j <= cs.len() && sp_delivery(cs@.skip(i as int)) == Some(
                (v@, cs@.skip(j as int)),
            ),
            None => sp_delivery(cs@.skip(i as int)) is None,
        },
{
    proof {
        reveal(sp_delivery);
    }
    let j0 = match p_lit(cs, i, "{\"name\":") {
        Some(j) => j,
        None => { return None; },
    };
    let (f_name, j1) = match p_str(cs, j0) {
        Some(x) => x,
        None => { return None; },
    };
    let j2 = match p_lit(cs, j1, ",\"phone\":") {
        Some(j) => j,
        None => { return None; },
    };
    let (f_phone, j3) = match p_str(cs, j2) {
        Some(x) => x,
        None => { return None; },
    };
    let j4 = match p_lit(cs, j3, ",\"zip\":") {
        Some(j) => j,
        None => { return None; },
    };
    let (f_zip, j5) = match p_str(cs, j4) {
        Some(x) => x,
        None => { return None; },
    };
    let j6 = match p_lit(cs, j5, ",\"city\":") {
        Some(j) => j,
        None => { return None; },
    };
    let (f_city, j7) = match p_str(cs, j6) {
        Some(x) => x,
        None => { return None; },
    };
    let j8 = match p_lit(cs, j7, ",\"address\":") {
        Some(j) => j,
        None => { return None; },
    };
    let (f_address, j9) = match p_str(cs, j8) {
        Some(x) => x,
        None => { return None; },
    };
    let j10 = match p_lit(cs, j9, ",\"region\":") {
        Some(j) => j,
        None => { return None; },
    };
    let (f_region, j11) = match p_str(cs, j10) {
        Some(x) => x,
        None => { return None; },
    };
    let j12 = match p_lit(cs, j11, ",\"email\":") {
        Some(j) => j,
        None => { return None; },
    };
    let (f_email, j13) = match p_str(cs, j12) {
        Some(x) => x,
        None => { return None; },
    };
    let jz = match p_lit(cs, j13, "}") {
        Some(j) => j,
        None => { return None; },
    };
    let v = Delivery { name: chars_to_string(f_name), phone: chars_to_string(f_phone), zip: chars_to_string(f_zip), city: chars_to_string(f_city), address: chars_to_string(f_address), region: chars_to_string(f_region), email: chars_to_string(f_email) };
    proof {
        assert(sp_delivery(cs@.skip(i as int)) == Some((v@, cs@.skip(jz as int))));
    }
    Some((v, jz))
}

/// Decodes a payment record at position `i`.
pub fn p_payment(cs: &Vec<char>, i: usize) -> (r: Option<(Payment, usize)>)
    requires
        i <= cs.len(),
    ensures
        match r {
            Some((v, j)) => i <= j <= cs.len() && sp_payment(cs@.skip(i as int)) == Some(
                (v@, cs@.skip(j as int)),
            ),
            None => sp_payment(cs@.skip(i as int)) is None,
        },
{
    proof {
        reveal(sp_payment);
    }
    let j0 = match p_lit(cs, i, "{\"transaction\":") {
        Some(j) => j,
        None => { return None; },
    };
    let (f_transaction, j1) = match p_str(cs, j0) {
        Some(x) => x,
        None => { return None; },
    };
    let j2 = match p_lit(cs, j1, ",\"request_id\":") {
        Some(j) => j,
        None => { return None; },
    };
    let (f_request_id, j3) = match p_str(cs, j2) {
        Some(x) => x,
        None => { return None; },
    };
    let j4 = match p_lit(cs, j3, ",\"currency\":") {
        Some(j) => j,
        None => { return None; },
    };
    let (f_currency, j5) = match p_str(cs, j4) {
        Some(x) => x,
        None => { return None; },
    };
    let j6 = match p_lit(cs, j5, ",\"provider\":") {
        Some(j) => j,
        None => { return None; },
    };
    let (f_provider, j7) = match p_str(cs, j6) {
        Some(x) => x,
        None => { return None; },
    };
    let j8 = match p_lit(cs, j7, ",\"amount\":") {
        Some(j) => j,
        None => { return None; },
    };
    let (f_amount, j9) = match p_u32(cs, j8) {
        Some(x) => x,
        None => { return None; },
    };
    let j10 = match p_lit(cs, j9, ",\"payment_dt\":") {
        Some(j) => j,
        None => { return None; },
    };
    let (f_payment_dt, j11) = match p_u64(cs, j10) {
        Some(x) => x,
        None => { return None; },
    };
    let j12 = match p_lit(cs, j11, ",\"bank\":") {
        Some(j) => j,
        None => { return None; },
    };
    let (f_bank, j13) = match p_str(cs, j12) {
        Some(x) => x,
        None => { return None; },
    };
    let j14 = match p_lit(cs, j13, ",\"delivery_cost\":") {
        Some(j) => j,
        None => { return None; },
    };
    let (f_delivery_cost, j15) = match p_u32(cs, j14) {
        Some(x) => x,
        None => { return None; },
    };
    let j16 = match p_lit(cs, j15, ",\"goods_total\":") {
        Some(j) => j,
        None => { return None; },
    };
    let (f_goods_total, j17) = match p_u32(cs, j16) {
        Some(x) => x,
        None => { return None; },
    };
    let j18 = match p_lit(cs, j17, ",\"custom_fee\":") {
        Some(j) => j,
        None => { return None; },
    };
    let (f_custom_fee, j19) = match p_u32(cs, j18) {
        Some(x) => x,
        None => { return None; },
    };
    let jz = match p_lit(cs, j19, "}") {
        Some(j) => j,
        None => { return None; },
    };
    let v = Payment { transaction: chars_to_string(f_transaction), request_id: chars_to_string(f_request_id), currency: chars_to_string(f_currency), provider: chars_to_string(f_provider), amount: f_amount, payment_dt: f_payment_dt, bank: chars_to_string(f_bank), delivery_cost: f_delivery_cost, goods_total: f_goods_total, custom_fee: f_custom_fee };
    proof {
        assert(sp_payment(cs@.skip(i as int)) == Some((v@, cs@.skip(jz as int))));
    }
    Some((v, jz))
}

/// Decodes an item record at position `i`.
pub fn p_item(cs: &Vec<char>, i: usize) -> (r: Option<(Item, usize)>)
    requires
        i <= cs.len(),
    ensures
        match r {
            Some((v, j)) => i <= j <= cs.len() && sp_item(cs@.skip(i as int)) == Some(
                (v@, cs@.skip(j as int)),
            ),
            None => sp_item(cs@.skip(i as int)) is None,
        },
{
    proof {
        reveal(sp_item);
    }
    let j0 = match p_lit(cs, i, "{\"chrt_id\":") {
        Some(j) => j,
        None => { return None; },
    };
    let (f_chrt_id, j1) = match p_u64(cs, j0) {
        Some(x) => x,
        None => { return None; },
    };
    let j2 = match p_lit(cs, j1, ",\"track_number\":") {
        Some(j) => j,
        None => { return None; },
    };
    let (f_track_number, j3) = match p_str(cs, j2) {
        Some(x) => x,
        None => { return None; },
    };
    let j4 = match p_lit(cs, j3, ",\"price\":") {
        Some(j) => j,
        None => { return None; },
    };
    let (f_price, j5) = match p_u32(cs, j4) {
        Some(x) => x,
        None => { return None; },
    };
    let j6 = match p_lit(cs, j5, ",\"rid\":") {
        Some(j) => j,
        None => { return None; },
    };
    let (f_rid, j7) = match p_str(cs, j6) {
        Some(x) => x,
        None => { return None; },
    };
    let j8 = match p_lit(cs, j7, ",\"name\":") {
        Some(j) => j,
        None => { return None; },
    };
    let (f_name, j9) = match p_str(cs, j8) {
        Some(x) => x,
        None => { return None; },
    };
    let j10 = match p_lit(cs, j9, ",\"sale\":") {
        Some(j) => j,
        None => { return None; },
    };
    let (f_sale, j11) = match p_u32(cs, j10) {
        Some(x) => x,
        None => { return None; },
    };
    let j12 = match p_lit(cs, j11, ",\"size\":") {
        Some(j) => j,
        None => { return None; },
    };
    let (f_size, j13) = match p_str(cs, j12) {
        Some(x) => x,
        None => { return None; },
    };
    let j14 = match p_lit(cs, j13, ",\"total_price\":") {
        Some(j) => j,
        None => { return None; },
    };
    let (f_total_price, j15) = match p_u32(cs, j14) {
        Some(x) => x,
        None => { return None; },
    };
    let j16 = match p_lit(cs, j15, ",\"nm_id\":") {
        Some(j) => j,
        None => { return None; },
    };
    let (f_nm_id, j17) = match p_u64(cs, j16) {
        Some(x) => x,
        None => { return None; },
    };
    let j18 = match p_lit(cs, j17, ",\"brand\":") {
        Some(j) => j,
        None => { return None; },
    };
    let (f_brand, j19) = match p_str(cs, j18) {
        Some(x) => x,
        None => { return None; },
    };
    let j20 = match p_lit(cs, j19, ",\"status\":") {
        Some(j) => j,
        None => { return None; },
    };
    let (f_status, j21) = match p_u32(cs, j20) {
        Some(x) => x,
        None => { return None; },
    };
    let jz = match p_lit(cs, j21, "}") {
        Some(j) => j,
        None => { return None; },
    };
    let v = Item { chrt_id: f_chrt_id, track_number: chars_to_string(f_track_number), price: f_price, rid: chars_to_string(f_rid), name: chars_to_string(f_name), sale: f_sale, size: chars_to_string(f_size), total_price: f_total_price, nm_id: f_nm_id, brand: chars_to_string(f_brand), status: f_status };
    proof {
        assert(sp_item(cs@.skip(i as int)) == Some((v@, cs@.skip(jz as int))));
    }
    Some((v, jz))
}

/// Decodes the tail of an item list at position `i`, with `fuel` bounding
/// the number of further items.
fn p_items_rest(cs: &Vec<char>, i: usize, fuel: usize) -> (r: Option<(Vec<Item>, usize)>)
    requires
        i <= cs.len(),
    ensures
        match r {
            Some((v, j)) => i <= j <= cs.len() && sp_items_rest(cs@.skip(i as int), fuel as nat)
                == Some((items_view(v@), cs@.skip(j as int))),
            None => sp_items_rest(cs@.skip(i as int), fuel as nat) is None,
        },
    decreases fuel,
{
    if i < cs.len() && cs[i] == ']' {
        let v: Vec<Item> = Vec::new();
        proof {
            assert(cs@.skip(i as int).skip(1) =~= cs@.skip(i + 1));
            assert(items_view(v@) =~= Seq::<ItemV>::empty());
        }
        return Some((v, i + 1));
    }
    if fuel == 0 {
        return None;
    }
    if i < cs.len() && cs[i] == ',' {
        proof {
            assert(cs@.skip(i as int).skip(1) =~= cs@.skip(i + 1));
        }
        let (it, j1) = match p_item(cs, i + 1) {
            Some(x) => x,
            None => { return None; },
        };
        let (more, j2) = match p_items_rest(cs, j1, fuel - 1) {
            Some(x) => x,
            None => { return None; },
        };
        let mut more = more;
        more.insert(0, it);
        proof {
            assert(items_view(more@) =~= seq![it@] + items_view(more@.skip(1)));
            assert(more@.skip(1) =~= more@.subrange(1, more@.len() as int));
        }
        Some((more, j2))
    } else {
        None
    }
}

/// Decodes an item list at position `i`.
pub fn p_items(cs: &Vec<char>, i: usize) -> (r: Option<(Vec<Item>, usize)>)
    requires
        i <= cs.len(),
    ensures
        match r {
            Some((v, j)) => i <= j <= cs.len() && sp_items(cs@.skip(i as int)) == Some(
                (items_view(v@), cs@.skip(j as int)),
            ),
            None => sp_items(cs@.skip(i as int)) is None,
        },
{
    if i == cs.len() {
        return None;
    }
    if cs[i] != '[' {
        return None;
    }
    proof {
        assert(cs@.skip(i as int).skip(1) =~= cs@.skip(i + 1));
    }
    let i1 = i + 1;
    if i1 < cs.len() && cs[i1] == ']' {
        let v: Vec<Item> = Vec::new();
        proof {
            assert(cs@.skip(i1 as int).skip(1) =~= cs@.skip(i1 + 1));
            assert(items_view(v@) =~= Seq::<ItemV>::empty());
        }
        return Some((v, i1 + 1));
    }
    let (it, j1) = match p_item(cs, i1) {
        Some(x) => x,
        None => { return None; },
    };
    let fuel = cs.len() - j1;
    let (more, j2) = match p_items_rest(cs, j1, fuel) {
        Some(x) => x,
        None => { return None; },
    };
    let mut more = more;
    more.insert(0, it);
    proof {
        assert(items_view(more@) =~= seq![it@] + items_view(more@.skip(1)));
        assert(more@.skip(1) =~= more@.subrange(1, more@.len() as int));
    }
    Some((more, j2))
}

/// Decodes a whole order record from the characters; the text must
/// end with it.
pub fn p_order(cs: &Vec<char>) -> (r: Result<Order, DecodeError>)
    ensures
        match r {
            Ok(o) => sp_order(cs@) == Result::<OrderV, DecodeError>::Ok(o@),
            Err(e) => sp_order(cs@) == Result::<OrderV, DecodeError>::Err(e),
        },
{
    proof {
        reveal(sp_order);
    }
    proof {
        assert(cs@.skip(0) =~= cs@);
    }
    let j0 = match p_lit(cs, 0, "{\"order_uid\":") {
        Some(j) => j,
        None => { return Err(DecodeError::Malformed); },
    };
    let (f_order_uid, j1) = match p_str(cs, j0) {
        Some(x) => x,
        None => { return Err(DecodeError::Malformed); },
    };
    let j2 = match p_lit(cs, j1, ",\"track_number\":") {
        Some(j) => j,
        None => { return Err(DecodeError::Malformed); },
    };
    let (f_track_number, j3) = match p_str(cs, j2) {
        Some(x) => x,
        None => { return Err(DecodeError::Malformed); },
    };
    let j4 = match p_lit(cs, j3, ",\"entry\":") {
        Some(j) => j,
        None => { return Err(DecodeError::Malformed); },
    };
    let (f_entry, j5) = match p_str(cs, j4) {
        Some(x) => x,
        None => { return Err(DecodeError::Malformed); },
    };
    let j6 = match p_lit(cs, j5, ",\"delivery\":") {
        Some(j) => j,
        None => { return Err(DecodeError::Malformed); },
    };
    let (f_delivery, j7) = match p_delivery(cs, j6) {
        Some(x) => x,
        None => { return Err(DecodeError::Malformed); },
    };
    let j8 = match p_lit(cs, j7, ",\"payment\":") {
        Some(j) => j,
        None => { return Err(DecodeError::Malformed); },
    };
    let (f_payment, j9) = match p_payment(cs, j8) {
        Some(x) => x,
        None => { return Err(DecodeError::Malformed); },
    };
    let j10 = match p_lit(cs, j9, ",\"items\":") {
        Some(j) => j,
        None => { return Err(DecodeError::Malformed); },
    };
    let (f_items, j11) = match p_items(cs, j10) {
        Some(x) => x,
        None => { return Err(DecodeError::Malformed); },
    };
    let j12 = match p_lit(cs, j11, ",\"locale\":") {
        Some(j) => j,
        None => { return Err(DecodeError::Malformed); },
    };
    let (f_locale, j13) = match p_str(cs, j12) {
        Some(x) => x,
        None => { return Err(DecodeError::Malformed); },
    };
    let j14 = match p_lit(cs, j13, ",\"internal_signature\":") {
        Some(j) => j,
        None => { return Err(DecodeError::Malformed); },
    };
    let (f_internal_signature, j15) = match p_str(cs, j14) {
        Some(x) => x,
        None => { return Err(DecodeError::Malformed); },
    };
    let j16 = match p_lit(cs, j15, ",\"customer_id\":") {
        Some(j) => j,
        None => { return Err(DecodeError::Malformed); },
    };
    let (f_customer_id, j17) = match p_str(cs, j16) {
        Some(x) => x,
        None => { return Err(DecodeError::Malformed); },
    };
    let j18 = match p_lit(cs, j17, ",\"delivery_service\":") {
        Some(j) => j,
        None => { return Err(DecodeError::Malformed); },
    };
    let (f_delivery_service, j19) = match p_str(cs, j18) {
        Some(x) => x,
        None => { return Err(DecodeError::Malformed); },
    };
    let j20 = match p_lit(cs, j19, ",\"shardkey\":") {
        Some(j) => j,
        None => { return Err(DecodeError::Malformed); },
    };
    let (f_shardkey, j21) = match p_str(cs, j20) {
        Some(x) => x,
        None => { return Err(DecodeError::Malformed); },
    };
    let j22 = match p_lit(cs, j21, ",\"sm_id\":") {
        Some(j) => j,
        None => { return Err(DecodeError::Malformed); },
    };
    let (f_sm_id, j23) = match p_u32(cs, j22) {
        Some(x) => x,
        None => { return Err(DecodeError::Malformed); },
    };
    let j24 = match p_lit(cs, j23, ",\"date_created\":") {
        Some(j) => j,
        None => { return Err(DecodeError::Malformed); },
    };
    let (f_date_created, j25) = match p_str(cs, j24) {
        Some(x) => x,
        None => { return Err(DecodeError::Malformed); },
    };
    if !check_rfc3339_chars(&f_date_created) {
        return Err(DecodeError::InvalidTimestamp);
    }
    let j26 = match p_lit(cs, j25, ",\"oof_shard\":") {
        Some(j) => j,
        None => { return Err(DecodeError::Malformed); },
    };
    let (f_oof_shard, j27) = match p_str(cs, j26) {
        Some(x) => x,
        None => { return Err(DecodeError::Malformed); },
    };
    let jz = match p_lit(cs, j27, "}") {
        Some(j) => j,
        None => { return Err(DecodeError::Malformed); },
    };
    if jz != cs.len() {
        proof {
            assert(cs@.skip(jz as int).len() != 0);
        }
        return Err(DecodeError::Malformed);
    }
    proof {
        assert(cs@.skip(jz as int).len() == 0);
    }
    let o = Order { order_uid: chars_to_string(f_order_uid), track_number: chars_to_string(f_track_number), entry: chars_to_string(f_entry), delivery: f_delivery, payment: f_payment, items: f_items, locale: chars_to_string(f_locale), internal_signature: chars_to_string(f_internal_signature), customer_id: chars_to_string(f_customer_id), delivery_service: chars_to_string(f_delivery_service), shardkey: chars_to_string(f_shardkey), sm_id: f_sm_id, date_created: chars_to_string(f_date_created), oof_shard: chars_to_string(f_oof_shard) };
    proof {
        assert(o@.items =~= items_view(f_items@));
        assert(sp_order(cs@) == Result::<OrderV, DecodeError>::Ok(o@));
    }
    Ok(o)
}

/// Decodes an order from its wire text. Exactly the texts the parsing
/// functions accept yield an order; a shape fault and a bad timestamp are
/// told apart.
pub fn decode_order(s: &str) -> (r: Result<Order, DecodeError>)
    ensures
        match r {
            Ok(o) => sp_order(s@) == Result::<OrderV, DecodeError>::Ok(o@),
            Err(e) => sp_order(s@) == Result::<OrderV, DecodeError>::Err(e),
        },
{
    let cs = str_to_chars(s);
    p_order(&cs)
}

} // verus!
