//! The executable serializer of the records, proved against the
//! printing functions of `record`.

use vstd::prelude::*;
use crate::model::{Delivery, Payment, Item, ItemV, Order, items_view};
use crate::record::{
    pr_delivery, pr_payment, pr_item, pr_items, pr_items_rest, pr_order,
};
use crate::wire::{pr_str, pr_u32, pr_u64, seq_assoc};
use crate::ser::{ser_lit, ser_str, ser_u32, ser_u64};
use crate::text::chars_to_string;

verus! {

/// Writes a delivery record.
#[verifier::rlimit(100)]
pub fn ser_delivery(out: &mut Vec<char>, d: &Delivery)
    ensures
        final(out)@ == old(out)@ + pr_delivery(d@),
{
    proof {
        reveal(pr_delivery);
    }
    let ghost base: Seq<char> = out@;
    ser_lit(out, "{\"name\":");
    ser_str(out, d.name.as_str());
    ser_lit(out, ",\"phone\":");
    ser_str(out, d.phone.as_str());
    ser_lit(out, ",\"zip\":");
    ser_str(out, d.zip.as_str());
    ser_lit(out, ",\"city\":");
    ser_str(out, d.city.as_str());
    ser_lit(out, ",\"address\":");
    ser_str(out, d.address.as_str());
    ser_lit(out, ",\"region\":");
    ser_str(out, d.region.as_str());
    ser_lit(out, ",\"email\":");
    ser_str(out, d.email.as_str());
    ser_lit(out, "}");
    proof {
        assert(out@ =~= base + pr_delivery(d@));
    }
}

/// Writes a payment record.
#[verifier::rlimit(100)]
pub fn ser_payment(out: &mut Vec<char>, p: &Payment)
    ensures
        final(out)@ == old(out)@ + pr_payment(p@),
{
    proof {
        reveal(pr_payment);
    }
    let ghost base: Seq<char> = out@;
    ser_lit(out, "{\"transaction\":");
    ser_str(out, p.transaction.as_str());
    ser_lit(out, ",\"request_id\":");
    ser_str(out, p.request_id.as_str());
    ser_lit(out, ",\"currency\":");
    ser_str(out, p.currency.as_str());
    ser_lit(out, ",\"provider\":");
    ser_str(out, p.provider.as_str());
    ser_lit(out, ",\"amount\":");
    ser_u32(out, p.amount);
    ser_lit(out, ",\"payment_dt\":");
    ser_u64(out, p.payment_dt);
    ser_lit(out, ",\"bank\":");
    ser_str(out, p.bank.as_str());
    ser_lit(out, ",\"delivery_cost\":");
    ser_u32(out, p.delivery_cost);
    ser_lit(out, ",\"goods_total\":");
    ser_u32(out, p.goods_total);
    ser_lit(out, ",\"custom_fee\":");
    ser_u32(out, p.custom_fee);
    ser_lit(out, "}");
    proof {
        assert(out@ =~= base + pr_payment(p@));
    }
}

/// Writes an item record.
#[verifier::rlimit(100)]
pub fn ser_item(out: &mut Vec<char>, it: &Item)
    ensures
        final(out)@ == old(out)@ + pr_item(it@),
{
    proof {
        reveal(pr_item);
    }
    let ghost base: Seq<char> = out@;
    ser_lit(out, "{\"chrt_id\":");
    ser_u64(out, it.chrt_id);
    ser_lit(out, ",\"track_number\":");
    ser_str(out, it.track_number.as_str());
    ser_lit(out, ",\"price\":");
    ser_u32(out, it.price);
    ser_lit(out, ",\"rid\":");
    ser_str(out, it.rid.as_str());
    ser_lit(out, ",\"name\":");
    ser_str(out, it.name.as_str());
    ser_lit(out, ",\"sale\":");
    ser_u32(out, it.sale);
    ser_lit(out, ",\"size\":");
    ser_str(out, it.size.as_str());
    ser_lit(out, ",\"total_price\":");
    ser_u32(out, it.total_price);
    ser_lit(out, ",\"nm_id\":");
    ser_u64(out, it.nm_id);
    ser_lit(out, ",\"brand\":");
    ser_str(out, it.brand.as_str());
    ser_lit(out, ",\"status\":");
    ser_u32(out, it.status);
    ser_lit(out, "}");
    proof {
        assert(out@ =~= base + pr_item(it@));
    }
}

/// Writes the tail of the item list from position `k` on.
fn ser_items_rest(out: &mut Vec<char>, items: &Vec<Item>, k: usize)
    requires
        k <= items.len(),
    ensures
        final(out)@ == old(out)@ + pr_items_rest(items_view(items@).skip(k as int)),
    decreases items.len() - k,
{
    let ghost base: Seq<char> = out@;
    let ghost mapped = items_view(items@);
    if k == items.len() {
        out.push(']');
        proof {
            assert(mapped.skip(k as int) =~= Seq::<ItemV>::empty());
            assert(out@ =~= base + pr_items_rest(mapped.skip(k as int)));
        }
    } else {
        out.push(',');
        ser_item(out, &items[k]);
        ser_items_rest(out, items, k + 1);
        proof {
            assert(mapped.skip(k as int)[0] == items@[k as int]@);
            assert(mapped.skip(k as int).skip(1) =~= mapped.skip(k + 1));
            assert(out@ =~= base + pr_items_rest(mapped.skip(k as int)));
        }
    }
}

/// Writes the item list.
pub fn ser_items(out: &mut Vec<char>, items: &Vec<Item>)
    ensures
        final(out)@ == old(out)@ + pr_items(items_view(items@)),
{
    let ghost base: Seq<char> = out@;
    let ghost mapped = items_view(items@);
    out.push('[');
    if items.len() == 0 {
        out.push(']');
        proof {
            assert(out@ =~= base + pr_items(mapped));
        }
    } else {
        ser_item(out, &items[0]);
        ser_items_rest(out, items, 1);
        proof {
            assert(mapped[0] == items@[0]@);
            assert(out@ =~= base + pr_items(mapped));
        }
    }
}

/// Writes a whole order record.
#[verifier::rlimit(100)]
pub fn ser_order(out: &mut Vec<char>, o: &Order)
    ensures
        final(out)@ == old(out)@ + pr_order(o@),
{
    proof {
        reveal(pr_order);
    }
    let ghost base: Seq<char> = out@;
    let ghost t14: Seq<char> = "}"@;
    let ghost v13: Seq<char> = pr_str(o@.oof_shard);
    let ghost t13: Seq<char> = ",\"oof_shard\":"@ + (v13 + t14);
    let ghost v12: Seq<char> = pr_str(o@.date_created);
    let ghost t12: Seq<char> = ",\"date_created\":"@ + (v12 + t13);
    let ghost v11: Seq<char> = pr_u32(o@.sm_id);
    let ghost t11: Seq<char> = ",\"sm_id\":"@ + (v11 + t12);
    let ghost v10: Seq<char> = pr_str(o@.shardkey);
    let ghost t10: Seq<char> = ",\"shardkey\":"@ + (v10 + t11);
    let ghost v9: Seq<char> = pr_str(o@.delivery_service);
    let ghost t9: Seq<char> = ",\"delivery_service\":"@ + (v9 + t10);
    let ghost v8: Seq<char> = pr_str(o@.customer_id);
    let ghost t8: Seq<char> = ",\"customer_id\":"@ + (v8 + t9);
    let ghost v7: Seq<char> = pr_str(o@.internal_signature);
    let ghost t7: Seq<char> = ",\"internal_signature\":"@ + (v7 + t8);
    let ghost v6: Seq<char> = pr_str(o@.locale);
    let ghost t6: Seq<char> = ",\"locale\":"@ + (v6 + t7);
    let ghost v5: Seq<char> = pr_items(o@.items);
    let ghost t5: Seq<char> = ",\"items\":"@ + (v5 + t6);
    let ghost v4: Seq<char> = pr_payment(o@.payment);
    let ghost t4: Seq<char> = ",\"payment\":"@ + (v4 + t5);
    let ghost v3: Seq<char> = pr_delivery(o@.delivery);
    let ghost t3: Seq<char> = ",\"delivery\":"@ + (v3 + t4);
    let ghost v2: Seq<char> = pr_str(o@.entry);
    let ghost t2: Seq<char> = ",\"entry\":"@ + (v2 + t3);
    let ghost v1: Seq<char> = pr_str(o@.track_number);
    let ghost t1: Seq<char> = ",\"track_number\":"@ + (v1 + t2);
    let ghost v0: Seq<char> = pr_str(o@.order_uid);
    let ghost t0: Seq<char> = "{\"order_uid\":"@ + (v0 + t1);
    proof {
        assert(pr_order(o@) == t0);
    }
    let ghost g0: Seq<char> = out@;
    ser_lit(out, "{\"order_uid\":");
    proof {
        seq_assoc(g0, "{\"order_uid\":"@, v0 + t1);
        assert(base + t0 == out@ + (v0 + t1));
    }
    let ghost g1: Seq<char> = out@;
    ser_str(out, o.order_uid.as_str());
    proof {
        seq_assoc(g1, v0, t1);
        assert(base + t0 == out@ + t1);
    }
    let ghost g2: Seq<char> = out@;
    ser_lit(out, ",\"track_number\":");
    proof {
        seq_assoc(g2, ",\"track_number\":"@, v1 + t2);
        assert(base + t0 == out@ + (v1 + t2));
    }
    let ghost g3: Seq<char> = out@;
    ser_str(out, o.track_number.as_str());
    proof {
        seq_assoc(g3, v1, t2);
        assert(base + t0 == out@ + t2);
    }
    let ghost g4: Seq<char> = out@;
    ser_lit(out, ",\"entry\":");
    proof {
        seq_assoc(g4, ",\"entry\":"@, v2 + t3);
        assert(base + t0 == out@ + (v2 + t3));
    }
    let ghost g5: Seq<char> = out@;
    ser_str(out, o.entry.as_str());
    proof {
        seq_assoc(g5, v2, t3);
        assert(base + t0 == out@ + t3);
    }
    let ghost g6: Seq<char> = out@;
    ser_lit(out, ",\"delivery\":");
    proof {
        seq_assoc(g6, ",\"delivery\":"@, v3 + t4);
        assert(base + t0 == out@ + (v3 + t4));
    }
    let ghost g7: Seq<char> = out@;
    ser_delivery(out, &o.delivery);
    proof {
        seq_assoc(g7, v3, t4);
        assert(base + t0 == out@ + t4);
    }
    let ghost g8: Seq<char> = out@;
    ser_lit(out, ",\"payment\":");
    proof {
        seq_assoc(g8, ",\"payment\":"@, v4 + t5);
        assert(base + t0 == out@ + (v4 + t5));
    }
    let ghost g9: Seq<char> = out@;
    ser_payment(out, &o.payment);
    proof {
        seq_assoc(g9, v4, t5);
        assert(base + t0 == out@ + t5);
    }
    let ghost g10: Seq<char> = out@;
    ser_lit(out, ",\"items\":");
    proof {
        seq_assoc(g10, ",\"items\":"@, v5 + t6);
        assert(base + t0 == out@ + (v5 + t6));
    }
    let ghost g11: Seq<char> = out@;
    ser_items(out, &o.items);
    proof {
        seq_assoc(g11, v5, t6);
        assert(base + t0 == out@ + t6);
    }
    let ghost g12: Seq<char> = out@;
    ser_lit(out, ",\"locale\":");
    proof {
        seq_assoc(g12, ",\"locale\":"@, v6 + t7);
        assert(base + t0 == out@ + (v6 + t7));
    }
    let ghost g13: Seq<char> = out@;
    ser_str(out, o.locale.as_str());
    proof {
        seq_assoc(g13, v6, t7);
        assert(base + t0 == out@ + t7);
    }
    let ghost g14: Seq<char> = out@;
    ser_lit(out, ",\"internal_signature\":");
    proof {
        seq_assoc(g14, ",\"internal_signature\":"@, v7 + t8);
        assert(base + t0 == out@ + (v7 + t8));
    }
    let ghost g15: Seq<char> = out@;
    ser_str(out, o.internal_signature.as_str());
    proof {
        seq_assoc(g15, v7, t8);
        assert(base + t0 == out@ + t8);
    }
    let ghost g16: Seq<char> = out@;
    ser_lit(out, ",\"customer_id\":");
    proof {
        seq_assoc(g16, ",\"customer_id\":"@, v8 + t9);
        assert(base + t0 == out@ + (v8 + t9));
    }
    let ghost g17: Seq<char> = out@;
    ser_str(out, o.customer_id.as_str());
    proof {
        seq_assoc(g17, v8, t9);
        assert(base + t0 == out@ + t9);
    }
    let ghost g18: Seq<char> = out@;
    ser_lit(out, ",\"delivery_service\":");
    proof {
        seq_assoc(g18, ",\"delivery_service\":"@, v9 + t10);
        assert(base + t0 == out@ + (v9 + t10));
    }
    let ghost g19: Seq<char> = out@;
    ser_str(out, o.delivery_service.as_str());
    proof {
        seq_assoc(g19, v9, t10);
        assert(base + t0 == out@ + t10);
    }
    let ghost g20: Seq<char> = out@;
    ser_lit(out, ",\"shardkey\":");
    proof {
        seq_assoc(g20, ",\"shardkey\":"@, v10 + t11);
        assert(base + t0 == out@ + (v10 + t11));
    }
    let ghost g21: Seq<char> = out@;
    ser_str(out, o.shardkey.as_str());
    proof {
        seq_assoc(g21, v10, t11);
        assert(base + t0 == out@ + t11);
    }
    let ghost g22: Seq<char> = out@;
    ser_lit(out, ",\"sm_id\":");
    proof {
        seq_assoc(g22, ",\"sm_id\":"@, v11 + t12);
        assert(base + t0 == out@ + (v11 + t12));
    }
    let ghost g23: Seq<char> = out@;
    ser_u32(out, o.sm_id);
    proof {
        seq_assoc(g23, v11, t12);
        assert(base + t0 == out@ + t12);
    }
    let ghost g24: Seq<char> = out@;
    ser_lit(out, ",\"date_created\":");
    proof {
        seq_assoc(g24, ",\"date_created\":"@, v12 + t13);
        assert(base + t0 == out@ + (v12 + t13));
    }
    let ghost g25: Seq<char> = out@;
    ser_str(out, o.date_created.as_str());
    proof {
        seq_assoc(g25, v12, t13);
        assert(base + t0 == out@ + t13);
    }
    let ghost g26: Seq<char> = out@;
    ser_lit(out, ",\"oof_shard\":");
    proof {
        seq_assoc(g26, ",\"oof_shard\":"@, v13 + t14);
        assert(base + t0 == out@ + (v13 + t14));
    }
    let ghost g27: Seq<char> = out@;
    ser_str(out, o.oof_shard.as_str());
    proof {
        seq_assoc(g27, v13, t14);
        assert(base + t0 == out@ + t14);
    }
    ser_lit(out, "}");
    proof {
        assert(out@ == base + pr_order(o@));
    }
}

/// Serializes an order to its wire text.
pub fn serialize_order(o: &Order) -> (r: String)
    ensures
        r@ == pr_order(o@),
{
    let mut out: Vec<char> = Vec::new();
    ser_order(&mut out, o);
    proof {
        assert(Seq::<char>::empty() + pr_order(o@) =~= pr_order(o@));
    }
    chars_to_string(out)
}

} // verus!
