//! The order store's verified half: the schema statement, the insert
//! statement, and the row a given order is written as. The statements
//! are constants; executing them against the database is I/O and lives
//! with the caller.

use vstd::prelude::*;
use crate::model::{Order, items_view};
use crate::record::{pr_delivery, pr_payment, pr_items};
use crate::record_ser::{ser_delivery, ser_payment, ser_items};
use crate::text::chars_to_string;

verus! {

/// The schema statement. It creates the table only when absent, so
/// running it on every start neither errors nor touches an existing
/// table or its rows.
pub open spec fn spec_schema_sql() -> Seq<char> {
    "CREATE TABLE IF NOT EXISTS orders (id SERIAL PRIMARY KEY, order_uid VARCHAR NOT NULL, track_number VARCHAR NOT NULL, entry VARCHAR NOT NULL, delivery JSONB, payment JSONB, items JSONB, locale VARCHAR NOT NULL, internal_signature VARCHAR NOT NULL, customer_id VARCHAR NOT NULL, delivery_service VARCHAR NOT NULL, shardkey VARCHAR NOT NULL, sm_id INTEGER NOT NULL, date_created TIMESTAMPTZ DEFAULT now(), oof_shard VARCHAR)"@
}

/// The statement `ensure_schema` runs; the same text on every call.
pub fn schema_sql() -> (r: &'static str)
    ensures
        r@ == spec_schema_sql(),
{
    "CREATE TABLE IF NOT EXISTS orders (id SERIAL PRIMARY KEY, order_uid VARCHAR NOT NULL, track_number VARCHAR NOT NULL, entry VARCHAR NOT NULL, delivery JSONB, payment JSONB, items JSONB, locale VARCHAR NOT NULL, internal_signature VARCHAR NOT NULL, customer_id VARCHAR NOT NULL, delivery_service VARCHAR NOT NULL, shardkey VARCHAR NOT NULL, sm_id INTEGER NOT NULL, date_created TIMESTAMPTZ DEFAULT now(), oof_shard VARCHAR)"
}

/// The append-only insert statement: one new row per call, no upsert,
/// no conflict handling, no uniqueness demanded of `order_uid`.
pub open spec fn spec_insert_sql() -> Seq<char> {
    "INSERT INTO orders (order_uid, track_number, entry, delivery, payment, items, locale, internal_signature, customer_id, delivery_service, shardkey, sm_id, date_created, oof_shard) VALUES ($1, $2, $3, $4, $5, $6, $7, $8, $9, $10, $11, $12, $13, $14)"@
}

/// The statement `save` binds an order's row to.
pub fn insert_sql() -> (r: &'static str)
    ensures
        r@ == spec_insert_sql(),
{
    "INSERT INTO orders (order_uid, track_number, entry, delivery, payment, items, locale, internal_signature, customer_id, delivery_service, shardkey, sm_id, date_created, oof_shard) VALUES ($1, $2, $3, $4, $5, $6, $7, $8, $9, $10, $11, $12, $13, $14)"
}

/// One row of the orders table, in binding order: the plain columns as
/// they stand in the order, and the three nested groups as their
/// serialized blobs.
pub struct OrderRow {
    pub order_uid: String,
    pub track_number: String,
    pub entry: String,
    pub delivery: String,
    pub payment: String,
    pub items: String,
    pub locale: String,
    pub internal_signature: String,
    pub customer_id: String,
    pub delivery_service: String,
    pub shardkey: String,
    pub sm_id: u32,
    pub date_created: String,
    pub oof_shard: String,
}

/// Builds the row an order is persisted as: every plain column equals
/// the order's field, and each nested group is exactly its wire text.
pub fn order_row(o: &Order) -> (r: OrderRow)
    ensures
        r.order_uid@ == o.order_uid@,
        r.track_number@ == o.track_number@,
        r.entry@ == o.entry@,
        r.delivery@ == pr_delivery(o.delivery@),
        r.payment@ == pr_payment(o.payment@),
        r.items@ == pr_items(items_view(o.items@)),
        r.locale@ == o.locale@,
        r.internal_signature@ == o.internal_signature@,
        r.customer_id@ == o.customer_id@,
        r.delivery_service@ == o.delivery_service@,
        r.shardkey@ == o.shardkey@,
        r.sm_id == o.sm_id,
        r.date_created@ == o.date_created@,
        r.oof_shard@ == o.oof_shard@,
{
    let mut d: Vec<char> = Vec::new();
    ser_delivery(&mut d, &o.delivery);
    let mut p: Vec<char> = Vec::new();
    ser_payment(&mut p, &o.payment);
    let mut its: Vec<char> = Vec::new();
    ser_items(&mut its, &o.items);
    proof {
        assert(Seq::<char>::empty() + pr_delivery(o.delivery@) =~= pr_delivery(o.delivery@));
        assert(Seq::<char>::empty() + pr_payment(o.payment@) =~= pr_payment(o.payment@));
        assert(Seq::<char>::empty() + pr_items(items_view(o.items@)) =~= pr_items(
            items_view(o.items@),
        ));
    }
    OrderRow {
        order_uid: o.order_uid.clone(),
        track_number: o.track_number.clone(),
        entry: o.entry.clone(),
        delivery: chars_to_string(d),
        payment: chars_to_string(p),
        items: chars_to_string(its),
        locale: o.locale.clone(),
        internal_signature: o.internal_signature.clone(),
        customer_id: o.customer_id.clone(),
        delivery_service: o.delivery_service.clone(),
        shardkey: o.shardkey.clone(),
        sm_id: o.sm_id,
        date_created: o.date_created.clone(),
        oof_shard: o.oof_shard.clone(),
    }
}

} // verus!
