//! The order record and its nested value objects, with their mathematical
//! views, and the two error kinds the core can raise.

use vstd::prelude::*;
use crate::rfc3339::is_rfc3339;

verus! {

/// Delivery address attached to an order; every field is free-form text.
#[derive(Clone, Debug, PartialEq, Eq)]
pub struct Delivery {
    pub name: String,
    pub phone: String,
    pub zip: String,
    pub city: String,
    pub address: String,
    pub region: String,
    pub email: String,
}

/// Mathematical view of a `Delivery`: each field as a sequence of characters.
#[verifier::ext_equal]
pub struct DeliveryV {
    pub name: Seq<char>,
    pub phone: Seq<char>,
    pub zip: Seq<char>,
    pub city: Seq<char>,
    pub address: Seq<char>,
    pub region: Seq<char>,
    pub email: Seq<char>,
}

impl View for Delivery {
    type V = DeliveryV;

    open spec fn view(&self) -> DeliveryV {
        DeliveryV {
            name: self.name@,
            phone: self.phone@,
            zip: self.zip@,
            city: self.city@,
            address: self.address@,
            region: self.region@,
            email: self.email@,
        }
    }
}

/// Payment details of an order; numeric fields are unsigned and unchecked.
#[derive(Clone, Debug, PartialEq, Eq)]
pub struct Payment {
    pub transaction: String,
    pub request_id: String,
    pub currency: String,
    pub provider: String,
    pub amount: u32,
    pub payment_dt: u64,
    pub bank: String,
    pub delivery_cost: u32,
    pub goods_total: u32,
    pub custom_fee: u32,
}

/// Mathematical view of a `Payment`.
#[verifier::ext_equal]
pub struct PaymentV {
    pub transaction: Seq<char>,
    pub request_id: Seq<char>,
    pub currency: Seq<char>,
    pub provider: Seq<char>,
    pub amount: u32,
    pub payment_dt: u64,
    pub bank: Seq<char>,
    pub delivery_cost: u32,
    pub goods_total: u32,
    pub custom_fee: u32,
}

impl View for Payment {
    type V = PaymentV;

    open spec fn view(&self) -> PaymentV {
        PaymentV {
            transaction: self.transaction@,
            request_id: self.request_id@,
            currency: self.currency@,
            provider: self.provider@,
            amount: self.amount,
            payment_dt: self.payment_dt,
            bank: self.bank@,
            delivery_cost: self.delivery_cost,
            goods_total: self.goods_total,
            custom_fee: self.custom_fee,
        }
    }
}

/// One line item of an order.
#[derive(Clone, Debug, PartialEq, Eq)]
pub struct Item {
    pub chrt_id: u64,
    pub track_number: String,
    pub price: u32,
    pub rid: String,
    pub name: String,
    pub sale: u32,
    pub size: String,
    pub total_price: u32,
    pub nm_id: u64,
    pub brand: String,
    pub status: u32,
}

/// Mathematical view of an `Item`.
#[verifier::ext_equal]
pub struct ItemV {
    pub chrt_id: u64,
    pub track_number: Seq<char>,
    pub price: u32,
    pub rid: Seq<char>,
    pub name: Seq<char>,
    pub sale: u32,
    pub size: Seq<char>,
    pub total_price: u32,
    pub nm_id: u64,
    pub brand: Seq<char>,
    pub status: u32,
}

impl View for Item {
    type V = ItemV;

    open spec fn view(&self) -> ItemV {
        ItemV {
            chrt_id: self.chrt_id,
            track_number: self.track_number@,
            price: self.price,
            rid: self.rid@,
            name: self.name@,
            sale: self.sale,
            size: self.size@,
            total_price: self.total_price,
            nm_id: self.nm_id,
            brand: self.brand@,
            status: self.status,
        }
    }
}

/// A submitted order: the top-level record, constructed once by the decoder
/// and never mutated afterwards.
#[derive(Clone, Debug, PartialEq, Eq)]
pub struct Order {
    pub order_uid: String,
    pub track_number: String,
    pub entry: String,
    pub delivery: Delivery,
    pub payment: Payment,
    pub items: Vec<Item>,
    pub locale: String,
    pub internal_signature: String,
    pub customer_id: String,
    pub delivery_service: String,
    pub shardkey: String,
    pub sm_id: u32,
    pub date_created: String,
    pub oof_shard: String,
}

/// Mathematical view of an `Order`.
#[verifier::ext_equal]
pub struct OrderV {
    pub order_uid: Seq<char>,
    pub track_number: Seq<char>,
    pub entry: Seq<char>,
    pub delivery: DeliveryV,
    pub payment: PaymentV,
    pub items: Seq<ItemV>,
    pub locale: Seq<char>,
    pub internal_signature: Seq<char>,
    pub customer_id: Seq<char>,
    pub delivery_service: Seq<char>,
    pub shardkey: Seq<char>,
    pub sm_id: u32,
    pub date_created: Seq<char>,
    pub oof_shard: Seq<char>,
}

/// View of a sequence of items, element by element.
pub open spec fn items_view(items: Seq<Item>) -> Seq<ItemV> {
    items.map_values(|it: Item| it@)
}

impl View for Order {
    type V = OrderV;

    open spec fn view(&self) -> OrderV {
        OrderV {
            order_uid: self.order_uid@,
            track_number: self.track_number@,
            entry: self.entry@,
            delivery: self.delivery@,
            payment: self.payment@,
            items: items_view(self.items@),
            locale: self.locale@,
            internal_signature: self.internal_signature@,
            customer_id: self.customer_id@,
            delivery_service: self.delivery_service@,
            shardkey: self.shardkey@,
            sm_id: self.sm_id,
            date_created: self.date_created@,
            oof_shard: self.oof_shard@,
        }
    }
}

/// An order is well formed exactly when its creation timestamp is a valid
/// RFC 3339 date-time. No cross-field rule (such as item totals against
/// `payment.goods_total`) is part of well-formedness.
pub open spec fn order_well_formed(o: OrderV) -> bool {
    is_rfc3339(o.date_created)
}

/// Rejection of a submitted payload. A malformed timestamp is reported
/// apart from a malformed shape, so callers can tell the two apart.
#[derive(Clone, Copy, Debug, PartialEq, Eq, Structural)]
pub enum DecodeError {
    /// The payload is not a record of the expected shape: a field is
    /// missing, mistyped, or the text is not well formed.
    Malformed,
    /// The record's shape is fine up to `date_created`, but that field
    /// does not hold an RFC 3339 date-time.
    InvalidTimestamp,
}

/// A persistence failure reported by the storage layer; the core neither
/// retries it nor lets it touch cache state.
#[derive(Clone, Debug, PartialEq, Eq)]
pub struct StoreError {
    pub detail: String,
}

} // verus!
