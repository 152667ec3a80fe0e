//! The texts the two endpoints answer with, as functions of the core's
//! state and outcomes.

use vstd::prelude::*;
use vstd::string::StringExecFns;
use crate::model::{Order, StoreError};
use crate::record::pr_order;
use crate::record_ser::serialize_order;

verus! {

/// The submission response body: the fixed success text, or the fixed
/// failure text when the store reported an error. The failure shows
/// only in the body, not in the transport status — a known trait of
/// the design, kept as it is.
pub fn submit_response(saved: &Result<(), StoreError>) -> (r: &'static str)
    ensures
        saved is Ok ==> r@ == "Order received"@,
        saved is Err ==> r@ == "Failed to save order"@,
{
    match saved {
        Ok(_) => "Order received",
        Err(_) => "Failed to save order",
    }
}

/// The read endpoint's body: the cached order's wire text in a display
/// container when one is held, else the fixed placeholder.
pub fn render_order(slot: &Option<Order>) -> (r: String)
    ensures
        match slot {
            Some(o) => r@ == "<pre>"@ + pr_order(o@) + "</pre>"@,
            None => r@ == "<p>No order received yet.</p>"@,
        },
{
    match slot {
        Some(o) => {
            let body = serialize_order(o);
            let mut r = String::from_str("<pre>");
            r.append(body.as_str());
            r.append("</pre>");
            r
        },
        None => String::from_str("<p>No order received yet.</p>"),
    }
}

} // verus!
