//! The first, minimal form of the alchemy planner: a plan lists the queued
//! items with one crafting run per item produced.

use vstd::prelude::*;

verus! {

/// An item to plan.
#[derive(Debug, Clone)]
pub struct PlanItem {
    pub uniquename: String,
    pub quantity_out: i64,
}

/// A plan request.
#[derive(Debug, Clone)]
pub struct PlanRequest {
    pub account_name: String,
    pub items: Vec<PlanItem>,
}

/// An item of a planned session.
#[derive(Debug, Clone)]
pub struct SessionItem {
    pub uniquename: String,
    pub craft_amount: i64,
}

/// A material price to record.
#[derive(Debug, Clone)]
pub struct SetPriceRequest {
    pub uniquename: String,
    pub unit_price: i64,
}

/// The session items of a minimal plan: each queued item, with its output
/// quantity as the amount crafted.
pub fn session_items(items: Vec<PlanItem>) -> (r: Vec<SessionItem>)
    ensures
        r.len() == items.len(),
        forall|i: int|
            0 <= i < r.len() ==> (#[trigger] r@[i]).uniquename@ == items@[i].uniquename@
                && r@[i].craft_amount == items@[i].quantity_out,
{
    let mut r: Vec<SessionItem> = Vec::new();
    let mut i: usize = 0;
    while i < items.len()
        invariant
            i <= items.len(),
            r.len() == i,
            forall|k: int|
                0 <= k < i ==> (#[trigger] r@[k]).uniquename@ == items@[k].uniquename@
                    && r@[k].craft_amount == items@[k].quantity_out,
        decreases items.len() - i,
    {
        r.push(SessionItem { uniquename: items[i].uniquename.clone(), craft_amount: items[i].quantity_out });
        i += 1;
    }
    r
}

} // verus!
