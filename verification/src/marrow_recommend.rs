//! Crafting recommendation for an account: whether its city bonus applies to
//! an item, and the sell price an item can be sold at in a city.

use vstd::prelude::*;
use crate::settings::{bonus_city, bonus_city_for, shopcategory_category, shopcategory_to_item_category, AccountProfile};
use crate::text::{decimal_int, eq_ignore_ascii_case, eq_ignore_ascii_case_spec, i64_to_decimal};

verus! {

/// Why a recommendation could not be made.
#[derive(Debug, Clone)]
pub enum MarrowRecommendError {
    ItemNotFound(String),
    NoPriceData,
}

impl MarrowRecommendError {
    /// The message shown for the error.
    pub fn message(&self) -> (r: String)
        ensures
            r@ == match *self {
                MarrowRecommendError::ItemNotFound(name) => "item not found: "@ + name@,
                MarrowRecommendError::NoPriceData => "no price data available"@,
            },
    {
        match self {
            MarrowRecommendError::ItemNotFound(name) => {
                let mut m = "item not found: ".to_string();
                m.append(name.as_str());
                m
            },
            MarrowRecommendError::NoPriceData => "no price data available".to_string(),
        }
    }
}

/// What a fetched price entry tells of a city's sell orders.
#[derive(Debug, Clone)]
pub struct PriceEntry {
    pub city: Option<String>,
    pub sell_price_min: Option<i64>,
}

/// Whether an account gets the city bonus for an item of a shop category:
/// for a bonus category, the category's bonus city is the account's city
/// (ignoring ASCII case) and the account crafts the category; a shop
/// category that is no bonus category never gets it.
pub open spec fn city_bonus_applies(shopcategory: Seq<char>, account: AccountProfile) -> bool {
    match shopcategory_category(shopcategory) {
        Some(cat) => eq_ignore_ascii_case_spec(bonus_city(cat), account.city@)
            && account.crafting_lines@.contains(cat),
        None => false,
    }
}

/// Determine if the given item's shopcategory maps to a known ItemCategory
/// that the account has a city bonus for.
pub fn resolve_has_city_bonus(shopcategory: &str, account: &AccountProfile) -> (r: bool)
    ensures
        r == city_bonus_applies(shopcategory@, *account),
{
    match shopcategory_to_item_category(shopcategory) {
        Some(cat) => {
            if !eq_ignore_ascii_case(bonus_city_for(&cat), account.city.as_str()) {
                return false;
            }
            let mut i: usize = 0;
            while i < account.crafting_lines.len()
                invariant
                    i <= account.crafting_lines.len(),
                    shopcategory_category(shopcategory@) == Some(cat),
                    eq_ignore_ascii_case_spec(bonus_city(cat), account.city@),
                    forall|k: int| 0 <= k < i ==> account.crafting_lines@[k] != cat,
                decreases account.crafting_lines.len() - i,
            {
                if account.crafting_lines[i] == cat {
                    assert(account.crafting_lines@[i as int] == cat);
                    return true;
                }
                i += 1;
            }
            false
        },
        None => false,
    }
}

/// URL of the prices of an item in a city and at the Black Market, for one
/// quality.
pub fn recommend_price_url(base_url: &str, item_id: &str, city: &str, quality: i64) -> (r: String)
    ensures
        r@ == base_url@ + "/api/v2/stats/prices/"@ + item_id@ + "?locations="@ + city@
            + ",Black Market&qualities="@ + decimal_int(quality as int),
{
    let mut url = base_url.to_string();
    url.append("/api/v2/stats/prices/");
    url.append(item_id);
    url.append("?locations=");
    url.append(city);
    url.append(",Black Market&qualities=");
    let q = i64_to_decimal(quality);
    url.append(q.as_str());
    url
}

/// URL of the price history of an item in a city, for one quality, at a
/// time scale of `days`.
pub fn recommend_history_url(base_url: &str, item_id: &str, city: &str, quality: i64, days: i64) -> (r:
    String)
    ensures
        r@ == base_url@ + "/api/v2/stats/history/"@ + item_id@ + "?locations="@ + city@
            + "&qualities="@ + decimal_int(quality as int) + "&time-scale="@ + decimal_int(
            days as int,
        ),
{
    let mut url = base_url.to_string();
    url.append("/api/v2/stats/history/");
    url.append(item_id);
    url.append("?locations=");
    url.append(city);
    url.append("&qualities=");
    let q = i64_to_decimal(quality);
    url.append(q.as_str());
    url.append("&time-scale=");
    let d = i64_to_decimal(days);
    url.append(d.as_str());
    url
}

/// A price entry counts for a city when it names the city (ignoring ASCII
/// case) and has a positive lowest sell order.
pub open spec fn counts_for(e: PriceEntry, city: Seq<char>) -> bool {
    &&& e.city matches Some(c) && eq_ignore_ascii_case_spec(c@, city)
    &&& e.sell_price_min matches Some(p) && p > 0
}

/// The sell price of an item in a city: the lowest positive sell order among
/// the city's entries, 0 when there is none.
pub fn best_sell_price(entries: &Vec<PriceEntry>, city: &str) -> (r: i64)
    ensures
        (forall|i: int| 0 <= i < entries.len() ==> !counts_for(entries@[i], city@)) ==> r == 0,
        (exists|i: int| 0 <= i < entries.len() && counts_for(entries@[i], city@)) ==> {
            &&& exists|i: int|
                0 <= i < entries.len() && counts_for(entries@[i], city@) && entries@[i].sell_price_min
                    == Some(r)
            &&& forall|i: int|
                0 <= i < entries.len() && counts_for(entries@[i], city@) ==> r
                    <= entries@[i].sell_price_min->0
        },
{
    let mut best: Option<i64> = None;
    let mut i: usize = 0;
    while i < entries.len()
        invariant
            i <= entries.len(),
            best is None ==> forall|k: int| 0 <= k < i ==> !counts_for(entries@[k], city@),
            best matches Some(b) ==> {
                &&& exists|k: int|
                    0 <= k < i && counts_for(entries@[k], city@) && entries@[k].sell_price_min
                        == Some(b)
                &&& forall|k: int|
                    0 <= k < i && counts_for(entries@[k], city@) ==> b
                        <= entries@[k].sell_price_min->0
            },
        decreases entries.len() - i,
    {
        let e = &entries[i];
        let in_city = match &e.city {
            Some(c) => eq_ignore_ascii_case(c.as_str(), city),
            None => false,
        };
        if in_city {
            match e.sell_price_min {
                Some(p) => {
                    if p > 0 {
                        match best {
                            Some(b) => {
                                if p < b {
                                    best = Some(p);
                                }
                            },
                            None => {
                                best = Some(p);
                            },
                        }
                    }
                },
                None => {},
            }
        }
        i += 1;
    }
    match best {
        Some(b) => b,
        None => 0,
    }
}

} // verus!
