//! Marrow: market prices and price history of items, the market data the
//! client uploads, and how the cities compare for selling an item.

use vstd::prelude::*;
use crate::text::{
    decimal_int, decimal_nat, eq_ignore_ascii_case, eq_ignore_ascii_case_spec, join, join_strs,
    str_eq, trim, trim_end_slashes, trim_spec, without_trailing_slashes,
};
use crate::time::{civil_date, iso_to_unix, naive_iso_seconds, rfc3339_utc, unix_to_rfc3339, utc_civil_date};

verus! {

broadcast use vstd::string::group_string_axioms;

/// Why a market request failed.
#[derive(Debug, Clone, Copy, PartialEq, Eq, Structural)]
pub enum MarrowError {
    NotFound,
    InvalidDateRange,
}

impl MarrowError {
    /// The message shown for the error.
    pub fn message(&self) -> (r: String)
        ensures
            r@ == match *self {
                MarrowError::NotFound => "not found"@,
                MarrowError::InvalidDateRange => "invalid date range"@,
            },
    {
        match self {
            MarrowError::NotFound => "not found".to_string(),
            MarrowError::InvalidDateRange => "invalid date range".to_string(),
        }
    }
}

/// Current price of an item in a city.
#[derive(Debug, Clone)]
pub struct PriceResponse {
    pub uniquename: String,
    pub display_name: String,
    pub tier: i64,
    pub city: String,
    pub quality: i64,
    pub sell_price: Option<i64>,
    pub buy_price: Option<i64>,
    pub sell_price_min: Option<i64>,
    pub sell_price_max: Option<i64>,
    pub buy_price_min: Option<i64>,
    pub buy_price_max: Option<i64>,
    pub sell_price_min_date: Option<String>,
    pub buy_price_max_date: Option<String>,
    pub fetched_at: i64,
    pub source: String,
}

/// One point of an item's price history.
#[derive(Debug, Clone)]
pub struct HistoryPoint {
    pub item_count: i64,
    pub silver_amount: i64,
    pub avg_price: i64,
    pub timestamp: String,
}

/// Price history of an item in a city.
#[derive(Debug, Clone)]
pub struct HistoryResponse {
    pub uniquename: String,
    pub city: String,
    pub quality: i64,
    pub time_scale: i64,
    pub fetched_at: i64,
    pub source: String,
    pub points: Vec<HistoryPoint>,
}

/// An item found by a search.
#[derive(Debug, Clone)]
pub struct SearchResult {
    pub uniquename: String,
    pub display_name: String,
    pub tier: i64,
    pub shopcategory: String,
    pub shopsubcategory1: String,
}

/// The price of gold.
#[derive(Debug, Clone)]
pub struct GoldResponse {
    pub price: i64,
    pub timestamp: String,
}

/// A price entry of the market data service.
#[derive(Debug, Clone)]
pub struct ApiPrice {
    pub item_id: String,
    pub city: String,
    pub quality: i64,
    pub sell_price_min: Option<i64>,
    pub sell_price_max: Option<i64>,
    pub buy_price_min: Option<i64>,
    pub buy_price_max: Option<i64>,
    pub sell_price_min_date: Option<String>,
    pub buy_price_max_date: Option<String>,
}

/// The parallel series of a chart of the market data service.
#[derive(Debug, Clone)]
pub struct ApiChartData {
    pub timestamps: Vec<String>,
    pub prices_avg: Vec<Option<i64>>,
    pub item_count: Vec<i64>,
}

/// A market order uploaded by the data client.
#[allow(non_snake_case)]
#[derive(Debug, Clone)]
pub struct IngestMarketOrder {
    pub ItemTypeId: String,
    pub LocationId: String,
    pub QualityLevel: i64,
    pub UnitPriceSilver: i64,
}

/// A batch of market orders uploaded by the data client.
#[allow(non_snake_case)]
#[derive(Debug, Clone)]
pub struct IngestMarketUpload {
    pub Orders: Vec<IngestMarketOrder>,
}

/// One history entry uploaded by the data client.
#[allow(non_snake_case)]
#[derive(Debug, Clone)]
pub struct IngestMarketHistory {
    pub ItemAmount: i64,
    pub SilverAmount: u64,
    pub Timestamp: u64,
}

/// A batch of history entries uploaded by the data client.
#[allow(non_snake_case)]
#[derive(Debug, Clone)]
pub struct IngestMarketHistoriesUpload {
    pub LocationId: String,
    pub QualityLevel: i64,
    pub Timescale: i64,
    pub MarketHistories: Vec<IngestMarketHistory>,
}

/// An item's sell and buy price in one city.
#[derive(Debug, Clone)]
pub struct CityPriceSummary {
    pub city: String,
    pub sell_price_min: Option<i64>,
    pub buy_price_max: Option<i64>,
}

/// The city of a market location id of the game client.
pub open spec fn location_city(id: Seq<char>) -> Option<Seq<char>> {
    if id == "0004"@ {
        Some("Fort Sterling"@)
    } else if id == "1002"@ {
        Some("Martlock"@)
    } else if id == "1006"@ {
        Some("Black Market"@)
    } else if id == "2002"@ {
        Some("Thetford"@)
    } else if id == "3003"@ {
        Some("Bridgewatch"@)
    } else if id == "3005"@ {
        Some("Caerleon"@)
    } else if id == "4002"@ {
        Some("Lymhurst"@)
    } else if id == "5003"@ {
        Some("Brecilien"@)
    } else {
        None
    }
}

/// The city of a market location id of the game client, if it is a known one.
pub fn map_location_id(id: &str) -> (r: Option<&'static str>)
    ensures
        r matches Some(c) ==> location_city(id@) == Some(c@),
        r is None ==> location_city(id@) is None,
{
    if str_eq(id, "0004") {
        Some("Fort Sterling")
    } else if str_eq(id, "1002") {
        Some("Martlock")
    } else if str_eq(id, "1006") {
        Some("Black Market")
    } else if str_eq(id, "2002") {
        Some("Thetford")
    } else if str_eq(id, "3003") {
        Some("Bridgewatch")
    } else if str_eq(id, "3005") {
        Some("Caerleon")
    } else if str_eq(id, "4002") {
        Some("Lymhurst")
    } else if str_eq(id, "5003") {
        Some("Brecilien")
    } else {
        None
    }
}

/// The game client's market location table: eight known ids, each naming
/// its own city, and no two ids naming the same city.
pub proof fn lemma_location_table()
    ensures
        Map::new(|id: Seq<char>| location_city(id) is Some, |id: Seq<char>| location_city(id)->0)
            == map![
            "0004"@ => "Fort Sterling"@,
            "1002"@ => "Martlock"@,
            "1006"@ => "Black Market"@,
            "2002"@ => "Thetford"@,
            "3003"@ => "Bridgewatch"@,
            "3005"@ => "Caerleon"@,
            "4002"@ => "Lymhurst"@,
            "5003"@ => "Brecilien"@,
        ],
        forall|a: Seq<char>, b: Seq<char>|
            #![trigger location_city(a), location_city(b)]
            location_city(a) is Some && location_city(a) == location_city(b) ==> a == b,
{
    reveal_strlit("0004");
    reveal_strlit("1002");
    reveal_strlit("1006");
    reveal_strlit("2002");
    reveal_strlit("3003");
    reveal_strlit("3005");
    reveal_strlit("4002");
    reveal_strlit("5003");
    reveal_strlit("Fort Sterling");
    reveal_strlit("Martlock");
    reveal_strlit("Black Market");
    reveal_strlit("Thetford");
    reveal_strlit("Bridgewatch");
    reveal_strlit("Caerleon");
    reveal_strlit("Lymhurst");
    reveal_strlit("Brecilien");
    let cities = seq![
        "Fort Sterling"@,
        "Martlock"@,
        "Black Market"@,
        "Thetford"@,
        "Bridgewatch"@,
        "Caerleon"@,
        "Lymhurst"@,
        "Brecilien"@,
    ];
    let ids = seq!["0004"@, "1002"@, "1006"@, "2002"@, "3003"@, "3005"@, "4002"@, "5003"@];
    // the city names differ in their first letter or their length, the ids
    // in one of their digits
    assert(cities[0][0] == 'F' && cities[1][0] == 'M' && cities[3][0] == 'T' && cities[5][0] == 'C'
        && cities[6][0] == 'L');
    assert(cities[2].len() == 12 && cities[4].len() == 11 && cities[7].len() == 9 && cities[2][0]
        == 'B' && cities[4][0] == 'B' && cities[7][0] == 'B');
    assert(forall|i: int, j: int| 0 <= i < j < 8 ==> cities[i] != cities[j]);
    assert(ids[0][0] == '0' && ids[1][3] == '2' && ids[2][3] == '6' && ids[3][0] == '2' && ids[4][3]
        == '3' && ids[5][3] == '5' && ids[6][0] == '4' && ids[7][0] == '5' && ids[1][0] == '1'
        && ids[2][0] == '1' && ids[4][0] == '3' && ids[5][0] == '3');
    assert(forall|i: int, j: int| 0 <= i < j < 8 ==> ids[i] != ids[j]);
    assert(Map::new(|id: Seq<char>| location_city(id) is Some, |id: Seq<char>| location_city(id)->0)
        =~= map![
        "0004"@ => "Fort Sterling"@,
        "1002"@ => "Martlock"@,
        "1006"@ => "Black Market"@,
        "2002"@ => "Thetford"@,
        "3003"@ => "Bridgewatch"@,
        "3005"@ => "Caerleon"@,
        "4002"@ => "Lymhurst"@,
        "5003"@ => "Brecilien"@,
    ]);
}

/// The market locations whose prices are fetched and compared, in the order
/// the comparison starts from.
pub open spec fn all_cities() -> Seq<Seq<char>> {
    seq![
        "Bridgewatch"@,
        "Caerleon"@,
        "FortSterling"@,
        "Lymhurst"@,
        "Martlock"@,
        "Thetford"@,
        "BlackMarket"@,
    ]
}

/// The market locations whose prices are fetched and compared.
pub fn all_cities_list() -> (r: Vec<&'static str>)
    ensures
        r@.map_values(|c: &str| c@) == all_cities(),
{
    let r = vec![
        "Bridgewatch",
        "Caerleon",
        "FortSterling",
        "Lymhurst",
        "Martlock",
        "Thetford",
        "BlackMarket",
    ];
    assert(r@.map_values(|c: &str| c@) =~= all_cities());
    r
}

} // verus!

verus! {

/// The sell price a city is ranked by: its lowest sell order, 0 when it has none.
pub open spec fn rank_key(c: CityPriceSummary) -> int {
    match c.sell_price_min {
        Some(p) => p as int,
        None => 0,
    }
}

/// Cities in order of decreasing rank key.
pub open spec fn ranked_descending(s: Seq<CityPriceSummary>) -> bool {
    forall|i: int, j: int| 0 <= i < j < s.len() ==> rank_key(s[i]) >= rank_key(s[j])
}

/// The cities of `s` whose rank key is `k`, in the order of `s`.
pub open spec fn with_key(s: Seq<CityPriceSummary>, k: int) -> Seq<CityPriceSummary> {
    s.filter(|c: CityPriceSummary| rank_key(c) == k)
}

fn copy_city(c: &CityPriceSummary) -> (r: CityPriceSummary)
    ensures
        r == *c,
{
    CityPriceSummary {
        city: c.city.clone(),
        sell_price_min: c.sell_price_min,
        buy_price_max: c.buy_price_max,
    }
}

fn key_of(c: &CityPriceSummary) -> (r: i64)
    ensures
        r == rank_key(*c),
{
    match c.sell_price_min {
        Some(p) => p,
        None => 0,
    }
}

proof fn lemma_filter_none(s: Seq<CityPriceSummary>, k: int)
    requires
        forall|i: int| 0 <= i < s.len() ==> rank_key(s[i]) != k,
    ensures
        with_key(s, k) =~= Seq::<CityPriceSummary>::empty(),
    decreases s.len(),
{
    if s.len() > 0 {
        let f = |c: CityPriceSummary| rank_key(c) == k;
        lemma_filter_none(s.drop_last(), k);
        assert(s =~= s.drop_last().push(s.last()));
        s.drop_last().lemma_filter_push(s.last(), f);
    }
}

proof fn lemma_insert_keeps_groups(
    r: Seq<CityPriceSummary>,
    p: int,
    x: CityPriceSummary,
    k: int,
)
    requires
        0 <= p <= r.len(),
        forall|i: int| p <= i < r.len() ==> rank_key(r[i]) < rank_key(x),
    ensures
        with_key(r.insert(p, x), k) == (if rank_key(x) == k {
            with_key(r, k).push(x)
        } else {
            with_key(r, k)
        }),
{
    let f = |c: CityPriceSummary| rank_key(c) == k;
    let a = r.take(p);
    let b = r.skip(p);
    assert(r =~= a + b);
    assert(r.insert(p, x) =~= a.push(x) + b);
    Seq::filter_distributes_over_add(a, b, f);
    Seq::filter_distributes_over_add(a.push(x), b, f);
    a.lemma_filter_push(x, f);
    if rank_key(x) == k {
        lemma_filter_none(b, k);
        assert(with_key(r, k) =~= with_key(a, k));
        assert(with_key(r.insert(p, x), k) =~= with_key(a, k).push(x));
    } else {
        assert(with_key(r.insert(p, x), k) =~= with_key(a, k) + with_key(b, k));
    }
}

/// Ranks cities for selling: by decreasing lowest sell price (a city without
/// sell orders counts as 0); cities with equal prices keep their order.
pub fn rank_city_prices(cities: Vec<CityPriceSummary>) -> (r: Vec<CityPriceSummary>)
    ensures
        ranked_descending(r@),
        forall|k: int| #[trigger] with_key(r@, k) == with_key(cities@, k),
        r@.to_multiset() == cities@.to_multiset(),
{
    let mut r: Vec<CityPriceSummary> = Vec::new();
    let mut i: usize = 0;
    assert(cities@.take(0) =~= Seq::<CityPriceSummary>::empty());
    broadcast use vstd::multiset::group_multiset_axioms;
    while i < cities.len()
        invariant
            i <= cities.len(),
            ranked_descending(r@),
            forall|k: int| #[trigger] with_key(r@, k) == with_key(cities@.take(i as int), k),
            r@.to_multiset() == cities@.take(i as int).to_multiset(),
        decreases cities.len() - i,
    {
        let x = copy_city(&cities[i]);
        let kx = key_of(&cities[i]);
        let mut p: usize = 0;
        while p < r.len() && key_of(&r[p]) >= kx
            invariant
                p <= r.len(),
                forall|j: int| 0 <= j < p ==> rank_key(r@[j]) >= kx,
            decreases r.len() - p,
        {
            p += 1;
        }
        let ghost old_r = r@;
        assert forall|j: int| p <= j < old_r.len() implies rank_key(old_r[j]) < kx by {
            assert(rank_key(old_r[p as int]) < kx);
            assert(rank_key(old_r[p as int]) >= rank_key(old_r[j]));
        }
        assert(rank_key(x) == kx);
        r.insert(p, x);
        proof {
            assert(cities@.take(i + 1) =~= cities@.take(i as int).push(cities@[i as int]));
            assert forall|k: int| #[trigger] with_key(r@, k) == with_key(cities@.take(i + 1), k) by {
                lemma_insert_keeps_groups(old_r, p as int, x, k);
                cities@.take(i as int).lemma_filter_push(
                    cities@[i as int],
                    |c: CityPriceSummary| rank_key(c) == k,
                );
            }
            let a = old_r.take(p as int);
            let b = old_r.skip(p as int);
            assert(old_r =~= a + b);
            assert(r@ =~= a.push(x) + b);
            vstd::seq_lib::lemma_multiset_commutative(a, b);
            vstd::seq_lib::lemma_multiset_commutative(a.push(x), b);
            a.to_multiset_ensures();
            cities@.take(i as int).to_multiset_ensures();
        }
        i += 1;
    }
    assert(cities@.take(cities.len() as int) =~= cities@);
    r
}

} // verus!

verus! {

/// URL of the current prices of an item.
pub fn price_url(base_url: &str, uniquename: &str) -> (r: String)
    ensures
        r@ == without_trailing_slashes(base_url@) + "/api/v2/stats/prices/"@ + uniquename@
            + ".json"@,
{
    let mut url = trim_end_slashes(base_url);
    url.append("/api/v2/stats/prices/");
    url.append(uniquename);
    url.append(".json");
    url
}

/// URL of the price charts of an item.
pub fn chart_url(base_url: &str, uniquename: &str) -> (r: String)
    ensures
        r@ == without_trailing_slashes(base_url@) + "/api/v2/stats/charts/"@ + uniquename@
            + ".json"@,
{
    let mut url = trim_end_slashes(base_url);
    url.append("/api/v2/stats/charts/");
    url.append(uniquename);
    url.append(".json");
    url
}

/// URL of the latest gold price.
pub fn gold_url(base_url: &str) -> (r: String)
    ensures
        r@ == without_trailing_slashes(base_url@) + "/api/v2/stats/gold.json?count=1"@,
{
    let mut url = trim_end_slashes(base_url);
    url.append("/api/v2/stats/gold.json?count=1");
    url
}

/// The `locations` query parameter: all compared cities, comma separated.
pub fn locations_param() -> (r: String)
    ensures
        r@ == join(all_cities(), ","@),
{
    let cities = all_cities_list();
    join_strs(&cities, ",")
}

/// The time until which fetched prices are served from the cache: `now`
/// plus the time to live, at least one second.
pub fn cache_expiry(now: i64, ttl_seconds: i64) -> (r: i64)
    requires
        i64::MIN <= now + (if ttl_seconds < 1 { 1 } else { ttl_seconds }) <= i64::MAX,
    ensures
        r == now + (if ttl_seconds < 1 { 1 } else { ttl_seconds }),
        r > now,
{
    let ttl = if ttl_seconds < 1 { 1 } else { ttl_seconds };
    now + ttl
}

/// Whether a fetched price entry is the one asked for: same item and city
/// (ignoring ASCII case) and same quality.
pub open spec fn price_matches(p: ApiPrice, uniquename: Seq<char>, city: Seq<char>, quality: i64) -> bool {
    &&& eq_ignore_ascii_case_spec(p.item_id@, uniquename)
    &&& eq_ignore_ascii_case_spec(p.city@, city)
    &&& p.quality == quality
}

/// The first fetched price entry for the item, city and quality asked for.
pub fn find_price(prices: &Vec<ApiPrice>, uniquename: &str, city: &str, quality: i64) -> (r: Option<usize>)
    ensures
        r matches Some(i) ==> (i < prices.len() && price_matches(prices@[i as int], uniquename@, city@, quality)
            && forall|k: int| 0 <= k < i ==> !price_matches(prices@[k], uniquename@, city@, quality)),
        r is None ==> forall|k: int| 0 <= k < prices.len() ==> !price_matches(prices@[k], uniquename@, city@, quality),
{
    let mut i: usize = 0;
    while i < prices.len()
        invariant
            i <= prices.len(),
            forall|k: int| 0 <= k < i ==> !price_matches(prices@[k], uniquename@, city@, quality),
        decreases prices.len() - i,
    {
        let p = &prices[i];
        if eq_ignore_ascii_case(p.item_id.as_str(), uniquename) && eq_ignore_ascii_case(p.city.as_str(), city)
            && p.quality == quality {
            return Some(i);
        }
        i += 1;
    }
    None
}

/// A fetched price entry as a price response: the sell price is the lowest
/// sell order and the buy price the highest buy order.
pub fn price_from_api(p: ApiPrice, display_name: String, tier: i64, fetched_at: i64) -> (r: PriceResponse)
    ensures
        r.uniquename == p.item_id,
        r.display_name == display_name,
        r.tier == tier,
        r.city == p.city,
        r.quality == p.quality,
        r.sell_price == p.sell_price_min,
        r.buy_price == p.buy_price_max,
        r.sell_price_min == p.sell_price_min,
        r.sell_price_max == p.sell_price_max,
        r.buy_price_min == p.buy_price_min,
        r.buy_price_max == p.buy_price_max,
        r.sell_price_min_date == p.sell_price_min_date,
        r.buy_price_max_date == p.buy_price_max_date,
        r.fetched_at == fetched_at,
        r.source@ == "api"@,
{
    PriceResponse {
        uniquename: p.item_id,
        display_name,
        tier,
        city: p.city,
        quality: p.quality,
        sell_price: p.sell_price_min,
        buy_price: p.buy_price_max,
        sell_price_min: p.sell_price_min,
        sell_price_max: p.sell_price_max,
        buy_price_min: p.buy_price_min,
        buy_price_max: p.buy_price_max,
        sell_price_min_date: p.sell_price_min_date,
        buy_price_max_date: p.buy_price_max_date,
        fetched_at,
        source: "api".to_string(),
    }
}

/// Display name and tier of an item from its stored row: the unique name and
/// tier 0 stand in for what is not stored.
pub fn item_display_meta(uniquename: &str, row: Option<(Option<String>, Option<i64>)>) -> (r: (String, i64))
    ensures
        row matches Some((d, t)) ==> (r.0@ == (match d { Some(n) => n@, None => uniquename@ })
            && r.1 == (match t { Some(x) => x, None => 0 })),
        row is None ==> r.0@ == uniquename@ && r.1 == 0,
{
    match row {
        Some((d, t)) => {
            let name = match d {
                Some(n) => n,
                None => uniquename.to_string(),
            };
            let tier = match t {
                Some(x) => x,
                None => 0,
            };
            (name, tier)
        },
        None => (uniquename.to_string(), 0),
    }
}

/// Whether the cached gold price (fetched at `fetched_at`) is still served:
/// it is less than 300 seconds old.
pub fn gold_cache_fresh(fetched_at: i64, now: i64) -> (r: bool)
    ensures
        r == (fetched_at > now - 300),
{
    (fetched_at as i128) > (now as i128) - 300
}

/// The search text of a query: the query without surrounding white space,
/// none when nothing is left.
pub fn search_term(query: &str) -> (r: Option<String>)
    ensures
        trim_spec(query@).len() == 0 ==> r is None,
        trim_spec(query@).len() > 0 ==> (r matches Some(t) && t@ == trim_spec(query@)),
{
    let t = trim(query);
    if t.as_str().unicode_len() == 0 {
        None
    } else {
        Some(t)
    }
}

/// `n` SQL placeholders, comma separated.
pub open spec fn placeholders_spec(n: nat) -> Seq<char> {
    join(Seq::new(n, |i: int| "?"@), ", "@)
}

/// `n` SQL placeholders (`?, ?, ?`), comma separated.
pub fn placeholders(n: usize) -> (r: String)
    ensures
        r@ == placeholders_spec(n as nat),
{
    let mut parts: Vec<&str> = Vec::new();
    let mut i: usize = 0;
    while i < n
        invariant
            i <= n,
            parts.len() == i,
            forall|k: int| 0 <= k < i ==> (#[trigger] parts@[k])@ == "?"@,
        decreases n - i,
    {
        parts.push("?");
        i += 1;
    }
    assert(parts@.map_values(|p: &str| p@) =~= Seq::new(n as nat, |k: int| "?"@));
    join_strs(&parts, ", ")
}

} // verus!

verus! {

/// Resolution of a price history, in hours, for a range of days: hourly up
/// to a day, every 6 hours up to 3 days, daily beyond.
pub open spec fn time_scale_for(days: int) -> i64 {
    if days <= 1 {
        1
    } else if days <= 3 {
        6
    } else {
        24
    }
}

/// Resolution of a price history, in hours, for a range of days.
pub fn history_time_scale(days: i64) -> (r: i64)
    ensures
        r == time_scale_for(days as int),
{
    if days <= 1 {
        1
    } else if days <= 3 {
        6
    } else {
        24
    }
}

/// The oldest time a history of `days` days reaches back to; a range of no
/// days is refused.
pub fn history_cutoff(now: i64, days: i64) -> (r: Result<i64, MarrowError>)
    requires
        days <= 0 || i64::MIN <= now - days * 86400 <= i64::MAX,
    ensures
        days <= 0 ==> r == Err::<i64, MarrowError>(MarrowError::InvalidDateRange),
        days > 0 ==> r == Ok::<i64, MarrowError>((now - days * 86400) as i64),
{
    if days <= 0 {
        return Err(MarrowError::InvalidDateRange);
    }
    proof {
        crate::arith::lemma_wide_product(days as int, 86400);
    }
    let span: i128 = (days as i128) * 86400;
    Ok(((now as i128) - span) as i64)
}

} // verus!

verus! {

fn copy_point(p: &HistoryPoint) -> (r: HistoryPoint)
    ensures
        r == *p,
{
    HistoryPoint {
        item_count: p.item_count,
        silver_amount: p.silver_amount,
        avg_price: p.avg_price,
        timestamp: p.timestamp.clone(),
    }
}

/// A history point lies within the range: its time reads as a date-time at
/// or after `cutoff`.
pub open spec fn point_since(p: HistoryPoint, cutoff: i64) -> bool {
    match naive_iso_seconds(p.timestamp@) {
        Some(ts) => ts >= cutoff,
        None => false,
    }
}

/// The history points within the range, in their order (a cached history
/// serves several ranges and is trimmed to the one asked for).
pub fn points_since(points: &Vec<HistoryPoint>, cutoff: i64) -> (r: Vec<HistoryPoint>)
    ensures
        r@ == points@.filter(|p: HistoryPoint| point_since(p, cutoff)),
{
    let ghost f = |p: HistoryPoint| point_since(p, cutoff);
    let mut r: Vec<HistoryPoint> = Vec::new();
    let mut i: usize = 0;
    assert(points@.take(0) =~= Seq::<HistoryPoint>::empty());
    while i < points.len()
        invariant
            i <= points.len(),
            f == (|p: HistoryPoint| point_since(p, cutoff)),
            r@ == points@.take(i as int).filter(f),
        decreases points.len() - i,
    {
        let keep = match iso_to_unix(points[i].timestamp.as_str()) {
            Some(ts) => ts >= cutoff,
            None => false,
        };
        proof {
            assert(points@.take(i + 1) =~= points@.take(i as int).push(points@[i as int]));
            points@.take(i as int).lemma_filter_push(points@[i as int], f);
        }
        if keep {
            r.push(copy_point(&points[i]));
        }
        i += 1;
    }
    assert(points@.take(points.len() as int) =~= points@);
    r
}

/// One cached history serves every range: the points of a shorter range are
/// the points of a longer range trimmed to the shorter one.
pub proof fn lemma_shorter_range_trims_longer(points: Seq<HistoryPoint>, longer: i64, shorter: i64)
    requires
        longer <= shorter,
    ensures
        points.filter(|p: HistoryPoint| point_since(p, shorter)) == points.filter(
            |p: HistoryPoint| point_since(p, longer),
        ).filter(|p: HistoryPoint| point_since(p, shorter)),
    decreases points.len(),
{
    let fs = |p: HistoryPoint| point_since(p, shorter);
    let fl = |p: HistoryPoint| point_since(p, longer);
    reveal_with_fuel(Seq::filter, 2);
    if points.len() > 0 {
        lemma_shorter_range_trims_longer(points.drop_last(), longer, shorter);
        let rest_l = points.drop_last().filter(fl);
        if fl(points.last()) {
            assert(points.filter(fl) == rest_l.push(points.last()));
            assert(rest_l.push(points.last()).drop_last() =~= rest_l);
        } else {
            assert(!fs(points.last()));
        }
    }
}

/// The item count of a chart at a position (0 past its end).
pub open spec fn chart_count(data: ApiChartData, idx: int) -> i64 {
    if idx < data.item_count.len() {
        data.item_count@[idx]
    } else {
        0
    }
}

/// The average price of a chart at a position (0 where it has none).
pub open spec fn chart_avg(data: ApiChartData, idx: int) -> i64 {
    if idx < data.prices_avg.len() {
        match data.prices_avg@[idx] {
            Some(a) => a,
            None => 0,
        }
    } else {
        0
    }
}

/// A history point built from a chart position: the silver amount is
/// estimated as count times average price.
pub open spec fn chart_point_ok(p: HistoryPoint, data: ApiChartData, idx: int) -> bool {
    &&& p.item_count == chart_count(data, idx)
    &&& p.avg_price == chart_avg(data, idx)
    &&& p.silver_amount == chart_count(data, idx) * chart_avg(data, idx)
    &&& p.timestamp@ == data.timestamps@[idx]@
}

/// The history points of a chart, one per timestamp, pairing the parallel
/// series by position; `None` when an estimated silver amount overflows `i64`.
pub fn chart_points(data: &ApiChartData) -> (r: Option<Vec<HistoryPoint>>)
    ensures
        r is Some <==> forall|idx: int|
            0 <= idx < data.timestamps.len() ==> i64::MIN <= #[trigger] (chart_count(*data, idx)
                * chart_avg(*data, idx)) <= i64::MAX,
        r matches Some(v) ==> v.len() == data.timestamps.len() && forall|idx: int|
            0 <= idx < v.len() ==> chart_point_ok(#[trigger] v@[idx], *data, idx),
{
    let mut v: Vec<HistoryPoint> = Vec::new();
    let mut idx: usize = 0;
    while idx < data.timestamps.len()
        invariant
            idx <= data.timestamps.len(),
            v.len() == idx,
            forall|k: int| 0 <= k < idx ==> chart_point_ok(#[trigger] v@[k], *data, k),
            forall|k: int|
                0 <= k < idx ==> i64::MIN <= #[trigger] (chart_count(*data, k) * chart_avg(*data, k))
                    <= i64::MAX,
        decreases data.timestamps.len() - idx,
    {
        let count: i64 = if idx < data.item_count.len() {
            data.item_count[idx]
        } else {
            0
        };
        let avg: i64 = if idx < data.prices_avg.len() {
            match data.prices_avg[idx] {
                Some(a) => a,
                None => 0,
            }
        } else {
            0
        };
        proof {
            crate::arith::lemma_wide_product(count as int, avg as int);
        }
        let silver: i128 = (count as i128) * (avg as i128);
        if silver < i64::MIN as i128 || silver > i64::MAX as i128 {
            assert(!(i64::MIN <= chart_count(*data, idx as int) * chart_avg(*data, idx as int) <= i64::MAX));
            return None;
        }
        v.push(
            HistoryPoint {
                item_count: count,
                silver_amount: silver as i64,
                avg_price: avg,
                timestamp: data.timestamps[idx].clone(),
            },
        );
        idx += 1;
    }
    Some(v)
}

/// Text of a date as the charts query wants it: month-day-year.
pub open spec fn chart_date_text(d: (i32, u32, u32)) -> Seq<char> {
    decimal_nat(d.1 as nat) + "-"@ + decimal_nat(d.2 as nat) + "-"@ + decimal_int(d.0 as int)
}

fn date_text(secs: i64) -> (r: String)
    requires
        -8_334_601_315_200 <= secs <= 8_210_266_876_799,
    ensures
        r@ == chart_date_text(utc_civil_date(secs)),
{
    let (year, month, day) = civil_date(secs);
    let mut s = crate::text::u64_to_decimal(month as u64);
    s.append("-");
    let d = crate::text::u64_to_decimal(day as u64);
    s.append(d.as_str());
    s.append("-");
    let y = crate::text::i64_to_decimal(year as i64);
    s.append(y.as_str());
    s
}

/// The date range of a charts query for the last `days` days: the dates of
/// `now - days` days and of `now`.
pub fn chart_date_range(now: i64, days: i64) -> (r: (String, String))
    requires
        -8_334_601_315_200 <= now <= 8_210_266_876_799,
        -8_334_601_315_200 <= now - days * 86400 <= 8_210_266_876_799,
    ensures
        r.0@ == chart_date_text(utc_civil_date((now - days * 86400) as i64)),
        r.1@ == chart_date_text(utc_civil_date(now)),
{
    proof {
        crate::arith::lemma_wide_product(days as int, 86400);
    }
    let span: i128 = (days as i128) * 86400;
    let start = ((now as i128) - span) as i64;
    (date_text(start), date_text(now))
}

} // verus!

verus! {

/// An uploaded sell order routed to the price cache.
#[derive(Debug, Clone)]
pub struct PriceUpsert {
    pub uniquename: String,
    pub city: String,
    pub quality: i64,
    pub sell_price_min: i64,
}

/// An uploaded order as the price cache stores it.
pub open spec fn upsert_of(u: PriceUpsert, o: IngestMarketOrder) -> bool {
    &&& u.uniquename@ == o.ItemTypeId@
    &&& location_city(o.LocationId@) == Some(u.city@)
    &&& u.quality == o.QualityLevel
    &&& u.sell_price_min == o.UnitPriceSilver
}

/// The uploaded orders placed at a known market, in upload order.
pub open spec fn known_orders(orders: Seq<IngestMarketOrder>) -> Seq<IngestMarketOrder> {
    orders.filter(|o: IngestMarketOrder| location_city(o.LocationId@) is Some)
}

/// The uploaded orders to store in the price cache: orders at unknown market
/// locations are skipped; the others keep their order, with the location
/// named by its city.
pub fn ingest_market_orders(upload: &IngestMarketUpload) -> (r: Vec<PriceUpsert>)
    ensures
        r.len() == known_orders(upload.Orders@).len(),
        forall|i: int| 0 <= i < r.len() ==> upsert_of(#[trigger] r@[i], known_orders(upload.Orders@)[i]),
{
    let ghost f = |o: IngestMarketOrder| location_city(o.LocationId@) is Some;
    let orders = &upload.Orders;
    let mut r: Vec<PriceUpsert> = Vec::new();
    let mut i: usize = 0;
    assert(orders@.take(0) =~= Seq::<IngestMarketOrder>::empty());
    while i < orders.len()
        invariant
            i <= orders.len(),
            orders == upload.Orders,
            f == (|o: IngestMarketOrder| location_city(o.LocationId@) is Some),
            r.len() == orders@.take(i as int).filter(f).len(),
            forall|k: int| 0 <= k < r.len() ==> upsert_of(#[trigger] r@[k], orders@.take(i as int).filter(f)[k]),
        decreases orders.len() - i,
    {
        let o = &orders[i];
        proof {
            assert(orders@.take(i + 1) =~= orders@.take(i as int).push(orders@[i as int]));
            orders@.take(i as int).lemma_filter_push(orders@[i as int], f);
        }
        match map_location_id(o.LocationId.as_str()) {
            Some(city) => {
                r.push(PriceUpsert {
                    uniquename: o.ItemTypeId.clone(),
                    city: city.to_string(),
                    quality: o.QualityLevel,
                    sell_price_min: o.UnitPriceSilver,
                });
            },
            None => {},
        }
        i += 1;
    }
    assert(orders@.take(orders.len() as int) =~= orders@);
    r
}

/// The lowest sell price the cache keeps once an uploaded sell order is
/// stored, given the cached entry (its price and expiry, when there is one)
/// and the time `now`: the uploaded price for a new entry, for one whose
/// price it undercuts, or for one that has expired; else the cached price.
pub open spec fn merged_sell_price_spec(
    cached: Option<(Option<i64>, Option<i64>)>,
    uploaded: i64,
    now: i64,
) -> Option<i64> {
    match cached {
        None => Some(uploaded),
        Some((price, expires)) => if (price matches Some(p) && uploaded < p) || (expires matches Some(
            t,
        ) && t < now) {
            Some(uploaded)
        } else {
            price
        },
    }
}

/// The lowest sell price kept after an uploaded sell order.
pub fn merged_sell_price(cached: Option<(Option<i64>, Option<i64>)>, uploaded: i64, now: i64) -> (r:
    Option<i64>)
    ensures
        r == merged_sell_price_spec(cached, uploaded, now),
{
    match cached {
        None => Some(uploaded),
        Some((price, expires)) => {
            let undercut = match price {
                Some(p) => uploaded < p,
                None => false,
            };
            let expired = match expires {
                Some(t) => t < now,
                None => false,
            };
            if undercut || expired {
                Some(uploaded)
            } else {
                price
            }
        },
    }
}

/// The history point of an uploaded history entry: the upload's nanosecond
/// time becomes an RFC 3339 time, the average price is silver per item
/// (0 without items).
pub open spec fn uploaded_point_ok(p: HistoryPoint, h: IngestMarketHistory) -> bool {
    &&& p.item_count == h.ItemAmount
    &&& p.silver_amount == h.SilverAmount as i64
    &&& p.avg_price == (if h.ItemAmount > 0 { (h.SilverAmount / (h.ItemAmount as u64)) as i64 } else { 0 })
    &&& p.timestamp@ == rfc3339_utc((h.Timestamp / 1_000_000_000) as i64)
}

/// The city and history points of an uploaded history batch; `None` for an
/// unknown market location.
pub fn market_history_points(upload: &IngestMarketHistoriesUpload) -> (r: Option<(String, Vec<HistoryPoint>)>)
    ensures
        location_city(upload.LocationId@) is None ==> r is None,
        location_city(upload.LocationId@) matches Some(c) ==> (r matches Some((city, points)) && {
            &&& city@ == c
            &&& points.len() == upload.MarketHistories.len()
            &&& forall|i: int| 0 <= i < points.len() ==> uploaded_point_ok(#[trigger] points@[i], upload.MarketHistories@[i])
        }),
{
    let city = match map_location_id(upload.LocationId.as_str()) {
        Some(c) => c,
        None => return None,
    };
    let hs = &upload.MarketHistories;
    let mut points: Vec<HistoryPoint> = Vec::new();
    let mut i: usize = 0;
    while i < hs.len()
        invariant
            i <= hs.len(),
            hs == upload.MarketHistories,
            points.len() == i,
            forall|k: int| 0 <= k < i ==> uploaded_point_ok(#[trigger] points@[k], hs@[k]),
        decreases hs.len() - i,
    {
        let h = &hs[i];
        let ts_sec = (h.Timestamp / 1_000_000_000) as i64;
        let ts_iso = unix_to_rfc3339(ts_sec);
        let avg: i64 = if h.ItemAmount > 0 {
            (h.SilverAmount / (h.ItemAmount as u64)) as i64
        } else {
            0
        };
        points.push(HistoryPoint {
            item_count: h.ItemAmount,
            silver_amount: h.SilverAmount as i64,
            avg_price: avg,
            timestamp: ts_iso,
        });
        i += 1;
    }
    Some((city.to_string(), points))
}

/// Accepts an uploaded history batch. Its points are computed, but the
/// upload does not name the item, so nothing is stored; the upload is
/// always accepted.
pub fn ingest_market_history(upload: &IngestMarketHistoriesUpload) -> (r: Result<(), MarrowError>)
    ensures
        r is Ok,
{
    let _points = market_history_points(upload);
    Ok(())
}

} // verus!

verus! {

/// The first city of a ranking that has sell orders.
pub fn best_sell_city(ranked: &Vec<CityPriceSummary>) -> (r: Option<String>)
    ensures
        r is None <==> forall|i: int| 0 <= i < ranked.len() ==> ranked@[i].sell_price_min is None,
        r matches Some(c) ==> exists|i: int|
            0 <= i < ranked.len() && ranked@[i].sell_price_min is Some && c@ == ranked@[i].city@
                && forall|k: int| 0 <= k < i ==> ranked@[k].sell_price_min is None,
{
    let mut i: usize = 0;
    while i < ranked.len()
        invariant
            i <= ranked.len(),
            forall|k: int| 0 <= k < i ==> ranked@[k].sell_price_min is None,
        decreases ranked.len() - i,
    {
        if ranked[i].sell_price_min.is_some() {
            return Some(ranked[i].city.clone());
        }
        i += 1;
    }
    None
}

/// The city a ranking recommends selling in has the highest lowest-sell
/// price of all cities with sell orders: in a descending ranking, where the
/// city at `best` is the first with sell orders, no city with sell orders
/// asks more.
pub proof fn lemma_best_city_is_highest(ranked: Seq<CityPriceSummary>, best: int, other: int)
    requires
        ranked_descending(ranked),
        0 <= best < ranked.len(),
        ranked[best].sell_price_min is Some,
        forall|k: int| 0 <= k < best ==> ranked[k].sell_price_min is None,
        0 <= other < ranked.len(),
        ranked[other].sell_price_min is Some,
    ensures
        ranked[other].sell_price_min->0 <= ranked[best].sell_price_min->0,
{
    if other > best {
        assert(rank_key(ranked[best]) >= rank_key(ranked[other]));
    }
}

/// A ranking orders cities by their lowest sell price alone, whatever their
/// buy orders: of two cities with sell orders the earlier asks at least as
/// much, a city without sell orders comes after every city whose sell price
/// is positive, and before none whose sell price is negative.
pub proof fn lemma_ranking_by_sell_price(ranked: Seq<CityPriceSummary>, i: int, j: int)
    requires
        ranked_descending(ranked),
        0 <= i < j < ranked.len(),
    ensures
        ranked[i].sell_price_min is Some && ranked[j].sell_price_min is Some
            ==> ranked[i].sell_price_min->0 >= ranked[j].sell_price_min->0,
        ranked[i].sell_price_min is None ==> (ranked[j].sell_price_min matches Some(q) ==> q <= 0),
        ranked[j].sell_price_min is None ==> (ranked[i].sell_price_min matches Some(p) ==> p >= 0),
{
    assert(rank_key(ranked[i]) >= rank_key(ranked[j]));
}

/// The warning shown when the best city to sell in is not the crafting city.
pub fn transport_warning(best_sell_city: &Option<String>, city: &str) -> (r: Option<String>)
    ensures
        best_sell_city is None ==> r is None,
        best_sell_city matches Some(b) ==> (if b@ == city@ {
            r is None
        } else {
            r matches Some(w) && w@ == "Requires transport to "@ + b@
        }),
{
    match best_sell_city {
        Some(b) => {
            if str_eq(b.as_str(), city) {
                None
            } else {
                let mut w = "Requires transport to ".to_string();
                w.append(b.as_str());
                Some(w)
            }
        },
        None => None,
    }
}

/// Whether a price is stale: it has no date that reads as a date-time, or
/// its date is more than a day before `now`.
pub fn price_is_stale(sell_price_min_date: &Option<String>, now: i64) -> (r: bool)
    ensures
        r == match sell_price_min_date {
            Some(d) => match naive_iso_seconds(d@) {
                Some(ts) => now - ts > 86400,
                None => true,
            },
            None => true,
        },
{
    match sell_price_min_date {
        Some(d) => match iso_to_unix(d.as_str()) {
            Some(ts) => (now as i128) - (ts as i128) > 86400,
            None => true,
        },
        None => true,
    }
}

/// Whether a price history is stale: it is empty, or its last point is more
/// than two days before `now` (a last point whose time does not read counts
/// as recent).
pub fn history_is_stale(points: &Vec<HistoryPoint>, now: i64) -> (r: bool)
    ensures
        points.len() == 0 ==> r,
        points.len() > 0 ==> r == match naive_iso_seconds(points@.last().timestamp@) {
            Some(ts) => now - ts > 172800,
            None => false,
        },
{
    if points.len() == 0 {
        return true;
    }
    match iso_to_unix(points[points.len() - 1].timestamp.as_str()) {
        Some(ts) => (now as i128) - (ts as i128) > 172800,
        None => false,
    }
}

/// The smallest daily volume of a history, none for an empty history.
pub fn min_daily_volume(points: &Vec<HistoryPoint>) -> (r: Option<i64>)
    ensures
        points.len() == 0 ==> r is None,
        points.len() > 0 ==> (r matches Some(m) && (exists|i: int|
            0 <= i < points.len() && points@[i].item_count == m) && forall|i: int|
            0 <= i < points.len() ==> m <= points@[i].item_count),
{
    if points.len() == 0 {
        return None;
    }
    let mut m = points[0].item_count;
    let mut i: usize = 1;
    while i < points.len()
        invariant
            1 <= i <= points.len(),
            exists|k: int| 0 <= k < i && points@[k].item_count == m,
            forall|k: int| 0 <= k < i ==> m <= points@[k].item_count,
        decreases points.len() - i,
    {
        if points[i].item_count < m {
            m = points[i].item_count;
        }
        i += 1;
    }
    Some(m)
}

} // verus!
