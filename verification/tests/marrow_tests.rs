use obsidian::marrow::merged_sell_price;
use obsidian::marrow::{
    best_sell_city, cache_expiry, chart_date_range, chart_points, chart_url, find_price,
    gold_cache_fresh, gold_url, history_cutoff, history_is_stale, history_time_scale,
    ingest_market_history, ingest_market_orders, locations_param, map_location_id,
    market_history_points, min_daily_volume, placeholders, points_since, price_from_api,
    price_is_stale, price_url, rank_city_prices, search_term, transport_warning, ApiChartData,
    ApiPrice, CityPriceSummary, HistoryPoint, IngestMarketHistoriesUpload, IngestMarketHistory,
    IngestMarketOrder, IngestMarketUpload, MarrowError,
};

fn city(name: &str, sell: Option<i64>) -> CityPriceSummary {
    CityPriceSummary { city: name.to_string(), sell_price_min: sell, buy_price_max: None }
}

fn point(count: i64, ts: &str) -> HistoryPoint {
    HistoryPoint { item_count: count, silver_amount: 0, avg_price: 0, timestamp: ts.to_string() }
}

fn api_price(item: &str, c: &str, q: i64) -> ApiPrice {
    ApiPrice {
        item_id: item.to_string(),
        city: c.to_string(),
        quality: q,
        sell_price_min: Some(100),
        sell_price_max: Some(200),
        buy_price_min: Some(50),
        buy_price_max: Some(90),
        sell_price_min_date: Some("2024-01-01T00:00:00".to_string()),
        buy_price_max_date: None,
    }
}

#[test]
fn location_ids() {
    assert_eq!(map_location_id("0004"), Some("Fort Sterling"));
    assert_eq!(map_location_id("3005"), Some("Caerleon"));
    assert_eq!(map_location_id("5003"), Some("Brecilien"));
    assert_eq!(map_location_id("9999"), None);
}

#[test]
fn urls_drop_trailing_slashes() {
    assert_eq!(
        price_url("https://west.albion-online-data.com//", "T4_BAG"),
        "https://west.albion-online-data.com/api/v2/stats/prices/T4_BAG.json"
    );
    assert_eq!(chart_url("http://x", "T4_BAG"), "http://x/api/v2/stats/charts/T4_BAG.json");
    assert_eq!(gold_url("http://x/"), "http://x/api/v2/stats/gold.json?count=1");
}

#[test]
fn locations_joined() {
    assert_eq!(
        locations_param(),
        "Bridgewatch,Caerleon,FortSterling,Lymhurst,Martlock,Thetford,BlackMarket"
    );
}

#[test]
fn cache_expiry_at_least_one_second() {
    assert_eq!(cache_expiry(1000, 300), 1300);
    assert_eq!(cache_expiry(1000, 0), 1001);
    assert_eq!(cache_expiry(1000, -5), 1001);
}

#[test]
fn find_price_ignores_case() {
    let prices = vec![api_price("T4_BAG", "Lymhurst", 1), api_price("T4_BAG", "Martlock", 2)];
    assert_eq!(find_price(&prices, "t4_bag", "MARTLOCK", 2), Some(1));
    assert_eq!(find_price(&prices, "T4_BAG", "Martlock", 1), None);
}

#[test]
fn api_price_becomes_response() {
    let r = price_from_api(api_price("T4_BAG", "Lymhurst", 1), "Bag".to_string(), 4, 77);
    assert_eq!(r.sell_price, Some(100));
    assert_eq!(r.buy_price, Some(90));
    assert_eq!(r.display_name, "Bag");
    assert_eq!(r.source, "api");
    assert_eq!(r.fetched_at, 77);
}

#[test]
fn gold_cache_five_minutes() {
    assert!(gold_cache_fresh(1000, 1299));
    assert!(!gold_cache_fresh(1000, 1300));
}

#[test]
fn search_terms_trimmed() {
    assert_eq!(search_term("  bag \n"), Some("bag".to_string()));
    assert_eq!(search_term("   "), None);
    assert_eq!(search_term(""), None);
}

#[test]
fn sql_placeholders() {
    assert_eq!(placeholders(3), "?, ?, ?");
    assert_eq!(placeholders(1), "?");
    assert_eq!(placeholders(0), "");
}

#[test]
fn time_scales() {
    assert_eq!(history_time_scale(1), 1);
    assert_eq!(history_time_scale(3), 6);
    assert_eq!(history_time_scale(7), 24);
    assert_eq!(history_time_scale(-2), 1);
}

#[test]
fn history_range() {
    assert_eq!(history_cutoff(1_000_000, 2), Ok(1_000_000 - 172_800));
    assert_eq!(history_cutoff(1_000_000, 0), Err(MarrowError::InvalidDateRange));
    assert_eq!(history_cutoff(1_000_000, -3), Err(MarrowError::InvalidDateRange));
}

#[test]
fn points_filtered_by_time() {
    // 2024-01-02T00:00:00 is 1704153600
    let points = vec![
        point(1, "2024-01-01T00:00:00"),
        point(2, "2024-01-02T00:00:00"),
        point(3, "not a date"),
        point(4, "2024-01-03T12:00:00"),
    ];
    let kept = points_since(&points, 1_704_153_600);
    let counts: Vec<i64> = kept.iter().map(|p| p.item_count).collect();
    assert_eq!(counts, vec![2, 4]);
}

#[test]
fn charts_zip_series() {
    let data = ApiChartData {
        timestamps: vec!["a".to_string(), "b".to_string(), "c".to_string()],
        prices_avg: vec![Some(10), None],
        item_count: vec![5, 6, 7],
    };
    let points = chart_points(&data).unwrap();
    assert_eq!(points.len(), 3);
    assert_eq!((points[0].item_count, points[0].avg_price, points[0].silver_amount), (5, 10, 50));
    assert_eq!((points[1].avg_price, points[1].silver_amount), (0, 0));
    assert_eq!((points[2].item_count, points[2].avg_price), (7, 0));
    assert_eq!(points[2].timestamp, "c");
    let huge = ApiChartData {
        timestamps: vec!["a".to_string()],
        prices_avg: vec![Some(i64::MAX)],
        item_count: vec![2],
    };
    assert!(chart_points(&huge).is_none());
}

#[test]
fn chart_dates() {
    // 2024-03-05T00:00:00 is 1709596800
    let (start, end) = chart_date_range(1_709_596_800, 7);
    assert_eq!(end, "3-5-2024");
    assert_eq!(start, "2-27-2024");
}

#[test]
fn ingest_orders_skips_unknown_locations() {
    let upload = IngestMarketUpload {
        Orders: vec![
            IngestMarketOrder {
                ItemTypeId: "T4_BAG".to_string(),
                LocationId: "4002".to_string(),
                QualityLevel: 1,
                UnitPriceSilver: 1500,
            },
            IngestMarketOrder {
                ItemTypeId: "T5_BAG".to_string(),
                LocationId: "7777".to_string(),
                QualityLevel: 2,
                UnitPriceSilver: 2500,
            },
        ],
    };
    let ups = ingest_market_orders(&upload);
    assert_eq!(ups.len(), 1);
    assert_eq!(ups[0].city, "Lymhurst");
    assert_eq!(ups[0].sell_price_min, 1500);
}

#[test]
fn market_history_upload_points() {
    let upload = IngestMarketHistoriesUpload {
        LocationId: "1002".to_string(),
        QualityLevel: 1,
        Timescale: 0,
        MarketHistories: vec![
            IngestMarketHistory { ItemAmount: 4, SilverAmount: 1000, Timestamp: 1_704_067_200_000_000_000 },
            IngestMarketHistory { ItemAmount: 0, SilverAmount: 10, Timestamp: 0 },
        ],
    };
    let (c, points) = market_history_points(&upload).unwrap();
    assert_eq!(c, "Martlock");
    assert_eq!(points[0].avg_price, 250);
    assert_eq!(points[0].timestamp, "2024-01-01T00:00:00+00:00");
    assert_eq!(points[1].avg_price, 0);
    assert_eq!(points[1].timestamp, "1970-01-01T00:00:00+00:00");
    let unknown = IngestMarketHistoriesUpload { LocationId: "x".to_string(), ..upload };
    assert!(market_history_points(&unknown).is_none());
    assert!(ingest_market_history(&unknown).is_ok());
}

#[test]
fn ranking_is_descending_and_stable() {
    let cities = vec![
        city("Bridgewatch", Some(100)),
        city("Caerleon", None),
        city("FortSterling", Some(300)),
        city("Lymhurst", Some(100)),
        city("Martlock", Some(0)),
    ];
    let ranked = rank_city_prices(cities);
    let order: Vec<&str> = ranked.iter().map(|c| c.city.as_str()).collect();
    assert_eq!(order, vec!["FortSterling", "Bridgewatch", "Lymhurst", "Caerleon", "Martlock"]);
    assert_eq!(best_sell_city(&ranked), Some("FortSterling".to_string()));
}

#[test]
fn best_city_needs_sell_orders() {
    let ranked = vec![city("Caerleon", None), city("Martlock", Some(0))];
    assert_eq!(best_sell_city(&ranked), Some("Martlock".to_string()));
    assert_eq!(best_sell_city(&vec![city("Caerleon", None)]), None);
}

#[test]
fn transport_warnings() {
    assert_eq!(
        transport_warning(&Some("Caerleon".to_string()), "Lymhurst"),
        Some("Requires transport to Caerleon".to_string())
    );
    assert_eq!(transport_warning(&Some("Lymhurst".to_string()), "Lymhurst"), None);
    assert_eq!(transport_warning(&None, "Lymhurst"), None);
}

#[test]
fn staleness() {
    let day = 1_704_067_200; // 2024-01-01T00:00:00
    assert!(!price_is_stale(&Some("2024-01-01T00:00:00".to_string()), day + 86_400));
    assert!(price_is_stale(&Some("2024-01-01T00:00:00".to_string()), day + 86_401));
    assert!(price_is_stale(&Some("garbage".to_string()), day));
    assert!(price_is_stale(&None, day));
    assert!(history_is_stale(&vec![], day));
    assert!(!history_is_stale(&vec![point(1, "2024-01-01T00:00:00")], day + 172_800));
    assert!(history_is_stale(&vec![point(1, "2024-01-01T00:00:00")], day + 172_801));
    assert!(!history_is_stale(&vec![point(1, "garbage")], day));
}

#[test]
fn minimum_volume() {
    assert_eq!(min_daily_volume(&vec![]), None);
    assert_eq!(min_daily_volume(&vec![point(5, "a"), point(2, "b"), point(9, "c")]), Some(2));
}

#[test]
fn best_city_asks_the_most() {
    let cities = vec![
        city("Bridgewatch", Some(120)),
        city("Caerleon", None),
        city("FortSterling", Some(95)),
        city("Lymhurst", Some(410)),
        city("Martlock", None),
        city("Thetford", Some(409)),
    ];
    let ranked = rank_city_prices(cities);
    let best = best_sell_city(&ranked).unwrap();
    assert_eq!(best, "Lymhurst");
    let best_price = ranked.iter().find(|c| c.city == best).unwrap().sell_price_min.unwrap();
    assert!(ranked.iter().filter_map(|c| c.sell_price_min).all(|p| p <= best_price));
}

#[test]
fn marrow_error_messages() {
    assert_eq!(MarrowError::NotFound.message(), "not found");
    assert_eq!(MarrowError::InvalidDateRange.message(), "invalid date range");
}

#[test]
fn shorter_range_is_longer_range_trimmed() {
    let points = vec![
        point(1, "2024-01-01T00:00:00"),
        point(2, "2024-01-05T00:00:00"),
        point(3, "2024-01-09T00:00:00"),
        point(4, "bad"),
        point(5, "2024-01-12T06:00:00"),
    ];
    // 2024-01-04T00:00:00 and 2024-01-10T00:00:00
    let longer = 1_704_326_400;
    let shorter = 1_704_844_800;
    let direct: Vec<i64> = points_since(&points, shorter).iter().map(|p| p.item_count).collect();
    let trimmed: Vec<i64> =
        points_since(&points_since(&points, longer), shorter).iter().map(|p| p.item_count).collect();
    assert_eq!(direct, vec![5]);
    assert_eq!(direct, trimmed);
    let wide: Vec<i64> = points_since(&points, longer).iter().map(|p| p.item_count).collect();
    assert_eq!(wide, vec![2, 3, 5]);
}

#[test]
fn uploaded_sell_price_merge() {
    // a new entry takes the uploaded price
    assert_eq!(merged_sell_price(None, 500, 1000), Some(500));
    // a lower upload undercuts the cached price
    assert_eq!(merged_sell_price(Some((Some(600), Some(2000))), 500, 1000), Some(500));
    // a higher upload leaves a fresh cached price
    assert_eq!(merged_sell_price(Some((Some(400), Some(2000))), 500, 1000), Some(400));
    // an expired entry takes the upload even when it is higher
    assert_eq!(merged_sell_price(Some((Some(400), Some(999))), 500, 1000), Some(500));
    // a fresh entry without a price keeps none
    assert_eq!(merged_sell_price(Some((None, Some(2000))), 500, 1000), None);
    assert_eq!(merged_sell_price(Some((None, None)), 500, 1000), None);
}
