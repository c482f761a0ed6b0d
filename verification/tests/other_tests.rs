use obsidian::api::{
    account_not_found_message, find_account, parse_ids, recommend_params, seance_error_status,
    select_account, session_list_limit, RecommendQuery, SessionListQuery,
};
use obsidian::item_map::{
    batch_bounds, bool_to_i64, candidates_for, derive_display_name, first_existing,
    insert_items_sql, strip_tier_prefix, title_case_token,
};
use obsidian::marrow_recommend::{recommend_history_url, recommend_price_url};
use obsidian::marrow_recommend::{best_sell_price, resolve_has_city_bonus, MarrowRecommendError, PriceEntry};
use obsidian::seance::SeanceError;
use obsidian::settings::{AccountProfile, ItemCategory, Settings};
use obsidian::text::{i64_to_decimal, trim, u64_to_decimal};

#[test]
fn display_names() {
    assert_eq!(derive_display_name("T4_2H_BOW@1"), "2h Bow 1");
    assert_eq!(derive_display_name("T8_MAIN_SWORD"), "Main Sword");
    assert_eq!(derive_display_name("UNIQUE_HIDEOUT"), "Unique Hideout");
    assert_eq!(derive_display_name("T_BAG"), "T Bag");
    assert_eq!(derive_display_name("__A__b_"), "A B");
    assert_eq!(derive_display_name(""), "");
}

#[test]
fn tier_prefix() {
    assert_eq!(strip_tier_prefix("T4_BAG"), "BAG");
    assert_eq!(strip_tier_prefix("T12_BAG"), "BAG");
    assert_eq!(strip_tier_prefix("T4BAG"), "T4BAG");
    assert_eq!(strip_tier_prefix("T4"), "T4");
    assert_eq!(strip_tier_prefix("T4_"), "");
    assert_eq!(strip_tier_prefix("BAG"), "BAG");
}

#[test]
fn title_case() {
    assert_eq!(title_case_token("bOW"), "Bow");
    assert_eq!(title_case_token(""), "");
    assert_eq!(title_case_token("éCLAIR"), "éclair");
}

#[test]
fn flags_and_candidates() {
    assert_eq!(bool_to_i64(true), 1);
    assert_eq!(bool_to_i64(false), 0);
    let c = candidates_for("assets/items.json");
    assert_eq!(c, vec!["assets/items.json".to_string(), "../assets/items.json".to_string()]);
    assert_eq!(first_existing(&c, &vec![false, true]), Some("../assets/items.json".to_string()));
    assert_eq!(first_existing(&c, &vec![false, false]), None);
}

#[test]
fn insert_statement() {
    let sql = insert_items_sql(2);
    assert!(sql.starts_with("INSERT OR IGNORE INTO items (uniquename, display_name, item_type,"));
    let group = format!("({})", vec!["?"; 18].join(", "));
    assert!(sql.ends_with(&format!(") VALUES {}, {}", group, group)));
}

#[test]
fn batches() {
    assert_eq!(batch_bounds(0, 500), vec![]);
    assert_eq!(batch_bounds(1200, 500), vec![(0, 500), (500, 1000), (1000, 1200)]);
    assert_eq!(batch_bounds(500, 500), vec![(0, 500)]);
}

#[test]
fn decimal_text() {
    assert_eq!(u64_to_decimal(0), "0");
    assert_eq!(u64_to_decimal(1234567890), "1234567890");
    assert_eq!(i64_to_decimal(-42), "-42");
    assert_eq!(i64_to_decimal(i64::MIN), i64::MIN.to_string());
    assert_eq!(trim("\t x y \n"), "x y");
}

fn account(city: &str, lines: Vec<ItemCategory>) -> AccountProfile {
    AccountProfile {
        name: "A".to_string(),
        city: city.to_string(),
        crafting_lines: lines,
        use_focus: false,
        crafting_fee_pct_bits: 2.5f64.to_bits(),
    }
}

#[test]
fn city_bonus_resolution() {
    assert!(resolve_has_city_bonus("Bow", &account("lymhurst", vec![ItemCategory::Bow])));
    assert!(!resolve_has_city_bonus("Bow", &account("Martlock", vec![ItemCategory::Bow])));
    assert!(!resolve_has_city_bonus("Sword", &account("Lymhurst", vec![ItemCategory::Bow])));
    // a shop category that is no bonus category never gets the bonus
    assert!(!resolve_has_city_bonus("potion", &account("Lymhurst", vec![ItemCategory::Bow])));
    assert!(!resolve_has_city_bonus("materials", &account("Lymhurst", vec![ItemCategory::Sword])));
    assert!(!resolve_has_city_bonus("potion", &account("Lymhurst", vec![])));
}

#[test]
fn sell_price_is_lowest_positive_in_city() {
    let e = |c: Option<&str>, p: Option<i64>| PriceEntry { city: c.map(|s| s.to_string()), sell_price_min: p };
    let entries = vec![
        e(Some("Lymhurst"), Some(500)),
        e(Some("LYMHURST"), Some(300)),
        e(Some("Lymhurst"), Some(0)),
        e(Some("Black Market"), Some(100)),
        e(None, Some(50)),
    ];
    assert_eq!(best_sell_price(&entries, "lymhurst"), 300);
    assert_eq!(best_sell_price(&entries, "Caerleon"), 0);
}

#[test]
fn query_defaults() {
    assert_eq!(session_list_limit(&SessionListQuery { limit: None }), 20);
    assert_eq!(session_list_limit(&SessionListQuery { limit: Some(5) }), 5);
    let q = RecommendQuery { city: "x".to_string(), quality: None, days: None };
    assert_eq!(recommend_params(&q), (1, 14));
    let q = RecommendQuery { city: "x".to_string(), quality: Some(3), days: Some(30) };
    assert_eq!(recommend_params(&q), (3, 30));
}

#[test]
fn item_id_lists() {
    assert_eq!(parse_ids(" T4_BAG, ,T5_BAG ,"), vec!["T4_BAG".to_string(), "T5_BAG".to_string()]);
    assert!(parse_ids("").is_empty());
}

#[test]
fn account_choice() {
    let s = Settings::default();
    assert_eq!(select_account(&s.accounts, "LYMHURST").name, "Hunter");
    assert_eq!(select_account(&s.accounts, "Caerleon").name, "Warrior");
    let fallback = select_account(&vec![], "Caerleon");
    assert_eq!(fallback.name, "Account 1");
    assert_eq!(fallback.city, "Lymhurst");
    assert_eq!(fallback.crafting_lines, vec![ItemCategory::Sword]);
    assert!(!fallback.use_focus);
    assert_eq!(f64::from_bits(fallback.crafting_fee_pct_bits), 3.0);
    assert_eq!(find_account(&s.accounts, "Mage").unwrap().city, "Thetford");
    assert!(find_account(&s.accounts, "mage").is_none());
    assert_eq!(account_not_found_message("Bob"), "Account 'Bob' not found in settings");
}

#[test]
fn seance_statuses() {
    assert_eq!(seance_error_status(SeanceError::SessionNotFound), 404);
    assert_eq!(seance_error_status(SeanceError::NoPlayers), 400);
    assert_eq!(seance_error_status(SeanceError::InsufficientBalance), 400);
}

#[test]
fn recommend_error_messages() {
    assert_eq!(MarrowRecommendError::ItemNotFound("T4_BAG".to_string()).message(), "item not found: T4_BAG");
    assert_eq!(MarrowRecommendError::NoPriceData.message(), "no price data available");
}

#[test]
fn recommendation_urls() {
    assert_eq!(
        recommend_price_url("https://east.albion-online-data.com", "T4_BAG", "Lymhurst", 2),
        "https://east.albion-online-data.com/api/v2/stats/prices/T4_BAG?locations=Lymhurst,Black Market&qualities=2"
    );
    assert_eq!(
        recommend_history_url("https://east.albion-online-data.com", "T4_BAG", "Lymhurst", 1, 14),
        "https://east.albion-online-data.com/api/v2/stats/history/T4_BAG?locations=Lymhurst&qualities=1&time-scale=14"
    );
}

#[test]
fn white_space_is_unicode_white_space() {
    for code in 0u32..=0x10FFFF {
        if let Some(c) = char::from_u32(code) {
            let s = c.to_string();
            assert_eq!(trim(&s).is_empty(), c.is_whitespace(), "U+{:04X}", code);
        }
    }
    assert_eq!(trim("\u{3000} a b\u{85}"), "a b");
}
