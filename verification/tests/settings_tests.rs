use obsidian::settings::{
    bonus_city_for, shopcategory_to_item_category, AccountProfile, AlbionServer, ItemCategory,
    Settings,
};

fn account(city: &str, lines: Vec<ItemCategory>, use_focus: bool) -> AccountProfile {
    AccountProfile {
        name: "Test".to_string(),
        city: city.to_string(),
        crafting_lines: lines,
        use_focus,
        crafting_fee_pct_bits: 3.0f64.to_bits(),
    }
}

#[test]
fn base_urls_per_server() {
    assert_eq!(AlbionServer::Americas.base_url(), "https://west.albion-online-data.com");
    assert_eq!(AlbionServer::Asia.base_url(), "https://east.albion-online-data.com");
    assert_eq!(AlbionServer::Europe.base_url(), "https://europe.albion-online-data.com");
}

#[test]
fn default_server_is_asia() {
    assert_eq!(AlbionServer::default(), AlbionServer::Asia);
}

#[test]
fn bonus_cities() {
    assert_eq!(bonus_city_for(&ItemCategory::Sword), "Lymhurst");
    assert_eq!(bonus_city_for(&ItemCategory::ClothArmor), "Fort Sterling");
    assert_eq!(bonus_city_for(&ItemCategory::FireStaff), "Thetford");
    assert_eq!(bonus_city_for(&ItemCategory::Offhand), "Martlock");
    assert_eq!(bonus_city_for(&ItemCategory::ClothShoes), "Bridgewatch");
}

#[test]
fn shop_categories_ignore_case() {
    assert_eq!(shopcategory_to_item_category("Sword"), Some(ItemCategory::Sword));
    assert_eq!(shopcategory_to_item_category("FIRESTAFF"), Some(ItemCategory::FireStaff));
    assert_eq!(shopcategory_to_item_category("plateshoes"), Some(ItemCategory::PlateShoes));
    assert_eq!(shopcategory_to_item_category("potion"), None);
    assert_eq!(shopcategory_to_item_category(""), None);
}

#[test]
fn city_bonus_needs_city_and_line() {
    let a = account("Lymhurst", vec![ItemCategory::Bow], false);
    assert!(a.has_city_bonus_for(&ItemCategory::Bow));
    assert!(!a.has_city_bonus_for(&ItemCategory::Sword));
    let b = account("Martlock", vec![ItemCategory::Bow], false);
    assert!(!b.has_city_bonus_for(&ItemCategory::Bow));
    let c = account("lymhurst", vec![ItemCategory::Bow], false);
    assert!(!c.has_city_bonus_for(&ItemCategory::Bow));
}

#[test]
fn production_bonus_values() {
    let plain = account("Lymhurst", vec![], false);
    let focus = account("Lymhurst", vec![], true);
    assert_eq!(plain.production_bonus_pct(false), 18);
    assert_eq!(plain.production_bonus_pct(true), 47);
    assert_eq!(focus.production_bonus_pct(false), 77);
    assert_eq!(focus.production_bonus_pct(true), 106);
}

#[test]
fn return_rate_fraction() {
    let a = account("Lymhurst", vec![], false);
    let r = a.rrr(true);
    assert_eq!((r.numerator, r.denominator), (47, 147));
    let f = account("Lymhurst", vec![], true).rrr(true);
    assert_eq!((f.numerator, f.denominator), (106, 206));
}

#[test]
fn materials_to_buy_formula() {
    let a = account("Lymhurst", vec![], false);
    // ceil(10 / 3) = 4 runs, 4 * 8 = 32 raw, ceil(32 * 100 / 118) = 28
    assert_eq!(a.materials_to_buy(10, 3, 8, false), 28);
    // 147 raw with a 47% bonus is exactly 100
    assert_eq!(a.materials_to_buy(147, 1, 1, true), 100);
    assert_eq!(a.materials_to_buy(0, 5, 8, true), 0);
    // negative quantities round up towards zero
    assert_eq!(a.materials_to_buy(-5, 2, 1, false), -1);
}

#[test]
fn default_account_profile() {
    let a = AccountProfile::default();
    assert_eq!(a.name, "Account 1");
    assert_eq!(a.city, "Lymhurst");
    assert_eq!(a.crafting_lines, vec![ItemCategory::Sword]);
    assert!(!a.use_focus);
    assert_eq!(f64::from_bits(a.crafting_fee_pct_bits), 3.0);
}

#[test]
fn default_settings() {
    let s = Settings::default();
    assert_eq!(s.language, "English");
    assert_eq!(s.theme, "Undead Ritual");
    assert_eq!(s.albion_server, AlbionServer::Asia);
    assert_eq!(s.seance_party_size, 10);
    assert_eq!(s.seance_split_type, "equal");
    let names: Vec<&str> = s.accounts.iter().map(|a| a.name.as_str()).collect();
    assert_eq!(names, vec!["Warrior", "Hunter", "Mage"]);
    assert_eq!(s.accounts[0].city, "Martlock");
    assert_eq!(s.accounts[0].crafting_lines, vec![ItemCategory::Axe]);
    assert_eq!(s.accounts[2].crafting_lines, vec![ItemCategory::FireStaff]);
    assert!(s.accounts.iter().all(|a| !a.use_focus && f64::from_bits(a.crafting_fee_pct_bits) == 3.0));
}

#[test]
fn more_bonus_never_buys_more() {
    let plain = account("Lymhurst", vec![], false);
    let focus = account("Lymhurst", vec![], true);
    let needs = [
        plain.materials_to_buy(100, 1, 1, false),
        plain.materials_to_buy(100, 1, 1, true),
        focus.materials_to_buy(100, 1, 1, false),
        focus.materials_to_buy(100, 1, 1, true),
    ];
    // ceil(100 * 100 / 118), ceil(100 * 100 / 147), ceil(100 * 100 / 177), ceil(100 * 100 / 206)
    assert_eq!(needs, [85, 69, 57, 49]);
    assert!(needs.windows(2).all(|w| w[1] <= w[0]));
    assert!(needs.iter().all(|n| *n <= 100 && *n >= 0));
}

#[test]
fn return_rate_below_one() {
    for focus in [false, true] {
        for bonus in [false, true] {
            let r = account("Lymhurst", vec![], focus).rrr(bonus);
            assert!(0 <= r.numerator && r.numerator < r.denominator);
        }
    }
}

#[test]
fn materials_for_degenerate_amounts() {
    let a = account("Lymhurst", vec![], false);
    // ceil(10 / -3) = -3 runs, -6 raw, ceil(-600 / 118) = -5
    assert_eq!(a.materials_to_buy(10, -3, 2, false), -5);
    // no quantity and no amount per run: nothing to buy
    assert_eq!(a.materials_to_buy(0, 0, 7, false), 0);
    // an amount of zero per run saturates the runs; no materials per run stays 0
    assert_eq!(a.materials_to_buy(5, 0, 0, false), 0);
}

#[test]
fn lower_case_category_names() {
    assert_eq!(obsidian::settings::category_of_lowercase("arcanestaff"), Some(ItemCategory::ArcaneStaff));
    assert_eq!(obsidian::settings::category_of_lowercase("clothshoes"), Some(ItemCategory::ClothShoes));
    assert_eq!(obsidian::settings::category_of_lowercase("Sword"), None);
    assert_eq!(obsidian::settings::category_of_lowercase("potion"), None);
}
