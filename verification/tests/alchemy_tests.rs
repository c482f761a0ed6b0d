use obsidian::alchemy::{
    item_meta, plan_session, sort_by_display_name, AlchemyError, CraftResource, ItemMeta,
    ItemRecord, MaterialLine, QueueItem,
};
use obsidian::settings::{AccountProfile, ItemCategory};

fn res(name: &str, count: i64) -> CraftResource {
    CraftResource { uniquename: name.to_string(), count }
}

fn meta(name: &str, shop: &str, amount: i64, resources: Vec<CraftResource>) -> ItemMeta {
    ItemMeta {
        display_name: name.to_string(),
        shopcategory: shop.to_string(),
        craft_amount: amount,
        craft_resources: resources,
    }
}

fn queue(name: &str, q: i64) -> QueueItem {
    QueueItem { uniquename: name.to_string(), quantity_out: q }
}

fn hunter() -> AccountProfile {
    AccountProfile {
        name: "Hunter".to_string(),
        city: "Lymhurst".to_string(),
        crafting_lines: vec![ItemCategory::Bow],
        use_focus: false,
        crafting_fee_pct_bits: 3.0f64.to_bits(),
    }
}

#[test]
fn missing_item_is_refused() {
    match item_meta("T4_BOW", None) {
        Err(AlchemyError::ItemNotFound(n)) => assert_eq!(n, "T4_BOW"),
        other => panic!("unexpected {:?}", other),
    }
}

#[test]
fn uncraftable_item_is_refused() {
    let rec = ItemRecord {
        display_name: None,
        shopcategory: None,
        craftable: Some(0),
        craft_amount: None,
        craft_resources: vec![res("T4_PLANKS", 8)],
    };
    match item_meta("T4_BOW", Some(rec)) {
        Err(AlchemyError::NotCraftable(n)) => assert_eq!(n, "T4_BOW"),
        other => panic!("unexpected {:?}", other),
    }
    let rec = ItemRecord {
        display_name: None,
        shopcategory: None,
        craftable: None,
        craft_amount: None,
        craft_resources: vec![res("T4_PLANKS", 8)],
    };
    assert!(matches!(item_meta("T4_BOW", Some(rec)), Err(AlchemyError::NotCraftable(_))));
}

#[test]
fn item_without_materials_is_refused() {
    let rec = ItemRecord {
        display_name: Some("Bow".to_string()),
        shopcategory: Some("bow".to_string()),
        craftable: Some(1),
        craft_amount: Some(1),
        craft_resources: vec![],
    };
    match item_meta("T4_BOW", Some(rec)) {
        Err(AlchemyError::NoMaterials(n)) => assert_eq!(n, "T4_BOW"),
        other => panic!("unexpected {:?}", other),
    }
}

#[test]
fn item_meta_defaults() {
    let rec = ItemRecord {
        display_name: None,
        shopcategory: None,
        craftable: Some(1),
        craft_amount: Some(0),
        craft_resources: vec![res("T4_PLANKS", 8)],
    };
    let m = item_meta("T4_BOW", Some(rec)).unwrap();
    assert_eq!(m.display_name, "T4_BOW");
    assert_eq!(m.shopcategory, "");
    assert_eq!(m.craft_amount, 1);
    assert_eq!(m.craft_resources.len(), 1);
}

#[test]
fn empty_queue_is_refused() {
    match plan_session(&hunter(), &vec![], &vec![]) {
        Err(AlchemyError::NoMaterials(m)) => assert_eq!(m, "no items in queue"),
        other => panic!("unexpected {:?}", other),
    }
}

#[test]
fn shopping_list_sums_materials_across_items() {
    // the bow gets the Lymhurst bonus (47%), the sword does not (18%)
    let items = vec![queue("T4_BOW", 10), queue("T4_SWORD", 5)];
    let metas = vec![
        meta("Bow", "bow", 1, vec![res("T4_PLANKS", 32)]),
        meta("Sword", "sword", 1, vec![res("T4_METALBAR", 16), res("T4_PLANKS", 8)]),
    ];
    let plan = plan_session(&hunter(), &items, &metas).unwrap();
    assert_eq!(plan.items.len(), 2);
    assert_eq!(plan.items[0].runs_needed, 10);
    assert_eq!(plan.items[0].display_name, "Bow");
    // bow planks: ceil(320 * 100 / 147) = 218; sword planks: ceil(40 * 100 / 118) = 34
    let names: Vec<&str> = plan.materials.iter().map(|m| m.uniquename.as_str()).collect();
    assert_eq!(names, vec!["T4_PLANKS", "T4_METALBAR"]);
    assert_eq!(plan.materials[0].quantity_needed, 218 + 34);
    // sword bars: ceil(80 * 100 / 118) = 68
    assert_eq!(plan.materials[1].quantity_needed, 68);
    // the session rate: with bonus, since the account has crafting lines
    assert_eq!((plan.rrr.numerator, plan.rrr.denominator), (47, 147));
}

#[test]
fn runs_round_up() {
    let items = vec![queue("T5_POTION", 7)];
    let metas = vec![meta("Potion", "potion", 5, vec![res("T5_HERB", 4)])];
    let plan = plan_session(&hunter(), &items, &metas).unwrap();
    assert_eq!(plan.items[0].runs_needed, 2);
    assert_eq!(plan.items[0].craft_amount, 5);
    // 2 runs * 4 = 8 raw, ceil(800 / 118) = 7
    assert_eq!(plan.materials[0].quantity_needed, 7);
}

#[test]
fn overflowing_plan_is_refused() {
    let items = vec![queue("X", i64::MAX)];
    let metas = vec![meta("X", "", 1, vec![res("Y", 3)])];
    assert!(matches!(
        plan_session(&hunter(), &items, &metas),
        Err(AlchemyError::QuantityOverflow)
    ));
}

#[test]
fn materials_sorted_by_display_name() {
    let line = |u: &str, d: &str, q: i64| MaterialLine {
        uniquename: u.to_string(),
        display_name: d.to_string(),
        quantity_needed: q,
    };
    let lines = vec![line("a", "Planks", 1), line("b", "Metal Bar", 2), line("c", "Leather", 3), line("d", "Metal Bar", 4)];
    let sorted = sort_by_display_name(&lines);
    let order: Vec<&str> = sorted.iter().map(|l| l.uniquename.as_str()).collect();
    assert_eq!(order, vec!["c", "b", "d", "a"]);
}

#[test]
fn alchemy_error_messages() {
    assert_eq!(AlchemyError::ItemNotFound("T4_BAG".to_string()).message(), "item not found in database: T4_BAG");
    assert_eq!(AlchemyError::NotCraftable("X".to_string()).message(), "item is not craftable: X");
    assert_eq!(AlchemyError::NoMaterials("Y".to_string()).message(), "no craft materials for item: Y");
    assert_eq!(AlchemyError::AccountNotFound.message(), "account not found");
    assert_eq!(AlchemyError::SessionNotFound.message(), "session not found");
}

#[test]
fn planned_runs_cover_the_order() {
    let metas = vec![meta("T4_BAG", "bag", 3, vec![res("T4_LEATHER", 8)]), meta("T5_BAG", "bag", 4, vec![res("T5_LEATHER", 8)])];
    let items = vec![queue("T4_BAG", 10), queue("T5_BAG", 12)];
    let plan = plan_session(&hunter(), &items, &metas).unwrap();
    for p in &plan.items {
        assert!(p.runs_needed * p.craft_amount >= p.quantity_out);
        assert!((p.runs_needed - 1) * p.craft_amount < p.quantity_out);
    }
    assert_eq!(plan.items[0].runs_needed, 4);
    assert_eq!(plan.items[1].runs_needed, 3);
}
