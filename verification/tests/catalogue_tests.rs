use obsidian::item_map::{parse_craft_resources, parse_items_json, parse_items_text, CatalogueError, ItemRow};
use obsidian::json::{get_bool, get_i64, get_str, JsonNumber, JsonScalar, JsonValue};

fn text(s: &str) -> JsonValue {
    JsonValue::Str(s.to_string())
}

fn num(v: i64) -> JsonValue {
    JsonValue::Number(JsonNumber { as_i64: Some(v), text: v.to_string() })
}

fn obj(members: Vec<(&str, JsonValue)>) -> JsonValue {
    JsonValue::Object(members.into_iter().map(|(k, v)| (k.to_string(), v)).collect())
}

fn members(v: &JsonValue) -> &Vec<(String, JsonValue)> {
    match v {
        JsonValue::Object(o) => o,
        _ => panic!("not an object"),
    }
}

fn catalogue() -> JsonValue {
    let bow = obj(vec![
        ("@uniquename", text("T4_2H_BOW")),
        ("@tier", text("4")),
        ("@shopcategory", text("ranged")),
        ("@shopsubcategory1", text("bow")),
        ("@showinmarketplace", text("true")),
        (
            "craftingrequirements",
            JsonValue::Array(vec![
                obj(vec![
                    ("@silver", text("0")),
                    ("@time", text("1.5")),
                    ("@craftingfocus", num(100)),
                    (
                        "craftresource",
                        JsonValue::Array(vec![
                            obj(vec![("@uniquename", text("T4_PLANKS")), ("@count", num(32))]),
                            obj(vec![("@count", num(3))]),
                            obj(vec![
                                ("@uniquename", text("T4_ARTEFACT")),
                                ("@count", text(" 1 ")),
                                ("@enchantmentlevel", num(2)),
                            ]),
                        ]),
                    ),
                ]),
                obj(vec![("@silver", text("99"))]),
            ]),
        ),
        (
            "enchantments",
            obj(vec![(
                "enchantment",
                JsonValue::Array(vec![
                    obj(vec![
                        ("@enchantmentlevel", num(1)),
                        (
                            "craftingrequirements",
                            obj(vec![
                                ("@amountcrafted", num(2)),
                                (
                                    "craftresource",
                                    obj(vec![("@uniquename", text("T4_PLANKS_LEVEL1")), ("@count", num(32))]),
                                ),
                            ]),
                        ),
                        (
                            "upgraderequirements",
                            obj(vec![(
                                "upgraderesource",
                                obj(vec![("@uniquename", text("T4_RUNE")), ("@count", num(48))]),
                            )]),
                        ),
                    ]),
                    obj(vec![("@enchantmentlevel", text("2"))]),
                    text("not an enchantment"),
                ]),
            )]),
        ),
    ]);
    let bag = obj(vec![("@uniquename", text("T2_BAG")), ("@showinmarketplace", num(0))]);
    let nameless = obj(vec![("@tier", num(3))]);
    obj(vec![(
        "items",
        obj(vec![
            ("@xmlns", text("ignored")),
            ("weapon", JsonValue::Array(vec![bow, nameless])),
            ("equipmentitem", bag),
        ]),
    )])
}

fn row<'a>(rows: &'a [ItemRow], name: &str) -> &'a ItemRow {
    rows.iter().find(|r| r.uniquename == name).expect("row present")
}

fn scalar_text(s: &Option<JsonScalar>) -> Option<String> {
    match s {
        Some(JsonScalar::Text(t)) => Some(t.clone()),
        Some(JsonScalar::Number(n)) => Some(n.text.clone()),
        None => None,
    }
}

#[test]
fn catalogue_rows_in_order() {
    let rows = parse_items_json(&catalogue()).expect("catalogue read");
    let names: Vec<&str> = rows.iter().map(|r| r.uniquename.as_str()).collect();
    assert_eq!(names, vec!["T4_2H_BOW", "T4_2H_BOW@1", "T4_2H_BOW@2", "T2_BAG"]);
}

#[test]
fn catalogue_base_row() {
    let rows = parse_items_json(&catalogue()).unwrap();
    let bow = row(&rows, "T4_2H_BOW");
    assert_eq!(bow.display_name, "2h Bow");
    assert_eq!(bow.item_type, "weapon");
    assert_eq!(bow.tier, 4);
    assert_eq!(bow.enchantment_level, 0);
    assert_eq!(bow.shopcategory.as_deref(), Some("ranged"));
    assert_eq!(bow.shopsubcategory1.as_deref(), Some("bow"));
    assert_eq!(bow.shopsubcategory2, None);
    assert!(bow.show_in_marketplace);
    assert!(bow.craftable);
    assert_eq!(scalar_text(&bow.craft_silver).as_deref(), Some("0"));
    assert_eq!(scalar_text(&bow.craft_time).as_deref(), Some("1.5"));
    assert_eq!(bow.craft_focus, Some(100));
    assert_eq!(bow.craft_amount, 1);
    assert_eq!(bow.craft_resources.len(), 2);
    assert_eq!(bow.craft_resources[0].uniquename, "T4_PLANKS");
    assert_eq!(bow.craft_resources[0].count, 32);
    assert_eq!(bow.craft_resources[0].enchantment_level, 0);
    assert_eq!(bow.craft_resources[1].uniquename, "T4_ARTEFACT");
    assert_eq!(bow.craft_resources[1].count, 1);
    assert_eq!(bow.craft_resources[1].enchantment_level, 2);
    assert_eq!(bow.upgrade_resource, None);
    assert_eq!(bow.upgrade_count, None);
}

#[test]
fn catalogue_enchanted_rows() {
    let rows = parse_items_json(&catalogue()).unwrap();
    let one = row(&rows, "T4_2H_BOW@1");
    assert_eq!(one.display_name, "2h Bow 1");
    assert_eq!(one.enchantment_level, 1);
    assert_eq!(one.tier, 4);
    assert!(one.craftable);
    assert_eq!(one.craft_amount, 2);
    assert!(one.craft_silver.is_none());
    assert_eq!(one.craft_focus, None);
    assert_eq!(one.craft_resources.len(), 1);
    assert_eq!(one.craft_resources[0].uniquename, "T4_PLANKS_LEVEL1");
    assert_eq!(one.upgrade_resource.as_deref(), Some("T4_RUNE"));
    assert_eq!(one.upgrade_count, Some(48));

    // a variant without a recipe keeps the base recipe
    let two = row(&rows, "T4_2H_BOW@2");
    assert_eq!(two.enchantment_level, 2);
    assert_eq!(two.craft_amount, 1);
    assert_eq!(two.craft_focus, Some(100));
    assert_eq!(two.craft_resources.len(), 2);
    assert_eq!(two.upgrade_resource, None);
}

#[test]
fn catalogue_item_without_recipe() {
    let rows = parse_items_json(&catalogue()).unwrap();
    let bag = row(&rows, "T2_BAG");
    assert_eq!(bag.item_type, "equipmentitem");
    assert_eq!(bag.display_name, "Bag");
    assert_eq!(bag.tier, 0);
    assert!(!bag.show_in_marketplace);
    assert!(!bag.craftable);
    assert_eq!(bag.craft_amount, 0);
    assert!(bag.craft_resources.is_empty());
}

#[test]
fn catalogue_without_items_object() {
    let missing = obj(vec![("other", num(1))]);
    assert_eq!(parse_items_json(&missing).err(), Some(CatalogueError::MissingItems));
    let not_object = obj(vec![("items", JsonValue::Array(vec![]))]);
    assert_eq!(parse_items_json(&not_object).err(), Some(CatalogueError::MissingItems));
    assert_eq!(parse_items_json(&num(3)).err(), Some(CatalogueError::MissingItems));
    assert_eq!(CatalogueError::MissingItems.message(), "missing top-level items object");
    let empty = obj(vec![("items", obj(vec![]))]);
    assert!(parse_items_json(&empty).unwrap().is_empty());
}

#[test]
fn lenient_member_readers() {
    let o = obj(vec![
        ("a", text(" 42 ")),
        ("b", text("")),
        ("c", text("x1")),
        ("d", num(-7)),
        ("e", text("YES")),
        ("f", text(" no")),
        ("g", num(2)),
        ("h", JsonValue::Bool(false)),
        ("i", text("maybe")),
        ("a", text("shadowed")),
    ]);
    let m = members(&o);
    assert_eq!(get_i64(m, "a"), Some(42));
    assert_eq!(get_i64(m, "b"), None);
    assert_eq!(get_i64(m, "c"), None);
    assert_eq!(get_i64(m, "d"), Some(-7));
    assert_eq!(get_i64(m, "zz"), None);
    assert_eq!(get_bool(m, "e"), Some(true));
    assert_eq!(get_bool(m, "f"), Some(false));
    assert_eq!(get_bool(m, "g"), Some(true));
    assert_eq!(get_bool(m, "h"), Some(false));
    assert_eq!(get_bool(m, "i"), None);
    assert_eq!(get_str(m, "a"), Some(" 42 "));
    assert_eq!(get_str(m, "d"), None);
}

fn recipe_catalogue(resources: JsonValue) -> JsonValue {
    let item = obj(vec![
        ("@uniquename", text("T3_BAG")),
        ("craftingrequirements", obj(vec![("craftresource", resources)])),
    ]);
    obj(vec![("items", obj(vec![("equipmentitem", item)]))])
}

#[test]
fn single_craft_resource_reads_as_list() {
    let entry = || obj(vec![("@uniquename", text("A")), ("@count", text(" 2 "))]);
    let single = parse_items_json(&recipe_catalogue(entry())).unwrap();
    let listed = parse_items_json(&recipe_catalogue(JsonValue::Array(vec![entry()]))).unwrap();
    let read = |rows: &[ItemRow]| -> Vec<(String, i64, i64)> {
        rows[0].craft_resources.iter().map(|c| (c.uniquename.clone(), c.count, c.enchantment_level)).collect()
    };
    assert_eq!(read(&single), vec![("A".to_string(), 2, 0)]);
    assert_eq!(read(&single), read(&listed));
}

#[test]
fn catalogue_from_text() {
    let text = r#"{"items": {"@xmlns": "x", "weapon": [{"@uniquename": "T4_2H_BOW", "@tier": "4",
        "craftingrequirements": {"@silver": 12.5, "craftresource": {"@uniquename": "T4_PLANKS", "@count": 32}},
        "enchantments": {"enchantment": {"@enchantmentlevel": 1}}}]}}"#;
    let rows = parse_items_text(text).unwrap();
    let names: Vec<&str> = rows.iter().map(|r| r.uniquename.as_str()).collect();
    assert_eq!(names, vec!["T4_2H_BOW", "T4_2H_BOW@1"]);
    assert_eq!(rows[0].display_name, "2h Bow");
    assert_eq!(rows[0].tier, 4);
    assert_eq!(rows[0].craft_resources[0].uniquename, "T4_PLANKS");
    assert_eq!(rows[0].craft_resources[0].count, 32);
    match &rows[0].craft_silver {
        Some(JsonScalar::Number(n)) => assert_eq!(n.text, "12.5"),
        other => panic!("unexpected silver {:?}", other),
    }
    assert_eq!(parse_items_text("{\"items\": 3").err(), Some(CatalogueError::InvalidJson));
    assert_eq!(parse_items_text("[1, 2]").err(), Some(CatalogueError::MissingItems));
    assert_eq!(CatalogueError::InvalidJson.message(), "items file is not valid JSON");
}

#[test]
fn craft_resource_entry_or_list() {
    let entry = || obj(vec![("@uniquename", text("A")), ("@count", text(" 2 "))]);
    let read = |v: Vec<obsidian::item_map::CraftResource>| -> Vec<(String, i64, i64)> {
        v.into_iter().map(|c| (c.uniquename, c.count, c.enchantment_level)).collect()
    };
    let single = read(parse_craft_resources(Some(&entry())));
    let listed = read(parse_craft_resources(Some(&JsonValue::Array(vec![entry()]))));
    assert_eq!(single, vec![("A".to_string(), 2, 0)]);
    assert_eq!(single, listed);
    assert!(parse_craft_resources(None).is_empty());
}
