//! Application settings: servers, crafting accounts and the production bonus
//! formulas of the crafting stations.

use vstd::prelude::*;
use crate::arith::{ceil_div, ceil_div_i128, lemma_ceil_div_is_least};
use crate::text::{str_eq, to_lowercase, unicode_lowercase};

verus! {

broadcast use vstd::string::group_string_axioms;

/// The Albion Online data server a user plays on.
#[derive(Debug, Clone, Copy, PartialEq, Eq, Structural)]
pub enum AlbionServer {
    Americas,
    Asia,
    Europe,
}

/// Base URL of the market data service of each server.
pub open spec fn server_base_url(server: AlbionServer) -> Seq<char> {
    match server {
        AlbionServer::Americas => "https://west.albion-online-data.com"@,
        AlbionServer::Asia => "https://east.albion-online-data.com"@,
        AlbionServer::Europe => "https://europe.albion-online-data.com"@,
    }
}

impl AlbionServer {
    /// Base URL of this server's market data service.
    pub fn base_url(&self) -> (r: &'static str)
        ensures
            r@ == server_base_url(*self),
    {
        match self {
            AlbionServer::Americas => "https://west.albion-online-data.com",
            AlbionServer::Asia => "https://east.albion-online-data.com",
            AlbionServer::Europe => "https://europe.albion-online-data.com",
        }
    }
}

impl Default for AlbionServer {
    fn default() -> (r: Self)
        ensures
            r == AlbionServer::Asia,
    {
        AlbionServer::Asia
    }
}

/// The item categories a royal city gives a crafting bonus for.
#[derive(Debug, Clone, Copy, PartialEq, Eq, Structural)]
pub enum ItemCategory {
    Sword,
    Bow,
    ArcaneStaff,
    LeatherHeadgear,
    LeatherShoes,
    Hammer,
    Spear,
    HolyStaff,
    ClothArmor,
    PlateHeadgear,
    Mace,
    NatureStaff,
    FireStaff,
    LeatherArmor,
    ClothHeadgear,
    Axe,
    Quarterstaff,
    FrostStaff,
    PlateShoes,
    Offhand,
    Crossbow,
    Dagger,
    CursedStaff,
    PlateArmor,
    ClothShoes,
}

/// The city that gives the crafting bonus for a category.
pub open spec fn bonus_city(category: ItemCategory) -> Seq<char> {
    match category {
        ItemCategory::Sword | ItemCategory::Bow | ItemCategory::ArcaneStaff
        | ItemCategory::LeatherHeadgear | ItemCategory::LeatherShoes => "Lymhurst"@,
        ItemCategory::Hammer | ItemCategory::Spear | ItemCategory::HolyStaff
        | ItemCategory::ClothArmor | ItemCategory::PlateHeadgear => "Fort Sterling"@,
        ItemCategory::Mace | ItemCategory::NatureStaff | ItemCategory::FireStaff
        | ItemCategory::LeatherArmor | ItemCategory::ClothHeadgear => "Thetford"@,
        ItemCategory::Axe | ItemCategory::Quarterstaff | ItemCategory::FrostStaff
        | ItemCategory::PlateShoes | ItemCategory::Offhand => "Martlock"@,
        ItemCategory::Crossbow | ItemCategory::Dagger | ItemCategory::CursedStaff
        | ItemCategory::PlateArmor | ItemCategory::ClothShoes => "Bridgewatch"@,
    }
}

/// Returns the city that gives a bonus for a given item category.
pub fn bonus_city_for(category: &ItemCategory) -> (r: &'static str)
    ensures
        r@ == bonus_city(*category),
{
    match category {
        ItemCategory::Sword | ItemCategory::Bow | ItemCategory::ArcaneStaff
        | ItemCategory::LeatherHeadgear | ItemCategory::LeatherShoes => "Lymhurst",
        ItemCategory::Hammer | ItemCategory::Spear | ItemCategory::HolyStaff
        | ItemCategory::ClothArmor | ItemCategory::PlateHeadgear => "Fort Sterling",
        ItemCategory::Mace | ItemCategory::NatureStaff | ItemCategory::FireStaff
        | ItemCategory::LeatherArmor | ItemCategory::ClothHeadgear => "Thetford",
        ItemCategory::Axe | ItemCategory::Quarterstaff | ItemCategory::FrostStaff
        | ItemCategory::PlateShoes | ItemCategory::Offhand => "Martlock",
        ItemCategory::Crossbow | ItemCategory::Dagger | ItemCategory::CursedStaff
        | ItemCategory::PlateArmor | ItemCategory::ClothShoes => "Bridgewatch",
    }
}

/// The category named by a lower-case shop category, as the item database
/// spells it.
pub open spec fn category_of_lowercase_name(name: Seq<char>) -> Option<ItemCategory> {
    if name == "sword"@ {
        Some(ItemCategory::Sword)
    } else if name == "bow"@ {
        Some(ItemCategory::Bow)
    } else if name == "arcanestaff"@ {
        Some(ItemCategory::ArcaneStaff)
    } else if name == "leatherheadgear"@ {
        Some(ItemCategory::LeatherHeadgear)
    } else if name == "leathershoes"@ {
        Some(ItemCategory::LeatherShoes)
    } else if name == "hammer"@ {
        Some(ItemCategory::Hammer)
    } else if name == "spear"@ {
        Some(ItemCategory::Spear)
    } else if name == "holystaff"@ {
        Some(ItemCategory::HolyStaff)
    } else if name == "clotharmor"@ {
        Some(ItemCategory::ClothArmor)
    } else if name == "plateheadgear"@ {
        Some(ItemCategory::PlateHeadgear)
    } else if name == "mace"@ {
        Some(ItemCategory::Mace)
    } else if name == "naturestaff"@ {
        Some(ItemCategory::NatureStaff)
    } else if name == "firestaff"@ {
        Some(ItemCategory::FireStaff)
    } else if name == "leatherarmor"@ {
        Some(ItemCategory::LeatherArmor)
    } else if name == "clothheadgear"@ {
        Some(ItemCategory::ClothHeadgear)
    } else if name == "axe"@ {
        Some(ItemCategory::Axe)
    } else if name == "quarterstaff"@ {
        Some(ItemCategory::Quarterstaff)
    } else if name == "froststaff"@ {
        Some(ItemCategory::FrostStaff)
    } else if name == "plateshoes"@ {
        Some(ItemCategory::PlateShoes)
    } else if name == "offhand"@ {
        Some(ItemCategory::Offhand)
    } else if name == "crossbow"@ {
        Some(ItemCategory::Crossbow)
    } else if name == "dagger"@ {
        Some(ItemCategory::Dagger)
    } else if name == "cursedstaff"@ {
        Some(ItemCategory::CursedStaff)
    } else if name == "platearmor"@ {
        Some(ItemCategory::PlateArmor)
    } else if name == "clothshoes"@ {
        Some(ItemCategory::ClothShoes)
    } else {
        None
    }
}

/// The category of an item database shop category, compared after lower-casing.
pub open spec fn shopcategory_category(shopcategory: Seq<char>) -> Option<ItemCategory> {
    category_of_lowercase_name(unicode_lowercase(shopcategory))
}

/// Maps an item's shop category (any letter case) to the crafting category
/// it belongs to, if it is one the cities give a bonus for.
pub fn shopcategory_to_item_category(shopcategory: &str) -> (r: Option<ItemCategory>)
    ensures
        r == shopcategory_category(shopcategory@),
{
    let lower = to_lowercase(shopcategory);
    category_of_lowercase(lower.as_str())
}

/// The crafting category a lower-case shop category names, if it is one
/// the cities give a bonus for.
pub fn category_of_lowercase(l: &str) -> (r: Option<ItemCategory>)
    ensures
        r == category_of_lowercase_name(l@),
{
    if str_eq(l, "sword") {
        Some(ItemCategory::Sword)
    } else if str_eq(l, "bow") {
        Some(ItemCategory::Bow)
    } else if str_eq(l, "arcanestaff") {
        Some(ItemCategory::ArcaneStaff)
    } else if str_eq(l, "leatherheadgear") {
        Some(ItemCategory::LeatherHeadgear)
    } else if str_eq(l, "leathershoes") {
        Some(ItemCategory::LeatherShoes)
    } else if str_eq(l, "hammer") {
        Some(ItemCategory::Hammer)
    } else if str_eq(l, "spear") {
        Some(ItemCategory::Spear)
    } else if str_eq(l, "holystaff") {
        Some(ItemCategory::HolyStaff)
    } else if str_eq(l, "clotharmor") {
        Some(ItemCategory::ClothArmor)
    } else if str_eq(l, "plateheadgear") {
        Some(ItemCategory::PlateHeadgear)
    } else if str_eq(l, "mace") {
        Some(ItemCategory::Mace)
    } else if str_eq(l, "naturestaff") {
        Some(ItemCategory::NatureStaff)
    } else if str_eq(l, "firestaff") {
        Some(ItemCategory::FireStaff)
    } else if str_eq(l, "leatherarmor") {
        Some(ItemCategory::LeatherArmor)
    } else if str_eq(l, "clothheadgear") {
        Some(ItemCategory::ClothHeadgear)
    } else if str_eq(l, "axe") {
        Some(ItemCategory::Axe)
    } else if str_eq(l, "quarterstaff") {
        Some(ItemCategory::Quarterstaff)
    } else if str_eq(l, "froststaff") {
        Some(ItemCategory::FrostStaff)
    } else if str_eq(l, "plateshoes") {
        Some(ItemCategory::PlateShoes)
    } else if str_eq(l, "offhand") {
        Some(ItemCategory::Offhand)
    } else if str_eq(l, "crossbow") {
        Some(ItemCategory::Crossbow)
    } else if str_eq(l, "dagger") {
        Some(ItemCategory::Dagger)
    } else if str_eq(l, "cursedstaff") {
        Some(ItemCategory::CursedStaff)
    } else if str_eq(l, "platearmor") {
        Some(ItemCategory::PlateArmor)
    } else if str_eq(l, "clothshoes") {
        Some(ItemCategory::ClothShoes)
    } else {
        None
    }
}

} // verus!

verus! {

/// A crafting account.
#[derive(Debug, Clone)]
pub struct AccountProfile {
    /// Display name e.g. "Warrior", "Hunter", "Mage"
    pub name: String,
    /// The city this account crafts in
    pub city: String,
    /// Item categories this account crafts
    pub crafting_lines: Vec<ItemCategory>,
    /// Whether this account uses focus when crafting
    pub use_focus: bool,
    /// Station crafting fee percentage (typically 1.5 to 3.0), kept exactly
    /// as the bits of its IEEE 754 double (`0x4008_0000_0000_0000` is 3.0);
    /// only the service's profit estimate reads it as a number
    pub crafting_fee_pct_bits: u64,
}

/// Production bonus in percent: 18 in any royal city, 29 more for the city's
/// bonus categories, 59 more with focus.
pub open spec fn production_bonus(use_focus: bool, has_city_bonus: bool) -> int {
    18 + (if has_city_bonus { 29int } else { 0int }) + (if use_focus { 59int } else { 0int })
}

/// A resource return rate as an exact fraction `numerator / denominator`.
#[derive(Debug, Clone, Copy, PartialEq, Eq, Structural)]
pub struct ReturnRate {
    pub numerator: i64,
    pub denominator: i64,
}

/// Materials to buy for `raw_needed` materials once the returned share is
/// subtracted: the ceiling of `raw_needed * (1 - RRR)`, with
/// `1 - RRR = 100 / (100 + bonus)`.
pub open spec fn after_returns(raw_needed: int, bonus: int) -> int {
    ceil_div(raw_needed * 100, 100 + bonus)
}

/// Crafting runs for `quantity_out` items at `craft_amount` per run: the
/// ceiling of the quotient. A zero amount per run saturates: the largest
/// `i64` for a positive quantity, the smallest for a negative one, 0 for none.
pub open spec fn runs_needed(quantity_out: int, craft_amount: int) -> int {
    if craft_amount > 0 {
        ceil_div(quantity_out, craft_amount)
    } else if craft_amount < 0 {
        ceil_div(-quantity_out, -craft_amount)
    } else if quantity_out > 0 {
        i64::MAX as int
    } else if quantity_out < 0 {
        i64::MIN as int
    } else {
        0
    }
}

/// Materials to buy for `quantity_out` items of a recipe yielding
/// `craft_amount` per run and using `materials_per_run`.
pub open spec fn materials_needed(
    quantity_out: int,
    craft_amount: int,
    materials_per_run: int,
    bonus: int,
) -> int {
    after_returns(runs_needed(quantity_out, craft_amount) * materials_per_run, bonus)
}

impl AccountProfile {
    /// Whether this account gets the city bonus for the given item category:
    /// it crafts that category, in the city that gives the bonus for it.
    pub fn has_city_bonus_for(&self, category: &ItemCategory) -> (r: bool)
        ensures
            r == (bonus_city(*category) == self.city@ && self.crafting_lines@.contains(*category)),
    {
        if !str_eq(bonus_city_for(category), self.city.as_str()) {
            return false;
        }
        let mut i: usize = 0;
        while i < self.crafting_lines.len()
            invariant
                i <= self.crafting_lines.len(),
                bonus_city(*category) == self.city@,
                forall|k: int| 0 <= k < i ==> self.crafting_lines@[k] != *category,
            decreases self.crafting_lines.len() - i,
        {
            if self.crafting_lines[i] == *category {
                assert(self.crafting_lines@[i as int] == *category);
                return true;
            }
            i += 1;
        }
        false
    }

    /// Production bonus as a percentage.
    /// Base: 18% always in royal city.
    /// City bonus item: +29% (total 47%).
    /// Focus: adds 59%, reaching 77% without and 106% with the city bonus.
    pub fn production_bonus_pct(&self, has_city_bonus: bool) -> (r: i64)
        ensures
            r == production_bonus(self.use_focus, has_city_bonus),
    {
        let base: i64 = 18;
        let city_bonus: i64 = if has_city_bonus { 29 } else { 0 };
        let focus_bonus: i64 = if self.use_focus { 59 } else { 0 };
        base + city_bonus + focus_bonus
    }

    /// Resource return rate: `1 - 1 / (1 + bonus / 100)`, that is
    /// `bonus / (100 + bonus)`.
    pub fn rrr(&self, has_city_bonus: bool) -> (r: ReturnRate)
        ensures
            r.numerator == production_bonus(self.use_focus, has_city_bonus),
            r.denominator == 100 + production_bonus(self.use_focus, has_city_bonus),
            0 <= r.numerator < r.denominator,
    {
        let pb = self.production_bonus_pct(has_city_bonus);
        ReturnRate { numerator: pb, denominator: 100 + pb }
    }

    /// Materials to buy for a desired output quantity:
    /// `ceil(ceil(quantity_out / craft_amount) * materials_per_run * (1 - RRR))`.
    pub fn materials_to_buy(
        &self,
        quantity_out: i64,
        craft_amount: i64,
        materials_per_run: i64,
        has_city_bonus: bool,
    ) -> (r: i64)
        requires
            i64::MIN <= runs_needed(quantity_out as int, craft_amount as int) * materials_per_run
                <= i64::MAX,
        ensures
            r == materials_needed(
                quantity_out as int,
                craft_amount as int,
                materials_per_run as int,
                production_bonus(self.use_focus, has_city_bonus),
            ),
    {
        let runs: i128 = if craft_amount > 0 {
            ceil_div_i128(quantity_out as i128, craft_amount as i128)
        } else if craft_amount < 0 {
            ceil_div_i128(-(quantity_out as i128), -(craft_amount as i128))
        } else if quantity_out > 0 {
            i64::MAX as i128
        } else if quantity_out < 0 {
            i64::MIN as i128
        } else {
            0
        };
        proof {
            lemma_runs_bound(quantity_out as int, craft_amount as int);
            let m = materials_per_run as int;
            let n = runs as int;
            assert(-0x8000_0000_0000_0000 * 0x8000_0000_0000_0000 <= n * m <= 0x8000_0000_0000_0000
                * 0x8000_0000_0000_0000) by (nonlinear_arith)
                requires
                    -0x8000_0000_0000_0000 <= n <= 0x8000_0000_0000_0000,
                    -0x8000_0000_0000_0000 <= m <= 0x8000_0000_0000_0000,
            ;
        }
        let raw: i128 = runs * (materials_per_run as i128);
        let pb = self.production_bonus_pct(has_city_bonus);
        apply_returns(raw, pb)
    }
}

/// Crafting runs stay within `[-2^63, 2^63]`.
proof fn lemma_runs_bound(q: int, a: int)
    requires
        i64::MIN <= q <= i64::MAX,
        i64::MIN <= a <= i64::MAX,
    ensures
        -0x8000_0000_0000_0000 <= runs_needed(q, a) <= 0x8000_0000_0000_0000,
{
    if a != 0 {
        let (p, d) = if a > 0 { (q, a) } else { (-q, -a) };
        lemma_ceil_div_is_least(p, d);
        let r = ceil_div(p, d);
        assert(-0x8000_0000_0000_0000 <= r <= 0x8000_0000_0000_0000) by (nonlinear_arith)
            requires
                r * d >= p,
                (r - 1) * d < p,
                d >= 1,
                -0x8000_0000_0000_0000 <= p <= 0x8000_0000_0000_0000,
        ;
    }
}

/// Ceiling of `raw * 100 / (100 + bonus)`; its magnitude never exceeds `raw`.
pub(crate) fn apply_returns(raw: i128, bonus: i64) -> (r: i64)
    requires
        i64::MIN <= raw <= i64::MAX,
        0 <= bonus <= 106,
    ensures
        r == after_returns(raw as int, bonus as int),
{
    let d: i128 = 100 + bonus as i128;
    let r = ceil_div_i128(raw * 100, d);
    proof {
        lemma_ceil_div_is_least(raw * 100, d as int);
        lemma_after_returns_bounds(raw as int, bonus as int);
    }
    r as i64
}

/// Returned materials never make a purchase larger than what the recipe
/// uses, nor change its sign: for a non-negative need, `0 <= to_buy <= need`.
pub proof fn lemma_after_returns_bounds(raw: int, bonus: int)
    requires
        0 <= bonus,
    ensures
        raw >= 0 ==> 0 <= after_returns(raw, bonus) <= raw,
        raw < 0 ==> raw <= after_returns(raw, bonus) <= 0,
{
    let d = 100 + bonus;
    let r = after_returns(raw, bonus);
    lemma_ceil_div_is_least(raw * 100, d);
    assert(r * d >= raw * 100);
    assert((r - 1) * d < raw * 100);
    if raw >= 0 {
        assert(r >= 0) by (nonlinear_arith)
            requires
                r * d >= raw * 100,
                (r - 1) * d < raw * 100,
                raw >= 0,
                d >= 100,
        ;
        assert(r <= raw) by (nonlinear_arith)
            requires
                (r - 1) * d < raw * 100,
                raw >= 0,
                d >= 100,
        ;
    } else {
        assert(r <= 0) by (nonlinear_arith)
            requires
                (r - 1) * d < raw * 100,
                raw < 0,
                d >= 100,
        ;
        assert(r >= raw) by (nonlinear_arith)
            requires
                r * d >= raw * 100,
                raw < 0,
                d >= 100,
        ;
    }
}

/// A larger production bonus never makes a purchase larger: for a
/// non-negative need, the materials to buy with `more` bonus are at most
/// those with `less`.
pub proof fn lemma_more_bonus_buys_less(raw: int, less: int, more: int)
    requires
        raw >= 0,
        0 <= less <= more,
    ensures
        after_returns(raw, more) <= after_returns(raw, less),
{
    let a = after_returns(raw, less);
    let b = after_returns(raw, more);
    lemma_ceil_div_is_least(raw * 100, 100 + less);
    lemma_ceil_div_is_least(raw * 100, 100 + more);
    lemma_after_returns_bounds(raw, less);
    assert(a * (100 + more) >= raw * 100) by (nonlinear_arith)
        requires
            a * (100 + less) >= raw * 100,
            a >= 0,
            less <= more,
    ;
    assert(b <= a) by (nonlinear_arith)
        requires
            (b - 1) * (100 + more) < raw * 100,
            a * (100 + more) >= raw * 100,
            more >= 0,
    ;
}

} // verus!

verus! {

impl Default for AccountProfile {
    fn default() -> (r: Self)
        ensures
            r.name@ == "Account 1"@,
            r.city@ == "Lymhurst"@,
            r.crafting_lines@ == seq![ItemCategory::Sword],
            !r.use_focus,
            r.crafting_fee_pct_bits == 0x4008_0000_0000_0000,
    {
        AccountProfile {
            name: "Account 1".to_string(),
            city: "Lymhurst".to_string(),
            crafting_lines: vec![ItemCategory::Sword],
            use_focus: false,
            crafting_fee_pct_bits: 0x4008_0000_0000_0000,
        }
    }
}

/// User settings.
#[derive(Debug, Clone)]
pub struct Settings {
    pub language: String,
    pub theme: String,
    pub albion_server: AlbionServer,
    pub seance_party_size: i64,
    pub seance_split_type: String,
    /// Up to 3 account profiles
    pub accounts: Vec<AccountProfile>,
}

/// An account as the default settings lay it out: no focus, a 3% fee.
pub open spec fn is_default_account(
    a: AccountProfile,
    name: Seq<char>,
    city: Seq<char>,
    line: ItemCategory,
) -> bool {
    &&& a.name@ == name
    &&& a.city@ == city
    &&& a.crafting_lines@ == seq![line]
    &&& !a.use_focus
    &&& a.crafting_fee_pct_bits == 0x4008_0000_0000_0000
}

fn default_account(name: &str, city: &str, line: ItemCategory) -> (r: AccountProfile)
    ensures
        is_default_account(r, name@, city@, line),
{
    let lines = vec![line];
    assert(lines@ =~= seq![line]);
    AccountProfile {
        name: name.to_string(),
        city: city.to_string(),
        crafting_lines: lines,
        use_focus: false,
        crafting_fee_pct_bits: 0x4008_0000_0000_0000,
    }
}

impl Default for Settings {
    fn default() -> (r: Self)
        ensures
            r.language@ == "English"@,
            r.theme@ == "Undead Ritual"@,
            r.albion_server == AlbionServer::Asia,
            r.seance_party_size == 10,
            r.seance_split_type@ == "equal"@,
            r.accounts.len() == 3,
            is_default_account(r.accounts[0], "Warrior"@, "Martlock"@, ItemCategory::Axe),
            is_default_account(r.accounts[1], "Hunter"@, "Lymhurst"@, ItemCategory::Bow),
            is_default_account(r.accounts[2], "Mage"@, "Thetford"@, ItemCategory::FireStaff),
    {
        Settings {
            language: "English".to_string(),
            theme: "Undead Ritual".to_string(),
            albion_server: AlbionServer::default(),
            seance_party_size: 10,
            seance_split_type: "equal".to_string(),
            accounts: vec![
                default_account("Warrior", "Martlock", ItemCategory::Axe),
                default_account("Hunter", "Lymhurst", ItemCategory::Bow),
                default_account("Mage", "Thetford", ItemCategory::FireStaff),
            ],
        }
    }
}

} // verus!

verus! {

/// The game's bonus table: each royal city gives its crafting bonus to
/// exactly five item categories, and every category has one of the five
/// royal crafting cities as its bonus city.
pub proof fn lemma_bonus_city_table()
    ensures
        Set::new(|c: ItemCategory| bonus_city(c) == "Lymhurst"@) == set![
            ItemCategory::Sword,
            ItemCategory::Bow,
            ItemCategory::ArcaneStaff,
            ItemCategory::LeatherHeadgear,
            ItemCategory::LeatherShoes,
        ],
        Set::new(|c: ItemCategory| bonus_city(c) == "Fort Sterling"@) == set![
            ItemCategory::Hammer,
            ItemCategory::Spear,
            ItemCategory::HolyStaff,
            ItemCategory::ClothArmor,
            ItemCategory::PlateHeadgear,
        ],
        Set::new(|c: ItemCategory| bonus_city(c) == "Thetford"@) == set![
            ItemCategory::Mace,
            ItemCategory::NatureStaff,
            ItemCategory::FireStaff,
            ItemCategory::LeatherArmor,
            ItemCategory::ClothHeadgear,
        ],
        Set::new(|c: ItemCategory| bonus_city(c) == "Martlock"@) == set![
            ItemCategory::Axe,
            ItemCategory::Quarterstaff,
            ItemCategory::FrostStaff,
            ItemCategory::PlateShoes,
            ItemCategory::Offhand,
        ],
        Set::new(|c: ItemCategory| bonus_city(c) == "Bridgewatch"@) == set![
            ItemCategory::Crossbow,
            ItemCategory::Dagger,
            ItemCategory::CursedStaff,
            ItemCategory::PlateArmor,
            ItemCategory::ClothShoes,
        ],
        forall|c: ItemCategory|
            #![auto]
            bonus_city(c) == "Lymhurst"@ || bonus_city(c) == "Fort Sterling"@ || bonus_city(c)
                == "Thetford"@ || bonus_city(c) == "Martlock"@ || bonus_city(c) == "Bridgewatch"@,
{
    reveal_strlit("Lymhurst");
    reveal_strlit("Fort Sterling");
    reveal_strlit("Thetford");
    reveal_strlit("Martlock");
    reveal_strlit("Bridgewatch");
    // the five city names already differ in their first letter
    assert("Lymhurst"@[0] == 'L' && "Fort Sterling"@[0] == 'F' && "Thetford"@[0] == 'T'
        && "Martlock"@[0] == 'M' && "Bridgewatch"@[0] == 'B');
    assert(Set::new(|c: ItemCategory| bonus_city(c) == "Lymhurst"@) =~= set![
        ItemCategory::Sword,
        ItemCategory::Bow,
        ItemCategory::ArcaneStaff,
        ItemCategory::LeatherHeadgear,
        ItemCategory::LeatherShoes,
    ]);
    assert(Set::new(|c: ItemCategory| bonus_city(c) == "Fort Sterling"@) =~= set![
        ItemCategory::Hammer,
        ItemCategory::Spear,
        ItemCategory::HolyStaff,
        ItemCategory::ClothArmor,
        ItemCategory::PlateHeadgear,
    ]);
    assert(Set::new(|c: ItemCategory| bonus_city(c) == "Thetford"@) =~= set![
        ItemCategory::Mace,
        ItemCategory::NatureStaff,
        ItemCategory::FireStaff,
        ItemCategory::LeatherArmor,
        ItemCategory::ClothHeadgear,
    ]);
    assert(Set::new(|c: ItemCategory| bonus_city(c) == "Martlock"@) =~= set![
        ItemCategory::Axe,
        ItemCategory::Quarterstaff,
        ItemCategory::FrostStaff,
        ItemCategory::PlateShoes,
        ItemCategory::Offhand,
    ]);
    assert(Set::new(|c: ItemCategory| bonus_city(c) == "Bridgewatch"@) =~= set![
        ItemCategory::Crossbow,
        ItemCategory::Dagger,
        ItemCategory::CursedStaff,
        ItemCategory::PlateArmor,
        ItemCategory::ClothShoes,
    ]);
}

} // verus!
