//! Alchemy: planning a crafting session. From the items to craft and their
//! recipes, the plan gives each item's number of crafting runs and one
//! shopping list in which the materials of all items are summed.

use vstd::prelude::*;
use crate::arith::{ceil_div, ceil_div_i128};
use crate::text::{lex_le, lex_lt, str_lt};
use crate::settings::{
    after_returns, bonus_city, production_bonus, shopcategory_category,
    shopcategory_to_item_category, AccountProfile, ReturnRate,
};

verus! {

broadcast use vstd::string::group_string_axioms;

/// Why a crafting plan could not be made.
#[derive(Debug, Clone)]
pub enum AlchemyError {
    AccountNotFound,
    ItemNotFound(String),
    NotCraftable(String),
    NoMaterials(String),
    SessionNotFound,
    /// A material quantity does not fit in 64 bits.
    QuantityOverflow,
}

fn prefixed(prefix: &str, name: &String) -> (r: String)
    ensures
        r@ == prefix@ + name@,
{
    let mut m = prefix.to_string();
    m.append(name.as_str());
    m
}

impl AlchemyError {
    /// The message shown for the error.
    pub fn message(&self) -> (r: String)
        ensures
            r@ == match *self {
                AlchemyError::AccountNotFound => "account not found"@,
                AlchemyError::ItemNotFound(n) => "item not found in database: "@ + n@,
                AlchemyError::NotCraftable(n) => "item is not craftable: "@ + n@,
                AlchemyError::NoMaterials(n) => "no craft materials for item: "@ + n@,
                AlchemyError::SessionNotFound => "session not found"@,
                AlchemyError::QuantityOverflow => "material quantity out of range"@,
            },
    {
        match self {
            AlchemyError::AccountNotFound => "account not found".to_string(),
            AlchemyError::ItemNotFound(n) => prefixed("item not found in database: ", n),
            AlchemyError::NotCraftable(n) => prefixed("item is not craftable: ", n),
            AlchemyError::NoMaterials(n) => prefixed("no craft materials for item: ", n),
            AlchemyError::SessionNotFound => "session not found".to_string(),
            AlchemyError::QuantityOverflow => "material quantity out of range".to_string(),
        }
    }
}

/// One item the user wants to craft.
#[derive(Debug, Clone)]
pub struct QueueItem {
    pub uniquename: String,
    pub quantity_out: i64,
}

/// Request to plan a full craft session.
#[derive(Debug, Clone)]
pub struct PlanRequest {
    /// Account name (must match a profile in settings)
    pub account_name: String,
    /// Items to craft
    pub items: Vec<QueueItem>,
}

/// One item in the planned session.
#[derive(Debug, Clone)]
pub struct PlannedItem {
    pub uniquename: String,
    pub display_name: String,
    pub quantity_out: i64,
    pub craft_amount: i64,
    pub runs_needed: i64,
}

/// Request to set a price for one material in a session.
#[derive(Debug, Clone)]
pub struct SetPriceRequest {
    pub uniquename: String,
    pub unit_price: i64,
}

/// One material of a recipe and how many a run uses.
#[derive(Debug, Clone)]
pub struct CraftResource {
    pub uniquename: String,
    pub count: i64,
}

/// What the item database holds of an item, as stored.
#[derive(Debug, Clone)]
pub struct ItemRecord {
    pub display_name: Option<String>,
    pub shopcategory: Option<String>,
    pub craftable: Option<i64>,
    pub craft_amount: Option<i64>,
    /// The recipe's materials (empty when the stored recipe is missing or unreadable)
    pub craft_resources: Vec<CraftResource>,
}

/// A craftable item with its recipe.
#[derive(Debug, Clone)]
pub struct ItemMeta {
    pub display_name: String,
    pub shopcategory: String,
    pub craft_amount: i64,
    pub craft_resources: Vec<CraftResource>,
}

/// A material of the shopping list and the quantity to buy.
#[derive(Debug, Clone)]
pub struct MaterialTotal {
    pub uniquename: String,
    pub quantity_needed: i64,
}

/// A planned session before it is stored.
#[derive(Debug, Clone)]
pub struct SessionPlan {
    pub items: Vec<PlannedItem>,
    /// Materials in the order in which the plan first meets them
    pub materials: Vec<MaterialTotal>,
    /// The return rate recorded for the session
    pub rrr: ReturnRate,
}

/// Reads a stored item as a craftable item with a recipe: a missing item,
/// one not marked craftable, and one without recipe materials are refused.
/// The crafted amount is at least one; the display name defaults to the
/// item's unique name and the shop category to the empty string.
pub fn item_meta(uniquename: &str, record: Option<ItemRecord>) -> (r: Result<ItemMeta, AlchemyError>)
    ensures
        record is None ==> (r matches Err(AlchemyError::ItemNotFound(n)) && n@ == uniquename@),
        record matches Some(rec) ==> {
            let craftable = match rec.craftable { Some(c) => c, None => 0 };
            let amount = match rec.craft_amount { Some(a) => a, None => 1 };
            if craftable == 0 {
                r matches Err(AlchemyError::NotCraftable(n)) && n@ == uniquename@
            } else if rec.craft_resources.len() == 0 {
                r matches Err(AlchemyError::NoMaterials(n)) && n@ == uniquename@
            } else {
                r matches Ok(meta) && {
                    &&& meta.craft_amount == (if amount < 1 { 1 } else { amount })
                    &&& meta.craft_resources@ == rec.craft_resources@
                    &&& meta.display_name@ == (match rec.display_name {
                        Some(d) => d@,
                        None => uniquename@,
                    })
                    &&& meta.shopcategory@ == (match rec.shopcategory {
                        Some(s) => s@,
                        None => Seq::<char>::empty(),
                    })
                }
            }
        },
{
    let rec = match record {
        Some(rec) => rec,
        None => return Err(AlchemyError::ItemNotFound(uniquename.to_string())),
    };
    let craftable = match rec.craftable {
        Some(c) => c,
        None => 0,
    };
    if craftable == 0 {
        return Err(AlchemyError::NotCraftable(uniquename.to_string()));
    }
    let amount = match rec.craft_amount {
        Some(a) => a,
        None => 1,
    };
    let craft_amount = if amount < 1 { 1 } else { amount };
    if rec.craft_resources.len() == 0 {
        return Err(AlchemyError::NoMaterials(uniquename.to_string()));
    }
    let display_name = match rec.display_name {
        Some(d) => d,
        None => uniquename.to_string(),
    };
    let shopcategory = match rec.shopcategory {
        Some(s) => s,
        None => String::new(),
    };
    Ok(ItemMeta { display_name, shopcategory, craft_amount, craft_resources: rec.craft_resources })
}

} // verus!

verus! {

/// Whether the account gets its city's crafting bonus for an item: the
/// item's shop category is a bonus category of the account's city that the
/// account crafts.
pub open spec fn item_has_city_bonus(account: AccountProfile, meta: ItemMeta) -> bool {
    match shopcategory_category(meta.shopcategory@) {
        Some(c) => bonus_city(c) == account.city@ && account.crafting_lines@.contains(c),
        None => false,
    }
}

/// Crafting runs needed for an item: `ceil(quantity_out / craft_amount)`.
pub open spec fn runs_for(item: QueueItem, meta: ItemMeta) -> int {
    ceil_div(item.quantity_out as int, meta.craft_amount as int)
}

/// One recipe material's share of an item: the material's name, the raw
/// quantity the runs use, and the quantity to buy once returns are counted.
pub open spec fn contribution(
    account: AccountProfile,
    item: QueueItem,
    meta: ItemMeta,
    res: CraftResource,
) -> (Seq<char>, int, int) {
    let raw = runs_for(item, meta) * res.count;
    (
        res.uniquename@,
        raw,
        after_returns(raw, production_bonus(account.use_focus, item_has_city_bonus(account, meta))),
    )
}

/// The material shares of one item, in recipe order.
pub open spec fn item_contributions(account: AccountProfile, item: QueueItem, meta: ItemMeta) -> Seq<
    (Seq<char>, int, int),
> {
    meta.craft_resources@.map_values(|res: CraftResource| contribution(account, item, meta, res))
}

/// The material shares of all items, items in queue order.
pub open spec fn plan_contributions(
    account: AccountProfile,
    items: Seq<QueueItem>,
    metas: Seq<ItemMeta>,
) -> Seq<(Seq<char>, int, int)>
    decreases items.len(),
{
    if items.len() == 0 || metas.len() < items.len() {
        Seq::empty()
    } else {
        plan_contributions(account, items.drop_last(), metas.take(items.len() - 1))
            + item_contributions(account, items.last(), metas[items.len() - 1])
    }
}

/// Position of the first entry named `name`, or -1 when there is none.
pub open spec fn name_index(totals: Seq<(Seq<char>, int)>, name: Seq<char>) -> int {
    if exists|i: int|
        0 <= i < totals.len() && totals[i].0 == name && (forall|k: int|
            0 <= k < i ==> totals[k].0 != name) {
        choose|i: int|
            0 <= i < totals.len() && totals[i].0 == name && (forall|k: int|
                0 <= k < i ==> totals[k].0 != name)
    } else {
        -1
    }
}

/// Adds a quantity of a material to a shopping list: to the material's entry
/// when it has one, else as a new last entry.
pub open spec fn add_to_totals(totals: Seq<(Seq<char>, int)>, name: Seq<char>, amount: int) -> Seq<
    (Seq<char>, int),
> {
    let i = name_index(totals, name);
    if i >= 0 {
        totals.update(i, (name, totals[i].1 + amount))
    } else {
        totals.push((name, amount))
    }
}

/// The shopping list of a sequence of material shares: per material, in order
/// of first appearance, the sum of its quantities to buy.
pub open spec fn material_totals(cs: Seq<(Seq<char>, int, int)>) -> Seq<(Seq<char>, int)>
    decreases cs.len(),
{
    if cs.len() == 0 {
        Seq::empty()
    } else {
        add_to_totals(material_totals(cs.drop_last()), cs.last().0, cs.last().2)
    }
}

/// The quantity a shopping list holds for a material (0 when absent).
pub open spec fn total_for(totals: Seq<(Seq<char>, int)>, name: Seq<char>) -> int {
    let i = name_index(totals, name);
    if i >= 0 {
        totals[i].1
    } else {
        0
    }
}

/// Whether a value fits in `i64`.
pub open spec fn fits_i64(x: int) -> bool {
    i64::MIN <= x <= i64::MAX
}

/// Every raw quantity, and every running total of the shopping list, fits in
/// `i64` (the plan's arithmetic does not overflow).
pub open spec fn plan_fits(cs: Seq<(Seq<char>, int, int)>) -> bool {
    forall|k: int|
        0 <= k < cs.len() ==> fits_i64(#[trigger] cs[k].1) && fits_i64(
            total_for(material_totals(cs.take(k + 1)), cs[k].0),
        )
}

/// Shopping list entries as names and quantities.
pub open spec fn totals_view(v: Seq<MaterialTotal>) -> Seq<(Seq<char>, int)> {
    v.map_values(|m: MaterialTotal| (m.uniquename@, m.quantity_needed as int))
}

/// A planned item as the plan builds it from a queue item and its recipe.
pub open spec fn planned_from(p: PlannedItem, item: QueueItem, meta: ItemMeta) -> bool {
    &&& p.uniquename@ == item.uniquename@
    &&& p.display_name@ == meta.display_name@
    &&& p.quantity_out == item.quantity_out
    &&& p.craft_amount == meta.craft_amount
    &&& p.runs_needed == runs_for(item, meta)
}

} // verus!

verus! {

proof fn lemma_name_index_first(totals: Seq<(Seq<char>, int)>, name: Seq<char>, j: int)
    requires
        0 <= j < totals.len(),
        totals[j].0 == name,
        forall|k: int| 0 <= k < j ==> totals[k].0 != name,
    ensures
        name_index(totals, name) == j,
{
    let i = name_index(totals, name);
    assert(0 <= i < totals.len() && totals[i].0 == name && (forall|k: int|
        0 <= k < i ==> totals[k].0 != name));
    if i < j {
        assert(totals[i].0 != name);
    }
    if j < i {
        assert(totals[j].0 != name);
    }
}

proof fn lemma_name_index_absent(totals: Seq<(Seq<char>, int)>, name: Seq<char>)
    requires
        forall|k: int| 0 <= k < totals.len() ==> totals[k].0 != name,
    ensures
        name_index(totals, name) == -1,
{
}

fn find_material(totals: &Vec<MaterialTotal>, name: &String) -> (r: Option<usize>)
    ensures
        r matches Some(i) ==> i < totals.len() && totals@[i as int].uniquename@ == name@
            && name_index(totals_view(totals@), name@) == i,
        r is None ==> forall|k: int|
            0 <= k < totals.len() ==> totals_view(totals@)[k].0 != name@,
        r is None ==> name_index(totals_view(totals@), name@) == -1,
{
    let ghost tv = totals_view(totals@);
    let mut i: usize = 0;
    while i < totals.len()
        invariant
            i <= totals.len(),
            tv == totals_view(totals@),
            forall|k: int| 0 <= k < i ==> tv[k].0 != name@,
        decreases totals.len() - i,
    {
        if totals[i].uniquename == *name {
            proof {
                lemma_name_index_first(tv, name@, i as int);
            }
            return Some(i);
        }
        i += 1;
    }
    proof {
        lemma_name_index_absent(tv, name@);
    }
    None
}

proof fn lemma_contributions_step(
    account: AccountProfile,
    items: Seq<QueueItem>,
    metas: Seq<ItemMeta>,
    i: int,
)
    requires
        0 <= i < items.len(),
        items.len() == metas.len(),
    ensures
        plan_contributions(account, items.take(i + 1), metas.take(i + 1)) == plan_contributions(
            account,
            items.take(i),
            metas.take(i),
        ) + item_contributions(account, items[i], metas[i]),
{
    assert(items.take(i + 1).drop_last() =~= items.take(i));
    assert(metas.take(i + 1).take(i) =~= metas.take(i));
}

proof fn lemma_contributions_prefix(
    account: AccountProfile,
    items: Seq<QueueItem>,
    metas: Seq<ItemMeta>,
    i: int,
)
    requires
        0 <= i <= items.len(),
        items.len() == metas.len(),
    ensures
        ({
            let p = plan_contributions(account, items.take(i), metas.take(i));
            let all = plan_contributions(account, items, metas);
            p.len() <= all.len() && all.take(p.len() as int) == p
        }),
    decreases items.len(),
{
    let all = plan_contributions(account, items, metas);
    if i == items.len() {
        assert(items.take(i) =~= items);
        assert(metas.take(i) =~= metas);
        assert(all.take(all.len() as int) =~= all);
    } else {
        let n = items.len();
        let items2 = items.drop_last();
        let metas2 = metas.take(n - 1);
        lemma_contributions_prefix(account, items2, metas2, i);
        assert(items2.take(i) =~= items.take(i));
        assert(metas2.take(i) =~= metas.take(i));
        let p = plan_contributions(account, items.take(i), metas.take(i));
        let all2 = plan_contributions(account, items2, metas2);
        assert(all == all2 + item_contributions(account, items.last(), metas[n - 1]));
        assert(all.take(p.len() as int) =~= all2.take(p.len() as int));
    }
}

/// Adds a quantity of a material to the shopping list, unless the material's
/// new total would not fit in `i64` (then the list is left as it was).
fn add_material(totals: &mut Vec<MaterialTotal>, name: &String, amount: i64) -> (ok: bool)
    ensures
        ok == fits_i64(total_for(add_to_totals(totals_view(old(totals)@), name@, amount as int), name@)),
        ok ==> totals_view(final(totals)@) == add_to_totals(totals_view(old(totals)@), name@, amount as int),
        !ok ==> final(totals)@ == old(totals)@,
{
    let ghost tv = totals_view(totals@);
    match find_material(totals, name) {
        Some(idx) => {
            let current = totals[idx].quantity_needed;
            let sum: i128 = current as i128 + amount as i128;
            proof {
                let nt = add_to_totals(tv, name@, amount as int);
                assert(nt == tv.update(idx as int, (name@, tv[idx as int].1 + amount)));
                lemma_name_index_first(nt, name@, idx as int);
                assert(total_for(nt, name@) == sum);
            }
            if sum < i64::MIN as i128 || sum > i64::MAX as i128 {
                return false;
            }
            let n = totals[idx].uniquename.clone();
            totals.set(idx, MaterialTotal { uniquename: n, quantity_needed: sum as i64 });
            assert(totals_view(totals@) =~= add_to_totals(tv, name@, amount as int));
            true
        },
        None => {
            proof {
                let nt = add_to_totals(tv, name@, amount as int);
                assert(nt == tv.push((name@, amount as int)));
                lemma_name_index_first(nt, name@, tv.len() as int);
            }
            totals.push(MaterialTotal { uniquename: name.clone(), quantity_needed: amount });
            assert(totals_view(totals@) =~= add_to_totals(tv, name@, amount as int));
            true
        },
    }
}

/// The return rate recorded for a planned session: with the city bonus when
/// the account has crafting lines configured.
pub open spec fn session_bonus(account: AccountProfile) -> int {
    production_bonus(account.use_focus, account.crafting_lines.len() > 0)
}

/// Plans a crafting session: for each queue item (paired with its recipe,
/// position by position) the runs it needs, and the summed shopping list.
/// An empty queue is refused; a plan whose quantities overflow `i64` is
/// refused with `QuantityOverflow`.
#[verifier::rlimit(60)]
#[verifier::spinoff_prover]
pub fn plan_session(account: &AccountProfile, items: &Vec<QueueItem>, metas: &Vec<ItemMeta>) -> (r:
    Result<SessionPlan, AlchemyError>)
    requires
        items.len() == metas.len(),
        forall|i: int| 0 <= i < metas.len() ==> metas@[i].craft_amount >= 1,
    ensures
        items.len() == 0 ==> (r matches Err(AlchemyError::NoMaterials(m)) && m@
            == "no items in queue"@),
        items.len() > 0 ==> (r is Ok <==> plan_fits(plan_contributions(*account, items@, metas@))),
        items.len() > 0 && r is Err ==> r matches Err(AlchemyError::QuantityOverflow),
        r matches Ok(plan) ==> {
            &&& plan.items.len() == items.len()
            &&& forall|i: int|
                0 <= i < items.len() ==> planned_from(
                    #[trigger] plan.items@[i],
                    items@[i],
                    metas@[i],
                )
            &&& totals_view(plan.materials@) == material_totals(
                plan_contributions(*account, items@, metas@),
            )
            &&& plan.rrr.numerator == session_bonus(*account)
            &&& plan.rrr.denominator == 100 + session_bonus(*account)
        },
{
    if items.len() == 0 {
        return Err(AlchemyError::NoMaterials("no items in queue".to_string()));
    }
    let ghost all = plan_contributions(*account, items@, metas@);
    let mut planned: Vec<PlannedItem> = Vec::new();
    let mut totals: Vec<MaterialTotal> = Vec::new();
    let ghost mut pos: int = 0;
    let mut i: usize = 0;
    assert(items@.take(0) =~= Seq::<QueueItem>::empty());
    assert(all.take(0) =~= Seq::<(Seq<char>, int, int)>::empty());
    while i < items.len()
        invariant
            items.len() == metas.len(),
            forall|k: int| 0 <= k < metas.len() ==> metas@[k].craft_amount >= 1,
            all == plan_contributions(*account, items@, metas@),
            i <= items.len(),
            pos == plan_contributions(*account, items@.take(i as int), metas@.take(i as int)).len(),
            pos <= all.len(),
            all.take(pos) == plan_contributions(*account, items@.take(i as int), metas@.take(i as int)),
            forall|k: int|
                0 <= k < pos ==> fits_i64(#[trigger] all[k].1) && fits_i64(
                    total_for(material_totals(all.take(k + 1)), all[k].0),
                ),
            totals_view(totals@) == material_totals(all.take(pos)),
            planned.len() == i,
            forall|k: int|
                0 <= k < i ==> planned_from(#[trigger] planned@[k], items@[k], metas@[k]),
        decreases items.len() - i,
    {
        let item = &items[i];
        let meta = &metas[i];
        proof {
            lemma_contributions_step(*account, items@, metas@, i as int);
            lemma_contributions_prefix(*account, items@, metas@, i + 1);
        }
        let ghost ic = item_contributions(*account, *item, *meta);
        assert(all.take(pos + ic.len()) == all.take(pos) + ic);
        let has_bonus = match shopcategory_to_item_category(meta.shopcategory.as_str()) {
            Some(cat) => account.has_city_bonus_for(&cat),
            None => false,
        };
        assert(has_bonus == item_has_city_bonus(*account, *meta));
        let bonus = account.production_bonus_pct(has_bonus);
        let runs_wide = ceil_div_i128(item.quantity_out as i128, meta.craft_amount as i128);
        proof {
            crate::arith::lemma_ceil_div_is_least(item.quantity_out as int, meta.craft_amount as int);
            lemma_runs_bounded(item.quantity_out as int, meta.craft_amount as int);
        }
        let runs = runs_wide as i64;
        let mut j: usize = 0;
        while j < meta.craft_resources.len()
            invariant
                items.len() == metas.len(),
                all == plan_contributions(*account, items@, metas@),
                i < items.len(),
                item == items@[i as int],
                meta == metas@[i as int],
                ic == item_contributions(*account, *item, *meta),
                ic.len() == meta.craft_resources.len(),
                runs == runs_for(*item, *meta),
                bonus == production_bonus(account.use_focus, item_has_city_bonus(*account, *meta)),
                0 <= bonus <= 106,
                j <= meta.craft_resources.len(),
                pos + ic.len() <= all.len(),
                all.take(pos + ic.len()) == plan_contributions(*account, items@.take(i as int), metas@.take(i as int)) + ic,
                pos == plan_contributions(*account, items@.take(i as int), metas@.take(i as int)).len(),
                forall|k: int|
                    0 <= k < pos + j ==> fits_i64(#[trigger] all[k].1) && fits_i64(
                        total_for(material_totals(all.take(k + 1)), all[k].0),
                    ),
                totals_view(totals@) == material_totals(all.take(pos + j)),
            decreases meta.craft_resources.len() - j,
        {
            let res = &meta.craft_resources[j];
            let ghost c = ic[j as int];
            assert(all[pos + j] == c) by {
                assert(all.take(pos + ic.len())[pos + j] == ic[j as int]);
            }
            assert(all.take(pos + j + 1).drop_last() =~= all.take(pos + j));
            proof {
                crate::arith::lemma_wide_product(runs as int, res.count as int);
            }
            let raw: i128 = (runs as i128) * (res.count as i128);
            if raw < i64::MIN as i128 || raw > i64::MAX as i128 {
                assert(!fits_i64(all[pos + j].1));
                assert(!plan_fits(all));
                return Err(AlchemyError::QuantityOverflow);
            }
            let amount = crate::settings::apply_returns(raw, bonus);
            let ghost tv = totals_view(totals@);
            assert(material_totals(all.take(pos + j + 1)) == add_to_totals(tv, res.uniquename@, amount as int));
            assert(all[pos + j].0 == res.uniquename@);
            if !add_material(&mut totals, &res.uniquename, amount) {
                assert(fits_i64(all[pos + j].1));
                assert(!plan_fits(all));
                return Err(AlchemyError::QuantityOverflow);
            }
            assert(fits_i64(all[pos + j].1));
            assert(fits_i64(total_for(material_totals(all.take(pos + j + 1)), all[pos + j].0)));
            proof {
                lemma_fits_step(all, pos + j);
            }
            assert(forall|k: int|
                0 <= k < pos + (j + 1) ==> fits_i64(#[trigger] all[k].1) && fits_i64(
                    total_for(material_totals(all.take(k + 1)), all[k].0),
                ));
            j += 1;
        }
        planned.push(
            PlannedItem {
                uniquename: item.uniquename.clone(),
                display_name: meta.display_name.clone(),
                quantity_out: item.quantity_out,
                craft_amount: meta.craft_amount,
                runs_needed: runs,
            },
        );
        proof {
            pos = pos + ic.len();
        }
        i += 1;
    }
    assert(items@.take(items.len() as int) =~= items@);
    assert(metas@.take(metas.len() as int) =~= metas@);
    assert(all.take(all.len() as int) =~= all);
    let rrr = account.rrr(account.crafting_lines.len() > 0);
    Ok(SessionPlan { items: planned, materials: totals, rrr })
}

/// What an item's recipe line adds to the shopping list: its material, the
/// raw quantity its runs use, and the quantity to buy after returns. The
/// returns come from a bonus of 18%, plus 59% with focus, plus the 29% city
/// bonus exactly when the item's shop category is a bonus category whose
/// bonus city is the account's city and the account crafts that category.
pub proof fn lemma_recipe_line_returns(account: AccountProfile, item: QueueItem, meta: ItemMeta, k: int)
    requires
        0 <= k < meta.craft_resources.len(),
    ensures
        ({
            let line = item_contributions(account, item, meta)[k];
            let res = meta.craft_resources@[k];
            let city_bonus = match shopcategory_category(meta.shopcategory@) {
                Some(cat) => bonus_city(cat) == account.city@ && account.crafting_lines@.contains(cat),
                None => false,
            };
            &&& line.0 == res.uniquename@
            &&& line.1 == ceil_div(item.quantity_out as int, meta.craft_amount as int) * res.count
            &&& !city_bonus ==> line.2 == after_returns(line.1, if account.use_focus { 77 } else { 18 })
            &&& city_bonus ==> line.2 == after_returns(line.1, if account.use_focus { 106 } else { 47 })
        }),
{
}

/// A planned item's runs make at least the quantity asked for, and one run
/// fewer would not.
pub proof fn lemma_planned_runs_suffice(p: PlannedItem, item: QueueItem, meta: ItemMeta)
    requires
        planned_from(p, item, meta),
        meta.craft_amount >= 1,
    ensures
        p.runs_needed * p.craft_amount >= p.quantity_out,
        (p.runs_needed - 1) * p.craft_amount < p.quantity_out,
{
    crate::arith::lemma_ceil_div_is_least(item.quantity_out as int, meta.craft_amount as int);
}

proof fn lemma_fits_step(all: Seq<(Seq<char>, int, int)>, n: int)
    requires
        0 <= n < all.len(),
        forall|k: int|
            0 <= k < n ==> fits_i64(#[trigger] all[k].1) && fits_i64(
                total_for(material_totals(all.take(k + 1)), all[k].0),
            ),
        fits_i64(all[n].1),
        fits_i64(total_for(material_totals(all.take(n + 1)), all[n].0)),
    ensures
        forall|k: int|
            0 <= k < n + 1 ==> fits_i64(#[trigger] all[k].1) && fits_i64(
                total_for(material_totals(all.take(k + 1)), all[k].0),
            ),
{
}

proof fn lemma_runs_bounded(q: int, c: int)
    requires
        c >= 1,
        i64::MIN <= q <= i64::MAX,
    ensures
        i64::MIN <= ceil_div(q, c) <= i64::MAX,
{
    crate::arith::lemma_ceil_div_is_least(q, c);
    let r = ceil_div(q, c);
    if q >= 0 {
        assert(r >= 0) by (nonlinear_arith)
            requires
                r * c >= q,
                q >= 0,
                c >= 1,
                (r - 1) * c < q,
        ;
        assert(r <= q) by (nonlinear_arith)
            requires
                (r - 1) * c < q,
                q >= 0,
                c >= 1,
        ;
    } else {
        assert(r <= 0) by (nonlinear_arith)
            requires
                (r - 1) * c < q,
                q < 0,
                c >= 1,
        ;
        assert(r >= q) by (nonlinear_arith)
            requires
                r * c >= q,
                q < 0,
                c >= 1,
        ;
    }
}

} // verus!

verus! {

/// The summed quantity to buy of one material over a sequence of shares.
pub open spec fn named_sum(cs: Seq<(Seq<char>, int, int)>, name: Seq<char>) -> int
    decreases cs.len(),
{
    if cs.len() == 0 {
        0
    } else {
        named_sum(cs.drop_last(), name) + (if cs.last().0 == name { cs.last().2 } else { 0 })
    }
}

proof fn lemma_first_exists(t: Seq<(Seq<char>, int)>, name: Seq<char>, k: int)
    requires
        0 <= k < t.len(),
        t[k].0 == name,
    ensures
        0 <= name_index(t, name) < t.len(),
        t[name_index(t, name)].0 == name,
        forall|m: int| 0 <= m < name_index(t, name) ==> t[m].0 != name,
    decreases k,
{
    if forall|m: int| 0 <= m < k ==> t[m].0 != name {
        lemma_name_index_first(t, name, k);
    } else {
        let m = choose|m: int| 0 <= m < k && t[m].0 == name;
        lemma_first_exists(t, name, m);
    }
}

proof fn lemma_add_same(t: Seq<(Seq<char>, int)>, name: Seq<char>, a: int)
    ensures
        total_for(add_to_totals(t, name, a), name) == total_for(t, name) + a,
{
    let i = name_index(t, name);
    let nt = add_to_totals(t, name, a);
    if i >= 0 {
        lemma_first_exists_from_index(t, name);
        lemma_name_index_first(nt, name, i);
    } else {
        lemma_absent_from_index(t, name);
        lemma_name_index_first(nt, name, t.len() as int);
    }
}

proof fn lemma_first_exists_from_index(t: Seq<(Seq<char>, int)>, name: Seq<char>)
    requires
        name_index(t, name) >= 0,
    ensures
        0 <= name_index(t, name) < t.len(),
        t[name_index(t, name)].0 == name,
        forall|m: int| 0 <= m < name_index(t, name) ==> t[m].0 != name,
{
}

proof fn lemma_absent_from_index(t: Seq<(Seq<char>, int)>, name: Seq<char>)
    requires
        name_index(t, name) < 0,
    ensures
        forall|m: int| 0 <= m < t.len() ==> t[m].0 != name,
{
    assert forall|m: int| 0 <= m < t.len() implies t[m].0 != name by {
        if t[m].0 == name {
            lemma_first_exists(t, name, m);
        }
    }
}

proof fn lemma_add_other(t: Seq<(Seq<char>, int)>, other: Seq<char>, a: int, name: Seq<char>)
    requires
        other != name,
    ensures
        total_for(add_to_totals(t, other, a), name) == total_for(t, name),
{
    let nt = add_to_totals(t, other, a);
    let i = name_index(t, other);
    if i >= 0 {
        lemma_first_exists_from_index(t, other);
    }
    assert(forall|m: int| 0 <= m < t.len() ==> nt[m].0 == t[m].0);
    if name_index(t, name) >= 0 {
        lemma_first_exists_from_index(t, name);
        lemma_name_index_first(nt, name, name_index(t, name));
    } else {
        lemma_absent_from_index(t, name);
        lemma_name_index_absent(nt, name);
    }
}

proof fn lemma_totals_are_sums(cs: Seq<(Seq<char>, int, int)>, name: Seq<char>)
    ensures
        total_for(material_totals(cs), name) == named_sum(cs, name),
    decreases cs.len(),
{
    if cs.len() > 0 {
        lemma_totals_are_sums(cs.drop_last(), name);
        let t = material_totals(cs.drop_last());
        if cs.last().0 == name {
            lemma_add_same(t, name, cs.last().2);
        } else {
            lemma_add_other(t, cs.last().0, cs.last().2, name);
        }
    }
}

/// Distinct entries: no material appears twice on a shopping list.
pub open spec fn names_distinct(t: Seq<(Seq<char>, int)>) -> bool {
    forall|i: int, j: int| 0 <= i < j < t.len() ==> t[i].0 != t[j].0
}

proof fn lemma_totals_distinct(cs: Seq<(Seq<char>, int, int)>)
    ensures
        names_distinct(material_totals(cs)),
    decreases cs.len(),
{
    if cs.len() > 0 {
        lemma_totals_distinct(cs.drop_last());
        let t = material_totals(cs.drop_last());
        let name = cs.last().0;
        if name_index(t, name) >= 0 {
            lemma_first_exists_from_index(t, name);
        } else {
            lemma_absent_from_index(t, name);
        }
    }
}

proof fn lemma_add_keeps_names(t: Seq<(Seq<char>, int)>, name: Seq<char>, a: int)
    ensures
        add_to_totals(t, name, a).len() >= t.len(),
        forall|m: int| 0 <= m < t.len() ==> (#[trigger] add_to_totals(t, name, a)[m]).0 == t[m].0,
        exists|m: int|
            0 <= m < add_to_totals(t, name, a).len() && (#[trigger] add_to_totals(t, name, a)[m]).0
                == name,
        forall|m: int|
            t.len() <= m < add_to_totals(t, name, a).len() ==> (#[trigger] add_to_totals(
                t,
                name,
                a,
            )[m]).0 == name,
{
    let nt = add_to_totals(t, name, a);
    if name_index(t, name) >= 0 {
        lemma_first_exists_from_index(t, name);
        assert(nt[name_index(t, name)].0 == name);
    } else {
        assert(nt[t.len() as int].0 == name);
    }
}

/// Law of the shopping list's coverage: every material of every recipe line
/// of the plan is on the list, and every entry of the list is the material
/// of some recipe line.
pub proof fn lemma_shopping_list_covers(cs: Seq<(Seq<char>, int, int)>)
    ensures
        forall|k: int| 0 <= k < cs.len() ==> name_index(material_totals(cs), #[trigger] cs[k].0) >= 0,
        forall|j: int|
            0 <= j < material_totals(cs).len() ==> exists|k: int|
                0 <= k < cs.len() && cs[k].0 == (#[trigger] material_totals(cs)[j]).0,
    decreases cs.len(),
{
    if cs.len() > 0 {
        let rest = cs.drop_last();
        let t = material_totals(rest);
        let last = cs.last();
        let nt = material_totals(cs);
        lemma_shopping_list_covers(rest);
        lemma_add_keeps_names(t, last.0, last.2);
        assert forall|k: int| 0 <= k < cs.len() implies name_index(nt, #[trigger] cs[k].0) >= 0 by {
            let name = cs[k].0;
            if k < cs.len() - 1 {
                assert(rest[k] == cs[k]);
                assert(name_index(t, rest[k].0) >= 0);
                lemma_first_exists_from_index(t, name);
                let idx = name_index(t, name);
                assert(nt[idx].0 == t[idx].0);
                lemma_first_exists(nt, name, idx);
            } else {
                let m = choose|m: int| 0 <= m < nt.len() && nt[m].0 == last.0;
                lemma_first_exists(nt, name, m);
            }
        }
        assert forall|j: int| 0 <= j < nt.len() implies exists|k: int|
            0 <= k < cs.len() && cs[k].0 == (#[trigger] nt[j]).0 by {
            if j < t.len() {
                assert(nt[j].0 == t[j].0);
                let k = choose|k: int| 0 <= k < rest.len() && rest[k].0 == t[j].0;
                assert(cs[k] == rest[k]);
            } else {
                assert(nt[j].0 == last.0);
                assert(cs[cs.len() - 1] == last);
            }
        }
    }
}

/// Law of the shopping list: each material appears once, and its quantity
/// is the sum, over all queued items and their recipe lines, of the
/// quantities to buy for that material.
pub proof fn lemma_shopping_list_sums(
    account: AccountProfile,
    items: Seq<QueueItem>,
    metas: Seq<ItemMeta>,
    name: Seq<char>,
)
    ensures
        total_for(material_totals(plan_contributions(account, items, metas)), name) == named_sum(
            plan_contributions(account, items, metas),
            name,
        ),
        names_distinct(material_totals(plan_contributions(account, items, metas))),
{
    lemma_totals_are_sums(plan_contributions(account, items, metas), name);
    lemma_totals_distinct(plan_contributions(account, items, metas));
}

} // verus!

verus! {

/// A shopping list line with the material's display name.
#[derive(Debug, Clone)]
pub struct MaterialLine {
    pub uniquename: String,
    pub display_name: String,
    pub quantity_needed: i64,
}

/// Lines in order of display name.
pub open spec fn sorted_by_display_name(s: Seq<MaterialLine>) -> bool {
    forall|i: int, j: int| 0 <= i < j < s.len() ==> lex_le(s[i].display_name@, s[j].display_name@)
}

fn copy_line(l: &MaterialLine) -> (r: MaterialLine)
    ensures
        r == *l,
{
    MaterialLine {
        uniquename: l.uniquename.clone(),
        display_name: l.display_name.clone(),
        quantity_needed: l.quantity_needed,
    }
}

/// Orders a shopping list by display name: the same lines, in order of
/// their display names.
pub fn sort_by_display_name(lines: &Vec<MaterialLine>) -> (r: Vec<MaterialLine>)
    ensures
        sorted_by_display_name(r@),
        r@.to_multiset() == lines@.to_multiset(),
{
    broadcast use vstd::multiset::group_multiset_axioms;
    let mut r: Vec<MaterialLine> = Vec::new();
    let mut i: usize = 0;
    assert(lines@.take(0) =~= Seq::<MaterialLine>::empty());
    while i < lines.len()
        invariant
            i <= lines.len(),
            sorted_by_display_name(r@),
            r@.to_multiset() == lines@.take(i as int).to_multiset(),
        decreases lines.len() - i,
    {
        let x = copy_line(&lines[i]);
        let mut p: usize = 0;
        while p < r.len() && !str_lt(x.display_name.as_str(), r[p].display_name.as_str())
            invariant
                p <= r.len(),
                forall|j: int| 0 <= j < p ==> lex_le(r@[j].display_name@, x.display_name@),
            decreases r.len() - p,
        {
            p += 1;
        }
        let ghost old_r = r@;
        proof {
            assert forall|j: int| p <= j < old_r.len() implies lex_le(
                x.display_name@,
                old_r[j].display_name@,
            ) by {
                crate::text::lemma_lex_lt_asymmetric(x.display_name@, old_r[p as int].display_name@);
                if j > p {
                    assert(lex_le(old_r[p as int].display_name@, old_r[j].display_name@));
                    crate::text::lemma_lex_trichotomy(x.display_name@, old_r[p as int].display_name@);
                    crate::text::lemma_lex_le_transitive(
                        x.display_name@,
                        old_r[p as int].display_name@,
                        old_r[j].display_name@,
                    );
                }
            }
        }
        r.insert(p, x);
        proof {
            old_r.insert_ensures(p as int, x);
            assert forall|a: int, b: int| 0 <= a < b < r@.len() implies lex_le(
                r@[a].display_name@,
                r@[b].display_name@,
            ) by {
                if a < p && b == p {
                } else if a < p && b > p {
                    assert(r@[b] == old_r[b - 1]);
                } else if a == p {
                    assert(r@[b] == old_r[b - 1]);
                } else if a > p {
                    assert(r@[a] == old_r[a - 1]);
                    assert(r@[b] == old_r[b - 1]);
                }
            }
            let s1 = old_r.take(p as int);
            let s2 = old_r.skip(p as int);
            assert(old_r =~= s1 + s2);
            assert(r@ =~= s1.push(x) + s2);
            vstd::seq_lib::lemma_multiset_commutative(s1, s2);
            vstd::seq_lib::lemma_multiset_commutative(s1.push(x), s2);
            s1.to_multiset_ensures();
            lines@.take(i as int).to_multiset_ensures();
            assert(lines@.take(i + 1) =~= lines@.take(i as int).push(lines@[i as int]));
        }
        i += 1;
    }
    assert(lines@.take(lines.len() as int) =~= lines@);
    r
}

} // verus!
