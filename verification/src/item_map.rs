//! The item database: names shown for items, and the shape of the rows the
//! item catalogue is stored in.

use vstd::prelude::*;
use crate::json::{
    bool_member, json_document, parse_json_text, copy_number, element_at, element_count, elements, get_bool, get_i64,
    get_scalar, get_str, i64_member, lookup, obj_get, scalar_member, str_member, JsonScalar,
    JsonValue,
};
use crate::text::{
    ascii_lower, ascii_lower_seq, ascii_upper, chars_of, decimal_int, i64_to_decimal, join,
    join_strings, keep_nonempty, push_char, split_all, split_on, string_from_chars,
    to_ascii_lower, to_ascii_upper,
};

verus! {

broadcast use vstd::string::group_string_axioms;

/// A recipe material of the item catalogue.
#[derive(Debug, Clone)]
pub struct CraftResource {
    pub uniquename: String,
    pub count: i64,
    pub enchantment_level: i64,
}

/// A cached price row.
#[derive(Debug, Clone)]
pub struct PriceRow {
    pub item_id: String,
    pub city: String,
    pub quality: i64,
    pub buy_price: Option<i64>,
    pub sell_price: Option<i64>,
    pub updated_at: i64,
    pub ttl_expires_at: i64,
}

/// A cached history row.
#[derive(Debug, Clone)]
pub struct HistoryRow {
    pub item_id: String,
    pub city: String,
    pub quality: i64,
    pub timestamp: i64,
    pub avg_price: i64,
    pub volume: Option<i64>,
}

/// A flag as the database stores it: 1 for true, 0 for false.
pub fn bool_to_i64(v: bool) -> (r: i64)
    ensures
        r == (if v { 1i64 } else { 0i64 }),
{
    if v {
        1
    } else {
        0
    }
}

/// Whether a character is an ASCII digit.
pub open spec fn is_ascii_digit(c: char) -> bool {
    '0' <= c && c <= '9'
}

/// End of the run of ASCII digits that starts at position `i`.
pub open spec fn digit_run_end(s: Seq<char>, i: int) -> int
    recommends
        0 <= i <= s.len(),
    decreases s.len() - i,
{
    if 0 <= i < s.len() && is_ascii_digit(s[i]) {
        digit_run_end(s, i + 1)
    } else {
        i
    }
}

/// A unique name without its tier prefix: `T`, at least one digit and `_`
/// are dropped from the front; any other name is kept whole.
pub open spec fn without_tier_prefix(s: Seq<char>) -> Seq<char> {
    if s.len() > 0 && s[0] == 'T' {
        let i = digit_run_end(s, 1);
        if i > 1 && i < s.len() && s[i] == '_' {
            s.skip(i + 1)
        } else {
            s
        }
    } else {
        s
    }
}

proof fn lemma_digit_run_bounds(s: Seq<char>, i: int)
    requires
        0 <= i <= s.len(),
    ensures
        i <= digit_run_end(s, i) <= s.len(),
    decreases s.len() - i,
{
    if i < s.len() && is_ascii_digit(s[i]) {
        lemma_digit_run_bounds(s, i + 1);
    }
}

/// Removes a tier prefix such as `T4_` from a unique name.
pub fn strip_tier_prefix(input: &str) -> (r: String)
    ensures
        r@ == without_tier_prefix(input@),
{
    let cs = chars_of(input);
    if cs.len() == 0 || cs[0] != 'T' {
        return string_from_chars(&cs);
    }
    let mut i: usize = 1;
    while i < cs.len() && '0' <= cs[i] && cs[i] <= '9'
        invariant
            cs@ == input@,
            1 <= i <= cs.len(),
            digit_run_end(input@, i as int) == digit_run_end(input@, 1),
        decreases cs.len() - i,
    {
        i += 1;
    }
    if i > 1 && i < cs.len() && cs[i] == '_' {
        let mut out = String::new();
        let mut k: usize = i + 1;
        while k < cs.len()
            invariant
                cs@ == input@,
                i + 1 <= k <= cs.len(),
                out@ == input@.subrange(i + 1, k as int),
            decreases cs.len() - k,
        {
            push_char(&mut out, cs[k]);
            k += 1;
            assert(out@ =~= input@.subrange(i + 1, k as int));
        }
        assert(input@.skip(i + 1) =~= input@.subrange(i + 1, cs.len() as int));
        out
    } else {
        string_from_chars(&cs)
    }
}

/// A token with its first character upper-cased and the rest lower-cased
/// (ASCII letters only).
pub open spec fn title_case(t: Seq<char>) -> Seq<char> {
    if t.len() == 0 {
        Seq::empty()
    } else {
        seq![ascii_upper(ascii_lower(t[0]))] + ascii_lower_seq(t.skip(1))
    }
}

/// Capitalizes a token: first letter upper case, the rest lower case.
pub fn title_case_token(token: &str) -> (r: String)
    ensures
        r@ == title_case(token@),
{
    let cs = chars_of(token);
    if cs.len() == 0 {
        return String::new();
    }
    let mut out = String::new();
    push_char(&mut out, to_ascii_upper(to_ascii_lower(cs[0])));
    let mut i: usize = 1;
    while i < cs.len()
        invariant
            cs@ == token@,
            1 <= i <= cs.len(),
            out@ == seq![ascii_upper(ascii_lower(cs@[0]))] + ascii_lower_seq(token@.subrange(1, i as int)),
        decreases cs.len() - i,
    {
        let c = to_ascii_lower(cs[i]);
        push_char(&mut out, c);
        i += 1;
        assert(ascii_lower_seq(token@.subrange(1, i as int)) =~= ascii_lower_seq(token@.subrange(1, i - 1)).push(c));
        assert(out@ =~= seq![ascii_upper(ascii_lower(cs@[0]))] + ascii_lower_seq(token@.subrange(1, i as int)));
    }
    assert(token@.skip(1) =~= token@.subrange(1, cs.len() as int));
    out
}

/// Characters with every `@` turned into a space.
pub open spec fn at_signs_to_spaces(s: Seq<char>) -> Seq<char> {
    s.map_values(|c: char| if c == '@' { ' ' } else { c })
}

/// The words of a name: its non-empty pieces between `_` separators.
pub open spec fn words_of(s: Seq<char>) -> Seq<Seq<char>> {
    split_on(s, '_').filter(|w: Seq<char>| w.len() > 0)
}

/// A display name derived from a unique name: tier prefix dropped, `@`
/// turned into a space, `_`-separated words capitalized and joined by spaces.
pub open spec fn display_name_of(uniquename: Seq<char>) -> Seq<char> {
    join(
        words_of(at_signs_to_spaces(without_tier_prefix(uniquename))).map_values(
            |w: Seq<char>| title_case(w),
        ),
        " "@,
    )
}

} // verus!

verus! {

/// Replaces every `@` with a space.
fn at_to_space(s: &str) -> (r: String)
    ensures
        r@ == at_signs_to_spaces(s@),
{
    let cs = chars_of(s);
    let mut out = String::new();
    let mut i: usize = 0;
    while i < cs.len()
        invariant
            cs@ == s@,
            i <= cs.len(),
            out@ == at_signs_to_spaces(s@.take(i as int)),
        decreases cs.len() - i,
    {
        let c = if cs[i] == '@' { ' ' } else { cs[i] };
        push_char(&mut out, c);
        i += 1;
        assert(out@ =~= at_signs_to_spaces(s@.take(i as int)));
    }
    assert(s@.take(cs.len() as int) =~= s@);
    out
}

/// The non-empty pieces of a text between `_` separators.
pub fn split_words(s: &str) -> (r: Vec<String>)
    ensures
        r@.map_values(|w: String| w@) == words_of(s@),
{
    let pieces = split_all(s, '_');
    keep_nonempty(&pieces)
}

/// Derives a display name from a unique name, e.g. `T4_2H_BOW@1` gives
/// `2h Bow 1`.
pub fn derive_display_name(uniquename: &str) -> (r: String)
    ensures
        r@ == display_name_of(uniquename@),
{
    let base = strip_tier_prefix(uniquename);
    let base = at_to_space(base.as_str());
    let words = split_words(base.as_str());
    let ghost wv = words@.map_values(|w: String| w@);
    let mut titled: Vec<String> = Vec::new();
    let mut i: usize = 0;
    while i < words.len()
        invariant
            i <= words.len(),
            wv == words@.map_values(|w: String| w@),
            titled.len() == i,
            forall|k: int| 0 <= k < i ==> (#[trigger] titled@[k])@ == title_case(wv[k]),
        decreases words.len() - i,
    {
        let t = title_case_token(words[i].as_str());
        assert(wv[i as int] == words@[i as int]@);
        titled.push(t);
        i += 1;
    }
    assert(titled@.map_values(|w: String| w@) =~= wv.map_values(|w: Seq<char>| title_case(w)));
    join_strings(&titled, " ")
}

} // verus!

verus! {

/// The places an asset file is looked for: as given, then one directory up.
pub fn candidates_for(filename: &str) -> (r: Vec<String>)
    ensures
        r.len() == 2,
        r@[0]@ == filename@,
        r@[1]@ == "../"@ + filename@,
{
    let mut up = "../".to_string();
    up.append(filename);
    vec![filename.to_string(), up]
}

/// The first candidate that exists (`exists` answers for each candidate in turn).
pub fn first_existing(candidates: &Vec<String>, exists: &Vec<bool>) -> (r: Option<String>)
    requires
        candidates.len() == exists.len(),
    ensures
        r is None <==> forall|i: int| 0 <= i < exists.len() ==> !exists@[i],
        r matches Some(c) ==> exists|i: int|
            0 <= i < exists.len() && exists@[i] && c@ == candidates@[i]@ && forall|k: int|
                0 <= k < i ==> !exists@[k],
{
    let mut i: usize = 0;
    while i < candidates.len()
        invariant
            candidates.len() == exists.len(),
            i <= candidates.len(),
            forall|k: int| 0 <= k < i ==> !exists@[k],
        decreases candidates.len() - i,
    {
        if exists[i] {
            return Some(candidates[i].clone());
        }
        i += 1;
    }
    None
}

/// The columns of the item table, in insertion order.
pub open spec fn item_columns_spec() -> Seq<Seq<char>> {
    seq![
        "uniquename"@,
        "display_name"@,
        "item_type"@,
        "tier"@,
        "enchantment_level"@,
        "shopcategory"@,
        "shopsubcategory1"@,
        "shopsubcategory2"@,
        "resource_type"@,
        "show_in_marketplace"@,
        "craftable"@,
        "craft_silver"@,
        "craft_time"@,
        "craft_focus"@,
        "craft_amount"@,
        "craft_resources"@,
        "upgrade_resource"@,
        "upgrade_count"@,
    ]
}

/// The columns of the item table, in insertion order.
pub fn item_columns() -> (r: Vec<&'static str>)
    ensures
        r@.map_values(|c: &str| c@) == item_columns_spec(),
{
    let r = vec![
        "uniquename",
        "display_name",
        "item_type",
        "tier",
        "enchantment_level",
        "shopcategory",
        "shopsubcategory1",
        "shopsubcategory2",
        "resource_type",
        "show_in_marketplace",
        "craftable",
        "craft_silver",
        "craft_time",
        "craft_focus",
        "craft_amount",
        "craft_resources",
        "upgrade_resource",
        "upgrade_count",
    ];
    assert(r@.map_values(|c: &str| c@) =~= item_columns_spec());
    r
}

/// The insertion statement for a batch of `rows` items: one parenthesized
/// group of placeholders per row, one placeholder per column.
pub open spec fn insert_items_sql_spec(rows: nat) -> Seq<char> {
    let group = "("@ + crate::marrow::placeholders_spec(item_columns_spec().len()) + ")"@;
    "INSERT OR IGNORE INTO items ("@ + join(item_columns_spec(), ", "@) + ") VALUES "@ + join(
        Seq::new(rows, |i: int| group),
        ", "@,
    )
}

/// The insertion statement for a batch of `rows` items.
pub fn insert_items_sql(rows: usize) -> (r: String)
    ensures
        r@ == insert_items_sql_spec(rows as nat),
{
    let cols = item_columns();
    let col_list = crate::text::join_strs(&cols, ", ");
    let mut group = "(".to_string();
    let ph = crate::marrow::placeholders(cols.len());
    group.append(ph.as_str());
    group.append(")");
    let mut groups: Vec<String> = Vec::new();
    let mut i: usize = 0;
    while i < rows
        invariant
            i <= rows,
            groups.len() == i,
            forall|k: int| 0 <= k < i ==> (#[trigger] groups@[k])@ == group@,
        decreases rows - i,
    {
        groups.push(group.clone());
        i += 1;
    }
    assert(groups@.map_values(|g: String| g@) =~= Seq::new(rows as nat, |k: int| group@));
    let values = join_strings(&groups, ", ");
    let mut sql = "INSERT OR IGNORE INTO items (".to_string();
    sql.append(col_list.as_str());
    sql.append(") VALUES ");
    sql.append(values.as_str());
    sql
}

/// The batches an insertion of `len` rows is cut into: consecutive ranges of
/// at most `chunk` rows covering all rows in order.
pub fn batch_bounds(len: usize, chunk: usize) -> (r: Vec<(usize, usize)>)
    requires
        chunk > 0,
    ensures
        forall|k: int|
            0 <= k < r.len() ==> (#[trigger] r@[k]).0 < r@[k].1 <= len && r@[k].1 - r@[k].0 <= chunk,
        forall|k: int| 0 <= k < r.len() ==> (#[trigger] r@[k]).1 - r@[k].0 == chunk || r@[k].1 == len,
        len == 0 ==> r.len() == 0,
        len > 0 ==> r.len() > 0 && r@[0].0 == 0 && r@.last().1 == len,
        forall|k: int| 0 <= k < r.len() - 1 ==> (#[trigger] r@[k]).1 == r@[k + 1].0,
{
    let mut r: Vec<(usize, usize)> = Vec::new();
    let mut idx: usize = 0;
    while idx < len
        invariant
            chunk > 0,
            idx <= len,
            forall|k: int|
                0 <= k < r.len() ==> (#[trigger] r@[k]).0 < r@[k].1 <= len && r@[k].1 - r@[k].0
                    <= chunk,
            forall|k: int| 0 <= k < r.len() ==> (#[trigger] r@[k]).1 - r@[k].0 == chunk || r@[k].1 == len,
            r.len() == 0 ==> idx == 0,
            r.len() > 0 ==> r@[0].0 == 0 && r@.last().1 == idx,
            forall|k: int| 0 <= k < r.len() - 1 ==> (#[trigger] r@[k]).1 == r@[k + 1].0,
        decreases len - idx,
    {
        let end = if len - idx < chunk { len } else { idx + chunk };
        r.push((idx, end));
        idx = end;
    }
    r
}

} // verus!

verus! {

/// A value or a fallback where there is none.
pub open spec fn or_default(o: Option<i64>, d: i64) -> i64 {
    match o {
        Some(v) => v,
        None => d,
    }
}

/// The node an optional reference points to.
pub open spec fn opt_json(o: Option<&JsonValue>) -> Option<JsonValue> {
    match o {
        Some(v) => Some(*v),
        None => None,
    }
}

/// The text of an optional string.
pub open spec fn opt_text(o: Option<String>) -> Option<Seq<char>> {
    match o {
        Some(s) => Some(s@),
        None => None,
    }
}

/// A recipe material as plain values.
pub struct CraftResourceView {
    pub uniquename: Seq<char>,
    pub count: i64,
    pub enchantment_level: i64,
}

impl View for CraftResource {
    type V = CraftResourceView;

    open spec fn view(&self) -> CraftResourceView {
        CraftResourceView {
            uniquename: self.uniquename@,
            count: self.count,
            enchantment_level: self.enchantment_level,
        }
    }
}

/// The materials of a list, as plain values.
pub open spec fn resources_view(v: Seq<CraftResource>) -> Seq<CraftResourceView> {
    v.map_values(|c: CraftResource| c@)
}

/// The material an entry of a recipe stands for: an object with a unique
/// name; a missing count or enchantment level reads as 0.
pub open spec fn craft_resource_of(entry: JsonValue) -> Option<CraftResourceView> {
    match entry {
        JsonValue::Object(o) => match str_member(o@, "@uniquename"@) {
            Some(u) => Some(
                CraftResourceView {
                    uniquename: u,
                    count: or_default(i64_member(o@, "@count"@), 0),
                    enchantment_level: or_default(i64_member(o@, "@enchantmentlevel"@), 0),
                },
            ),
            None => None,
        },
        _ => None,
    }
}

/// The materials of a list of entries, in order, skipping entries that are
/// no material.
pub open spec fn resources_from(s: Seq<JsonValue>) -> Seq<CraftResourceView>
    decreases s.len(),
{
    if s.len() == 0 {
        Seq::empty()
    } else {
        let rest = resources_from(s.drop_last());
        match craft_resource_of(s.last()) {
            Some(r) => rest.push(r),
            None => rest,
        }
    }
}

/// The materials of a recipe's `craftresource` node (one entry or a list).
pub open spec fn craft_resources_of(node: Option<JsonValue>) -> Seq<CraftResourceView> {
    match node {
        Some(n) => resources_from(elements(n)),
        None => Seq::empty(),
    }
}

fn parse_craft_resource(entry: &JsonValue) -> (r: Option<CraftResource>)
    ensures
        match r {
            Some(c) => craft_resource_of(*entry) == Some(c@),
            None => craft_resource_of(*entry) is None,
        },
{
    match entry {
        JsonValue::Object(o) => match get_str(o, "@uniquename") {
            Some(u) => {
                let count = match get_i64(o, "@count") {
                    Some(c) => c,
                    None => 0,
                };
                let level = match get_i64(o, "@enchantmentlevel") {
                    Some(l) => l,
                    None => 0,
                };
                Some(CraftResource { uniquename: u.to_string(), count, enchantment_level: level })
            },
            None => None,
        },
        _ => None,
    }
}

/// The materials of a recipe's `craftresource` node: one entry or a list,
/// entries that are no material skipped; none without a node.
pub fn parse_craft_resources(node: Option<&JsonValue>) -> (r: Vec<CraftResource>)
    ensures
        resources_view(r@) == craft_resources_of(opt_json(node)),
{
    let mut out: Vec<CraftResource> = Vec::new();
    let n = match node {
        Some(n) => n,
        None => {
            assert(resources_view(out@) =~= Seq::<CraftResourceView>::empty());
            return out;
        },
    };
    let count = element_count(n);
    let mut i: usize = 0;
    assert(elements(*n).take(0) =~= Seq::<JsonValue>::empty());
    assert(resources_view(out@) =~= Seq::<CraftResourceView>::empty());
    while i < count
        invariant
            i <= count,
            count == elements(*n).len(),
            resources_view(out@) == resources_from(elements(*n).take(i as int)),
        decreases count - i,
    {
        let e = element_at(n, i);
        let ghost before = out@;
        assert(elements(*n).take(i + 1).drop_last() =~= elements(*n).take(i as int));
        assert(elements(*n).take(i + 1).last() == elements(*n)[i as int]);
        match parse_craft_resource(e) {
            Some(c) => {
                out.push(c);
                assert(resources_view(out@) =~= resources_view(before).push(c@));
            },
            None => {},
        }
        i += 1;
    }
    assert(elements(*n).take(count as int) =~= elements(*n));
    out
}

/// What a recipe gives a row: whether the item is craftable, the silver and
/// time costs (kept as given), the focus cost, how many items one craft
/// makes, and the materials.
#[derive(Debug, Clone)]
pub struct CraftingData {
    pub craftable: bool,
    pub craft_silver: Option<JsonScalar>,
    pub craft_time: Option<JsonScalar>,
    pub craft_focus: Option<i64>,
    pub craft_amount: i64,
    pub craft_resources: Vec<CraftResource>,
}

/// A recipe as plain values.
pub struct CraftingView {
    pub craftable: bool,
    pub craft_silver: Option<JsonScalar>,
    pub craft_time: Option<JsonScalar>,
    pub craft_focus: Option<i64>,
    pub craft_amount: i64,
    pub craft_resources: Seq<CraftResourceView>,
}

impl View for CraftingData {
    type V = CraftingView;

    open spec fn view(&self) -> CraftingView {
        CraftingView {
            craftable: self.craftable,
            craft_silver: self.craft_silver,
            craft_time: self.craft_time,
            craft_focus: self.craft_focus,
            craft_amount: self.craft_amount,
            craft_resources: resources_view(self.craft_resources@),
        }
    }
}

/// No recipe: not craftable, no costs, an amount of 0 and no materials.
pub open spec fn no_crafting() -> CraftingView {
    CraftingView {
        craftable: false,
        craft_silver: None,
        craft_time: None,
        craft_focus: None,
        craft_amount: 0,
        craft_resources: Seq::empty(),
    }
}

/// The recipe a `craftingrequirements` node gives: its first entry, when that
/// is an object; an amount crafted that is missing reads as 1.
pub open spec fn crafting_of(node: Option<JsonValue>) -> CraftingView {
    match node {
        None => no_crafting(),
        Some(n) => if elements(n).len() == 0 {
            no_crafting()
        } else {
            match elements(n)[0] {
                JsonValue::Object(o) => CraftingView {
                    craftable: true,
                    craft_silver: scalar_member(o@, "@silver"@),
                    craft_time: scalar_member(o@, "@time"@),
                    craft_focus: i64_member(o@, "@craftingfocus"@),
                    craft_amount: or_default(i64_member(o@, "@amountcrafted"@), 1),
                    craft_resources: craft_resources_of(lookup(o@, "craftresource"@)),
                },
                _ => no_crafting(),
            }
        },
    }
}

fn no_crafting_data() -> (r: CraftingData)
    ensures
        r@ == no_crafting(),
{
    let r = CraftingData {
        craftable: false,
        craft_silver: None,
        craft_time: None,
        craft_focus: None,
        craft_amount: 0,
        craft_resources: Vec::new(),
    };
    assert(r@.craft_resources =~= Seq::<CraftResourceView>::empty());
    r
}

fn parse_crafting(node: Option<&JsonValue>) -> (r: CraftingData)
    ensures
        r@ == crafting_of(opt_json(node)),
{
    let n = match node {
        Some(n) => n,
        None => return no_crafting_data(),
    };
    if element_count(n) == 0 {
        return no_crafting_data();
    }
    let recipe = element_at(n, 0);
    match recipe {
        JsonValue::Object(o) => {
            let resources = parse_craft_resources(obj_get(o, "craftresource"));
            let amount = match get_i64(o, "@amountcrafted") {
                Some(a) => a,
                None => 1,
            };
            CraftingData {
                craftable: true,
                craft_silver: get_scalar(o, "@silver"),
                craft_time: get_scalar(o, "@time"),
                craft_focus: get_i64(o, "@craftingfocus"),
                craft_amount: amount,
                craft_resources: resources,
            }
        },
        _ => no_crafting_data(),
    }
}

/// The upgrade an `upgraderequirements` node names: the unique name and
/// count of the first `upgraderesource` entry, when the node is an object
/// and that entry is one.
pub open spec fn upgrade_of(node: Option<JsonValue>) -> (Option<Seq<char>>, Option<i64>) {
    match node {
        Some(JsonValue::Object(o)) => match lookup(o@, "upgraderesource"@) {
            Some(u) => if elements(u).len() > 0 {
                match elements(u)[0] {
                    JsonValue::Object(f) => (
                        str_member(f@, "@uniquename"@),
                        i64_member(f@, "@count"@),
                    ),
                    _ => (None, None),
                }
            } else {
                (None, None)
            },
            None => (None, None),
        },
        _ => (None, None),
    }
}

fn parse_upgrade_resource(node: Option<&JsonValue>) -> (r: (Option<String>, Option<i64>))
    ensures
        (opt_text(r.0), r.1) == upgrade_of(opt_json(node)),
{
    let o = match node {
        Some(JsonValue::Object(o)) => o,
        _ => return (None, None),
    };
    let u = match obj_get(o, "upgraderesource") {
        Some(u) => u,
        None => return (None, None),
    };
    if element_count(u) == 0 {
        return (None, None);
    }
    match element_at(u, 0) {
        JsonValue::Object(f) => {
            let name = match get_str(f, "@uniquename") {
                Some(s) => Some(s.to_string()),
                None => None,
            };
            (name, get_i64(f, "@count"))
        },
        _ => (None, None),
    }
}

} // verus!

verus! {

/// An enchanted variant as the catalogue gives it.
#[derive(Debug, Clone)]
pub struct EnchantmentRow {
    pub enchantment_level: i64,
    pub craft: CraftingData,
    pub upgrade_resource: Option<String>,
    pub upgrade_count: Option<i64>,
}

/// An enchanted variant as plain values.
pub struct EnchantmentView {
    pub enchantment_level: i64,
    pub craft: CraftingView,
    pub upgrade_resource: Option<Seq<char>>,
    pub upgrade_count: Option<i64>,
}

impl View for EnchantmentRow {
    type V = EnchantmentView;

    open spec fn view(&self) -> EnchantmentView {
        EnchantmentView {
            enchantment_level: self.enchantment_level,
            craft: self.craft@,
            upgrade_resource: opt_text(self.upgrade_resource),
            upgrade_count: self.upgrade_count,
        }
    }
}

/// The variants of a list, as plain values.
pub open spec fn enchantments_view(v: Seq<EnchantmentRow>) -> Seq<EnchantmentView> {
    v.map_values(|e: EnchantmentRow| e@)
}

/// The variant an `enchantment` entry stands for, when it is an object; a
/// missing level reads as 0.
pub open spec fn enchantment_of(e: JsonValue) -> Option<EnchantmentView> {
    match e {
        JsonValue::Object(o) => {
            let up = upgrade_of(lookup(o@, "upgraderequirements"@));
            Some(
                EnchantmentView {
                    enchantment_level: or_default(i64_member(o@, "@enchantmentlevel"@), 0),
                    craft: crafting_of(lookup(o@, "craftingrequirements"@)),
                    upgrade_resource: up.0,
                    upgrade_count: up.1,
                },
            )
        },
        _ => None,
    }
}

/// The variants of a list of entries, in order, skipping non-objects.
pub open spec fn enchantments_from(s: Seq<JsonValue>) -> Seq<EnchantmentView>
    decreases s.len(),
{
    if s.len() == 0 {
        Seq::empty()
    } else {
        let rest = enchantments_from(s.drop_last());
        match enchantment_of(s.last()) {
            Some(e) => rest.push(e),
            None => rest,
        }
    }
}

/// The variants an `enchantments` node lists under `enchantment`.
pub open spec fn enchantments_of(node: JsonValue) -> Seq<EnchantmentView> {
    match node {
        JsonValue::Object(o) => match lookup(o@, "enchantment"@) {
            Some(en) => enchantments_from(elements(en)),
            None => Seq::empty(),
        },
        _ => Seq::empty(),
    }
}

fn parse_enchantment(e: &JsonValue) -> (r: Option<EnchantmentRow>)
    ensures
        match r {
            Some(x) => enchantment_of(*e) == Some(x@),
            None => enchantment_of(*e) is None,
        },
{
    match e {
        JsonValue::Object(o) => {
            let level = match get_i64(o, "@enchantmentlevel") {
                Some(l) => l,
                None => 0,
            };
            let craft = parse_crafting(obj_get(o, "craftingrequirements"));
            let up = parse_upgrade_resource(obj_get(o, "upgraderequirements"));
            Some(
                EnchantmentRow {
                    enchantment_level: level,
                    craft,
                    upgrade_resource: up.0,
                    upgrade_count: up.1,
                },
            )
        },
        _ => None,
    }
}

fn parse_enchantments(node: &JsonValue) -> (r: Vec<EnchantmentRow>)
    ensures
        enchantments_view(r@) == enchantments_of(*node),
{
    let mut out: Vec<EnchantmentRow> = Vec::new();
    assert(enchantments_view(out@) =~= Seq::<EnchantmentView>::empty());
    let o = match node {
        JsonValue::Object(o) => o,
        _ => return out,
    };
    let en = match obj_get(o, "enchantment") {
        Some(en) => en,
        None => return out,
    };
    let count = element_count(en);
    let mut i: usize = 0;
    assert(elements(*en).take(0) =~= Seq::<JsonValue>::empty());
    while i < count
        invariant
            i <= count,
            count == elements(*en).len(),
            enchantments_view(out@) == enchantments_from(elements(*en).take(i as int)),
        decreases count - i,
    {
        let e = element_at(en, i);
        let ghost before = out@;
        assert(elements(*en).take(i + 1).drop_last() =~= elements(*en).take(i as int));
        assert(elements(*en).take(i + 1).last() == elements(*en)[i as int]);
        match parse_enchantment(e) {
            Some(x) => {
                out.push(x);
                assert(enchantments_view(out@) =~= enchantments_view(before).push(x@));
            },
            None => {},
        }
        i += 1;
    }
    assert(elements(*en).take(count as int) =~= elements(*en));
    out
}

} // verus!

verus! {

/// A row of the item table. The silver and time costs are kept as the
/// catalogue gives them; `craft_resources` is empty where no materials are
/// stored.
#[derive(Debug, Clone)]
pub struct ItemRow {
    pub uniquename: String,
    pub display_name: String,
    pub item_type: String,
    pub tier: i64,
    pub enchantment_level: i64,
    pub shopcategory: Option<String>,
    pub shopsubcategory1: Option<String>,
    pub shopsubcategory2: Option<String>,
    pub resource_type: Option<String>,
    pub show_in_marketplace: bool,
    pub craftable: bool,
    pub craft_silver: Option<JsonScalar>,
    pub craft_time: Option<JsonScalar>,
    pub craft_focus: Option<i64>,
    pub craft_amount: i64,
    pub craft_resources: Vec<CraftResource>,
    pub upgrade_resource: Option<String>,
    pub upgrade_count: Option<i64>,
}

/// A row of the item table as plain values.
pub struct ItemRowView {
    pub uniquename: Seq<char>,
    pub display_name: Seq<char>,
    pub item_type: Seq<char>,
    pub tier: i64,
    pub enchantment_level: i64,
    pub shopcategory: Option<Seq<char>>,
    pub shopsubcategory1: Option<Seq<char>>,
    pub shopsubcategory2: Option<Seq<char>>,
    pub resource_type: Option<Seq<char>>,
    pub show_in_marketplace: bool,
    pub craftable: bool,
    pub craft_silver: Option<JsonScalar>,
    pub craft_time: Option<JsonScalar>,
    pub craft_focus: Option<i64>,
    pub craft_amount: i64,
    pub craft_resources: Seq<CraftResourceView>,
    pub upgrade_resource: Option<Seq<char>>,
    pub upgrade_count: Option<i64>,
}

impl View for ItemRow {
    type V = ItemRowView;

    open spec fn view(&self) -> ItemRowView {
        ItemRowView {
            uniquename: self.uniquename@,
            display_name: self.display_name@,
            item_type: self.item_type@,
            tier: self.tier,
            enchantment_level: self.enchantment_level,
            shopcategory: opt_text(self.shopcategory),
            shopsubcategory1: opt_text(self.shopsubcategory1),
            shopsubcategory2: opt_text(self.shopsubcategory2),
            resource_type: opt_text(self.resource_type),
            show_in_marketplace: self.show_in_marketplace,
            craftable: self.craftable,
            craft_silver: self.craft_silver,
            craft_time: self.craft_time,
            craft_focus: self.craft_focus,
            craft_amount: self.craft_amount,
            craft_resources: resources_view(self.craft_resources@),
            upgrade_resource: opt_text(self.upgrade_resource),
            upgrade_count: self.upgrade_count,
        }
    }
}

/// The rows of a list, as plain values.
pub open spec fn rows_view(v: Seq<ItemRow>) -> Seq<ItemRowView> {
    v.map_values(|r: ItemRow| r@)
}

/// The row of an item itself (enchantment level 0): its unique name and the
/// name derived from it, its group, tier (0 when missing), shop categories,
/// resource type, marketplace flag (false when missing) and recipe.
pub open spec fn base_row(item_type: Seq<char>, o: Seq<(String, JsonValue)>, name: Seq<char>) -> ItemRowView {
    let craft = crafting_of(lookup(o, "craftingrequirements"@));
    ItemRowView {
        uniquename: name,
        display_name: display_name_of(name),
        item_type: item_type,
        tier: or_default(i64_member(o, "@tier"@), 0),
        enchantment_level: 0,
        shopcategory: str_member(o, "@shopcategory"@),
        shopsubcategory1: str_member(o, "@shopsubcategory1"@),
        shopsubcategory2: str_member(o, "@shopsubcategory2"@),
        resource_type: str_member(o, "@resourcetype"@),
        show_in_marketplace: match bool_member(o, "@showinmarketplace"@) {
            Some(b) => b,
            None => false,
        },
        craftable: craft.craftable,
        craft_silver: craft.craft_silver,
        craft_time: craft.craft_time,
        craft_focus: craft.craft_focus,
        craft_amount: craft.craft_amount,
        craft_resources: craft.craft_resources,
        upgrade_resource: None,
        upgrade_count: None,
    }
}

/// The unique name of an enchanted variant: the base name, `@` and the level.
pub open spec fn enchanted_name(base: Seq<char>, level: i64) -> Seq<char> {
    base + seq!['@'] + decimal_int(level as int)
}

/// The row of an enchanted variant: the base row under the variant's name
/// and level, with the variant's recipe where it has one, and its upgrade.
pub open spec fn enchanted_row(base: ItemRowView, e: EnchantmentView) -> ItemRowView {
    let name = enchanted_name(base.uniquename, e.enchantment_level);
    let own = e.craft.craftable;
    ItemRowView {
        uniquename: name,
        display_name: display_name_of(name),
        item_type: base.item_type,
        tier: base.tier,
        enchantment_level: e.enchantment_level,
        shopcategory: base.shopcategory,
        shopsubcategory1: base.shopsubcategory1,
        shopsubcategory2: base.shopsubcategory2,
        resource_type: base.resource_type,
        show_in_marketplace: base.show_in_marketplace,
        craftable: if own { true } else { base.craftable },
        craft_silver: if own { e.craft.craft_silver } else { base.craft_silver },
        craft_time: if own { e.craft.craft_time } else { base.craft_time },
        craft_focus: if own { e.craft.craft_focus } else { base.craft_focus },
        craft_amount: if own { e.craft.craft_amount } else { base.craft_amount },
        craft_resources: if own { e.craft.craft_resources } else { base.craft_resources },
        upgrade_resource: e.upgrade_resource,
        upgrade_count: e.upgrade_count,
    }
}

/// The rows of one catalogue entry: none unless it is an object with a
/// unique name; else its own row followed by one row per enchanted variant.
pub open spec fn item_rows(item_type: Seq<char>, item: JsonValue) -> Seq<ItemRowView> {
    match item {
        JsonValue::Object(o) => match str_member(o@, "@uniquename"@) {
            Some(name) => {
                let base = base_row(item_type, o@, name);
                let variants = match lookup(o@, "enchantments"@) {
                    Some(en) => enchantments_of(en),
                    None => Seq::empty(),
                };
                seq![base] + variants.map_values(|e: EnchantmentView| enchanted_row(base, e))
            },
            None => Seq::empty(),
        },
        _ => Seq::empty(),
    }
}

/// The rows of the entries of one group, in order.
pub open spec fn rows_of_items(item_type: Seq<char>, s: Seq<JsonValue>) -> Seq<ItemRowView>
    decreases s.len(),
{
    if s.len() == 0 {
        Seq::empty()
    } else {
        rows_of_items(item_type, s.drop_last()) + item_rows(item_type, s.last())
    }
}

/// Whether a key names an attribute (it starts with `@`) rather than a group.
pub open spec fn is_attribute_key(k: Seq<char>) -> bool {
    k.len() > 0 && k[0] == '@'
}

/// The rows of the groups of the `items` object, in order; attribute keys
/// are skipped.
pub open spec fn rows_of_groups(groups: Seq<(String, JsonValue)>) -> Seq<ItemRowView>
    decreases groups.len(),
{
    if groups.len() == 0 {
        Seq::empty()
    } else {
        let last = groups.last();
        rows_of_groups(groups.drop_last()) + if is_attribute_key(last.0@) {
            Seq::empty()
        } else {
            rows_of_items(last.0@, elements(last.1))
        }
    }
}

/// The rows of an item catalogue, or `None` when it has no top-level
/// `items` object.
pub open spec fn catalogue_rows(root: JsonValue) -> Option<Seq<ItemRowView>> {
    match root {
        JsonValue::Object(r) => match lookup(r@, "items"@) {
            Some(JsonValue::Object(items)) => Some(rows_of_groups(items@)),
            _ => None,
        },
        _ => None,
    }
}

/// Why an item catalogue was refused.
#[derive(Debug, Clone, Copy, PartialEq, Eq, Structural)]
pub enum CatalogueError {
    /// The catalogue text is not a JSON document.
    InvalidJson,
    /// The document has no top-level `items` object.
    MissingItems,
}

impl CatalogueError {
    /// The message shown for the error.
    pub fn message(&self) -> (r: String)
        ensures
            r@ == match *self {
                CatalogueError::InvalidJson => "items file is not valid JSON"@,
                CatalogueError::MissingItems => "missing top-level items object"@,
            },
    {
        match self {
            CatalogueError::InvalidJson => "items file is not valid JSON".to_string(),
            CatalogueError::MissingItems => "missing top-level items object".to_string(),
        }
    }
}

} // verus!

verus! {

fn copy_text(o: &Option<String>) -> (r: Option<String>)
    ensures
        r == *o,
{
    match o {
        Some(s) => Some(s.clone()),
        None => None,
    }
}

fn owned_text(o: Option<&str>) -> (r: Option<String>)
    ensures
        opt_text(r) == match o {
            Some(s) => Some(s@),
            None => None::<Seq<char>>,
        },
{
    match o {
        Some(s) => Some(s.to_string()),
        None => None,
    }
}

fn copy_scalar(o: &Option<JsonScalar>) -> (r: Option<JsonScalar>)
    ensures
        r == *o,
{
    match o {
        Some(JsonScalar::Number(n)) => Some(JsonScalar::Number(copy_number(n))),
        Some(JsonScalar::Text(t)) => Some(JsonScalar::Text(t.clone())),
        None => None,
    }
}

fn copy_resources(v: &Vec<CraftResource>) -> (r: Vec<CraftResource>)
    ensures
        resources_view(r@) == resources_view(v@),
{
    let mut out: Vec<CraftResource> = Vec::new();
    let mut i: usize = 0;
    while i < v.len()
        invariant
            i <= v.len(),
            resources_view(out@) == resources_view(v@.take(i as int)),
        decreases v.len() - i,
    {
        let c = &v[i];
        let ghost before = out@;
        let copy = CraftResource {
            uniquename: c.uniquename.clone(),
            count: c.count,
            enchantment_level: c.enchantment_level,
        };
        assert(copy@ == v@[i as int]@);
        out.push(copy);
        assert(v@.take(i + 1) =~= v@.take(i as int).push(v@[i as int]));
        assert(resources_view(out@) =~= resources_view(before).push(copy@));
        assert(resources_view(v@.take(i + 1)) =~= resources_view(v@.take(i as int)).push(
            v@[i as int]@,
        ));
        i += 1;
    }
    assert(v@.take(v.len() as int) =~= v@);
    out
}

fn copy_row(r: &ItemRow) -> (c: ItemRow)
    ensures
        c@ == r@,
{
    ItemRow {
        uniquename: r.uniquename.clone(),
        display_name: r.display_name.clone(),
        item_type: r.item_type.clone(),
        tier: r.tier,
        enchantment_level: r.enchantment_level,
        shopcategory: copy_text(&r.shopcategory),
        shopsubcategory1: copy_text(&r.shopsubcategory1),
        shopsubcategory2: copy_text(&r.shopsubcategory2),
        resource_type: copy_text(&r.resource_type),
        show_in_marketplace: r.show_in_marketplace,
        craftable: r.craftable,
        craft_silver: copy_scalar(&r.craft_silver),
        craft_time: copy_scalar(&r.craft_time),
        craft_focus: r.craft_focus,
        craft_amount: r.craft_amount,
        craft_resources: copy_resources(&r.craft_resources),
        upgrade_resource: copy_text(&r.upgrade_resource),
        upgrade_count: r.upgrade_count,
    }
}

fn enchant(base: &ItemRow, e: &EnchantmentRow) -> (r: ItemRow)
    ensures
        r@ == enchanted_row(base@, e@),
{
    let mut name = base.uniquename.clone();
    push_char(&mut name, '@');
    let level = i64_to_decimal(e.enchantment_level);
    name.append(level.as_str());
    assert(name@ =~= enchanted_name(base.uniquename@, e.enchantment_level));
    let display = derive_display_name(name.as_str());
    let own = e.craft.craftable;
    ItemRow {
        uniquename: name,
        display_name: display,
        item_type: base.item_type.clone(),
        tier: base.tier,
        enchantment_level: e.enchantment_level,
        shopcategory: copy_text(&base.shopcategory),
        shopsubcategory1: copy_text(&base.shopsubcategory1),
        shopsubcategory2: copy_text(&base.shopsubcategory2),
        resource_type: copy_text(&base.resource_type),
        show_in_marketplace: base.show_in_marketplace,
        craftable: if own {
            true
        } else {
            base.craftable
        },
        craft_silver: if own {
            copy_scalar(&e.craft.craft_silver)
        } else {
            copy_scalar(&base.craft_silver)
        },
        craft_time: if own {
            copy_scalar(&e.craft.craft_time)
        } else {
            copy_scalar(&base.craft_time)
        },
        craft_focus: if own {
            e.craft.craft_focus
        } else {
            base.craft_focus
        },
        craft_amount: if own {
            e.craft.craft_amount
        } else {
            base.craft_amount
        },
        craft_resources: if own {
            copy_resources(&e.craft.craft_resources)
        } else {
            copy_resources(&base.craft_resources)
        },
        upgrade_resource: copy_text(&e.upgrade_resource),
        upgrade_count: e.upgrade_count,
    }
}

fn push_item_rows(out: &mut Vec<ItemRow>, item_type: &str, item: &JsonValue)
    ensures
        rows_view(final(out)@) == rows_view(old(out)@) + item_rows(item_type@, *item),
{
    let ghost start = rows_view(out@);
    let o = match item {
        JsonValue::Object(o) => o,
        _ => {
            assert(rows_view(out@) =~= start + item_rows(item_type@, *item));
            return ;
        },
    };
    let name = match get_str(o, "@uniquename") {
        Some(n) => n,
        None => {
            assert(rows_view(out@) =~= start + item_rows(item_type@, *item));
            return ;
        },
    };
    let tier = match get_i64(o, "@tier") {
        Some(t) => t,
        None => 0,
    };
    let show = match get_bool(o, "@showinmarketplace") {
        Some(b) => b,
        None => false,
    };
    let craft = parse_crafting(obj_get(o, "craftingrequirements"));
    let base = ItemRow {
        uniquename: name.to_string(),
        display_name: derive_display_name(name),
        item_type: item_type.to_string(),
        tier,
        enchantment_level: 0,
        shopcategory: owned_text(get_str(o, "@shopcategory")),
        shopsubcategory1: owned_text(get_str(o, "@shopsubcategory1")),
        shopsubcategory2: owned_text(get_str(o, "@shopsubcategory2")),
        resource_type: owned_text(get_str(o, "@resourcetype")),
        show_in_marketplace: show,
        craftable: craft.craftable,
        craft_silver: craft.craft_silver,
        craft_time: craft.craft_time,
        craft_focus: craft.craft_focus,
        craft_amount: craft.craft_amount,
        craft_resources: craft.craft_resources,
        upgrade_resource: None,
        upgrade_count: None,
    };
    let ghost bv = base_row(item_type@, o@, name@);
    assert(base@ == bv);
    out.push(copy_row(&base));
    assert(rows_view(out@) =~= start + seq![bv]);
    match obj_get(o, "enchantments") {
        Some(en) => {
            let variants = parse_enchantments(en);
            let ghost ev = enchantments_view(variants@);
            let mut k: usize = 0;
            assert(ev.take(0).map_values(|e: EnchantmentView| enchanted_row(bv, e)) =~= Seq::<
                ItemRowView,
            >::empty());
            while k < variants.len()
                invariant
                    k <= variants.len(),
                    base@ == bv,
                    ev == enchantments_view(variants@),
                    rows_view(out@) == start + seq![bv] + ev.take(k as int).map_values(
                        |e: EnchantmentView| enchanted_row(bv, e),
                    ),
                decreases variants.len() - k,
            {
                let row = enchant(&base, &variants[k]);
                let ghost before = rows_view(out@);
                out.push(row);
                assert(rows_view(out@) =~= before.push(row@));
                assert(ev.take(k + 1).map_values(|e: EnchantmentView| enchanted_row(bv, e))
                    =~= ev.take(k as int).map_values(|e: EnchantmentView| enchanted_row(bv, e)).push(
                    enchanted_row(bv, ev[k as int]),
                ));
                k += 1;
            }
            assert(ev.take(variants.len() as int) =~= ev);
        },
        None => {
            assert(Seq::<EnchantmentView>::empty().map_values(
                |e: EnchantmentView| enchanted_row(bv, e),
            ) =~= Seq::<ItemRowView>::empty());
            assert(seq![bv] + Seq::<ItemRowView>::empty() =~= seq![bv]);
        },
    }
}

fn is_attribute(key: &str) -> (r: bool)
    ensures
        r == is_attribute_key(key@),
{
    let cs = chars_of(key);
    cs.len() > 0 && cs[0] == '@'
}

/// Reads the item catalogue: the rows of every entry of every group of the
/// top-level `items` object, groups and entries in order; an error when
/// there is no such object.
pub fn parse_items_json(root: &JsonValue) -> (r: Result<Vec<ItemRow>, CatalogueError>)
    ensures
        match r {
            Ok(rows) => catalogue_rows(*root) == Some(rows_view(rows@)),
            Err(e) => catalogue_rows(*root) is None && e == CatalogueError::MissingItems,
        },
{
    let top = match root {
        JsonValue::Object(top) => top,
        _ => return Err(CatalogueError::MissingItems),
    };
    let items = match obj_get(top, "items") {
        Some(JsonValue::Object(items)) => items,
        _ => return Err(CatalogueError::MissingItems),
    };
    let mut out: Vec<ItemRow> = Vec::new();
    let mut i: usize = 0;
    assert(items@.take(0) =~= Seq::<(String, JsonValue)>::empty());
    assert(rows_view(out@) =~= Seq::<ItemRowView>::empty());
    while i < items.len()
        invariant
            i <= items.len(),
            rows_view(out@) == rows_of_groups(items@.take(i as int)),
        decreases items.len() - i,
    {
        let key = &items[i].0;
        let node = &items[i].1;
        let ghost before = rows_view(out@);
        assert(items@.take(i + 1).drop_last() =~= items@.take(i as int));
        assert(items@.take(i + 1).last() == items@[i as int]);
        if is_attribute(key.as_str()) {
            assert(before + Seq::<ItemRowView>::empty() =~= before);
        } else {
            let count = element_count(node);
            let mut j: usize = 0;
            assert(elements(*node).take(0) =~= Seq::<JsonValue>::empty());
            assert(before + Seq::<ItemRowView>::empty() =~= before);
            while j < count
                invariant
                    j <= count,
                    count == elements(*node).len(),
                    rows_view(out@) == before + rows_of_items(key@, elements(*node).take(j as int)),
                decreases count - j,
            {
                let e = element_at(node, j);
                assert(elements(*node).take(j + 1).drop_last() =~= elements(*node).take(j as int));
                assert(elements(*node).take(j + 1).last() == elements(*node)[j as int]);
                push_item_rows(&mut out, key.as_str(), e);
                j += 1;
                assert(rows_view(out@) =~= before + rows_of_items(key@, elements(*node).take(j as int)));
            }
            assert(elements(*node).take(count as int) =~= elements(*node));
        }
        i += 1;
    }
    assert(items@.take(items.len() as int) =~= items@);
    Ok(out)
}

} // verus!

verus! {

/// Every row shows the display name derived from its unique name.
pub open spec fn names_derived(rows: Seq<ItemRowView>) -> bool {
    forall|i: int| 0 <= i < rows.len() ==> #[trigger] rows[i].display_name == display_name_of(rows[i].uniquename)
}

proof fn lemma_names_derived_concat(a: Seq<ItemRowView>, b: Seq<ItemRowView>)
    requires
        names_derived(a),
        names_derived(b),
    ensures
        names_derived(a + b),
{
    assert forall|i: int| 0 <= i < (a + b).len() implies #[trigger] (a + b)[i].display_name
        == display_name_of((a + b)[i].uniquename) by {
        if i >= a.len() {
            assert((a + b)[i] == b[i - a.len()]);
        }
    }
}

proof fn lemma_item_rows_named(item_type: Seq<char>, item: JsonValue)
    ensures
        names_derived(item_rows(item_type, item)),
{
    match item {
        JsonValue::Object(o) => match str_member(o@, "@uniquename"@) {
            Some(name) => {
                let base = base_row(item_type, o@, name);
                let variants = match lookup(o@, "enchantments"@) {
                    Some(en) => enchantments_of(en),
                    None => Seq::empty(),
                };
                let rest = variants.map_values(|e: EnchantmentView| enchanted_row(base, e));
                assert(names_derived(seq![base]));
                assert(names_derived(rest));
                lemma_names_derived_concat(seq![base], rest);
            },
            None => {},
        },
        _ => {},
    }
}

proof fn lemma_rows_of_items_named(item_type: Seq<char>, s: Seq<JsonValue>)
    ensures
        names_derived(rows_of_items(item_type, s)),
    decreases s.len(),
{
    if s.len() > 0 {
        lemma_rows_of_items_named(item_type, s.drop_last());
        lemma_item_rows_named(item_type, s.last());
        lemma_names_derived_concat(rows_of_items(item_type, s.drop_last()), item_rows(item_type, s.last()));
    }
}

proof fn lemma_rows_of_groups_named(groups: Seq<(String, JsonValue)>)
    ensures
        names_derived(rows_of_groups(groups)),
    decreases groups.len(),
{
    if groups.len() > 0 {
        let last = groups.last();
        lemma_rows_of_groups_named(groups.drop_last());
        let tail = if is_attribute_key(last.0@) {
            Seq::<ItemRowView>::empty()
        } else {
            lemma_rows_of_items_named(last.0@, elements(last.1));
            rows_of_items(last.0@, elements(last.1))
        };
        lemma_names_derived_concat(rows_of_groups(groups.drop_last()), tail);
    }
}

/// Every row read from an item catalogue, enchanted variants included, shows
/// the display name derived from its own unique name.
pub proof fn lemma_catalogue_display_names(root: JsonValue)
    ensures
        catalogue_rows(root) matches Some(rows) ==> names_derived(rows),
{
    match root {
        JsonValue::Object(r) => match lookup(r@, "items"@) {
            Some(JsonValue::Object(items)) => lemma_rows_of_groups_named(items@),
            _ => {},
        },
        _ => {},
    }
}

} // verus!

verus! {

/// A recipe's `craftresource` node may be one entry or a list of entries:
/// one entry reads exactly as the one-element list holding it, and a
/// missing node reads as no materials. The same holds of a
/// `craftingrequirements` node.
pub proof fn lemma_single_entry_reads_as_list(entry: JsonValue, list: Vec<JsonValue>)
    requires
        !(entry is Array),
        list@ == seq![entry],
    ensures
        craft_resources_of(Some(entry)) == craft_resources_of(Some(JsonValue::Array(list))),
        craft_resources_of(None) == Seq::<CraftResourceView>::empty(),
        crafting_of(Some(entry)) == crafting_of(Some(JsonValue::Array(list))),
{
    assert(elements(entry) == seq![entry]);
    assert(elements(JsonValue::Array(list)) == seq![entry]);
}

} // verus!

verus! {

/// Reads the item catalogue from the text of its file: an error when the
/// text is not a JSON document, else the rows of the document as
/// `parse_items_json` reads them.
pub fn parse_items_text(content: &str) -> (r: Result<Vec<ItemRow>, CatalogueError>)
    ensures
        json_document(content@) is None ==> r == Err::<Vec<ItemRow>, CatalogueError>(
            CatalogueError::InvalidJson,
        ),
        json_document(content@) matches Some(root) ==> match r {
            Ok(rows) => catalogue_rows(root) == Some(rows_view(rows@)),
            Err(e) => catalogue_rows(root) is None && e == CatalogueError::MissingItems,
        },
{
    match parse_json_text(content) {
        Some(root) => parse_items_json(&root),
        None => Err(CatalogueError::InvalidJson),
    }
}

} // verus!

verus! {

/// The enchanted variants an entry lists (none without `enchantments`).
pub open spec fn entry_variants(o: Seq<(String, JsonValue)>) -> Seq<EnchantmentView> {
    match lookup(o, "enchantments"@) {
        Some(en) => enchantments_of(en),
        None => Seq::empty(),
    }
}

/// Every row a catalogue entry gives describes the same item: group, tier
/// (0 when missing), shop categories, resource type and marketplace flag
/// (false when missing) are the entry's own, in the base row and in every
/// enchanted variant alike. The first row is the item itself, at level 0
/// under the entry's unique name; then comes one row per listed variant, at
/// the variant's level, named after the item with `@` and that level.
pub proof fn lemma_variants_share_item_fields(item_type: Seq<char>, o: Vec<(String, JsonValue)>)
    requires
        str_member(o@, "@uniquename"@) is Some,
    ensures
        ({
            let rows = item_rows(item_type, JsonValue::Object(o));
            let name = str_member(o@, "@uniquename"@)->0;
            let variants = entry_variants(o@);
            &&& rows.len() == 1 + variants.len()
            &&& rows[0].uniquename == name
            &&& rows[0].enchantment_level == 0
            &&& forall|k: int|
                1 <= k < rows.len() ==> (#[trigger] rows[k]).enchantment_level
                    == variants[k - 1].enchantment_level && rows[k].uniquename == name + seq!['@']
                    + decimal_int(variants[k - 1].enchantment_level as int)
            &&& forall|k: int|
                0 <= k < rows.len() ==> {
                    &&& (#[trigger] rows[k]).item_type == item_type
                    &&& rows[k].tier == or_default(i64_member(o@, "@tier"@), 0)
                    &&& rows[k].shopcategory == str_member(o@, "@shopcategory"@)
                    &&& rows[k].shopsubcategory1 == str_member(o@, "@shopsubcategory1"@)
                    &&& rows[k].shopsubcategory2 == str_member(o@, "@shopsubcategory2"@)
                    &&& rows[k].resource_type == str_member(o@, "@resourcetype"@)
                    &&& rows[k].show_in_marketplace == (bool_member(o@, "@showinmarketplace"@)
                        == Some(true))
                }
        }),
{
    let rows = item_rows(item_type, JsonValue::Object(o));
    let name = str_member(o@, "@uniquename"@)->0;
    let base = base_row(item_type, o@, name);
    let variants = entry_variants(o@);
    assert(rows == seq![base] + variants.map_values(|e: EnchantmentView| enchanted_row(base, e)));
    assert forall|k: int| 1 <= k < rows.len() implies rows[k] == enchanted_row(base, variants[k - 1]) by {
        assert(rows[k] == variants.map_values(|e: EnchantmentView| enchanted_row(base, e))[k - 1]);
    }
}

} // verus!
