//! Request handling rules of the local HTTP API: query defaults, which
//! account a request uses, the item id list, and the HTTP status of each
//! refusal.

use vstd::prelude::*;
use crate::seance::SeanceError;
use crate::settings::AccountProfile;
use crate::text::{eq_ignore_ascii_case, eq_ignore_ascii_case_spec, keep_nonempty, split_all, split_on, str_eq, trim, trim_spec};

verus! {

broadcast use vstd::string::group_string_axioms;

/// Query of the session list.
#[derive(Debug, Clone)]
pub struct SessionListQuery {
    pub limit: Option<i64>,
}

/// Query of an item search.
#[derive(Debug, Clone)]
pub struct SearchQuery {
    pub q: String,
}

/// Query of items by id: a comma separated list.
#[derive(Debug, Clone)]
pub struct ItemsQuery {
    pub ids: String,
}

/// Query of a recommendation.
#[derive(Debug, Clone)]
pub struct RecommendQuery {
    pub city: String,
    pub quality: Option<i64>,
    pub days: Option<i64>,
}

/// The number of sessions listed: 20 unless the query says otherwise.
pub fn session_list_limit(query: &SessionListQuery) -> (r: i64)
    ensures
        r == match query.limit {
            Some(l) => l,
            None => 20,
        },
{
    match query.limit {
        Some(l) => l,
        None => 20,
    }
}

/// Quality and day range of a recommendation: quality 1 and 14 days unless
/// the query says otherwise.
pub fn recommend_params(query: &RecommendQuery) -> (r: (i64, i64))
    ensures
        r.0 == match query.quality {
            Some(q) => q,
            None => 1,
        },
        r.1 == match query.days {
            Some(d) => d,
            None => 14,
        },
{
    let quality = match query.quality {
        Some(q) => q,
        None => 1,
    };
    let days = match query.days {
        Some(d) => d,
        None => 14,
    };
    (quality, days)
}

/// The item ids of a comma separated list: each piece without surrounding
/// white space, empty pieces dropped.
pub open spec fn ids_of(ids: Seq<char>) -> Seq<Seq<char>> {
    split_on(ids, ',').map_values(|p: Seq<char>| trim_spec(p)).filter(|p: Seq<char>| p.len() > 0)
}

/// Parses a comma separated list of item ids.
pub fn parse_ids(ids: &str) -> (r: Vec<String>)
    ensures
        r@.map_values(|w: String| w@) == ids_of(ids@),
{
    let pieces = split_all(ids, ',');
    let ghost pv = pieces@.map_values(|w: String| w@);
    let mut trimmed: Vec<String> = Vec::new();
    let mut i: usize = 0;
    while i < pieces.len()
        invariant
            i <= pieces.len(),
            pv == pieces@.map_values(|w: String| w@),
            trimmed.len() == i,
            forall|k: int| 0 <= k < i ==> (#[trigger] trimmed@[k])@ == trim_spec(pv[k]),
        decreases pieces.len() - i,
    {
        let t = trim(pieces[i].as_str());
        trimmed.push(t);
        i += 1;
    }
    assert(trimmed@.map_values(|w: String| w@) =~= pv.map_values(|p: Seq<char>| trim_spec(p)));
    keep_nonempty(&trimmed)
}

/// Two account profiles hold the same settings.
pub open spec fn same_account(a: AccountProfile, b: AccountProfile) -> bool {
    &&& a.name@ == b.name@
    &&& a.city@ == b.city@
    &&& a.crafting_lines@ == b.crafting_lines@
    &&& a.use_focus == b.use_focus
    &&& a.crafting_fee_pct_bits == b.crafting_fee_pct_bits
}

fn copy_account(a: &AccountProfile) -> (r: AccountProfile)
    ensures
        same_account(r, *a),
{
    let lines = a.crafting_lines.clone();
    assert(lines@ =~= a.crafting_lines@);
    AccountProfile {
        name: a.name.clone(),
        city: a.city.clone(),
        crafting_lines: lines,
        use_focus: a.use_focus,
        crafting_fee_pct_bits: a.crafting_fee_pct_bits,
    }
}

/// The account a recommendation for a city uses: the first account of that
/// city (ignoring ASCII case), else the first account, else the default one.
pub fn select_account(accounts: &Vec<AccountProfile>, city: &str) -> (r: AccountProfile)
    ensures
        (exists|i: int| 0 <= i < accounts.len() && eq_ignore_ascii_case_spec(accounts@[i].city@, city@))
            ==> exists|i: int|
            0 <= i < accounts.len() && eq_ignore_ascii_case_spec(accounts@[i].city@, city@) && same_account(r, accounts@[i]) && forall|k: int|
                0 <= k < i ==> !eq_ignore_ascii_case_spec(accounts@[k].city@, city@),
        (forall|i: int| 0 <= i < accounts.len() ==> !eq_ignore_ascii_case_spec(accounts@[i].city@, city@))
            && accounts.len() > 0 ==> same_account(r, accounts@[0]),
        accounts.len() == 0 ==> crate::settings::is_default_account(
            r,
            "Account 1"@,
            "Lymhurst"@,
            crate::settings::ItemCategory::Sword,
        ),
{
    let mut i: usize = 0;
    while i < accounts.len()
        invariant
            i <= accounts.len(),
            forall|k: int| 0 <= k < i ==> !eq_ignore_ascii_case_spec(accounts@[k].city@, city@),
        decreases accounts.len() - i,
    {
        if eq_ignore_ascii_case(accounts[i].city.as_str(), city) {
            return copy_account(&accounts[i]);
        }
        i += 1;
    }
    if accounts.len() > 0 {
        copy_account(&accounts[0])
    } else {
        AccountProfile::default()
    }
}

/// The account a plan request names: the first account with exactly that name.
pub fn find_account(accounts: &Vec<AccountProfile>, name: &str) -> (r: Option<AccountProfile>)
    ensures
        r is None <==> forall|i: int| 0 <= i < accounts.len() ==> accounts@[i].name@ != name@,
        r matches Some(a) ==> exists|i: int|
            0 <= i < accounts.len() && accounts@[i].name@ == name@ && same_account(a, accounts@[i]) && forall|k: int|
                0 <= k < i ==> accounts@[k].name@ != name@,
{
    let mut i: usize = 0;
    while i < accounts.len()
        invariant
            i <= accounts.len(),
            forall|k: int| 0 <= k < i ==> accounts@[k].name@ != name@,
        decreases accounts.len() - i,
    {
        if str_eq(accounts[i].name.as_str(), name) {
            return Some(copy_account(&accounts[i]));
        }
        i += 1;
    }
    None
}

/// The message of a plan request whose account is not configured.
pub fn account_not_found_message(name: &str) -> (r: String)
    ensures
        r@ == "Account '"@ + name@ + "' not found in settings"@,
{
    let mut m = "Account '".to_string();
    m.append(name);
    m.append("' not found in settings");
    m
}

/// The HTTP status answered for a refused séance request: 400 for a bad
/// request, 404 for an unknown session.
pub fn seance_error_status(e: SeanceError) -> (r: u16)
    ensures
        e == SeanceError::SessionNotFound ==> r == 404,
        e != SeanceError::SessionNotFound ==> r == 400,
{
    match e {
        SeanceError::InvalidSplitType | SeanceError::NoPlayers | SeanceError::InvalidWeight
        | SeanceError::InsufficientBalance => 400,
        SeanceError::SessionNotFound => 404,
    }
}

} // verus!
