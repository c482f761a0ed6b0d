//! Séance: loot sessions, how a session's loot is split among players, and
//! the players' wallets.

use vstd::prelude::*;
use crate::text::{str_eq, to_lowercase, unicode_lowercase};

verus! {

broadcast use vstd::string::group_string_axioms;

/// Why a séance request was refused.
#[derive(Debug, Clone, Copy, PartialEq, Eq, Structural)]
pub enum SeanceError {
    InvalidSplitType,
    NoPlayers,
    InvalidWeight,
    SessionNotFound,
    InsufficientBalance,
}

impl SeanceError {
    /// The message shown for the error.
    pub fn message(&self) -> (r: String)
        ensures
            r@ == match *self {
                SeanceError::InvalidSplitType => "invalid split type"@,
                SeanceError::NoPlayers => "no players provided"@,
                SeanceError::InvalidWeight => "invalid player weight"@,
                SeanceError::SessionNotFound => "session not found"@,
                SeanceError::InsufficientBalance => "insufficient wallet balance"@,
            },
    {
        match self {
            SeanceError::InvalidSplitType => "invalid split type".to_string(),
            SeanceError::NoPlayers => "no players provided".to_string(),
            SeanceError::InvalidWeight => "invalid player weight".to_string(),
            SeanceError::SessionNotFound => "session not found".to_string(),
            SeanceError::InsufficientBalance => "insufficient wallet balance".to_string(),
        }
    }
}

/// A new loot session.
#[derive(Debug, Clone)]
pub struct CreateSessionRequest {
    pub party_size: i64,
    pub total_loot_value: i64,
    pub split_type: String,
    pub notes: Option<String>,
}

/// A stored loot session.
#[derive(Debug, Clone)]
pub struct CreateSessionResponse {
    pub id: i64,
    pub created_at: i64,
    pub party_size: i64,
    pub total_loot_value: i64,
    pub split_type: String,
    pub notes: Option<String>,
}

/// A payment out of a player's wallet.
#[derive(Debug, Clone)]
pub struct WithdrawalRequest {
    pub player_name: String,
    pub amount: i64,
    pub reason: String,
    pub notes: Option<String>,
}

/// A player's wallet balance.
#[derive(Debug, Clone)]
pub struct WalletResponse {
    pub player_name: String,
    pub balance: i64,
}

/// A regear payment from the guild fund.
#[derive(Debug, Clone)]
pub struct RegearRequest {
    pub amount: i64,
    pub reason: String,
    pub notes: Option<String>,
}

/// The regear fund: its total and the latest payments.
#[derive(Debug, Clone)]
pub struct RegearSummary {
    pub balance: i64,
    pub recent: Vec<RegearEntry>,
}

/// One regear payment.
#[derive(Debug, Clone)]
pub struct RegearEntry {
    pub id: i64,
    pub amount: i64,
    pub reason: String,
    pub notes: Option<String>,
    pub created_at: i64,
}

/// The split types a session accepts, in their normalized (lower-case) form.
pub open spec fn is_split_type(s: Seq<char>) -> bool {
    s == "equal"@ || s == "weighted"@
}

/// Normalizes a split type: it is accepted, lower-cased, when its lower-case
/// form is `equal` or `weighted`.
pub fn parse_split_type(value: &str) -> (r: Result<String, SeanceError>)
    ensures
        r is Ok <==> is_split_type(unicode_lowercase(value@)),
        r matches Ok(s) ==> s@ == unicode_lowercase(value@),
        r matches Err(e) ==> e == SeanceError::InvalidSplitType,
{
    split_type_of_lowercase(to_lowercase(value))
}

/// Accepts a lower-cased split type when it is `equal` or `weighted`.
pub fn split_type_of_lowercase(lower: String) -> (r: Result<String, SeanceError>)
    ensures
        r is Ok <==> is_split_type(lower@),
        r matches Ok(s) ==> s@ == lower@,
        r matches Err(e) ==> e == SeanceError::InvalidSplitType,
{
    if str_eq(lower.as_str(), "equal") || str_eq(lower.as_str(), "weighted") {
        Ok(lower)
    } else {
        Err(SeanceError::InvalidSplitType)
    }
}

/// Sum of a sequence of amounts.
pub open spec fn sum_amounts(s: Seq<i64>) -> int
    decreases s.len(),
{
    if s.len() == 0 {
        0
    } else {
        sum_amounts(s.drop_last()) + s.last()
    }
}

/// Every remainder on the way stays within `i64`: `total` minus each prefix
/// sum of the computed shares.
pub open spec fn remainders_fit(total: int, computed: Seq<i64>) -> bool {
    forall|k: int|
        0 <= k <= computed.len() ==> i64::MIN <= #[trigger] (total - sum_amounts(computed.take(k)))
            <= i64::MAX
}

/// Shares of a split among `computed.len() + 1` players: every player but the
/// last gets the amount computed for them, the last gets what remains of the
/// total.
pub fn assign_shares(total_loot_value: i64, computed: &Vec<i64>) -> (shares: Vec<i64>)
    requires
        remainders_fit(total_loot_value as int, computed@),
    ensures
        shares.len() == computed.len() + 1,
        forall|i: int| 0 <= i < computed.len() ==> shares@[i] == computed@[i],
        shares@.last() == total_loot_value - sum_amounts(computed@),
        sum_amounts(shares@) == total_loot_value,
{
    let mut shares: Vec<i64> = Vec::new();
    let mut remaining: i64 = total_loot_value;
    let mut i: usize = 0;
    while i < computed.len()
        invariant
            i <= computed.len(),
            remainders_fit(total_loot_value as int, computed@),
            shares@ == computed@.take(i as int),
            remaining == total_loot_value - sum_amounts(computed@.take(i as int)),
        decreases computed.len() - i,
    {
        let calc = computed[i];
        assert(computed@.take(i + 1).drop_last() =~= computed@.take(i as int));
        assert(total_loot_value - sum_amounts(computed@.take(i + 1)) == remaining - calc);
        assert(i64::MIN <= total_loot_value - sum_amounts(computed@.take(i + 1)) <= i64::MAX);
        remaining = remaining - calc;
        shares.push(calc);
        i += 1;
        assert(shares@ =~= computed@.take(i as int));
    }
    assert(computed@.take(computed.len() as int) =~= computed@);
    let ghost before = shares@;
    shares.push(remaining);
    assert(shares@.drop_last() =~= before);
    shares
}

/// A withdrawal is refused when it exceeds the wallet's balance.
pub fn check_withdrawal(balance: i64, amount: i64) -> (r: Result<(), SeanceError>)
    ensures
        r is Ok <==> amount <= balance,
        r matches Err(e) ==> e == SeanceError::InsufficientBalance,
{
    if balance < amount {
        Err(SeanceError::InsufficientBalance)
    } else {
        Ok(())
    }
}

/// The wallet of a player: the stored one, or an empty wallet under the
/// player's name when none is stored.
pub fn wallet_or_empty(player: &str, stored: Option<WalletResponse>) -> (r: WalletResponse)
    ensures
        stored matches Some(w) ==> r.player_name@ == w.player_name@ && r.balance == w.balance,
        stored is None ==> r.player_name@ == player@ && r.balance == 0,
{
    match stored {
        Some(w) => w,
        None => WalletResponse { player_name: player.to_string(), balance: 0 },
    }
}

} // verus!
