//! The commands that the interface invokes.
//!
//! The interface reads and writes the database itself, through the SQL plugin.
//! The commands here touch no storage: a `save` command answers with the JSON
//! text of what it was given, and a `get` command answers that there is
//! nothing.

use crate::records::{Account, Profile, Trade};
use vstd::prelude::*;

verus! {

/// Answers with the JSON text of the profile. Nothing is stored.
pub fn save_profile(profile: Profile) -> (r: Result<String, String>)
    ensures
        r is Ok,
        r->Ok_0@ == profile@.json(),
{
    profile.to_json()
}

/// Answers that there is no profile.
pub fn get_profile() -> (r: Result<Option<Profile>, String>)
    ensures
        r is Ok,
        r->Ok_0 is None,
{
    Ok(None)
}

/// Answers with the JSON text of the account. Nothing is stored.
pub fn save_account(account: Account) -> (r: Result<String, String>)
    ensures
        r is Ok,
        r->Ok_0@ == account@.json(),
        account@.wf(),
{
    account.to_json()
}

/// Answers that there are no accounts.
pub fn get_accounts() -> (r: Result<Vec<Account>, String>)
    ensures
        r is Ok,
        r->Ok_0@ == Seq::<Account>::empty(),
{
    let accounts: Vec<Account> = Vec::new();
    assert(accounts@ =~= Seq::<Account>::empty());
    Ok(accounts)
}

/// Answers with the JSON text of the trade. Nothing is stored.
pub fn save_trade(trade: Trade) -> (r: Result<String, String>)
    ensures
        r is Ok,
        r->Ok_0@ == trade@.json(),
        trade@.wf(),
{
    trade.to_json()
}

/// Answers that the account has no trades, whichever account it is.
pub fn get_trades(account_id: i64) -> (r: Result<Vec<Trade>, String>)
    ensures
        r is Ok,
        r->Ok_0@ == Seq::<Trade>::empty(),
{
    let trades: Vec<Trade> = Vec::new();
    assert(trades@ =~= Seq::<Trade>::empty());
    Ok(trades)
}

} // verus!
