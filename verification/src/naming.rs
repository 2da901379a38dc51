//! The names of the wire and the names of the database.
//!
//! The wire names the members of a record in camelCase, the database names
//! its columns in snake_case. Member for member and column for column they are
//! the same names: the members of an account and of a trade are the columns of
//! their tables, and the members of the profile are the columns of its table
//! behind the key, which the profile does not carry.

use crate::json::Member;
use crate::records::{AccountView, ProfileView, TradeView};
use crate::schema::{accounts_table, profile_table, trades_table, ColumnView, TableView};
use vstd::prelude::*;

verus! {

/// An upper-case letter of the Latin alphabet.
pub open spec fn is_upper(c: char) -> bool {
    'A' <= c <= 'Z'
}

/// The lower-case letter of an upper-case letter.
pub open spec fn lower(c: char) -> char {
    ((c as u8 + 32) as u8) as char
}

/// A camelCase name in snake_case: each upper-case letter becomes an
/// underscore and its lower-case letter.
pub open spec fn snake_case(key: Seq<char>) -> Seq<char>
    decreases key.len(),
{
    if key.len() == 0 {
        Seq::empty()
    } else if is_upper(key.last()) {
        snake_case(key.drop_last()) + seq!['_', lower(key.last())]
    } else {
        snake_case(key.drop_last()).push(key.last())
    }
}

/// The names of a table's columns, in order.
pub open spec fn column_names(t: TableView) -> Seq<Seq<char>> {
    t.columns.map_values(|c: ColumnView| c.name)
}

/// The names that the database has for the members, in order.
pub open spec fn member_columns(ms: Seq<Member>) -> Seq<Seq<char>> {
    ms.map_values(|m: Member| snake_case(m.key))
}

/// A name without an upper-case letter is its own snake_case.
proof fn lemma_one_word(key: Seq<char>)
    requires
        forall|i: int| 0 <= i < key.len() ==> !is_upper(#[trigger] key[i]),
    ensures
        snake_case(key) == key,
    decreases key.len(),
{
    if key.len() > 0 {
        lemma_one_word(key.drop_last());
        assert(key =~= key.drop_last().push(key.last()));
    }
}

/// The snake_case of a name whose one upper-case letter is at `i`: an
/// underscore and the lower-case letter stand in its place.
proof fn lemma_two_words(key: Seq<char>, i: int)
    requires
        0 <= i < key.len(),
        is_upper(key[i]),
        forall|j: int| 0 <= j < key.len() && j != i ==> !is_upper(#[trigger] key[j]),
    ensures
        snake_case(key) == key.take(i) + seq!['_', lower(key[i])] + key.skip(i + 1),
    decreases key.len(),
{
    let front = key.drop_last();
    if i == key.len() - 1 {
        lemma_one_word(front);
        assert(snake_case(key) =~= key.take(i) + seq!['_', lower(key[i])] + key.skip(i + 1));
    } else {
        lemma_two_words(front, i);
        assert(front.take(i) =~= key.take(i));
        assert(front.skip(i + 1).push(key.last()) =~= key.skip(i + 1));
        assert(snake_case(key) =~= key.take(i) + seq!['_', lower(key[i])] + key.skip(i + 1));
    }
}

/// The names of the members that are one word are the names of their columns.
proof fn lemma_one_word_names()
    ensures
        snake_case("id"@) == "id"@,
        snake_case("name"@) == "name"@,
        snake_case("type"@) == "type"@,
        snake_case("email"@) == "email"@,
        snake_case("experience"@) == "experience"@,
        snake_case("currency"@) == "currency"@,
        snake_case("timezone"@) == "timezone"@,
        snake_case("broker"@) == "broker"@,
        snake_case("leverage"@) == "leverage"@,
        snake_case("instruments"@) == "instruments"@,
        snake_case("symbol"@) == "symbol"@,
        snake_case("volume"@) == "volume"@,
        snake_case("profit"@) == "profit"@,
        snake_case("commission"@) == "commission"@,
        snake_case("strategy"@) == "strategy"@,
        snake_case("session"@) == "session"@,
        snake_case("duration"@) == "duration"@,
        snake_case("date"@) == "date"@,
{
    assert(snake_case("id"@) == "id"@) by {
        reveal_strlit("id");
        lemma_one_word("id"@);
    }
    assert(snake_case("name"@) == "name"@) by {
        reveal_strlit("name");
        lemma_one_word("name"@);
    }
    assert(snake_case("type"@) == "type"@) by {
        reveal_strlit("type");
        lemma_one_word("type"@);
    }
    assert(snake_case("email"@) == "email"@) by {
        reveal_strlit("email");
        lemma_one_word("email"@);
    }
    assert(snake_case("experience"@) == "experience"@) by {
        reveal_strlit("experience");
        lemma_one_word("experience"@);
    }
    assert(snake_case("currency"@) == "currency"@) by {
        reveal_strlit("currency");
        lemma_one_word("currency"@);
    }
    assert(snake_case("timezone"@) == "timezone"@) by {
        reveal_strlit("timezone");
        lemma_one_word("timezone"@);
    }
    assert(snake_case("broker"@) == "broker"@) by {
        reveal_strlit("broker");
        lemma_one_word("broker"@);
    }
    assert(snake_case("leverage"@) == "leverage"@) by {
        reveal_strlit("leverage");
        lemma_one_word("leverage"@);
    }
    assert(snake_case("instruments"@) == "instruments"@) by {
        reveal_strlit("instruments");
        lemma_one_word("instruments"@);
    }
    assert(snake_case("symbol"@) == "symbol"@) by {
        reveal_strlit("symbol");
        lemma_one_word("symbol"@);
    }
    assert(snake_case("volume"@) == "volume"@) by {
        reveal_strlit("volume");
        lemma_one_word("volume"@);
    }
    assert(snake_case("profit"@) == "profit"@) by {
        reveal_strlit("profit");
        lemma_one_word("profit"@);
    }
    assert(snake_case("commission"@) == "commission"@) by {
        reveal_strlit("commission");
        lemma_one_word("commission"@);
    }
    assert(snake_case("strategy"@) == "strategy"@) by {
        reveal_strlit("strategy");
        lemma_one_word("strategy"@);
    }
    assert(snake_case("session"@) == "session"@) by {
        reveal_strlit("session");
        lemma_one_word("session"@);
    }
    assert(snake_case("duration"@) == "duration"@) by {
        reveal_strlit("duration");
        lemma_one_word("duration"@);
    }
    assert(snake_case("date"@) == "date"@) by {
        reveal_strlit("date");
        lemma_one_word("date"@);
    }
}

/// The names of the members that are two words are the names of their
/// columns.
proof fn lemma_two_word_names()
    ensures
        snake_case("initialBalance"@) == "initial_balance"@,
        snake_case("currentBalance"@) == "current_balance"@,
        snake_case("accountId"@) == "account_id"@,
        snake_case("entryPrice"@) == "entry_price"@,
        snake_case("exitPrice"@) == "exit_price"@,
        snake_case("takeProfit"@) == "take_profit"@,
        snake_case("stopLoss"@) == "stop_loss"@,
        snake_case("lotSize"@) == "lot_size"@,
        snake_case("rrRatio"@) == "rr_ratio"@,
{
    assert(snake_case("initialBalance"@) == "initial_balance"@) by {
        reveal_strlit("initialBalance");
        reveal_strlit("initial_balance");
        lemma_two_words("initialBalance"@, 7);
        assert("initial_balance"@ =~= "initialBalance"@.take(7) + seq!['_', 'b']
            + "initialBalance"@.skip(8));
    }
    assert(snake_case("currentBalance"@) == "current_balance"@) by {
        reveal_strlit("currentBalance");
        reveal_strlit("current_balance");
        lemma_two_words("currentBalance"@, 7);
        assert("current_balance"@ =~= "currentBalance"@.take(7) + seq!['_', 'b']
            + "currentBalance"@.skip(8));
    }
    assert(snake_case("accountId"@) == "account_id"@) by {
        reveal_strlit("accountId");
        reveal_strlit("account_id");
        lemma_two_words("accountId"@, 7);
        assert("account_id"@ =~= "accountId"@.take(7) + seq!['_', 'i'] + "accountId"@.skip(8));
    }
    assert(snake_case("entryPrice"@) == "entry_price"@) by {
        reveal_strlit("entryPrice");
        reveal_strlit("entry_price");
        lemma_two_words("entryPrice"@, 5);
        assert("entry_price"@ =~= "entryPrice"@.take(5) + seq!['_', 'p'] + "entryPrice"@.skip(6));
    }
    assert(snake_case("exitPrice"@) == "exit_price"@) by {
        reveal_strlit("exitPrice");
        reveal_strlit("exit_price");
        lemma_two_words("exitPrice"@, 4);
        assert("exit_price"@ =~= "exitPrice"@.take(4) + seq!['_', 'p'] + "exitPrice"@.skip(5));
    }
    assert(snake_case("takeProfit"@) == "take_profit"@) by {
        reveal_strlit("takeProfit");
        reveal_strlit("take_profit");
        lemma_two_words("takeProfit"@, 4);
        assert("take_profit"@ =~= "takeProfit"@.take(4) + seq!['_', 'p'] + "takeProfit"@.skip(5));
    }
    assert(snake_case("stopLoss"@) == "stop_loss"@) by {
        reveal_strlit("stopLoss");
        reveal_strlit("stop_loss");
        lemma_two_words("stopLoss"@, 4);
        assert("stop_loss"@ =~= "stopLoss"@.take(4) + seq!['_', 'l'] + "stopLoss"@.skip(5));
    }
    assert(snake_case("lotSize"@) == "lot_size"@) by {
        reveal_strlit("lotSize");
        reveal_strlit("lot_size");
        lemma_two_words("lotSize"@, 3);
        assert("lot_size"@ =~= "lotSize"@.take(3) + seq!['_', 's'] + "lotSize"@.skip(4));
    }
    assert(snake_case("rrRatio"@) == "rr_ratio"@) by {
        reveal_strlit("rrRatio");
        reveal_strlit("rr_ratio");
        lemma_two_words("rrRatio"@, 2);
        assert("rr_ratio"@ =~= "rrRatio"@.take(2) + seq!['_', 'r'] + "rrRatio"@.skip(3));
    }
}

/// The members of a profile are, in snake_case and in order, the columns of
/// the table `profile` behind its key.
pub proof fn lemma_profile_columns(p: ProfileView)
    ensures
        member_columns(p.members()) == column_names(profile_table()).skip(1),
{
    lemma_one_word_names();
    assert(member_columns(p.members()) =~= column_names(profile_table()).skip(1));
}

/// The members of an account are, in snake_case and in order, the columns of
/// the table `accounts`.
pub proof fn lemma_account_columns(a: AccountView)
    ensures
        member_columns(a.members()) == column_names(accounts_table()),
{
    lemma_one_word_names();
    lemma_two_word_names();
    assert(member_columns(a.members()) =~= column_names(accounts_table()));
}

/// The members of a trade are, in snake_case and in order, the columns of the
/// table `trades`.
pub proof fn lemma_trade_columns(t: TradeView)
    ensures
        member_columns(t.members()) == column_names(trades_table()),
{
    lemma_one_word_names();
    lemma_two_word_names();
    assert(member_columns(t.members()) =~= column_names(trades_table()));
}

} // verus!
