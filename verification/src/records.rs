//! The three records of the journal and the JSON object that each of them is
//! on the wire.
//!
//! The wire names a member in camelCase where the database names the column in
//! snake_case, and calls the kind of an account or of a trade `type`. A member
//! that is absent travels as `null`.

use crate::json::{
    decimal, decimal_option, object_text, option_number, option_text, optional_text, quoted,
    quoted_option, Member, ObjectWriter,
};
use crate::number::{is_wire_number, Number};
use vstd::prelude::*;

verus! {

/// The trader's profile.
#[derive(Debug)]
pub struct Profile {
    pub name: String,
    pub email: Option<String>,
    pub experience: String,
    pub currency: String,
    pub timezone: String,
}

/// A profile as plain values.
pub struct ProfileView {
    pub name: Seq<char>,
    pub email: Option<Seq<char>>,
    pub experience: Seq<char>,
    pub currency: Seq<char>,
    pub timezone: Seq<char>,
}

impl View for Profile {
    type V = ProfileView;

    open spec fn view(&self) -> ProfileView {
        ProfileView {
            name: self.name@,
            email: option_text(self.email),
            experience: self.experience@,
            currency: self.currency@,
            timezone: self.timezone@,
        }
    }
}

impl ProfileView {
    /// The members of the profile's object, in the order of the wire.
    pub open spec fn members(self) -> Seq<Member> {
        seq![
            Member { key: "name"@, value: quoted(self.name) },
            Member { key: "email"@, value: optional_text(quoted_option(self.email)) },
            Member { key: "experience"@, value: quoted(self.experience) },
            Member { key: "currency"@, value: quoted(self.currency) },
            Member { key: "timezone"@, value: quoted(self.timezone) },
        ]
    }

    /// The profile's JSON text.
    pub open spec fn json(self) -> Seq<char> {
        object_text(self.members())
    }
}

impl Profile {
    /// The profile's JSON text.
    pub fn to_json(&self) -> (r: Result<String, String>)
        ensures
            r is Ok,
            r->Ok_0@ == self@.json(),
    {
        let w = ObjectWriter::new();
        let w = w.string("name", self.name.as_str())?;
        let w = w.optional_string("email", &self.email)?;
        let w = w.string("experience", self.experience.as_str())?;
        let w = w.string("currency", self.currency.as_str())?;
        let w = w.string("timezone", self.timezone.as_str())?;
        assert(w.members() =~= self@.members());
        Ok(w.finish())
    }
}

/// A trading account. The database assigns `id` when it stores the account:
/// one that was not stored yet has none.
#[derive(Debug)]
pub struct Account {
    pub id: Option<i64>,
    pub name: String,
    pub account_type: String,
    pub initial_balance: Number,
    pub current_balance: Number,
    pub broker: String,
    pub leverage: String,
    pub instruments: Option<String>,
}

/// An account as plain values: a number is its text on the wire.
pub struct AccountView {
    pub id: Option<i64>,
    pub name: Seq<char>,
    pub account_type: Seq<char>,
    pub initial_balance: Seq<char>,
    pub current_balance: Seq<char>,
    pub broker: Seq<char>,
    pub leverage: Seq<char>,
    pub instruments: Option<Seq<char>>,
}

impl View for Account {
    type V = AccountView;

    open spec fn view(&self) -> AccountView {
        AccountView {
            id: self.id,
            name: self.name@,
            account_type: self.account_type@,
            initial_balance: self.initial_balance@,
            current_balance: self.current_balance@,
            broker: self.broker@,
            leverage: self.leverage@,
            instruments: option_text(self.instruments),
        }
    }
}

impl AccountView {
    /// Each number is one that the wire can carry.
    pub open spec fn wf(self) -> bool {
        &&& is_wire_number(self.initial_balance)
        &&& is_wire_number(self.current_balance)
    }

    /// The members of the account's object, in the order of the wire.
    pub open spec fn members(self) -> Seq<Member> {
        seq![
            Member { key: "id"@, value: optional_text(decimal_option(self.id)) },
            Member { key: "name"@, value: quoted(self.name) },
            Member { key: "type"@, value: quoted(self.account_type) },
            Member { key: "initialBalance"@, value: self.initial_balance },
            Member { key: "currentBalance"@, value: self.current_balance },
            Member { key: "broker"@, value: quoted(self.broker) },
            Member { key: "leverage"@, value: quoted(self.leverage) },
            Member { key: "instruments"@, value: optional_text(quoted_option(self.instruments)) },
        ]
    }

    /// The account's JSON text.
    pub open spec fn json(self) -> Seq<char> {
        object_text(self.members())
    }
}

impl Account {
    /// The account's JSON text.
    pub fn to_json(&self) -> (r: Result<String, String>)
        ensures
            r is Ok,
            r->Ok_0@ == self@.json(),
            self@.wf(),
    {
        let w = ObjectWriter::new();
        let w = w.optional_integer("id", self.id)?;
        let w = w.string("name", self.name.as_str())?;
        let w = w.string("type", self.account_type.as_str())?;
        let w = w.number("initialBalance", &self.initial_balance)?;
        let w = w.number("currentBalance", &self.current_balance)?;
        let w = w.string("broker", self.broker.as_str())?;
        let w = w.string("leverage", self.leverage.as_str())?;
        let w = w.optional_string("instruments", &self.instruments)?;
        assert(w.members() =~= self@.members());
        Ok(w.finish())
    }
}

/// A trade on an account. The database assigns `id` when it stores the trade;
/// `account_id` is the id of the account that the trade belongs to.
#[derive(Debug)]
pub struct Trade {
    pub id: Option<i64>,
    pub account_id: i64,
    pub symbol: String,
    pub trade_type: String,
    pub entry_price: Number,
    pub exit_price: Option<Number>,
    pub take_profit: Number,
    pub stop_loss: Number,
    pub lot_size: Number,
    pub volume: Number,
    pub profit: Number,
    pub commission: Number,
    pub rr_ratio: Option<String>,
    pub strategy: Option<String>,
    pub session: Option<String>,
    pub duration: Option<String>,
    pub date: String,
}

/// A trade as plain values: a number is its text on the wire.
pub struct TradeView {
    pub id: Option<i64>,
    pub account_id: i64,
    pub symbol: Seq<char>,
    pub trade_type: Seq<char>,
    pub entry_price: Seq<char>,
    pub exit_price: Option<Seq<char>>,
    pub take_profit: Seq<char>,
    pub stop_loss: Seq<char>,
    pub lot_size: Seq<char>,
    pub volume: Seq<char>,
    pub profit: Seq<char>,
    pub commission: Seq<char>,
    pub rr_ratio: Option<Seq<char>>,
    pub strategy: Option<Seq<char>>,
    pub session: Option<Seq<char>>,
    pub duration: Option<Seq<char>>,
    pub date: Seq<char>,
}

impl View for Trade {
    type V = TradeView;

    open spec fn view(&self) -> TradeView {
        TradeView {
            id: self.id,
            account_id: self.account_id,
            symbol: self.symbol@,
            trade_type: self.trade_type@,
            entry_price: self.entry_price@,
            exit_price: option_number(self.exit_price),
            take_profit: self.take_profit@,
            stop_loss: self.stop_loss@,
            lot_size: self.lot_size@,
            volume: self.volume@,
            profit: self.profit@,
            commission: self.commission@,
            rr_ratio: option_text(self.rr_ratio),
            strategy: option_text(self.strategy),
            session: option_text(self.session),
            duration: option_text(self.duration),
            date: self.date@,
        }
    }
}

impl TradeView {
    /// Each number is one that the wire can carry.
    pub open spec fn wf(self) -> bool {
        &&& is_wire_number(self.entry_price)
        &&& self.exit_price matches Some(text) ==> is_wire_number(text)
        &&& is_wire_number(self.take_profit)
        &&& is_wire_number(self.stop_loss)
        &&& is_wire_number(self.lot_size)
        &&& is_wire_number(self.volume)
        &&& is_wire_number(self.profit)
        &&& is_wire_number(self.commission)
    }

    /// The members of the trade's object, in the order of the wire.
    pub open spec fn members(self) -> Seq<Member> {
        seq![
            Member { key: "id"@, value: optional_text(decimal_option(self.id)) },
            Member { key: "accountId"@, value: decimal(self.account_id as int) },
            Member { key: "symbol"@, value: quoted(self.symbol) },
            Member { key: "type"@, value: quoted(self.trade_type) },
            Member { key: "entryPrice"@, value: self.entry_price },
            Member { key: "exitPrice"@, value: optional_text(self.exit_price) },
            Member { key: "takeProfit"@, value: self.take_profit },
            Member { key: "stopLoss"@, value: self.stop_loss },
            Member { key: "lotSize"@, value: self.lot_size },
            Member { key: "volume"@, value: self.volume },
            Member { key: "profit"@, value: self.profit },
            Member { key: "commission"@, value: self.commission },
            Member { key: "rrRatio"@, value: optional_text(quoted_option(self.rr_ratio)) },
            Member { key: "strategy"@, value: optional_text(quoted_option(self.strategy)) },
            Member { key: "session"@, value: optional_text(quoted_option(self.session)) },
            Member { key: "duration"@, value: optional_text(quoted_option(self.duration)) },
            Member { key: "date"@, value: quoted(self.date) },
        ]
    }

    /// The trade's JSON text.
    pub open spec fn json(self) -> Seq<char> {
        object_text(self.members())
    }
}

impl Trade {
    /// The trade's JSON text.
    pub fn to_json(&self) -> (r: Result<String, String>)
        ensures
            r is Ok,
            r->Ok_0@ == self@.json(),
            self@.wf(),
    {
        let w = ObjectWriter::new();
        let w = w.optional_integer("id", self.id)?;
        let w = w.integer("accountId", self.account_id)?;
        let w = w.string("symbol", self.symbol.as_str())?;
        let w = w.string("type", self.trade_type.as_str())?;
        let w = w.number("entryPrice", &self.entry_price)?;
        let w = w.optional_number("exitPrice", &self.exit_price)?;
        let w = w.number("takeProfit", &self.take_profit)?;
        let w = w.number("stopLoss", &self.stop_loss)?;
        let w = w.number("lotSize", &self.lot_size)?;
        let w = w.number("volume", &self.volume)?;
        let w = w.number("profit", &self.profit)?;
        let w = w.number("commission", &self.commission)?;
        let w = w.optional_string("rrRatio", &self.rr_ratio)?;
        let w = w.optional_string("strategy", &self.strategy)?;
        let w = w.optional_string("session", &self.session)?;
        let w = w.optional_string("duration", &self.duration)?;
        let w = w.string("date", self.date.as_str())?;
        assert(w.members() =~= self@.members());
        Ok(w.finish())
    }
}

} // verus!
