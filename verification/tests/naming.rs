use tradejournal::number::Number;
use tradejournal::records::{Account, Profile, Trade};
use tradejournal::schema::Table;

fn text(value: &str) -> String {
    String::from(value)
}

fn number(value: f64) -> Number {
    Number::from_text(serde_json::to_string(&value).unwrap()).unwrap()
}

fn snake_case(key: &str) -> String {
    let mut name = String::new();
    for c in key.chars() {
        if c.is_ascii_uppercase() {
            name.push('_');
            name.push(c.to_ascii_lowercase());
        } else {
            name.push(c);
        }
    }
    name
}

/// The keys of the object in the order in which they are written. No value
/// of the records below holds a quote or a colon.
fn keys(json: &str) -> Vec<String> {
    let inner = &json[1..json.len() - 1];
    inner
        .split(',')
        .map(|member| {
            let key = member.split(':').next().unwrap();
            String::from(&key[1..key.len() - 1])
        })
        .collect()
}

fn columns(table: &Table) -> Vec<String> {
    table.columns.iter().map(|column| text(column.name)).collect()
}

#[test]
fn the_members_of_a_profile_are_the_columns_behind_the_key() {
    let profile = Profile {
        name: text("Ada"),
        email: None,
        experience: text("advanced"),
        currency: text("USD"),
        timezone: text("UTC"),
    };
    let keys = keys(&profile.to_json().unwrap());
    assert_eq!(keys, vec!["name", "email", "experience", "currency", "timezone"]);
    let names: Vec<String> = keys.iter().map(|key| snake_case(key)).collect();
    assert_eq!(names, columns(&Table::profile())[1..]);
}

#[test]
fn the_members_of_an_account_are_the_columns() {
    let account = Account {
        id: None,
        name: text("Demo"),
        account_type: text("forex"),
        initial_balance: number(1000.0),
        current_balance: number(1000.0),
        broker: text("X"),
        leverage: text("100"),
        instruments: None,
    };
    let keys = keys(&account.to_json().unwrap());
    assert_eq!(
        keys,
        vec![
            "id",
            "name",
            "type",
            "initialBalance",
            "currentBalance",
            "broker",
            "leverage",
            "instruments"
        ]
    );
    let names: Vec<String> = keys.iter().map(|key| snake_case(key)).collect();
    assert_eq!(names, columns(&Table::accounts()));
}

#[test]
fn the_members_of_a_trade_are_the_columns() {
    let trade = Trade {
        id: None,
        account_id: 1,
        symbol: text("EURUSD"),
        trade_type: text("buy"),
        entry_price: number(1.0),
        exit_price: None,
        take_profit: number(1.0),
        stop_loss: number(1.0),
        lot_size: number(1.0),
        volume: number(1.0),
        profit: number(1.0),
        commission: number(1.0),
        rr_ratio: None,
        strategy: None,
        session: None,
        duration: None,
        date: text("2024-01-01"),
    };
    let keys = keys(&trade.to_json().unwrap());
    assert_eq!(
        keys,
        vec![
            "id",
            "accountId",
            "symbol",
            "type",
            "entryPrice",
            "exitPrice",
            "takeProfit",
            "stopLoss",
            "lotSize",
            "volume",
            "profit",
            "commission",
            "rrRatio",
            "strategy",
            "session",
            "duration",
            "date"
        ]
    );
    let names: Vec<String> = keys.iter().map(|key| snake_case(key)).collect();
    assert_eq!(names, columns(&Table::trades()));
}
