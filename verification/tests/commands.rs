use tradejournal::commands::{
    get_accounts, get_profile, get_trades, save_account, save_profile, save_trade,
};
use tradejournal::number::Number;
use tradejournal::records::{Account, Profile, Trade};

fn number(value: f64) -> Number {
    Number::from_text(serde_json::to_string(&value).unwrap()).unwrap()
}

fn text(value: &str) -> String {
    String::from(value)
}

fn demo_account() -> Account {
    Account {
        id: None,
        name: text("Demo"),
        account_type: text("forex"),
        initial_balance: number(1000.0),
        current_balance: number(1000.0),
        broker: text("X"),
        leverage: text("1:100"),
        instruments: None,
    }
}

fn sample_trade() -> Trade {
    Trade {
        id: Some(7),
        account_id: 3,
        symbol: text("EURUSD"),
        trade_type: text("buy"),
        entry_price: number(1.0852),
        exit_price: Some(number(1.0913)),
        take_profit: number(1.095),
        stop_loss: number(1.08),
        lot_size: number(0.5),
        volume: number(50000.0),
        profit: number(305.0),
        commission: number(-3.5),
        rr_ratio: Some(text("1:2")),
        strategy: Some(text("breakout")),
        session: Some(text("London")),
        duration: Some(text("2h 10m")),
        date: text("2024-03-05T09:30:00Z"),
    }
}

#[test]
fn save_account_echoes_the_demo_account() {
    let json = save_account(demo_account()).unwrap();
    assert_eq!(
        json,
        "{\"id\":null,\"name\":\"Demo\",\"type\":\"forex\",\"initialBalance\":1000.0,\
         \"currentBalance\":1000.0,\"broker\":\"X\",\"leverage\":\"1:100\",\"instruments\":null}"
    );
}

#[test]
fn save_account_reads_back_as_the_same_object() {
    let json = save_account(demo_account()).unwrap();
    let value: serde_json::Value = serde_json::from_str(&json).unwrap();
    let object = value.as_object().unwrap();
    assert_eq!(object.len(), 8);
    assert!(object["id"].is_null());
    assert_eq!(object["name"].as_str(), Some("Demo"));
    assert_eq!(object["type"].as_str(), Some("forex"));
    assert_eq!(object["initialBalance"].as_f64(), Some(1000.0));
    assert_eq!(object["currentBalance"].as_f64(), Some(1000.0));
    assert_eq!(object["broker"].as_str(), Some("X"));
    assert_eq!(object["leverage"].as_str(), Some("1:100"));
    assert!(object["instruments"].is_null());
}

#[test]
fn save_account_with_id_and_instruments() {
    let mut account = demo_account();
    account.id = Some(42);
    account.instruments = Some(text("EURUSD,GBPUSD"));
    account.current_balance = number(1250.75);
    let json = save_account(account).unwrap();
    assert_eq!(
        json,
        "{\"id\":42,\"name\":\"Demo\",\"type\":\"forex\",\"initialBalance\":1000.0,\
         \"currentBalance\":1250.75,\"broker\":\"X\",\"leverage\":\"1:100\",\
         \"instruments\":\"EURUSD,GBPUSD\"}"
    );
}

#[test]
fn save_account_writes_the_extreme_ids() {
    let mut account = demo_account();
    account.id = Some(i64::MIN);
    let json = save_account(account).unwrap();
    assert!(json.starts_with("{\"id\":-9223372036854775808,\"name\""));
    let mut account = demo_account();
    account.id = Some(i64::MAX);
    let json = save_account(account).unwrap();
    assert!(json.starts_with("{\"id\":9223372036854775807,\"name\""));
    let mut account = demo_account();
    account.id = Some(0);
    let json = save_account(account).unwrap();
    assert!(json.starts_with("{\"id\":0,\"name\""));
}

#[test]
fn save_account_writes_a_balance_that_is_not_finite_as_null() {
    let mut account = demo_account();
    account.initial_balance = number(f64::NAN);
    account.current_balance = number(f64::INFINITY);
    let json = save_account(account).unwrap();
    assert_eq!(
        json,
        "{\"id\":null,\"name\":\"Demo\",\"type\":\"forex\",\"initialBalance\":null,\
         \"currentBalance\":null,\"broker\":\"X\",\"leverage\":\"1:100\",\"instruments\":null}"
    );
}

#[test]
fn save_profile_echoes_the_profile() {
    let profile = Profile {
        name: text("Ada"),
        email: Some(text("ada@example.com")),
        experience: text("advanced"),
        currency: text("USD"),
        timezone: text("Europe/London"),
    };
    assert_eq!(
        save_profile(profile).unwrap(),
        "{\"name\":\"Ada\",\"email\":\"ada@example.com\",\"experience\":\"advanced\",\
         \"currency\":\"USD\",\"timezone\":\"Europe/London\"}"
    );
}

#[test]
fn save_profile_without_email_writes_null() {
    let profile = Profile {
        name: text("Ada"),
        email: None,
        experience: text("beginner"),
        currency: text("EUR"),
        timezone: text("UTC"),
    };
    assert_eq!(
        save_profile(profile).unwrap(),
        "{\"name\":\"Ada\",\"email\":null,\"experience\":\"beginner\",\"currency\":\"EUR\",\
         \"timezone\":\"UTC\"}"
    );
}

#[test]
fn save_profile_of_empty_strings() {
    let profile = Profile {
        name: text(""),
        email: Some(text("")),
        experience: text(""),
        currency: text(""),
        timezone: text(""),
    };
    assert_eq!(
        save_profile(profile).unwrap(),
        "{\"name\":\"\",\"email\":\"\",\"experience\":\"\",\"currency\":\"\",\"timezone\":\"\"}"
    );
}

#[test]
fn save_profile_escapes_quotes_and_control_characters() {
    let profile = Profile {
        name: text("a\"b\\c"),
        email: Some(text("\u{8}\t\n\u{c}\r")),
        experience: text("\u{0}\u{1}\u{b}\u{1f}"),
        currency: text("/\u{7f} "),
        timezone: text("Zürich \u{1F600}"),
    };
    assert_eq!(
        save_profile(profile).unwrap(),
        "{\"name\":\"a\\\"b\\\\c\",\"email\":\"\\b\\t\\n\\f\\r\",\
         \"experience\":\"\\u0000\\u0001\\u000b\\u001f\",\"currency\":\"/\u{7f} \",\
         \"timezone\":\"Zürich \u{1F600}\"}"
    );
}

#[test]
fn save_profile_reads_back_as_the_same_strings() {
    let name = "quote \" solidus \\ tab \t bell \u{7} end";
    let profile = Profile {
        name: text(name),
        email: None,
        experience: text("x"),
        currency: text("y"),
        timezone: text("z"),
    };
    let json = save_profile(profile).unwrap();
    let value: serde_json::Value = serde_json::from_str(&json).unwrap();
    assert_eq!(value["name"].as_str(), Some(name));
    assert!(value["email"].is_null());
}

#[test]
fn save_trade_echoes_the_trade() {
    assert_eq!(
        save_trade(sample_trade()).unwrap(),
        "{\"id\":7,\"accountId\":3,\"symbol\":\"EURUSD\",\"type\":\"buy\",\"entryPrice\":1.0852,\
         \"exitPrice\":1.0913,\"takeProfit\":1.095,\"stopLoss\":1.08,\"lotSize\":0.5,\
         \"volume\":50000.0,\"profit\":305.0,\"commission\":-3.5,\"rrRatio\":\"1:2\",\
         \"strategy\":\"breakout\",\"session\":\"London\",\"duration\":\"2h 10m\",\
         \"date\":\"2024-03-05T09:30:00Z\"}"
    );
}

#[test]
fn save_trade_writes_null_for_what_is_absent() {
    let mut trade = sample_trade();
    trade.id = None;
    trade.account_id = -1;
    trade.exit_price = None;
    trade.rr_ratio = None;
    trade.strategy = None;
    trade.session = None;
    trade.duration = None;
    trade.commission = number(0.0);
    assert_eq!(
        save_trade(trade).unwrap(),
        "{\"id\":null,\"accountId\":-1,\"symbol\":\"EURUSD\",\"type\":\"buy\",\
         \"entryPrice\":1.0852,\"exitPrice\":null,\"takeProfit\":1.095,\"stopLoss\":1.08,\
         \"lotSize\":0.5,\"volume\":50000.0,\"profit\":305.0,\"commission\":0.0,\
         \"rrRatio\":null,\"strategy\":null,\"session\":null,\"duration\":null,\
         \"date\":\"2024-03-05T09:30:00Z\"}"
    );
}

#[test]
fn save_trade_keeps_the_numbers_of_the_wire() {
    let mut trade = sample_trade();
    trade.entry_price = number(1e21);
    trade.take_profit = number(1.5e-7);
    trade.stop_loss = number(-0.0);
    let json = save_trade(trade).unwrap();
    let value: serde_json::Value = serde_json::from_str(&json).unwrap();
    assert_eq!(value["entryPrice"].as_f64(), Some(1e21));
    assert_eq!(value["takeProfit"].as_f64(), Some(1.5e-7));
    assert_eq!(value["stopLoss"].as_f64(), Some(0.0));
    assert_eq!(value["accountId"].as_i64(), Some(3));
    assert_eq!(value.as_object().unwrap().len(), 17);
}

#[test]
fn get_profile_finds_none() {
    assert!(matches!(get_profile(), Ok(None)));
}

#[test]
fn get_accounts_is_empty() {
    assert!(get_accounts().unwrap().is_empty());
}

#[test]
fn get_trades_is_empty_for_any_account() {
    assert!(get_trades(0).unwrap().is_empty());
    assert!(get_trades(1).unwrap().is_empty());
    assert!(get_trades(-5).unwrap().is_empty());
    assert!(get_trades(i64::MAX).unwrap().is_empty());
    assert!(get_trades(i64::MIN).unwrap().is_empty());
}
