use tradejournal::json::ObjectWriter;
use tradejournal::number::Number;
use tradejournal::records::{Account, Profile, Trade};

fn text(value: &str) -> String {
    String::from(value)
}

fn number(value: f64) -> Number {
    Number::from_text(serde_json::to_string(&value).unwrap()).unwrap()
}

fn escape(c: char) -> String {
    match c {
        '"' => text("\\\""),
        '\\' => text("\\\\"),
        '\u{8}' => text("\\b"),
        '\t' => text("\\t"),
        '\n' => text("\\n"),
        '\u{c}' => text("\\f"),
        '\r' => text("\\r"),
        c if (c as u32) < 0x20 => format!("\\u00{:02x}", c as u32),
        c => c.to_string(),
    }
}

fn named(name: &str) -> Profile {
    Profile {
        name: text(name),
        email: None,
        experience: text("e"),
        currency: text("c"),
        timezone: text("t"),
    }
}

fn name_member(name: &str) -> String {
    let json = named(name).to_json().unwrap();
    let rest = "\",\"email\":null,\"experience\":\"e\",\"currency\":\"c\",\"timezone\":\"t\"}";
    assert!(json.starts_with("{\"name\":\""));
    assert!(json.ends_with(rest));
    String::from(&json[9..json.len() - rest.len()])
}

fn account(id: Option<i64>, balance: f64) -> Account {
    Account {
        id,
        name: text("Demo"),
        account_type: text("forex"),
        initial_balance: number(balance),
        current_balance: number(balance),
        broker: text("X"),
        leverage: text("1:100"),
        instruments: None,
    }
}

fn trade(exit_price: Option<f64>) -> Trade {
    Trade {
        id: None,
        account_id: 1,
        symbol: text("EURUSD"),
        trade_type: text("sell"),
        entry_price: number(1.1),
        exit_price: exit_price.map(number),
        take_profit: number(1.0),
        stop_loss: number(1.2),
        lot_size: number(1.0),
        volume: number(100000.0),
        profit: number(0.0),
        commission: number(0.0),
        rr_ratio: None,
        strategy: None,
        session: None,
        duration: None,
        date: text("2024-01-01"),
    }
}

#[test]
fn an_empty_object() {
    assert_eq!(ObjectWriter::new().finish(), "{}");
}

#[test]
fn an_object_of_one_member() {
    let w = ObjectWriter::new().string("k", "v").unwrap();
    assert_eq!(w.finish(), "{\"k\":\"v\"}");
}

#[test]
fn an_object_of_every_kind_of_member() {
    let w = ObjectWriter::new();
    let w = w.string("s", "a b").unwrap();
    let w = w.optional_string("os", &Some(text("x"))).unwrap();
    let w = w.optional_string("on", &None).unwrap();
    let w = w.integer("i", -12).unwrap();
    let w = w.optional_integer("oi", Some(34)).unwrap();
    let w = w.optional_integer("oin", None).unwrap();
    let w = w.number("r", &number(2.5)).unwrap();
    let w = w.optional_number("or", &Some(number(1e-9))).unwrap();
    let w = w.optional_number("orn", &None).unwrap();
    assert_eq!(
        w.finish(),
        "{\"s\":\"a b\",\"os\":\"x\",\"on\":null,\"i\":-12,\"oi\":34,\"oin\":null,\"r\":2.5,\
         \"or\":1e-9,\"orn\":null}"
    );
}

#[test]
fn a_key_is_escaped_as_a_value_is() {
    let w = ObjectWriter::new().integer("a\"b\n", 1).unwrap();
    assert_eq!(w.finish(), "{\"a\\\"b\\n\":1}");
}

#[test]
fn every_character_below_u0300_is_written_as_json_writes_it() {
    for code in 0u32..0x300 {
        let c = char::from_u32(code).unwrap();
        assert_eq!(name_member(&c.to_string()), escape(c), "U+{:04X}", code);
    }
}

#[test]
fn characters_of_every_plane_stand_for_themselves() {
    for c in ['\u{7ff}', '\u{800}', '\u{2028}', '\u{d7ff}', '\u{e000}', '\u{feff}', '\u{ffff}'] {
        assert_eq!(name_member(&c.to_string()), c.to_string());
    }
    for c in ['\u{10000}', '\u{1f600}', '\u{10ffff}'] {
        assert_eq!(name_member(&c.to_string()), c.to_string());
    }
}

#[test]
fn a_string_is_written_character_by_character() {
    let name = "\u{0}a\"\\\u{1f}\u{7f}\u{e9}\t/\u{1f600}\r\n";
    let expected: String = name.chars().map(escape).collect();
    assert_eq!(name_member(name), expected);
    assert_eq!(expected, "\\u0000a\\\"\\\\\\u001f\u{7f}\u{e9}\\t/\u{1f600}\\r\\n");
}

#[test]
fn integers_are_written_in_decimal() {
    let cases: [(i64, &str); 12] = [
        (0, "0"),
        (1, "1"),
        (-1, "-1"),
        (9, "9"),
        (10, "10"),
        (-10, "-10"),
        (99, "99"),
        (100, "100"),
        (1234567890, "1234567890"),
        (-1000000, "-1000000"),
        (i64::MAX, "9223372036854775807"),
        (i64::MIN, "-9223372036854775808"),
    ];
    for (value, expected) in cases {
        let w = ObjectWriter::new().integer("n", value).unwrap();
        assert_eq!(w.finish(), format!("{{\"n\":{}}}", expected));
    }
}

#[test]
fn different_profiles_have_different_texts() {
    let texts: Vec<String> = ["a", "a\"", "a\\", "a\",\"email\":null", "", "A"]
        .iter()
        .map(|name| named(name).to_json().unwrap())
        .collect();
    for i in 0..texts.len() {
        for j in 0..texts.len() {
            assert_eq!(texts[i] == texts[j], i == j);
        }
    }
    let mut with_null_text = named("a");
    with_null_text.email = Some(text("null"));
    assert_ne!(with_null_text.to_json().unwrap(), named("a").to_json().unwrap());
}

#[test]
fn different_accounts_have_different_texts() {
    let texts: Vec<String> = vec![
        account(None, 1.0),
        account(Some(0), 1.0),
        account(Some(1), 1.0),
        account(Some(-1), 1.0),
        account(Some(10), 1.0),
        account(None, 1.5),
        account(None, f64::NAN),
    ]
    .into_iter()
    .map(|account| account.to_json().unwrap())
    .collect();
    for i in 0..texts.len() {
        for j in 0..texts.len() {
            assert_eq!(texts[i] == texts[j], i == j);
        }
    }
}

#[test]
fn an_exit_price_that_is_not_finite_reads_as_none() {
    let none = trade(None).to_json().unwrap();
    assert_eq!(trade(Some(f64::NAN)).to_json().unwrap(), none);
    assert_eq!(trade(Some(f64::INFINITY)).to_json().unwrap(), none);
    assert_ne!(trade(Some(0.0)).to_json().unwrap(), none);
    assert_ne!(trade(Some(1.0)).to_json().unwrap(), trade(Some(1.5)).to_json().unwrap());
}
