use algotrade::broker::{read_account, read_bar_close, read_order, read_orders, read_position, read_positions, read_quote_price};
use algotrade::json::{read_amount, read_number, read_optional_text, read_text, read_text_or_empty};
use serde_json::Value;

fn json(text: &str) -> Value {
    serde_json::from_str(text).unwrap()
}

#[test]
fn reads_text_members() {
    let v = json(r#"{"a":"x","b":7,"c":null,"d":""}"#);
    assert_eq!(read_text(&v, "a"), Some("x".to_string()));
    assert_eq!(read_text(&v, "d"), Some(String::new()));
    assert_eq!(read_text(&v, "b"), None);
    assert_eq!(read_text(&v, "c"), None);
    assert_eq!(read_text(&v, "missing"), None);
    assert_eq!(read_text(&json(r#"["a"]"#), "a"), None);
    assert_eq!(read_text(&json(r#""a""#), "a"), None);
}

#[test]
fn reads_text_members_that_may_be_missing() {
    let v = json(r#"{"a":"x","b":7,"c":null}"#);
    assert_eq!(read_text_or_empty(&v, "a"), Some("x".to_string()));
    assert_eq!(read_text_or_empty(&v, "missing"), Some(String::new()));
    assert_eq!(read_text_or_empty(&v, "b"), None);
    assert_eq!(read_text_or_empty(&v, "c"), None);
}

#[test]
fn reads_text_members_that_may_be_missing_or_null() {
    let v = json(r#"{"a":"x","b":7,"c":null}"#);
    assert_eq!(read_optional_text(&v, "a"), Some(Some("x".to_string())));
    assert_eq!(read_optional_text(&v, "missing"), Some(None));
    assert_eq!(read_optional_text(&v, "c"), Some(None));
    assert_eq!(read_optional_text(&v, "b"), None);
}

#[test]
fn reads_amounts_written_as_text() {
    let v = json(r#"{"a":"12.5","b":12.5,"c":"twelve","d":"-0.000001"}"#);
    assert_eq!(read_amount(&v, "a").map(|d| d.micros()), Some(12_500_000));
    assert_eq!(read_amount(&v, "d").map(|d| d.micros()), Some(-1));
    assert_eq!(read_amount(&v, "b"), None);
    assert_eq!(read_amount(&v, "c"), None);
    assert_eq!(read_amount(&v, "missing"), None);
}

#[test]
fn reads_numbers() {
    let micros = |text: &str| read_number(&json(text)).map(|d| d.micros());
    assert_eq!(micros("12.5"), Some(12_500_000));
    assert_eq!(micros("12"), Some(12_000_000));
    assert_eq!(micros("-3"), Some(-3_000_000));
    assert_eq!(micros("0.1"), Some(100_000));
    assert_eq!(micros("1e2"), Some(100_000_000));
    assert_eq!(micros("2.5e-3"), Some(2_500));
    assert_eq!(micros("1e-7"), Some(0));
    assert_eq!(micros("0.30000000000000004"), Some(300_000));
    assert_eq!(micros("18446744073709551615"), None);
    assert_eq!(micros("1e300"), None);
    assert_eq!(micros(r#""12.5""#), None);
    assert_eq!(micros("null"), None);
    assert_eq!(micros("true"), None);
    assert_eq!(micros("[1]"), None);
}

#[test]
fn reads_records() {
    let account = json(r#"{"status":"ACTIVE","buying_power":"1","equity":"2","cash":"3","portfolio_value":"4"}"#);
    let a = read_account(&account).unwrap();
    assert_eq!((a.buying_power.micros(), a.equity.micros(), a.cash.micros(), a.portfolio_value.micros()), (1_000_000, 2_000_000, 3_000_000, 4_000_000));
    assert!(read_account(&json("{}")).is_none());
    let position = r#"{"symbol":"KOLD","qty":"10","market_value":"1000","avg_entry_price":"95.5","unrealized_pl":"1","unrealized_plpc":"0.1"}"#;
    assert_eq!(read_position(&json(position)).unwrap().symbol, "KOLD");
    assert!(read_position(&json(r#"{"symbol":"KOLD"}"#)).is_none());
    assert_eq!(read_positions(&json(&format!("[{},{}]", position, position))).unwrap().len(), 2);
    assert!(read_positions(&json(position)).is_none());
    let order = r#"{"symbol":"BOIL","qty":"10","side":"buy","type":"market","status":"new"}"#;
    assert_eq!(read_order(&json(order)).unwrap().qty, "10");
    assert!(read_order(&json("[]")).is_none());
    assert_eq!(read_orders(&json(&format!("[{}]", order))).unwrap().len(), 1);
    assert!(read_orders(&json(&format!("[{},1]", order))).is_none());
}

#[test]
fn reads_prices() {
    assert_eq!(read_bar_close(&json(r#"{"bar":{"c":25.125}}"#)).map(|d| d.micros()), Some(25_125_000));
    assert_eq!(read_bar_close(&json(r#"{"bar":{"o":25.125}}"#)), None);
    assert_eq!(read_quote_price(&json(r#"{"quote":{"ap":2,"bp":1.5}}"#)).map(|d| d.micros()), Some(1_500_000));
    assert_eq!(read_quote_price(&json(r#"{"quote":{"p":3}}"#)).map(|d| d.micros()), Some(3_000_000));
    assert_eq!(read_quote_price(&json(r#"{"quote":{"bp":true,"ap":2}}"#)), None);
    assert_eq!(read_quote_price(&json(r#"{"bp":1}"#)), None);
}
