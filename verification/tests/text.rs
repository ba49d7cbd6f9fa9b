use algotrade::text::{contains, is_blank, lowercase_is, same_text};

#[test]
fn finds_a_needle_anywhere() {
    assert!(contains("a wash trade here", "wash trade"));
    assert!(contains("wash trade", "wash trade"));
    assert!(contains("xwash trade", "wash trade"));
    assert!(contains("wash tradex", "wash trade"));
    assert!(contains("404", "404"));
    assert!(contains("error 404 not found", "404"));
}

#[test]
fn finds_no_needle_that_is_not_there() {
    assert!(!contains("wash trad", "wash trade"));
    assert!(!contains("Wash Trade", "wash trade"));
    assert!(!contains("", "x"));
    assert!(!contains("40 4", "404"));
}

#[test]
fn the_empty_needle_is_everywhere() {
    assert!(contains("", ""));
    assert!(contains("abc", ""));
}

#[test]
fn finds_needles_among_other_alphabets() {
    assert!(contains("größe storm", "storm"));
    assert!(contains("größe", "ö"));
    assert!(!contains("große", "ö"));
}

#[test]
fn compares_texts() {
    assert!(same_text("sell", "sell"));
    assert!(!same_text("sell", "Sell"));
    assert!(!same_text("sell", "sel"));
    assert!(!same_text("", "a"));
    assert!(same_text("", ""));
}

#[test]
fn compares_in_lower_case() {
    assert!(lowercase_is("SELL", "sell"));
    assert!(lowercase_is("Sell", "sell"));
    assert!(lowercase_is("sell", "sell"));
    assert!(!lowercase_is("SELL", "SELL"));
    assert!(!lowercase_is("buy", "sell"));
    assert!(lowercase_is("ÄB", "äb"));
}

#[test]
fn knows_blank_text() {
    assert!(is_blank(""));
    assert!(is_blank("  \n\t "));
    assert!(!is_blank(" x "));
    assert!(!is_blank("{}"));
}
