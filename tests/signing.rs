use coinbase_feed::signing::{create_rest_signature, create_ws_signature, join_with_commas};
use coinbase_feed::text::{decimal_string, signed_decimal_string};

fn strings(items: &[&str]) -> Vec<String> {
    items.iter().map(|s| s.to_string()).collect()
}

#[test]
fn rest_signature_matches_known_hmac_vector() {
    // HMAC-SHA256 of "what do ya want for nothing?" under "Jefe".
    let sig = create_rest_signature("what do ya", " want ", "for ", "nothing?", b"Jefe");
    assert_eq!(sig, "5bdcc146bf60754e6a042426089575c75a003f089d2739839dec58b964ec3843");
}

#[test]
fn rest_signature_is_lowercase_hex_of_32_bytes() {
    let sig = create_rest_signature("1700000000", "GET", "/api/v3/brokerage/products/", "", b"secret");
    assert_eq!(sig.len(), 64);
    assert!(sig.chars().all(|c| c.is_ascii_digit() || ('a'..='f').contains(&c)));
}

#[test]
fn signatures_are_deterministic() {
    let a = create_rest_signature("1", "GET", "/p", "b", b"k");
    let b = create_rest_signature("1", "GET", "/p", "b", b"k");
    assert_eq!(a, b);
    let c = create_ws_signature("1".to_string(), "ticker".to_string(), strings(&["ETH-USD"]), b"k");
    let d = create_ws_signature("1".to_string(), "ticker".to_string(), strings(&["ETH-USD"]), b"k");
    assert_eq!(c, d);
}

#[test]
fn changing_one_field_changes_the_signature() {
    let base = create_rest_signature("1", "GET", "/p", "b", b"k");
    assert_ne!(base, create_rest_signature("2", "GET", "/p", "b", b"k"));
    assert_ne!(base, create_rest_signature("1", "POST", "/p", "b", b"k"));
    assert_ne!(base, create_rest_signature("1", "GET", "/q", "b", b"k"));
    assert_ne!(base, create_rest_signature("1", "GET", "/p", "c", b"k"));
    assert_ne!(base, create_rest_signature("1", "GET", "/p", "b", b"j"));
    let ws = create_ws_signature("1".to_string(), "ticker".to_string(), strings(&["A", "B"]), b"k");
    assert_ne!(ws, create_ws_signature("2".to_string(), "ticker".to_string(), strings(&["A", "B"]), b"k"));
    assert_ne!(ws, create_ws_signature("1".to_string(), "level2".to_string(), strings(&["A", "B"]), b"k"));
    assert_ne!(ws, create_ws_signature("1".to_string(), "ticker".to_string(), strings(&["B", "A"]), b"k"));
}

#[test]
fn subscription_signature_signs_timestamp_channel_instrument() {
    let ws = create_ws_signature("1700000000".to_string(), "ticker".to_string(), strings(&["ETH-USD"]), b"key");
    let direct = create_rest_signature("1700000000", "ticker", "ETH-USD", "", b"key");
    assert_eq!(ws, direct);
    assert_eq!(ws.len(), 64);
    let empty_key = create_ws_signature(String::new(), String::new(), Vec::new(), b"");
    assert_eq!(empty_key.len(), 64);
}

#[test]
fn subscription_signature_joins_instruments_with_commas() {
    let ws = create_ws_signature("5".to_string(), "ticker".to_string(), strings(&["A", "B", "C"]), b"key");
    let direct = create_rest_signature("5", "ticker", "A,B,C", "", b"key");
    assert_eq!(ws, direct);
}

#[test]
fn join_with_commas_cases() {
    assert_eq!(join_with_commas(&strings(&[])), "");
    assert_eq!(join_with_commas(&strings(&["ETH-USD"])), "ETH-USD");
    assert_eq!(join_with_commas(&strings(&["a", "b", "c"])), "a,b,c");
}

#[test]
fn decimal_text_of_integers() {
    assert_eq!(decimal_string(0), "0");
    assert_eq!(decimal_string(1700000000), "1700000000");
    assert_eq!(decimal_string(u64::MAX), "18446744073709551615");
    assert_eq!(signed_decimal_string(-5), "-5");
    assert_eq!(signed_decimal_string(i64::MIN), "-9223372036854775808");
    assert_eq!(signed_decimal_string(42), "42");
}
