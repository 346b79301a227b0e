use coinbase_feed::advanced_trade_rest_client::{decode_products_response, product_symbols, AdvancedTradeRESTClient};
use coinbase_feed::config::CoinbaseConfig;
use coinbase_feed::json::JsonValue;
use coinbase_feed::rest_client::{Client, ContentError, RequestError};
use coinbase_feed::signing::create_rest_signature;

const CATALOG: &str = r#"{"num_products":1,"products":[{"product_id":"BTC-USD","product_type":"SPOT","base_currency_id":"BTC","base_increment":"0.00000001","base_max_size":"2600","base_min_size":"0.000016","quote_currency_id":"USD","quote_increment":"0.01","quote_max_size":"50000000","quote_min_size":"1","status":"online","trading_disabled":false}]}"#;

fn config() -> CoinbaseConfig {
    CoinbaseConfig { api_key: "key".to_string(), api_secret: "secret".to_string() }
}

#[test]
fn unauthorized_is_auth_error() {
    assert!(matches!(Client::handler(401, ""), Err(RequestError::AuthError)));
}

#[test]
fn bad_request_with_body_is_remote_error() {
    match Client::handler(400, r#"{"code":1,"msg":"bad request"}"#) {
        Err(RequestError::RemoteError { code, message }) => {
            assert_eq!(code, 1);
            assert_eq!(message, "bad request");
        }
        other => panic!("unexpected outcome {:?}", other),
    }
}

#[test]
fn bad_request_without_structured_body_is_decode_error() {
    assert!(matches!(Client::handler(400, "oops"), Err(RequestError::DecodeError)));
    assert!(matches!(Client::handler(400, r#"{"code":70000,"msg":"x"}"#), Err(RequestError::DecodeError)));
}

#[test]
fn server_faults_are_transient() {
    assert!(matches!(Client::handler(500, ""), Err(RequestError::TransientError { status: 500 })));
    assert!(matches!(Client::handler(503, "{}"), Err(RequestError::TransientError { status: 503 })));
}

#[test]
fn other_status_is_unexpected() {
    assert!(matches!(Client::handler(404, "{}"), Err(RequestError::UnexpectedStatus { code: 404 })));
    assert!(matches!(Client::handler(201, "{}"), Err(RequestError::UnexpectedStatus { code: 201 })));
}

#[test]
fn success_parses_body() {
    assert!(matches!(Client::handler(200, "{}"), Ok(JsonValue::Object(_))));
    assert!(matches!(Client::handler(200, "<html>"), Err(RequestError::DecodeError)));
}

#[test]
fn content_error_text() {
    let e = ContentError { code: -5, msg: "denied".to_string() };
    assert_eq!(e.to_text(), "code: -5 \nmsg: denied");
}

#[test]
fn request_path_follows_dot_com() {
    let c = Client::new("https://api.coinbase.com/api/v3".to_string());
    assert_eq!(c.extract_request_path(), Some("/api/v3"));
    let bare = Client::new("https://api.coinbase.com".to_string());
    assert_eq!(bare.extract_request_path(), Some(""));
    let none = Client::new("http://localhost:8080/api".to_string());
    assert_eq!(none.extract_request_path(), None);
}

#[test]
fn request_url_appends_query() {
    let c = Client::new("https://h.com/api".to_string());
    assert_eq!(c.request_url("/x", None), "https://h.com/api/x");
    assert_eq!(c.request_url("/x", Some(String::new())), "https://h.com/api/x");
    assert_eq!(c.request_url("/x", Some("a=1".to_string())), "https://h.com/api/x?a=1");
}

#[test]
fn catalog_decodes_and_lists_symbols() {
    let products = decode_products_response(200, CATALOG).unwrap();
    assert_eq!(products.num_products, 1);
    assert_eq!(products.products[0].product_id, "BTC-USD");
    assert_eq!(products.products[0].quote_min_size, "1");
    assert!(!products.products[0].trading_disabled);
    assert_eq!(product_symbols(&products), vec!["BTC-USD".to_string()]);
}

#[test]
fn catalog_errors() {
    assert!(matches!(decode_products_response(200, r#"{"num_products":1}"#), Err(RequestError::DecodeError)));
    assert!(matches!(decode_products_response(401, CATALOG), Err(RequestError::AuthError)));
}

#[test]
fn headers_carry_key_signature_and_timestamp() {
    let client = AdvancedTradeRESTClient::new("https://api.coinbase.com/api/v3", config());
    let headers = client.build_headers_with_signature("GET", "/api/v3/x", "", 1700000000);
    assert_eq!(headers.len(), 3);
    assert_eq!(headers[0], ("CB-ACCESS-KEY".to_string(), "key".to_string()));
    assert_eq!(headers[1].0, "CB-ACCESS-SIGN");
    assert_eq!(headers[1].1, create_rest_signature("1700000000", "GET", "/api/v3/x", "", b"secret"));
    assert_eq!(headers[2], ("CB-ACCESS-TIMESTAMP".to_string(), "1700000000".to_string()));
}

#[test]
fn catalog_request_is_signed_over_resource_path() {
    let client = AdvancedTradeRESTClient::new("https://api.coinbase.com/api/v3", config());
    let req = client.get_available_products(42).unwrap();
    assert_eq!(req.method, "GET");
    assert_eq!(req.url, "https://api.coinbase.com/api/v3/brokerage/products/");
    assert_eq!(req.headers[1].1, create_rest_signature("42", "GET", "/api/v3/brokerage/products/", "", b"secret"));
    let other = AdvancedTradeRESTClient::new("http://localhost", config());
    assert!(other.get_available_products(42).is_none());
}
