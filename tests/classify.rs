use coinbase_feed::classify::{classify_message, AdvancedTradeEvents};
use coinbase_feed::json::JsonValue;
use coinbase_feed::rest_client::Client;
use coinbase_feed::models::WebsocketEvent;

const SNAPSHOT: &str = r#"{"channel":"ticker","client_id":"","timestamp":"2023-02-09T20:30:37.167359596Z","sequence_num":0,"events":[{"type":"snapshot","tickers":[{"type":"ticker","product_id":"ETH-USD","price":"1675.14","volume_24_h":"214588.45793642","low_24_h":"1631.4","high_24_h":"1712.05","low_52_w":"895.17","high_52_w":"3579.96","price_percent_chg_24_h":"1.80716098767386"}]}]}"#;

#[test]
fn snapshot_scenario_decodes_ticker() {
    match classify_message(SNAPSHOT) {
        AdvancedTradeEvents::GenericEvent(m) => {
            assert_eq!(m.channel, "ticker");
            assert_eq!(m.sequence_num, 0);
            assert_eq!(m.events.len(), 1);
            match &m.events[0] {
                WebsocketEvent::SnapshotEvent(s) => {
                    assert_eq!(s.msg_type, "snapshot");
                    assert_eq!(s.tickers[0].product_id, "ETH-USD");
                    assert_eq!(s.tickers[0].price, "1675.14");
                }
                other => panic!("unexpected event {:?}", other),
            }
        }
        other => panic!("unexpected classification {:?}", other),
    }
}

#[test]
fn error_scenario_classifies_as_error() {
    match classify_message(r#"{"type":"error","message":"authentication failure"}"#) {
        AdvancedTradeEvents::ErrorEvent(e) => {
            assert_eq!(e.msg_type, "error");
            assert_eq!(e.message, "authentication failure");
        }
        other => panic!("unexpected classification {:?}", other),
    }
}

#[test]
fn envelope_wins_over_error_shape() {
    let both = r#"{"type":"error","message":"m","channel":"c","client_id":"x","timestamp":"t","sequence_num":7,"events":[]}"#;
    match classify_message(both) {
        AdvancedTradeEvents::GenericEvent(m) => {
            assert_eq!(m.sequence_num, 7);
            assert!(m.events.is_empty());
        }
        other => panic!("unexpected classification {:?}", other),
    }
}

#[test]
fn malformed_text_is_unknown() {
    assert!(matches!(classify_message("not json"), AdvancedTradeEvents::Unknown));
    assert!(matches!(classify_message(""), AdvancedTradeEvents::Unknown));
    assert!(matches!(classify_message("{\"type\":"), AdvancedTradeEvents::Unknown));
    assert!(matches!(classify_message("{}"), AdvancedTradeEvents::Unknown));
    assert!(matches!(classify_message("[1,2]"), AdvancedTradeEvents::Unknown));
    assert!(matches!(classify_message("null"), AdvancedTradeEvents::Unknown));
}

#[test]
fn envelope_with_negative_sequence_is_not_an_envelope() {
    let text = r#"{"channel":"c","client_id":"x","timestamp":"t","sequence_num":-1,"events":[]}"#;
    assert!(matches!(classify_message(text), AdvancedTradeEvents::Unknown));
}

#[test]
fn subscription_ack_and_unknown_events() {
    let text = r#"{"channel":"subscriptions","client_id":"","timestamp":"t","sequence_num":1,"events":[{"subscriptions":{"ticker":["ETH-USD","BTC-USD"]}},{"something":"else"}]}"#;
    match classify_message(text) {
        AdvancedTradeEvents::GenericEvent(m) => {
            assert_eq!(m.events.len(), 2);
            match &m.events[0] {
                WebsocketEvent::SubscriptionEvent(s) => {
                    assert_eq!(s.subscriptions.ticker, vec!["ETH-USD".to_string(), "BTC-USD".to_string()]);
                }
                other => panic!("unexpected event {:?}", other),
            }
            assert!(matches!(m.events[1], WebsocketEvent::Unkown));
        }
        other => panic!("unexpected classification {:?}", other),
    }
}

#[test]
fn update_event_takes_the_snapshot_shape() {
    let text = r#"{"channel":"ticker","client_id":"","timestamp":"t","sequence_num":3,"events":[{"type":"update","tickers":[]}]}"#;
    match classify_message(text) {
        AdvancedTradeEvents::GenericEvent(m) => match &m.events[0] {
            WebsocketEvent::SnapshotEvent(s) => assert_eq!(s.msg_type, "update"),
            other => panic!("unexpected event {:?}", other),
        },
        other => panic!("unexpected classification {:?}", other),
    }
}

#[test]
fn ticker_with_missing_field_is_unknown_event() {
    let text = r#"{"channel":"ticker","client_id":"","timestamp":"t","sequence_num":3,"events":[{"type":"snapshot","tickers":[{"type":"ticker","product_id":"ETH-USD"}]}]}"#;
    match classify_message(text) {
        AdvancedTradeEvents::GenericEvent(m) => assert!(matches!(m.events[0], WebsocketEvent::Unkown)),
        other => panic!("unexpected classification {:?}", other),
    }
}

#[test]
fn json_bodies_keep_numbers_and_members() {
    match Client::handler(200, r#"{"a":1,"b":-2,"c":1.5,"d":"x","e":[true,null]}"#) {
        Ok(JsonValue::Object(fields)) => {
            assert_eq!(fields.len(), 5);
            assert!(matches!(fields[0].1, JsonValue::UInt(1)));
            assert!(matches!(fields[1].1, JsonValue::NegInt(-2)));
            assert!(matches!(fields[2].1, JsonValue::OtherNumber));
            assert!(matches!(&fields[3].1, JsonValue::Str(s) if s == "x"));
            assert!(matches!(&fields[4].1, JsonValue::Array(a) if a.len() == 2));
        }
        other => panic!("unexpected parse {:?}", other),
    }
    assert!(Client::handler(200, "nope").is_err());
}
