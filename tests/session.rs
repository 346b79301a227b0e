use coinbase_feed::advanced_trade_websocket::{
    AdvancedTradeWebSockets, SessionAction, SessionEvent, SessionState, SubscribeProducts,
};
use coinbase_feed::classify::AdvancedTradeEvents;
use coinbase_feed::config::CoinbaseConfig;
use coinbase_feed::signing::create_ws_signature;

const NOW: u64 = 1700000000;

fn session(channels: &[&str], products: SubscribeProducts) -> AdvancedTradeWebSockets {
    AdvancedTradeWebSockets::new(
        channels.iter().map(|c| c.to_string()).collect(),
        products,
        CoinbaseConfig { api_key: "key".to_string(), api_secret: "secret".to_string() },
    )
}

fn custom(items: &[&str]) -> SubscribeProducts {
    SubscribeProducts::Custom(items.iter().map(|s| s.to_string()).collect())
}

fn sent_text(a: &SessionAction) -> String {
    match a {
        SessionAction::Send { text, pause_ms } => {
            assert_eq!(*pause_ms, 100);
            text.clone()
        }
        other => panic!("expected a send, got {:?}", other),
    }
}

#[test]
fn subscribe_message_wire_text() {
    let mut s = session(&["ticker"], custom(&["ETH-USD"]));
    assert!(matches!(s.step(SessionEvent::Start, NOW).action, SessionAction::Connect));
    let text = sent_text(&s.step(SessionEvent::Connected, NOW).action);
    let sig = create_ws_signature(NOW.to_string(), "ticker".to_string(), vec!["ETH-USD".to_string()], b"secret");
    let expected = format!(
        "{{\"type\":\"subscribe\",\"product_ids\":[\"ETH-USD\"],\"channel\":\"ticker\",\"api_key\":\"key\",\"timestamp\":\"1700000000\",\"signature\":\"{}\"}}",
        sig
    );
    assert_eq!(text, expected);
    assert_eq!(s.state, SessionState::Subscribing);
}

#[test]
fn end_to_end_stream_reconnect_and_stop() {
    let mut s = session(&["ticker"], custom(&["ETH-USD"]));
    s.step(SessionEvent::Start, NOW);
    s.step(SessionEvent::Connected, NOW);
    assert!(matches!(s.step(SessionEvent::Sent, NOW).action, SessionAction::Read));
    assert_eq!(s.state, SessionState::Streaming);

    let step = s.step(SessionEvent::Text(r#"{"type":"error","message":"authentication failure"}"#.to_string()), NOW);
    assert!(matches!(step.dispatch, Some(AdvancedTradeEvents::ErrorEvent(_))));
    assert!(matches!(step.action, SessionAction::Read));

    // a read failure: one new connection, running flag untouched
    let step = s.step(SessionEvent::ReadFailed, NOW);
    assert!(matches!(step.action, SessionAction::Connect));
    assert_eq!(s.state, SessionState::Connecting);
    assert!(s.running);
    sent_text(&s.step(SessionEvent::Connected, NOW + 1).action);
    assert!(matches!(s.step(SessionEvent::Sent, NOW + 1).action, SessionAction::Read));
    assert_eq!(s.state, SessionState::Streaming);

    // stop: the next completed receive closes, once
    s.stop();
    assert!(!s.running);
    let step = s.step(SessionEvent::Control, NOW);
    assert!(matches!(step.action, SessionAction::CloseConnection));
    assert_eq!(s.state, SessionState::Closing);
    assert!(matches!(s.step(SessionEvent::Control, NOW).action, SessionAction::Ignore));
    assert!(matches!(s.step(SessionEvent::CloseDone, NOW).action, SessionAction::Done));
    assert_eq!(s.state, SessionState::Closed);
    assert!(matches!(s.step(SessionEvent::ReadFailed, NOW).action, SessionAction::Ignore));
    assert!(matches!(s.step(SessionEvent::Start, NOW).action, SessionAction::Ignore));
}

#[test]
fn stop_after_read_failure_closes_instead_of_reconnecting() {
    let mut s = session(&["ticker"], custom(&["ETH-USD"]));
    s.step(SessionEvent::Start, NOW);
    s.step(SessionEvent::Connected, NOW);
    s.step(SessionEvent::Sent, NOW);
    s.stop();
    assert!(matches!(s.step(SessionEvent::ReadFailed, NOW).action, SessionAction::CloseConnection));
}

#[test]
fn snapshot_text_is_dispatched() {
    let mut s = session(&["ticker"], custom(&["ETH-USD"]));
    s.step(SessionEvent::Start, NOW);
    s.step(SessionEvent::Connected, NOW);
    s.step(SessionEvent::Sent, NOW);
    let text = r#"{"channel":"ticker","client_id":"","timestamp":"t","sequence_num":0,"events":[]}"#;
    let step = s.step(SessionEvent::Text(text.to_string()), NOW);
    assert!(matches!(step.dispatch, Some(AdvancedTradeEvents::GenericEvent(_))));
    let step = s.step(SessionEvent::Text("garbage".to_string()), NOW);
    assert!(matches!(step.dispatch, Some(AdvancedTradeEvents::Unknown)));
    let step = s.step(SessionEvent::CloseFrame, NOW);
    assert!(step.dispatch.is_none());
    assert!(matches!(step.action, SessionAction::Read));
}

#[test]
fn pairs_are_sent_in_channel_then_instrument_order() {
    let mut s = session(&["a", "b"], custom(&["x", "y"]));
    s.step(SessionEvent::Start, NOW);
    let mut texts = vec![sent_text(&s.step(SessionEvent::Connected, NOW).action)];
    texts.push(sent_text(&s.step(SessionEvent::Sent, NOW).action));
    texts.push(sent_text(&s.step(SessionEvent::SendFailed, NOW).action));
    texts.push(sent_text(&s.step(SessionEvent::Sent, NOW).action));
    assert!(matches!(s.step(SessionEvent::Sent, NOW).action, SessionAction::Read));
    let pairs: Vec<(bool, bool)> = texts
        .iter()
        .map(|t| (t.contains("\"channel\":\"a\""), t.contains("\"product_ids\":[\"x\"]")))
        .collect();
    assert_eq!(pairs, vec![(true, true), (true, false), (false, true), (false, false)]);
}

#[test]
fn all_instruments_are_resolved_first() {
    let mut s = session(&["ticker"], SubscribeProducts::All);
    s.step(SessionEvent::Start, NOW);
    assert!(matches!(s.step(SessionEvent::Connected, NOW).action, SessionAction::ResolveInstruments));
    assert!(matches!(s.step(SessionEvent::Sent, NOW).action, SessionAction::Ignore));
    let text = sent_text(&s.step(SessionEvent::Instruments(vec!["BTC-USD".to_string()]), NOW).action);
    assert!(text.contains("\"product_ids\":[\"BTC-USD\"]"));

    let mut f = session(&["ticker"], SubscribeProducts::All);
    f.step(SessionEvent::Start, NOW);
    f.step(SessionEvent::Connected, NOW);
    assert!(matches!(f.step(SessionEvent::InstrumentsFailed, NOW).action, SessionAction::Fail));
    assert_eq!(f.state, SessionState::Closed);
}

#[test]
fn fatal_events_end_the_session() {
    let mut s = session(&["ticker"], custom(&["ETH-USD"]));
    s.step(SessionEvent::Start, NOW);
    assert!(matches!(s.step(SessionEvent::ConnectFailed, NOW).action, SessionAction::Fail));
    assert_eq!(s.state, SessionState::Closed);

    let mut t = session(&["ticker"], custom(&["ETH-USD"]));
    t.step(SessionEvent::Start, NOW);
    t.step(SessionEvent::Connected, NOW);
    t.step(SessionEvent::Sent, NOW);
    assert!(matches!(t.step(SessionEvent::OtherFrame, NOW).action, SessionAction::Fail));
}

#[test]
fn nothing_to_subscribe_streams_at_once() {
    let mut s = session(&[], custom(&["ETH-USD"]));
    s.step(SessionEvent::Start, NOW);
    assert!(matches!(s.step(SessionEvent::Connected, NOW).action, SessionAction::Read));
    let mut t = session(&["ticker"], custom(&[]));
    t.step(SessionEvent::Start, NOW);
    assert!(matches!(t.step(SessionEvent::Connected, NOW).action, SessionAction::Read));
}

#[test]
fn stop_before_streaming_sends_then_closes_without_reading() {
    let mut s = session(&["ticker"], custom(&["ETH-USD", "BTC-USD"]));
    assert_eq!(s.exchange, "coinbase-advanced-trade");
    s.stop();
    s.step(SessionEvent::Start, NOW);
    sent_text(&s.step(SessionEvent::Connected, NOW).action);
    sent_text(&s.step(SessionEvent::Sent, NOW).action);
    assert!(matches!(s.step(SessionEvent::Sent, NOW).action, SessionAction::CloseConnection));
    assert_eq!(s.state, SessionState::Closing);
    assert!(matches!(s.step(SessionEvent::CloseDone, NOW).action, SessionAction::Done));
    assert_eq!(s.exchange, "coinbase-advanced-trade");
    assert_eq!(s.client.client.host, "https://api.coinbase.com/api/v3");
}

#[test]
fn subscribe_text_escapes_json_specials() {
    let m = coinbase_feed::models::ChannelSubscriptionMessage {
        msg_type: "subscribe".to_string(),
        product_ids: vec!["a\"b".to_string(), "c\\d".to_string()],
        channel: "x\ny\u{1}".to_string(),
        api_key: "k\t".to_string(),
        timestamp: "1".to_string(),
        signature: "é".to_string(),
    };
    assert_eq!(
        m.to_json(),
        "{\"type\":\"subscribe\",\"product_ids\":[\"a\\\"b\",\"c\\\\d\"],\"channel\":\"x\\ny\\u0001\",\"api_key\":\"k\\t\",\"timestamp\":\"1\",\"signature\":\"é\"}"
    );
}
