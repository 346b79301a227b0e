//! Classification of inbound stream messages. Each candidate shape is tried in a
//! fixed order (envelope, then error) and a message that fits none is `Unknown`;
//! within an envelope every event is tried as a ticker list, then as a
//! subscription acknowledgement, and is `Unkown` otherwise. An update carries the
//! same fields as a snapshot, so the snapshot shape, tried first, takes it.

use vstd::prelude::*;
use crate::json::{get_elements, get_member, get_string, member_of, get_array, get_str, json_parse, parse_json, JsonValue};
use crate::models::{ErrorMesage, GenericMessage, SnapshotMessage, SnapshotTicker, SubscriptionMessage, Subscriptions, WebsocketEvent};

verus! {

/// What a stream message was classified as.
#[derive(Debug)]
pub enum AdvancedTradeEvents {
    GenericEvent(GenericMessage),
    ErrorEvent(ErrorMesage),
    Unknown,
}

/// The text of a JSON string.
pub open spec fn str_view(v: JsonValue) -> Option<Seq<char>> {
    match v {
        JsonValue::Str(s) => Some(s@),
        _ => None,
    }
}

pub open spec fn ticker_shape(v: JsonValue) -> bool {
    &&& get_str(v, "type"@) is Some
    &&& get_str(v, "product_id"@) is Some
    &&& get_str(v, "price"@) is Some
    &&& get_str(v, "volume_24_h"@) is Some
    &&& get_str(v, "low_24_h"@) is Some
    &&& get_str(v, "high_24_h"@) is Some
    &&& get_str(v, "low_52_w"@) is Some
    &&& get_str(v, "high_52_w"@) is Some
    &&& get_str(v, "price_percent_chg_24_h"@) is Some
}

/// `t` holds the members of the ticker object `v`.
pub open spec fn ticker_matches(v: JsonValue, t: SnapshotTicker) -> bool {
    &&& get_str(v, "type"@) == Some(t.msg_type@)
    &&& get_str(v, "product_id"@) == Some(t.product_id@)
    &&& get_str(v, "price"@) == Some(t.price@)
    &&& get_str(v, "volume_24_h"@) == Some(t.volume_24_h@)
    &&& get_str(v, "low_24_h"@) == Some(t.low_24_h@)
    &&& get_str(v, "high_24_h"@) == Some(t.high_24_h@)
    &&& get_str(v, "low_52_w"@) == Some(t.low_52_w@)
    &&& get_str(v, "high_52_w"@) == Some(t.high_52_w@)
    &&& get_str(v, "price_percent_chg_24_h"@) == Some(t.price_percent_chg_24_h@)
}

/// A string `type` and an array `tickers` of ticker objects.
pub open spec fn ticker_list_shape(v: JsonValue) -> bool {
    &&& get_str(v, "type"@) is Some
    &&& get_array(v, "tickers"@) is Some
    &&& forall|i: int| 0 <= i < get_array(v, "tickers"@)->0.len() ==> ticker_shape(#[trigger] get_array(v, "tickers"@)->0[i])
}

pub open spec fn ticker_list_matches(v: JsonValue, m: SnapshotMessage) -> bool {
    &&& get_str(v, "type"@) == Some(m.msg_type@)
    &&& get_array(v, "tickers"@) is Some
    &&& get_array(v, "tickers"@)->0.len() == m.tickers@.len()
    &&& forall|i: int| 0 <= i < m.tickers@.len() ==> ticker_matches(get_array(v, "tickers"@)->0[i], #[trigger] m.tickers@[i])
}

/// A member `subscriptions` whose member `ticker` is an array of strings.
pub open spec fn subscription_shape(v: JsonValue) -> bool {
    &&& member_of(v, "subscriptions"@) is Some
    &&& get_array(member_of(v, "subscriptions"@)->0, "ticker"@) is Some
    &&& forall|i: int| 0 <= i < get_array(member_of(v, "subscriptions"@)->0, "ticker"@)->0.len()
        ==> str_view(#[trigger] get_array(member_of(v, "subscriptions"@)->0, "ticker"@)->0[i]) is Some
}

pub open spec fn subscription_matches(v: JsonValue, m: SubscriptionMessage) -> bool {
    let a = get_array(member_of(v, "subscriptions"@)->0, "ticker"@)->0;
    &&& a.len() == m.subscriptions.ticker@.len()
    &&& forall|i: int| 0 <= i < a.len() ==> str_view(a[i]) == Some((#[trigger] m.subscriptions.ticker@[i])@)
}

/// How one element of an envelope's `events` is classified: first match wins.
pub open spec fn event_matches(v: JsonValue, e: WebsocketEvent) -> bool {
    if ticker_list_shape(v) {
        e is SnapshotEvent && ticker_list_matches(v, e->SnapshotEvent_0)
    } else if subscription_shape(v) {
        e is SubscriptionEvent && subscription_matches(v, e->SubscriptionEvent_0)
    } else {
        e is Unkown
    }
}

/// String `channel`, `client_id` and `timestamp`, an unsigned `sequence_num`, an array `events`.
pub open spec fn envelope_shape(v: JsonValue) -> bool {
    &&& get_str(v, "channel"@) is Some
    &&& get_str(v, "client_id"@) is Some
    &&& get_str(v, "timestamp"@) is Some
    &&& member_of(v, "sequence_num"@) matches Some(JsonValue::UInt(_))
    &&& get_array(v, "events"@) is Some
}

pub open spec fn envelope_matches(v: JsonValue, m: GenericMessage) -> bool {
    &&& get_str(v, "channel"@) == Some(m.channel@)
    &&& get_str(v, "client_id"@) == Some(m.client_id@)
    &&& get_str(v, "timestamp"@) == Some(m.timestamp@)
    &&& member_of(v, "sequence_num"@) == Some(JsonValue::UInt(m.sequence_num))
    &&& get_array(v, "events"@) is Some
    &&& get_array(v, "events"@)->0.len() == m.events@.len()
    &&& forall|i: int| 0 <= i < m.events@.len() ==> event_matches(get_array(v, "events"@)->0[i], #[trigger] m.events@[i])
}

/// String `type` and `message`.
pub open spec fn error_shape(v: JsonValue) -> bool {
    get_str(v, "type"@) is Some && get_str(v, "message"@) is Some
}

pub open spec fn error_matches(v: JsonValue, m: ErrorMesage) -> bool {
    get_str(v, "type"@) == Some(m.msg_type@) && get_str(v, "message"@) == Some(m.message@)
}

/// How a whole message is classified: envelope first, then error, else unknown.
pub open spec fn inbound_matches(v: JsonValue, r: AdvancedTradeEvents) -> bool {
    if envelope_shape(v) {
        r is GenericEvent && envelope_matches(v, r->GenericEvent_0)
    } else if error_shape(v) {
        r is ErrorEvent && error_matches(v, r->ErrorEvent_0)
    } else {
        r is Unknown
    }
}

/// Reads a ticker object.
pub fn decode_ticker(v: &JsonValue) -> (r: Option<SnapshotTicker>)
    ensures
        r is Some <==> ticker_shape(*v),
        r matches Some(t) ==> ticker_matches(*v, t),
{
    let msg_type = match get_string(v, "type") { Some(s) => s, None => return None };
    let product_id = match get_string(v, "product_id") { Some(s) => s, None => return None };
    let price = match get_string(v, "price") { Some(s) => s, None => return None };
    let volume_24_h = match get_string(v, "volume_24_h") { Some(s) => s, None => return None };
    let low_24_h = match get_string(v, "low_24_h") { Some(s) => s, None => return None };
    let high_24_h = match get_string(v, "high_24_h") { Some(s) => s, None => return None };
    let low_52_w = match get_string(v, "low_52_w") { Some(s) => s, None => return None };
    let high_52_w = match get_string(v, "high_52_w") { Some(s) => s, None => return None };
    let price_percent_chg_24_h = match get_string(v, "price_percent_chg_24_h") { Some(s) => s, None => return None };
    Some(SnapshotTicker {
        msg_type,
        product_id,
        price,
        volume_24_h,
        low_24_h,
        high_24_h,
        low_52_w,
        high_52_w,
        price_percent_chg_24_h,
    })
}

/// Reads a ticker list (a snapshot or an update).
pub fn decode_ticker_list(v: &JsonValue) -> (r: Option<SnapshotMessage>)
    ensures
        r is Some <==> ticker_list_shape(*v),
        r matches Some(m) ==> ticker_list_matches(*v, m),
{
    let msg_type = match get_string(v, "type") { Some(s) => s, None => return None };
    let items = match get_elements(v, "tickers") { Some(a) => a, None => return None };
    let mut tickers: Vec<SnapshotTicker> = Vec::new();
    let mut i: usize = 0;
    while i < items.len()
        invariant
            i <= items.len(),
            get_array(*v, "tickers"@) == Some(items@),
            tickers@.len() == i,
            forall|j: int| 0 <= j < i ==> ticker_shape(#[trigger] items@[j]),
            forall|j: int| 0 <= j < i ==> ticker_matches(items@[j], #[trigger] tickers@[j]),
        decreases items.len() - i,
    {
        match decode_ticker(&items[i]) {
            Some(t) => tickers.push(t),
            None => {
                assert(!ticker_shape(get_array(*v, "tickers"@)->0[i as int]));
                return None;
            },
        }
        i = i + 1;
    }
    Some(SnapshotMessage { msg_type, tickers })
}

/// Reads a subscription acknowledgement.
pub fn decode_subscription(v: &JsonValue) -> (r: Option<SubscriptionMessage>)
    ensures
        r is Some <==> subscription_shape(*v),
        r matches Some(m) ==> subscription_matches(*v, m),
{
    let subs = match get_member(v, "subscriptions") { Some(s) => s, None => return None };
    let items = match get_elements(subs, "ticker") { Some(a) => a, None => return None };
    let mut ticker: Vec<String> = Vec::new();
    let mut i: usize = 0;
    while i < items.len()
        invariant
            i <= items.len(),
            member_of(*v, "subscriptions"@) == Some(*subs),
            get_array(*subs, "ticker"@) == Some(items@),
            ticker@.len() == i,
            forall|j: int| 0 <= j < i ==> str_view(#[trigger] items@[j]) is Some,
            forall|j: int| 0 <= j < i ==> str_view(items@[j]) == Some((#[trigger] ticker@[j])@),
        decreases items.len() - i,
    {
        match &items[i] {
            JsonValue::Str(s) => ticker.push(s.clone()),
            _ => return None,
        }
        i = i + 1;
    }
    Some(SubscriptionMessage { subscriptions: Subscriptions { ticker } })
}

/// Classifies one element of an envelope's `events`.
pub fn classify_event(v: &JsonValue) -> (r: WebsocketEvent)
    ensures
        event_matches(*v, r),
{
    if let Some(m) = decode_ticker_list(v) {
        return WebsocketEvent::SnapshotEvent(m);
    }
    if let Some(m) = decode_subscription(v) {
        return WebsocketEvent::SubscriptionEvent(m);
    }
    WebsocketEvent::Unkown
}

/// Reads an envelope, classifying each of its events.
pub fn decode_envelope(v: &JsonValue) -> (r: Option<GenericMessage>)
    ensures
        r is Some <==> envelope_shape(*v),
        r matches Some(m) ==> envelope_matches(*v, m),
{
    let channel = match get_string(v, "channel") { Some(s) => s, None => return None };
    let client_id = match get_string(v, "client_id") { Some(s) => s, None => return None };
    let timestamp = match get_string(v, "timestamp") { Some(s) => s, None => return None };
    let sequence_num: u64 = match get_member(v, "sequence_num") { Some(JsonValue::UInt(n)) => *n, _ => return None };
    let items = match get_elements(v, "events") { Some(a) => a, None => return None };
    let mut events: Vec<WebsocketEvent> = Vec::new();
    let mut i: usize = 0;
    while i < items.len()
        invariant
            i <= items.len(),
            get_array(*v, "events"@) == Some(items@),
            events@.len() == i,
            forall|j: int| 0 <= j < i ==> event_matches(items@[j], #[trigger] events@[j]),
        decreases items.len() - i,
    {
        let e = classify_event(&items[i]);
        events.push(e);
        i = i + 1;
    }
    Some(GenericMessage { channel, client_id, timestamp, sequence_num, events })
}

/// Reads an error message.
pub fn decode_error(v: &JsonValue) -> (r: Option<ErrorMesage>)
    ensures
        r is Some <==> error_shape(*v),
        r matches Some(m) ==> error_matches(*v, m),
{
    let msg_type = match get_string(v, "type") { Some(s) => s, None => return None };
    let message = match get_string(v, "message") { Some(s) => s, None => return None };
    Some(ErrorMesage { msg_type, message })
}

/// Classifies a parsed message. An envelope is never taken for an error, even where
/// it also carries the error's members.
pub fn classify_value(v: &JsonValue) -> (r: AdvancedTradeEvents)
    ensures
        inbound_matches(*v, r),
        envelope_shape(*v) ==> r is GenericEvent,
        !envelope_shape(*v) && error_shape(*v) ==> r is ErrorEvent,
        !envelope_shape(*v) && !error_shape(*v) ==> r is Unknown,
{
    if let Some(m) = decode_envelope(v) {
        return AdvancedTradeEvents::GenericEvent(m);
    }
    if let Some(m) = decode_error(v) {
        return AdvancedTradeEvents::ErrorEvent(m);
    }
    AdvancedTradeEvents::Unknown
}

/// Classifies the text of a stream message. Text that is not JSON, and JSON of
/// no known shape, is `Unknown`: this never fails.
pub fn classify_message(raw: &str) -> (r: AdvancedTradeEvents)
    ensures
        match json_parse(raw@) {
            Some(v) => inbound_matches(v, r),
            None => r is Unknown,
        },
{
    match parse_json(raw) {
        Some(v) => classify_value(&v),
        None => AdvancedTradeEvents::Unknown,
    }
}

} // verus!
