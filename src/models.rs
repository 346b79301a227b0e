//! The REST and streaming data shapes, as plain values.

use vstd::prelude::*;

verus! {

/// A REST endpoint: its path below the resource root, the method, and an optional query.
#[derive(Debug, Clone)]
pub struct RestEndpoint {
    pub endpoint_url: String,
    pub method: String,
    pub resource: Option<String>,
}

/// The instrument catalog.
#[derive(Debug, Clone)]
pub struct Products {
    pub num_products: i64,
    pub products: Vec<ProductData>,
}

/// One tradeable instrument of the catalog.
#[derive(Debug, Clone)]
pub struct ProductData {
    pub product_id: String,
    pub product_type: String,
    pub base_currency_id: String,
    pub base_increment: String,
    pub base_max_size: String,
    pub base_min_size: String,
    pub quote_currency_id: String,
    pub quote_increment: String,
    pub quote_max_size: String,
    pub quote_min_size: String,
    pub status: String,
    pub trading_disabled: bool,
}

/// One element of an envelope's `events`, told apart by its shape alone.
#[derive(Debug, Clone)]
pub enum WebsocketEvent {
    SnapshotEvent(SnapshotMessage),
    UpdateEvent(UpdateMessage),
    SubscriptionEvent(SubscriptionMessage),
    Unkown,
}

#[derive(Debug, Clone)]
pub struct SnapshotTicker {
    pub msg_type: String,
    pub product_id: String,
    pub price: String,
    pub volume_24_h: String,
    pub low_24_h: String,
    pub high_24_h: String,
    pub low_52_w: String,
    pub high_52_w: String,
    pub price_percent_chg_24_h: String,
}

#[derive(Debug, Clone)]
pub struct SnapshotMessage {
    pub msg_type: String,
    pub tickers: Vec<SnapshotTicker>,
}

#[derive(Debug, Clone)]
pub struct UpdateTicker {
    pub msg_type: String,
    pub product_id: String,
    pub price: String,
    pub volume_24_h: String,
    pub low_24_h: String,
    pub high_24_h: String,
    pub low_52_w: String,
    pub high_52_w: String,
    pub price_percent_chg_24_h: String,
}

#[derive(Debug, Clone)]
pub struct UpdateMessage {
    pub msg_type: String,
    pub tickers: Vec<SnapshotTicker>,
}

#[derive(Debug, Clone)]
pub struct SubscriptionMessage {
    pub subscriptions: Subscriptions,
}

#[derive(Debug, Clone)]
pub struct Subscriptions {
    pub ticker: Vec<String>,
}

/// The envelope of every streaming message.
#[derive(Debug, Clone)]
pub struct GenericMessage {
    pub channel: String,
    pub client_id: String,
    pub timestamp: String,
    pub sequence_num: u64,
    pub events: Vec<WebsocketEvent>,
}

/// An error reported by the server on the stream.
#[derive(Debug, Clone)]
pub struct ErrorMesage {
    pub msg_type: String,
    pub message: String,
}

/// A subscribe request for one channel.
#[derive(Debug, Clone)]
pub struct ChannelSubscriptionMessage {
    pub msg_type: String,
    pub product_ids: Vec<String>,
    pub channel: String,
    pub api_key: String,
    pub timestamp: String,
    pub signature: String,
}

} // verus!
