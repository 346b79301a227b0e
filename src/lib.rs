//! Client library for an exchange's authenticated market-data feed: request and
//! subscription signing, inbound message classification, the REST response rules
//! and the streaming session's state machine.

pub mod advanced_trade_rest_client;
pub mod advanced_trade_websocket;
pub mod classify;
pub mod config;
pub mod json;
pub mod models;
pub mod rest_client;
pub mod signing;
pub mod subscription;
pub mod text;
