//! The shapes in which the exchange answers, as plain values.
//!
//! Prices and volumes stay decimal text from end to end: nothing here or
//! downstream does arithmetic on them.

use vstd::prelude::*;

verus! {

/// One candlestick of a historical listing. The listing is per symbol, so the
/// summary itself does not name one.
#[derive(Debug, PartialEq, Eq)]
pub struct KlineSummary {
    pub open_time: i64,
    pub open: String,
    pub high: String,
    pub low: String,
    pub close: String,
    pub volume: String,
    pub close_time: i64,
    pub quote_asset_volume: String,
    pub number_of_trades: i64,
    pub taker_buy_base_asset_volume: String,
    pub taker_buy_quote_asset_volume: String,
}

/// The candlestick inside a stream event. While `is_final_bar` is false the
/// interval is still running and every figure is provisional.
#[derive(Debug, PartialEq, Eq)]
pub struct StreamKline {
    pub open_time: i64,
    pub close_time: i64,
    pub symbol: String,
    pub interval: String,
    pub first_trade_id: i64,
    pub last_trade_id: i64,
    pub open: String,
    pub close: String,
    pub high: String,
    pub low: String,
    pub volume: String,
    pub number_of_trades: i64,
    pub is_final_bar: bool,
    pub quote_asset_volume: String,
    pub taker_buy_base_asset_volume: String,
    pub taker_buy_quote_asset_volume: String,
    pub ignore_me: String,
}

/// A candlestick update pushed by the stream.
#[derive(Debug, PartialEq, Eq)]
pub struct KlineEvent {
    pub event_type: String,
    pub event_time: u64,
    pub symbol: String,
    pub kline: StreamKline,
}

/// Whatever arrives on a candlestick stream.
#[derive(Debug, PartialEq, Eq)]
pub enum StreamEvent {
    /// A candlestick update.
    Kline(KlineEvent),
    /// Any other frame; a candlestick subscription should not produce one.
    Other,
}

/// One entry of the open-interest statistics. The listing is per interval, so
/// the entry itself does not name one.
#[derive(Debug, PartialEq, Eq)]
pub struct OpenInterestHist {
    pub symbol: String,
    pub sum_open_interest: String,
    pub sum_open_interest_value: String,
    pub timestamp: u64,
}

} // verus!
