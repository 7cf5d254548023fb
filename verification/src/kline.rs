//! The stored candlestick row and how exchange answers become one.

use crate::exchange::{KlineEvent, KlineSummary};
use crate::market::MarketEndpoint;
use vstd::prelude::*;

verus! {

/// A row of the candlestick table.
#[derive(Debug, PartialEq)]
pub struct Kline {
    pub source: MarketEndpoint,
    pub symbol: String,
    pub open_time: i64,
    pub close_time: i64,
    pub open: String,
    pub high: String,
    pub low: String,
    pub close: String,
    pub base_volume: String,
    pub quote_volume: String,
    pub buy_base_volume: String,
    pub buy_quote_volume: String,
    pub number_of_trades: i64,
}

/// What a candlestick row holds, text as sequences of characters.
pub ghost struct KlineView {
    pub source: MarketEndpoint,
    pub symbol: Seq<char>,
    pub open_time: i64,
    pub close_time: i64,
    pub open: Seq<char>,
    pub high: Seq<char>,
    pub low: Seq<char>,
    pub close: Seq<char>,
    pub base_volume: Seq<char>,
    pub quote_volume: Seq<char>,
    pub buy_base_volume: Seq<char>,
    pub buy_quote_volume: Seq<char>,
    pub number_of_trades: i64,
}

/// The columns that identify a candlestick row.
pub ghost struct KlineKey {
    pub symbol: Seq<char>,
    pub open_time: i64,
    pub close_time: i64,
    pub source: MarketEndpoint,
}

impl KlineView {
    /// The identifying columns of this row.
    pub open spec fn key(self) -> KlineKey {
        KlineKey {
            symbol: self.symbol,
            open_time: self.open_time,
            close_time: self.close_time,
            source: self.source,
        }
    }
}

impl View for Kline {
    type V = KlineView;

    open spec fn view(&self) -> KlineView {
        KlineView {
            source: self.source,
            symbol: self.symbol@,
            open_time: self.open_time,
            close_time: self.close_time,
            open: self.open@,
            high: self.high@,
            low: self.low@,
            close: self.close@,
            base_volume: self.base_volume@,
            quote_volume: self.quote_volume@,
            buy_base_volume: self.buy_base_volume@,
            buy_quote_volume: self.buy_quote_volume@,
            number_of_trades: self.number_of_trades,
        }
    }
}

impl Kline {
    /// The row for one historical candlestick: every figure of the summary
    /// under its column name, with the symbol and market that the listing
    /// was asked for.
    pub open spec fn summary_row(
        symbol: Seq<char>,
        source: MarketEndpoint,
        kline: KlineSummary,
    ) -> KlineView {
        KlineView {
            source,
            symbol,
            open_time: kline.open_time,
            close_time: kline.close_time,
            open: kline.open@,
            high: kline.high@,
            low: kline.low@,
            close: kline.close@,
            base_volume: kline.volume@,
            quote_volume: kline.quote_asset_volume@,
            buy_base_volume: kline.taker_buy_base_asset_volume@,
            buy_quote_volume: kline.taker_buy_quote_asset_volume@,
            number_of_trades: kline.number_of_trades,
        }
    }

    /// The row for one streamed candlestick: every figure of the event's
    /// candlestick under its column name, the symbol taken from the
    /// candlestick too.
    pub open spec fn event_row(source: MarketEndpoint, event: KlineEvent) -> KlineView {
        KlineView {
            source,
            symbol: event.kline.symbol@,
            open_time: event.kline.open_time,
            close_time: event.kline.close_time,
            open: event.kline.open@,
            high: event.kline.high@,
            low: event.kline.low@,
            close: event.kline.close@,
            base_volume: event.kline.volume@,
            quote_volume: event.kline.quote_asset_volume@,
            buy_base_volume: event.kline.taker_buy_base_asset_volume@,
            buy_quote_volume: event.kline.taker_buy_quote_asset_volume@,
            number_of_trades: event.kline.number_of_trades,
        }
    }

    /// Builds the row for one candlestick of a historical listing.
    pub fn from_kline_summary(symbol: String, source: MarketEndpoint, kline: KlineSummary) -> (row:
        Self)
        ensures
            row@ == Self::summary_row(symbol@, source, kline),
    {
        Self {
            source,
            symbol,
            open_time: kline.open_time,
            close_time: kline.close_time,
            open: kline.open,
            high: kline.high,
            low: kline.low,
            close: kline.close,
            base_volume: kline.volume,
            quote_volume: kline.quote_asset_volume,
            buy_base_volume: kline.taker_buy_base_asset_volume,
            buy_quote_volume: kline.taker_buy_quote_asset_volume,
            number_of_trades: kline.number_of_trades,
        }
    }

    /// Builds the row for a streamed candlestick whose interval has closed.
    /// A candlestick that is still open never becomes a row.
    pub fn from_kline_event(source: MarketEndpoint, event: KlineEvent) -> (row: Self)
        requires
            event.kline.is_final_bar,
        ensures
            row@ == Self::event_row(source, event),
    {
        let kline = event.kline;
        Self {
            source,
            symbol: kline.symbol,
            open_time: kline.open_time,
            close_time: kline.close_time,
            open: kline.open,
            high: kline.high,
            low: kline.low,
            close: kline.close,
            base_volume: kline.volume,
            quote_volume: kline.quote_asset_volume,
            buy_base_volume: kline.taker_buy_base_asset_volume,
            buy_quote_volume: kline.taker_buy_quote_asset_volume,
            number_of_trades: kline.number_of_trades,
        }
    }
}

} // verus!
