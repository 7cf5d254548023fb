//! Snapshot rules for exchange candlesticks and open interest: decoding the
//! query list, normalising exchange responses into rows, and deciding what a
//! fetch or a stream hands to storage.

pub mod error;
pub mod exchange;
pub mod fetch;
pub mod kline;
pub mod market;
pub mod open_interest;
pub mod query;
pub mod store;
pub mod stream;
pub mod text;

pub use error::{Error, ErrorKind};
pub use kline::Kline;
pub use market::MarketEndpoint;
pub use open_interest::OpenInterestSummary;
pub use query::KlineQuery;
