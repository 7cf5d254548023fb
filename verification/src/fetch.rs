//! What a fetch asks of the exchange, what it hands to storage, and whether
//! a failed query ends the run.

use crate::error::{Error, ErrorKind};
use crate::exchange::{KlineSummary, OpenInterestHist};
use crate::kline::{Kline, KlineView};
use crate::market::MarketEndpoint;
use crate::open_interest::OpenInterestSummary;
use crate::query::KlineQuery;
use vstd::prelude::*;

verus! {

/// The parameters of one listing request, for historical candlesticks and
/// for open-interest statistics alike.
#[derive(Debug, PartialEq)]
pub struct KlineRequest {
    pub symbol: String,
    pub interval: String,
    pub limit: u16,
    pub start_time: Option<u64>,
    pub end_time: Option<u64>,
}

/// What a listing request holds, text as sequences of characters.
pub ghost struct KlineRequestView {
    pub symbol: Seq<char>,
    pub interval: Seq<char>,
    pub limit: u16,
    pub start_time: Option<u64>,
    pub end_time: Option<u64>,
}

impl View for KlineRequest {
    type V = KlineRequestView;

    open spec fn view(&self) -> KlineRequestView {
        KlineRequestView {
            symbol: self.symbol@,
            interval: self.interval@,
            limit: self.limit,
            start_time: self.start_time,
            end_time: self.end_time,
        }
    }
}

/// A signed count of milliseconds as the unsigned request parameter: the
/// same number, a negative one counted up from 2^64.
pub open spec fn request_time(millis: i64) -> u64 {
    if millis >= 0 {
        millis as u64
    } else {
        (millis + 0x1_0000_0000_0000_0000) as u64
    }
}

/// Turns a signed count of milliseconds since the epoch into the unsigned
/// parameter that the exchange takes. An instant before the epoch keeps its
/// bit pattern and so becomes a very late one.
pub fn to_request_time(millis: i64) -> (time: u64)
    ensures
        time == request_time(millis),
{
    if millis >= 0 {
        millis as u64
    } else {
        u64::MAX - ((-(millis + 1)) as u64)
    }
}

impl KlineQuery {
    /// The interval to ask for: the override where there is one, else the
    /// query's own.
    pub open spec fn chosen_interval(self, interval: Option<String>) -> Seq<char> {
        match interval {
            Some(given) => given@,
            None => self.interval@,
        }
    }

    /// The listing request that a query and the overrides come to.
    pub open spec fn request_for(
        self,
        interval: Option<String>,
        limit: Option<u16>,
        start_time: Option<u64>,
        end_time: Option<u64>,
    ) -> KlineRequestView {
        KlineRequestView {
            symbol: self.symbol@,
            interval: self.chosen_interval(interval),
            limit: match limit {
                Some(given) => given,
                None => self.limit,
            },
            start_time,
            end_time,
        }
    }

    /// Builds the listing request for this query, the same for historical
    /// candlesticks and for open-interest statistics. An interval or a limit
    /// given by the caller takes the place of the query's own; the time
    /// bounds go through as they are.
    pub fn request(
        &self,
        interval: Option<String>,
        limit: Option<u16>,
        start_time: Option<u64>,
        end_time: Option<u64>,
    ) -> (request: KlineRequest)
        ensures
            request@ == self.request_for(interval, limit, start_time, end_time),
    {
        KlineRequest {
            symbol: self.symbol.clone(),
            interval: match interval {
                Some(given) => given,
                None => self.interval.clone(),
            },
            limit: match limit {
                Some(given) => given,
                None => self.limit,
            },
            start_time,
            end_time,
        }
    }
}

/// The rows that a historical listing comes to: one row per candlestick, in
/// the listing's order, each under the symbol that was asked for and the
/// market that was asked.
pub open spec fn listing_rows(
    symbol: Seq<char>,
    market: MarketEndpoint,
    summaries: Seq<KlineSummary>,
) -> Seq<KlineView> {
    Seq::new(summaries.len(), |i: int| Kline::summary_row(symbol, market, summaries[i]))
}

/// What a list of candlestick rows holds.
pub open spec fn kline_views(rows: Seq<Kline>) -> Seq<KlineView> {
    Seq::new(rows.len(), |i: int| rows[i]@)
}

impl MarketEndpoint {
    /// Turns a historical listing into the rows to store.
    pub fn rows(&self, symbol: &str, summaries: Vec<KlineSummary>) -> (rows: Vec<Kline>)
        ensures
            kline_views(rows@) == listing_rows(symbol@, *self, summaries@),
    {
        let mut rows: Vec<Kline> = Vec::new();
        for summary in it: summaries
            invariant
                rows.len() == it.index(),
                it.seq() == summaries@,
                forall|i: int|
                    #![trigger rows[i]]
                    0 <= i < rows.len() ==> rows[i]@ == Kline::summary_row(
                        symbol@,
                        *self,
                        summaries[i],
                    ),
        {
            rows.push(Kline::from_kline_summary(symbol.to_owned(), *self, summary));
        }
        rows
    }
}

/// The outcome of converting a listing of open-interest statistics: the rows
/// to store, and the refusal that cut the conversion short, if one did.
#[derive(Debug)]
pub struct OpenInterestBatch {
    pub rows: Vec<OpenInterestSummary>,
    pub refused: Option<Error>,
}

impl OpenInterestSummary {
    /// Turns a listing of open-interest statistics into the rows to store,
    /// in the listing's order, each under the interval that was asked for.
    /// The first entry whose timestamp does not fit ends the conversion: the
    /// rows before it are kept for storing, the entry itself and all after
    /// it give none, and the refusal is handed back with the rows.
    pub fn rows(interval: &str, hists: Vec<OpenInterestHist>) -> (batch: OpenInterestBatch)
        ensures
            batch.rows.len() <= hists.len(),
            forall|i: int|
                #![trigger batch.rows[i]]
                0 <= i < batch.rows.len() ==> batch.rows[i]@
                    == Self::hist_row(interval@, hists[i]),
            forall|i: int|
                #![trigger hists[i]]
                0 <= i < batch.rows.len() ==> Self::fits(hists[i]),
            batch.rows.len() < hists.len() ==> (!Self::fits(hists[batch.rows.len() as int])
                && batch.refused matches Some(Error::TryFromNumber(_))),
            batch.rows.len() == hists.len() ==> batch.refused is None,
    {
        let mut rows: Vec<OpenInterestSummary> = Vec::new();
        for hist in it: hists
            invariant
                rows.len() == it.index(),
                it.seq() == hists@,
                forall|i: int|
                    #![trigger rows[i]]
                    0 <= i < rows.len() ==> rows[i]@ == Self::hist_row(
                        interval@,
                        hists[i],
                    ),
                forall|i: int|
                    #![trigger hists[i]]
                    0 <= i < rows.len() ==> Self::fits(hists[i]),
        {
            match Self::from_open_interest_hist(interval.to_owned(), hist) {
                Ok(row) => {
                    rows.push(row);
                },
                Err(error) => {
                    return OpenInterestBatch { rows, refused: Some(error) };
                },
            }
        }
        OpenInterestBatch { rows, refused: None }
    }
}

/// What becomes of the run after one query.
#[derive(Debug, Clone, Copy, PartialEq, Eq, Structural)]
pub enum Verdict {
    /// The query went through; go on with the next.
    Proceed,
    /// The exchange refused this query; warn and go on with the next.
    Skip,
    /// Stop the run.
    Abort,
}

/// The verdict on a query's outcome: only a failure that the exchange
/// reported is survived.
pub open spec fn verdict_on(outcome: Result<(), Error>) -> Verdict {
    match outcome {
        Ok(_) => Verdict::Proceed,
        Err(error) => if error.kind() == ErrorKind::RemoteClient {
            Verdict::Skip
        } else {
            Verdict::Abort
        },
    }
}

/// Decides whether the run goes on after a query.
pub fn after_query(outcome: &Result<(), Error>) -> (verdict: Verdict)
    ensures
        verdict == verdict_on(*outcome),
{
    match outcome {
        Ok(_) => Verdict::Proceed,
        Err(error) => match error.kind() {
            ErrorKind::RemoteClient => Verdict::Skip,
            _ => Verdict::Abort,
        },
    }
}

} // verus!
