//! The stored open-interest row and how an exchange answer becomes one.

use crate::error::Error;
use crate::exchange::OpenInterestHist;
use std::num::TryFromIntError;
use vstd::prelude::*;

verus! {

/// `i64::try_from` on a `u64`: the same number when it is at most `i64::MAX`,
/// an error otherwise.
#[verifier::external_body]
fn signed_timestamp(value: u64) -> (r: Result<i64, TryFromIntError>)
    ensures
        r is Ok <==> value <= i64::MAX,
        r matches Ok(n) ==> n == value,
{
    i64::try_from(value)
}

/// A row of the open-interest table.
#[derive(Debug, PartialEq)]
pub struct OpenInterestSummary {
    pub symbol: String,
    pub interval: String,
    pub sum_open_interest: String,
    pub sum_open_interest_value: String,
    pub timestamp: i64,
}

/// What an open-interest row holds, text as sequences of characters.
pub ghost struct OpenInterestSummaryView {
    pub symbol: Seq<char>,
    pub interval: Seq<char>,
    pub sum_open_interest: Seq<char>,
    pub sum_open_interest_value: Seq<char>,
    pub timestamp: i64,
}

/// The columns that identify an open-interest row.
pub ghost struct OpenInterestKey {
    pub symbol: Seq<char>,
    pub interval: Seq<char>,
    pub timestamp: i64,
}

impl OpenInterestSummaryView {
    /// The identifying columns of this row.
    pub open spec fn key(self) -> OpenInterestKey {
        OpenInterestKey {
            symbol: self.symbol,
            interval: self.interval,
            timestamp: self.timestamp,
        }
    }
}

impl View for OpenInterestSummary {
    type V = OpenInterestSummaryView;

    open spec fn view(&self) -> OpenInterestSummaryView {
        OpenInterestSummaryView {
            symbol: self.symbol@,
            interval: self.interval@,
            sum_open_interest: self.sum_open_interest@,
            sum_open_interest_value: self.sum_open_interest_value@,
            timestamp: self.timestamp,
        }
    }
}

impl OpenInterestSummary {
    /// Whether the entry's timestamp fits the row's signed 64-bit column.
    pub open spec fn fits(hist: OpenInterestHist) -> bool {
        hist.timestamp <= i64::MAX
    }

    /// The row for one entry of the statistics: the entry's figures as they
    /// are, with the interval that the listing was asked for.
    pub open spec fn hist_row(
        interval: Seq<char>,
        hist: OpenInterestHist,
    ) -> OpenInterestSummaryView
        recommends
            Self::fits(hist),
    {
        OpenInterestSummaryView {
            symbol: hist.symbol@,
            interval,
            sum_open_interest: hist.sum_open_interest@,
            sum_open_interest_value: hist.sum_open_interest_value@,
            timestamp: hist.timestamp as i64,
        }
    }

    /// Builds the row for one entry of the open-interest statistics, or
    /// refuses an entry whose timestamp is beyond `i64::MAX`.
    pub fn from_open_interest_hist(interval: String, hist: OpenInterestHist) -> (r: Result<
        Self,
        Error,
    >)
        ensures
            Self::fits(hist) ==> (r matches Ok(row) && row@ == Self::hist_row(interval@, hist)),
            !Self::fits(hist) ==> r matches Err(Error::TryFromNumber(_)),
    {
        match signed_timestamp(hist.timestamp) {
            Ok(timestamp) => Ok(
                Self {
                    symbol: hist.symbol,
                    interval,
                    sum_open_interest: hist.sum_open_interest,
                    sum_open_interest_value: hist.sum_open_interest_value,
                    timestamp,
                },
            ),
            Err(error) => Err(Error::TryFromNumber(error)),
        }
    }
}

} // verus!
