//! The closed set of markets and the two names each one goes by.

use crate::error::Error;
use crate::text::same_text;
use std::str::FromStr;
use vstd::prelude::*;

verus! {

/// The exchange market families that can be queried.
#[derive(Debug, Clone, Copy, PartialEq, Eq, Structural)]
pub enum MarketEndpoint {
    /// The spot market.
    Spot,
    /// USD-margined futures.
    USDM,
}

impl MarketEndpoint {
    /// The name that selects this market on the command line.
    pub open spec fn name(self) -> Seq<char> {
        match self {
            MarketEndpoint::Spot => seq!['s', 'p', 'o', 't'],
            MarketEndpoint::USDM => seq!['u', 's', 'd', 'm'],
        }
    }

    /// The value under which rows of this market are stored.
    pub open spec fn tag(self) -> Seq<char> {
        match self {
            MarketEndpoint::Spot => seq!['S', 'P', 'O', 'T'],
            MarketEndpoint::USDM => seq!['U', 'S', 'D', 'M'],
        }
    }

    /// The market that a name selects: an exact, case-sensitive match or none.
    pub open spec fn named(s: Seq<char>) -> Option<MarketEndpoint> {
        if s == MarketEndpoint::Spot.name() {
            Some(MarketEndpoint::Spot)
        } else if s == MarketEndpoint::USDM.name() {
            Some(MarketEndpoint::USDM)
        } else {
            None
        }
    }

    /// The literal that the database's market enumeration stores for this
    /// market.
    pub fn to_sql(&self) -> (tag: &'static str)
        ensures
            tag@ == self.tag(),
    {
        match self {
            MarketEndpoint::Spot => {
                proof {
                    reveal_strlit("SPOT");
                }
                "SPOT"
            },
            MarketEndpoint::USDM => {
                proof {
                    reveal_strlit("USDM");
                }
                "USDM"
            },
        }
    }
}

/// Each market is the one that its own name selects, and the two markets
/// are stored under different literals.
pub proof fn law_names_tell_markets_apart(market: MarketEndpoint)
    ensures
        MarketEndpoint::named(market.name()) == Some(market),
        MarketEndpoint::Spot.tag() != MarketEndpoint::USDM.tag(),
{
}

impl FromStr for MarketEndpoint {
    type Err = Error;

    /// Decodes a market name. Any text other than the two names is refused and
    /// handed back inside the error.
    fn from_str(s: &str) -> (r: Result<Self, Error>)
        ensures
            match MarketEndpoint::named(s@) {
                Some(market) => r matches Ok(m) && m == market,
                None => r matches Err(Error::ParseStr(source)) && source@ == s@,
            },
    {
        proof {
            reveal_strlit("spot");
            reveal_strlit("usdm");
        }
        assert("spot"@ =~= MarketEndpoint::Spot.name());
        assert("usdm"@ =~= MarketEndpoint::USDM.name());
        if same_text(s, "spot") {
            Ok(MarketEndpoint::Spot)
        } else if same_text(s, "usdm") {
            Ok(MarketEndpoint::USDM)
        } else {
            Err(Error::ParseStr(s.to_owned()))
        }
    }
}

} // verus!
