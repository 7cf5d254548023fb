//! The candlestick stream: which topics to subscribe to and what to do with
//! each event.

use crate::exchange::{KlineEvent, StreamEvent};
use crate::kline::Kline;
use crate::market::MarketEndpoint;
use crate::query::KlineQuery;
use vstd::prelude::*;
use vstd::string::*;

verus! {

/// The lowercase equivalent of a text as `str::to_lowercase` gives it, by
/// the lowercase mappings of Unicode. It depends on the text alone.
pub uninterp spec fn lowercase(text: Seq<char>) -> Seq<char>;

/// Lowercases a text with `str::to_lowercase`. The result is `lowercase` of
/// the text.
#[verifier::external_body]
fn to_lowercase(text: &str) -> (lowered: String)
    ensures
        lowered@ == lowercase(text@),
{
    text.to_lowercase()
}

/// What stands between the symbol and the interval in a topic.
pub open spec fn topic_infix() -> Seq<char> {
    seq!['@', 'k', 'l', 'i', 'n', 'e', '_']
}

/// The topic made of an already lowercased symbol and an interval.
pub open spec fn joined_topic(symbol: Seq<char>, interval: Seq<char>) -> Seq<char> {
    symbol + topic_infix() + interval
}

/// Joins an already lowercased symbol and an interval into the topic
/// `symbol@kline_interval`.
pub fn join_topic(symbol: &str, interval: &str) -> (topic: String)
    ensures
        topic@ == joined_topic(symbol@, interval@),
{
    proof {
        reveal_strlit("@kline_");
    }
    let mut topic = symbol.to_owned();
    topic.append("@kline_");
    topic.append(interval);
    topic
}

/// The topic of a query: its symbol in lowercase, then `@kline_`, then the
/// given interval or, without one, the query's own.
pub open spec fn topic_of(query: KlineQuery, interval: Option<String>) -> Seq<char> {
    joined_topic(lowercase(query.symbol@), query.chosen_interval(interval))
}

/// Names the stream topic of a query.
pub fn topic(query: &KlineQuery, interval: &Option<String>) -> (topic: String)
    ensures
        topic@ == topic_of(*query, *interval),
{
    let symbol = to_lowercase(query.symbol.as_str());
    match interval {
        Some(given) => join_topic(symbol.as_str(), given.as_str()),
        None => join_topic(symbol.as_str(), query.interval.as_str()),
    }
}

/// Names the stream topics of a list of queries: one topic per query, in
/// the list's order.
pub fn topics(queries: &Vec<KlineQuery>, interval: &Option<String>) -> (topics: Vec<String>)
    ensures
        topics.len() == queries.len(),
        forall|i: int|
            #![trigger topics[i]]
            0 <= i < topics.len() ==> topics[i]@ == topic_of(queries[i], *interval),
{
    let mut topics: Vec<String> = Vec::new();
    let mut i: usize = 0;
    while i < queries.len()
        invariant
            i <= queries.len(),
            topics.len() == i,
            forall|k: int|
                #![trigger topics[k]]
                0 <= k < topics.len() ==> topics[k]@ == topic_of(queries[k], *interval),
        decreases queries.len() - i,
    {
        topics.push(topic(&queries[i], interval));
        i += 1;
    }
    topics
}

/// What to do with one event of the stream.
#[derive(Debug, PartialEq)]
pub enum StreamAction {
    /// A candlestick has closed: store this row.
    Upsert(Kline),
    /// The candlestick is still open: store nothing. The event is handed
    /// back for the log.
    Discard(KlineEvent),
    /// No candlestick event at all: store nothing.
    Ignore,
}

impl MarketEndpoint {
    /// Decides what to do with one event of this market's stream. A row is
    /// stored for a candlestick event whose bar is final, and for nothing
    /// else.
    pub fn on_event(&self, event: StreamEvent) -> (action: StreamAction)
        ensures
            match event {
                StreamEvent::Kline(update) => if update.kline.is_final_bar {
                    action matches StreamAction::Upsert(row) && row@ == Kline::event_row(
                        *self,
                        update,
                    )
                } else {
                    action == StreamAction::Discard(update)
                },
                StreamEvent::Other => action == StreamAction::Ignore,
            },
            action is Upsert <==> (event matches StreamEvent::Kline(update)
                && update.kline.is_final_bar),
    {
        match event {
            StreamEvent::Kline(update) => {
                if update.kline.is_final_bar {
                    StreamAction::Upsert(Kline::from_kline_event(*self, update))
                } else {
                    StreamAction::Discard(update)
                }
            },
            StreamEvent::Other => StreamAction::Ignore,
        }
    }
}

} // verus!
