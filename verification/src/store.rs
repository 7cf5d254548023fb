//! What storage is taken to do with the rows it is handed.
//!
//! The database itself lies outside this library. Here a table is a map from
//! identifying columns to rows, and an upsert puts a row under its own
//! columns, replacing the row that was there. The laws below hold of that
//! reading of the table, and so of every writer that behaves like it.

use crate::exchange::KlineSummary;
use crate::fetch::listing_rows;
use crate::kline::{KlineKey, KlineView};
use crate::market::MarketEndpoint;
use crate::open_interest::{OpenInterestKey, OpenInterestSummaryView};
use vstd::prelude::*;

verus! {

/// Whether every row of the table is stored under its own identifying
/// columns.
pub open spec fn well_keyed<K, R>(table: Map<K, R>, key_of: spec_fn(R) -> K) -> bool {
    forall|key: K| #[trigger] table.contains_key(key) ==> key_of(table[key]) == key
}

/// The table after one row is upserted.
pub open spec fn upserted<K, R>(table: Map<K, R>, key_of: spec_fn(R) -> K, row: R) -> Map<K, R> {
    table.insert(key_of(row), row)
}

/// The table after a list of rows is upserted, first row first.
pub open spec fn upserted_all<K, R>(table: Map<K, R>, key_of: spec_fn(R) -> K, rows: Seq<R>) -> Map<
    K,
    R,
>
    decreases rows.len(),
{
    if rows.len() == 0 {
        table
    } else {
        upserted(upserted_all(table, key_of, rows.drop_last()), key_of, rows.last())
    }
}

/// The identifying columns of a candlestick row.
pub open spec fn kline_key() -> spec_fn(KlineView) -> KlineKey {
    |row: KlineView| row.key()
}

/// The identifying columns of an open-interest row.
pub open spec fn open_interest_key() -> spec_fn(OpenInterestSummaryView) -> OpenInterestKey {
    |row: OpenInterestSummaryView| row.key()
}

/// An upsert keeps every row under its own identifying columns.
pub proof fn law_upsert_keeps_keys<K, R>(table: Map<K, R>, key_of: spec_fn(R) -> K, row: R)
    requires
        well_keyed(table, key_of),
    ensures
        well_keyed(upserted(table, key_of, row), key_of),
{
}

/// Upserting a row whose identifying columns are already in the table puts
/// the new row in the old one's place: every column of the stored row is the
/// new row's, its identifying columns are what they were, no row is added
/// and no other row changes.
pub proof fn law_upsert_replaces<K, R>(table: Map<K, R>, key_of: spec_fn(R) -> K, row: R)
    requires
        well_keyed(table, key_of),
        table.contains_key(key_of(row)),
    ensures
        upserted(table, key_of, row)[key_of(row)] == row,
        key_of(upserted(table, key_of, row)[key_of(row)]) == key_of(table[key_of(row)]),
        upserted(table, key_of, row).dom() == table.dom(),
        forall|key: K|
            key != key_of(row) && table.contains_key(key) ==> #[trigger] upserted(
                table,
                key_of,
                row,
            )[key] == table[key],
{
}

/// Upserting a row whose identifying columns are not yet in the table adds
/// it and changes no other row.
pub proof fn law_upsert_adds<K, R>(table: Map<K, R>, key_of: spec_fn(R) -> K, row: R)
    requires
        !table.contains_key(key_of(row)),
    ensures
        upserted(table, key_of, row)[key_of(row)] == row,
        upserted(table, key_of, row).dom() == table.dom().insert(key_of(row)),
        forall|key: K|
            table.contains_key(key) ==> #[trigger] upserted(table, key_of, row)[key] == table[key],
{
}

/// Upserting a row that the table already holds unchanged leaves the whole
/// table as it was.
pub proof fn law_upsert_unchanged_row<K, R>(table: Map<K, R>, key_of: spec_fn(R) -> K, row: R)
    requires
        table.contains_key(key_of(row)),
        table[key_of(row)] == row,
    ensures
        upserted(table, key_of, row) == table,
{
}

/// Upserting the same row a second time changes nothing.
pub proof fn law_upsert_twice<K, R>(table: Map<K, R>, key_of: spec_fn(R) -> K, row: R)
    ensures
        upserted(upserted(table, key_of, row), key_of, row) == upserted(table, key_of, row),
{
    law_upsert_unchanged_row(upserted(table, key_of, row), key_of, row);
}

/// Upserting a list of rows comes to laying over the table what the list
/// alone would store.
proof fn lemma_upserted_all_overlays<K, R>(table: Map<K, R>, key_of: spec_fn(R) -> K, rows: Seq<R>)
    ensures
        upserted_all(table, key_of, rows) == table.union_prefer_right(
            upserted_all(Map::empty(), key_of, rows),
        ),
    decreases rows.len(),
{
    if rows.len() > 0 {
        let front = rows.drop_last();
        lemma_upserted_all_overlays(table, key_of, front);
        let alone = upserted_all(Map::<K, R>::empty(), key_of, front);
        assert(upserted(table.union_prefer_right(alone), key_of, rows.last())
            =~= table.union_prefer_right(upserted(alone, key_of, rows.last())));
    }
}

/// Upserting the same list of rows a second time changes nothing: after the
/// first pass the table holds, for each identifying columns in the list, the
/// last row that the list has for them, and the second pass stores the same.
pub proof fn law_upsert_all_twice<K, R>(table: Map<K, R>, key_of: spec_fn(R) -> K, rows: Seq<R>)
    ensures
        upserted_all(upserted_all(table, key_of, rows), key_of, rows) == upserted_all(
            table,
            key_of,
            rows,
        ),
{
    let once = upserted_all(table, key_of, rows);
    let alone = upserted_all(Map::<K, R>::empty(), key_of, rows);
    lemma_upserted_all_overlays(table, key_of, rows);
    lemma_upserted_all_overlays(once, key_of, rows);
    assert(table.union_prefer_right(alone).union_prefer_right(alone) =~= table.union_prefer_right(
        alone,
    ));
}

/// Storing the rows of the same historical listing a second time changes
/// nothing in the candlestick table.
pub proof fn law_refetch_changes_nothing(
    table: Map<KlineKey, KlineView>,
    symbol: Seq<char>,
    market: MarketEndpoint,
    summaries: Seq<KlineSummary>,
)
    ensures
        upserted_all(
            upserted_all(table, kline_key(), listing_rows(symbol, market, summaries)),
            kline_key(),
            listing_rows(symbol, market, summaries),
        ) == upserted_all(table, kline_key(), listing_rows(symbol, market, summaries)),
{
    law_upsert_all_twice(table, kline_key(), listing_rows(symbol, market, summaries));
}

} // verus!
