//! The query list: which trading pairs to snapshot, read from CSV.
//!
//! The first record of the document is its header. Each later record is one
//! query, its fields found by the header's column names, whatever their
//! order; columns with other names are skipped. Reading the document into
//! records and decoding a record's fields are the `csv` crate's work; finding
//! the fields is done here.

use crate::error::Error;
use crate::text::same_text;
use csv::Error as CsvFailure;
use vstd::prelude::*;

verus! {

/// One trading pair to snapshot.
#[derive(Debug, PartialEq)]
pub struct KlineQuery {
    pub symbol: String,
    pub interval: String,
    pub limit: u16,
}

/// What a query holds, text as sequences of characters.
pub ghost struct KlineQueryView {
    pub symbol: Seq<char>,
    pub interval: Seq<char>,
    pub limit: u16,
}

impl View for KlineQuery {
    type V = KlineQueryView;

    open spec fn view(&self) -> KlineQueryView {
        KlineQueryView { symbol: self.symbol@, interval: self.interval@, limit: self.limit }
    }
}

/// The records of a CSV document as the `csv` crate reads them with its
/// default dialect and no header treatment: every record of the document in
/// order, each a list of fields. `None` where that reader reports an error,
/// as it does for records of unequal length and for fields that are not
/// UTF-8.
pub uninterp spec fn csv_records(data: Seq<u8>) -> Option<Seq<Seq<Seq<char>>>>;

/// Reads all records of a CSV document with `csv::Reader::records`, the
/// reader built by `csv::ReaderBuilder` with `has_headers(false)` so that the
/// header comes first among them. The result is `csv_records` of the bytes;
/// the first error of the reader ends the reading.
#[verifier::external_body]
fn read_records(data: &[u8]) -> (r: Result<Vec<Vec<String>>, CsvFailure>)
    ensures
        match r {
            Ok(records) => csv_records(data@) == Some(records.deep_view()),
            Err(_) => csv_records(data@) is None,
        },
{
    let mut reader = csv::ReaderBuilder::new().has_headers(false).from_reader(data);
    let mut records: Vec<Vec<String>> = Vec::new();
    for record in reader.records() {
        records.push(record?.iter().map(String::from).collect());
    }
    Ok(records)
}

/// What the `csv` crate decodes from a headerless record with these fields,
/// taken in order as a text, a text and a 16-bit number. `None` where it
/// reports an error, as it does for a record of fewer than three fields and
/// for a third field that it does not read as a number of 16 bits.
pub uninterp spec fn csv_fields(fields: Seq<Seq<char>>) -> Option<(Seq<char>, Seq<char>, u16)>;

/// Decodes the fields of one record with `csv::StringRecord::deserialize`,
/// no header given, as a pair of texts and a 16-bit number. The result is
/// `csv_fields` of the fields. Where there is one, the record has three
/// fields or more and the two texts are its first two fields as they stand.
#[verifier::external_body]
fn decode_fields(fields: Vec<String>) -> (r: Result<(String, String, u16), CsvFailure>)
    ensures
        match r {
            Ok(decoded) => csv_fields(fields.deep_view()) == Some(
                (decoded.0@, decoded.1@, decoded.2),
            ),
            Err(_) => csv_fields(fields.deep_view()) is None,
        },
        r matches Ok(decoded) ==> fields.len() >= 3 && decoded.0@ == fields[0]@ && decoded.1@
            == fields[1]@,
{
    let record = csv::StringRecord::from(fields);
    record.deserialize(None)
}

/// The header name of the symbol column.
pub open spec fn symbol_column() -> Seq<char> {
    seq!['s', 'y', 'm', 'b', 'o', 'l']
}

/// The header name of the interval column.
pub open spec fn interval_column() -> Seq<char> {
    seq!['i', 'n', 't', 'e', 'r', 'v', 'a', 'l']
}

/// The header name of the limit column.
pub open spec fn limit_column() -> Seq<char> {
    seq!['l', 'i', 'm', 'i', 't']
}

/// Whether `at` is the one place of the header that holds this name.
pub open spec fn stands_once(header: Seq<Seq<char>>, name: Seq<char>, at: int) -> bool {
    &&& 0 <= at < header.len()
    &&& header[at] == name
    &&& forall|j: int| #![trigger header[j]] 0 <= j < header.len() && header[j] == name ==> j == at
}

/// The place of a column in the header: where its name stands, if it stands
/// there exactly once.
pub open spec fn column(header: Seq<Seq<char>>, name: Seq<char>) -> Option<int> {
    if exists|at: int| stands_once(header, name, at) {
        Some(choose|at: int| stands_once(header, name, at))
    } else {
        None
    }
}

/// The fields of a record that make up its query, in the order symbol,
/// interval, limit. There are none where the header does not name each of
/// the three columns exactly once, or the record lacks a field for some
/// column of the header.
pub open spec fn query_fields(header: Seq<Seq<char>>, row: Seq<Seq<char>>) -> Seq<Seq<char>> {
    match (
        column(header, symbol_column()),
        column(header, interval_column()),
        column(header, limit_column()),
    ) {
        (Some(symbol), Some(interval), Some(limit)) => {
            if header.len() <= row.len() {
                seq![row[symbol], row[interval], row[limit]]
            } else {
                Seq::empty()
            }
        },
        _ => Seq::empty(),
    }
}

/// The query that a record writes under a header. There is one when the
/// record has the fields that make up a query and the `csv` crate decodes
/// them; its symbol and its interval are then the record's fields in those
/// two columns.
pub open spec fn decode_row(header: Seq<Seq<char>>, row: Seq<Seq<char>>) -> Option<
    KlineQueryView,
> {
    let fields = query_fields(header, row);
    match csv_fields(fields) {
        Some(decoded) => if fields.len() == 3 {
            Some(KlineQueryView { symbol: fields[0], interval: fields[1], limit: decoded.2 })
        } else {
            None
        },
        None => None,
    }
}

/// Finds the place of a column in a header.
fn find_column(header: &Vec<String>, name: &str) -> (r: Option<usize>)
    ensures
        column(header.deep_view(), name@) == match r {
            Some(at) => Some(at as int),
            None => None,
        },
        r matches Some(at) ==> at < header.len(),
{
    let ghost names = header.deep_view();
    let mut found: Option<usize> = None;
    let mut twice = false;
    let mut i: usize = 0;
    while i < header.len()
        invariant
            i <= header.len(),
            names == header.deep_view(),
            found is None ==> forall|j: int| 0 <= j < i ==> names[j] != name@,
            found matches Some(at) ==> at < i && names[at as int] == name@,
            found matches Some(at) ==> (twice <==> exists|j: int|
                0 <= j < i && j != at && names[j] == name@),
            found is None ==> !twice,
        decreases header.len() - i,
    {
        assert(names[i as int] == header@[i as int]@);
        if same_text(header[i].as_str(), name) {
            match found {
                Some(_) => {
                    twice = true;
                },
                None => {
                    found = Some(i);
                },
            }
        }
        i += 1;
    }
    if twice {
        proof {
            let first = found.unwrap() as int;
            let other = choose|j: int| 0 <= j < i && j != first && names[j] == name@;
            assert(names[other] == names[first]);
        }
        None
    } else {
        match found {
            Some(at) => {
                assert(stands_once(names, name@, at as int));
                Some(at)
            },
            None => None,
        }
    }
}

/// The three columns of a query in a header, each where the header has it.
struct Columns {
    symbol: Option<usize>,
    interval: Option<usize>,
    limit: Option<usize>,
    width: usize,
}

impl Columns {
    /// Whether these are the columns of this header.
    spec fn of(self, header: Seq<Seq<char>>) -> bool {
        &&& self.width == header.len()
        &&& column(header, symbol_column()) == Self::place(self.symbol)
        &&& column(header, interval_column()) == Self::place(self.interval)
        &&& column(header, limit_column()) == Self::place(self.limit)
        &&& self.symbol matches Some(at) ==> at < header.len()
        &&& self.interval matches Some(at) ==> at < header.len()
        &&& self.limit matches Some(at) ==> at < header.len()
    }

    /// A place as the specification counts it.
    spec fn place(at: Option<usize>) -> Option<int> {
        match at {
            Some(at) => Some(at as int),
            None => None,
        }
    }

    /// Finds the three columns in a header.
    fn find(header: &Vec<String>) -> (columns: Columns)
        ensures
            columns.of(header.deep_view()),
    {
        proof {
            reveal_strlit("symbol");
            reveal_strlit("interval");
            reveal_strlit("limit");
        }
        assert("symbol"@ =~= symbol_column());
        assert("interval"@ =~= interval_column());
        assert("limit"@ =~= limit_column());
        Columns {
            symbol: find_column(header, "symbol"),
            interval: find_column(header, "interval"),
            limit: find_column(header, "limit"),
            width: header.len(),
        }
    }

    /// Picks the fields of a record that make up its query.
    fn pick(&self, row: &Vec<String>, Ghost(header): Ghost<Seq<Seq<char>>>) -> (fields: Vec<String>)
        requires
            self.of(header),
        ensures
            fields.deep_view() == query_fields(header, row.deep_view()),
    {
        let mut fields: Vec<String> = Vec::new();
        match (self.symbol, self.interval, self.limit) {
            (Some(symbol), Some(interval), Some(limit)) => {
                if self.width <= row.len() {
                    fields.push(row[symbol].clone());
                    fields.push(row[interval].clone());
                    fields.push(row[limit].clone());
                }
            },
            _ => {},
        }
        fields
    }
}

impl KlineQuery {
    /// Whether every record after the header decodes under it.
    pub open spec fn all_decode(records: Seq<Seq<Seq<char>>>) -> bool {
        forall|j: int|
            #![trigger records[j]]
            1 <= j < records.len() ==> decode_row(records[0], records[j]) is Some
    }

    /// What loading a list of records comes to. The first record is the
    /// header. Where every later record decodes under it, the queries are
    /// those records decoded, in order. Where one does not, the `csv`
    /// crate's error for the first such record is returned, and no query.
    pub open spec fn loads(
        records: Seq<Seq<Seq<char>>>,
        r: Result<Vec<KlineQuery>, Error>,
    ) -> bool {
        match r {
            Ok(queries) => {
                &&& Self::all_decode(records)
                &&& queries.len() == if records.len() == 0 {
                    0
                } else {
                    records.len() - 1
                }
                &&& forall|i: int|
                    #![trigger queries[i]]
                    0 <= i < queries.len() ==> decode_row(records[0], records[i + 1]) == Some(
                        queries[i]@,
                    )
            },
            Err(error) => {
                &&& !Self::all_decode(records)
                &&& error matches Error::CSV(_)
            },
        }
    }

    /// Decodes the records of a query list: the header first, then one query
    /// per record.
    pub fn from_records(records: &Vec<Vec<String>>) -> (r: Result<Vec<KlineQuery>, Error>)
        ensures
            Self::loads(records.deep_view(), r),
    {
        let ghost all = records.deep_view();
        let mut queries: Vec<KlineQuery> = Vec::new();
        if records.len() == 0 {
            return Ok(queries);
        }
        let columns = Columns::find(&records[0]);
        let mut i: usize = 1;
        while i < records.len()
            invariant
                1 <= i <= records.len(),
                all == records.deep_view(),
                columns.of(all[0]),
                queries.len() == i - 1,
                forall|k: int|
                    #![trigger queries[k]]
                    0 <= k < queries.len() ==> decode_row(all[0], all[k + 1]) == Some(queries[k]@),
                forall|j: int|
                    #![trigger all[j]]
                    1 <= j < i ==> decode_row(all[0], all[j]) is Some,
            decreases records.len() - i,
        {
            let fields = columns.pick(&records[i], Ghost(all[0]));
            match decode_fields(fields) {
                Ok(decoded) => {
                    let query = KlineQuery {
                        symbol: decoded.0,
                        interval: decoded.1,
                        limit: decoded.2,
                    };
                    queries.push(query);
                },
                Err(error) => {
                    assert(decode_row(all[0], all[i as int]) is None);
                    return Err(Error::CSV(error));
                },
            }
            i += 1;
        }
        Ok(queries)
    }

    /// Loads the query list from the bytes of a CSV document. A document
    /// that the CSV reader refuses is an error; so is one with a record that
    /// does not decode. A document with a header alone, or with nothing at
    /// all, gives no queries.
    pub fn from_csv(data: &[u8]) -> (r: Result<Vec<KlineQuery>, Error>)
        ensures
            match csv_records(data@) {
                Some(records) => Self::loads(records, r),
                None => r matches Err(Error::CSV(_)),
            },
    {
        match read_records(data) {
            Ok(records) => Self::from_records(&records),
            Err(error) => Err(Error::CSV(error)),
        }
    }
}

} // verus!
