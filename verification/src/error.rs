use binance::errors::Error as ExchangeFailure;
use csv::Error as CsvFailure;
use diesel::result::Error as StorageFailure;
use std::num::TryFromIntError;
use vstd::prelude::*;
use vstd::std_specs::convert::FromSpecImpl;

verus! {

/// `std::io::Error`, carried through unopened.
#[verifier::external_type_specification]
#[verifier::external_body]
pub struct ExIoError(std::io::Error);

/// `csv::Error`, carried through unopened.
#[verifier::external_type_specification]
#[verifier::external_body]
pub struct ExCsvError(CsvFailure);

/// `binance::errors::Error`, carried through unopened.
#[verifier::external_type_specification]
#[verifier::external_body]
pub struct ExBinanceError(ExchangeFailure);

/// `diesel::result::Error`, carried through unopened.
#[verifier::external_type_specification]
#[verifier::external_body]
pub struct ExDieselError(StorageFailure);

/// The failure classes that callers act upon.
#[derive(Debug, Clone, Copy, PartialEq, Eq, Structural)]
pub enum ErrorKind {
    /// A file or the network could not be reached.
    IO,
    /// The query list or a market name could not be decoded.
    Parse,
    /// The exchange reported a failure.
    RemoteClient,
    /// The database refused a write.
    Storage,
    /// An exchange timestamp does not fit the row's signed 64-bit column.
    NumericOverflow,
}

/// Everything that can stop a snapshot.
#[derive(Debug)]
pub enum Error {
    /// A file could not be read.
    IO(std::io::Error),
    /// The CSV reader refused the query list.
    CSV(CsvFailure),
    /// The exchange reported a failure.
    BinanceClient(ExchangeFailure),
    /// The database refused a write.
    Diesel(StorageFailure),
    /// This text names no market.
    ParseStr(String),
    /// A timestamp does not fit a signed 64-bit column.
    TryFromNumber(TryFromIntError),
}

impl Error {
    /// The class of this error: a query list that cannot be read and an
    /// unknown market name are parse errors, every other variant is a class
    /// of its own.
    pub open spec fn spec_kind(&self) -> ErrorKind {
        match *self {
            Error::IO(_) => ErrorKind::IO,
            Error::CSV(_) => ErrorKind::Parse,
            Error::ParseStr(_) => ErrorKind::Parse,
            Error::BinanceClient(_) => ErrorKind::RemoteClient,
            Error::Diesel(_) => ErrorKind::Storage,
            Error::TryFromNumber(_) => ErrorKind::NumericOverflow,
        }
    }

    /// The class of this error.
    #[verifier::when_used_as_spec(spec_kind)]
    pub fn kind(&self) -> (k: ErrorKind)
        ensures
            k == self.spec_kind(),
    {
        match self {
            Error::IO(_) => ErrorKind::IO,
            Error::CSV(_) => ErrorKind::Parse,
            Error::ParseStr(_) => ErrorKind::Parse,
            Error::BinanceClient(_) => ErrorKind::RemoteClient,
            Error::Diesel(_) => ErrorKind::Storage,
            Error::TryFromNumber(_) => ErrorKind::NumericOverflow,
        }
    }
}

impl Error {
    /// The text of this error: a text that names no market is shown as it
    /// is, every other error as the failure inside it shows itself.
    pub fn message(&self) -> (text: String)
        ensures
            self matches Error::ParseStr(source) ==> text@ == source@,
    {
        match self {
            Error::IO(error) => error.to_string(),
            Error::CSV(error) => error.to_string(),
            Error::BinanceClient(error) => error.to_string(),
            Error::Diesel(error) => error.to_string(),
            Error::ParseStr(source) => source.clone(),
            Error::TryFromNumber(error) => error.to_string(),
        }
    }
}

impl From<std::io::Error> for Error {
    fn from(error: std::io::Error) -> (r: Self) {
        Error::IO(error)
    }
}

impl FromSpecImpl<std::io::Error> for Error {
    open spec fn obeys_from_spec() -> bool {
        true
    }

    open spec fn from_spec(error: std::io::Error) -> Self {
        Error::IO(error)
    }
}

impl From<CsvFailure> for Error {
    fn from(error: CsvFailure) -> (r: Self) {
        Error::CSV(error)
    }
}

impl FromSpecImpl<CsvFailure> for Error {
    open spec fn obeys_from_spec() -> bool {
        true
    }

    open spec fn from_spec(error: CsvFailure) -> Self {
        Error::CSV(error)
    }
}

impl From<ExchangeFailure> for Error {
    fn from(error: ExchangeFailure) -> (r: Self) {
        Error::BinanceClient(error)
    }
}

impl FromSpecImpl<ExchangeFailure> for Error {
    open spec fn obeys_from_spec() -> bool {
        true
    }

    open spec fn from_spec(error: ExchangeFailure) -> Self {
        Error::BinanceClient(error)
    }
}

impl From<StorageFailure> for Error {
    fn from(error: StorageFailure) -> (r: Self) {
        Error::Diesel(error)
    }
}

impl FromSpecImpl<StorageFailure> for Error {
    open spec fn obeys_from_spec() -> bool {
        true
    }

    open spec fn from_spec(error: StorageFailure) -> Self {
        Error::Diesel(error)
    }
}

impl From<TryFromIntError> for Error {
    fn from(error: TryFromIntError) -> (r: Self) {
        Error::TryFromNumber(error)
    }
}

impl FromSpecImpl<TryFromIntError> for Error {
    open spec fn obeys_from_spec() -> bool {
        true
    }

    open spec fn from_spec(error: TryFromIntError) -> Self {
        Error::TryFromNumber(error)
    }
}

} // verus!
