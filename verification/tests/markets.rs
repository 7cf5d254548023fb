use snapshot::{Error, ErrorKind, MarketEndpoint};
use std::str::FromStr;

#[test]
fn market_names_are_decoded() {
    assert_eq!(MarketEndpoint::from_str("spot").unwrap(), MarketEndpoint::Spot);
    assert_eq!(MarketEndpoint::from_str("usdm").unwrap(), MarketEndpoint::USDM);
}

#[test]
fn unknown_market_name_is_refused() {
    let error = MarketEndpoint::from_str("margin").unwrap_err();
    assert_eq!(error.kind(), ErrorKind::Parse);
    match error {
        Error::ParseStr(source) => assert_eq!(source, "margin"),
        other => panic!("unexpected error {:?}", other),
    }
}

#[test]
fn market_names_are_case_sensitive() {
    assert!(matches!(MarketEndpoint::from_str("Spot"), Err(Error::ParseStr(_))));
    assert!(matches!(MarketEndpoint::from_str("SPOT"), Err(Error::ParseStr(_))));
    assert!(matches!(MarketEndpoint::from_str("USDM"), Err(Error::ParseStr(_))));
    assert!(matches!(MarketEndpoint::from_str(""), Err(Error::ParseStr(_))));
    assert!(matches!(MarketEndpoint::from_str(" spot"), Err(Error::ParseStr(_))));
    assert!(matches!(MarketEndpoint::from_str("spot "), Err(Error::ParseStr(_))));
}

#[test]
fn market_names_parse_through_the_standard_trait() {
    assert_eq!("usdm".parse::<MarketEndpoint>().unwrap(), MarketEndpoint::USDM);
    assert!("futures".parse::<MarketEndpoint>().is_err());
    assert_eq!(
        <MarketEndpoint as FromStr>::from_str("spot").unwrap(),
        MarketEndpoint::Spot
    );
}

#[test]
fn stored_literals() {
    assert_eq!(MarketEndpoint::Spot.to_sql(), "SPOT");
    assert_eq!(MarketEndpoint::USDM.to_sql(), "USDM");
}

#[test]
fn error_kinds() {
    let io = std::io::Error::new(std::io::ErrorKind::NotFound, "no such file");
    assert_eq!(Error::IO(io).kind(), ErrorKind::IO);
    assert_eq!(Error::ParseStr("margin".into()).kind(), ErrorKind::Parse);
    assert_eq!(
        Error::Diesel(diesel::result::Error::NotFound).kind(),
        ErrorKind::Storage
    );
    let remote: binance::errors::Error = binance::errors::ErrorKind::Msg("down".into()).into();
    assert_eq!(Error::BinanceClient(remote).kind(), ErrorKind::RemoteClient);
}

#[test]
fn outside_failures_convert_into_their_variant() {
    let io = std::io::Error::new(std::io::ErrorKind::NotFound, "no such file");
    assert!(matches!(Error::from(io), Error::IO(_)));
    assert!(matches!(
        Error::from(diesel::result::Error::NotFound),
        Error::Diesel(diesel::result::Error::NotFound)
    ));
    let remote: binance::errors::Error = binance::errors::ErrorKind::Msg("down".into()).into();
    assert!(matches!(Error::from(remote), Error::BinanceClient(_)));
    let overflow = i64::try_from(u64::MAX).unwrap_err();
    assert!(matches!(Error::from(overflow), Error::TryFromNumber(_)));
    let mut reader = csv::ReaderBuilder::new()
        .has_headers(false)
        .from_reader(&b"a,b\n1\n"[..]);
    let unequal = reader.records().find_map(|record| record.err()).unwrap();
    assert!(matches!(Error::from(unequal), Error::CSV(_)));
}

#[test]
fn refused_market_name_is_shown_bare() {
    assert_eq!(MarketEndpoint::from_str("margin").unwrap_err().message(), "margin");
    assert_eq!(Error::ParseStr(String::new()).message(), "");
}

#[test]
fn outside_failures_show_themselves() {
    let io = std::io::Error::new(std::io::ErrorKind::NotFound, "no such file");
    assert_eq!(Error::IO(io).message(), "no such file");
    assert_eq!(
        Error::Diesel(diesel::result::Error::NotFound).message(),
        diesel::result::Error::NotFound.to_string()
    );
    let remote: binance::errors::Error = binance::errors::ErrorKind::Msg("down".into()).into();
    assert_eq!(Error::BinanceClient(remote).message(), "down");
    let overflow = i64::try_from(u64::MAX).unwrap_err();
    assert_eq!(Error::from(overflow).message(), overflow.to_string());
}
