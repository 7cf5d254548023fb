use snapshot::{Error, ErrorKind, KlineQuery};

fn query(symbol: &str, interval: &str, limit: u16) -> KlineQuery {
    KlineQuery {
        symbol: symbol.into(),
        interval: interval.into(),
        limit,
    }
}

fn records(rows: &[&[&str]]) -> Vec<Vec<String>> {
    rows.iter()
        .map(|row| row.iter().map(|field| field.to_string()).collect())
        .collect()
}

#[test]
fn read_kline_argument_from_csv() {
    let results =
        KlineQuery::from_csv(b"symbol,interval,limit\nBTCUSDT,1d,1500\nETHUSDT,1d,1500\n").unwrap();

    let arguments = vec![
        KlineQuery {
            symbol: "BTCUSDT".into(),
            interval: "1d".into(),
            limit: 1500,
        },
        KlineQuery {
            symbol: "ETHUSDT".into(),
            interval: "1d".into(),
            limit: 1500,
        },
    ];

    assert_eq!(arguments, results)
}

#[test]
fn csv_with_a_header_alone_gives_no_queries() {
    assert_eq!(
        KlineQuery::from_csv(b"symbol,interval,limit\n").unwrap(),
        vec![]
    );
}

#[test]
fn empty_csv_gives_no_queries() {
    assert_eq!(KlineQuery::from_csv(b"").unwrap(), vec![]);
}

#[test]
fn csv_without_final_newline() {
    assert_eq!(
        KlineQuery::from_csv(b"symbol,interval,limit\nBTCUSDT,1h,10").unwrap(),
        vec![query("BTCUSDT", "1h", 10)]
    );
}

#[test]
fn csv_columns_are_found_by_name() {
    assert_eq!(
        KlineQuery::from_csv(b"limit,note,symbol,interval\n7,first,BNBBTC,5m\n").unwrap(),
        vec![query("BNBBTC", "5m", 7)]
    );
}

#[test]
fn csv_quoted_fields() {
    assert_eq!(
        KlineQuery::from_csv(b"symbol,interval,limit\n\"BTC,USDT\",\"1d\",\"1500\"\n").unwrap(),
        vec![query("BTC,USDT", "1d", 1500)]
    );
}

#[test]
fn csv_record_with_too_few_fields_is_refused_by_the_reader() {
    let error = KlineQuery::from_csv(b"symbol,interval,limit\nBTCUSDT,1d\n").unwrap_err();
    assert!(matches!(error, Error::CSV(_)));
    assert_eq!(error.kind(), ErrorKind::Parse);
}

#[test]
fn csv_record_with_too_many_fields_is_refused_by_the_reader() {
    assert!(matches!(
        KlineQuery::from_csv(b"symbol,interval,limit\nBTCUSDT,1d,5,6\n"),
        Err(Error::CSV(_))
    ));
}

#[test]
fn csv_bytes_that_are_not_utf8_are_refused_by_the_reader() {
    assert!(matches!(
        KlineQuery::from_csv(b"symbol,interval,limit\nBTC\xffUSDT,1d,5\n"),
        Err(Error::CSV(_))
    ));
}

#[test]
fn csv_limit_that_is_no_number() {
    let error =
        KlineQuery::from_csv(b"symbol,interval,limit\nBTCUSDT,1d,1500\nETHUSDT,1d,many\n")
            .unwrap_err();
    assert!(matches!(error, Error::CSV(_)));
    assert_eq!(error.kind(), ErrorKind::Parse);
}

#[test]
fn csv_with_a_record_that_does_not_decode_gives_no_queries() {
    let result =
        KlineQuery::from_csv(b"symbol,interval,limit\nBTCUSDT,1d,1500\nETHUSDT,1d,abc\n");
    assert!(matches!(result, Err(Error::CSV(_))));
}

#[test]
fn csv_limit_above_sixteen_bits() {
    assert!(matches!(
        KlineQuery::from_csv(b"symbol,interval,limit\nBTCUSDT,1d,65536\n"),
        Err(Error::CSV(_))
    ));
    assert_eq!(
        KlineQuery::from_csv(b"symbol,interval,limit\nBTCUSDT,1d,65535\n").unwrap(),
        vec![query("BTCUSDT", "1d", 65535)]
    );
}

#[test]
fn csv_header_without_a_column() {
    assert!(matches!(
        KlineQuery::from_csv(b"symbol,interval\nBTCUSDT,1d\n"),
        Err(Error::CSV(_))
    ));
    assert_eq!(KlineQuery::from_csv(b"symbol,interval\n").unwrap(), vec![]);
}

#[test]
fn csv_header_with_a_column_twice() {
    assert!(matches!(
        KlineQuery::from_csv(b"symbol,interval,limit,symbol\nBTCUSDT,1d,5,ETHUSDT\n"),
        Err(Error::CSV(_))
    ));
}

#[test]
fn csv_header_names_are_case_sensitive() {
    assert!(matches!(
        KlineQuery::from_csv(b"Symbol,interval,limit\nBTCUSDT,1d,5\n"),
        Err(Error::CSV(_))
    ));
}

#[test]
fn records_decode_in_order() {
    let rows = records(&[
        &["symbol", "interval", "limit"],
        &["BTCUSDT", "1d", "1500"],
        &["ETHUSDT", "4h", "0x10"],
        &["BNBUSDT", "1m", "+3"],
    ]);
    assert_eq!(
        KlineQuery::from_records(&rows).unwrap(),
        vec![
            query("BTCUSDT", "1d", 1500),
            query("ETHUSDT", "4h", 16),
            query("BNBUSDT", "1m", 3),
        ]
    );
}

#[test]
fn records_report_the_first_that_does_not_decode() {
    let rows = records(&[
        &["symbol", "interval", "limit"],
        &["BTCUSDT", "1d", "1500"],
        &["ETHUSDT", "4h", ""],
        &["BNBUSDT", "1m", "x"],
    ]);
    assert!(matches!(
        KlineQuery::from_records(&rows),
        Err(Error::CSV(_))
    ));
}

#[test]
fn record_shorter_than_the_header() {
    let rows = records(&[
        &["symbol", "interval", "limit", "note"],
        &["BTCUSDT", "1d", "1500"],
    ]);
    assert!(matches!(
        KlineQuery::from_records(&rows),
        Err(Error::CSV(_))
    ));
}

#[test]
fn record_longer_than_the_header() {
    let rows = records(&[
        &["symbol", "interval", "limit"],
        &["BTCUSDT", "1d", "1500", "extra"],
    ]);
    assert_eq!(
        KlineQuery::from_records(&rows).unwrap(),
        vec![query("BTCUSDT", "1d", 1500)]
    );
}

#[test]
fn no_records_give_no_queries() {
    assert_eq!(KlineQuery::from_records(&Vec::new()).unwrap(), vec![]);
}

fn limit_of(text: &str) -> Option<u16> {
    let rows = records(&[&["symbol", "interval", "limit"], &["BTCUSDT", "1d", text]]);
    KlineQuery::from_records(&rows).ok().map(|queries| queries[0].limit)
}

#[test]
fn limits_in_decimal() {
    assert_eq!(limit_of("0"), Some(0));
    assert_eq!(limit_of("1500"), Some(1500));
    assert_eq!(limit_of("65535"), Some(65535));
    assert_eq!(limit_of("65536"), None);
    assert_eq!(limit_of("0001500"), Some(1500));
    assert_eq!(limit_of("+12"), Some(12));
}

#[test]
fn limits_in_hexadecimal() {
    assert_eq!(limit_of("0x10"), Some(16));
    assert_eq!(limit_of("0xffff"), Some(65535));
    assert_eq!(limit_of("0x10000"), None);
    assert_eq!(limit_of("0x"), None);
    assert_eq!(limit_of("0X10"), None);
}

#[test]
fn texts_that_are_no_limit() {
    assert_eq!(limit_of(""), None);
    assert_eq!(limit_of("+"), None);
    assert_eq!(limit_of("-1"), None);
    assert_eq!(limit_of(" 1"), None);
    assert_eq!(limit_of("1 "), None);
    assert_eq!(limit_of("1_000"), None);
    assert_eq!(limit_of("12a"), None);
    assert_eq!(limit_of("1.0"), None);
    assert_eq!(limit_of("many"), None);
}

#[test]
fn limits_are_read_as_the_csv_crate_reads_them() {
    let texts = [
        "", "0", "7", "42", "1500", "65535", "65536", "99999", "000000000000000000065535",
        "4294967296", "+", "-", "+0", "-0", "+65535", "++1", "1+", "a", "0x", "0xf", "0xF",
        "0xg", "0xffff", "0x10000", "0x+a", "0X1", "x1", " 1", "1 ", "1,5", "1e3",
    ];
    for text in texts {
        let record = csv::StringRecord::from(vec!["BTCUSDT", "1d", text]);
        let reference = record
            .deserialize::<(String, String, u16)>(None)
            .ok()
            .map(|decoded| decoded.2);
        assert_eq!(limit_of(text), reference, "text {:?}", text);
    }
}

#[test]
fn symbol_and_interval_are_taken_as_they_stand() {
    let rows = records(&[
        &["interval", "limit", "symbol"],
        &[" 1d ", "5", "btc usdt"],
        &["", "6", ""],
        &["0x10", "7", "12"],
    ]);
    assert_eq!(
        KlineQuery::from_records(&rows).unwrap(),
        vec![query("btc usdt", " 1d ", 5), query("", "", 6), query("12", "0x10", 7)]
    );
}
