use marketdata::demo::load_demo_data;
use marketdata::schema::LoadError;

const WELL_FORMED: &str = "timestamp,open,high,low,close,volume\n\
2024-01-02,185.64,186.95,184.35,185.14,52430000\n\
2024-01-03,184.22,185.88,183.43,184.25,58410000\n\
2024-01-04,182.15,183.09,180.88,181.91,71980000\n";

#[test]
fn three_row_file_loads_three_records_in_order() {
    let records = load_demo_data(WELL_FORMED.as_bytes()).expect("well-formed file");
    assert_eq!(records.len(), 3);
    assert_eq!(records[0].timestamp, b"2024-01-02".to_vec());
    assert_eq!(records[1].timestamp, b"2024-01-03".to_vec());
    assert_eq!(records[2].timestamp, b"2024-01-04".to_vec());
    // 185.64 in ten-thousandths
    assert_eq!(records[0].open, 1_856_400);
    assert_eq!(records[0].high, 1_869_500);
    assert_eq!(records[0].low, 1_843_500);
    assert_eq!(records[0].close, 1_851_400);
    assert_eq!(records[0].volume, 52_430_000);
    assert_eq!(records[2].close, 1_819_100);
}

#[test]
fn file_missing_volume_column_is_schema_error() {
    let contents = "timestamp,open,high,low,close\n\
2024-01-02,185.64,186.95,184.35,185.14\n";
    assert_eq!(load_demo_data(contents.as_bytes()), Err(LoadError::SchemaError));
}

#[test]
fn row_missing_a_field_is_schema_error() {
    let contents = "timestamp,open,high,low,close,volume\n\
2024-01-02,185.64,186.95,184.35,185.14\n";
    assert_eq!(load_demo_data(contents.as_bytes()), Err(LoadError::SchemaError));
}

#[test]
fn malformed_price_field_is_schema_error() {
    let contents = "timestamp,open,high,low,close,volume\n\
2024-01-02,not-a-number,186.95,184.35,185.14,52430000\n";
    assert_eq!(load_demo_data(contents.as_bytes()), Err(LoadError::SchemaError));
}

#[test]
fn malformed_volume_field_is_schema_error() {
    let contents = "timestamp,open,high,low,close,volume\n\
2024-01-02,185.64,186.95,184.35,185.14,12.5\n";
    assert_eq!(load_demo_data(contents.as_bytes()), Err(LoadError::SchemaError));
}

#[test]
fn empty_file_is_schema_error() {
    assert_eq!(load_demo_data(b""), Err(LoadError::SchemaError));
}

#[test]
fn header_only_file_loads_zero_records() {
    let records = load_demo_data(b"timestamp,open,high,low,close,volume\n").unwrap();
    assert_eq!(records.len(), 0);
}

#[test]
fn wrong_header_order_is_schema_error() {
    let contents = "open,timestamp,high,low,close,volume\n\
185.64,2024-01-02,186.95,184.35,185.14,52430000\n";
    assert_eq!(load_demo_data(contents.as_bytes()), Err(LoadError::SchemaError));
}

#[test]
fn crlf_line_endings_load_the_same() {
    let contents = "timestamp,open,high,low,close,volume\r\n\
2024-01-02,185.64,186.95,184.35,185.14,52430000\r\n";
    let records = load_demo_data(contents.as_bytes()).unwrap();
    assert_eq!(records.len(), 1);
    assert_eq!(records[0].open, 1_856_400);
}

#[test]
fn file_without_trailing_newline_loads() {
    let contents = "timestamp,open,high,low,close,volume\n\
2024-01-02,185.64,186.95,184.35,185.14,52430000";
    let records = load_demo_data(contents.as_bytes()).unwrap();
    assert_eq!(records.len(), 1);
}

#[test]
fn negative_and_integer_prices_parse() {
    let contents = "timestamp,open,high,low,close,volume\n\
2024-01-02,-1.5,2,0.25,185,0\n";
    let records = load_demo_data(contents.as_bytes()).unwrap();
    assert_eq!(records[0].open, -15_000);
    assert_eq!(records[0].high, 20_000);
    assert_eq!(records[0].low, 2_500);
    assert_eq!(records[0].close, 1_850_000);
    assert_eq!(records[0].volume, 0);
}

#[test]
fn price_with_five_fraction_digits_is_schema_error() {
    let contents = "timestamp,open,high,low,close,volume\n\
2024-01-02,185.12345,186.95,184.35,185.14,52430000\n";
    assert_eq!(load_demo_data(contents.as_bytes()), Err(LoadError::SchemaError));
}
