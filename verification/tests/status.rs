use firehose_events::status::{decimal_string, reason_label};
use firehose_events::taxonomy::{Compression, ErrorType, Stage};

#[test]
fn decimal_rendering() {
    assert_eq!(decimal_string(0), "0");
    assert_eq!(decimal_string(7), "7");
    assert_eq!(decimal_string(10), "10");
    assert_eq!(decimal_string(400), "400");
    assert_eq!(decimal_string(65535), "65535");
}

#[test]
fn reason_label_known_codes() {
    assert_eq!(reason_label(200), "OK");
    assert_eq!(reason_label(400), "Bad Request");
    assert_eq!(reason_label(404), "Not Found");
    assert_eq!(reason_label(500), "Internal Server Error");
}

#[test]
fn reason_label_unknown_codes() {
    assert_eq!(reason_label(599), "unknown status code");
    assert_eq!(reason_label(99), "unknown status code");
    assert_eq!(reason_label(1000), "unknown status code");
    assert_eq!(reason_label(0), "unknown status code");
}

#[test]
fn taxonomy_labels() {
    assert_eq!(Stage::Receiving.label(), "receiving");
    assert_eq!(Stage::Processing.label(), "processing");
    assert_eq!(ErrorType::RequestFailed.label(), "request_failed");
    assert_eq!(ErrorType::ParserFailed.label(), "parser_failed");
    assert_eq!(Compression::Auto.label(), "auto");
    assert_eq!(Compression::Gzip.label(), "gzip");
    assert_eq!(Compression::Uncompressed.label(), "none");
}
