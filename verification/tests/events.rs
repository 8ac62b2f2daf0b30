use firehose_events::events::{
    AwsKinesisFirehoseAutomaticRecordDecodeError, AwsKinesisFirehoseRequestError,
    AwsKinesisFirehoseRequestReceived, InternalEvent,
};
use firehose_events::sink::{LogSink, MetricSink, Severity};
use firehose_events::taxonomy::Compression;

fn pairs(v: &[(String, String)]) -> Vec<(&str, &str)> {
    v.iter().map(|(k, val)| (k.as_str(), val.as_str())).collect()
}

#[test]
fn request_received_counts_one_without_ids() {
    let mut metrics = MetricSink::new();
    let ev = AwsKinesisFirehoseRequestReceived { request_id: None, source_arn: None };
    ev.emit_metrics(&mut metrics);
    assert_eq!(metrics.incs.len(), 1);
    assert_eq!(metrics.incs[0].name, "requests_received_total");
    assert!(metrics.incs[0].labels.is_empty());
}

#[test]
fn request_received_counts_one_with_ids() {
    let mut metrics = MetricSink::new();
    let ev = AwsKinesisFirehoseRequestReceived {
        request_id: Some("req-1".to_string()),
        source_arn: Some("arn:aws:firehose:stream".to_string()),
    };
    ev.emit_metrics(&mut metrics);
    assert_eq!(metrics.incs.len(), 1);
    assert_eq!(metrics.incs[0].name, "requests_received_total");
    assert!(metrics.incs[0].labels.is_empty());
}

#[test]
fn request_received_log_record() {
    let mut logs = LogSink::new();
    let ev = AwsKinesisFirehoseRequestReceived {
        request_id: Some("req-1".to_string()),
        source_arn: None,
    };
    ev.emit_logs(&mut logs, 0);
    assert_eq!(logs.entries.len(), 1);
    let rec = &logs.entries[0];
    assert_eq!(rec.severity, Severity::Info);
    assert_eq!(rec.message, "Handling AWS Kinesis Firehose request.");
    assert_eq!(
        pairs(&rec.fields),
        vec![("request_id", "req-1"), ("source_arn", "")]
    );
    assert_eq!(rec.rate_limit_secs, 10);
}

#[test]
fn request_error_metrics_known_code() {
    let mut metrics = MetricSink::new();
    let ev = AwsKinesisFirehoseRequestError {
        request_id: None,
        code: 400,
        error: "malformed payload".to_string(),
    };
    ev.emit_metrics(&mut metrics);
    assert_eq!(metrics.incs.len(), 2);
    assert_eq!(metrics.incs[0].name, "component_errors_total");
    assert_eq!(
        pairs(&metrics.incs[0].labels),
        vec![
            ("stage", "receiving"),
            ("error", "Bad Request"),
            ("error_code", "400"),
            ("error_type", "request_failed"),
        ]
    );
    assert_eq!(metrics.incs[1].name, "request_read_errors_total");
    assert!(metrics.incs[1].labels.is_empty());
}

#[test]
fn request_error_metrics_unknown_code() {
    let mut metrics = MetricSink::new();
    let ev = AwsKinesisFirehoseRequestError {
        request_id: Some("req-9".to_string()),
        code: 599,
        error: "upstream gave up".to_string(),
    };
    ev.emit_metrics(&mut metrics);
    assert_eq!(metrics.incs.len(), 2);
    assert_eq!(
        pairs(&metrics.incs[0].labels),
        vec![
            ("stage", "receiving"),
            ("error", "unknown status code"),
            ("error_code", "599"),
            ("error_type", "request_failed"),
        ]
    );
}

#[test]
fn request_error_metrics_out_of_range_code() {
    let mut metrics = MetricSink::new();
    let ev = AwsKinesisFirehoseRequestError {
        request_id: None,
        code: 99,
        error: "bad status".to_string(),
    };
    ev.emit_metrics(&mut metrics);
    assert_eq!(
        pairs(&metrics.incs[0].labels)[1],
        ("error", "unknown status code")
    );
    assert_eq!(pairs(&metrics.incs[0].labels)[2], ("error_code", "99"));
}

#[test]
fn request_error_log_record() {
    let mut logs = LogSink::new();
    let ev = AwsKinesisFirehoseRequestError {
        request_id: None,
        code: 400,
        error: "malformed payload".to_string(),
    };
    ev.emit_logs(&mut logs, 0);
    assert_eq!(logs.entries.len(), 1);
    let rec = &logs.entries[0];
    assert_eq!(rec.severity, Severity::Error);
    assert_eq!(rec.message, "Error occurred while handling request.");
    assert_eq!(
        pairs(&rec.fields),
        vec![
            ("error", "malformed payload"),
            ("error_type", "request_failed"),
            ("error_code", "400"),
            ("stage", "receiving"),
        ]
    );
    assert_eq!(rec.rate_limit_secs, 10);
}

#[test]
fn decode_error_message_names_compression_kind() {
    for (compression, kind) in [
        (Compression::Gzip, "gzip"),
        (Compression::Auto, "auto"),
        (Compression::Uncompressed, "none"),
    ] {
        let mut logs = LogSink::new();
        let ev = AwsKinesisFirehoseAutomaticRecordDecodeError {
            compression,
            error: "unexpected end of file".to_string(),
        };
        ev.emit_logs(&mut logs, 0);
        assert_eq!(logs.entries.len(), 1);
        let rec = &logs.entries[0];
        assert_eq!(rec.severity, Severity::Error);
        assert_eq!(
            rec.message,
            format!("Detected record as {kind} but failed to decode so passing along data as-is.")
        );
        assert_eq!(
            pairs(&rec.fields),
            vec![
                ("error", "unexpected end of file"),
                ("stage", "processing"),
                ("error_type", "parser_failed"),
            ]
        );
    }
}

#[test]
fn decode_error_metrics() {
    let mut metrics = MetricSink::new();
    let ev = AwsKinesisFirehoseAutomaticRecordDecodeError {
        compression: Compression::Gzip,
        error: "unexpected end of file".to_string(),
    };
    ev.emit_metrics(&mut metrics);
    assert_eq!(metrics.incs.len(), 2);
    assert_eq!(metrics.incs[0].name, "component_errors_total");
    assert_eq!(
        pairs(&metrics.incs[0].labels),
        vec![
            ("stage", "processing"),
            ("error", "unexpected end of file"),
            ("error_type", "parser_failed"),
        ]
    );
    assert_eq!(metrics.incs[1].name, "request_automatic_decode_errors_total");
    assert!(metrics.incs[1].labels.is_empty());
}

#[test]
fn emit_metrics_alone_writes_no_log() {
    let logs = LogSink::new();
    let mut metrics = MetricSink::new();
    let ev = AwsKinesisFirehoseRequestError {
        request_id: None,
        code: 500,
        error: "boom".to_string(),
    };
    ev.emit_metrics(&mut metrics);
    assert_eq!(logs.entries.len(), 0);
    assert_eq!(metrics.incs.len(), 2);
}

#[test]
fn emit_logs_alone_changes_no_counter() {
    let mut logs = LogSink::new();
    let metrics = MetricSink::new();
    let ev = AwsKinesisFirehoseRequestError {
        request_id: None,
        code: 500,
        error: "boom".to_string(),
    };
    ev.emit_logs(&mut logs, 0);
    assert_eq!(metrics.incs.len(), 0);
    assert_eq!(logs.entries.len(), 1);
}

#[test]
fn repeated_error_in_window_logs_once_counts_each() {
    let mut logs = LogSink::new();
    let mut metrics = MetricSink::new();
    let ev = AwsKinesisFirehoseRequestError {
        request_id: None,
        code: 400,
        error: "malformed payload".to_string(),
    };
    for now in [100, 103, 109] {
        ev.emit_logs(&mut logs, now);
        ev.emit_metrics(&mut metrics);
    }
    assert_eq!(logs.entries.len(), 1);
    assert_eq!(metrics.incs.len(), 6);
}

#[test]
fn error_logged_again_after_window_passes() {
    let mut logs = LogSink::new();
    let ev = AwsKinesisFirehoseRequestError {
        request_id: None,
        code: 400,
        error: "malformed payload".to_string(),
    };
    ev.emit_logs(&mut logs, 100);
    ev.emit_logs(&mut logs, 109);
    assert_eq!(logs.entries.len(), 1);
    ev.emit_logs(&mut logs, 110);
    assert_eq!(logs.entries.len(), 2);
}

#[test]
fn rate_limit_tracked_per_event_class() {
    let mut logs = LogSink::new();
    let received = AwsKinesisFirehoseRequestReceived { request_id: None, source_arn: None };
    let failed = AwsKinesisFirehoseRequestError {
        request_id: None,
        code: 500,
        error: "boom".to_string(),
    };
    received.emit_logs(&mut logs, 100);
    failed.emit_logs(&mut logs, 101);
    received.emit_logs(&mut logs, 102);
    assert_eq!(logs.entries.len(), 2);
}

#[test]
fn bad_request_scenario() {
    let mut logs = LogSink::new();
    let mut metrics = MetricSink::new();
    let ev = AwsKinesisFirehoseRequestError {
        request_id: None,
        code: 400,
        error: "malformed payload".to_string(),
    };
    ev.emit_logs(&mut logs, 0);
    ev.emit_metrics(&mut metrics);
    let rec = &logs.entries[0];
    let fields = pairs(&rec.fields);
    assert!(fields.contains(&("error_type", "request_failed")));
    assert!(fields.contains(&("stage", "receiving")));
    assert!(fields.contains(&("error_code", "400")));
    let labels = pairs(&metrics.incs[0].labels);
    assert_eq!(metrics.incs[0].name, "component_errors_total");
    assert!(labels.contains(&("error", "Bad Request")));
    assert!(labels.contains(&("error_code", "400")));
    assert!(labels.contains(&("error_type", "request_failed")));
}
