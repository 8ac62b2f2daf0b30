//! The event variants: one type per distinct outcome, each implementing the
//! emission contract. Construction never fails and has no side effects; all
//! rendering and validation happens at emission time. Each variant's log
//! record and counter increments are fully determined by its fields, with
//! every label value drawn from the taxonomy.

use crate::sink::{
    CounterData, CounterInc, EventClass, LogData, LogRecord, LogSink, MetricSink, Severity,
};
use crate::status::{decimal_str, decimal_string, reason_label, reason_label_spec};
use crate::taxonomy::{Compression, ErrorType, Stage};
use crate::LOG_RATE_LIMIT_SECS;
use vstd::prelude::*;
use vstd::string::StringExecFns;

verus! {

/// The emission contract: every outcome type submits exactly one structured
/// log record (subject to the log sink's per-class rate limiting) and a
/// fixed sequence of counter increments (never rate limited). The two
/// operations are independent: each touches only the sink it is given.
pub trait InternalEvent {
    /// The class under which the log sink rate-limits this event.
    spec fn class_spec(&self) -> EventClass;

    /// The structured log record this event submits.
    spec fn log_data(&self) -> LogData;

    /// The counter increments this event submits, in submission order.
    spec fn counter_data(&self) -> Seq<CounterData>;

    /// The event's class as a value.
    fn class(&self) -> (c: EventClass)
        ensures
            c == self.class_spec(),
    ;

    /// Render the log record this event submits.
    fn log_record(&self) -> (r: LogRecord)
        ensures
            r@ == self.log_data(),
    ;

    /// Render the counter increments this event submits.
    fn counters(&self) -> (r: Vec<CounterInc>)
        ensures
            r@.map_values(|c: CounterInc| c@) == self.counter_data(),
    ;

    /// Submit exactly this event's log record to the log sink at time
    /// `now`; the sink writes it or suppresses it by its rate-limit rule.
    /// No counter changes: the metric sink is not touched.
    fn emit_logs(&self, sink: &mut LogSink, now: u64)
        ensures
            final(sink)@ == old(sink)@.submit_spec(self.log_data(), self.class_spec(), now),
    ;

    /// Append exactly this event's counter increments to the metric sink,
    /// unconditionally. No log record is produced: the log sink is not
    /// touched.
    fn emit_metrics(&self, sink: &mut MetricSink)
        ensures
            final(sink)@ == old(sink)@ + self.counter_data(),
    ;
}

/// The text an optional field is rendered as: its value, or empty.
pub open spec fn opt_text(o: Option<String>) -> Seq<char> {
    match o {
        Option::Some(s) => s@,
        Option::None => Seq::<char>::empty(),
    }
}

fn opt_text_string(o: &Option<String>) -> (r: String)
    ensures
        r@ == opt_text(*o),
{
    match o {
        Option::Some(s) => s.clone(),
        Option::None => String::new(),
    }
}

/// Append every increment of `incs`, in order, to the metric sink.
fn submit_all(sink: &mut MetricSink, incs: Vec<CounterInc>)
    ensures
        final(sink)@ == old(sink)@ + incs@.map_values(|c: CounterInc| c@),
{
    let ghost all = incs@.map_values(|c: CounterInc| c@);
    let mut rest = incs;
    let ghost mut i: int = 0;
    while rest.len() > 0
        invariant
            0 <= i <= all.len(),
            rest@.map_values(|c: CounterInc| c@) == all.skip(i),
            sink@ == old(sink)@ + all.take(i),
        decreases rest@.len(),
    {
        let ghost rest_pre = rest@;
        proof {
            assert(rest_pre.map_values(|c: CounterInc| c@).len() == rest_pre.len());
            assert(all.skip(i).len() == all.len() - i);
            assert(i < all.len());
        }
        let inc = rest.remove(0);
        proof {
            assert(rest_pre.map_values(|c: CounterInc| c@)[0] == all.skip(i)[0]);
            assert(all.skip(i)[0] == all[i]);
            assert(inc@ == all[i]);
        }
        sink.increment(inc);
        proof {
            assert forall|j: int|
                0 <= j < rest@.len() implies rest@.map_values(|c: CounterInc| c@)[j]
                == #[trigger] all.skip(i + 1)[j] by {
                assert(rest@[j] == rest_pre[j + 1]);
                assert(rest_pre.map_values(|c: CounterInc| c@)[j + 1] == all.skip(i)[j + 1]);
                assert(all.skip(i)[j + 1] == all[i + 1 + j]);
                assert(all.skip(i + 1)[j] == all[i + 1 + j]);
            }
            assert(rest@.map_values(|c: CounterInc| c@) =~= all.skip(i + 1));
            assert(sink@ =~= old(sink)@ + all.take(i + 1));
            i = i + 1;
        }
    }
    proof {
        assert(rest@.map_values(|c: CounterInc| c@).len() == 0);
        assert(i == all.len());
        assert(all.take(i) =~= all);
    }
}

/// A request has been received and is being handled. Both identifiers are
/// presentation-only; an absent one is rendered as empty text.
#[derive(Clone, Debug)]
pub struct AwsKinesisFirehoseRequestReceived {
    pub request_id: Option<String>,
    pub source_arn: Option<String>,
}

impl InternalEvent for AwsKinesisFirehoseRequestReceived {
    open spec fn class_spec(&self) -> EventClass {
        EventClass::RequestReceived
    }

    open spec fn log_data(&self) -> LogData {
        LogData {
            severity: Severity::Info,
            message: "Handling AWS Kinesis Firehose request."@,
            fields: seq![
                ("request_id"@, opt_text(self.request_id)),
                ("source_arn"@, opt_text(self.source_arn)),
            ],
            rate_limit_secs: LOG_RATE_LIMIT_SECS,
        }
    }

    open spec fn counter_data(&self) -> Seq<CounterData> {
        seq![
            CounterData { name: "requests_received_total"@, labels: Seq::empty() },
        ]
    }

    fn class(&self) -> (c: EventClass) {
        EventClass::RequestReceived
    }

    fn log_record(&self) -> (r: LogRecord) {
        let mut fields: Vec<(String, String)> = Vec::new();
        fields.push(("request_id".to_owned(), opt_text_string(&self.request_id)));
        fields.push(("source_arn".to_owned(), opt_text_string(&self.source_arn)));
        let r = LogRecord {
            severity: Severity::Info,
            message: "Handling AWS Kinesis Firehose request.".to_owned(),
            fields,
            rate_limit_secs: LOG_RATE_LIMIT_SECS,
        };
        proof {
            assert(r@ =~~= self.log_data());
        }
        r
    }

    fn counters(&self) -> (r: Vec<CounterInc>) {
        let mut r: Vec<CounterInc> = Vec::new();
        r.push(CounterInc { name: "requests_received_total".to_owned(), labels: Vec::new() });
        proof {
            assert(r@.map_values(|c: CounterInc| c@) =~~= self.counter_data());
        }
        r
    }

    fn emit_logs(&self, sink: &mut LogSink, now: u64) {
        let record = self.log_record();
        let class = self.class();
        sink.submit(record, class, now);
    }

    fn emit_metrics(&self, sink: &mut MetricSink) {
        let incs = self.counters();
        submit_all(sink, incs);
    }
}

/// Handling a request failed with a numeric status code and an error
/// description taken from the failure site.
#[derive(Clone, Debug)]
pub struct AwsKinesisFirehoseRequestError {
    pub request_id: Option<String>,
    pub code: u16,
    pub error: String,
}

impl InternalEvent for AwsKinesisFirehoseRequestError {
    open spec fn class_spec(&self) -> EventClass {
        EventClass::RequestError
    }

    open spec fn log_data(&self) -> LogData {
        LogData {
            severity: Severity::Error,
            message: "Error occurred while handling request."@,
            fields: seq![
                ("error"@, self.error@),
                ("error_type"@, ErrorType::RequestFailed.label_spec()),
                ("error_code"@, decimal_str(self.code as nat)),
                ("stage"@, Stage::Receiving.label_spec()),
            ],
            rate_limit_secs: LOG_RATE_LIMIT_SECS,
        }
    }

    open spec fn counter_data(&self) -> Seq<CounterData> {
        seq![
            CounterData {
                name: "component_errors_total"@,
                labels: seq![
                    ("stage"@, Stage::Receiving.label_spec()),
                    ("error"@, reason_label_spec(self.code)),
                    ("error_code"@, decimal_str(self.code as nat)),
                    ("error_type"@, ErrorType::RequestFailed.label_spec()),
                ],
            },
            CounterData { name: "request_read_errors_total"@, labels: Seq::empty() },
        ]
    }

    fn class(&self) -> (c: EventClass) {
        EventClass::RequestError
    }

    fn log_record(&self) -> (r: LogRecord) {
        let mut fields: Vec<(String, String)> = Vec::new();
        fields.push(("error".to_owned(), self.error.clone()));
        fields.push(("error_type".to_owned(), ErrorType::RequestFailed.label()));
        fields.push(("error_code".to_owned(), decimal_string(self.code)));
        fields.push(("stage".to_owned(), Stage::Receiving.label()));
        let r = LogRecord {
            severity: Severity::Error,
            message: "Error occurred while handling request.".to_owned(),
            fields,
            rate_limit_secs: LOG_RATE_LIMIT_SECS,
        };
        proof {
            assert(r@ =~~= self.log_data());
        }
        r
    }

    fn counters(&self) -> (r: Vec<CounterInc>) {
        let mut labels: Vec<(String, String)> = Vec::new();
        labels.push(("stage".to_owned(), Stage::Receiving.label()));
        labels.push(("error".to_owned(), reason_label(self.code)));
        labels.push(("error_code".to_owned(), decimal_string(self.code)));
        labels.push(("error_type".to_owned(), ErrorType::RequestFailed.label()));
        let mut r: Vec<CounterInc> = Vec::new();
        r.push(CounterInc { name: "component_errors_total".to_owned(), labels });
        r.push(CounterInc { name: "request_read_errors_total".to_owned(), labels: Vec::new() });
        proof {
            assert(r@.map_values(|c: CounterInc| c@) =~~= self.counter_data());
        }
        r
    }

    fn emit_logs(&self, sink: &mut LogSink, now: u64) {
        let record = self.log_record();
        let class = self.class();
        sink.submit(record, class, now);
    }

    fn emit_metrics(&self, sink: &mut MetricSink) {
        let incs = self.counters();
        submit_all(sink, incs);
    }
}

/// Automatic decoding of a record failed; the record is passed along
/// unchanged. Carries the compression kind that was configured or detected
/// and the description of the underlying failure.
#[derive(Clone, Debug)]
pub struct AwsKinesisFirehoseAutomaticRecordDecodeError {
    pub compression: Compression,
    pub error: String,
}

impl AwsKinesisFirehoseAutomaticRecordDecodeError {
    /// The log message: it names the compression kind and states that the
    /// data is passed along as-is.
    pub open spec fn message_spec(&self) -> Seq<char> {
        "Detected record as "@ + self.compression.label_spec()
            + " but failed to decode so passing along data as-is."@
    }
}

impl InternalEvent for AwsKinesisFirehoseAutomaticRecordDecodeError {
    open spec fn class_spec(&self) -> EventClass {
        EventClass::AutomaticDecodeError
    }

    open spec fn log_data(&self) -> LogData {
        LogData {
            severity: Severity::Error,
            message: self.message_spec(),
            fields: seq![
                ("error"@, self.error@),
                ("stage"@, Stage::Processing.label_spec()),
                ("error_type"@, ErrorType::ParserFailed.label_spec()),
            ],
            rate_limit_secs: LOG_RATE_LIMIT_SECS,
        }
    }

    open spec fn counter_data(&self) -> Seq<CounterData> {
        seq![
            CounterData {
                name: "component_errors_total"@,
                labels: seq![
                    ("stage"@, Stage::Processing.label_spec()),
                    ("error"@, self.error@),
                    ("error_type"@, ErrorType::ParserFailed.label_spec()),
                ],
            },
            CounterData { name: "request_automatic_decode_errors_total"@, labels: Seq::empty() },
        ]
    }

    fn class(&self) -> (c: EventClass) {
        EventClass::AutomaticDecodeError
    }

    fn log_record(&self) -> (r: LogRecord) {
        let mut message = "Detected record as ".to_owned();
        let kind = self.compression.label();
        message.append(kind.as_str());
        message.append(" but failed to decode so passing along data as-is.");
        let mut fields: Vec<(String, String)> = Vec::new();
        fields.push(("error".to_owned(), self.error.clone()));
        fields.push(("stage".to_owned(), Stage::Processing.label()));
        fields.push(("error_type".to_owned(), ErrorType::ParserFailed.label()));
        let r = LogRecord {
            severity: Severity::Error,
            message,
            fields,
            rate_limit_secs: LOG_RATE_LIMIT_SECS,
        };
        proof {
            assert(r@ =~~= self.log_data());
        }
        r
    }

    fn counters(&self) -> (r: Vec<CounterInc>) {
        let mut labels: Vec<(String, String)> = Vec::new();
        labels.push(("stage".to_owned(), Stage::Processing.label()));
        labels.push(("error".to_owned(), self.error.clone()));
        labels.push(("error_type".to_owned(), ErrorType::ParserFailed.label()));
        let mut r: Vec<CounterInc> = Vec::new();
        r.push(CounterInc { name: "component_errors_total".to_owned(), labels });
        r.push(
            CounterInc { name: "request_automatic_decode_errors_total".to_owned(), labels: Vec::new() },
        );
        proof {
            assert(r@.map_values(|c: CounterInc| c@) =~~= self.counter_data());
        }
        r
    }

    fn emit_logs(&self, sink: &mut LogSink, now: u64) {
        let record = self.log_record();
        let class = self.class();
        sink.submit(record, class, now);
    }

    fn emit_metrics(&self, sink: &mut MetricSink) {
        let incs = self.counters();
        submit_all(sink, incs);
    }
}

} // verus!
