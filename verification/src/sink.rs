//! Recording models of the two sinks an event submits to.
//!
//! The metric sink records every counter increment unconditionally. The log
//! sink records structured log records, but suppresses repeated records of
//! the same event class inside that record's rate-limit window; the window
//! state lives in the sink, keyed by event class. Both sinks expose a ghost
//! view, and every submission is specified as a pure function of that view.

use vstd::prelude::*;

verus! {

/// Severity of a structured log record.
#[derive(Clone, Copy, Debug, PartialEq, Eq, Structural)]
pub enum Severity {
    Info,
    Error,
}

/// The class of the outcome an event reports. Log rate limiting is applied
/// per class: two records of one class inside the window collapse to one.
#[derive(Clone, Copy, Debug, PartialEq, Eq, Structural)]
pub enum EventClass {
    RequestReceived,
    RequestError,
    AutomaticDecodeError,
}

/// One counter increment: a metric name and its label pairs, in submission
/// order. An increment always adds exactly 1 to the counter it names.
#[derive(Clone, Debug)]
pub struct CounterInc {
    pub name: String,
    pub labels: Vec<(String, String)>,
}

/// Ghost image of a counter increment.
#[verifier::ext_equal]
pub struct CounterData {
    pub name: Seq<char>,
    pub labels: Seq<(Seq<char>, Seq<char>)>,
}

impl View for CounterInc {
    type V = CounterData;

    open spec fn view(&self) -> CounterData {
        CounterData { name: self.name@, labels: self.labels.deep_view() }
    }
}

/// One structured log record: severity, message, field pairs in submission
/// order, and the rate-limit window the log sink must honour for it.
#[derive(Clone, Debug)]
pub struct LogRecord {
    pub severity: Severity,
    pub message: String,
    pub fields: Vec<(String, String)>,
    pub rate_limit_secs: u64,
}

/// Ghost image of a log record.
#[verifier::ext_equal]
pub struct LogData {
    pub severity: Severity,
    pub message: Seq<char>,
    pub fields: Seq<(Seq<char>, Seq<char>)>,
    pub rate_limit_secs: u64,
}

impl View for LogRecord {
    type V = LogData;

    open spec fn view(&self) -> LogData {
        LogData {
            severity: self.severity,
            message: self.message@,
            fields: self.fields.deep_view(),
            rate_limit_secs: self.rate_limit_secs,
        }
    }
}

/// A metric sink that records what was submitted. Metrics are the system of
/// record for counts: an increment is never suppressed or reordered.
#[derive(Debug)]
pub struct MetricSink {
    pub incs: Vec<CounterInc>,
}

impl View for MetricSink {
    type V = Seq<CounterData>;

    open spec fn view(&self) -> Seq<CounterData> {
        self.incs@.map_values(|c: CounterInc| c@)
    }
}

impl MetricSink {
    pub fn new() -> (r: MetricSink)
        ensures
            r@ == Seq::<CounterData>::empty(),
    {
        let r = MetricSink { incs: Vec::new() };
        proof {
            assert(r@ =~= Seq::<CounterData>::empty());
        }
        r
    }

    /// Record one counter increment, unconditionally.
    pub fn increment(&mut self, inc: CounterInc)
        ensures
            final(self)@ == old(self)@.push(inc@),
    {
        let ghost pre = self@;
        let ghost data = inc@;
        self.incs.push(inc);
        proof {
            assert(self@ =~= pre.push(data));
        }
    }
}

/// Ghost state of the log sink: the records actually written, and the time
/// of the last written record of each class, if any.
#[verifier::ext_equal]
pub struct LogState {
    pub entries: Seq<LogData>,
    pub last_received: Option<u64>,
    pub last_request_error: Option<u64>,
    pub last_decode_error: Option<u64>,
}

impl LogState {
    /// Time of the last record of class `c` that was written, if any.
    pub open spec fn last_of(self, c: EventClass) -> Option<u64> {
        match c {
            EventClass::RequestReceived => self.last_received,
            EventClass::RequestError => self.last_request_error,
            EventClass::AutomaticDecodeError => self.last_decode_error,
        }
    }

    /// A record of class `c` may be written at time `now` when no record of
    /// that class was written yet, or the last one is at least a full
    /// window old.
    pub open spec fn allows(self, c: EventClass, window: u64, now: u64) -> bool {
        match self.last_of(c) {
            Option::None => true,
            Option::Some(l) => now >= l && now - l >= window,
        }
    }

    /// The state after submitting record `d` of class `c` at time `now`:
    /// appended and stamped when allowed, unchanged otherwise.
    pub open spec fn submit_spec(self, d: LogData, c: EventClass, now: u64) -> LogState {
        if self.allows(c, d.rate_limit_secs, now) {
            LogState {
                entries: self.entries.push(d),
                last_received: if c == EventClass::RequestReceived {
                    Option::Some(now)
                } else {
                    self.last_received
                },
                last_request_error: if c == EventClass::RequestError {
                    Option::Some(now)
                } else {
                    self.last_request_error
                },
                last_decode_error: if c == EventClass::AutomaticDecodeError {
                    Option::Some(now)
                } else {
                    self.last_decode_error
                },
            }
        } else {
            self
        }
    }
}

/// The empty log state: nothing written, no class stamped.
pub open spec fn log_state_empty() -> LogState {
    LogState {
        entries: Seq::<LogData>::empty(),
        last_received: Option::None,
        last_request_error: Option::None,
        last_decode_error: Option::None,
    }
}

/// A log sink that records what was written and enforces per-class rate
/// limiting, against the caller-supplied clock `now` (seconds).
#[derive(Debug)]
pub struct LogSink {
    pub entries: Vec<LogRecord>,
    pub last_received: Option<u64>,
    pub last_request_error: Option<u64>,
    pub last_decode_error: Option<u64>,
}

impl View for LogSink {
    type V = LogState;

    open spec fn view(&self) -> LogState {
        LogState {
            entries: self.entries@.map_values(|r: LogRecord| r@),
            last_received: self.last_received,
            last_request_error: self.last_request_error,
            last_decode_error: self.last_decode_error,
        }
    }
}

impl LogSink {
    pub fn new() -> (r: LogSink)
        ensures
            r@ == log_state_empty(),
    {
        let r = LogSink {
            entries: Vec::new(),
            last_received: Option::None,
            last_request_error: Option::None,
            last_decode_error: Option::None,
        };
        proof {
            assert(r@ =~~= log_state_empty());
        }
        r
    }

    /// Submit one record of class `class` at time `now`. The record is
    /// written only when the class's rate-limit window allows it; the view
    /// after the call is exactly `submit_spec` of the view before it.
    pub fn submit(&mut self, record: LogRecord, class: EventClass, now: u64)
        ensures
            final(self)@ == old(self)@.submit_spec(record@, class, now),
    {
        let ghost pre = self@;
        let ghost data = record@;
        let last: Option<u64> = match class {
            EventClass::RequestReceived => self.last_received,
            EventClass::RequestError => self.last_request_error,
            EventClass::AutomaticDecodeError => self.last_decode_error,
        };
        let allowed: bool = match last {
            Option::None => true,
            Option::Some(l) => now >= l && now - l >= record.rate_limit_secs,
        };
        if allowed {
            match class {
                EventClass::RequestReceived => {
                    self.last_received = Option::Some(now);
                },
                EventClass::RequestError => {
                    self.last_request_error = Option::Some(now);
                },
                EventClass::AutomaticDecodeError => {
                    self.last_decode_error = Option::Some(now);
                },
            }
            self.entries.push(record);
        }
        proof {
            assert(self@ =~~= pre.submit_spec(data, class, now));
        }
    }
}

} // verus!
