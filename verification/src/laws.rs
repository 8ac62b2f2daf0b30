//! Laws about repeated emission: log output is rate limited per event
//! class, while metrics count every occurrence.

use crate::sink::{CounterData, EventClass, LogData, LogState};
use vstd::prelude::*;

verus! {

/// The log state after submitting record `d` of class `c` once at each
/// time of `times`, in order.
pub open spec fn submit_seq(s: LogState, d: LogData, c: EventClass, times: Seq<u64>) -> LogState
    decreases times.len(),
{
    if times.len() == 0 {
        s
    } else {
        submit_seq(s.submit_spec(d, c, times[0]), d, c, times.skip(1))
    }
}

/// While the last written record of class `c` carries time `l`, every
/// submission of that class at a time less than a full window after `l` is
/// suppressed: the sink, its stamp included, does not change.
pub proof fn lemma_submissions_in_window_suppressed(
    s: LogState,
    d: LogData,
    c: EventClass,
    times: Seq<u64>,
    l: u64,
)
    requires
        s.last_of(c) == Option::Some(l),
        forall|k: int| 0 <= k < times.len() ==> (#[trigger] times[k]) < l + d.rate_limit_secs,
    ensures
        submit_seq(s, d, c, times) == s,
    decreases times.len(),
{
    if times.len() > 0 {
        assert(!s.allows(c, d.rate_limit_secs, times[0]));
        assert(s.submit_spec(d, c, times[0]) == s);
        assert forall|k: int|
            0 <= k < times.skip(1).len() implies (#[trigger] times.skip(1)[k]) < l
            + d.rate_limit_secs by {
            assert(times.skip(1)[k] == times[k + 1]);
        }
        lemma_submissions_in_window_suppressed(s, d, c, times.skip(1), l);
    }
}

/// Rate limiting of log output: however many times one record of one class
/// is submitted at times that all fall inside a single rate-limit window —
/// each no earlier than `lo` and less than a full window after `lo` — at
/// most one log record is written.
pub proof fn lemma_log_rate_limit_window(
    s: LogState,
    d: LogData,
    c: EventClass,
    times: Seq<u64>,
    lo: u64,
)
    requires
        forall|k: int|
            0 <= k < times.len() ==> lo <= (#[trigger] times[k]) && times[k] < lo
                + d.rate_limit_secs,
    ensures
        submit_seq(s, d, c, times).entries.len() <= s.entries.len() + 1,
    decreases times.len(),
{
    if times.len() > 0 {
        let t0 = times[0];
        let s1 = s.submit_spec(d, c, t0);
        assert forall|k: int|
            0 <= k < times.skip(1).len() implies lo <= (#[trigger] times.skip(1)[k])
            && times.skip(1)[k] < lo + d.rate_limit_secs by {
            assert(times.skip(1)[k] == times[k + 1]);
        }
        if s.allows(c, d.rate_limit_secs, t0) {
            assert(s1.entries.len() == s.entries.len() + 1);
            assert(s1.last_of(c) == Option::Some(t0));
            assert forall|k: int|
                0 <= k < times.skip(1).len() implies (#[trigger] times.skip(1)[k]) < t0
                + d.rate_limit_secs by {
                assert(times.skip(1)[k] == times[k + 1]);
            }
            lemma_submissions_in_window_suppressed(s1, d, c, times.skip(1), t0);
        } else {
            assert(s1 == s);
            lemma_log_rate_limit_window(s, d, c, times.skip(1), lo);
        }
    }
}

/// The metric sink's contents after appending the increment sequence
/// `incs` once per occurrence, `n` occurrences in all.
pub open spec fn emit_metrics_seq(
    s: Seq<CounterData>,
    incs: Seq<CounterData>,
    n: nat,
) -> Seq<CounterData>
    decreases n,
{
    if n == 0 {
        s
    } else {
        emit_metrics_seq(s + incs, incs, (n - 1) as nat)
    }
}

/// `incs` repeated `n` times over.
pub open spec fn repeated(incs: Seq<CounterData>, n: nat) -> Seq<CounterData>
    decreases n,
{
    if n == 0 {
        Seq::<CounterData>::empty()
    } else {
        incs + repeated(incs, (n - 1) as nat)
    }
}

/// Metrics are never rate limited: emitting an event's increments once per
/// occurrence, `n` occurrences in all, appends its increment sequence
/// exactly `n` times over — `n * incs.len()` increments, in order.
pub proof fn lemma_metrics_count_every_occurrence(
    s: Seq<CounterData>,
    incs: Seq<CounterData>,
    n: nat,
)
    ensures
        emit_metrics_seq(s, incs, n) == s + repeated(incs, n),
        repeated(incs, n).len() == n * incs.len(),
    decreases n,
{
    if n == 0 {
        assert(emit_metrics_seq(s, incs, n) =~= s + repeated(incs, n));
        assert(n * incs.len() == 0) by (nonlinear_arith)
            requires n == 0;
    } else {
        lemma_metrics_count_every_occurrence(s + incs, incs, (n - 1) as nat);
        assert((s + incs) + repeated(incs, (n - 1) as nat) =~= s + repeated(incs, n));
        assert(incs.len() + (n - 1) * incs.len() == n * incs.len()) by (nonlinear_arith);
    }
}

} // verus!
