//! Summary statistics over the successes of a batch: fastest, slowest and
//! mean latency. The mean is kept exact, as a total over a count.
use vstd::prelude::*;
use crate::outcome::RequestResult;

verus! {

/// The latencies of the successes in `rs`, in order.
pub open spec fn success_latencies(rs: Seq<RequestResult>) -> Seq<i64>
    decreases rs.len(),
{
    if rs.len() == 0 {
        seq![]
    } else {
        let earlier = success_latencies(rs.drop_last());
        if rs.last() is Success {
            earlier.push(rs.last()->latency_ms)
        } else {
            earlier
        }
    }
}

/// The smallest value of a non-empty sequence.
pub open spec fn min_of(s: Seq<i64>) -> i64
    decreases s.len(),
{
    if s.len() <= 1 {
        s[0]
    } else {
        let m = min_of(s.drop_last());
        if s.last() < m { s.last() } else { m }
    }
}

/// The largest value of a non-empty sequence.
pub open spec fn max_of(s: Seq<i64>) -> i64
    decreases s.len(),
{
    if s.len() <= 1 {
        s[0]
    } else {
        let m = max_of(s.drop_last());
        if s.last() > m { s.last() } else { m }
    }
}

/// The sum of a sequence.
pub open spec fn sum_of(s: Seq<i64>) -> int
    decreases s.len(),
{
    if s.len() == 0 {
        0
    } else {
        sum_of(s.drop_last()) + s.last()
    }
}

/// Timing statistics over the successes of one batch. The mean latency is
/// `total_ms / successes`.
#[derive(Debug, Clone, Copy, PartialEq, Eq)]
pub struct BatchSummary {
    pub fastest_ms: i64,
    pub slowest_ms: i64,
    pub total_ms: i128,
    pub successes: usize,
}

/// Why no summary could be computed.
#[derive(Debug, Clone, Copy, PartialEq, Eq)]
pub enum SummaryError {
    /// The batch holds no success, so there are no latencies to summarise.
    NoSuccesses,
}

/// `s` is the summary of the latencies `l`.
pub open spec fn summarizes(s: BatchSummary, l: Seq<i64>) -> bool {
    &&& s.successes == l.len()
    &&& s.fastest_ms == min_of(l)
    &&& s.slowest_ms == max_of(l)
    &&& s.total_ms == sum_of(l)
}

proof fn lemma_latencies_len(rs: Seq<RequestResult>)
    ensures
        success_latencies(rs).len() <= rs.len(),
    decreases rs.len(),
{
    if rs.len() > 0 {
        lemma_latencies_len(rs.drop_last());
    }
}

proof fn lemma_sum_range(s: Seq<i64>)
    ensures
        s.len() * (i64::MIN as int) <= sum_of(s) <= s.len() * (i64::MAX as int),
    decreases s.len(),
{
    if s.len() > 0 {
        lemma_sum_range(s.drop_last());
        let n = s.len() - 1;
        assert(s.len() * (i64::MIN as int) == n * (i64::MIN as int) + i64::MIN) by (nonlinear_arith)
            requires n == s.len() - 1;
        assert(s.len() * (i64::MAX as int) == n * (i64::MAX as int) + i64::MAX) by (nonlinear_arith)
            requires n == s.len() - 1;
    }
}

/// Of any non-empty set of latencies, the mean lies between the fastest and
/// the slowest: `min * n <= sum <= max * n`.
pub proof fn lemma_mean_between_extremes(s: Seq<i64>)
    requires
        s.len() > 0,
    ensures
        min_of(s) * s.len() <= sum_of(s) <= max_of(s) * s.len(),
    decreases s.len(),
{
    if s.len() == 1 {
        assert(sum_of(s.drop_last()) == 0);
    } else {
        let p = s.drop_last();
        lemma_mean_between_extremes(p);
        assert(sum_of(s) == sum_of(p) + s.last());
        assert(s.len() == p.len() + 1);
        let n = p.len() as int;
        let (lo, hi, plo, phi) = (min_of(s) as int, max_of(s) as int, min_of(p) as int, max_of(p) as int);
        assert(lo <= plo && phi <= hi);
        assert(lo * n <= plo * n && phi * n <= hi * n) by (nonlinear_arith)
            requires lo <= plo, phi <= hi, n >= 0;
        assert(lo * (n + 1) == lo * n + lo && hi * (n + 1) == hi * n + hi) by (nonlinear_arith);
        assert(lo <= s.last() <= hi);
    }
}

/// For any batch with at least one success, the mean latency of its summary
/// lies between its fastest and slowest latency.
pub proof fn lemma_summary_mean_between(results: Seq<RequestResult>, s: BatchSummary)
    requires
        summarizes(s, success_latencies(results)),
        s.successes > 0,
    ensures
        s.fastest_ms * s.successes <= s.total_ms <= s.slowest_ms * s.successes,
{
    lemma_mean_between_extremes(success_latencies(results));
}

/// Summarises the successes of a batch. Fails, with `NoSuccesses`, exactly
/// when there is no success to summarise.
pub fn summarize(results: &Vec<RequestResult>) -> (r: Result<BatchSummary, SummaryError>)
    ensures
        r is Err <==> success_latencies(results@).len() == 0,
        r is Ok ==> summarizes(r->Ok_0, success_latencies(results@)),
        r is Ok ==> r->Ok_0.fastest_ms * r->Ok_0.successes <= r->Ok_0.total_ms
            <= r->Ok_0.slowest_ms * r->Ok_0.successes,
{
    let mut i: usize = 0;
    let mut n: usize = 0;
    let mut total: i128 = 0;
    let mut lo: i64 = 0;
    let mut hi: i64 = 0;
    while i < results.len()
        invariant
            i <= results@.len(),
            n == success_latencies(results@.take(i as int)).len(),
            total == sum_of(success_latencies(results@.take(i as int))),
            n > 0 ==> lo == min_of(success_latencies(results@.take(i as int))),
            n > 0 ==> hi == max_of(success_latencies(results@.take(i as int))),
        decreases results@.len() - i,
    {
        let ghost before = success_latencies(results@.take(i as int));
        proof {
            assert(results@.take(i + 1).drop_last() =~= results@.take(i as int));
            assert(results@.take(i + 1).last() == results@[i as int]);
            lemma_latencies_len(results@.take(i as int));
            lemma_sum_range(before);
        }
        match &results[i] {
            RequestResult::Success { latency_ms, .. } => {
                let x = *latency_ms;
                assert(n < usize::MAX);
                assert(-170141183460469231731687303715884105728 <= total + x
                    <= 170141183460469231731687303715884105727) by (nonlinear_arith)
                    requires
                        n * (i64::MIN as int) <= total <= n * (i64::MAX as int),
                        i64::MIN <= x <= i64::MAX,
                        n < usize::MAX,
                ;
                if n == 0 || x < lo {
                    lo = x;
                }
                if n == 0 || x > hi {
                    hi = x;
                }
                total = total + x as i128;
                n = n + 1;
                proof {
                    let after = success_latencies(results@.take(i + 1));
                    assert(after == before.push(x));
                    assert(after.drop_last() =~= before);
                }
            },
            RequestResult::Failure { .. } => {},
        }
        i = i + 1;
    }
    assert(results@.take(results@.len() as int) =~= results@);
    if n == 0 {
        Err(SummaryError::NoSuccesses)
    } else {
        let s = BatchSummary { fastest_ms: lo, slowest_ms: hi, total_ms: total, successes: n };
        proof {
            lemma_summary_mean_between(results@, s);
        }
        Ok(s)
    }
}

} // verus!
