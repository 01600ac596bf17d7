//! Fault statistics: counters of local and remote faults, the service time
//! of each fault, and the figures derived from them.

use vstd::prelude::*;
use vstd::relations::{sorted_by, total_ordering};
use vstd::seq_lib::lemma_sorted_unique;

verus! {

/// The order in which service times are ranked: smallest first.
pub open spec fn ascending() -> spec_fn(u64, u64) -> bool {
    |a: u64, b: u64| a <= b
}

/// The samples of `s` in ascending order.
pub open spec fn sorted_samples(s: Seq<u64>) -> Seq<u64> {
    s.sort_by(ascending())
}

/// The median of `s`: the middle sample in ascending order, or the mean of
/// the two middle samples (rounded down) where their number is even. No
/// samples, no median.
pub open spec fn median_of(s: Seq<u64>) -> Option<u64> {
    let sorted = sorted_samples(s);
    let n = s.len() as int;
    if n == 0 {
        None
    } else if n % 2 == 0 {
        Some(((sorted[n / 2 - 1] + sorted[n / 2]) / 2) as u64)
    } else {
        Some(sorted[n / 2])
    }
}

/// The rank, counted from 0 in ascending order, of the 99th-percentile sample
/// among `n > 0` samples: `n * 99 / 100` rounded down, and never past the last.
pub open spec fn p99_rank(n: int) -> int {
    if n * 99 / 100 < n - 1 {
        n * 99 / 100
    } else {
        n - 1
    }
}

/// The 99th percentile of `s`: the sample at rank `p99_rank`. No samples, no
/// percentile.
pub open spec fn p99_of(s: Seq<u64>) -> Option<u64> {
    if s.len() == 0 {
        None
    } else {
        Some(sorted_samples(s)[p99_rank(s.len() as int)])
    }
}

/// A ratio of two counts, kept exact.
#[derive(Debug, Clone, Copy, PartialEq, Eq, Structural)]
pub struct Ratio {
    pub numerator: u64,
    pub denominator: u128,
}

/// The share of faults that were served from a remote node, as
/// `remote / (local + remote)`; `0 / 1` where no fault was counted.
pub open spec fn miss_ratio_of(local: u64, remote: u64) -> Ratio {
    if local + remote == 0 {
        Ratio { numerator: 0, denominator: 1 }
    } else {
        Ratio { numerator: remote, denominator: (local + remote) as u128 }
    }
}

/// Counters and service times of the faults that a pager has handled.
#[derive(Debug, Clone)]
pub struct PagerStats {
    /// Faults resolved with a page of this node.
    pub local_faults: u64,
    /// Faults resolved by asking a remote node.
    pub remote_faults: u64,
    /// Service time of each fault, in microseconds, in the order of arrival.
    pub fault_service_time_us: Vec<u64>,
}

impl Default for PagerStats {
    fn default() -> (stats: Self)
        ensures
            stats.local_faults == 0,
            stats.remote_faults == 0,
            stats.fault_service_time_us@ == Seq::<u64>::empty(),
    {
        PagerStats { local_faults: 0, remote_faults: 0, fault_service_time_us: Vec::new() }
    }
}

/// Sorts `v` in place with `sort_unstable` of the standard library, which
/// orders a slice ascending and keeps its elements: afterwards `v` is
/// ascending and holds each value as often as before.
#[verifier::external_body]
fn sort_ascending(v: &mut Vec<u64>)
    ensures
        sorted_by(final(v)@, ascending()),
        final(v)@.to_multiset() == old(v)@.to_multiset(),
{
    v.sort_unstable();
}

/// `<=` on `u64` is a total order.
pub proof fn lemma_ascending_is_total()
    ensures
        total_ordering(ascending()),
{
}

/// What `sorted_samples` yields: an ascending sequence with the same samples.
pub proof fn lemma_sorted_samples(s: Seq<u64>)
    ensures
        sorted_samples(s).len() == s.len(),
        sorted_samples(s).to_multiset() == s.to_multiset(),
        forall|i: int, j: int|
            0 <= i <= j < s.len() ==> sorted_samples(s)[i] <= sorted_samples(s)[j],
{
    lemma_ascending_is_total();
    s.lemma_sort_by_ensures(ascending());
    s.to_multiset_ensures();
    sorted_samples(s).to_multiset_ensures();
    let sorted = sorted_samples(s);
    assert forall|i: int, j: int| 0 <= i <= j < s.len() implies sorted[i] <= sorted[j] by {
        if i < j {
            assert(ascending()(sorted[i], sorted[j]));
        }
    }
}

/// Samples that are ascending already are their own ranking.
pub proof fn lemma_sorted_samples_of_ascending(s: Seq<u64>)
    requires
        forall|i: int, j: int| 0 <= i < j < s.len() ==> s[i] <= s[j],
    ensures
        sorted_samples(s) == s,
{
    lemma_ascending_is_total();
    s.lemma_sort_by_ensures(ascending());
    assert(sorted_by(s, ascending()));
    lemma_sorted_unique(sorted_samples(s), s, ascending());
}

/// Any ascending arrangement of the samples of `s` is `sorted_samples(s)`.
pub proof fn lemma_ranking_is_unique(s: Seq<u64>, r: Seq<u64>)
    requires
        sorted_by(r, ascending()),
        r.to_multiset() == s.to_multiset(),
    ensures
        r == sorted_samples(s),
{
    lemma_ascending_is_total();
    s.lemma_sort_by_ensures(ascending());
    lemma_sorted_unique(r, sorted_samples(s), ascending());
}

/// The 99th-percentile rank lies among the samples, and with fewer than 100
/// samples it is the last one.
pub proof fn lemma_p99_rank_bounds(n: int)
    requires
        n > 0,
    ensures
        0 <= p99_rank(n) < n,
        n <= 100 ==> p99_rank(n) == n - 1,
        n * 99 <= 100 * p99_rank(n) + 99 || p99_rank(n) == n - 1,
{
}

/// The median lies between the smallest and the largest sample.
pub proof fn lemma_median_within_samples(s: Seq<u64>)
    requires
        s.len() > 0,
    ensures
        median_of(s) is Some,
        sorted_samples(s)[0] <= median_of(s)->0 <= sorted_samples(s)[s.len() - 1],
{
    lemma_sorted_samples(s);
    let sorted = sorted_samples(s);
    let n = s.len() as int;
    if n % 2 == 0 {
        assert(sorted[0] <= sorted[n / 2 - 1]);
        assert(sorted[n / 2 - 1] <= sorted[n / 2]);
        assert(sorted[n / 2] <= sorted[n - 1]);
    } else {
        assert(sorted[0] <= sorted[n / 2]);
        assert(sorted[n / 2] <= sorted[n - 1]);
    }
}

/// The remote-miss ratio is `remote / (local + remote)` and lies between 0
/// and 1; it is 0 where no fault was remote, and 1 where every fault was.
pub proof fn lemma_miss_ratio_bounds(local: u64, remote: u64)
    ensures
        miss_ratio_of(local, remote).denominator > 0,
        0 <= miss_ratio_of(local, remote).numerator <= miss_ratio_of(local, remote).denominator,
        local + remote > 0 ==> miss_ratio_of(local, remote).numerator == remote && miss_ratio_of(
            local,
            remote,
        ).denominator == local + remote,
        remote == 0 ==> miss_ratio_of(local, remote).numerator == 0,
        local == 0 && remote > 0 ==> miss_ratio_of(local, remote).numerator == miss_ratio_of(
            local,
            remote,
        ).denominator,
{
}

impl PagerStats {
    /// Statistics with no fault counted.
    pub fn new() -> (stats: Self)
        ensures
            stats.local_faults == 0,
            stats.remote_faults == 0,
            stats.fault_service_time_us@ == Seq::<u64>::empty(),
    {
        PagerStats { local_faults: 0, remote_faults: 0, fault_service_time_us: Vec::new() }
    }

    /// The service times in ascending order.
    fn ranked(&self) -> (sorted: Vec<u64>)
        ensures
            sorted@ == sorted_samples(self.fault_service_time_us@),
            sorted@.len() == self.fault_service_time_us@.len(),
    {
        let mut sorted = self.fault_service_time_us.clone();
        assert(sorted@ =~= self.fault_service_time_us@);
        sort_ascending(&mut sorted);
        proof {
            lemma_ranking_is_unique(self.fault_service_time_us@, sorted@);
            lemma_sorted_samples(self.fault_service_time_us@);
        }
        sorted
    }

    /// Median fault service time in microseconds; `None` without samples.
    pub fn median_latency_us(&self) -> (median: Option<u64>)
        ensures
            median == median_of(self.fault_service_time_us@),
            median is None <==> self.fault_service_time_us@.len() == 0,
    {
        if self.fault_service_time_us.len() == 0 {
            return None;
        }
        let sorted = self.ranked();
        let len: usize = sorted.len();
        if len % 2 == 0 {
            let low: u128 = sorted[len / 2 - 1] as u128;
            let high: u128 = sorted[len / 2] as u128;
            Some(((low + high) / 2) as u64)
        } else {
            Some(sorted[len / 2])
        }
    }

    /// 99th-percentile fault service time in microseconds; `None` without
    /// samples.
    pub fn p99_latency_us(&self) -> (p99: Option<u64>)
        ensures
            p99 == p99_of(self.fault_service_time_us@),
            p99 is None <==> self.fault_service_time_us@.len() == 0,
    {
        if self.fault_service_time_us.len() == 0 {
            return None;
        }
        let sorted = self.ranked();
        let len: usize = sorted.len();
        let scaled: u128 = (len as u128) * 99 / 100;
        let idx: usize = if scaled < (len - 1) as u128 {
            scaled as usize
        } else {
            len - 1
        };
        Some(sorted[idx])
    }

    /// The share of faults that were served from a remote node, as an exact
    /// ratio: `remote_faults / (local_faults + remote_faults)`, and `0 / 1`
    /// where no fault was counted.
    pub fn remote_miss_ratio(&self) -> (ratio: Ratio)
        ensures
            ratio == miss_ratio_of(self.local_faults, self.remote_faults),
            ratio.denominator > 0,
            ratio.numerator <= ratio.denominator,
    {
        let total: u128 = self.local_faults as u128 + self.remote_faults as u128;
        if total == 0 {
            Ratio { numerator: 0, denominator: 1 }
        } else {
            Ratio { numerator: self.remote_faults, denominator: total }
        }
    }

    /// A copy of these statistics.
    pub fn snapshot(&self) -> (copy: Self)
        ensures
            copy.local_faults == self.local_faults,
            copy.remote_faults == self.remote_faults,
            copy.fault_service_time_us@ == self.fault_service_time_us@,
    {
        let times = self.fault_service_time_us.clone();
        assert(times@ =~= self.fault_service_time_us@);
        PagerStats {
            local_faults: self.local_faults,
            remote_faults: self.remote_faults,
            fault_service_time_us: times,
        }
    }
}

} // verus!
