//! Value types that carry measurements from the workers to the search.

use vstd::prelude::*;

verus! {

pub const NANOS_PER_SECOND: u64 = 1_000_000_000;

/// What one worker reports at the end of its run.
#[derive(Clone, Copy, Debug, PartialEq, Eq, Structural)]
pub struct WorkerResult {
    pub worker_id: u64,
    pub units_completed: u64,
    /// Time since the start barrier released, in nanoseconds.
    pub elapsed_nanos: u64,
}

impl WorkerResult {
    pub fn new(worker_id: u64, units_completed: u64, elapsed_nanos: u64) -> (r: WorkerResult)
        ensures
            r == (WorkerResult { worker_id, units_completed, elapsed_nanos }),
    {
        WorkerResult { worker_id, units_completed, elapsed_nanos }
    }
}

/// The units completed by all the workers of a sequence, added up.
pub open spec fn total_units(results: Seq<WorkerResult>) -> nat
    decreases results.len(),
{
    if results.len() == 0 {
        0
    } else {
        total_units(results.drop_last()) + results.last().units_completed as nat
    }
}

/// One more worker adds exactly its own count to the total.
pub proof fn lemma_total_units_push(results: Seq<WorkerResult>, w: WorkerResult)
    ensures
        total_units(results.push(w)) == total_units(results) + w.units_completed,
{
    assert(results.push(w).drop_last() =~= results);
}

/// The total of two groups of workers taken together is the sum of the
/// totals of each: no unit is counted twice and none is lost.
pub proof fn lemma_total_units_concat(a: Seq<WorkerResult>, b: Seq<WorkerResult>)
    ensures
        total_units(a + b) == total_units(a) + total_units(b),
    decreases b.len(),
{
    if b.len() == 0 {
        assert(a + b =~= a);
    } else {
        lemma_total_units_concat(a, b.drop_last());
        assert((a + b).drop_last() =~= a + b.drop_last());
    }
}

/// The total over the first `n` workers never exceeds the total over all.
pub proof fn lemma_total_units_prefix(results: Seq<WorkerResult>, n: int)
    requires
        0 <= n <= results.len(),
    ensures
        total_units(results.take(n)) <= total_units(results),
{
    lemma_total_units_concat(results.take(n), results.skip(n));
    assert(results.take(n) + results.skip(n) =~= results);
}

/// Adds up the units of `results`, or reports that the sum does not fit.
pub fn checked_total(results: &Vec<WorkerResult>) -> (total: Option<u64>)
    ensures
        total_units(results@) <= u64::MAX ==> total == Some(total_units(results@) as u64),
        total_units(results@) > u64::MAX ==> total is None,
{
    let mut sum: u64 = 0;
    let mut i: usize = 0;
    while i < results.len()
        invariant
            i <= results.len(),
            sum == total_units(results@.take(i as int)),
        decreases results.len() - i,
    {
        let units: u64 = results[i].units_completed;
        proof {
            assert(results@.take(i + 1) =~= results@.take(i as int).push(results@[i as int]));
            lemma_total_units_push(results@.take(i as int), results@[i as int]);
            lemma_total_units_prefix(results@, i + 1);
        }
        match sum.checked_add(units) {
            Some(s) => {
                sum = s;
            },
            None => {
                return None;
            },
        }
        i += 1;
    }
    proof {
        assert(results@.take(i as int) =~= results@);
    }
    Some(sum)
}

/// What identifies one sample to whoever receives its figures.
#[derive(Clone, Debug, PartialEq, Eq)]
pub struct SampleDescriptor {
    pub worker_count: u64,
    pub algorithm_label: String,
    pub backend_label: String,
}

impl SampleDescriptor {
    pub fn new(worker_count: u64, algorithm_label: String, backend_label: String) -> (d:
        SampleDescriptor)
        ensures
            d == (SampleDescriptor { worker_count, algorithm_label, backend_label }),
    {
        SampleDescriptor { worker_count, algorithm_label, backend_label }
    }
}

/// A rate of work, held exactly: `messages` units in `nanos` nanoseconds.
///
/// Rates are ordered as fractions, so two samples taken over windows of
/// different lengths compare without rounding.
#[derive(Clone, Copy, Debug, PartialEq, Eq, Structural)]
pub struct Throughput {
    pub messages: u64,
    pub nanos: u64,
}

impl Throughput {
    /// `self` is no faster than `other`: `messages / nanos` compared as
    /// fractions, by cross-multiplication.
    pub open spec fn le(self, other: Throughput) -> bool {
        self.messages * other.nanos <= other.messages * self.nanos
    }

    /// `self` is strictly faster than `other`.
    pub open spec fn gt(self, other: Throughput) -> bool {
        !self.le(other)
    }

    /// Whole units per second, rounded down.
    pub open spec fn spec_per_second(self) -> nat {
        (self.messages * NANOS_PER_SECOND / self.nanos as int) as nat
    }

    pub fn at_most(&self, other: &Throughput) -> (b: bool)
        ensures
            b == self.le(*other),
    {
        assert(self.messages * other.nanos <= u64::MAX * u64::MAX) by (nonlinear_arith)
            requires
                self.messages <= u64::MAX,
                other.nanos <= u64::MAX,
        ;
        assert(other.messages * self.nanos <= u64::MAX * u64::MAX) by (nonlinear_arith)
            requires
                other.messages <= u64::MAX,
                self.nanos <= u64::MAX,
        ;
        let left: u128 = self.messages as u128 * other.nanos as u128;
        let right: u128 = other.messages as u128 * self.nanos as u128;
        left <= right
    }

    pub fn exceeds(&self, other: &Throughput) -> (b: bool)
        ensures
            b == self.gt(*other),
    {
        !self.at_most(other)
    }

    /// Whole units per second, rounded down.
    pub fn per_second(&self) -> (rate: u128)
        requires
            self.nanos > 0,
        ensures
            rate == self.spec_per_second(),
    {
        let scaled: u128 = self.messages as u128 * NANOS_PER_SECOND as u128;
        scaled / self.nanos as u128
    }
}

/// Over windows of positive length, the order of rates is transitive.
pub proof fn lemma_rate_le_transitive(a: Throughput, b: Throughput, c: Throughput)
    requires
        b.nanos > 0,
        a.le(b),
        b.le(c),
    ensures
        a.le(c),
{
    let (am, an) = (a.messages as int, a.nanos as int);
    let (bm, bn) = (b.messages as int, b.nanos as int);
    let (cm, cn) = (c.messages as int, c.nanos as int);
    assert(am * cn <= cm * an) by (nonlinear_arith)
        requires
            bn > 0,
            am * bn <= bm * an,
            bm * cn <= cm * bn,
            0 <= am,
            0 <= an,
            0 <= bm,
            0 <= cm,
            0 <= cn,
    ;
}

/// Over one and the same window, the faster rate is the one with more units.
pub proof fn lemma_rate_same_window(a: Throughput, b: Throughput)
    requires
        a.nanos == b.nanos,
        a.nanos > 0,
    ensures
        a.le(b) <==> a.messages <= b.messages,
{
    let n = a.nanos as int;
    let (am, bm) = (a.messages as int, b.messages as int);
    assert((am * n <= bm * n) <==> am <= bm) by (nonlinear_arith)
        requires
            n > 0,
    ;
}

/// The figures of one sample, as mathematics sees them.
pub struct ResultsView {
    pub worker_results: Seq<WorkerResult>,
    pub messages_total: nat,
    pub duration_nanos: nat,
}

impl ResultsView {
    /// The total is the sum over the workers, the window is not empty, and
    /// both fit the machine's integers.
    pub open spec fn wf(self) -> bool {
        &&& self.messages_total == total_units(self.worker_results)
        &&& self.messages_total <= u64::MAX
        &&& 0 < self.duration_nanos <= u64::MAX
    }

    /// The sample's rate: all units over the sampling window.
    pub open spec fn rate(self) -> Throughput {
        Throughput { messages: self.messages_total as u64, nanos: self.duration_nanos as u64 }
    }
}

/// The aggregated figures of one sample: the workers' results in the order
/// in which the workers were created, their total, and the sampling window.
#[derive(Debug, PartialEq, Eq)]
pub struct Results {
    worker_results: Vec<WorkerResult>,
    messages_total: u64,
    duration_nanos: u64,
}

impl View for Results {
    type V = ResultsView;

    closed spec fn view(&self) -> ResultsView {
        ResultsView {
            worker_results: self.worker_results@,
            messages_total: self.messages_total as nat,
            duration_nanos: self.duration_nanos as nat,
        }
    }
}

impl Clone for Results {
    fn clone(&self) -> (r: Results)
        ensures
            r@ == self@,
    {
        proof {
            use_type_invariant(self);
        }
        let mut worker_results: Vec<WorkerResult> = Vec::new();
        let mut i: usize = 0;
        while i < self.worker_results.len()
            invariant
                i <= self.worker_results.len(),
                worker_results@ == self.worker_results@.take(i as int),
            decreases self.worker_results.len() - i,
        {
            worker_results.push(self.worker_results[i]);
            proof {
                assert(self.worker_results@.take(i + 1) =~= self.worker_results@.take(
                    i as int,
                ).push(self.worker_results@[i as int]));
            }
            i += 1;
        }
        proof {
            assert(self.worker_results@.take(i as int) =~= self.worker_results@);
        }
        Results {
            worker_results,
            messages_total: self.messages_total,
            duration_nanos: self.duration_nanos,
        }
    }
}

impl Results {
    /// What holds of every sample's figures: their view is well formed.
    #[verifier::type_invariant]
    pub open spec fn inv(&self) -> bool {
        self@.wf()
    }

    /// Aggregates the results of one sample taken over a window of
    /// `duration_nanos` nanoseconds.
    pub fn new(worker_results: Vec<WorkerResult>, duration_nanos: u64) -> (r: Results)
        requires
            duration_nanos > 0,
            total_units(worker_results@) <= u64::MAX,
        ensures
            r@ == (ResultsView {
                worker_results: worker_results@,
                messages_total: total_units(worker_results@),
                duration_nanos: duration_nanos as nat,
            }),
            r@.wf(),
    {
        let total: Option<u64> = checked_total(&worker_results);
        Results { worker_results, messages_total: total.unwrap(), duration_nanos }
    }

    pub fn worker_results(&self) -> (r: &Vec<WorkerResult>)
        ensures
            r@ == self@.worker_results,
    {
        &self.worker_results
    }

    /// The units completed by all workers together.
    pub fn messages_total(&self) -> (total: u64)
        ensures
            total == self@.messages_total,
            total == total_units(self@.worker_results),
    {
        proof {
            use_type_invariant(self);
        }
        self.messages_total
    }

    /// The sampling window in nanoseconds; never zero.
    pub fn duration_nanos(&self) -> (nanos: u64)
        ensures
            nanos == self@.duration_nanos,
            nanos > 0,
    {
        proof {
            use_type_invariant(self);
        }
        self.duration_nanos
    }

    /// The sample's rate as an exact fraction.
    pub fn throughput(&self) -> (t: Throughput)
        ensures
            self@.wf(),
            t == self@.rate(),
            t.messages == total_units(self@.worker_results),
            t.nanos > 0,
    {
        proof {
            use_type_invariant(self);
        }
        Throughput { messages: self.messages_total, nanos: self.duration_nanos }
    }

    /// Whole units per second over the window, rounded down.
    pub fn messages_per_second(&self) -> (rate: u128)
        ensures
            rate == (total_units(self@.worker_results) * NANOS_PER_SECOND
                / self@.duration_nanos as int),
    {
        self.throughput().per_second()
    }
}

} // verus!
