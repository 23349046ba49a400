//! Frame-time accounting: a circular buffer of the most recent
//! frame durations, in microseconds, and their rolling average.
use vstd::prelude::*;

verus! {

/// How many samples the rolling buffer keeps.
pub const SAMPLE_CAPACITY: usize = 25;

/// The sum of a sequence of samples.
pub open spec fn sum_of(s: Seq<u64>) -> int
    decreases s.len(),
{
    if s.len() == 0 {
        0
    } else {
        sum_of(s.drop_last()) + s.last()
    }
}

/// The sum of `n` samples is at most `n` times the largest
/// representable sample.
proof fn lemma_sum_bound(s: Seq<u64>)
    ensures
        0 <= sum_of(s) <= s.len() * (u64::MAX as int),
    decreases s.len(),
{
    if s.len() > 0 {
        lemma_sum_bound(s.drop_last());
        assert(s.len() * (u64::MAX as int) == (s.len() - 1) * (u64::MAX as int) + u64::MAX)
            by (nonlinear_arith);
    }
}

/// A fixed-capacity circular buffer of the most recent frame times.
/// It grows until the capacity is reached, then overwrites the oldest
/// sample.
#[derive(Debug)]
pub struct FrameTimer {
    pub samples: Vec<u64>,
    pub cursor: usize,
}

impl FrameTimer {
    /// The buffer never exceeds its capacity, the cursor stays inside
    /// it, and while the buffer is still filling the cursor is the
    /// fill level.
    pub open spec fn wf(&self) -> bool {
        &&& self.samples@.len() <= SAMPLE_CAPACITY
        &&& self.cursor < SAMPLE_CAPACITY
        &&& self.samples@.len() < SAMPLE_CAPACITY ==> self.cursor == self.samples@.len()
    }

    /// Starts empty.
    pub fn new() -> (r: FrameTimer)
        ensures
            r.wf(),
            r.samples@.len() == 0,
    {
        FrameTimer { samples: Vec::new(), cursor: 0 }
    }

    /// Records one frame time: appended while the buffer is filling,
    /// overwriting the oldest sample once it is full.
    pub fn record(&mut self, sample: u64)
        requires
            old(self).wf(),
        ensures
            final(self).wf(),
            old(self).samples@.len() < SAMPLE_CAPACITY ==> final(self).samples@ == old(
                self,
            ).samples@.push(sample),
            old(self).samples@.len() == SAMPLE_CAPACITY ==> final(self).samples@ == old(
                self,
            ).samples@.update(old(self).cursor as int, sample),
            final(self).cursor == (if old(self).cursor + 1 == SAMPLE_CAPACITY {
                0usize
            } else {
                (old(self).cursor + 1) as usize
            }),
    {
        if self.samples.len() < SAMPLE_CAPACITY {
            self.samples.push(sample);
            self.cursor = if self.samples.len() == SAMPLE_CAPACITY {
                0
            } else {
                self.samples.len()
            };
        } else {
            self.samples[self.cursor] = sample;
            self.cursor = if self.cursor + 1 == SAMPLE_CAPACITY {
                0
            } else {
                self.cursor + 1
            };
        }
    }

    /// The rolling average: the integer quotient of the stored
    /// samples' sum by their count, and zero while nothing is stored.
    pub fn average(&self) -> (r: u64)
        requires
            self.wf(),
        ensures
            self.samples@.len() == 0 ==> r == 0,
            self.samples@.len() > 0 ==> r == sum_of(self.samples@) / (self.samples@.len() as int),
    {
        if self.samples.len() == 0 {
            return 0;
        }
        let ghost s = self.samples@;
        let mut total: u128 = 0;
        let mut i: usize = 0;
        while i < self.samples.len()
            invariant
                self.wf(),
                i <= self.samples@.len(),
                self.samples@ == s,
                total == sum_of(s.subrange(0, i as int)),
            decreases self.samples@.len() - i,
        {
            proof {
                lemma_sum_bound(s.subrange(0, i as int));
                assert(s.subrange(0, i as int).len() * (u64::MAX as int) <= s.len() * (
                u64::MAX as int)) by (nonlinear_arith)
                    requires
                        s.subrange(0, i as int).len() <= s.len(),
                ;
                assert(s.len() * (u64::MAX as int) < u128::MAX) by (nonlinear_arith)
                    requires
                        s.len() <= SAMPLE_CAPACITY,
                ;
                assert(s.subrange(0, i as int + 1).drop_last() =~= s.subrange(0, i as int));
            }
            total = total + (self.samples[i] as u128);
            i = i + 1;
        }
        proof {
            assert(s.subrange(0, s.len() as int) =~= s);
            lemma_sum_bound(s);
            assert(sum_of(s) / (s.len() as int) <= u64::MAX) by (nonlinear_arith)
                requires
                    0 < s.len(),
                    0 <= sum_of(s) <= s.len() * (u64::MAX as int),
            ;
        }
        (total / (self.samples.len() as u128)) as u64
    }
}

/// Feeding only samples of one value `v` yields an average of exactly
/// `v`: the sum of `n` equal samples is `n * v`, whose integer
/// quotient by `n` is `v` again.
pub proof fn lemma_constant_samples_average(s: Seq<u64>, v: u64)
    requires
        s.len() > 0,
        forall|i: int| 0 <= i < s.len() ==> s[i] == v,
    ensures
        sum_of(s) == s.len() * v,
        sum_of(s) / (s.len() as int) == v,
    decreases s.len(),
{
    if s.len() == 1 {
        assert(sum_of(s.drop_last()) == 0);
        assert(s.last() == s[0]);
        assert(s.len() * v == v) by (nonlinear_arith)
            requires
                s.len() == 1,
        ;
    } else {
        lemma_constant_samples_average(s.drop_last(), v);
        assert(s.len() * v == (s.len() - 1) * v + v) by (nonlinear_arith);
    }
    assert((s.len() * v) / (s.len() as int) == v) by (nonlinear_arith)
        requires
            s.len() > 0,
    ;
}

} // verus!
