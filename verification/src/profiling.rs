//! A rolling average over wall-clock time samples.
//!
//! The sampler keeps up to a fixed number of the most recent durations in a
//! ring: while there is room a new sample is appended, afterwards the oldest
//! one is overwritten. Durations are opaque outside values, so their
//! nanosecond counts are captured once, as plain numbers, when a sample is
//! recorded; the ring's shape and the averages over the captured counts are
//! verified.

use vstd::prelude::*;

verus! {

#[verifier::external_type_specification]
#[verifier::external_body]
pub struct ExInstant(std::time::Instant);

/// Relies on std::time::Instant::now: reads the monotonic clock; nothing is
/// promised of the value.
#[verifier::external_body]
fn instant_now() -> std::time::Instant {
    std::time::Instant::now()
}

/// Relies on std::time::Instant::elapsed: the time since the instant was
/// read; nothing is promised of the value.
#[verifier::external_body]
fn instant_elapsed(start: &std::time::Instant) -> core::time::Duration {
    start.elapsed()
}

/// Relies on core::time::Duration::as_nanos: the total number of nanoseconds
/// the duration holds; nothing more is promised of the value.
#[verifier::external_body]
fn duration_as_nanos(duration: &core::time::Duration) -> u128 {
    duration.as_nanos()
}

/// A sum capped at the largest representable value.
pub open spec fn spec_saturating_add(total: int, addend: int) -> int {
    if total + addend > u128::MAX {
        u128::MAX as int
    } else {
        total + addend
    }
}

/// The nanosecond counts summed left to right, saturating at the largest
/// representable value.
pub open spec fn spec_total_nanos(counts: Seq<u128>) -> int
    decreases counts.len(),
{
    if counts.len() == 0 {
        0
    } else {
        spec_saturating_add(spec_total_nanos(counts.drop_last()), counts.last() as int)
    }
}

/// A rolling average over up to `sample_capacity` recent time samples. Each
/// recorded sample keeps the duration itself and, alongside it, the
/// nanosecond count that was read off it when it was recorded.
#[derive(Debug)]
pub struct AverageTimeSampler {
    pub samples: Vec<core::time::Duration>,
    pub sample_nanos: Vec<u128>,
    pub current_sample_index: usize,
    pub sample_capacity: usize,
}

impl AverageTimeSampler {
    /// Well-formedness: every sample has its captured nanosecond count.
    pub open spec fn wf(self) -> bool {
        self.samples@.len() == self.sample_nanos@.len()
    }

    /// The recording transition: `post` is `pre` with one sample recorded —
    /// appended while there was room, and overwriting the oldest position
    /// once the ring was full.
    pub open spec fn spec_pushed(
        pre: AverageTimeSampler,
        post: AverageTimeSampler,
        duration: core::time::Duration,
        nanos: u128,
    ) -> bool {
        &&& post.sample_capacity == pre.sample_capacity
        &&& if pre.samples@.len() < pre.sample_capacity {
            &&& post.samples@ == pre.samples@.push(duration)
            &&& post.sample_nanos@ == pre.sample_nanos@.push(nanos)
            &&& post.current_sample_index == pre.current_sample_index + 1
        } else {
            let position = if pre.current_sample_index >= pre.samples@.len() {
                0int
            } else {
                pre.current_sample_index as int
            };
            &&& pre.samples@.len() > 0 ==> {
                &&& post.samples@ == pre.samples@.update(position, duration)
                &&& post.sample_nanos@ == pre.sample_nanos@.update(position, nanos)
                &&& post.current_sample_index == position + 1
            }
            &&& pre.samples@.len() == 0 ==> post == (AverageTimeSampler {
                current_sample_index: 0usize,
                ..pre
            })
        }
    }

    /// The divisor of every average: the number of samples, floored at 1 so
    /// an empty sampler averages 0.
    pub open spec fn spec_divisor(self) -> int {
        if self.samples@.len() == 0 {
            1
        } else {
            self.samples@.len() as int
        }
    }

    /// A sampler that keeps up to `sample_count` recent samples.
    pub fn new(sample_count: usize) -> (sampler: AverageTimeSampler)
        ensures
            sampler.wf(),
            sampler.samples@ == Seq::<core::time::Duration>::empty(),
            sampler.sample_nanos@ == Seq::<u128>::empty(),
            sampler.current_sample_index == 0,
            sampler.sample_capacity == sample_count,
    {
        AverageTimeSampler {
            samples: Vec::new(),
            sample_nanos: Vec::new(),
            current_sample_index: 0,
            sample_capacity: sample_count,
        }
    }

    /// The recorded samples, oldest positions first.
    pub fn samples(&self) -> (samples: &Vec<core::time::Duration>)
        ensures
            samples == self.samples,
    {
        &self.samples
    }

    /// Records one sample: its duration and its captured nanosecond count go
    /// through the ring transition together.
    pub fn push(&mut self, duration: core::time::Duration)
        requires
            old(self).wf(),
            old(self).current_sample_index < usize::MAX,
        ensures
            final (self).wf(),
            exists|nanos: u128|
                AverageTimeSampler::spec_pushed(*old(self), *final(self), duration, nanos),
    {
        let nanos: u128 = duration_as_nanos(&duration);
        if self.samples.len() < self.sample_capacity {
            self.samples.push(duration);
            self.sample_nanos.push(nanos);
            self.current_sample_index = self.current_sample_index + 1;
        } else {
            if self.current_sample_index >= self.samples.len() {
                self.current_sample_index = 0;
            }
            if self.samples.len() == 0 {
                proof {
                    assert(AverageTimeSampler::spec_pushed(
                        *old(self),
                        *self,
                        duration,
                        nanos,
                    ));
                }
                return ;
            }
            let position: usize = self.current_sample_index;
            self.samples[position] = duration;
            self.sample_nanos[position] = nanos;
            self.current_sample_index = position + 1;
        }
        proof {
            assert(AverageTimeSampler::spec_pushed(*old(self), *final(self), duration, nanos));
        }
    }

    /// Runs `block`, returns its value unchanged, and records how long it
    /// took: the sampler afterwards is the old one with one sample recorded.
    pub fn measure<T, F: FnOnce() -> T>(&mut self, block: F) -> (result: T)
        requires
            old(self).wf(),
            old(self).current_sample_index < usize::MAX,
            call_requires(block, ()),
        ensures
            final (self).wf(),
            call_ensures(block, (), result),
            exists|duration: core::time::Duration, nanos: u128|
                AverageTimeSampler::spec_pushed(*old(self), *final(self), duration, nanos),
    {
        let start = instant_now();
        let result = block();
        self.push(instant_elapsed(&start));
        result
    }

    /// The sum of the captured nanosecond counts, saturating at the largest
    /// representable value.
    fn total_nanos(&self) -> (total: u128)
        ensures
            total == spec_total_nanos(self.sample_nanos@),
    {
        let mut total: u128 = 0;
        let mut pos: usize = 0;
        proof {
            assert(self.sample_nanos@.take(0) =~= Seq::<u128>::empty());
        }
        while pos < self.sample_nanos.len()
            invariant
                0 <= pos <= self.sample_nanos@.len(),
                total == spec_total_nanos(self.sample_nanos@.take(pos as int)),
            decreases self.sample_nanos@.len() - pos,
        {
            proof {
                assert(self.sample_nanos@.take(pos + 1).drop_last() =~= self.sample_nanos@.take(
                    pos as int,
                ));
                assert(self.sample_nanos@.take(pos + 1).last() == self.sample_nanos@[pos as int]);
            }
            let nanos: u128 = self.sample_nanos[pos];
            total = match total.checked_add(nanos) {
                Some(sum) => sum,
                None => u128::MAX,
            };
            pos = pos + 1;
        }
        proof {
            assert(self.sample_nanos@.take(self.sample_nanos@.len() as int)
                =~= self.sample_nanos@);
        }
        total
    }

    /// The number of samples, floored at 1 so an empty sampler averages 0.
    fn divisor(&self) -> (divisor: usize)
        ensures
            divisor == self.spec_divisor(),
            divisor >= 1,
    {
        if self.samples.len() == 0 {
            1
        } else {
            self.samples.len()
        }
    }

    /// The average sample length in whole seconds, truncated to 64 bits.
    pub fn average_secs(&self) -> (average: u64)
        ensures
            average == (spec_total_nanos(self.sample_nanos@) / 1_000_000_000
                / self.spec_divisor()) as u64,
    {
        #[verifier::truncate] ((self.total_nanos() / 1_000_000_000 / (self.divisor() as u128))
            as u64)
    }

    /// The average sample length in whole milliseconds.
    pub fn average_millis(&self) -> (average: u128)
        ensures
            average == spec_total_nanos(self.sample_nanos@) / 1_000_000 / self.spec_divisor(),
    {
        self.total_nanos() / 1_000_000 / (self.divisor() as u128)
    }

    /// The average sample length in whole microseconds.
    pub fn average_micros(&self) -> (average: u128)
        ensures
            average == spec_total_nanos(self.sample_nanos@) / 1_000 / self.spec_divisor(),
    {
        self.total_nanos() / 1_000 / (self.divisor() as u128)
    }

    /// The average sample length in whole nanoseconds.
    pub fn average_nanos(&self) -> (average: u128)
        ensures
            average == spec_total_nanos(self.sample_nanos@) / self.spec_divisor(),
    {
        self.total_nanos() / (self.divisor() as u128)
    }
}

} // verus!
