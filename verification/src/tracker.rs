//! A bounded sliding window of recent samples with FIFO eviction.
//!
//! Samples are double-precision measurements carried as their IEEE 754 bit
//! patterns (`u64`), so the window discipline itself is verified: how many
//! samples are retained, which sample is evicted, and in what order the
//! window holds them. The caller keeps the running-sum accumulator in its
//! own numeric type and retires each evicted sample from it, which keeps
//! every update O(1) regardless of the window size.

use std::collections::VecDeque;
use vstd::prelude::*;

verus! {

broadcast use vstd::std_specs::vecdeque::group_vec_dequeue_axioms;

/// The window contents after one sample is observed: when the window already
/// holds `cap` samples, the oldest is dropped before the new one is appended.
pub open spec fn window_step(w: Seq<u64>, cap: nat, sample: u64) -> Seq<u64> {
    if w.len() >= cap {
        w.subrange(1, w.len() as int).push(sample)
    } else {
        w.push(sample)
    }
}

/// The sample that observing one more value into window `w` evicts, if any:
/// the oldest retained sample exactly when the window is full.
pub open spec fn evicted_by(w: Seq<u64>, cap: nat) -> Option<u64> {
    if w.len() >= cap && w.len() > 0 {
        Some(w[0])
    } else {
        None
    }
}

/// A fixed-capacity sliding window over a stream of samples, the state behind
/// an incrementally maintained moving average.
pub struct IncrementalMA {
    window: VecDeque<u64>,
    capacity: usize,
}

impl IncrementalMA {
    /// The retained samples, oldest first.
    pub closed spec fn samples(&self) -> Seq<u64> {
        self.window@
    }

    /// The fixed bound on how many samples are retained.
    pub closed spec fn cap(&self) -> nat {
        self.capacity as nat
    }

    pub open spec fn well_formed(&self) -> bool {
        &&& self.cap() >= 1
        &&& self.samples().len() <= self.cap()
    }

    /// Builds an empty tracker; a zero capacity is rejected rather than left
    /// to divide a later mean by zero.
    pub fn new(capacity: usize) -> (r: Option<IncrementalMA>)
        ensures
            r is Some <==> capacity >= 1,
            r matches Some(t) ==> t.well_formed() && t.cap() == capacity && t.samples()
                == Seq::<u64>::empty(),
    {
        if capacity == 0 {
            None
        } else {
            Some(IncrementalMA { window: VecDeque::with_capacity(capacity), capacity })
        }
    }

    /// Records one sample. When the window is already full, the oldest sample
    /// is evicted first and handed back so the caller can retire it from its
    /// accumulator.
    pub fn add(&mut self, sample: u64) -> (evicted: Option<u64>)
        requires
            old(self).well_formed(),
        ensures
            final(self).well_formed(),
            final(self).cap() == old(self).cap(),
            final(self).samples() == window_step(
                old(self).samples(),
                old(self).cap(),
                sample,
            ),
            evicted == evicted_by(old(self).samples(), old(self).cap()),
            final(self).samples().len() == if old(self).samples().len() < old(self).cap() {
                old(self).samples().len() + 1
            } else {
                old(self).cap()
            },
    {
        let evicted = if self.window.len() == self.capacity {
            self.window.pop_front()
        } else {
            None
        };
        self.window.push_back(sample);
        evicted
    }

    /// How many samples the window currently holds.
    pub fn len(&self) -> (n: usize)
        ensures
            n == self.samples().len(),
    {
        self.window.len()
    }

    /// Whether no sample has been retained yet.
    pub fn is_empty(&self) -> (b: bool)
        ensures
            b == (self.samples().len() == 0),
    {
        self.window.len() == 0
    }

    /// The capacity the tracker was built with.
    pub fn capacity(&self) -> (c: usize)
        ensures
            c == self.cap(),
    {
        self.capacity
    }
}

/// The window contents after observing `stream`, in order, into a fresh
/// tracker of capacity `cap`.
pub open spec fn window_after(cap: nat, stream: Seq<u64>) -> Seq<u64>
    decreases stream.len(),
{
    if stream.len() == 0 {
        Seq::<u64>::empty()
    } else {
        window_step(window_after(cap, stream.drop_last()), cap, stream.last())
    }
}

/// Law: after observing any stream of samples into a fresh tracker, the
/// retained window is exactly the most recent `min(stream.len(), cap)`
/// samples of the stream, oldest first. The mean of the window is therefore
/// the mean of those samples, and no others.
pub proof fn lemma_window_is_stream_suffix(cap: nat, stream: Seq<u64>)
    requires
        cap >= 1,
    ensures
        window_after(cap, stream) == if stream.len() <= cap {
            stream
        } else {
            stream.subrange(stream.len() - cap, stream.len() as int)
        },
    decreases stream.len(),
{
    if stream.len() == 0 {
        assert(window_after(cap, stream) =~= stream);
    } else {
        let prefix = stream.drop_last();
        lemma_window_is_stream_suffix(cap, prefix);
        let w = window_after(cap, prefix);
        if prefix.len() < cap {
            assert(window_after(cap, stream) =~= stream);
        } else {
            assert(w.len() == cap);
            assert(window_after(cap, stream) =~= stream.subrange(
                stream.len() - cap,
                stream.len() as int,
            ));
        }
    }
}

/// Law (window bound): no stream, however long, leaves more than `cap`
/// samples retained.
pub proof fn lemma_window_bound(cap: nat, stream: Seq<u64>)
    requires
        cap >= 1,
    ensures
        window_after(cap, stream).len() <= cap,
{
    lemma_window_is_stream_suffix(cap, stream);
}

/// Law (FIFO eviction): observing `cap + 1` samples into a fresh tracker of
/// capacity `cap` retains every sample but the first, in order: the
/// longest-resident sample is the one evicted.
pub proof fn lemma_fifo_eviction(cap: nat, stream: Seq<u64>)
    requires
        cap >= 1,
        stream.len() == cap + 1,
    ensures
        window_after(cap, stream) == stream.subrange(1, stream.len() as int),
{
    lemma_window_is_stream_suffix(cap, stream);
}

} // verus!
