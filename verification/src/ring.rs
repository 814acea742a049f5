//! The bounded sample queue between the decode worker and the audio device.
//!
//! A fixed-capacity first-in-first-out buffer of interleaved samples.  The
//! producer (the decode worker) writes as much as fits and is paced by the
//! free space; the consumer (the hardware callback) takes what is there and
//! never waits: on an underrun `read_or_silence` fills the remainder of the
//! request with silence rather than blocking or handing out stale samples.
//!
//! The queue is sized to hold roughly 200 ms of audio at the negotiated
//! sample rate and channel count; see [`ring_capacity`].

use vstd::prelude::*;

use vstd::arithmetic::div_mod::lemma_add_mod_noop;
use vstd::arithmetic::div_mod::lemma_mod_bound;
use vstd::arithmetic::div_mod::lemma_small_mod;

verus! {

/// The capacity, in samples, of the ring between decoder and device: about
/// 200 ms of audio at `rate` frames per second with `channels` samples per
/// frame.
pub fn ring_capacity(rate: u32, channels: u16) -> (n: u64)
    ensures
        n == 200 * rate / 1000 * channels,
{
    let frames: u64 = 200u64 * (rate as u64) / 1000;
    proof {
        vstd::arithmetic::div_mod::lemma_div_is_ordered(
            200 * (rate as int),
            200 * (u32::MAX as int),
            1000,
        );
        vstd::arithmetic::mul::lemma_mul_upper_bound(
            frames as int,
            858993459,
            channels as int,
            65535,
        );
    }
    frames * (channels as u64)
}

/// A run of silence, which is what the device receives where the queue ran
/// dry.
pub open spec fn silence(n: int) -> Seq<i16> {
    Seq::new(n as nat, |i: int| 0i16)
}

/// Fixed-capacity single-producer single-consumer queue of interleaved
/// samples.
pub struct RingBuffer {
    /// The backing storage; its length is the capacity and never changes.
    buf: Vec<i16>,
    /// Index of the oldest queued sample.
    head: usize,
    /// Number of queued samples.
    len: usize,
}

impl RingBuffer {
    #[verifier::type_invariant]
    spec fn inv(self) -> bool {
        &&& 0 < self.buf@.len() <= usize::MAX / 2
        &&& self.head < self.buf@.len()
        &&& self.len <= self.buf@.len()
    }

    /// How many samples the queue can hold.
    pub closed spec fn capacity(self) -> nat {
        self.buf@.len()
    }

    /// The queued samples, oldest first.
    pub closed spec fn contents(self) -> Seq<i16> {
        Seq::new(self.len as nat, |i: int| self.buf@[(self.head + i) % (self.buf@.len() as int)])
    }

    /// Creates an empty queue holding up to `capacity` samples.
    pub fn new(capacity: usize) -> (r: RingBuffer)
        requires
            0 < capacity <= usize::MAX / 2,
        ensures
            r.capacity() == capacity,
            r.contents() == Seq::<i16>::empty(),
    {
        let mut buf: Vec<i16> = Vec::new();
        let mut i: usize = 0;
        while i < capacity
            invariant
                buf@.len() == i,
                i <= capacity,
            decreases capacity - i,
        {
            buf.push(0);
            i = i + 1;
        }
        let r = RingBuffer { buf, head: 0, len: 0 };
        proof {
            assert(r.contents() =~= Seq::<i16>::empty());
        }
        r
    }

    /// How many samples are queued right now.
    pub fn queued(&self) -> (n: usize)
        ensures
            n == self.contents().len(),
    {
        self.len
    }

    /// How many more samples fit right now.
    pub fn free(&self) -> (n: usize)
        ensures
            n == self.capacity() - self.contents().len(),
    {
        proof {
            use_type_invariant(self);
        }
        self.buf.len() - self.len
    }

    /// Producer side: appends samples from `samples[start..]`, as many as
    /// fit, and reports how many were taken.  A full queue takes nothing;
    /// the caller blocks or retries, which is what paces decoding to
    /// playback speed.
    pub fn write(&mut self, samples: &Vec<i16>, start: usize) -> (n: usize)
        requires
            start <= samples@.len(),
        ensures
            n == vstd::math::min(
                samples@.len() - start,
                old(self).capacity() - old(self).contents().len(),
            ),
            final(self).contents() == old(self).contents() + samples@.subrange(
                start as int,
                start + n,
            ),
            final(self).capacity() == old(self).capacity(),
    {
        proof {
            use_type_invariant(&*self);
        }
        let cap = self.buf.len();
        let free = cap - self.len;
        let avail = samples.len() - start;
        let n = if avail < free {
            avail
        } else {
            free
        };
        let mut k: usize = 0;
        while k < n
            invariant
                k <= n,
                self.inv(),
                n <= samples@.len() - start,
                samples@.len() <= usize::MAX,
                n <= self.buf@.len() - old(self).len,
                cap == self.buf@.len(),
                self.head == old(self).head,
                self.len == old(self).len + k,
                self.buf@.len() == old(self).buf@.len(),
                self.contents() == old(self).contents() + samples@.subrange(
                    start as int,
                    start + k,
                ),
            decreases n - k,
        {
            let idx = (self.head + self.len) % cap;
            let ghost pre = *self;
            self.buf[idx] = samples[start + k];
            self.len = self.len + 1;
            proof {
                lemma_write_one(pre, *self, idx as int, samples@[start + k]);
                assert(self.contents() =~= old(self).contents() + samples@.subrange(
                    start as int,
                    start + k + 1,
                ));
            }
            k = k + 1;
        }
        proof {
            assert(self.contents() =~= old(self).contents() + samples@.subrange(
                start as int,
                start + n,
            ));
        }
        n
    }

    /// Consumer side: removes up to `n` samples, oldest first, and returns
    /// them.  Takes what is there and never waits.
    pub fn read(&mut self, n: usize) -> (out: Vec<i16>)
        ensures
            out@ == old(self).contents().take(
                vstd::math::min(n as int, old(self).contents().len() as int),
            ),
            final(self).contents() == old(self).contents().skip(out@.len() as int),
            final(self).capacity() == old(self).capacity(),
    {
        proof {
            use_type_invariant(&*self);
        }
        let cap = self.buf.len();
        let k = if n < self.len {
            n
        } else {
            self.len
        };
        let mut out: Vec<i16> = Vec::new();
        let mut j: usize = 0;
        while j < k
            invariant
                j <= k,
                k <= self.len,
                self.inv(),
                cap == self.buf@.len(),
                out@ =~= self.contents().take(j as int),
            decreases k - j,
        {
            let idx = (self.head + j) % cap;
            proof {
                lemma_small_mod(j as nat, cap as nat);
                lemma_add_mod_noop(self.head + j as int, 0, cap as int);
            }
            out.push(self.buf[idx]);
            proof {
                assert(out@ =~= self.contents().take(j + 1));
            }
            j = j + 1;
        }
        let ghost pre = *self;
        let new_head = (self.head + k) % cap;
        self.head = new_head;
        self.len = self.len - k;
        proof {
            lemma_mod_bound(pre.head + k as int, cap as int);
            assert forall|i: int| 0 <= i < self.len implies self.contents()[i]
                == pre.contents().skip(k as int)[i] by {
                lemma_small_mod(i as nat, cap as nat);
                lemma_add_mod_noop(pre.head + k as int, i, cap as int);
                lemma_mod_bound(pre.head + k + i, cap as int);
                lemma_small_mod(((pre.head + k + i) % (cap as int)) as nat, cap as nat);
            }
            assert(self.contents() =~= pre.contents().skip(k as int));
        }
        out
    }

    /// The hardware callback's read: returns exactly `n` samples — the
    /// queued ones, oldest first, then silence for whatever is missing.  It
    /// never waits and never fails, so an underrun plays silence instead of
    /// blocking the real-time audio thread.
    pub fn read_or_silence(&mut self, n: usize) -> (out: Vec<i16>)
        ensures
            out@ == old(self).contents().take(
                vstd::math::min(n as int, old(self).contents().len() as int),
            ) + silence(
                n - vstd::math::min(n as int, old(self).contents().len() as int),
            ),
            final(self).contents() == old(self).contents().skip(
                vstd::math::min(n as int, old(self).contents().len() as int),
            ),
            final(self).capacity() == old(self).capacity(),
    {
        let mut out = self.read(n);
        let ghost k = out@.len() as int;
        while out.len() < n
            invariant
                k <= out@.len() <= n,
                out@ =~= out@.take(k) + silence(out@.len() - k),
                out@.take(k) == old(self).contents().take(
                    vstd::math::min(n as int, old(self).contents().len() as int),
                ),
            decreases n - out@.len(),
        {
            out.push(0);
            proof {
                assert(out@.take(k) =~= out@.drop_last().take(k));
                assert(out@ =~= out@.take(k) + silence(out@.len() - k));
            }
        }
        proof {
            assert(out@ =~= out@.take(k) + silence(n - k));
        }
        out
    }
}

/// Writing one sample at the tail slot leaves every queued sample in place
/// and appends the new one.
proof fn lemma_write_one(pre: RingBuffer, post: RingBuffer, idx: int, v: i16)
    requires
        pre.inv(),
        pre.len < pre.buf@.len(),
        idx == (pre.head + pre.len) % (pre.buf@.len() as int),
        post.buf@ == pre.buf@.update(idx, v),
        post.head == pre.head,
        post.len == pre.len + 1,
    ensures
        post.contents() =~= pre.contents().push(v),
{
    let cap = pre.buf@.len() as int;
    lemma_mod_bound(pre.head + pre.len, cap);
    assert forall|i: int| 0 <= i < pre.len implies #[trigger] ((pre.head + i) % cap) != idx by {
        lemma_ring_slots_distinct(pre.head as int, i, pre.len as int, cap);
    }
    assert forall|i: int| 0 <= i <= pre.len implies post.contents()[i] == pre.contents().push(v)[i]
        by {
        lemma_mod_bound(pre.head + i, cap);
    }
}

/// Distinct offsets below the capacity land on distinct slots.
proof fn lemma_ring_slots_distinct(head: int, i: int, j: int, cap: int)
    requires
        0 < cap,
        0 <= head < cap,
        0 <= i < j < cap,
    ensures
        (head + i) % cap != (head + j) % cap,
{
    assert((head + i) % cap == if head + i < cap {
        head + i
    } else {
        head + i - cap
    }) by (nonlinear_arith)
        requires
            0 < cap && 0 <= head < cap && 0 <= i < cap,
    ;
    assert((head + j) % cap == if head + j < cap {
        head + j
    } else {
        head + j - cap
    }) by (nonlinear_arith)
        requires
            0 < cap && 0 <= head < cap && 0 <= j < cap,
    ;
}

} // verus!
