//! The jitter buffer between the network and the audio device: a lock-free
//! single-producer single-consumer ring of samples (bit patterns of `f32`
//! values), filled by the network task and drained by the audio callback.
//!
//! The two ends run on different threads, so what the ring holds changes
//! under either end between its calls; the contracts here state what holds
//! of each call whatever the other end does.
use vstd::prelude::*;

use ringbuf::traits::{Consumer, Producer, Split};
use vstd::arithmetic::div_mod::lemma_fundamental_div_mod;
use vstd::arithmetic::mul::{
    lemma_mul_inequality, lemma_mul_is_commutative, lemma_mul_is_distributive_add_other_way,
};

verus! {

/// The producer end of the jitter buffer, held by the network task: an owned
/// handle on `ringbuf`'s heap ring, private to this module.
#[verifier::external_body]
pub struct JitterProducer {
    prod: ringbuf::HeapProd<u32>,
}

/// The consumer end of the jitter buffer, held by the audio callback: an
/// owned handle on `ringbuf`'s heap ring, private to this module.
#[verifier::external_body]
pub struct JitterConsumer {
    cons: ringbuf::HeapCons<u32>,
}

/// A ring buffer before it is split into its two ends.
#[verifier::external_body]
pub struct JitterRing {
    rb: ringbuf::HeapRb<u32>,
}

/// The samples that the ring has accepted through this producer end, oldest
/// first.
pub uninterp spec fn pushed_by(end: JitterProducer) -> Seq<u32>;

/// The samples offered to the ring through this producer end, oldest first,
/// whether the ring accepted them or not.
pub uninterp spec fn offered_by(end: JitterProducer) -> Seq<u32>;

/// What each pop through this consumer end gave, oldest first: a sample, or
/// `None` where the ring was empty.
pub uninterp spec fn popped_by(end: JitterConsumer) -> Seq<Option<u32>>;

/// The number of samples that the ring was made to hold.
pub uninterp spec fn ring_capacity(ring: JitterRing) -> nat;

/// The number of samples that the ring behind this producer end was made to
/// hold.
pub uninterp spec fn producer_capacity(end: JitterProducer) -> nat;

/// `HeapRb::new`: an empty ring buffer that holds up to `capacity` samples.
/// It panics on a capacity of zero, which `requires` leaves out.
#[verifier::external_body]
fn new_heap_ring(capacity: usize) -> (ring: JitterRing)
    requires
        capacity > 0,
    ensures
        ring_capacity(ring) == capacity,
{
    JitterRing { rb: ringbuf::HeapRb::<u32>::new(capacity) }
}

/// `Split::split`: the producer and consumer ends of a ring buffer. Neither
/// end has pushed or popped anything yet, and the producer's ring has the
/// capacity that the ring was made with.
#[verifier::external_body]
fn split_ring(ring: JitterRing) -> (ends: (JitterProducer, JitterConsumer))
    ensures
        pushed_by(ends.0) == Seq::<u32>::empty(),
        offered_by(ends.0) == Seq::<u32>::empty(),
        popped_by(ends.1) == Seq::<Option<u32>>::empty(),
        producer_capacity(ends.0) == ring_capacity(ring),
{
    let (prod, cons) = ring.rb.split();
    (JitterProducer { prod }, JitterConsumer { cons })
}

/// `Producer::try_push`: offers `sample` to the ring, which appends it at the
/// back, or, when full, hands it back unchanged in `Err`. Either way the
/// offer is recorded. Whether the ring is
/// full depends on the consumer's thread, so which of the two comes is not
/// stated.
#[verifier::external_body]
fn push_sample(end: &mut JitterProducer, sample: u32) -> (r: Result<(), u32>)
    ensures
        offered_by(*final(end)) == offered_by(*old(end)).push(sample),
        r matches Err(back) ==> back == sample,
        r is Ok ==> pushed_by(*final(end)) == pushed_by(*old(end)).push(sample),
        r is Err ==> pushed_by(*final(end)) == pushed_by(*old(end)),
        producer_capacity(*final(end)) == producer_capacity(*old(end)),
{
    end.prod.try_push(sample)
}

/// `Consumer::try_pop`: takes the oldest sample from the front of the ring,
/// or gives `None` when the ring is empty. What the ring holds depends on the
/// producer's thread, so which of the two comes is not stated.
#[verifier::external_body]
fn pop_sample(end: &mut JitterConsumer) -> (r: Option<u32>)
    ensures
        popped_by(*final(end)) == popped_by(*old(end)).push(r),
{
    end.cons.try_pop()
}

/// A new, empty jitter buffer that holds up to `capacity` samples: its
/// producer end (for the network task) and its consumer end (for the audio
/// callback).
pub fn new_jitter_buffer(capacity: usize) -> (ends: (JitterProducer, JitterConsumer))
    requires
        capacity > 0,
    ensures
        pushed_by(ends.0) == Seq::<u32>::empty(),
        offered_by(ends.0) == Seq::<u32>::empty(),
        popped_by(ends.1) == Seq::<Option<u32>>::empty(),
        producer_capacity(ends.0) == capacity,
{
    split_ring(new_heap_ring(capacity))
}

/// Capacity of the playback jitter buffer: half a second of samples at
/// `sample_rate`, that is `(0.5 * sample_rate as f64) as usize`, which for
/// every `u32` rate is exactly `sample_rate / 2`.
pub fn playback_capacity(sample_rate: u32) -> (c: usize)
    ensures
        c == sample_rate / 2,
{
    (sample_rate / 2) as usize
}

/// The samples of `s` that `accepted` marks, in order.
pub open spec fn kept(s: Seq<u32>, accepted: Seq<bool>) -> Seq<u32>
    decreases s.len(),
{
    if s.len() == 0 {
        Seq::empty()
    } else {
        let rest = kept(s.drop_last(), accepted.take(s.len() - 1));
        if accepted[s.len() - 1] {
            rest.push(s.last())
        } else {
            rest
        }
    }
}

/// Offers every sample once, in order, to the jitter buffer; a sample that
/// finds the buffer full is dropped. The ring accepts, in order, the samples
/// that some mask marks, and the number of them is returned.
pub fn feed_samples(prod: &mut JitterProducer, samples: &[u32]) -> (taken: usize)
    ensures
        exists|accepted: Seq<bool>|
            {
                &&& accepted.len() == samples@.len()
                &&& pushed_by(*final(prod)) == pushed_by(*old(prod)) + kept(samples@, accepted)
                &&& taken == kept(samples@, accepted).len()
            },
        offered_by(*final(prod)) == offered_by(*old(prod)) + samples@,
        producer_capacity(*final(prod)) == producer_capacity(*old(prod)),
{
    let mut taken: usize = 0;
    let mut i: usize = 0;
    let ghost mut accepted: Seq<bool> = Seq::empty();
    assert(samples@.take(0) =~= Seq::<u32>::empty());
    assert(pushed_by(*prod) =~= pushed_by(*old(prod)) + kept(samples@.take(0), accepted));
    while i < samples.len()
        invariant
            i <= samples@.len(),
            accepted.len() == i,
            pushed_by(*prod) == pushed_by(*old(prod)) + kept(samples@.take(i as int), accepted),
            taken == kept(samples@.take(i as int), accepted).len(),
            taken <= i,
            offered_by(*prod) == offered_by(*old(prod)) + samples@.take(i as int),
            producer_capacity(*prod) == producer_capacity(*old(prod)),
        decreases samples@.len() - i,
    {
        let r = push_sample(prod, samples[i]);
        let ok = r.is_ok();
        proof {
            let t = samples@.take(i + 1);
            let na = accepted.push(ok);
            assert(t.drop_last() =~= samples@.take(i as int));
            assert(na.take(i as int) =~= accepted);
            assert(t.last() == samples@[i as int]);
            assert(t =~= samples@.take(i as int).push(samples@[i as int]));
            accepted = na;
        }
        if ok {
            taken = taken + 1;
        }
        proof {
            assert(pushed_by(*prod) =~= pushed_by(*old(prod)) + kept(
                samples@.take(i + 1),
                accepted,
            ));
        }
        i = i + 1;
    }
    assert(samples@.take(samples@.len() as int) =~= samples@);
    taken
}

/// The bit pattern of the `f32` value 0.0: what plays when the buffer is
/// empty.
pub const SILENCE: u32 = 0;

/// The sample to play for what a pop of the buffer gave: the popped sample,
/// or silence when the buffer was empty.
pub fn sample_or_silence(popped: Option<u32>) -> (s: u32)
    ensures
        s == match popped {
            Some(x) => x,
            None => SILENCE,
        },
{
    match popped {
        Some(x) => x,
        None => SILENCE,
    }
}

/// The sample that plays for what a pop gave: the sample, or silence.
pub open spec fn sample_of(popped: Option<u32>) -> u32 {
    match popped {
        Some(x) => x,
        None => SILENCE,
    }
}

/// The next sample to play: one pop of the buffer, whose sample plays, or
/// silence when the buffer was empty. Which it is depends on the producer's
/// thread.
pub fn next_sample(cons: &mut JitterConsumer) -> (s: u32)
    ensures
        popped_by(*final(cons)).len() == popped_by(*old(cons)).len() + 1,
        popped_by(*final(cons)).drop_last() == popped_by(*old(cons)),
        s == sample_of(popped_by(*final(cons)).last()),
{
    sample_or_silence(pop_sample(cons))
}

/// Empties the buffer: pops samples until it is empty, or until `limit`
/// samples have been popped. Returns how many were popped. Every pop before
/// the last gave a sample; when fewer than `limit` came, one more pop found
/// the buffer empty and ended the loop.
pub fn drain(cons: &mut JitterConsumer, limit: usize) -> (popped: usize)
    ensures
        popped <= limit,
        popped_by(*final(cons)).len() == popped_by(*old(cons)).len() + popped + (if popped
            < limit {
            1int
        } else {
            0int
        }),
        popped_by(*final(cons)).subrange(0, popped_by(*old(cons)).len() as int) == popped_by(
            *old(cons),
        ),
        forall|j: int|
            popped_by(*old(cons)).len() <= j < popped_by(*old(cons)).len() + popped
                ==> #[trigger] popped_by(*final(cons))[j] is Some,
        popped < limit ==> popped_by(*final(cons))[popped_by(*old(cons)).len() + popped] is None,
{
    let ghost start = popped_by(*old(cons));
    let mut popped: usize = 0;
    let mut emptied = false;
    while !emptied && popped < limit
        invariant
            popped <= limit,
            emptied ==> popped < limit,
            popped_by(*cons).len() == start.len() + popped + (if emptied {
                1int
            } else {
                0int
            }),
            popped_by(*cons).subrange(0, start.len() as int) == start,
            forall|j: int|
                start.len() <= j < start.len() + popped ==> #[trigger] popped_by(*cons)[j] is Some,
            emptied ==> popped_by(*cons)[start.len() + popped] is None,
        decreases limit - popped + (if emptied {
            0int
        } else {
            1int
        }),
    {
        let ghost before = popped_by(*cons);
        let r = pop_sample(cons);
        proof {
            assert(popped_by(*cons).subrange(0, start.len() as int) =~= before.subrange(
                0,
                start.len() as int,
            ));
            assert forall|j: int| 0 <= j < before.len() implies popped_by(*cons)[j] == before[j] by {
            }
        }
        match r {
            Some(_) => popped = popped + 1,
            None => emptied = true,
        }
    }
    popped
}

/// Fills an interleaved output buffer of `out_len` slots with `channels`
/// channels: one pop of the jitter buffer per whole frame, in order, whose
/// sample (or silence, when the pop found the buffer empty) is copied to
/// every channel of the frame. The slots of a last, partial frame are not
/// written.
pub fn fill_interleaved(cons: &mut JitterConsumer, out_len: usize, channels: usize) -> (out: Vec<
    u32,
>)
    requires
        channels > 0,
    ensures
        out@.len() == (out_len / channels) * channels,
        popped_by(*final(cons)).len() == popped_by(*old(cons)).len() + out_len / channels,
        popped_by(*final(cons)).subrange(0, popped_by(*old(cons)).len() as int) == popped_by(
            *old(cons),
        ),
        forall|f: int, c: int|
            0 <= f < out_len / channels && 0 <= c < channels ==> #[trigger] out@[f * channels + c]
                == sample_of(popped_by(*final(cons))[popped_by(*old(cons)).len() + f]),
{
    let ghost start = popped_by(*old(cons));
    let frames = out_len / channels;
    proof {
        lemma_fundamental_div_mod(out_len as int, channels as int);
        lemma_mul_is_commutative(channels as int, frames as int);
    }
    let mut out: Vec<u32> = Vec::new();
    let mut f: usize = 0;
    while f < frames
        invariant
            channels > 0,
            frames == out_len / channels,
            frames * channels <= out_len,
            f <= frames,
            out@.len() == f * channels,
            popped_by(*cons).len() == start.len() + f,
            popped_by(*cons).subrange(0, start.len() as int) == start,
            forall|f2: int, c: int|
                0 <= f2 < f && 0 <= c < channels ==> #[trigger] out@[f2 * channels + c]
                    == sample_of(popped_by(*cons)[start.len() + f2]),
        decreases frames - f,
    {
        let ghost log_before = popped_by(*cons);
        let s = next_sample(cons);
        let ghost before = out@;
        proof {
            lemma_mul_is_distributive_add_other_way(channels as int, f as int, 1);
            lemma_mul_inequality(f as int + 1, frames as int, channels as int);
            assert(popped_by(*cons).subrange(0, start.len() as int) =~= log_before.subrange(
                0,
                start.len() as int,
            ));
        }
        let mut c: usize = 0;
        while c < channels
            invariant
                channels > 0,
                (f + 1) * channels <= out_len,
                (f + 1) * channels == f * channels + channels,
                c <= channels,
                out@.len() == f * channels + c,
                out@.subrange(0, f * channels) == before,
                before.len() == f * channels,
                forall|c2: int| 0 <= c2 < c ==> #[trigger] out@[f * channels + c2] == s,
            decreases channels - c,
        {
            out.push(s);
            assert(out@.subrange(0, f * channels) =~= before);
            c = c + 1;
        }
        assert forall|f2: int, c2: int|
            0 <= f2 < f + 1 && 0 <= c2 < channels implies #[trigger] out@[f2 * channels + c2]
                == sample_of(popped_by(*cons)[start.len() + f2]) by {
            if f2 < f {
                lemma_mul_inequality(f2 + 1, f as int, channels as int);
                lemma_mul_is_distributive_add_other_way(channels as int, f2, 1);
                assert(out@[f2 * channels + c2] == before[f2 * channels + c2]);
                assert(popped_by(*cons)[start.len() + f2] == log_before[start.len() + f2]);
            } else {
                assert(out@[f * channels + c2] == s);
            }
        }
        f = f + 1;
    }
    out
}

} // verus!
