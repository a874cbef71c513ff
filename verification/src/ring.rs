//! The sample buffer between the decode loop and the device callback: a
//! fixed-capacity ring buffer, split into a producing half and a consuming
//! half that may live on different threads.
//!
//! A sample is held as the 32 bits of its value. Each half knows a part of
//! the buffer that only its own calls change: the producer the samples it
//! has queued and has not yet seen taken, the consumer the samples it has
//! seen arrive and has not yet taken.

use ringbuf::traits::{Consumer, Observer, Producer, Split};
use ringbuf::{HeapCons, HeapProd, HeapRb};
use vstd::arithmetic::div_mod::{lemma_mod_add_multiples_vanish, lemma_small_mod};
use vstd::prelude::*;

verus! {

/// The sample that stands for silence.
pub const SILENCE: u32 = 0;

/// A ring buffer of samples that has not been split yet: a
/// `ringbuf::HeapRb<u32>`.
#[verifier::external_body]
pub struct SampleRing {
    inner: HeapRb<u32>,
}

/// The producing half of a sample buffer: a `ringbuf::HeapProd<u32>`.
#[verifier::external_body]
pub struct SampleProducer {
    inner: HeapProd<u32>,
}

/// The consuming half of a sample buffer: a `ringbuf::HeapCons<u32>`.
#[verifier::external_body]
pub struct SampleConsumer {
    inner: HeapCons<u32>,
}

/// The number of samples that an unsplit buffer can hold.
pub uninterp spec fn ring_slots(ring: SampleRing) -> nat;

/// The samples in an unsplit buffer, oldest first.
pub uninterp spec fn ring_held(ring: SampleRing) -> Seq<u32>;

/// The number of samples that the producer's buffer can hold.
pub uninterp spec fn producer_slots(producer: SampleProducer) -> nat;

/// The samples that the producer has queued and has not yet seen taken,
/// oldest first.
pub uninterp spec fn producer_queued(producer: SampleProducer) -> Seq<u32>;

/// The samples that the consumer has seen arrive and has not yet taken,
/// oldest first.
pub uninterp spec fn consumer_ready(consumer: SampleConsumer) -> Seq<u32>;

/// What is left of `held` once its `taken` oldest samples are gone.
pub open spec fn after_take(held: Seq<u32>, taken: nat) -> Seq<u32> {
    if taken <= held.len() {
        held.skip(taken as int)
    } else {
        Seq::empty()
    }
}

/// Whether a buffer of `slots` samples that holds `held` has room for all of
/// `block`.
pub open spec fn has_room(slots: nat, held: Seq<u32>, block: Seq<u32>) -> bool {
    held.len() + block.len() <= slots
}

/// What a buffer of `slots` samples holds after `block` was offered to it as
/// a whole: all of the block behind what it held, or what it held.
pub open spec fn after_offer(slots: nat, held: Seq<u32>, block: Seq<u32>) -> Seq<u32> {
    if has_room(slots, held, block) {
        held + block
    } else {
        held
    }
}

/// Whether `after` is what the producer of a buffer of `slots` samples knows
/// to be queued once it has offered `block` as a whole, where it knew of
/// `before` until then: the consumer has meanwhile taken some of `before`,
/// oldest first, and the block went in behind the rest if there was room for
/// all of it. `queued` says whether it went in.
pub open spec fn is_offer(
    slots: nat,
    before: Seq<u32>,
    block: Seq<u32>,
    after: Seq<u32>,
    queued: bool,
) -> bool {
    exists|taken: nat|
        taken <= before.len() && queued == has_room(
            slots,
            #[trigger] after_take(before, taken),
            block,
        ) && after == after_offer(slots, after_take(before, taken), block)
}

/// How many of `offered` samples a buffer of `slots` samples that holds
/// `held` samples accepts.
pub open spec fn accepted(slots: nat, held: nat, offered: nat) -> nat {
    if held + offered <= slots {
        offered
    } else if held <= slots {
        (slots - held) as nat
    } else {
        0
    }
}

/// One event in the life of a sample buffer.
pub enum BufferEvent {
    /// The producer offers a block as a whole.
    Offer(Seq<u32>),
    /// The consumer takes this many of the oldest samples, or all there are.
    Take(nat),
}

/// A sample buffer seen as a whole.
pub struct BufferState {
    /// The samples in the buffer, oldest first.
    pub held: Seq<u32>,
    /// How many samples the consumer has taken since the buffer was made.
    pub taken: nat,
}

impl BufferState {
    /// How many samples have become visible to the consumer since the buffer
    /// was made: those it has taken and those it can still take.
    pub open spec fn observed(self) -> nat {
        self.taken + self.held.len()
    }
}

/// The state of a buffer of `slots` samples that started out empty, after
/// `events` in order.
pub open spec fn buffer_after(slots: nat, events: Seq<BufferEvent>) -> BufferState
    decreases events.len(),
{
    if events.len() == 0 {
        BufferState { held: Seq::empty(), taken: 0 }
    } else {
        let before = buffer_after(slots, events.drop_last());
        match events.last() {
            BufferEvent::Offer(block) => BufferState {
                held: after_offer(slots, before.held, block),
                taken: before.taken,
            },
            BufferEvent::Take(count) => BufferState {
                held: after_take(before.held, count),
                taken: before.taken + if count <= before.held.len() {
                    count
                } else {
                    before.held.len()
                },
            },
        }
    }
}

/// A buffer never holds more samples than it has slots, and where every
/// block offered to it has `block_len` samples, the number of samples that
/// the consumer has observed is a whole multiple of `block_len`, whatever
/// the consumer takes and whenever it does.
pub proof fn lemma_consumer_observes_whole_blocks(
    slots: nat,
    block_len: nat,
    events: Seq<BufferEvent>,
)
    requires
        1 <= block_len <= slots,
        forall|i: int|
            0 <= i < events.len() ==> (#[trigger] events[i] matches BufferEvent::Offer(block)
                ==> block.len() == block_len),
    ensures
        buffer_after(slots, events).held.len() <= slots,
        buffer_after(slots, events).observed() % block_len == 0,
    decreases events.len(),
{
    if events.len() == 0 {
        lemma_small_mod(0, block_len);
    } else {
        let earlier = events.drop_last();
        assert forall|i: int| 0 <= i < earlier.len() implies (#[trigger] earlier[i] matches BufferEvent::Offer(
            block,
        ) ==> block.len() == block_len) by {
            assert(earlier[i] == events[i]);
        }
        lemma_consumer_observes_whole_blocks(slots, block_len, earlier);
        let before = buffer_after(slots, earlier);
        match events.last() {
            BufferEvent::Offer(block) => {
                if has_room(slots, before.held, block) {
                    lemma_mod_add_multiples_vanish(before.observed() as int, block_len as int);
                }
            },
            BufferEvent::Take(count) => {},
        }
    }
}

/// What a producer does to its buffer when it offers a block is a run of the
/// buffer seen as a whole: the consumer takes some of the oldest samples,
/// and the block is offered. So the law of whole blocks holds of every
/// buffer that is fed by offers.
pub proof fn lemma_offer_refines_model(
    slots: nat,
    events: Seq<BufferEvent>,
    block: Seq<u32>,
    after: Seq<u32>,
    queued: bool,
)
    requires
        is_offer(slots, buffer_after(slots, events).held, block, after, queued),
    ensures
        exists|taken: nat|
            after == #[trigger] buffer_after(
                slots,
                events.push(BufferEvent::Take(taken)).push(BufferEvent::Offer(block)),
            ).held,
{
    let before = buffer_after(slots, events).held;
    let taken = choose|taken: nat|
        taken <= before.len() && queued == has_room(
            slots,
            #[trigger] after_take(before, taken),
            block,
        ) && after == after_offer(slots, after_take(before, taken), block);
    let took = events.push(BufferEvent::Take(taken));
    let offered = took.push(BufferEvent::Offer(block));
    assert(took.drop_last() == events);
    assert(offered.drop_last() == took);
    assert(buffer_after(slots, took).held == after_take(before, taken));
    assert(buffer_after(slots, offered).held == after);
}

/// `HeapRb::<u32>::new`: an empty ring buffer of `capacity` samples. The
/// call panics for a capacity of zero and for one whose storage would exceed
/// `isize::MAX` bytes.
#[verifier::external_body]
fn heap_rb_new(capacity: usize) -> (ring: SampleRing)
    requires
        0 < capacity,
        capacity * 4 <= isize::MAX,
    ensures
        ring_slots(ring) == capacity,
        ring_held(ring) == Seq::<u32>::empty(),
{
    SampleRing { inner: HeapRb::<u32>::new(capacity) }
}

/// `Split::split` on a `HeapRb<u32>`: the two halves of the buffer. Each
/// starts out knowing all that the buffer holds.
#[verifier::external_body]
fn heap_rb_split(ring: SampleRing) -> (halves: (SampleProducer, SampleConsumer))
    ensures
        producer_slots(halves.0) == ring_slots(ring),
        producer_queued(halves.0) == ring_held(ring),
        consumer_ready(halves.1) == ring_held(ring),
{
    let (producer, consumer) = ring.inner.split();
    (SampleProducer { inner: producer }, SampleConsumer { inner: consumer })
}

/// `Observer::vacant_len` on the producing half. The call first learns how
/// many of the queued samples the consumer has taken meanwhile, oldest
/// first, and then returns the number of free slots.
#[verifier::external_body]
fn producer_vacant_len(producer: &mut SampleProducer) -> (vacant: usize)
    ensures
        producer_slots(*final(producer)) == producer_slots(*old(producer)),
        exists|taken: nat|
            taken <= producer_queued(*old(producer)).len() && producer_queued(*final(producer))
                == #[trigger] after_take(producer_queued(*old(producer)), taken),
        producer_queued(*final(producer)).len() + vacant == producer_slots(*old(producer)),
{
    producer.inner.vacant_len()
}

/// `Producer::push_slice` on the producing half. The call first learns how
/// many of the queued samples the consumer has taken meanwhile, then queues
/// as many of the first samples of `samples` as there are free slots, and
/// returns their number.
#[verifier::external_body]
fn producer_push_slice(producer: &mut SampleProducer, samples: &[u32]) -> (pushed: usize)
    ensures
        producer_slots(*final(producer)) == producer_slots(*old(producer)),
        exists|taken: nat|
            taken <= producer_queued(*old(producer)).len() && pushed == accepted(
                producer_slots(*old(producer)),
                (#[trigger] after_take(producer_queued(*old(producer)), taken)).len(),
                samples@.len(),
            ) && producer_queued(*final(producer)) == after_take(
                producer_queued(*old(producer)),
                taken,
            ) + samples@.take(pushed as int),
{
    producer.inner.push_slice(samples)
}

/// `Consumer::try_pop` on the consuming half. While the consumer knows of a
/// sample, the call takes the oldest. Otherwise it first looks for samples
/// that have arrived meanwhile, and returns `None` only if there are none.
#[verifier::external_body]
fn consumer_try_pop(consumer: &mut SampleConsumer) -> (sample: Option<u32>)
    ensures
        consumer_ready(*old(consumer)).len() > 0 ==> sample == Some(
            consumer_ready(*old(consumer))[0],
        ) && consumer_ready(*final(consumer)) == consumer_ready(*old(consumer)).skip(1),
        sample is None ==> consumer_ready(*old(consumer)).len() == 0 && consumer_ready(
            *final(consumer),
        ).len() == 0,
{
    consumer.inner.try_pop()
}

/// Whether a sample buffer of `capacity` samples can be made.
pub open spec fn valid_capacity(capacity: usize) -> bool {
    0 < capacity && capacity * 4 <= isize::MAX
}

/// A new, empty sample buffer of `capacity` samples, as its two halves.
/// `None` if the capacity is zero or its storage would exceed `isize::MAX`
/// bytes.
pub fn sample_buffer(capacity: usize) -> (halves: Option<(SampleProducer, SampleConsumer)>)
    ensures
        halves is Some <==> valid_capacity(capacity),
        halves matches Some((producer, consumer)) ==> {
            &&& producer_slots(producer) == capacity
            &&& producer_queued(producer) == Seq::<u32>::empty()
            &&& consumer_ready(consumer) == Seq::<u32>::empty()
        },
{
    if capacity == 0 || capacity > (isize::MAX as usize) / 4 {
        None
    } else {
        Some(heap_rb_split(heap_rb_new(capacity)))
    }
}

impl SampleProducer {
    /// The number of samples that the buffer can hold.
    pub open spec fn slots(&self) -> nat {
        producer_slots(*self)
    }

    /// The samples queued and not yet seen taken, oldest first.
    pub open spec fn queued(&self) -> Seq<u32> {
        producer_queued(*self)
    }

    /// Offers `block` to the buffer as a whole. The block is queued if, once
    /// the samples that the consumer has taken meanwhile are accounted for,
    /// there is room for all of it; otherwise nothing is queued. Returns
    /// whether the block was queued.
    pub fn push_block(&mut self, block: &[u32]) -> (pushed: bool)
        ensures
            final(self).slots() == old(self).slots(),
            is_offer(old(self).slots(), old(self).queued(), block@, final(self).queued(), pushed),
            has_room(old(self).slots(), old(self).queued(), block@) ==> pushed,
    {
        let ghost before = self.queued();
        let ghost slots = self.slots();
        let vacant = producer_vacant_len(self);
        let ghost seen = self.queued();
        let ghost taken_first = choose|taken: nat|
            taken <= before.len() && seen == #[trigger] after_take(before, taken);
        if block.len() <= vacant {
            let count = producer_push_slice(self, block);
            proof {
                let taken_then = choose|taken: nat|
                    taken <= seen.len() && count == accepted(
                        slots,
                        (#[trigger] after_take(seen, taken)).len(),
                        block@.len(),
                    ) && self.queued() == after_take(seen, taken) + block@.take(count as int);
                let taken = taken_first + taken_then;
                assert(after_take(seen, taken_then) == after_take(before, taken));
                assert(block@.take(count as int) == block@);
                assert(self.queued() == after_offer(slots, after_take(before, taken), block@));
            }
            true
        } else {
            proof {
                assert(self.queued() == after_offer(slots, after_take(before, taken_first), block@));
            }
            false
        }
    }
}

impl SampleConsumer {
    /// The samples seen to have arrived and not yet taken, oldest first.
    pub open spec fn ready(&self) -> Seq<u32> {
        consumer_ready(*self)
    }
}

/// Whether `data` is `taken` with silence let in: the samples of `taken` in
/// their order, and silence in every other place.
pub open spec fn is_filled_from(data: Seq<u32>, taken: Seq<u32>) -> bool
    decreases data.len(),
{
    if data.len() == 0 {
        taken.len() == 0
    } else {
        ||| taken.len() > 0 && data.last() == taken.last() && is_filled_from(
            data.drop_last(),
            taken.drop_last(),
        )
        ||| data.last() == SILENCE && is_filled_from(data.drop_last(), taken)
    }
}

/// Fills `data` from the buffer, one sample per slot, and writes silence to
/// each slot for which the buffer has no sample. Returns the number of
/// samples taken from the buffer.
///
/// The samples that the consumer knew of go to the first slots, in their
/// order. If they fill `data`, they are all that is taken. If they do not,
/// more samples are taken only if they arrive during the call; where none
/// does, the rest of `data` is silence.
pub fn write_audio(data: &mut [u32], samples: &mut SampleConsumer) -> (copied: usize)
    ensures
        final(data)@.len() == old(data)@.len(),
        forall|i: int|
            0 <= i < old(data)@.len() && i < old(samples).ready().len() ==> final(data)@[i] == old(
                samples,
            ).ready()[i],
        old(data)@.len() <= old(samples).ready().len() ==> copied == old(data)@.len()
            && final(samples).ready() == old(samples).ready().skip(old(data)@.len() as int),
        old(data)@.len() > old(samples).ready().len() ==> copied >= old(samples).ready().len(),
        exists|taken: Seq<u32>|
            {
                &&& taken.len() == copied
                &&& #[trigger] is_filled_from(final(data)@, taken)
                &&& forall|i: int|
                    0 <= i < copied && i < old(samples).ready().len() ==> taken[i] == old(
                        samples,
                    ).ready()[i]
            },
        copied == old(samples).ready().len() && copied < old(data)@.len() ==> {
            &&& final(samples).ready().len() == 0
            &&& forall|i: int| copied <= i < old(data)@.len() ==> final(data)@[i] == SILENCE
        },
{
    let ghost known = samples.ready();
    let ghost taken = Seq::<u32>::empty();
    let len = data.len();
    let mut copied: usize = 0;
    let mut i: usize = 0;
    while i < len
        invariant
            len == old(data)@.len(),
            data@.len() == len,
            i <= len,
            copied <= i,
            known == old(samples).ready(),
            forall|j: int| 0 <= j < i && j < known.len() ==> data@[j] == known[j],
            i <= known.len() ==> copied == i && samples.ready() == known.skip(i as int),
            i > known.len() ==> copied >= known.len(),
            i > known.len() && copied == known.len() ==> {
                &&& samples.ready().len() == 0
                &&& forall|j: int| copied <= j < i ==> data@[j] == SILENCE
            },
            taken.len() == copied,
            is_filled_from(data@.take(i as int), taken),
            forall|j: int| 0 <= j < copied && j < known.len() ==> taken[j] == known[j],
        decreases len - i,
    {
        let ghost filled = data@.take(i as int);
        let ghost before = taken;
        match consumer_try_pop(samples) {
            Some(sample) => {
                data[i] = sample;
                copied = copied + 1;
                proof {
                    taken = before.push(sample);
                    assert(taken.drop_last() =~= before);
                }
            },
            None => {
                data[i] = SILENCE;
            },
        }
        proof {
            let grown = data@.take(i + 1);
            assert(grown.drop_last() =~= filled);
        }
        i = i + 1;
    }
    proof {
        assert(data@.take(len as int) == data@);
    }
    copied
}

} // verus!
