//! The sample queue between the producer of a live playback and the audio
//! callback that drains it.
//!
//! [`RingBridge`] is the queue while one owner holds both of its ends: every
//! operation on it is stated exactly over the sequence of queued samples.
//! [`RingBridge::split`] hands the two ends out, one for each thread. What an
//! end promises holds whatever the other end does in the meantime.
//!
//! The writing end cannot know how far the reading end has come, but it
//! knows which way it goes: the consumer only frees room. So the room that
//! the producer has once seen stays good until it writes, and a write takes
//! at least as much of its block as that room holds. The producer asks for
//! the room, renders that much and writes it: nothing that was rendered is
//! left out of the bridge.
//!
//! The reading end stands likewise: the producer only adds samples, behind
//! those that wait. So the samples that the consumer can count on are the
//! first that it is served, in their order, and more may follow them.

use direct_ring_buffer::{Consumer, Producer};
use vstd::prelude::*;

verus! {

/// The handle of direct_ring_buffer that writes into a buffer. There is one
/// for each buffer, and it cannot be copied.
#[verifier::external_type_specification]
#[verifier::external_body]
#[verifier::reject_recursive_types(T)]
pub struct ExProducer<T>(Producer<T>);

/// The handle of direct_ring_buffer that reads from a buffer. There is one
/// for each buffer, and it cannot be copied.
#[verifier::external_type_specification]
#[verifier::external_body]
#[verifier::reject_recursive_types(T)]
pub struct ExConsumer<T>(Consumer<T>);

/// The samples that a consumer handle can count on: those that waited in the
/// buffer, oldest first, when the handle last looked, less what it has taken
/// since. Only the producer adds samples, and it adds them behind these.
pub uninterp spec fn queued(consumer: Consumer<i16>) -> Seq<i16>;

/// All the samples that were ever written through a producer handle, in the
/// order in which they were written.
pub uninterp spec fn handed_over(producer: Producer<i16>) -> Seq<i16>;

/// The number of samples that the buffer behind a producer handle was made for.
pub uninterp spec fn capacity_of(producer: Producer<i16>) -> nat;

/// The amplitude of silence.
pub const SILENCE: i16 = 0;

/// The smaller of two lengths.
pub open spec fn min_len(a: int, b: int) -> int {
    if a <= b {
        a
    } else {
        b
    }
}

/// A block of `len` samples of silence.
pub open spec fn silence(len: nat) -> Seq<i16> {
    Seq::new(len, |i: int| SILENCE)
}

/// The queue after a write of `block` to a bridge for `capacity` samples: the
/// start of the block, as far as there was room, stands behind what was
/// queued.
pub open spec fn after_write(queue: Seq<i16>, capacity: nat, block: Seq<i16>) -> Seq<i16> {
    queue + block.take(min_len(block.len() as int, capacity - queue.len()))
}

/// The queue after a read of up to `max_len` samples: the oldest have left.
pub open spec fn after_read(queue: Seq<i16>, max_len: nat) -> Seq<i16> {
    queue.skip(min_len(max_len as int, queue.len() as int))
}

/// A call on a bridge.
pub enum BridgeCall {
    /// A write of this block.
    Write(Seq<i16>),
    /// A read of up to this many samples.
    Read(nat),
}

/// The queue after one call.
pub open spec fn after_call(queue: Seq<i16>, capacity: nat, call: BridgeCall) -> Seq<i16> {
    match call {
        BridgeCall::Write(block) => after_write(queue, capacity, block),
        BridgeCall::Read(max_len) => after_read(queue, max_len),
    }
}

/// The queue after a run of calls, the first of them first.
pub open spec fn after_calls(queue: Seq<i16>, capacity: nat, calls: Seq<BridgeCall>) -> Seq<i16>
    decreases calls.len(),
{
    if calls.len() == 0 {
        queue
    } else {
        after_calls(after_call(queue, capacity, calls[0]), capacity, calls.skip(1))
    }
}

/// Whatever is written to and read from a bridge, in whatever order, it never
/// holds more than it was made for.
pub proof fn lemma_capacity_invariant(queue: Seq<i16>, capacity: nat, calls: Seq<BridgeCall>)
    requires
        queue.len() <= capacity,
    ensures
        0 <= after_calls(queue, capacity, calls).len() <= capacity,
    decreases calls.len(),
{
    if calls.len() > 0 {
        lemma_capacity_invariant(after_call(queue, capacity, calls[0]), capacity, calls.skip(1));
    }
}

/// A write to a full bridge and a read from an empty one change nothing.
pub proof fn lemma_full_and_empty(queue: Seq<i16>, capacity: nat, block: Seq<i16>, max_len: nat)
    ensures
        queue.len() == capacity ==> after_write(queue, capacity, block) == queue,
        queue.len() == 0 ==> after_read(queue, max_len) == queue,
{
    if queue.len() == capacity {
        assert(after_write(queue, capacity, block) =~= queue);
    }
    if queue.len() == 0 {
        assert(after_read(queue, max_len) =~= queue);
    }
}

/// Samples leave a bridge in the order in which they were written: what is
/// read after a write into an empty bridge is the start of what was written.
pub proof fn lemma_first_in_first_out(capacity: nat, block: Seq<i16>, max_len: nat)
    ensures
        ({
            let queue = after_write(Seq::empty(), capacity, block);
            let served = min_len(max_len as int, queue.len() as int);
            &&& queue.take(served) == block.take(served)
            &&& after_read(queue, max_len) == block.subrange(served, queue.len() as int)
        }),
{
    let queue = after_write(Seq::empty(), capacity, block);
    let served = min_len(max_len as int, queue.len() as int);
    assert(queue =~= block.take(queue.len() as int));
    assert(queue.take(served) =~= block.take(served));
    assert(after_read(queue, max_len) =~= block.subrange(served, queue.len() as int));
}

/// A fixed-capacity queue of samples with both of its ends in one hand.
pub struct RingBridge {
    producer: Producer<i16>,
    consumer: Consumer<i16>,
    size: usize,
}

/// The writing end of a bridge. It belongs to the thread that produces the
/// samples. Its calls return at once; what they promise rests on what the end
/// itself has seen of the bridge, since the reading end moves on by itself in
/// its own thread.
pub struct BridgeProducer {
    producer: Producer<i16>,
    size: usize,
}

/// The reading end of a bridge. It belongs to the thread of the audio
/// device, which must neither wait nor fail: its one call fills the device's
/// block with what the bridge holds at that moment and with silence behind
/// it.
pub struct BridgeConsumer {
    consumer: Consumer<i16>,
}

impl View for RingBridge {
    type V = Seq<i16>;

    /// The queued samples, oldest first.
    closed spec fn view(&self) -> Seq<i16> {
        queued(self.consumer)
    }
}

impl RingBridge {
    /// The number of samples that the bridge was made for.
    pub closed spec fn capacity(&self) -> nat {
        capacity_of(self.producer)
    }

    /// The bridge never holds more than it was made for.
    pub closed spec fn wf(&self) -> bool {
        &&& self@.len() <= self.capacity()
        &&& self.size == self.capacity()
        &&& assured_room(self.producer) == self.capacity() - self@.len()
    }

    /// A bridge that `wf` accepts holds at most `capacity()` samples.
    pub proof fn lemma_occupancy_bounded(&self)
        requires
            self.wf(),
        ensures
            0 <= self@.len() <= self.capacity(),
            0 <= self.room() <= self.capacity(),
            self.capacity() <= usize::MAX,
    {
    }

    /// The room that is left behind the queued samples.
    pub open spec fn room(&self) -> int {
        self.capacity() - self@.len()
    }
}

/// `direct_ring_buffer::create_ring_buffer`: the two ends of a new buffer for
/// `size` samples, which holds nothing yet.
#[verifier::external_body]
fn ring_create(size: usize) -> (ends: (Producer<i16>, Consumer<i16>))
    requires
        2 * size <= isize::MAX,
    ensures
        capacity_of(ends.0) == size,
        assured_room(ends.0) == size,
        queued(ends.1) == Seq::<i16>::empty(),
{
    direct_ring_buffer::create_ring_buffer::<i16>(size)
}

/// `Producer::write_element` on a bridge whose two ends are held together:
/// the sample is stored behind the queued ones unless the buffer is full, and
/// the result says whether it was.
#[verifier::external_body]
fn ring_push(bridge: &mut RingBridge, value: i16) -> (stored: bool)
    requires
        old(bridge).wf(),
    ensures
        stored == (old(bridge)@.len() < old(bridge).capacity()),
        final(bridge).capacity() == old(bridge).capacity(),
        final(bridge).size == old(bridge).size,
        final(bridge)@ == if stored {
            old(bridge)@.push(value)
        } else {
            old(bridge)@
        },
        assured_room(final(bridge).producer) == final(bridge).capacity() - final(bridge)@.len(),
{
    bridge.producer.write_element(value)
}

/// `Consumer::read_element` on a bridge whose two ends are held together: the
/// oldest queued sample leaves the buffer and is returned, or `None` where
/// nothing is queued.
#[verifier::external_body]
fn ring_pop(bridge: &mut RingBridge) -> (front: Option<i16>)
    requires
        old(bridge).wf(),
    ensures
        final(bridge).capacity() == old(bridge).capacity(),
        final(bridge).size == old(bridge).size,
        old(bridge)@.len() == 0 ==> front.is_none() && final(bridge)@ == old(bridge)@,
        old(bridge)@.len() > 0 ==> front == Some(old(bridge)@[0]) && final(bridge)@ == old(
            bridge,
        )@.skip(1),
        assured_room(final(bridge).producer) == final(bridge).capacity() - final(bridge)@.len(),
{
    bridge.consumer.read_element()
}

/// `Consumer::read_slices` with a limit of `out.len()`: the buffer hands out
/// its filled stretches, oldest first, and `store_block` copies each into
/// `out`, from the start. The number of samples handed out is the result:
/// all that `out` has room for, or all that waited, which is at least what
/// the handle could count on. Those it counted on come first, in their order.
/// `out` keeps its length and, behind that number, its content.
#[verifier::external_body]
fn ring_read_block(consumer: &mut Consumer<i16>, out: &mut [i16]) -> (read: usize)
    ensures
        min_len(old(out)@.len() as int, queued(*old(consumer)).len() as int) <= read,
        read <= old(out)@.len(),
        final(out)@.len() == old(out)@.len(),
        forall|i: int|
            0 <= i < read && i < queued(*old(consumer)).len() ==> final(out)@[i] == queued(
                *old(consumer),
            )[i],
        forall|i: int| read <= i < old(out)@.len() ==> final(out)@[i] == old(out)@[i],
        queued(*final(consumer)) == queued(*old(consumer)).skip(
            min_len(read as int, queued(*old(consumer)).len() as int),
        ),
{
    let limit: usize = out.len();
    consumer.read_slices(|filled, offset| store_block(out, filled, offset), Some(limit))
}

/// Fills `free` with the samples of `block` from `offset` on and returns how
/// many it copied.
pub fn copy_block(free: &mut [i16], block: &[i16], offset: usize) -> (copied: usize)
    requires
        offset + old(free)@.len() <= block@.len(),
    ensures
        copied == old(free)@.len(),
        final(free)@ == block@.subrange(offset as int, offset + copied),
{
    let len: usize = free.len();
    let mut i: usize = 0;
    while i < len
        invariant
            i <= len,
            len == free@.len(),
            offset + len <= block.len(),
            forall|j: int| 0 <= j < i ==> free@[j] == block@[offset + j],
        decreases len - i,
    {
        free[i] = block[offset + i];
        i += 1;
    }
    assert(free@ =~= block@.subrange(offset as int, offset + len));
    len
}

/// Copies `filled` into `out` from `offset` on and returns how many samples it
/// copied. The rest of `out` stays as it was.
pub fn store_block(out: &mut [i16], filled: &[i16], offset: usize) -> (copied: usize)
    requires
        offset + filled@.len() <= old(out)@.len(),
    ensures
        copied == filled@.len(),
        final(out)@.len() == old(out)@.len(),
        forall|i: int|
            0 <= i < old(out)@.len() ==> final(out)@[i] == if offset <= i < offset + copied {
                filled@[i - offset]
            } else {
                old(out)@[i]
            },
{
    let len: usize = filled.len();
    let mut i: usize = 0;
    while i < len
        invariant
            i <= len,
            len == filled@.len(),
            out@.len() == old(out)@.len(),
            offset + len <= out.len(),
            forall|j: int|
                0 <= j < out@.len() ==> out@[j] == if offset <= j < offset + i {
                    filled@[j - offset]
                } else {
                    old(out)@[j]
                },
        decreases len - i,
    {
        out[offset + i] = filled[i];
        i += 1;
    }
    len
}

/// Overwrites `out` from `from` on with silence.
pub fn pad_silence(out: &mut [i16], from: usize)
    requires
        from <= old(out)@.len(),
    ensures
        final(out)@ =~= old(out)@.take(from as int) + silence((old(out)@.len() - from) as nat),
{
    let len: usize = out.len();
    let mut i: usize = from;
    while i < len
        invariant
            from <= i <= len,
            len == out@.len(),
            len == old(out)@.len(),
            forall|j: int| 0 <= j < from ==> out@[j] == old(out)@[j],
            forall|j: int| from <= j < i ==> out@[j] == SILENCE,
        decreases len - i,
    {
        out[i] = SILENCE;
        i += 1;
    }
}

/// `Consumer::available` on a bridge whose two ends are held together: the
/// number of queued samples.
#[verifier::external_body]
fn ring_level(bridge: &RingBridge) -> (level: usize)
    requires
        bridge.wf(),
    ensures
        level == bridge@.len(),
{
    bridge.consumer.available()
}

impl RingBridge {
    /// An empty bridge for `capacity` samples.
    pub fn new(capacity: usize) -> (bridge: RingBridge)
        requires
            2 * capacity <= isize::MAX,
        ensures
            bridge.wf(),
            bridge@ == Seq::<i16>::empty(),
            bridge.capacity() == capacity,
    {
        let (producer, consumer) = ring_create(capacity);
        RingBridge { producer, consumer, size: capacity }
    }

    /// The number of samples that the bridge was made for.
    pub fn size(&self) -> (size: usize)
        requires
            self.wf(),
        ensures
            size == self.capacity(),
    {
        self.size
    }

    /// The number of samples that wait in the bridge.
    pub fn occupied(&self) -> (level: usize)
        requires
            self.wf(),
        ensures
            level == self@.len(),
            level <= self.capacity(),
    {
        ring_level(self)
    }

    /// Queues as many samples from the start of `block` as there is room for,
    /// and returns how many that were. A full bridge takes none.
    pub fn write(&mut self, block: &[i16]) -> (written: usize)
        requires
            old(self).wf(),
        ensures
            final(self).wf(),
            final(self).capacity() == old(self).capacity(),
            written == min_len(block@.len() as int, old(self).room()),
            final(self)@ == old(self)@ + block@.take(written as int),
            final(self)@ == after_write(old(self)@, old(self).capacity(), block@),
            old(self).room() == 0 ==> written == 0 && final(self)@ == old(self)@,
    {
        let len: usize = block.len();
        let mut written: usize = 0;
        let mut more: bool = true;
        while more && written < len
            invariant
                self.wf(),
                self.capacity() == old(self).capacity(),
                len == block@.len(),
                written <= len,
                self@ == old(self)@ + block@.take(written as int),
                !more ==> self@.len() == self.capacity(),
            decreases (len - written) + (if more { 1int } else { 0int }),
        {
            more = ring_push(self, block[written]);
            if more {
                written += 1;
                assert(block@.take(written as int) =~= block@.take(written - 1).push(
                    block@[written - 1],
                ));
                assert(self@ =~= old(self)@ + block@.take(written as int));
            }
        }
        written
    }

    /// Takes up to `max_len` of the oldest samples out of the bridge and
    /// returns them, oldest first. An empty bridge gives an empty block.
    pub fn read(&mut self, max_len: usize) -> (samples: Vec<i16>)
        requires
            old(self).wf(),
        ensures
            final(self).wf(),
            final(self).capacity() == old(self).capacity(),
            samples@.len() == min_len(max_len as int, old(self)@.len() as int),
            samples@ == old(self)@.take(samples@.len() as int),
            final(self)@ == old(self)@.skip(samples@.len() as int),
            final(self)@ == after_read(old(self)@, max_len as nat),
            old(self)@.len() == 0 ==> samples@.len() == 0 && final(self)@ == old(self)@,
    {
        let mut samples: Vec<i16> = Vec::new();
        let mut more: bool = true;
        while more && samples.len() < max_len
            invariant
                self.wf(),
                self.capacity() == old(self).capacity(),
                samples@.len() <= max_len,
                samples@.len() <= old(self)@.len(),
                samples@ == old(self)@.take(samples@.len() as int),
                self@ == old(self)@.skip(samples@.len() as int),
                !more ==> self@.len() == 0,
            decreases (max_len - samples@.len()) + (if more { 1int } else { 0int }),
        {
            match ring_pop(self) {
                Some(sample) => {
                    samples.push(sample);
                    assert(samples@ =~= old(self)@.take(samples@.len() as int));
                    assert(self@ =~= old(self)@.skip(samples@.len() as int));
                },
                None => {
                    more = false;
                },
            }
        }
        samples
    }

    /// Fills `out` from the bridge for the audio device: the oldest queued
    /// samples come first, in the order in which they were written, and where
    /// the bridge runs out the rest of `out` is silence. Returns the number
    /// of samples that came from the bridge.
    pub fn fill_output(&mut self, out: &mut [i16]) -> (served: usize)
        requires
            old(self).wf(),
        ensures
            final(self).wf(),
            final(self).capacity() == old(self).capacity(),
            served == min_len(old(out)@.len() as int, old(self)@.len() as int),
            final(out)@ == old(self)@.take(served as int) + silence(
                (old(out)@.len() - served) as nat,
            ),
            final(self)@ == old(self)@.skip(served as int),
            final(self)@ == after_read(old(self)@, old(out)@.len()),
            forall|i: int| 0 <= i < served ==> final(out)@[i] == old(self)@[i],
            forall|i: int| served <= i < old(out)@.len() ==> final(out)@[i] == SILENCE,
    {
        let len: usize = out.len();
        let mut served: usize = 0;
        let mut more: bool = true;
        while more && served < len
            invariant
                self.wf(),
                self.capacity() == old(self).capacity(),
                len == out@.len(),
                len == old(out)@.len(),
                served <= len,
                served <= old(self)@.len(),
                out@.take(served as int) == old(self)@.take(served as int),
                self@ == old(self)@.skip(served as int),
                !more ==> self@.len() == 0,
            decreases (len - served) + (if more { 1int } else { 0int }),
        {
            let ghost filled = out@;
            match ring_pop(self) {
                Some(sample) => {
                    out[served] = sample;
                    served += 1;
                    assert(out@.take(served as int) =~= filled.take(served - 1).push(sample));
                    assert(out@.take(served as int) =~= old(self)@.take(served as int));
                    assert(self@ =~= old(self)@.skip(served as int));
                },
                None => {
                    more = false;
                },
            }
        }
        pad_silence(out, served);
        served
    }

    /// Parts the bridge into its two ends, one for the thread that produces
    /// and one for the thread that consumes.
    pub fn split(self) -> (ends: (BridgeProducer, BridgeConsumer))
        requires
            self.wf(),
        ensures
            ends.0.wf(),
            ends.0.capacity() == self.capacity(),
            ends.0.assured() == self.room(),
            ends.1.waiting() == self@,
    {
        (
            BridgeProducer { producer: self.producer, size: self.size },
            BridgeConsumer { consumer: self.consumer },
        )
    }
}

impl BridgeProducer {
    /// The number of samples that the bridge was made for.
    pub closed spec fn capacity(&self) -> nat {
        capacity_of(self.producer)
    }

    /// The room that the end can count on: what it last saw free, less what
    /// it has written since. A write takes at least that much of its block,
    /// however far the consumer has come.
    pub closed spec fn assured(&self) -> nat {
        assured_room(self.producer)
    }

    /// All the samples that the end has written to the bridge, in the order
    /// in which it wrote them.
    pub closed spec fn handed(&self) -> Seq<i16> {
        handed_over(self.producer)
    }

    /// The end knows what the bridge was made for.
    pub closed spec fn wf(&self) -> bool {
        self.size == self.capacity()
    }

    /// The number of samples that the bridge was made for.
    pub fn size(&self) -> (size: usize)
        requires
            self.wf(),
        ensures
            size == self.capacity(),
    {
        self.size
    }

    /// The room that the bridge has at the moment of the call, which the end
    /// can count on from then on: the consumer only ever makes more.
    pub fn room(&mut self) -> (room: usize)
        ensures
            old(self).assured() <= room <= old(self).capacity(),
            final(self).assured() == room,
            final(self).handed() == old(self).handed(),
            final(self).capacity() == old(self).capacity() && final(self).wf() == old(self).wf(),
    {
        ring_room(&mut self.producer)
    }

    /// Queues the start of `block` behind what the end wrote before, as far
    /// as there is room, and returns how much that was. It never waits.
    pub fn write(&mut self, block: &[i16]) -> (written: usize)
        ensures
            min_len(block@.len() as int, old(self).assured() as int) <= written <= block@.len(),
            written <= old(self).capacity(),
            final(self).handed() == old(self).handed() + block@.take(written as int),
            final(self).assured() + written >= old(self).assured(),
            final(self).capacity() == old(self).capacity(),
            final(self).wf() == old(self).wf(),
    {
        ring_write_block(&mut self.producer, block)
    }
}

impl BridgeConsumer {
    /// The samples that the end can count on, oldest first: those that it
    /// knows to wait in the bridge. The producer may have added more behind
    /// them by now.
    pub closed spec fn waiting(&self) -> Seq<i16> {
        queued(self.consumer)
    }

    /// Fills `out` for the audio device without waiting. What the bridge
    /// holds comes first, oldest first and in the order in which it was
    /// written: at least the samples that the end could count on, as far as
    /// `out` has room. From the returned number on `out` is silence.
    pub fn fill_output(&mut self, out: &mut [i16]) -> (served: usize)
        ensures
            min_len(old(out)@.len() as int, old(self).waiting().len() as int) <= served,
            served <= old(out)@.len(),
            final(out)@.len() == old(out)@.len(),
            forall|i: int|
                0 <= i < served && i < old(self).waiting().len() ==> final(out)@[i] == old(
                    self,
                ).waiting()[i],
            final(out)@.skip(served as int) == silence((old(out)@.len() - served) as nat),
            forall|i: int| served <= i < old(out)@.len() ==> final(out)@[i] == SILENCE,
            final(self).waiting() == old(self).waiting().skip(
                min_len(served as int, old(self).waiting().len() as int),
            ),
    {
        let served: usize = ring_read_block(&mut self.consumer, out);
        pad_silence(out, served);
        assert(out@.skip(served as int) =~= silence((out@.len() - served) as nat));
        served
    }
}

/// The room that a producer handle can count on: what it last saw free in the
/// buffer, less what it has written since. Only the consumer frees room, so
/// the buffer has at least this much room free until the handle writes again.
pub uninterp spec fn assured_room(producer: Producer<i16>) -> nat;

/// `Producer::available`: the free room at the moment of the call, which is
/// the buffer's size less what it holds. It is no less than the handle could
/// count on before, never more than the buffer was made for, and it is what
/// the handle can count on from now on.
#[verifier::external_body]
fn ring_room(producer: &mut Producer<i16>) -> (room: usize)
    ensures
        assured_room(*old(producer)) <= room <= capacity_of(*old(producer)),
        assured_room(*final(producer)) == room,
        handed_over(*final(producer)) == handed_over(*old(producer)),
        capacity_of(*final(producer)) == capacity_of(*old(producer)),
{
    producer.available()
}

/// `Producer::write_slices` with a limit of `block.len()`: the buffer hands
/// out its free stretches, up to the limit, and `copy_block` fills each from
/// `block`. The number of samples taken is the result: the whole block, or as
/// much of it as was free, which is at least what the handle could count on.
/// These samples now stand behind all that the handle wrote before. What it
/// can count on afterwards is less by no more than it wrote.
#[verifier::external_body]
fn ring_write_block(producer: &mut Producer<i16>, block: &[i16]) -> (written: usize)
    ensures
        min_len(block@.len() as int, assured_room(*old(producer)) as int) <= written,
        written <= block@.len(),
        written <= capacity_of(*old(producer)),
        handed_over(*final(producer)) == handed_over(*old(producer)) + block@.take(written as int),
        assured_room(*final(producer)) + written >= assured_room(*old(producer)),
        capacity_of(*final(producer)) == capacity_of(*old(producer)),
{
    producer.write_slices(|free, offset| copy_block(free, block, offset), Some(block.len()))
}

} // verus!
