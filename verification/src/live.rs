//! Live playback: the producer that keeps the bridge filled from the
//! playback session, and the numbers that the audio device and the polling
//! loop are set up with.

use crate::ring::BridgeProducer;
use crate::session::{
    plays_through, rendering, session_is_playing, session_next_samples, still_playing,
};
use fbd_sequencer::PlayContext;
use vstd::prelude::*;
use vstd::slice::slice_subrange;

verus! {

/// The bridge and the device's callback block hold this fraction of a second.
pub const BLOCKS_PER_SECOND: u32 = 20;

/// The number of channels that the audio device is opened with.
pub const DEVICE_CHANNELS: usize = 1;

/// The time between two polls of the producer, in milliseconds.
pub const POLL_INTERVAL_MS: u64 = 25;

/// The time that the device is given to play what is still queued once the
/// session has ended, in milliseconds.
pub const DRAIN_INTERVAL_MS: u64 = 500;

/// What the audio device is opened with.
#[derive(Clone, Copy, Debug, PartialEq, Eq, Structural)]
pub struct DeviceParameters {
    pub channels_count: usize,
    pub sample_rate: usize,
    pub channel_sample_count: usize,
}

/// The number of samples that the bridge of a live playback is made for: a
/// twentieth of a second.
pub fn ring_capacity(sample_rate: u32) -> (capacity: usize)
    ensures
        capacity == sample_rate / BLOCKS_PER_SECOND,
        2 * capacity <= isize::MAX,
{
    (sample_rate / BLOCKS_PER_SECOND) as usize
}

/// The parameters of the audio device of a live playback: one channel at the
/// playback's sample rate, asked for in blocks as long as the bridge.
pub fn device_parameters(sample_rate: u32) -> (parameters: DeviceParameters)
    ensures
        parameters == (DeviceParameters {
            channels_count: DEVICE_CHANNELS,
            sample_rate: sample_rate as usize,
            channel_sample_count: (sample_rate / BLOCKS_PER_SECOND) as usize,
        }),
{
    DeviceParameters {
        channels_count: DEVICE_CHANNELS,
        sample_rate: sample_rate as usize,
        channel_sample_count: ring_capacity(sample_rate),
    }
}

/// What the polling loop does after a poll of the producer.
#[derive(Clone, Copy, Debug, PartialEq, Eq, Structural)]
pub enum LiveStep {
    /// Sleep for this many milliseconds, report the progress and poll again.
    Poll(u64),
    /// The session has ended: sleep for this many milliseconds while the
    /// device drains the bridge, then close the device.
    Drain(u64),
}

/// The step that follows a poll which found the session playing or ended.
pub fn live_step(playing: bool) -> (step: LiveStep)
    ensures
        step == if playing {
            LiveStep::Poll(POLL_INTERVAL_MS)
        } else {
            LiveStep::Drain(DRAIN_INTERVAL_MS)
        },
{
    if playing {
        LiveStep::Poll(POLL_INTERVAL_MS)
    } else {
        LiveStep::Drain(DRAIN_INTERVAL_MS)
    }
}

/// The producer of a live playback. It renders from the session into the
/// bridge, never more than the bridge has room for, and counts what it
/// handed over.
pub struct Player<'a> {
    context: PlayContext<'a>,
    producer: BridgeProducer,
    scratch: Vec<i16>,
    sample_count: usize,
    start: Ghost<nat>,
}

impl<'a> Player<'a> {
    /// The number of samples handed to the bridge so far.
    pub closed spec fn count(&self) -> nat {
        self.sample_count as nat
    }

    /// The samples that the player has handed to the bridge, in the order in
    /// which it rendered them.
    pub closed spec fn written(&self) -> Seq<i16> {
        self.producer.handed().skip(self.start@ as int)
    }

    /// The number of samples that the bridge was made for.
    pub closed spec fn capacity(&self) -> nat {
        self.producer.capacity()
    }

    /// The room in the bridge that the player can count on.
    pub closed spec fn assured(&self) -> nat {
        self.producer.assured()
    }

    /// Whether the player's session still plays.
    pub closed spec fn playing(&self) -> bool {
        still_playing(self.context)
    }

    /// The samples that the player's session renders when it is asked next,
    /// for up to `room` samples.
    pub closed spec fn next_samples(&self, room: nat) -> Seq<i16> {
        rendering(self.context, room)
    }

    /// The samples in the block that the player has the session render into.
    pub closed spec fn block(&self) -> Seq<i16> {
        self.scratch@
    }

    /// Whether the player's session plays through, so that it can be asked
    /// for its next samples.
    pub closed spec fn sound(&self) -> bool {
        plays_through(self.context)
    }

    /// The player can render a whole bridge of samples at once, and it has
    /// counted every sample that it handed over.
    pub closed spec fn wf(&self) -> bool {
        &&& self.producer.wf()
        &&& self.scratch@.len() == self.producer.capacity()
        &&& self.start@ <= self.producer.handed().len()
        &&& self.sample_count == self.producer.handed().len() - self.start@
    }

    /// The count is the number of the samples handed over.
    pub proof fn lemma_count_is_written(&self)
        requires
            self.wf(),
        ensures
            self.count() == self.written().len(),
    {
    }

    /// A player for `context` that feeds `producer`. It polls the session
    /// once at once, so that the device finds the bridge filled: if the
    /// session plays, what it renders for the room of the bridge is handed
    /// over and counted.
    pub fn new(context: PlayContext<'a>, producer: BridgeProducer) -> (player: Player<'a>)
        requires
            producer.wf(),
            plays_through(context),
        ensures
            player.wf(),
            player.sound(),
            player.capacity() == producer.capacity(),
            player.count() == player.written().len(),
            player.count() <= producer.capacity(),
            !still_playing(context) ==> player.written() == Seq::<i16>::empty()
                && player.assured() == producer.assured(),
            still_playing(context) ==> exists|room: nat|
                {
                    &&& producer.assured() <= room <= producer.capacity()
                    &&& player.written() == #[trigger] rendering(context, room)
                    &&& player.assured() + player.count() >= room
                },
    {
        let size: usize = producer.size();
        let scratch: Vec<i16> = vec![0i16; size];
        let ghost start = producer.handed().len();
        let mut player = Player { context, producer, scratch, sample_count: 0, start: Ghost(start) };
        assert(player.written() =~= Seq::<i16>::empty());
        let playing: bool = player.fill_buffer();
        proof {
            if playing {
                let room = choose|room: nat|
                    {
                        &&& producer.assured() <= room <= producer.capacity()
                        &&& player.written() == Seq::<i16>::empty() + #[trigger] rendering(
                            context,
                            room,
                        )
                        &&& player.assured() + rendering(context, room).len() >= room
                    };
                assert(player.written() =~= rendering(context, room));
            }
        }
        player
    }

    /// Polls the session and returns whether it still plays. If it has
    /// ended, nothing changes. Otherwise the player asks the bridge for its
    /// room, which is no less than it could count on, has the session render
    /// that much at most, and hands what was rendered to the bridge, behind
    /// what it handed over before. The bridge takes all of it, since the
    /// room that the player saw stays good, and the count grows by as much.
    /// The player never waits for room.
    pub fn fill_buffer(&mut self) -> (playing: bool)
        requires
            old(self).wf(),
            old(self).sound(),
            old(self).count() + old(self).capacity() <= usize::MAX,
        ensures
            playing == old(self).playing(),
            final(self).wf(),
            final(self).sound(),
            final(self).capacity() == old(self).capacity(),
            final(self).count() == final(self).written().len(),
            old(self).written() == final(self).written().take(old(self).count() as int),
            old(self).count() <= final(self).count() <= old(self).count() + old(self).capacity(),
            !playing ==> final(self).written() == old(self).written() && final(self).playing()
                == old(self).playing() && final(self).assured() == old(self).assured(),
            playing ==> exists|room: nat|
                {
                    &&& old(self).assured() <= room <= old(self).capacity()
                    &&& final(self).written() == old(self).written() + #[trigger] old(
                        self,
                    ).next_samples(room)
                    &&& final(self).assured() + old(self).next_samples(room).len() >= room
                },
    {
        let playing: bool = session_is_playing(&self.context);
        if playing {
            let room: usize = self.producer.room();
            let rendered: usize = session_next_samples(
                &mut self.context,
                self.scratch.as_mut_slice(),
                room,
            );
            self.hand_over(rendered);
            assert(old(self).written() =~= self.written().take(old(self).count() as int));
            assert(self.written() == old(self).written() + old(self).next_samples(room as nat));
        } else {
            assert(old(self).written() =~= self.written().take(old(self).count() as int));
        }
        playing
    }

    /// Hands the first `rendered` samples of the player's block to the
    /// bridge, behind what it handed over before, and counts them. The
    /// bridge takes them all, since the player could count on that much
    /// room.
    pub fn hand_over(&mut self, rendered: usize)
        requires
            old(self).wf(),
            rendered <= old(self).assured(),
            rendered <= old(self).capacity(),
            old(self).count() + rendered <= usize::MAX,
        ensures
            final(self).wf(),
            final(self).capacity() == old(self).capacity(),
            final(self).block() == old(self).block(),
            final(self).sound() == old(self).sound(),
            final(self).playing() == old(self).playing(),
            final(self).written() == old(self).written() + old(self).block().take(rendered as int),
            final(self).count() == old(self).count() + rendered,
            final(self).count() == final(self).written().len(),
            final(self).assured() + rendered >= old(self).assured(),
    {
        let written: usize = self.producer.write(
            slice_subrange(self.scratch.as_slice(), 0, rendered),
        );
        assert(written == rendered);
        self.sample_count = self.sample_count + written;
        assert(self.written() =~= old(self).written() + old(self).block().take(rendered as int));
    }

    /// The number of samples handed to the bridge so far.
    pub fn sample_count(&self) -> (count: usize)
        ensures
            count == self.count(),
    {
        self.sample_count
    }
}

} // verus!
