//! Rendering a song into a waveform file.
//!
//! The sink pulls fixed-size blocks straight from the playback session and
//! tells its caller, block by block, what the encoder has to do next: encode
//! the block, finalize the file, or nothing more. The caller owns the encoder
//! and the file.

use crate::session::{
    loop_limit, plays_through, rendering, session_limit_loops, session_next_samples,
};
use fbd_sequencer::PlayContext;
use vstd::prelude::*;
use vstd::slice::slice_subrange;

verus! {

/// How often a song is played through when it is rendered into a file.
pub const FILE_LOOP_LIMIT: usize = 1;

/// The number of channels of a rendered file.
pub const WAVE_CHANNELS: u16 = 1;

/// The width of a sample of a rendered file.
pub const WAVE_BITS_PER_SAMPLE: u16 = 16;

/// How the samples of a waveform file are stored.
#[derive(Clone, Copy, Debug, PartialEq, Eq, Structural)]
pub enum SampleFormat {
    /// As floating-point numbers.
    Float,
    /// As signed integers.
    Int,
}

/// The properties of a waveform file.
#[derive(Clone, Copy, Debug, PartialEq, Eq, Structural)]
pub struct WaveFormat {
    pub channels: u16,
    pub sample_rate: u32,
    pub bits_per_sample: u16,
    pub sample_format: SampleFormat,
}

/// The format of the file that a song is rendered into: one channel of
/// 16-bit signed integers at the playback's sample rate.
pub fn wave_format(sample_rate: u32) -> (format: WaveFormat)
    ensures
        format == (WaveFormat {
            channels: WAVE_CHANNELS,
            sample_rate,
            bits_per_sample: WAVE_BITS_PER_SAMPLE,
            sample_format: SampleFormat::Int,
        }),
{
    WaveFormat {
        channels: WAVE_CHANNELS,
        sample_rate,
        bits_per_sample: WAVE_BITS_PER_SAMPLE,
        sample_format: SampleFormat::Int,
    }
}

/// What the encoder has to do after a block was requested from the session.
#[derive(Clone, Copy, Debug, PartialEq, Eq, Structural)]
pub enum SinkStep {
    /// Encode this many samples, the sink's pending block, in order.
    Encode(usize),
    /// The session gave nothing: finalize the file.
    Finalize,
    /// The file was finalized before: nothing is left to do.
    Done,
}

/// What a sink has reached.
pub struct SinkState {
    /// The number of samples handed to the encoder so far.
    pub total: nat,
    /// Whether the encoder was told to finalize.
    pub finished: bool,
    /// The samples that wait to be encoded.
    pub pending: Seq<i16>,
}

/// The step that follows when a sink asks for a block and gets `rendered`
/// samples.
pub open spec fn step_for(finished: bool, rendered: usize) -> SinkStep {
    if finished {
        SinkStep::Done
    } else if rendered == 0 {
        SinkStep::Finalize
    } else {
        SinkStep::Encode(rendered)
    }
}

/// The state of a sink after it asked for a block and got `rendered`.
pub open spec fn advance(state: SinkState, rendered: Seq<i16>) -> SinkState {
    if state.finished {
        SinkState { total: state.total, finished: true, pending: Seq::empty() }
    } else {
        SinkState {
            total: state.total + rendered.len(),
            finished: rendered.len() == 0,
            pending: rendered,
        }
    }
}

/// The steps of a sink, finished or not, over a run of requests that give
/// blocks of these lengths.
pub open spec fn steps(finished: bool, lens: Seq<usize>) -> Seq<SinkStep>
    decreases lens.len(),
{
    if lens.len() == 0 {
        Seq::empty()
    } else {
        seq![step_for(finished, lens[0])] + steps(finished || lens[0] == 0, lens.skip(1))
    }
}

/// The place of the first empty block among `lens`, or their number where
/// none is empty.
pub open spec fn first_end(lens: Seq<usize>) -> int
    decreases lens.len(),
{
    if lens.len() == 0 {
        0
    } else if lens[0] == 0 {
        0
    } else {
        1 + first_end(lens.skip(1))
    }
}

/// How often `Finalize` stands among `trace`.
pub open spec fn finalize_count(trace: Seq<SinkStep>) -> nat
    decreases trace.len(),
{
    if trace.len() == 0 {
        0
    } else {
        finalize_count(trace.drop_last()) + if trace.last() == SinkStep::Finalize {
            1nat
        } else {
            0nat
        }
    }
}

/// The state that a sink reaches from `state` over a run of requests that
/// give these blocks.
pub open spec fn run(state: SinkState, blocks: Seq<Seq<i16>>) -> SinkState
    decreases blocks.len(),
{
    if blocks.len() == 0 {
        state
    } else {
        run(advance(state, blocks[0]), blocks.skip(1))
    }
}

/// The samples of the file that a run of blocks gives: the blocks before the
/// first empty one, one after the other.
pub open spec fn encoded(blocks: Seq<Seq<i16>>) -> Seq<i16>
    decreases blocks.len(),
{
    if blocks.len() == 0 || blocks[0].len() == 0 {
        Seq::empty()
    } else {
        blocks[0] + encoded(blocks.skip(1))
    }
}

/// Whether one of `blocks` is empty.
pub open spec fn runs_out(blocks: Seq<Seq<i16>>) -> bool {
    exists|i: int| 0 <= i < blocks.len() && #[trigger] blocks[i].len() == 0
}

/// A sink that renders a playback session into the samples of a file.
pub struct FileSink<'a> {
    session: PlayContext<'a>,
    block: Vec<i16>,
    filled: usize,
    total: usize,
    finished: bool,
}

impl<'a> View for FileSink<'a> {
    type V = SinkState;

    closed spec fn view(&self) -> SinkState {
        SinkState {
            total: self.total as nat,
            finished: self.finished,
            pending: self.block@.take(self.filled as int),
        }
    }
}

impl<'a> FileSink<'a> {
    /// The size of the blocks that the sink asks the session for.
    pub open spec fn block_len(&self) -> nat {
        self.buffer().len()
    }

    /// Whether the sink's session plays through, so that it can be asked
    /// for its next block.
    pub closed spec fn sound(&self) -> bool {
        plays_through(self.session)
    }

    /// The number of times that the sink's session lets its song loop.
    pub closed spec fn loop_limit(&self) -> Option<usize> {
        loop_limit(self.session)
    }

    /// The block that the sink's session renders when it is asked next.
    pub closed spec fn next_block(&self) -> Seq<i16> {
        rendering(self.session, self.block@.len())
    }

    /// The samples in the sink's buffer, which the session renders into.
    pub closed spec fn buffer(&self) -> Seq<i16> {
        self.block@
    }

    /// The pending block lies within the sink's buffer.
    pub closed spec fn wf(&self) -> bool {
        self.filled <= self.block@.len()
    }

    /// A sink for `session` that asks for one second of samples at a time.
    /// The session is held to one pass through the song, so that a song that
    /// loops forever still ends.
    pub fn new(session: PlayContext<'a>, sample_rate: u32) -> (sink: FileSink<'a>)
        requires
            plays_through(session),
        ensures
            sink.wf(),
            sink.sound(),
            sink.loop_limit() == Some(FILE_LOOP_LIMIT),
            sink.block_len() == sample_rate,
            sink@ == (SinkState { total: 0, finished: false, pending: Seq::empty() }),
    {
        let mut session = session;
        session_limit_loops(&mut session, FILE_LOOP_LIMIT);
        let block: Vec<i16> = vec![0i16; sample_rate as usize];
        let sink = FileSink { session, block, filled: 0, total: 0, finished: false };
        assert(sink@.pending =~= Seq::<i16>::empty());
        sink
    }

    /// The number of samples handed to the encoder so far.
    pub fn total(&self) -> (total: usize)
        ensures
            total == self@.total,
    {
        self.total
    }

    /// Whether the encoder was told to finalize.
    pub fn is_finished(&self) -> (finished: bool)
        ensures
            finished == self@.finished,
    {
        self.finished
    }

    /// The size of the blocks that the sink asks the session for.
    pub fn block_size(&self) -> (size: usize)
        ensures
            size == self.block_len(),
    {
        self.block.len()
    }

    /// The samples that wait to be encoded, in order.
    pub fn pending(&self) -> (samples: &[i16])
        requires
            self.wf(),
        ensures
            samples@ == self@.pending,
    {
        slice_subrange(self.block.as_slice(), 0, self.filled)
    }

    /// Takes note that the session rendered `rendered` samples into the
    /// sink's buffer and says what the encoder has to do. The first empty
    /// block ends the rendering: it asks for the finalization, and every
    /// request after it is answered with `Done`.
    pub fn absorb(&mut self, rendered: usize) -> (step: SinkStep)
        requires
            old(self).wf(),
            rendered <= old(self).block_len(),
            old(self)@.total + rendered <= usize::MAX,
        ensures
            final(self).wf(),
            final(self).block_len() == old(self).block_len(),
            final(self).buffer() == old(self).buffer(),
            final(self).sound() == old(self).sound(),
            final(self).loop_limit() == old(self).loop_limit(),
            step == step_for(old(self)@.finished, rendered),
            final(self)@ == advance(old(self)@, old(self).buffer().take(rendered as int)),
            final(self)@.pending.len() == if old(self)@.finished {
                0
            } else {
                rendered as int
            },
    {
        if self.finished {
            self.filled = 0;
            assert(self@.pending =~= Seq::<i16>::empty());
            SinkStep::Done
        } else if rendered == 0 {
            self.filled = 0;
            self.finished = true;
            assert(self@.pending =~= old(self).block@.take(0));
            SinkStep::Finalize
        } else {
            self.filled = rendered;
            self.total = self.total + rendered;
            SinkStep::Encode(rendered)
        }
    }

    /// Asks the session for its next block, unless the rendering has ended,
    /// and says what the encoder has to do: encode the pending block, whose
    /// length the step gives, finalize, or nothing.
    pub fn pump(&mut self) -> (step: SinkStep)
        requires
            old(self).wf(),
            old(self).sound(),
            old(self)@.total + old(self).block_len() <= usize::MAX,
        ensures
            final(self).wf(),
            final(self).sound(),
            final(self).loop_limit() == old(self).loop_limit(),
            final(self).block_len() == old(self).block_len(),
            final(self)@.pending.len() <= final(self).block_len(),
            !old(self)@.finished ==> final(self)@.pending == old(self).next_block(),
            step == step_for(old(self)@.finished, final(self)@.pending.len() as usize),
            final(self)@ == advance(old(self)@, final(self)@.pending),
    {
        if self.finished {
            self.absorb(0)
        } else {
            let limit: usize = self.block.len();
            let rendered: usize = session_next_samples(
                &mut self.session,
                self.block.as_mut_slice(),
                limit,
            );
            self.absorb(rendered)
        }
    }
}

/// Over any run of blocks, a fresh sink asks for every block before the first
/// empty one to be encoded, asks for the finalization at the first empty one,
/// and answers `Done` from then on. So the file is finalized once if the
/// session ever runs out, and never twice.
pub proof fn lemma_finalize_once(lens: Seq<usize>)
    ensures
        steps(false, lens).len() == lens.len(),
        0 <= first_end(lens) <= lens.len(),
        forall|i: int|
            0 <= i < first_end(lens) ==> lens[i] != 0 && #[trigger] steps(false, lens)[i]
                == SinkStep::Encode(lens[i]),
        first_end(lens) < lens.len() ==> lens[first_end(lens)] == 0 && steps(
            false,
            lens,
        )[first_end(lens)] == SinkStep::Finalize,
        forall|i: int|
            first_end(lens) < i < lens.len() ==> #[trigger] steps(false, lens)[i]
                == SinkStep::Done,
        finalize_count(steps(false, lens)) == if first_end(lens) < lens.len() {
            1nat
        } else {
            0nat
        },
    decreases lens.len(),
{
    lemma_steps_len(false, lens);
    if lens.len() == 0 {
    } else if lens[0] == 0 {
        lemma_steps_done(lens.skip(1));
        let rest = steps(true, lens.skip(1));
        let all = steps(false, lens);
        assert(all =~= seq![SinkStep::Finalize] + rest);
        lemma_finalize_count_prepend(SinkStep::Finalize, rest);
    } else {
        let tail = lens.skip(1);
        lemma_finalize_once(tail);
        lemma_steps_len(false, tail);
        let rest = steps(false, tail);
        let all = steps(false, lens);
        assert(all =~= seq![SinkStep::Encode(lens[0])] + rest);
        lemma_finalize_count_prepend(SinkStep::Encode(lens[0]), rest);
        assert forall|i: int| 0 <= i < first_end(lens) implies lens[i] != 0 && #[trigger] all[i]
            == SinkStep::Encode(lens[i]) by {
            if i > 0 {
                assert(all[i] == rest[i - 1]);
                assert(tail[i - 1] == lens[i]);
            }
        }
        assert forall|i: int| first_end(lens) < i < lens.len() implies #[trigger] all[i]
            == SinkStep::Done by {
            assert(all[i] == rest[i - 1]);
        }
        if first_end(lens) < lens.len() {
            assert(tail[first_end(tail)] == lens[first_end(lens)]);
            assert(all[first_end(lens)] == rest[first_end(tail)]);
        }
    }
}

/// A sink counts the samples of the blocks before the first empty one and
/// no others, and it has finished when the run held an empty block.
pub proof fn lemma_run_counts_encoded(total: nat, blocks: Seq<Seq<i16>>)
    ensures
        run(SinkState { total, finished: false, pending: Seq::empty() }, blocks).total == total
            + encoded(blocks).len(),
        run(SinkState { total, finished: false, pending: Seq::empty() }, blocks).finished
            == runs_out(blocks),
    decreases blocks.len(),
{
    let start = SinkState { total, finished: false, pending: Seq::<i16>::empty() };
    if blocks.len() == 0 {
    } else if blocks[0].len() == 0 {
        lemma_run_finished(advance(start, blocks[0]), blocks.skip(1));
        assert(blocks[0].len() == 0);
    } else {
        let rest = blocks.skip(1);
        let next = advance(start, blocks[0]);
        lemma_run_pending(next, SinkState { pending: Seq::empty(), ..next }, rest);
        lemma_run_counts_encoded(next.total, rest);
        if runs_out(rest) {
            let i = choose|i: int| 0 <= i < rest.len() && #[trigger] rest[i].len() == 0;
            assert(blocks[i + 1].len() == 0);
        }
        if runs_out(blocks) {
            let i = choose|i: int| 0 <= i < blocks.len() && #[trigger] blocks[i].len() == 0;
            assert(rest[i - 1].len() == 0);
        }
    }
}

/// A sink that has finished stays as it is, whatever the session gives.
pub proof fn lemma_run_finished(state: SinkState, blocks: Seq<Seq<i16>>)
    requires
        state.finished,
    ensures
        run(state, blocks).finished,
        run(state, blocks).total == state.total,
    decreases blocks.len(),
{
    if blocks.len() > 0 {
        lemma_run_finished(advance(state, blocks[0]), blocks.skip(1));
    }
}

/// What waits to be encoded has no part in what a run counts.
proof fn lemma_run_pending(a: SinkState, b: SinkState, blocks: Seq<Seq<i16>>)
    requires
        a.total == b.total,
        a.finished == b.finished,
    ensures
        run(a, blocks).total == run(b, blocks).total,
        run(a, blocks).finished == run(b, blocks).finished,
    decreases blocks.len(),
{
    if blocks.len() > 0 {
        lemma_run_pending(advance(a, blocks[0]), advance(b, blocks[0]), blocks.skip(1));
    }
}

/// A run of requests is answered step for step.
pub proof fn lemma_steps_len(finished: bool, lens: Seq<usize>)
    ensures
        steps(finished, lens).len() == lens.len(),
    decreases lens.len(),
{
    if lens.len() > 0 {
        lemma_steps_len(finished || lens[0] == 0, lens.skip(1));
    }
}

/// A sink that has finished answers every request with `Done` and never asks
/// for another finalization.
pub proof fn lemma_steps_done(lens: Seq<usize>)
    ensures
        steps(true, lens).len() == lens.len(),
        forall|i: int| 0 <= i < lens.len() ==> #[trigger] steps(true, lens)[i] == SinkStep::Done,
        finalize_count(steps(true, lens)) == 0,
    decreases lens.len(),
{
    lemma_steps_len(true, lens);
    if lens.len() > 0 {
        let rest = steps(true, lens.skip(1));
        lemma_steps_done(lens.skip(1));
        assert(steps(true, lens) =~= seq![SinkStep::Done] + rest);
        lemma_finalize_count_prepend(SinkStep::Done, rest);
    }
}

/// Counting the finalizations of a trace from its first step on.
proof fn lemma_finalize_count_prepend(first: SinkStep, rest: Seq<SinkStep>)
    ensures
        finalize_count(seq![first] + rest) == finalize_count(rest) + if first
            == SinkStep::Finalize {
            1nat
        } else {
            0nat
        },
    decreases rest.len(),
{
    let all = seq![first] + rest;
    if rest.len() == 0 {
        assert(all.drop_last() =~= Seq::<SinkStep>::empty());
        assert(all.last() == first);
        assert(finalize_count(all.drop_last()) == 0);
    } else {
        assert(all.drop_last() =~= seq![first] + rest.drop_last());
        assert(all.last() == rest.last());
        lemma_finalize_count_prepend(first, rest.drop_last());
    }
}

} // verus!
