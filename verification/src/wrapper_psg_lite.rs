//! The adapter over the `psg_lite` engine, which works in integers alone.

use crate::mode::{OutputMode, Registers, CHANNELS};
use psg_lite::{Output, SoundGenerator};
use vstd::prelude::*;

verus! {

#[verifier::external_type_specification]
#[verifier::external_body]
pub struct ExSoundGenerator(SoundGenerator);

/// The clock rate that an engine was made with.
pub uninterp spec fn engine_clock_rate(engine: SoundGenerator) -> u32;

/// The sample rate that an engine was made with.
pub uninterp spec fn engine_sample_rate(engine: SoundGenerator) -> u32;

/// The period that the tone of each channel of an engine runs at.
pub uninterp spec fn engine_periods(engine: SoundGenerator) -> Seq<u16>;

/// The volume that each channel of an engine holds.
pub uninterp spec fn engine_volumes(engine: SoundGenerator) -> Seq<u8>;

/// The mode that each channel of an engine holds, as its two bits: bit 0 for
/// the tone, bit 1 for the noise.
pub uninterp spec fn engine_modes(engine: SoundGenerator) -> Seq<u8>;

/// The period that the noise of an engine runs at.
pub uninterp spec fn engine_noise_period(engine: SoundGenerator) -> u8;

/// The sample that an engine puts out next.
pub uninterp spec fn engine_sample(engine: SoundGenerator) -> i16;

/// What an engine holds of what it was made with and told.
pub struct EngineState {
    /// The clock rate in Hz.
    pub clock_rate: u32,
    /// The sample rate in Hz.
    pub sample_rate: u32,
    /// The period that the tone of each channel runs at.
    pub period: Seq<u16>,
    /// The volume of each channel.
    pub volume: Seq<u8>,
    /// The mode of each channel, as its two bits.
    pub mode: Seq<u8>,
    /// The period that the noise runs at.
    pub noise_period: u8,
}

/// What an engine holds.
pub open spec fn engine_state(engine: SoundGenerator) -> EngineState {
    EngineState {
        clock_rate: engine_clock_rate(engine),
        sample_rate: engine_sample_rate(engine),
        period: engine_periods(engine),
        volume: engine_volumes(engine),
        mode: engine_modes(engine),
        noise_period: engine_noise_period(engine),
    }
}

/// The largest tone period of a channel.
pub const MAX_TONE_PERIOD: u16 = 4095;

/// The largest volume of a channel.
pub const MAX_VOLUME: u8 = 15;

/// The largest period of the noise.
pub const MAX_NOISE_PERIOD: u8 = 31;

/// The largest sample that the engine puts out: three channels at full
/// volume.
pub const MAX_SAMPLE: i16 = 32766;

/// The shortest period that the engine's noise can follow at these rates:
/// the clock's ticks in 16 samples, rounded down.
pub open spec fn noise_floor(clock_rate: u32, sample_rate: u32) -> int {
    (clock_rate as int) / (16 * sample_rate)
}

/// The shortest period that the engine's tones can follow at these rates.
pub open spec fn tone_floor(clock_rate: u32, sample_rate: u32) -> int {
    noise_floor(clock_rate, sample_rate) + 1
}

/// The longest period that the engine's noise can be set to at these rates.
pub open spec fn longest_noise(clock_rate: u32, sample_rate: u32) -> int {
    if noise_floor(clock_rate, sample_rate) > MAX_NOISE_PERIOD {
        noise_floor(clock_rate, sample_rate)
    } else {
        MAX_NOISE_PERIOD as int
    }
}

/// The rates that the engine's counters can follow. The noise counter runs
/// at 16 times the sample rate. It keeps its shortest period in 8 bits, adds
/// one to it, and counts up to one more than its longest period in signed 32
/// bits.
pub open spec fn rates_supported(clock_rate: u32, sample_rate: u32) -> bool {
    &&& 0 < sample_rate
    &&& noise_floor(clock_rate, sample_rate) < 255
    &&& (longest_noise(clock_rate, sample_rate) + 1) * (16 * sample_rate) <= i32::MAX
}

/// The period that the engine runs a tone at when it is told `period`: no
/// shorter than it can follow.
pub open spec fn kept_period(period: u16, clock_rate: u32, sample_rate: u32) -> u16 {
    if period >= tone_floor(clock_rate, sample_rate) {
        period
    } else {
        tone_floor(clock_rate, sample_rate) as u16
    }
}

/// The period that the engine runs its noise at when it is told `period`: no
/// shorter than it can follow.
pub open spec fn kept_noise_period(period: u8, clock_rate: u32, sample_rate: u32) -> u8 {
    if period >= noise_floor(clock_rate, sample_rate) {
        period
    } else {
        noise_floor(clock_rate, sample_rate) as u8
    }
}

/// What a new engine holds: the rates, every channel silent at volume 0 and
/// at the shortest period, and the noise at its shortest period.
pub open spec fn started(clock_rate: u32, sample_rate: u32) -> EngineState {
    EngineState {
        clock_rate,
        sample_rate,
        period: Seq::new(CHANNELS as nat, |i: int| kept_period(0, clock_rate, sample_rate)),
        volume: Seq::new(CHANNELS as nat, |i: int| 0u8),
        mode: Seq::new(CHANNELS as nat, |i: int| 0u8),
        noise_period: kept_noise_period(0, clock_rate, sample_rate),
    }
}

/// Whether an engine holds what the registers say.
pub open spec fn holds(registers: Registers, state: EngineState) -> bool {
    &&& state.period.len() == CHANNELS
    &&& state.volume.len() == CHANNELS
    &&& state.mode.len() == CHANNELS
    &&& forall|c: int|
        0 <= c < CHANNELS ==> #[trigger] state.period[c] == kept_period(
            registers.tone_period[c],
            state.clock_rate,
            state.sample_rate,
        )
    &&& forall|c: int| 0 <= c < CHANNELS ==> #[trigger] state.volume[c] == registers.volume[c]
    &&& forall|c: int| 0 <= c < CHANNELS ==> #[trigger] state.mode[c] == registers.mode[c].bits()
    &&& state.noise_period == kept_noise_period(
        registers.noise_period,
        state.clock_rate,
        state.sample_rate,
    )
}

/// `SoundGenerator::new`. The engine keeps both rates and starts as
/// `started` says.
#[verifier::external_body]
fn lite_create(clock_rate: u32, sample_rate: u32) -> (engine: SoundGenerator)
    requires
        rates_supported(clock_rate, sample_rate),
    ensures
        engine_clock_rate(engine) == clock_rate,
        engine_sample_rate(engine) == sample_rate,
        engine_periods(engine) == started(clock_rate, sample_rate).period,
        engine_volumes(engine) == started(clock_rate, sample_rate).volume,
        engine_modes(engine) == started(clock_rate, sample_rate).mode,
        engine_noise_period(engine) == started(clock_rate, sample_rate).noise_period,
{
    SoundGenerator::new(clock_rate, sample_rate)
}

/// `SoundGenerator::clock_rate`.
#[verifier::external_body]
fn lite_clock_rate(engine: &SoundGenerator) -> (rate: u32)
    ensures
        rate == engine_clock_rate(*engine),
{
    engine.clock_rate()
}

/// `SoundGenerator::sample_rate`.
#[verifier::external_body]
fn lite_sample_rate(engine: &SoundGenerator) -> (rate: u32)
    ensures
        rate == engine_sample_rate(*engine),
{
    engine.sample_rate()
}

/// `SoundGenerator::set_period`. It indexes the engine's three channels and
/// refuses a period of 4096 or more. The channel's tone runs at the period,
/// or at the shortest that the engine can follow where that is longer.
/// Nothing else that the engine holds changes.
#[verifier::external_body]
fn lite_set_period(engine: &mut SoundGenerator, channel: usize, period: u16)
    requires
        channel < CHANNELS,
        period <= MAX_TONE_PERIOD,
    ensures
        engine_state(*final(engine)) == (EngineState {
            period: engine_state(*old(engine)).period.update(
                channel as int,
                kept_period(
                    period,
                    engine_state(*old(engine)).clock_rate,
                    engine_state(*old(engine)).sample_rate,
                ),
            ),
            ..engine_state(*old(engine))
        }),
{
    engine.set_period(channel, period)
}

/// `SoundGenerator::set_volume`. It indexes the engine's three channels and
/// refuses a volume of 16 or more. The channel keeps the volume. Nothing else
/// that the engine holds changes.
#[verifier::external_body]
fn lite_set_volume(engine: &mut SoundGenerator, channel: usize, volume: u8)
    requires
        channel < CHANNELS,
        volume <= MAX_VOLUME,
    ensures
        engine_state(*final(engine)) == (EngineState {
            volume: engine_state(*old(engine)).volume.update(channel as int, volume),
            ..engine_state(*old(engine))
        }),
{
    engine.set_volume(channel, volume)
}

/// `SoundGenerator::set_mode`, with the mode made from its two bits: bit 0
/// for the tone, bit 1 for the noise. It indexes the engine's three channels.
/// The channel keeps the mode. Nothing else that the engine holds changes.
#[verifier::external_body]
fn lite_set_mode(engine: &mut SoundGenerator, channel: usize, bits: u8)
    requires
        channel < CHANNELS,
        bits < 4,
    ensures
        engine_state(*final(engine)) == (EngineState {
            mode: engine_state(*old(engine)).mode.update(channel as int, bits),
            ..engine_state(*old(engine))
        }),
{
    engine.set_mode(channel, Output::from_bits_truncate(bits))
}

/// `SoundGenerator::set_noise_period`. It refuses a period of 32 or more.
/// The noise runs at the period, or at the shortest that the engine can
/// follow where that is longer. Nothing else that the engine holds changes.
#[verifier::external_body]
fn lite_set_noise_period(engine: &mut SoundGenerator, period: u8)
    requires
        period <= MAX_NOISE_PERIOD,
    ensures
        engine_state(*final(engine)) == (EngineState {
            noise_period: kept_noise_period(
                period,
                engine_state(*old(engine)).clock_rate,
                engine_state(*old(engine)).sample_rate,
            ),
            ..engine_state(*old(engine))
        }),
{
    engine.set_noise_period(period)
}

/// `SoundGenerator::next_sample` for 16-bit samples: the sum of the three
/// channels' levels, each of which the engine takes from a table of values
/// from 0 to 10922. It moves the engine's counters on and leaves what the
/// engine was made with and told.
#[verifier::external_body]
fn lite_next_sample(engine: &mut SoundGenerator) -> (sample: i16)
    ensures
        sample == engine_sample(*old(engine)),
        0 <= sample <= MAX_SAMPLE,
        engine_state(*final(engine)) == engine_state(*old(engine)),
{
    engine.next_sample::<i16>()
}

/// A sound generator on the `psg_lite` engine.
pub struct PsgWrapper {
    sg: SoundGenerator,
    registers: Ghost<Registers>,
}

impl View for PsgWrapper {
    type V = Registers;

    /// The registers as the last commands left them.
    closed spec fn view(&self) -> Registers {
        self.registers@
    }
}

impl PsgWrapper {
    /// What the engine holds.
    pub closed spec fn engine(&self) -> EngineState {
        engine_state(self.sg)
    }

    /// The sample that the engine puts out next.
    pub closed spec fn next(&self) -> i16 {
        engine_sample(self.sg)
    }

    /// The clock rate that the generator was made with, in Hz.
    pub open spec fn clock(&self) -> u32 {
        self.engine().clock_rate
    }

    /// The sample rate that the generator was made with, in Hz.
    pub open spec fn rate(&self) -> u32 {
        self.engine().sample_rate
    }

    /// The engine holds what the registers say.
    pub open spec fn wf(&self) -> bool {
        self@.wf() && holds(self@, self.engine())
    }

    /// A generator for the given rates, told nothing yet.
    pub fn new(clock_rate: u32, sample_rate: u32) -> (wrapper: PsgWrapper)
        requires
            rates_supported(clock_rate, sample_rate),
        ensures
            wrapper.wf(),
            wrapper.clock() == clock_rate,
            wrapper.rate() == sample_rate,
            wrapper@ == Registers::initial(),
            wrapper.engine() == started(clock_rate, sample_rate),
    {
        PsgWrapper {
            sg: lite_create(clock_rate, sample_rate),
            registers: Ghost(Registers::initial()),
        }
    }

    /// A generator for the given rates, or `None` where the engine's
    /// counters cannot follow them.
    pub fn try_new(clock_rate: u32, sample_rate: u32) -> (wrapper: Option<PsgWrapper>)
        ensures
            wrapper.is_some() == rates_supported(clock_rate, sample_rate),
            wrapper matches Some(made) ==> {
                &&& made.wf()
                &&& made.clock() == clock_rate
                &&& made.rate() == sample_rate
                &&& made@ == Registers::initial()
                &&& made.engine() == started(clock_rate, sample_rate)
            },
    {
        if sample_rate == 0 {
            return None;
        }
        let step: u64 = 16 * (sample_rate as u64);
        let floor: u64 = (clock_rate as u64) / step;
        if floor >= 255 {
            return None;
        }
        let longest: u64 = if floor > MAX_NOISE_PERIOD as u64 {
            floor
        } else {
            MAX_NOISE_PERIOD as u64
        };
        assert((longest + 1) * step <= 255 * step) by (nonlinear_arith)
            requires
                longest + 1 <= 255,
                step >= 0,
        ;
        if (longest + 1) * step <= i32::MAX as u64 {
            Some(PsgWrapper::new(clock_rate, sample_rate))
        } else {
            None
        }
    }

    /// The sample rate in Hz.
    pub fn sample_rate(&self) -> (rate: u32)
        ensures
            rate == self.rate(),
    {
        lite_sample_rate(&self.sg)
    }

    /// The clock rate in Hz.
    pub fn clock_rate(&self) -> (rate: u32)
        ensures
            rate == self.clock(),
    {
        lite_clock_rate(&self.sg)
    }

    /// Sets the tone period of a channel. The engine runs the tone at it, or
    /// at the shortest period that it can follow where that is longer.
    pub fn set_tone_period(&mut self, channel: usize, period: u16)
        requires
            old(self).wf(),
            channel < CHANNELS,
            period <= MAX_TONE_PERIOD,
        ensures
            final(self).wf(),
            final(self)@ == old(self)@.with_tone_period(channel as int, period),
            final(self).engine() == (EngineState {
                period: old(self).engine().period.update(
                    channel as int,
                    kept_period(period, old(self).clock(), old(self).rate()),
                ),
                ..old(self).engine()
            }),
    {
        lite_set_period(&mut self.sg, channel, period);
        self.registers = Ghost(self.registers@.with_tone_period(channel as int, period));
    }

    /// Sets the volume of a channel.
    pub fn set_volume(&mut self, channel: usize, volume: u8)
        requires
            old(self).wf(),
            channel < CHANNELS,
            volume <= MAX_VOLUME,
        ensures
            final(self).wf(),
            final(self)@ == old(self)@.with_volume(channel as int, volume),
            final(self).engine() == (EngineState {
                volume: old(self).engine().volume.update(channel as int, volume),
                ..old(self).engine()
            }),
    {
        lite_set_volume(&mut self.sg, channel, volume);
        self.registers = Ghost(self.registers@.with_volume(channel as int, volume));
    }

    /// Sets what a channel puts out. The engine keeps the mode's two bits;
    /// with neither set the channel is silent. The other channels stay as
    /// they are.
    pub fn set_output_mode(&mut self, channel: usize, mode: OutputMode)
        requires
            old(self).wf(),
            channel < CHANNELS,
        ensures
            final(self).wf(),
            final(self)@ == old(self)@.with_mode(channel as int, mode),
            final(self).engine() == (EngineState {
                mode: old(self).engine().mode.update(channel as int, mode.bits()),
                ..old(self).engine()
            }),
    {
        lite_set_mode(&mut self.sg, channel, mode.output_bits());
        self.registers = Ghost(self.registers@.with_mode(channel as int, mode));
    }

    /// Sets the period of the noise. The engine runs the noise at it, or at
    /// the shortest period that it can follow where that is longer.
    pub fn set_noise_period(&mut self, period: u8)
        requires
            old(self).wf(),
            period <= MAX_NOISE_PERIOD,
        ensures
            final(self).wf(),
            final(self)@ == old(self)@.with_noise_period(period),
            final(self).engine() == (EngineState {
                noise_period: kept_noise_period(period, old(self).clock(), old(self).rate()),
                ..old(self).engine()
            }),
    {
        lite_set_noise_period(&mut self.sg, period);
        self.registers = Ghost(self.registers@.with_noise_period(period));
    }

    /// Renders the next sample: the engine's, as it is. The registers and
    /// what the engine holds of them stay as they are.
    pub fn next_sample_i16(&mut self) -> (sample: i16)
        ensures
            sample == old(self).next(),
            0 <= sample <= MAX_SAMPLE,
            final(self)@ == old(self)@,
            final(self).engine() == old(self).engine(),
    {
        lite_next_sample(&mut self.sg)
    }
}

} // verus!
