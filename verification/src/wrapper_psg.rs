//! The adapter over the `psg` engine, which emulates the chip's analog
//! output and renders stereo frames.

use crate::mode::{OutputMode, Registers, CHANNELS};
use psg::PSG;
use vstd::prelude::*;

verus! {

#[verifier::external_type_specification]
#[verifier::external_body]
pub struct ExPSG(PSG);

/// The tone period that each channel of an engine holds.
pub uninterp spec fn psg_tone_periods(engine: PSG) -> Seq<u16>;

/// The amplitude that each channel of an engine holds.
pub uninterp spec fn psg_amplitudes(engine: PSG) -> Seq<u8>;

/// For each channel of an engine, whether its tone is switched off.
pub uninterp spec fn psg_tone_off(engine: PSG) -> Seq<bool>;

/// For each channel of an engine, whether its noise is switched off.
pub uninterp spec fn psg_noise_off(engine: PSG) -> Seq<bool>;

/// The period that the noise generator of an engine holds.
pub uninterp spec fn psg_noise_period(engine: PSG) -> u8;

/// The frame that an engine renders next: its left and its right level, each
/// as the bit pattern of a 64-bit floating-point number. The levels of an
/// engine whose clock step is a number are numbers, and the same on every
/// machine.
pub uninterp spec fn psg_frame(engine: PSG) -> (u64, u64);

/// What an engine holds of what it was told.
pub struct EngineState {
    /// The tone period of each channel.
    pub tone_period: Seq<u16>,
    /// The amplitude of each channel.
    pub amplitude: Seq<u8>,
    /// For each channel, whether its tone is switched off.
    pub tone_off: Seq<bool>,
    /// For each channel, whether its noise is switched off.
    pub noise_off: Seq<bool>,
    /// The period of the noise.
    pub noise_period: u8,
}

/// What an engine holds.
pub open spec fn psg_state(engine: PSG) -> EngineState {
    EngineState {
        tone_period: psg_tone_periods(engine),
        amplitude: psg_amplitudes(engine),
        tone_off: psg_tone_off(engine),
        noise_off: psg_noise_off(engine),
        noise_period: psg_noise_period(engine),
    }
}

/// What a new engine holds: every channel at period 1 and amplitude 0 with
/// tone and noise switched off, the noise at period 1.
pub open spec fn started() -> EngineState {
    EngineState {
        tone_period: Seq::new(CHANNELS as nat, |i: int| 1u16),
        amplitude: Seq::new(CHANNELS as nat, |i: int| 0u8),
        tone_off: Seq::new(CHANNELS as nat, |i: int| true),
        noise_off: Seq::new(CHANNELS as nat, |i: int| true),
        noise_period: 1,
    }
}

/// The tone period that the engine keeps of the one it is told: its low 12
/// bits, and 1 in place of 0.
pub open spec fn stored_period(period: u16) -> u16 {
    if period & 0x0fff == 0 {
        1
    } else {
        period & 0x0fff
    }
}

/// The amplitude that the engine keeps of a volume: its low 4 bits.
pub open spec fn stored_amplitude(volume: u8) -> u8 {
    volume & 0x0f
}

/// The noise period that the engine keeps of the one it is told: its low 5
/// bits, and 1 in place of 0.
pub open spec fn stored_noise_period(period: u8) -> u8 {
    if period & 0x1f == 0 {
        1
    } else {
        period & 0x1f
    }
}

/// Whether an engine holds what the registers say.
pub open spec fn holds(registers: Registers, state: EngineState) -> bool {
    &&& state.tone_period.len() == CHANNELS
    &&& state.amplitude.len() == CHANNELS
    &&& state.tone_off.len() == CHANNELS
    &&& state.noise_off.len() == CHANNELS
    &&& forall|c: int|
        0 <= c < CHANNELS ==> #[trigger] state.tone_period[c] == stored_period(
            registers.tone_period[c],
        )
    &&& forall|c: int|
        0 <= c < CHANNELS ==> #[trigger] state.amplitude[c] == stored_amplitude(registers.volume[c])
    &&& forall|c: int|
        0 <= c < CHANNELS ==> #[trigger] state.tone_off[c] == registers.mode[c].mutes_tone()
    &&& forall|c: int|
        0 <= c < CHANNELS ==> #[trigger] state.noise_off[c] == registers.mode[c].mutes_noise()
    &&& state.noise_period == stored_noise_period(registers.noise_period)
}

/// The clock rates that the engine can follow at a sample rate: those below
/// 64 times the sample rate.
pub open spec fn rates_supported(clock_rate: u32, sample_rate: u32) -> bool {
    clock_rate < 64 * sample_rate
}

/// `PSG::new`, with the clock rate as a floating-point number: the engine, or
/// `None` where it answers that the clock rate is too high for the sample
/// rate. It steps the chip's clock by the clock rate divided by 64 times the
/// sample rate, and refuses a step of one or more. With both rates zero that
/// step is no number, which the engine does not refuse: the wrapper is not
/// for these rates. A new engine holds what `started` says.
#[verifier::external_body]
fn psg_create(clock_rate: u32, sample_rate: u32) -> (engine: Option<PSG>)
    requires
        clock_rate > 0 || sample_rate > 0,
    ensures
        engine.is_some() == rates_supported(clock_rate, sample_rate),
        engine matches Some(made) ==> {
            &&& psg_tone_periods(made) == started().tone_period
            &&& psg_amplitudes(made) == started().amplitude
            &&& psg_tone_off(made) == started().tone_off
            &&& psg_noise_off(made) == started().noise_off
            &&& psg_noise_period(made) == started().noise_period
        },
{
    PSG::new(clock_rate.into(), sample_rate).ok()
}

/// `PSG::set_tone_period`: the channel keeps the low 12 bits of the period,
/// and 1 in place of 0. Nothing else that the engine holds changes.
#[verifier::external_body]
fn psg_set_tone_period(engine: &mut PSG, channel: u8, period: u16)
    requires
        channel < CHANNELS,
    ensures
        psg_state(*final(engine)) == (EngineState {
            tone_period: psg_state(*old(engine)).tone_period.update(
                channel as int,
                stored_period(period),
            ),
            ..psg_state(*old(engine))
        }),
{
    engine.set_tone_period(channel, period)
}

/// `PSG::set_amplitude`: the channel keeps the low 4 bits of the amplitude.
/// Nothing else that the engine holds changes.
#[verifier::external_body]
fn psg_set_amplitude(engine: &mut PSG, channel: u8, amplitude: u8)
    requires
        channel < CHANNELS,
    ensures
        psg_state(*final(engine)) == (EngineState {
            amplitude: psg_state(*old(engine)).amplitude.update(
                channel as int,
                stored_amplitude(amplitude),
            ),
            ..psg_state(*old(engine))
        }),
{
    engine.set_amplitude(channel, amplitude)
}

/// `PSG::set_tone_disabled`: the channel's tone switch is set as told.
/// Nothing else that the engine holds changes.
#[verifier::external_body]
fn psg_set_tone_disabled(engine: &mut PSG, channel: u8, disabled: bool)
    requires
        channel < CHANNELS,
    ensures
        psg_state(*final(engine)) == (EngineState {
            tone_off: psg_state(*old(engine)).tone_off.update(channel as int, disabled),
            ..psg_state(*old(engine))
        }),
{
    engine.set_tone_disabled(channel, disabled)
}

/// `PSG::set_noise_disabled`: the channel's noise switch is set as told.
/// Nothing else that the engine holds changes.
#[verifier::external_body]
fn psg_set_noise_disabled(engine: &mut PSG, channel: u8, disabled: bool)
    requires
        channel < CHANNELS,
    ensures
        psg_state(*final(engine)) == (EngineState {
            noise_off: psg_state(*old(engine)).noise_off.update(channel as int, disabled),
            ..psg_state(*old(engine))
        }),
{
    engine.set_noise_disabled(channel, disabled)
}

/// `PSG::set_noise_period`: the noise generator keeps the low 5 bits of the
/// period, and 1 in place of 0. Nothing else that the engine holds changes.
#[verifier::external_body]
fn psg_set_noise_period(engine: &mut PSG, period: u8)
    ensures
        psg_state(*final(engine)) == (EngineState {
            noise_period: stored_noise_period(period),
            ..psg_state(*old(engine))
        }),
{
    engine.set_noise_period(period)
}

/// `PSG::render`: the next frame, its left and its right level each as the
/// bit pattern of the floating-point number that the engine returns. It moves
/// the engine's oscillators on and leaves what the engine was told.
#[verifier::external_body]
fn psg_render(engine: &mut PSG) -> (frame: (u64, u64))
    ensures
        frame == psg_frame(*old(engine)),
        psg_state(*final(engine)) == psg_state(*old(engine)),
{
    let (left, right) = engine.render();
    (left.to_bits(), right.to_bits())
}

/// `Channel::period` of `PSG::channel`.
#[verifier::external_body]
fn psg_tone_period(engine: &PSG, channel: u8) -> (period: u16)
    requires
        channel < CHANNELS,
    ensures
        period == psg_tone_periods(*engine)[channel as int],
{
    engine.channel(channel).period()
}

/// `Channel::amplitude` of `PSG::channel`.
#[verifier::external_body]
fn psg_amplitude(engine: &PSG, channel: u8) -> (amplitude: u8)
    requires
        channel < CHANNELS,
    ensures
        amplitude == psg_amplitudes(*engine)[channel as int],
{
    engine.channel(channel).amplitude()
}

/// `Channel::tone_disabled` of `PSG::channel`.
#[verifier::external_body]
fn psg_tone_disabled(engine: &PSG, channel: u8) -> (disabled: bool)
    requires
        channel < CHANNELS,
    ensures
        disabled == psg_tone_off(*engine)[channel as int],
{
    engine.channel(channel).tone_disabled()
}

/// `Channel::noise_disabled` of `PSG::channel`.
#[verifier::external_body]
fn psg_noise_disabled(engine: &PSG, channel: u8) -> (disabled: bool)
    requires
        channel < CHANNELS,
    ensures
        disabled == psg_noise_off(*engine)[channel as int],
{
    engine.channel(channel).noise_disabled()
}

/// `NoiseGenerator::period` of `PSG::noise_generator`.
#[verifier::external_body]
fn psg_noise(engine: &PSG) -> (period: u8)
    ensures
        period == psg_noise_period(*engine),
{
    engine.noise_generator().period()
}

/// A sound generator on the `psg` engine.
pub struct PsgWrapper {
    sg: PSG,
    clock_rate: u32,
    sample_rate: u32,
    registers: Ghost<Registers>,
}

impl View for PsgWrapper {
    type V = Registers;

    /// The registers as the last commands left them.
    closed spec fn view(&self) -> Registers {
        self.registers@
    }
}

impl PsgWrapper {
    /// The clock rate that the generator was made with, in Hz.
    pub closed spec fn clock(&self) -> u32 {
        self.clock_rate
    }

    /// The sample rate that the generator was made with, in Hz.
    pub closed spec fn rate(&self) -> u32 {
        self.sample_rate
    }

    /// What the engine holds.
    pub closed spec fn engine(&self) -> EngineState {
        psg_state(self.sg)
    }

    /// The frame that the engine renders next.
    pub closed spec fn next_frame(&self) -> (u64, u64) {
        psg_frame(self.sg)
    }

    /// The engine holds what the registers say.
    pub open spec fn wf(&self) -> bool {
        self@.wf() && holds(self@, self.engine())
    }

    /// A generator for the given rates, told nothing yet.
    pub fn new(clock_rate: u32, sample_rate: u32) -> (wrapper: PsgWrapper)
        requires
            rates_supported(clock_rate, sample_rate),
        ensures
            wrapper.wf(),
            wrapper.clock() == clock_rate,
            wrapper.rate() == sample_rate,
            wrapper@ == Registers::initial(),
            wrapper.engine() == started(),
    {
        let engine: Option<PSG> = psg_create(clock_rate, sample_rate);
        let wrapper = PsgWrapper {
            sg: engine.unwrap(),
            clock_rate,
            sample_rate,
            registers: Ghost(Registers::initial()),
        };
        proof {
            lemma_started_holds();
        }
        wrapper
    }

    /// A generator for the given rates, or `None` where the clock rate is too
    /// high for the sample rate. At a sample rate of zero there is none.
    pub fn try_new(clock_rate: u32, sample_rate: u32) -> (wrapper: Option<PsgWrapper>)
        ensures
            wrapper.is_some() == rates_supported(clock_rate, sample_rate),
            wrapper matches Some(made) ==> {
                &&& made.wf()
                &&& made.clock() == clock_rate
                &&& made.rate() == sample_rate
                &&& made@ == Registers::initial()
                &&& made.engine() == started()
            },
    {
        if clock_rate == 0 && sample_rate == 0 {
            return None;
        }
        match psg_create(clock_rate, sample_rate) {
            Some(sg) => {
                proof {
                    lemma_started_holds();
                }
                Some(
                    PsgWrapper {
                        sg,
                        clock_rate,
                        sample_rate,
                        registers: Ghost(Registers::initial()),
                    },
                )
            },
            None => None,
        }
    }

    /// The sample rate in Hz.
    pub fn sample_rate(&self) -> (rate: u32)
        ensures
            rate == self.rate(),
    {
        self.sample_rate
    }

    /// The clock rate in Hz.
    pub fn clock_rate(&self) -> (rate: u32)
        ensures
            rate == self.clock(),
    {
        self.clock_rate
    }

    /// The tone period that the engine holds for a channel.
    pub fn tone_period(&self, channel: usize) -> (period: u16)
        requires
            channel < CHANNELS,
        ensures
            period == self.engine().tone_period[channel as int],
    {
        psg_tone_period(&self.sg, channel as u8)
    }

    /// The amplitude that the engine holds for a channel.
    pub fn amplitude(&self, channel: usize) -> (amplitude: u8)
        requires
            channel < CHANNELS,
        ensures
            amplitude == self.engine().amplitude[channel as int],
    {
        psg_amplitude(&self.sg, channel as u8)
    }

    /// Whether the engine has the tone of a channel switched off.
    pub fn tone_disabled(&self, channel: usize) -> (disabled: bool)
        requires
            channel < CHANNELS,
        ensures
            disabled == self.engine().tone_off[channel as int],
    {
        psg_tone_disabled(&self.sg, channel as u8)
    }

    /// Whether the engine has the noise of a channel switched off.
    pub fn noise_disabled(&self, channel: usize) -> (disabled: bool)
        requires
            channel < CHANNELS,
        ensures
            disabled == self.engine().noise_off[channel as int],
    {
        psg_noise_disabled(&self.sg, channel as u8)
    }

    /// The period that the engine holds for the noise.
    pub fn noise_period(&self) -> (period: u8)
        ensures
            period == self.engine().noise_period,
    {
        psg_noise(&self.sg)
    }

    /// Sets the tone period of a channel. The engine keeps its low 12 bits,
    /// and 1 in place of 0.
    pub fn set_tone_period(&mut self, channel: usize, period: u16)
        requires
            old(self).wf(),
            channel < CHANNELS,
        ensures
            final(self).wf(),
            final(self)@ == old(self)@.with_tone_period(channel as int, period),
            final(self).engine() == (EngineState {
                tone_period: old(self).engine().tone_period.update(
                    channel as int,
                    stored_period(period),
                ),
                ..old(self).engine()
            }),
            final(self).clock() == old(self).clock(),
            final(self).rate() == old(self).rate(),
    {
        psg_set_tone_period(&mut self.sg, channel as u8, period);
        self.registers = Ghost(self.registers@.with_tone_period(channel as int, period));
    }

    /// Sets the volume of a channel. The engine keeps its low 4 bits.
    pub fn set_volume(&mut self, channel: usize, volume: u8)
        requires
            old(self).wf(),
            channel < CHANNELS,
        ensures
            final(self).wf(),
            final(self)@ == old(self)@.with_volume(channel as int, volume),
            final(self).engine() == (EngineState {
                amplitude: old(self).engine().amplitude.update(
                    channel as int,
                    stored_amplitude(volume),
                ),
                ..old(self).engine()
            }),
            final(self).clock() == old(self).clock(),
            final(self).rate() == old(self).rate(),
    {
        psg_set_amplitude(&mut self.sg, channel as u8, volume);
        self.registers = Ghost(self.registers@.with_volume(channel as int, volume));
    }

    /// Sets what a channel puts out: the engine's tone switch of the channel
    /// is off in the modes without tone, its noise switch in those without
    /// noise. The other channels stay as they are.
    pub fn set_output_mode(&mut self, channel: usize, mode: OutputMode)
        requires
            old(self).wf(),
            channel < CHANNELS,
        ensures
            final(self).wf(),
            final(self)@ == old(self)@.with_mode(channel as int, mode),
            final(self).engine() == (EngineState {
                tone_off: old(self).engine().tone_off.update(channel as int, mode.mutes_tone()),
                noise_off: old(self).engine().noise_off.update(channel as int, mode.mutes_noise()),
                ..old(self).engine()
            }),
            final(self).clock() == old(self).clock(),
            final(self).rate() == old(self).rate(),
    {
        psg_set_tone_disabled(&mut self.sg, channel as u8, mode.tone_disabled());
        psg_set_noise_disabled(&mut self.sg, channel as u8, mode.noise_disabled());
        self.registers = Ghost(self.registers@.with_mode(channel as int, mode));
    }

    /// Sets the period of the noise. The engine keeps its low 5 bits, and 1
    /// in place of 0.
    pub fn set_noise_period(&mut self, period: u8)
        requires
            old(self).wf(),
        ensures
            final(self).wf(),
            final(self)@ == old(self)@.with_noise_period(period),
            final(self).engine() == (EngineState {
                noise_period: stored_noise_period(period),
                ..old(self).engine()
            }),
            final(self).clock() == old(self).clock(),
            final(self).rate() == old(self).rate(),
    {
        psg_set_noise_period(&mut self.sg, period);
        self.registers = Ghost(self.registers@.with_noise_period(period));
    }

    /// Renders the next frame and returns it as the engine gives it: its left
    /// and right level, each as the bit pattern of a 64-bit floating-point
    /// number. The registers and what the engine holds of them stay as they
    /// are.
    pub fn render(&mut self) -> (frame: (u64, u64))
        ensures
            frame == old(self).next_frame(),
            final(self)@ == old(self)@,
            final(self).engine() == old(self).engine(),
            final(self).clock() == old(self).clock(),
            final(self).rate() == old(self).rate(),
    {
        psg_render(&mut self.sg)
    }
}

/// A new engine holds what registers that were told nothing say.
pub proof fn lemma_started_holds()
    ensures
        Registers::initial().wf(),
        holds(Registers::initial(), started()),
{
    assert(0u16 & 0x0fff == 0) by (bit_vector);
    assert(0u8 & 0x0f == 0) by (bit_vector);
    assert(0u8 & 0x1f == 0) by (bit_vector);
}

} // verus!
