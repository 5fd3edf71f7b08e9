//! What a sound generator is told: the registers of its channels, as every
//! generator behind the player understands them.

use vstd::prelude::*;

verus! {

/// The number of channels of a sound generator.
pub const CHANNELS: usize = 3;

/// What a channel puts out.
#[derive(Clone, Copy, Debug, PartialEq, Eq, Structural)]
pub enum OutputMode {
    /// Neither tone nor noise.
    Off,
    /// The tone alone.
    Tone,
    /// The noise alone.
    Noise,
    /// Tone and noise together.
    ToneNoise,
}

/// The registers of a sound generator as the last commands left them.
pub struct Registers {
    /// The tone period of each channel.
    pub tone_period: Seq<u16>,
    /// The volume of each channel.
    pub volume: Seq<u8>,
    /// The output mode of each channel.
    pub mode: Seq<OutputMode>,
    /// The period of the noise that the channels share.
    pub noise_period: u8,
}

impl Registers {
    /// Every channel has its registers.
    pub open spec fn wf(self) -> bool {
        &&& self.tone_period.len() == CHANNELS
        &&& self.volume.len() == CHANNELS
        &&& self.mode.len() == CHANNELS
    }

    /// The registers of a generator that was told nothing yet.
    pub open spec fn initial() -> Registers {
        Registers {
            tone_period: Seq::new(CHANNELS as nat, |i: int| 0u16),
            volume: Seq::new(CHANNELS as nat, |i: int| 0u8),
            mode: Seq::new(CHANNELS as nat, |i: int| OutputMode::Off),
            noise_period: 0,
        }
    }

    /// The registers after the tone period of `channel` was set.
    pub open spec fn with_tone_period(self, channel: int, period: u16) -> Registers {
        Registers { tone_period: self.tone_period.update(channel, period), ..self }
    }

    /// The registers after the volume of `channel` was set.
    pub open spec fn with_volume(self, channel: int, volume: u8) -> Registers {
        Registers { volume: self.volume.update(channel, volume), ..self }
    }

    /// The registers after the output mode of `channel` was set.
    pub open spec fn with_mode(self, channel: int, mode: OutputMode) -> Registers {
        Registers { mode: self.mode.update(channel, mode), ..self }
    }

    /// The registers after the noise period was set.
    pub open spec fn with_noise_period(self, period: u8) -> Registers {
        Registers { noise_period: period, ..self }
    }
}

impl OutputMode {
    /// Whether the mode keeps the tone of a channel out of its output.
    pub open spec fn mutes_tone(self) -> bool {
        self == OutputMode::Noise || self == OutputMode::Off
    }

    /// Whether the mode keeps the noise out of a channel's output.
    pub open spec fn mutes_noise(self) -> bool {
        self == OutputMode::Tone || self == OutputMode::Off
    }

    /// The mode as two bits: bit 0 for the tone, bit 1 for the noise.
    pub open spec fn bits(self) -> u8 {
        match self {
            OutputMode::Off => 0,
            OutputMode::Tone => 1,
            OutputMode::Noise => 2,
            OutputMode::ToneNoise => 3,
        }
    }

    /// Whether the tone of a channel in this mode is switched off.
    pub fn tone_disabled(self) -> (disabled: bool)
        ensures
            disabled == self.mutes_tone(),
    {
        match self {
            OutputMode::Noise | OutputMode::Off => true,
            OutputMode::Tone | OutputMode::ToneNoise => false,
        }
    }

    /// Whether the noise of a channel in this mode is switched off.
    pub fn noise_disabled(self) -> (disabled: bool)
        ensures
            disabled == self.mutes_noise(),
    {
        match self {
            OutputMode::Tone | OutputMode::Off => true,
            OutputMode::Noise | OutputMode::ToneNoise => false,
        }
    }

    /// The mode as two bits: bit 0 set for the tone, bit 1 set for the noise.
    pub fn output_bits(self) -> (bits: u8)
        ensures
            bits == self.bits(),
            bits < 4,
            (bits & 1 == 0) == self.mutes_tone(),
            (bits & 2 == 0) == self.mutes_noise(),
    {
        let bits: u8 = match self {
            OutputMode::Off => 0,
            OutputMode::Tone => 1,
            OutputMode::Noise => 2,
            OutputMode::ToneNoise => 3,
        };
        assert(0u8 & 1 == 0 && 0u8 & 2 == 0 && 1u8 & 1 == 1 && 1u8 & 2 == 0 && 2u8 & 1 == 0 && 2u8
            & 2 == 2 && 3u8 & 1 == 1 && 3u8 & 2 == 2) by (bit_vector);
        bits
    }
}

/// Setting a register twice to the same value leaves what setting it once
/// leaves, and a register of one channel is set without a change to any
/// other channel.
pub proof fn lemma_setters_overwrite(
    registers: Registers,
    channel: int,
    period: u16,
    volume: u8,
    mode: OutputMode,
    noise: u8,
)
    requires
        registers.wf(),
        0 <= channel < CHANNELS,
    ensures
        registers.with_tone_period(channel, period).with_tone_period(channel, period)
            == registers.with_tone_period(channel, period),
        registers.with_volume(channel, volume).with_volume(channel, volume)
            == registers.with_volume(channel, volume),
        registers.with_mode(channel, mode).with_mode(channel, mode) == registers.with_mode(
            channel,
            mode,
        ),
        registers.with_noise_period(noise).with_noise_period(noise) == registers.with_noise_period(
            noise,
        ),
        registers.with_tone_period(channel, period).wf(),
        registers.with_volume(channel, volume).wf(),
        registers.with_mode(channel, mode).wf(),
        registers.with_tone_period(channel, period).tone_period[channel] == period,
        registers.with_volume(channel, volume).volume[channel] == volume,
        registers.with_mode(channel, mode).mode[channel] == mode,
        forall|other: int|
            0 <= other < CHANNELS && other != channel ==> {
                &&& registers.with_tone_period(channel, period).tone_period[other]
                    == registers.tone_period[other]
                &&& registers.with_volume(channel, volume).volume[other] == registers.volume[other]
                &&& registers.with_mode(channel, mode).mode[other] == registers.mode[other]
            },
{
    assert(registers.tone_period.update(channel, period).update(channel, period)
        =~= registers.tone_period.update(channel, period));
    assert(registers.volume.update(channel, volume).update(channel, volume)
        =~= registers.volume.update(channel, volume));
    assert(registers.mode.update(channel, mode).update(channel, mode) =~= registers.mode.update(
        channel,
        mode,
    ));
}

} // verus!
