use fbd_sequencer::{DataAccessor, PsgTrait, Sequencer};
use fbdplay::accessor::FileDataAccessor;
use fbdplay::live::{
    device_parameters, live_step, ring_capacity, DeviceParameters, LiveStep, Player,
    BLOCKS_PER_SECOND, DEVICE_CHANNELS, DRAIN_INTERVAL_MS, POLL_INTERVAL_MS,
};
use fbdplay::mode::OutputMode;
use fbdplay::ring::RingBridge;
use fbdplay::wave::{
    wave_format, FileSink, SampleFormat, SinkStep, WaveFormat, FILE_LOOP_LIMIT,
};
use fbdplay::wrapper_psg_lite;

struct Image(FileDataAccessor);

impl DataAccessor for Image {
    fn read_byte(&self, index: u16) -> u8 {
        assert!((index as usize) < self.0.len());
        self.0.read_byte(index)
    }

    fn read_short(&self, index: u16) -> u16 {
        assert!(index as usize + 2 <= self.0.len());
        self.0.read_short(index)
    }
}

struct ConstPsg(i16);

impl PsgTrait for ConstPsg {
    fn sample_rate(&self) -> u32 {
        44_100
    }

    fn clock_rate(&self) -> u32 {
        2_000_000
    }

    fn set_tone_period(&mut self, _channel: usize, _period: u16) {}

    fn set_volume(&mut self, _channel: usize, _volume: u8) {}

    fn set_output_mode(&mut self, _channel: usize, _mode: fbd_sequencer::OutputMode) {}

    fn set_noise_period(&mut self, _period: u8) {}

    fn next_sample_i16(&mut self) -> i16 {
        self.0
    }

    fn next_sample_f32(&mut self) -> f32 {
        self.0 as f32 / i16::MAX as f32
    }
}

struct LitePsg(wrapper_psg_lite::PsgWrapper);

impl PsgTrait for LitePsg {
    fn sample_rate(&self) -> u32 {
        self.0.sample_rate()
    }

    fn clock_rate(&self) -> u32 {
        self.0.clock_rate()
    }

    fn set_tone_period(&mut self, channel: usize, period: u16) {
        assert!(channel < 3 && period <= wrapper_psg_lite::MAX_TONE_PERIOD);
        self.0.set_tone_period(channel, period)
    }

    fn set_volume(&mut self, channel: usize, volume: u8) {
        assert!(channel < 3 && volume <= wrapper_psg_lite::MAX_VOLUME);
        self.0.set_volume(channel, volume)
    }

    fn set_output_mode(&mut self, channel: usize, mode: fbd_sequencer::OutputMode) {
        assert!(channel < 3);
        let mode = match mode {
            fbd_sequencer::OutputMode::None => OutputMode::Off,
            fbd_sequencer::OutputMode::Tone => OutputMode::Tone,
            fbd_sequencer::OutputMode::Noise => OutputMode::Noise,
            fbd_sequencer::OutputMode::ToneNoise => OutputMode::ToneNoise,
        };
        self.0.set_output_mode(channel, mode)
    }

    fn set_noise_period(&mut self, period: u8) {
        assert!(period <= wrapper_psg_lite::MAX_NOISE_PERIOD);
        self.0.set_noise_period(period)
    }

    fn next_sample_i16(&mut self) -> i16 {
        self.0.next_sample_i16()
    }

    fn next_sample_f32(&mut self) -> f32 {
        self.0.next_sample_i16() as f32 / i16::MAX as f32
    }
}

/// A song of three parts: part 0 plays one note for four ticks and ends, the
/// other two end at once.
fn one_note_song() -> Image {
    Image(FileDataAccessor::new(vec![
        0x00, 0x00, 0x00, 0x00, 10, 0x00, 13, 0x00, 14, 0x00, 0x80, 0x04, 0xff, 0xff, 0xff, 0xff,
    ]))
}

/// A song whose only part repeats one note of one tick for ever.
fn looping_song() -> Image {
    Image(FileDataAccessor::new(vec![
        0x00, 0x00, 0x00, 0x00, 10, 0x00, 0x00, 0x00, 0x00, 0x00, 0xe2, 0x00, 0x80, 0x01, 0xe4,
        0xff,
    ]))
}

/// A song without parts.
fn empty_song() -> Image {
    Image(FileDataAccessor::new(vec![0x00, 0x00, 0x00, 0x00, 0x00, 0x00, 0x00, 0x00, 0x00, 0x00]))
}

fn render_all(sink: &mut FileSink<'_>, limit: usize) -> (Vec<i16>, Vec<SinkStep>) {
    let mut samples: Vec<i16> = Vec::new();
    let mut steps: Vec<SinkStep> = Vec::new();
    for _ in 0..limit {
        assert!(sink.total().checked_add(sink.block_size()).is_some());
        let step = sink.pump();
        steps.push(step);
        match step {
            SinkStep::Encode(count) => {
                assert_eq!(sink.pending().len(), count);
                samples.extend_from_slice(sink.pending());
            }
            SinkStep::Finalize => break,
            SinkStep::Done => panic!("the sink went on after the end"),
        }
    }
    (samples, steps)
}

#[test]
fn wave_format_is_mono_16_bit() {
    assert_eq!(
        wave_format(44_100),
        WaveFormat {
            channels: 1,
            sample_rate: 44_100,
            bits_per_sample: 16,
            sample_format: SampleFormat::Int
        }
    );
    assert_eq!(wave_format(0).sample_rate, 0);
    assert_eq!(FILE_LOOP_LIMIT, 1);
}

#[test]
fn sink_steps_follow_the_blocks() {
    let image = empty_song();
    let sequencer = Sequencer::new(&image);
    let mut psg = ConstPsg(7);
    let mut sink = FileSink::new(sequencer.play(&mut psg), 10);
    assert_eq!(sink.block_size(), 10);
    assert_eq!(sink.total(), 0);
    assert!(!sink.is_finished());
    assert_eq!(sink.pending().len(), 0);
    assert_eq!(sink.absorb(5), SinkStep::Encode(5));
    assert_eq!(sink.total(), 5);
    assert_eq!(sink.pending().len(), 5);
    assert_eq!(sink.absorb(10), SinkStep::Encode(10));
    assert_eq!(sink.total(), 15);
    assert_eq!(sink.pending().len(), 10);
    assert_eq!(sink.absorb(0), SinkStep::Finalize);
    assert!(sink.is_finished());
    assert_eq!(sink.total(), 15);
    assert_eq!(sink.pending().len(), 0);
    assert_eq!(sink.absorb(4), SinkStep::Done);
    assert_eq!(sink.absorb(0), SinkStep::Done);
    assert!(sink.is_finished());
    assert_eq!(sink.total(), 15);
    assert_eq!(sink.pending().len(), 0);
}

#[test]
fn one_note_song_renders_its_timeline() {
    let image = one_note_song();
    let sequencer = Sequencer::new(&image);
    let mut psg = LitePsg(wrapper_psg_lite::PsgWrapper::new(2_000_000, 44_100));
    let mut sink = FileSink::new(sequencer.play(&mut psg), 44_100);
    let (samples, steps) = render_all(&mut sink, 10);
    assert_eq!(steps, vec![SinkStep::Encode(3678), SinkStep::Finalize]);
    assert_eq!(samples.len(), 735 + 736 + 736 + 735 + 736);
    assert_eq!(sink.total(), 3678);

    let format = wave_format(44_100);
    let spec = hound::WavSpec {
        channels: format.channels,
        sample_rate: format.sample_rate,
        bits_per_sample: format.bits_per_sample,
        sample_format: hound::SampleFormat::Int,
    };
    let mut file = std::io::Cursor::new(Vec::<u8>::new());
    let mut writer = hound::WavWriter::new(&mut file, spec).unwrap();
    for sample in &samples {
        writer.write_sample(*sample).unwrap();
    }
    assert_eq!(writer.len(), 3678);
    writer.finalize().unwrap();
    let bytes = file.into_inner();
    assert_eq!(bytes.len(), 44 + 2 * 3678);
    assert_eq!(&bytes[40..44], &(2u32 * 3678).to_le_bytes());
    let reader = hound::WavReader::new(std::io::Cursor::new(bytes)).unwrap();
    assert_eq!(reader.len(), 3678);
    let decoded: Vec<i16> = reader.into_samples::<i16>().map(|sample| sample.unwrap()).collect();
    assert_eq!(decoded, samples);
}

#[test]
fn one_note_song_comes_in_blocks() {
    let image = one_note_song();
    let sequencer = Sequencer::new(&image);
    let mut psg = ConstPsg(321);
    let mut sink = FileSink::new(sequencer.play(&mut psg), 1000);
    let (samples, steps) = render_all(&mut sink, 10);
    assert_eq!(
        steps,
        vec![
            SinkStep::Encode(1000),
            SinkStep::Encode(1000),
            SinkStep::Encode(1000),
            SinkStep::Encode(678),
            SinkStep::Finalize
        ]
    );
    assert_eq!(samples, vec![321i16; 3678]);
}

#[test]
fn looping_song_is_rendered_once() {
    let image = looping_song();
    let sequencer = Sequencer::new(&image);
    let mut psg = ConstPsg(5);
    let mut sink = FileSink::new(sequencer.play(&mut psg), 1000);
    let (samples, steps) = render_all(&mut sink, 100);
    assert_eq!(samples.len(), 735 + 736 + 736);
    assert_eq!(
        steps,
        vec![
            SinkStep::Encode(1000),
            SinkStep::Encode(1000),
            SinkStep::Encode(207),
            SinkStep::Finalize
        ]
    );
    assert!(sink.is_finished());
}

#[test]
fn finalize_is_asked_for_once() {
    let image = one_note_song();
    let sequencer = Sequencer::new(&image);
    let mut psg = ConstPsg(1);
    let mut sink = FileSink::new(sequencer.play(&mut psg), 4096);
    let mut steps: Vec<SinkStep> = Vec::new();
    for _ in 0..12 {
        steps.push(sink.pump());
    }
    assert_eq!(steps[0], SinkStep::Encode(3678));
    assert_eq!(steps[1], SinkStep::Finalize);
    assert!(steps[2..].iter().all(|step| *step == SinkStep::Done));
    assert_eq!(steps.iter().filter(|step| **step == SinkStep::Finalize).count(), 1);
    assert_eq!(sink.total(), 3678);
    assert_eq!(sink.pending().len(), 0);
}

#[test]
fn sink_without_block_finalizes_at_once() {
    let image = one_note_song();
    let sequencer = Sequencer::new(&image);
    let mut psg = ConstPsg(1);
    let mut sink = FileSink::new(sequencer.play(&mut psg), 0);
    assert_eq!(sink.block_size(), 0);
    assert_eq!(sink.pump(), SinkStep::Finalize);
    assert_eq!(sink.pump(), SinkStep::Done);
    assert_eq!(sink.total(), 0);
}

#[test]
fn live_numbers() {
    assert_eq!(BLOCKS_PER_SECOND, 20);
    assert_eq!(ring_capacity(44_100), 2205);
    assert_eq!(ring_capacity(48_000), 2400);
    assert_eq!(ring_capacity(19), 0);
    assert_eq!(ring_capacity(0), 0);
    assert_eq!(ring_capacity(u32::MAX), 214_748_364);
    assert_eq!(
        device_parameters(44_100),
        DeviceParameters { channels_count: 1, sample_rate: 44_100, channel_sample_count: 2205 }
    );
    assert_eq!(DEVICE_CHANNELS, 1);
    assert_eq!(live_step(true), LiveStep::Poll(25));
    assert_eq!(live_step(false), LiveStep::Drain(500));
    assert_eq!(POLL_INTERVAL_MS, 25);
    assert_eq!(DRAIN_INTERVAL_MS, 500);
}

#[test]
fn player_fills_the_bridge_at_once() {
    let image = looping_song();
    let sequencer = Sequencer::new(&image);
    let mut psg = ConstPsg(1234);
    let (producer, mut consumer) = RingBridge::new(ring_capacity(44_100)).split();
    let player = Player::new(sequencer.play(&mut psg), producer);
    assert_eq!(player.sample_count(), 2205);
    let mut out = vec![0i16; 2205];
    assert_eq!(consumer.fill_output(&mut out), 2205);
    assert_eq!(out, vec![1234i16; 2205]);
}

#[test]
fn steady_producer_leaves_no_gaps() {
    let image = looping_song();
    let sequencer = Sequencer::new(&image);
    let mut psg = ConstPsg(-77);
    let (producer, mut consumer) = RingBridge::new(ring_capacity(44_100)).split();
    let mut player = Player::new(sequencer.play(&mut psg), producer);
    let mut out = vec![0i16; 1000];
    let mut played: usize = 0;
    for _ in 0..50 {
        assert_eq!(consumer.fill_output(&mut out), 1000);
        assert!(out.iter().all(|sample| *sample == -77));
        played += 1000;
        let before = player.sample_count();
        assert!(player.fill_buffer());
        assert!(player.sample_count() >= before);
        assert_eq!(player.sample_count(), played + 2205);
    }
}

#[test]
fn starved_consumer_plays_silence() {
    let image = looping_song();
    let sequencer = Sequencer::new(&image);
    let mut psg = ConstPsg(9);
    let (producer, mut consumer) = RingBridge::new(100).split();
    let player = Player::new(sequencer.play(&mut psg), producer);
    assert_eq!(player.sample_count(), 100);
    let mut out = vec![1i16; 160];
    assert_eq!(consumer.fill_output(&mut out), 100);
    assert_eq!(&out[..100], &vec![9i16; 100][..]);
    assert_eq!(&out[100..], &vec![0i16; 60][..]);
}

#[test]
fn player_stops_when_the_song_ends() {
    let image = one_note_song();
    let sequencer = Sequencer::new(&image);
    let mut psg = ConstPsg(42);
    let (producer, mut consumer) = RingBridge::new(ring_capacity(44_100)).split();
    let mut player = Player::new(sequencer.play(&mut psg), producer);
    assert_eq!(player.sample_count(), 2205);
    assert!(player.fill_buffer());
    assert_eq!(player.sample_count(), 2205);
    let mut out = vec![0i16; 2205];
    assert_eq!(consumer.fill_output(&mut out), 2205);
    assert!(player.fill_buffer());
    assert_eq!(player.sample_count(), 3678);
    assert!(!player.fill_buffer());
    assert!(!player.fill_buffer());
    assert_eq!(player.sample_count(), 3678);
    assert_eq!(consumer.fill_output(&mut out), 1473);
    assert_eq!(&out[..1473], &vec![42i16; 1473][..]);
    assert_eq!(&out[1473..], &vec![0i16; 732][..]);
}

#[test]
fn player_of_an_empty_song_renders_nothing() {
    let image = empty_song();
    let sequencer = Sequencer::new(&image);
    let mut psg = ConstPsg(42);
    let (producer, mut consumer) = RingBridge::new(64).split();
    let mut player = Player::new(sequencer.play(&mut psg), producer);
    assert_eq!(player.sample_count(), 0);
    assert!(!player.fill_buffer());
    let mut out = [3i16; 8];
    assert_eq!(consumer.fill_output(&mut out), 0);
    assert_eq!(out, [0i16; 8]);
}

#[test]
fn player_hands_its_block_over() {
    let image = empty_song();
    let sequencer = Sequencer::new(&image);
    let mut psg = ConstPsg(42);
    let (producer, mut consumer) = RingBridge::new(64).split();
    let mut player = Player::new(sequencer.play(&mut psg), producer);
    assert_eq!(player.sample_count(), 0);
    player.hand_over(0);
    assert_eq!(player.sample_count(), 0);
    player.hand_over(5);
    assert_eq!(player.sample_count(), 5);
    let mut out = [7i16; 8];
    assert_eq!(consumer.fill_output(&mut out), 5);
    assert_eq!(out, [0i16; 8]);
    player.hand_over(64);
    assert_eq!(player.sample_count(), 69);
}

#[test]
fn sink_pends_what_the_session_rendered() {
    let image = one_note_song();
    let sequencer = Sequencer::new(&image);
    let mut psg = ConstPsg(321);
    let mut sink = FileSink::new(sequencer.play(&mut psg), 500);
    let mut rendered: Vec<i16> = Vec::new();
    while let SinkStep::Encode(count) = sink.pump() {
        assert_eq!(sink.pending().len(), count);
        rendered.extend_from_slice(sink.pending());
    }
    let again = one_note_song();
    let sequencer = Sequencer::new(&again);
    let mut psg = ConstPsg(321);
    let mut session = sequencer.play(&mut psg);
    session.set_max_loop_count(Some(1));
    let mut expected = vec![0i16; 4000];
    let count = session.next_samples_i16(&mut expected);
    assert_eq!(count, 3678);
    assert_eq!(rendered, expected[..count].to_vec());
    assert!(rendered.iter().any(|sample| *sample != 0));
}
