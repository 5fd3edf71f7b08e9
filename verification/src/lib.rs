//! A player for songs of a three-channel sound generator.
//!
//! A sequencer renders a song through a sound generator into samples. This
//! library holds what lies between those samples and their two ways out:
//! the bridge and the producer of a live playback ([`ring`], [`live`]), and
//! the sink that renders a song into a waveform file ([`wave`]). Beside them
//! stand the adapters over the two generator engines ([`wrapper_psg`],
//! [`wrapper_psg_lite`]), the registers they are told ([`mode`]), the session
//! that the samples come from ([`session`]) and the image of a song file
//! ([`accessor`]).

pub mod accessor;
pub mod live;
pub mod mode;
pub mod ring;
pub mod session;
pub mod wave;
pub mod wrapper_psg;
pub mod wrapper_psg_lite;
