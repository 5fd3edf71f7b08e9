[package]
name = "fbdplay"
version = "0.1.0"
edition = "2021"
publish = false

[dependencies]
byteorder = "*"
clap = { version = "*", features = ["derive"] }
direct_ring_buffer = "*"
fbd_sequencer = "*"
hound = "*"
psg = "*"
psg_lite = "*"
tinyaudio = "*"
