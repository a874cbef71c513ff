[package]
name = "sensit_audio_cli"
version = "0.1.0"
edition = "2021"
publish = false

[dependencies]
cpal = "=0.15.3"
crossbeam = "=0.8.5"
crossterm = { version = "=0.27.0", default-features = false, features = ["events"] }
derive_more = { version = "=1.0.0", features = ["debug", "deref", "deref_mut"] }
device_query = "=1.1.3"
ffmpeg-next = "=7.1.0"
ringbuf = "=0.4.8"
thiserror = "=1.0.69"
tracing = "=0.1.44"
tracing-subscriber = { version = "=0.3.23", default-features = false, features = ["fmt"] }
walkdir = "=2.5.0"
