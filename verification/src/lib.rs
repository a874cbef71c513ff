//! Building blocks of a command-driven audio player: the playlist queue with
//! its cursor, the sample buffer between the decode loop and the output
//! device, the play / pause / stop flag of a running stream, and the
//! decisions of the three actors that coordinate playback.

pub mod audio_stream;
pub mod error;
pub mod input_actor;
pub mod jukebox;
pub mod player_actor;
pub mod playlist;
pub mod ring;
pub mod stream_state;

pub use audio_stream::{packed_len, AudioStream, AudioStreamBuilder};
pub use playlist::{AudioPlayConfig, Playlist, PlaylistQueue};
pub use ring::write_audio;
pub use stream_state::StreamState;
