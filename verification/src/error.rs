//! Errors reported by the playlist queue and by a running audio stream.

use vstd::prelude::*;

verus! {

/// The index given to [`crate::PlaylistQueue::set_index`] does not name a track.
#[derive(Debug, Clone, Copy, PartialEq, Eq, Structural)]
pub struct InvalidIndex;

/// Why a track could not be opened, set up for playing, decoded or
/// resampled.
#[derive(Debug, Clone, Copy, PartialEq, Eq, Structural)]
pub enum Media {
    /// The track holds no audio stream.
    StreamNotFound,
    /// The output device asks for samples that the player cannot produce.
    UnsupportedFormat,
    /// A sample buffer of the configured size cannot be made.
    BufferSize,
    /// The output device refused the stream.
    Device,
    /// Any other failure of the decode library, by its error code.
    Code(i32),
}

/// Why the output device refused to start or to suspend a stream.
#[derive(Debug, PartialEq, Eq)]
pub enum Device {
    /// The device is gone.
    NotAvailable,
    /// The audio backend failed; the text is its description.
    Backend(String),
}

/// Why a stream stopped before its track had ended.
#[derive(Debug, PartialEq, Eq)]
pub enum AudioStream {
    Resample(Media),
    Decode(Media),
    DeviceNotAvailable,
    Other(String),
}

/// The stream error that stands for a failure of the output device.
pub open spec fn device_error(failure: Device) -> AudioStream {
    match failure {
        Device::NotAvailable => AudioStream::DeviceNotAvailable,
        Device::Backend(description) => AudioStream::Other(description),
    }
}

impl From<Device> for AudioStream {
    fn from(value: Device) -> (error: Self) {
        match value {
            Device::NotAvailable => AudioStream::DeviceNotAvailable,
            Device::Backend(description) => AudioStream::Other(description),
        }
    }
}

impl vstd::std_specs::convert::FromSpecImpl<Device> for AudioStream {
    open spec fn obeys_from_spec() -> bool {
        true
    }

    open spec fn from_spec(value: Device) -> Self {
        device_error(value)
    }
}

} // verus!
