//! Errors that the player worker reports to those who ask it for work.

use crate::error::Media;
use vstd::prelude::*;

verus! {

/// Why a track could not be loaded.
#[derive(Debug, Clone, Copy, PartialEq, Eq, Structural)]
pub enum Load {
    /// The track could not be opened.
    Audio(Media),
    /// No stream could be set up for the opened track.
    Stream(Media),
}

/// Why a stream could not be started.
#[derive(Debug, Clone, Copy, PartialEq, Eq, Structural)]
pub enum Play {
    /// No stream is loaded.
    NoStream,
}

/// A channel was closed.
#[derive(Debug, Clone, Copy, PartialEq, Eq, Structural)]
pub struct Channel;

} // verus!
