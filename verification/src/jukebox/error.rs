//! Why the orchestrator leaves its loop.

use crate::error::{AudioStream, Media};
use crate::player_actor::error::{Channel, Load, Play};
use vstd::prelude::*;

verus! {

/// Why the orchestrator leaves its loop.
#[derive(Debug, PartialEq, Eq)]
pub enum Player {
    /// A channel to another actor is closed.
    Channel,
    /// The worker was asked to run a stream and had none.
    NoStream,
    /// A track could not be loaded.
    Load(Media),
    /// A running stream failed.
    Stream(AudioStream),
}

/// The error that stands for a failed load: what went wrong, whether in
/// opening the track or in setting up its stream.
pub open spec fn load_error(value: Load) -> Player {
    match value {
        Load::Audio(error) => Player::Load(error),
        Load::Stream(error) => Player::Load(error),
    }
}

impl From<Load> for Player {
    fn from(value: Load) -> (error: Self) {
        match value {
            Load::Audio(error) => Player::Load(error),
            Load::Stream(error) => Player::Load(error),
        }
    }
}

impl vstd::std_specs::convert::FromSpecImpl<Load> for Player {
    open spec fn obeys_from_spec() -> bool {
        true
    }

    open spec fn from_spec(value: Load) -> Self {
        load_error(value)
    }
}

impl From<Play> for Player {
    fn from(value: Play) -> (error: Self) {
        match value {
            Play::NoStream => Player::NoStream,
        }
    }
}

impl vstd::std_specs::convert::FromSpecImpl<Play> for Player {
    open spec fn obeys_from_spec() -> bool {
        true
    }

    open spec fn from_spec(value: Play) -> Self {
        Player::NoStream
    }
}

impl From<Channel> for Player {
    fn from(value: Channel) -> (error: Self) {
        Player::Channel
    }
}

impl vstd::std_specs::convert::FromSpecImpl<Channel> for Player {
    open spec fn obeys_from_spec() -> bool {
        true
    }

    open spec fn from_spec(value: Channel) -> Self {
        Player::Channel
    }
}

} // verus!
