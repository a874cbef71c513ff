//! The flag through which a stream is played, paused and stopped.

use vstd::prelude::*;

verus! {

/// What a stream is doing, or has been told to do.
#[derive(Copy, Clone, Debug, PartialEq, Eq, Structural)]
pub enum StreamState {
    Play,
    Pause,
    /// Stream stopped before end.
    Stop,
    /// Stream played all the way through.
    Done,
}

impl StreamState {
    /// The state of a stream that has just been set up: it is paused.
    pub open spec fn prepared() -> StreamState {
        StreamState::Pause
    }

    /// The state of a stream that has just been set up.
    pub fn new() -> (state: Self)
        ensures
            state == StreamState::prepared(),
    {
        StreamState::Pause
    }

    pub fn is_paused(&self) -> (paused: bool)
        ensures
            paused == (*self == StreamState::Pause),
    {
        matches!(self, StreamState::Pause)
    }

    pub fn is_playing(&self) -> (playing: bool)
        ensures
            playing == (*self == StreamState::Play),
    {
        matches!(self, StreamState::Play)
    }

    pub fn is_stopped(&self) -> (stopped: bool)
        ensures
            stopped == (*self == StreamState::Stop),
    {
        matches!(self, StreamState::Stop)
    }

    pub fn is_done(&self) -> (done: bool)
        ensures
            done == (*self == StreamState::Done),
    {
        matches!(self, StreamState::Done)
    }
}

/// Who writes a stream's state.
#[derive(Copy, Clone, Debug, PartialEq, Eq, Structural)]
pub enum Writer {
    /// The control loop that owns the playlist.
    Orchestrator,
    /// The decode loop of the stream itself.
    Engine,
}

/// The changes of state that each writer may make: the orchestrator turns
/// pause into play and play into pause, and stops a stream whatever it does;
/// the engine marks a playing or paused stream as done.
pub open spec fn may_change(writer: Writer, from: StreamState, to: StreamState) -> bool {
    match writer {
        Writer::Orchestrator => {
            ||| to == StreamState::Stop
            ||| from == StreamState::Pause && to == StreamState::Play
            ||| from == StreamState::Play && to == StreamState::Pause
        },
        Writer::Engine => {
            &&& to == StreamState::Done
            &&& from == StreamState::Play || from == StreamState::Pause
        },
    }
}

/// The state of a stream after a toggle of play and pause: a playing stream
/// is paused and a paused stream plays; a stream that was stopped or is done
/// stays as it is.
pub open spec fn toggled(observed: StreamState) -> StreamState {
    match observed {
        StreamState::Play => StreamState::Pause,
        StreamState::Pause => StreamState::Play,
        _ => observed,
    }
}

/// A toggle changes a stream only as the orchestrator may, and two toggles
/// in a row leave every stream as it was.
pub proof fn lemma_toggle_twice_restores(state: StreamState)
    ensures
        toggled(state) == state || may_change(Writer::Orchestrator, state, toggled(state)),
        toggled(state) == state <==> state == StreamState::Stop || state == StreamState::Done,
        toggled(toggled(state)) == state,
{
}

} // verus!
