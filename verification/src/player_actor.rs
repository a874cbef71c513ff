//! The player worker: the actor that loads one track at a time and runs its
//! stream, as a machine that is driven from outside.

pub mod error;

use crate::error::AudioStream as StreamError;
use crate::stream_state::StreamState;
use std::path::PathBuf;
use vstd::prelude::*;

verus! {

/// What the worker tells the orchestrator without being asked.
#[derive(Debug, PartialEq, Eq)]
pub enum Event {
    /// Current stream errored.
    StreamErr(StreamError),
    /// Current playing song has finished.
    Done,
}

pub type LoadResponse = Result<(), error::Load>;

pub type PrepareResponse = Result<(), error::Play>;

/// What the worker can be asked for.
#[derive(Debug, PartialEq, Eq)]
pub enum Command {
    /// Replace the stream, if any, by one for this track.
    Load(PathBuf),
    /// Run the loaded stream.
    Prepare,
}

/// What reaches the worker.
#[derive(Debug, PartialEq, Eq)]
pub enum Input {
    /// A request arrived.
    Request(Command),
    /// No request will arrive any more.
    Closed,
    /// How the attempt went to open the track asked for and to set up its
    /// stream.
    Built(LoadResponse),
    /// The stream's decode loop returned this result and left the stream's
    /// flag in this state.
    Ran(Result<(), StreamError>, StreamState),
}

/// What the worker's caller is asked to do next.
#[derive(Debug, PartialEq, Eq)]
pub enum Directive {
    /// Wait for the next request, and hand it in.
    Await,
    /// Open this track and set up a stream for it; where that succeeds the
    /// new stream takes the place of the old. Hand in [`Input::Built`].
    Build(PathBuf),
    /// Answer the request to load with this, then wait for the next request.
    AnswerLoad(LoadResponse),
    /// Answer the request to run a stream with this refusal, then wait for
    /// the next request.
    Refuse(error::Play),
    /// Answer the request to run a stream with the stream's flag, run the
    /// stream's decode loop until it returns, and hand in [`Input::Ran`].
    Run,
    /// Send this event, then wait for the next request.
    Emit(Event),
    /// Leave the loop.
    Exit,
}

/// What the worker is busy with.
#[derive(Debug, Clone, Copy, PartialEq, Eq, Structural)]
pub enum Busy {
    /// Nothing: it waits for a request.
    Idle,
    /// A track is being loaded.
    Building,
    /// A stream is running.
    Running,
    /// Nothing any more: the worker has left its loop.
    Exited,
}

/// The worker as far as its decisions depend on it.
pub struct WorkerState {
    /// Whether a stream is loaded.
    pub loaded: bool,
    pub busy: Busy,
}

/// What the worker emits after its stream's decode loop has returned
/// `result` and left the flag in `state`: the error if it failed, `Done` if
/// the track played to its end, and nothing if the stream was stopped.
pub open spec fn after_run(result: Result<(), StreamError>, state: StreamState) -> Directive {
    match result {
        Err(error) => Directive::Emit(Event::StreamErr(error)),
        Ok(()) => if state == StreamState::Done {
            Directive::Emit(Event::Done)
        } else {
            Directive::Await
        },
    }
}

/// The state that the worker enters from `state` on `input`, and what it
/// asks for.
///
/// A worker that has left its loop stays out. A request is taken up whatever
/// the worker was busy with. A report on work that the worker did not ask
/// for changes nothing.
pub open spec fn next(state: WorkerState, input: Input) -> (WorkerState, Directive) {
    if state.busy == Busy::Exited {
        (state, Directive::Exit)
    } else {
        match input {
            Input::Closed => (WorkerState { loaded: state.loaded, busy: Busy::Exited }, Directive::Exit),
            Input::Request(Command::Load(path)) => (
                WorkerState { loaded: state.loaded, busy: Busy::Building },
                Directive::Build(path),
            ),
            Input::Request(Command::Prepare) => if state.loaded {
                (WorkerState { loaded: true, busy: Busy::Running }, Directive::Run)
            } else {
                (
                    WorkerState { loaded: false, busy: Busy::Idle },
                    Directive::Refuse(error::Play::NoStream),
                )
            },
            Input::Built(response) => if state.busy == Busy::Building {
                (
                    WorkerState { loaded: state.loaded || response is Ok, busy: Busy::Idle },
                    Directive::AnswerLoad(response),
                )
            } else {
                (state, Directive::Await)
            },
            Input::Ran(result, flag) => if state.busy == Busy::Running {
                (WorkerState { loaded: state.loaded, busy: Busy::Idle }, after_run(result, flag))
            } else {
                (state, Directive::Await)
            },
        }
    }
}

/// A track that cannot be loaded does not stop the worker: it answers with
/// the error, keeps the stream it had, and takes up the next request to
/// load.
pub proof fn lemma_worker_serves_after_failed_load(
    state: WorkerState,
    error: error::Load,
    path: PathBuf,
)
    requires
        state.busy == Busy::Building,
    ensures
        next(state, Input::Built(Err(error))) == (
            WorkerState { loaded: state.loaded, busy: Busy::Idle },
            Directive::AnswerLoad(Err(error)),
        ),
        next(next(state, Input::Built(Err(error))).0, Input::Request(Command::Load(path))).1
            == Directive::Build(path),
{
}

/// The worker tells of the end of a track only where its stream has run and
/// left its flag at done, and of an error only where its stream has run and
/// failed.
pub proof fn lemma_worker_emits_only_after_a_run(state: WorkerState, input: Input)
    ensures
        next(state, input).1 == Directive::Emit(Event::Done) <==> state.busy == Busy::Running
            && (input matches Input::Ran(result, flag) && result is Ok && flag
            == StreamState::Done),
        next(state, input).1 matches Directive::Emit(Event::StreamErr(error)) ==> state.busy
            == Busy::Running && (input matches Input::Ran(Err(failure), _) && failure == error),
{
}

/// The player worker.
#[derive(Debug)]
pub struct AudioPlayerActor {
    loaded: bool,
    busy: Busy,
}

impl View for AudioPlayerActor {
    type V = WorkerState;

    closed spec fn view(&self) -> WorkerState {
        WorkerState { loaded: self.loaded, busy: self.busy }
    }
}

impl AudioPlayerActor {
    /// A worker with no stream loaded, waiting for its first request.
    pub fn new() -> (worker: Self)
        ensures
            worker@ == (WorkerState { loaded: false, busy: Busy::Idle }),
    {
        Self { loaded: false, busy: Busy::Idle }
    }

    /// Whether a stream is loaded.
    pub fn has_stream(&self) -> (loaded: bool)
        ensures
            loaded == self@.loaded,
    {
        self.loaded
    }

    pub fn busy(&self) -> (busy: Busy)
        ensures
            busy == self@.busy,
    {
        self.busy
    }

    /// Takes what has reached the worker and says what to do next.
    pub fn step(&mut self, input: Input) -> (directive: Directive)
        ensures
            (final(self)@, directive) == next(old(self)@, input),
    {
        if matches!(self.busy, Busy::Exited) {
            return Directive::Exit;
        }
        match input {
            Input::Closed => {
                self.busy = Busy::Exited;
                Directive::Exit
            },
            Input::Request(Command::Load(path)) => {
                self.busy = Busy::Building;
                Directive::Build(path)
            },
            Input::Request(Command::Prepare) => {
                if self.loaded {
                    self.busy = Busy::Running;
                    Directive::Run
                } else {
                    self.busy = Busy::Idle;
                    Directive::Refuse(error::Play::NoStream)
                }
            },
            Input::Built(response) => {
                if matches!(self.busy, Busy::Building) {
                    self.busy = Busy::Idle;
                    if response.is_ok() {
                        self.loaded = true;
                    }
                    Directive::AnswerLoad(response)
                } else {
                    Directive::Await
                }
            },
            Input::Ran(result, flag) => {
                if matches!(self.busy, Busy::Running) {
                    self.busy = Busy::Idle;
                    match result {
                        Err(error) => Directive::Emit(Event::StreamErr(error)),
                        Ok(()) => {
                            if flag.is_done() {
                                Directive::Emit(Event::Done)
                            } else {
                                Directive::Await
                            }
                        },
                    }
                } else {
                    Directive::Await
                }
            },
        }
    }
}

} // verus!
