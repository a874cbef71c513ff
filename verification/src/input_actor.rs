//! The input source: the symbols by which commands are entered, and when
//! the source listens for them.
//!
//! The source listens for key strokes while its terminal has the focus. It
//! looks for news of the terminal at a fixed interval, and stops when it
//! finds, with no news at hand, that its commands are no longer taken.

use crate::jukebox::Command;
use vstd::prelude::*;

verus! {

pub const CMD_KEY_QUIT: char = 'q';

pub const CMD_KEY_PREVIOUS: char = 'j';

pub const CMD_KEY_NEXT: char = 'k';

pub const CMD_KEY_RESTART: char = 'r';

pub const CMD_KEY_TOGGLE_PLAY: char = 'p';

pub const CMD_KEY_TOGGLE_LOOP: char = 'l';

pub const CMD_KEY_TOGGLE_AUTOPLAY: char = 'a';

pub const CMD_KEY_TOGGLE_SHOW_STATE: char = 's';

/// The symbol that enters `command`.
pub open spec fn key_of(command: Command) -> char {
    match command {
        Command::Quit => CMD_KEY_QUIT,
        Command::Previous => CMD_KEY_PREVIOUS,
        Command::Next => CMD_KEY_NEXT,
        Command::Restart => CMD_KEY_RESTART,
        Command::TogglePlay => CMD_KEY_TOGGLE_PLAY,
        Command::ToggleLoop => CMD_KEY_TOGGLE_LOOP,
        Command::ToggleAutoplay => CMD_KEY_TOGGLE_AUTOPLAY,
        Command::ToggleShowState => CMD_KEY_TOGGLE_SHOW_STATE,
    }
}

/// The command that `code` enters; `None` for a symbol that enters none.
pub fn command_from_code(code: char) -> (command: Option<Command>)
    ensures
        match command {
            Some(entered) => key_of(entered) == code,
            None => forall|entered: Command| #[trigger] key_of(entered) != code,
        },
{
    if code == CMD_KEY_QUIT {
        Some(Command::Quit)
    } else if code == CMD_KEY_PREVIOUS {
        Some(Command::Previous)
    } else if code == CMD_KEY_NEXT {
        Some(Command::Next)
    } else if code == CMD_KEY_RESTART {
        Some(Command::Restart)
    } else if code == CMD_KEY_TOGGLE_PLAY {
        Some(Command::TogglePlay)
    } else if code == CMD_KEY_TOGGLE_LOOP {
        Some(Command::ToggleLoop)
    } else if code == CMD_KEY_TOGGLE_AUTOPLAY {
        Some(Command::ToggleAutoplay)
    } else if code == CMD_KEY_TOGGLE_SHOW_STATE {
        Some(Command::ToggleShowState)
    } else {
        None
    }
}

/// Milliseconds that the input source waits for news of its terminal.
pub const INPUT_POLL_MS: u64 = 500;

/// What the input source learns of its terminal.
#[derive(Debug, Clone, Copy, PartialEq, Eq, Structural)]
pub enum Notice {
    /// The terminal has gained the focus.
    FocusGained,
    /// The terminal has lost the focus.
    FocusLost,
    /// Anything else happened in the terminal.
    Other,
    /// Something happened that could not be read.
    Unreadable,
    /// Nothing happened within the interval.
    Quiet,
}

/// What the caller of the input source is asked to do.
#[derive(Debug, Clone, Copy, PartialEq, Eq, Structural)]
pub enum Reaction {
    /// Start to listen for key strokes, and look for news again.
    Listen,
    /// Stop listening for key strokes, and look for news again.
    Unlisten,
    /// Look for news again.
    Wait,
    /// Leave the loop.
    Stop,
}

/// The input source as far as its decisions depend on it.
pub struct SourceState {
    /// Whether the source listens for key strokes.
    pub listening: bool,
    /// Whether the source has left its loop.
    pub stopped: bool,
}

/// The state that the input source enters from `state` on `notice`, and what
/// it asks for. `closed` says whether a command of the source was not taken
/// because nobody waits for its commands any more.
pub open spec fn react(state: SourceState, notice: Notice, closed: bool) -> (SourceState, Reaction) {
    if state.stopped {
        (state, Reaction::Stop)
    } else {
        match notice {
            Notice::FocusGained => if state.listening {
                (state, Reaction::Wait)
            } else {
                (SourceState { listening: true, ..state }, Reaction::Listen)
            },
            Notice::FocusLost => if state.listening {
                (SourceState { listening: false, ..state }, Reaction::Unlisten)
            } else {
                (state, Reaction::Wait)
            },
            Notice::Quiet => if closed {
                (SourceState { stopped: true, ..state }, Reaction::Stop)
            } else {
                (state, Reaction::Wait)
            },
            _ => (state, Reaction::Wait),
        }
    }
}

/// Whether the terminal has the focus after `notices`, where it had it
/// before if `focused` says so.
pub open spec fn focus_after(focused: bool, notices: Seq<Notice>) -> bool
    decreases notices.len(),
{
    if notices.len() == 0 {
        focused
    } else {
        match notices.last() {
            Notice::FocusGained => true,
            Notice::FocusLost => false,
            _ => focus_after(focused, notices.drop_last()),
        }
    }
}

/// The state of an input source that started out listening, after `notices`
/// during which all its commands were taken.
pub open spec fn source_after(notices: Seq<Notice>) -> SourceState
    decreases notices.len(),
{
    if notices.len() == 0 {
        SourceState { listening: true, stopped: false }
    } else {
        react(source_after(notices.drop_last()), notices.last(), false).0
    }
}

/// While its commands are taken, the input source goes on, and it listens
/// for key strokes exactly while its terminal has the focus.
pub proof fn lemma_source_listens_while_focused(notices: Seq<Notice>)
    ensures
        !source_after(notices).stopped,
        source_after(notices).listening == focus_after(true, notices),
    decreases notices.len(),
{
    if notices.len() > 0 {
        lemma_source_listens_while_focused(notices.drop_last());
    }
}

/// The input source.
#[derive(Debug)]
pub struct InputActor {
    listening: bool,
    stopped: bool,
}

impl View for InputActor {
    type V = SourceState;

    closed spec fn view(&self) -> SourceState {
        SourceState { listening: self.listening, stopped: self.stopped }
    }
}

impl InputActor {
    /// An input source that listens for key strokes.
    pub fn new() -> (source: Self)
        ensures
            source@ == (SourceState { listening: true, stopped: false }),
    {
        Self { listening: true, stopped: false }
    }

    pub fn is_listening(&self) -> (listening: bool)
        ensures
            listening == self@.listening,
    {
        self.listening
    }

    pub fn has_stopped(&self) -> (stopped: bool)
        ensures
            stopped == self@.stopped,
    {
        self.stopped
    }

    /// Takes what the source has learned of its terminal, and whether a
    /// command of the source was not taken, and says what to do next.
    pub fn step(&mut self, notice: Notice, closed: bool) -> (reaction: Reaction)
        ensures
            (final(self)@, reaction) == react(old(self)@, notice, closed),
    {
        if self.stopped {
            return Reaction::Stop;
        }
        match notice {
            Notice::FocusGained => {
                if self.listening {
                    Reaction::Wait
                } else {
                    self.listening = true;
                    Reaction::Listen
                }
            },
            Notice::FocusLost => {
                if self.listening {
                    self.listening = false;
                    Reaction::Unlisten
                } else {
                    Reaction::Wait
                }
            },
            Notice::Quiet => {
                if closed {
                    self.stopped = true;
                    Reaction::Stop
                } else {
                    Reaction::Wait
                }
            },
            _ => Reaction::Wait,
        }
    }
}

} // verus!
