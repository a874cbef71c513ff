//! The orchestrator: the control loop that owns the playlist, as a machine
//! that is driven from outside.
//!
//! The machine decides; its caller acts. The caller hands in each message
//! that reaches the loop, together with the state that the flag of the
//! stream it holds shows at that moment, and carries out the effects that
//! come back, in their order.

pub mod error;

use crate::player_actor::error::{Load, Play};
use crate::player_actor::{Event, LoadResponse, PrepareResponse};
use crate::playlist::{
    next_cursor, previous_cursor, previous_selects, track_at, Playlist, PlaylistQueue,
};
use crate::stream_state::{may_change, toggled, StreamState, Writer};
use error::{load_error, Player};
use std::path::PathBuf;
use vstd::prelude::*;

verus! {

/// What the one at the controls can ask for.
#[derive(Debug, Clone, Copy, PartialEq, Eq, Structural)]
pub enum Command {
    Quit,
    Next,
    Previous,
    Restart,
    TogglePlay,
    ToggleLoop,
    ToggleAutoplay,
    ToggleShowState,
}

/// The orchestrator's settings.
#[derive(Debug, Clone, Copy, PartialEq, Eq, Structural)]
pub struct JukeboxConfig {
    /// Automatically play the next song.
    pub autoplay: bool,
    /// Show the current player state.
    pub show_state: bool,
    /// The number of songs to show on either side of the current one.
    /// i.e. `0` will only show the current song,
    /// `1` will show the the previous, current, and next song.
    pub playlist_buffer: usize,
}

impl Default for JukeboxConfig {
    fn default() -> (cfg: Self)
        ensures
            cfg == (JukeboxConfig { autoplay: true, show_state: true, playlist_buffer: 1 }),
    {
        Self { autoplay: true, show_state: true, playlist_buffer: 1 }
    }
}

/// What reaches the orchestrator.
#[derive(Debug, PartialEq, Eq)]
pub enum Message {
    /// A command from the input source.
    Input(Command),
    /// The input source is gone.
    InputClosed,
    /// An event from the player worker.
    Player(Event),
    /// The player worker's events will not come any more.
    PlayerClosed,
    /// The worker's answer to [`Effect::Load`].
    Loaded(LoadResponse),
    /// The worker's answer to [`Effect::Prepare`]. The flag of the stream
    /// that comes with a good answer stays with the caller.
    Prepared(PrepareResponse),
    /// A request could not be sent, or its answer never came: the worker is
    /// gone.
    Unanswered,
}

/// The part of the playlist to show, and the settings to show with it.
#[derive(Debug, Clone, Copy, PartialEq, Eq, Structural)]
pub struct Display {
    /// The first position shown.
    pub first: usize,
    /// The last position shown. The position one past the last track stands
    /// for the end of the playlist.
    pub last: usize,
    /// The cursor.
    pub current: usize,
    /// The number of tracks in the playlist.
    pub tracks: usize,
    /// Whether the track under the cursor is set off from the others.
    pub marked: bool,
    pub looping: bool,
    pub autoplay: bool,
}

/// One line of a display.
#[derive(Debug, Clone, Copy, PartialEq, Eq, Structural)]
pub enum Line {
    /// The track at this index of the playlist.
    Track { index: usize, marked: bool },
    /// The end of the playlist.
    End,
    /// The number of tracks in the playlist.
    Total(usize),
    /// The settings.
    Flags { looping: bool, autoplay: bool },
}

impl Display {
    /// The line that stands at `position`.
    pub open spec fn row(self, position: int) -> Line {
        if position == self.tracks {
            Line::End
        } else {
            Line::Track {
                index: position as usize,
                marked: self.marked && position == self.current,
            }
        }
    }

    /// The lines for the positions `first..=last`, top down.
    pub open spec fn rows(self) -> Seq<Line> {
        if self.first <= self.last {
            Seq::new((self.last - self.first + 1) as nat, |i: int| self.row(self.first + i))
        } else {
            seq![]
        }
    }

    /// The lines of the display, top down: one for each position shown, the
    /// number of tracks where the end of the playlist is not among them, and
    /// the settings.
    pub open spec fn all_lines(self) -> Seq<Line> {
        self.rows() + if self.last < self.tracks {
            seq![Line::Total(self.tracks)]
        } else {
            seq![]
        } + seq![Line::Flags { looping: self.looping, autoplay: self.autoplay }]
    }

    /// The lines of the display, top down.
    pub fn lines(&self) -> (lines: Vec<Line>)
        ensures
            lines@ == self.all_lines(),
    {
        let mut lines: Vec<Line> = Vec::new();
        if self.first <= self.last {
            let mut position = self.first;
            loop
                invariant_except_break
                    self.first <= position <= self.last,
                    lines@ == Seq::new(
                        (position - self.first) as nat,
                        |i: int| self.row(self.first + i),
                    ),
                ensures
                    lines@ == self.rows(),
                decreases self.last - position,
            {
                if position == self.tracks {
                    lines.push(Line::End);
                } else {
                    lines.push(
                        Line::Track {
                            index: position,
                            marked: self.marked && position == self.current,
                        },
                    );
                }
                if position == self.last {
                    break ;
                }
                position = position + 1;
            }
        }
        if self.last < self.tracks {
            lines.push(Line::Total(self.tracks));
        }
        lines.push(Line::Flags { looping: self.looping, autoplay: self.autoplay });
        lines
    }
}

/// What the orchestrator's caller is asked to do.
#[derive(Debug, PartialEq, Eq)]
pub enum Effect {
    /// Write this state to the flag of the stream held.
    Write(StreamState),
    /// Ask the worker to load this track, and hand in its answer as
    /// [`Message::Loaded`], or [`Message::Unanswered`].
    Load(PathBuf),
    /// Ask the worker to run the loaded stream, and hand in its answer as
    /// [`Message::Prepared`], or [`Message::Unanswered`].
    Prepare,
    /// Hold the flag that came with the worker's last answer from now on,
    /// in place of the one held so far. A stream that has just been prepared
    /// is paused.
    Adopt,
    /// Show this part of the playlist.
    Show(Display),
    /// Leave the loop, with this result.
    Exit(Result<(), Player>),
}

/// What the orchestrator is waiting for.
#[derive(Debug, Clone, Copy, PartialEq, Eq, Structural)]
pub enum Pending {
    /// The next command or event.
    Idle,
    /// The worker's answer to a request to load. Holds whether the stream is
    /// to play once it is prepared.
    Loading(bool),
    /// The worker's answer to a request to run the stream. Holds whether the
    /// stream is to play once it is prepared.
    Preparing(bool),
    /// Nothing: the orchestrator has left its loop.
    Exited,
}

/// The orchestrator as far as its decisions depend on it.
pub struct Model {
    /// The playlist.
    pub tracks: Seq<PathBuf>,
    /// The playlist's cursor.
    pub cursor: nat,
    /// Whether the playlist is walked in a circle.
    pub looping: bool,
    pub cfg: JukeboxConfig,
    pub pending: Pending,
}

impl Model {
    /// The track under the cursor, if any.
    pub open spec fn selected(self) -> Option<PathBuf> {
        track_at(self.tracks, self.cursor)
    }

    pub open spec fn with_cursor(self, cursor: nat) -> Model {
        Model { cursor, ..self }
    }

    pub open spec fn with_pending(self, pending: Pending) -> Model {
        Model { pending, ..self }
    }

    /// The part of the playlist that is shown: the positions within
    /// `playlist_buffer` of the cursor, as far as the playlist reaches.
    pub open spec fn display(self) -> Display {
        let window = self.cfg.playlist_buffer as nat;
        Display {
            first: if self.cursor >= window {
                (self.cursor - window) as usize
            } else {
                0
            },
            last: if self.cursor + window <= self.tracks.len() {
                (self.cursor + window) as usize
            } else {
                self.tracks.len() as usize
            },
            current: self.cursor as usize,
            tracks: self.tracks.len() as usize,
            marked: window > 0,
            looping: self.looping,
            autoplay: self.cfg.autoplay,
        }
    }

    /// Leaving the loop with `result`.
    pub open spec fn exit(self, result: Result<(), Player>) -> (Model, Seq<Effect>) {
        (self.with_pending(Pending::Exited), seq![Effect::Exit(result)])
    }

    /// Turning to `track`: the stream held, if any, is stopped, and the
    /// worker is asked to load the track. `resume` says whether the new
    /// stream is to play once it is prepared.
    pub open spec fn load(self, track: PathBuf, resume: bool, observed: Option<StreamState>) -> (
        Model,
        Seq<Effect>,
    ) {
        (
            self.with_pending(Pending::Loading(resume)),
            if observed is Some {
                seq![Effect::Write(StreamState::Stop), Effect::Load(track)]
            } else {
                seq![Effect::Load(track)]
            },
        )
    }

    /// Turning to `track` if there is one, and pausing the stream held, if
    /// any, where there is none.
    pub open spec fn turn_to(
        self,
        track: Option<PathBuf>,
        resume: bool,
        observed: Option<StreamState>,
    ) -> (Model, Seq<Effect>) {
        match track {
            Some(track) => self.load(track, resume, observed),
            None => (
                self,
                if observed is Some {
                    seq![Effect::Write(StreamState::Pause)]
                } else {
                    seq![]
                },
            ),
        }
    }

    /// A step forward in the playlist, and turning to the track found there.
    pub open spec fn forward(self, resume: bool, observed: Option<StreamState>) -> (
        Model,
        Seq<Effect>,
    ) {
        let moved = self.with_cursor(next_cursor(self.cursor, self.tracks.len(), self.looping));
        moved.turn_to(moved.selected(), resume, observed)
    }

    /// A step back in the playlist, and turning to the track found there.
    pub open spec fn backward(self, resume: bool, observed: Option<StreamState>) -> (
        Model,
        Seq<Effect>,
    ) {
        let moved = self.with_cursor(
            previous_cursor(self.cursor, self.tracks.len(), self.looping),
        );
        let found = if previous_selects(self.cursor, self.tracks.len(), self.looping) {
            Some(self.tracks[moved.cursor as int])
        } else {
            None
        };
        moved.turn_to(found, resume, observed)
    }

    /// Turning to the track under the cursor once more. The new stream plays
    /// if the one held played. Where no track is under the cursor, the
    /// stream held is paused, and set to play again if it played.
    pub open spec fn restart(self, observed: Option<StreamState>) -> (Model, Seq<Effect>) {
        let played = observed == Some(StreamState::Play);
        match self.selected() {
            Some(track) => self.load(track, played, observed),
            None => (
                self,
                if played {
                    seq![Effect::Write(StreamState::Pause), Effect::Write(StreamState::Play)]
                } else if observed is Some {
                    seq![Effect::Write(StreamState::Pause)]
                } else {
                    seq![]
                },
            ),
        }
    }

    /// What a command does.
    pub open spec fn command(self, command: Command, observed: Option<StreamState>) -> (
        Model,
        Seq<Effect>,
    ) {
        match command {
            Command::Quit => self.exit(Ok(())),
            Command::Next => self.forward(true, observed),
            Command::Previous => self.backward(true, observed),
            Command::Restart => self.restart(observed),
            Command::TogglePlay => (
                self,
                match observed {
                    Some(StreamState::Play) => seq![Effect::Write(StreamState::Pause)],
                    Some(StreamState::Pause) => seq![Effect::Write(StreamState::Play)],
                    _ => seq![],
                },
            ),
            Command::ToggleLoop => (Model { looping: !self.looping, ..self }, seq![]),
            Command::ToggleAutoplay => (
                Model { cfg: JukeboxConfig { autoplay: !self.cfg.autoplay, ..self.cfg }, ..self },
                seq![],
            ),
            Command::ToggleShowState => (
                Model { cfg: JukeboxConfig { show_state: !self.cfg.show_state, ..self.cfg }, ..self },
                seq![],
            ),
        }
    }

    /// What the worker's good answer to a request to run the stream does:
    /// the new stream's flag is the one held from now on, the playlist is
    /// shown if that is asked for, and the stream is set to play if `resume`
    /// says so.
    pub open spec fn prepared(self, resume: bool) -> (Model, Seq<Effect>) {
        (
            self.with_pending(Pending::Idle),
            seq![Effect::Adopt] + if self.cfg.show_state {
                seq![Effect::Show(self.display())]
            } else {
                seq![]
            } + if resume {
                seq![Effect::Write(StreamState::Play)]
            } else {
                seq![]
            },
        )
    }

    /// What the orchestrator does at the start of its loop: it turns to the
    /// track under the cursor, to play it if autoplay is on.
    pub open spec fn start(self) -> (Model, Seq<Effect>) {
        if self.pending == Pending::Idle {
            self.turn_to(self.selected(), self.cfg.autoplay, None)
        } else {
            (self, seq![])
        }
    }

    /// The state that the orchestrator enters on `message`, and the effects
    /// it asks for, where the flag of the stream held shows `observed`
    /// (`None` where no stream is held).
    ///
    /// While the orchestrator waits for an answer of the worker, every other
    /// message is passed over; an answer that it does not wait for is passed
    /// over too. An orchestrator that has left its loop does nothing.
    pub open spec fn react(self, message: Message, observed: Option<StreamState>) -> (
        Model,
        Seq<Effect>,
    ) {
        match (self.pending, message) {
            (Pending::Idle, Message::Input(command)) => self.command(command, observed),
            (Pending::Idle, Message::InputClosed) => self.exit(Err(Player::Channel)),
            (Pending::Idle, Message::Player(Event::Done)) => self.forward(
                self.cfg.autoplay,
                observed,
            ),
            (Pending::Idle, Message::Player(Event::StreamErr(error))) => self.exit(
                Err(Player::Stream(error)),
            ),
            (Pending::Idle, Message::PlayerClosed) => self.exit(Err(Player::Channel)),
            (Pending::Loading(resume), Message::Loaded(Ok(()))) => (
                self.with_pending(Pending::Preparing(resume)),
                seq![Effect::Prepare],
            ),
            (Pending::Loading(_), Message::Loaded(Err(error))) => self.exit(Err(load_error(error))),
            (Pending::Loading(_), Message::Unanswered) => self.exit(Err(Player::Channel)),
            (Pending::Preparing(resume), Message::Prepared(Ok(()))) => self.prepared(resume),
            (Pending::Preparing(_), Message::Prepared(Err(Play::NoStream))) => self.exit(
                Err(Player::NoStream),
            ),
            (Pending::Preparing(_), Message::Unanswered) => self.exit(Err(Player::Channel)),
            _ => (self, seq![]),
        }
    }
}

/// Whether the orchestrator may write `to` over a flag that shows `from`:
/// a write never marks a stream as done, and it leaves the flag as it is or
/// changes it as [`may_change`] allows. One more write is open to it where
/// `resting` holds, that is where the playlist has no track to turn to: the
/// pause in which a stream that was stopped or is done comes to rest.
pub open spec fn may_write(from: StreamState, to: StreamState, resting: bool) -> bool {
    &&& to != StreamState::Done
    &&& {
        ||| to == from
        ||| may_change(Writer::Orchestrator, from, to)
        ||| resting && (from == StreamState::Stop || from == StreamState::Done) && to
            == StreamState::Pause
    }
}

/// What the flag of the stream held shows after `effects`, carried out in
/// their order, where it showed `held` before (`None` where no stream is
/// held). A stream that is adopted is paused.
pub open spec fn flag_after(effects: Seq<Effect>, held: Option<StreamState>) -> Option<StreamState>
    decreases effects.len(),
{
    if effects.len() == 0 {
        held
    } else {
        match effects.last() {
            Effect::Write(to) => Some(to),
            Effect::Adopt => Some(StreamState::prepared()),
            _ => flag_after(effects.drop_last(), held),
        }
    }
}

/// Whether the writes among `effects`, made in their order, keep to what
/// the orchestrator may do to a stream's flag, where the flag of the stream
/// held shows `held` before the first of them (`None` where no stream is
/// held): each write needs a stream and is one that [`may_write`] allows
/// over what the flag shows by then. `resting` says whether the playlist
/// has no track to turn to.
pub open spec fn writes_keep_to_rules(
    effects: Seq<Effect>,
    held: Option<StreamState>,
    resting: bool,
) -> bool
    decreases effects.len(),
{
    if effects.len() == 0 {
        true
    } else {
        match effects[0] {
            Effect::Write(to) => {
                &&& held matches Some(from)
                &&& may_write(from, to, resting)
                &&& writes_keep_to_rules(effects.skip(1), Some(to), resting)
            },
            Effect::Adopt => writes_keep_to_rules(
                effects.skip(1),
                Some(StreamState::prepared()),
                resting,
            ),
            _ => writes_keep_to_rules(effects.skip(1), held, resting),
        }
    }
}

/// Whether `message` asks the orchestrator in state `model` for a track and
/// the playlist has none to turn to: a step forward, by command or at the
/// end of a track, that ends past the last track; a step back from the
/// first track without looping; or a restart with no track under the
/// cursor.
pub open spec fn finds_no_track(model: Model, message: Message) -> bool {
    &&& model.pending == Pending::Idle
    &&& match message {
        Message::Input(Command::Next) | Message::Player(Event::Done) => track_at(
            model.tracks,
            next_cursor(model.cursor, model.tracks.len(), model.looping),
        ) is None,
        Message::Input(Command::Previous) => !previous_selects(
            model.cursor,
            model.tracks.len(),
            model.looping,
        ),
        Message::Input(Command::Restart) => model.selected() is None,
        _ => false,
    }
}

/// Whatever reaches the orchestrator, in whatever state, and whatever the
/// flag of the stream held shows, the writes it asks for keep to the rules.
/// Over a flag that shows stop or done it writes stop, to load the next
/// track, or the pause in which the stream comes to rest where the playlist
/// has no track to turn to, and nothing else.
pub proof fn lemma_orchestrator_keeps_to_rules(
    model: Model,
    message: Message,
    observed: Option<StreamState>,
)
    ensures
        writes_keep_to_rules(
            model.react(message, observed).1,
            observed,
            finds_no_track(model, message),
        ),
        writes_keep_to_rules(model.start().1, None, false),
{
    reveal_with_fuel(writes_keep_to_rules, 4);
    let effects = model.react(message, observed).1;
    assert(writes_keep_to_rules(effects, observed, finds_no_track(model, message))) by {
        if effects.len() > 0 {
            let rest = effects.skip(1);
            if rest.len() > 0 {
                let last = rest.skip(1);
                if last.len() > 0 {
                    assert(last.skip(1).len() == 0);
                }
            }
        }
    }
    let first = model.start().1;
    assert(writes_keep_to_rules(first, None, false)) by {
        if first.len() > 0 {
            assert(first.skip(1).len() == 0);
        }
    }
}

/// A toggle of play and pause leaves the flag at what [`toggled`] says: it
/// flips a playing or paused stream and writes nothing over a stream that
/// was stopped or is done, or where no stream is held. Two toggles in a row
/// leave the flag as it was.
pub proof fn lemma_toggle_play_flips(model: Model, observed: Option<StreamState>)
    requires
        model.pending == Pending::Idle,
    ensures
        ({
            let (after, effects) = model.react(Message::Input(Command::TogglePlay), observed);
            let flag = flag_after(effects, observed);
            let (again, more) = after.react(Message::Input(Command::TogglePlay), flag);
            &&& after == model
            &&& again == model
            &&& flag == match observed {
                Some(state) => Some(toggled(state)),
                None => None,
            }
            &&& effects.len() == 0 <==> flag == observed
            &&& flag_after(more, flag) == observed
        }),
{
    reveal_with_fuel(flag_after, 2);
}

/// The worker runs one stream at a time, so a stream that is held is
/// stopped before the worker is asked to load another: a request to load is
/// the last of the effects, and where a stream is held, the write of stop
/// stands right before it.
pub proof fn lemma_held_stream_is_stopped_before_load(
    model: Model,
    message: Message,
    observed: Option<StreamState>,
    at: int,
)
    requires
        0 <= at < model.react(message, observed).1.len(),
        model.react(message, observed).1[at] is Load,
    ensures
        at == model.react(message, observed).1.len() - 1,
        observed is Some ==> at > 0 && model.react(message, observed).1[at - 1] == Effect::Write(
            StreamState::Stop,
        ),
{
}

/// An orchestrator that has left its loop asks for nothing and stays as it
/// is.
pub proof fn lemma_exited_orchestrator_does_nothing(
    model: Model,
    message: Message,
    observed: Option<StreamState>,
)
    requires
        model.pending == Pending::Exited,
    ensures
        model.react(message, observed) == (model, Seq::<Effect>::empty()),
        model.start() == (model, Seq::<Effect>::empty()),
{
}

/// The orchestrator leaves its loop with [`Effect::Exit`] and in no other
/// way, and that effect is then the only one.
pub proof fn lemma_orchestrator_exits_with_its_result(
    model: Model,
    message: Message,
    observed: Option<StreamState>,
)
    requires
        model.pending != Pending::Exited,
    ensures
        model.react(message, observed).0.pending == Pending::Exited <==> model.react(
            message,
            observed,
        ).1.len() == 1 && model.react(message, observed).1[0] is Exit,
        model.start().0.pending != Pending::Exited,
{
}

/// Whether `effects` hold a write of `state`.
pub open spec fn writes(effects: Seq<Effect>, state: StreamState) -> bool {
    exists|i: int| 0 <= i < effects.len() && effects[i] == Effect::Write(state)
}

/// A restart of a selected track loads that track again, leaves the cursor
/// where it is, and sets the new stream to play if and only if the stream
/// held played when the restart was asked for. `later` and `last` are what
/// the flag of the stream held shows when the worker's answers come in.
pub proof fn lemma_restart_plays_only_what_played(
    model: Model,
    track: PathBuf,
    observed: Option<StreamState>,
    later: Option<StreamState>,
    last: Option<StreamState>,
)
    requires
        model.pending == Pending::Idle,
        model.selected() == Some(track),
    ensures
        ({
            let (loading, asked) = model.react(Message::Input(Command::Restart), observed);
            let (preparing, _) = loading.react(Message::Loaded(Ok(())), later);
            let (ready, effects) = preparing.react(Message::Prepared(Ok(())), last);
            &&& asked.last() == Effect::Load(track)
            &&& ready.cursor == model.cursor
            &&& ready.pending == Pending::Idle
            &&& writes(effects, StreamState::Play) <==> observed == Some(StreamState::Play)
        }),
{
    let (loading, asked) = model.react(Message::Input(Command::Restart), observed);
    let (preparing, _) = loading.react(Message::Loaded(Ok(())), later);
    let (ready, effects) = preparing.react(Message::Prepared(Ok(())), last);
    if observed == Some(StreamState::Play) {
        assert(effects[effects.len() - 1] == Effect::Write(StreamState::Play));
    }
}

/// At the end of a track the orchestrator turns to the next one, and sets it
/// to play if and only if autoplay is on. Where the playlist has no next
/// track, it loads nothing and pauses the stream held.
pub proof fn lemma_done_turns_to_the_next_track(
    model: Model,
    observed: StreamState,
    later: Option<StreamState>,
    last: Option<StreamState>,
)
    requires
        model.pending == Pending::Idle,
    ensures
        ({
            let cursor = next_cursor(model.cursor, model.tracks.len(), model.looping);
            let (loading, asked) = model.react(Message::Player(Event::Done), Some(observed));
            let (preparing, _) = loading.react(Message::Loaded(Ok(())), later);
            let (ready, effects) = preparing.react(Message::Prepared(Ok(())), last);
            &&& loading.cursor == cursor
            &&& match track_at(model.tracks, cursor) {
                Some(track) => {
                    &&& asked == seq![Effect::Write(StreamState::Stop), Effect::Load(track)]
                    &&& ready.pending == Pending::Idle
                    &&& writes(effects, StreamState::Play) <==> model.cfg.autoplay
                },
                None => {
                    &&& asked == seq![Effect::Write(StreamState::Pause)]
                    &&& loading.pending == Pending::Idle
                },
            }
        }),
{
    let cursor = next_cursor(model.cursor, model.tracks.len(), model.looping);
    let (loading, asked) = model.react(Message::Player(Event::Done), Some(observed));
    let (preparing, _) = loading.react(Message::Loaded(Ok(())), later);
    let (ready, effects) = preparing.react(Message::Prepared(Ok(())), last);
    if track_at(model.tracks, cursor) is Some && model.cfg.autoplay {
        assert(effects[effects.len() - 1] == Effect::Write(StreamState::Play));
    }
}

/// The orchestrator.
#[derive(Debug)]
pub struct JukeBox {
    queue: PlaylistQueue,
    cfg: JukeboxConfig,
    pending: Pending,
}

impl View for JukeBox {
    type V = Model;

    closed spec fn view(&self) -> Model {
        Model {
            tracks: self.queue.tracks(),
            cursor: self.queue.cursor(),
            looping: self.queue.looping(),
            cfg: self.cfg,
            pending: self.pending,
        }
    }
}

/// The copy of a track's path, if there is a track.
fn owned(track: Option<&PathBuf>) -> (copy: Option<PathBuf>)
    ensures
        copy == match track {
            Some(path) => Some(*path),
            None => None,
        },
{
    match track {
        Some(path) => Some(path.clone()),
        None => None,
    }
}

/// The orchestrator for `playlist`, with the cursor on the first track,
/// looping on and the default settings; `None` for a playlist without
/// tracks, for which nothing is to be started.
pub fn launch(playlist: Playlist) -> (jukebox: Option<JukeBox>)
    ensures
        jukebox is Some <==> playlist@.len() > 0,
        jukebox matches Some(jukebox) ==> jukebox@ == (Model {
            tracks: playlist@,
            cursor: 0,
            looping: true,
            cfg: JukeboxConfig { autoplay: true, show_state: true, playlist_buffer: 1 },
            pending: Pending::Idle,
        }),
{
    if playlist.is_empty() {
        None
    } else {
        Some(JukeBox::new(PlaylistQueue::new(playlist)))
    }
}

impl JukeBox {
    /// An orchestrator over `queue` with the default settings, waiting for
    /// its start.
    pub fn new(queue: PlaylistQueue) -> (jukebox: Self)
        ensures
            jukebox@ == (Model {
                tracks: queue.tracks(),
                cursor: queue.cursor(),
                looping: queue.looping(),
                cfg: JukeboxConfig { autoplay: true, show_state: true, playlist_buffer: 1 },
                pending: Pending::Idle,
            }),
    {
        Self { queue, cfg: JukeboxConfig::default(), pending: Pending::Idle }
    }

    /// An orchestrator over `queue` with the settings `cfg`, waiting for its
    /// start.
    pub fn with_config(queue: PlaylistQueue, cfg: JukeboxConfig) -> (jukebox: Self)
        ensures
            jukebox@ == (Model {
                tracks: queue.tracks(),
                cursor: queue.cursor(),
                looping: queue.looping(),
                cfg,
                pending: Pending::Idle,
            }),
    {
        Self { queue, cfg, pending: Pending::Idle }
    }

    pub fn queue(&self) -> (queue: &PlaylistQueue)
        ensures
            queue.tracks() == self@.tracks,
            queue.cursor() == self@.cursor,
            queue.looping() == self@.looping,
    {
        &self.queue
    }

    pub fn config(&self) -> (cfg: JukeboxConfig)
        ensures
            cfg == self@.cfg,
    {
        self.cfg
    }

    pub fn pending(&self) -> (pending: Pending)
        ensures
            pending == self@.pending,
    {
        self.pending
    }

    /// Whether the orchestrator has left its loop.
    pub fn has_exited(&self) -> (exited: bool)
        ensures
            exited == (self@.pending == Pending::Exited),
    {
        matches!(self.pending, Pending::Exited)
    }

    /// The part of the playlist to show.
    pub fn display(&self) -> (display: Display)
        ensures
            display == self@.display(),
    {
        let index = self.queue.index();
        let len = self.queue.len();
        let window = self.cfg.playlist_buffer;
        Display {
            first: if index >= window {
                index - window
            } else {
                0
            },
            last: if window <= len - index {
                index + window
            } else {
                len
            },
            current: index,
            tracks: len,
            marked: window > 0,
            looping: self.queue.is_looping(),
            autoplay: self.cfg.autoplay,
        }
    }

    fn exit(&mut self, result: Result<(), Player>) -> (effects: Vec<Effect>)
        ensures
            final(self)@ == old(self)@.exit(result).0,
            effects@ == old(self)@.exit(result).1,
    {
        self.pending = Pending::Exited;
        vec![Effect::Exit(result)]
    }

    fn load(&mut self, track: PathBuf, resume: bool, observed: Option<StreamState>) -> (effects:
        Vec<Effect>)
        ensures
            final(self)@ == old(self)@.load(track, resume, observed).0,
            effects@ == old(self)@.load(track, resume, observed).1,
    {
        self.pending = Pending::Loading(resume);
        if observed.is_some() {
            vec![Effect::Write(StreamState::Stop), Effect::Load(track)]
        } else {
            vec![Effect::Load(track)]
        }
    }

    fn turn_to(&mut self, track: Option<PathBuf>, resume: bool, observed: Option<StreamState>) -> (effects:
        Vec<Effect>)
        ensures
            final(self)@ == old(self)@.turn_to(track, resume, observed).0,
            effects@ == old(self)@.turn_to(track, resume, observed).1,
    {
        match track {
            Some(track) => self.load(track, resume, observed),
            None => {
                if observed.is_some() {
                    vec![Effect::Write(StreamState::Pause)]
                } else {
                    Vec::new()
                }
            },
        }
    }

    fn forward(&mut self, resume: bool, observed: Option<StreamState>) -> (effects: Vec<Effect>)
        ensures
            final(self)@ == old(self)@.forward(resume, observed).0,
            effects@ == old(self)@.forward(resume, observed).1,
    {
        let found = owned(self.queue.next());
        self.turn_to(found, resume, observed)
    }

    fn backward(&mut self, resume: bool, observed: Option<StreamState>) -> (effects: Vec<Effect>)
        ensures
            final(self)@ == old(self)@.backward(resume, observed).0,
            effects@ == old(self)@.backward(resume, observed).1,
    {
        let found = owned(self.queue.next_back());
        self.turn_to(found, resume, observed)
    }

    fn restart(&mut self, observed: Option<StreamState>) -> (effects: Vec<Effect>)
        ensures
            final(self)@ == old(self)@.restart(observed).0,
            effects@ == old(self)@.restart(observed).1,
    {
        let played = match observed {
            Some(state) => state.is_playing(),
            None => false,
        };
        match owned(self.queue.current()) {
            Some(track) => self.load(track, played, observed),
            None => {
                if played {
                    vec![Effect::Write(StreamState::Pause), Effect::Write(StreamState::Play)]
                } else if observed.is_some() {
                    vec![Effect::Write(StreamState::Pause)]
                } else {
                    Vec::new()
                }
            },
        }
    }

    fn command(&mut self, command: Command, observed: Option<StreamState>) -> (effects: Vec<Effect>)
        ensures
            final(self)@ == old(self)@.command(command, observed).0,
            effects@ == old(self)@.command(command, observed).1,
    {
        match command {
            Command::Quit => self.exit(Ok(())),
            Command::Next => self.forward(true, observed),
            Command::Previous => self.backward(true, observed),
            Command::Restart => self.restart(observed),
            Command::TogglePlay => match observed {
                Some(StreamState::Play) => vec![Effect::Write(StreamState::Pause)],
                Some(StreamState::Pause) => vec![Effect::Write(StreamState::Play)],
                _ => Vec::new(),
            },
            Command::ToggleLoop => {
                let looping = self.queue.is_looping();
                self.queue.set_looping(!looping);
                Vec::new()
            },
            Command::ToggleAutoplay => {
                self.cfg.autoplay = !self.cfg.autoplay;
                Vec::new()
            },
            Command::ToggleShowState => {
                self.cfg.show_state = !self.cfg.show_state;
                Vec::new()
            },
        }
    }

    fn prepared(&mut self, resume: bool) -> (effects: Vec<Effect>)
        ensures
            final(self)@ == old(self)@.prepared(resume).0,
            effects@ == old(self)@.prepared(resume).1,
    {
        self.pending = Pending::Idle;
        let mut effects = vec![Effect::Adopt];
        if self.cfg.show_state {
            effects.push(Effect::Show(self.display()));
        }
        if resume {
            effects.push(Effect::Write(StreamState::Play));
        }
        effects
    }

    /// Starts the loop: turns to the track under the cursor, to play it if
    /// autoplay is on.
    pub fn start(&mut self) -> (effects: Vec<Effect>)
        ensures
            final(self)@ == old(self)@.start().0,
            effects@ == old(self)@.start().1,
    {
        if matches!(self.pending, Pending::Idle) {
            let found = owned(self.queue.current());
            let resume = self.cfg.autoplay;
            self.turn_to(found, resume, None)
        } else {
            Vec::new()
        }
    }

    /// Takes a message, and the state that the flag of the stream held shows
    /// at the moment (`None` where no stream is held), and returns the
    /// effects to carry out, in their order.
    pub fn handle(&mut self, message: Message, observed: Option<StreamState>) -> (effects: Vec<
        Effect,
    >)
        ensures
            final(self)@ == old(self)@.react(message, observed).0,
            effects@ == old(self)@.react(message, observed).1,
    {
        match (self.pending, message) {
            (Pending::Idle, Message::Input(command)) => self.command(command, observed),
            (Pending::Idle, Message::InputClosed) => self.exit(Err(Player::Channel)),
            (Pending::Idle, Message::Player(Event::Done)) => {
                let resume = self.cfg.autoplay;
                self.forward(resume, observed)
            },
            (Pending::Idle, Message::Player(Event::StreamErr(error))) => self.exit(
                Err(Player::Stream(error)),
            ),
            (Pending::Idle, Message::PlayerClosed) => self.exit(Err(Player::Channel)),
            (Pending::Loading(resume), Message::Loaded(Ok(()))) => {
                self.pending = Pending::Preparing(resume);
                vec![Effect::Prepare]
            },
            (Pending::Loading(_), Message::Loaded(Err(error))) => self.exit(
                Err(Player::from(error)),
            ),
            (Pending::Loading(_), Message::Unanswered) => self.exit(Err(Player::Channel)),
            (Pending::Preparing(resume), Message::Prepared(Ok(()))) => self.prepared(resume),
            (Pending::Preparing(_), Message::Prepared(Err(Play::NoStream))) => self.exit(
                Err(Player::NoStream),
            ),
            (Pending::Preparing(_), Message::Unanswered) => self.exit(Err(Player::Channel)),
            _ => Vec::new(),
        }
    }
}

} // verus!
