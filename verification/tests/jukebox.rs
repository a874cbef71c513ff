use sensit_audio_cli::error::{AudioStream as StreamError, Media};
use sensit_audio_cli::jukebox::error::Player;
use sensit_audio_cli::jukebox::{
    launch, Command, Display, Effect, JukeBox, JukeboxConfig, Line, Message, Pending,
};
use sensit_audio_cli::player_actor::error::{Channel, Load, Play};
use sensit_audio_cli::player_actor::Event;
use sensit_audio_cli::{Playlist, PlaylistQueue, StreamState};
use std::path::PathBuf;

fn track(index: usize) -> PathBuf {
    PathBuf::from(format!("track-{index}.flac"))
}

fn queue_of(len: usize) -> PlaylistQueue {
    PlaylistQueue::new(Playlist::new((0..len).map(track).collect()))
}

/// The flag of the stream that the caller of an orchestrator holds.
struct Held {
    flag: Option<StreamState>,
    loads: Vec<PathBuf>,
    shown: Vec<Display>,
    exit: Option<Result<(), Player>>,
}

impl Held {
    fn new() -> Self {
        Self { flag: None, loads: Vec::new(), shown: Vec::new(), exit: None }
    }

    /// Carries out `effects` with a worker that loads and prepares every track.
    fn carry_out(&mut self, jukebox: &mut JukeBox, effects: Vec<Effect>) {
        let mut answer = None;
        for effect in effects {
            assert!(answer.is_none());
            match effect {
                Effect::Write(state) => {
                    assert!(self.flag.is_some());
                    self.flag = Some(state);
                }
                Effect::Load(path) => {
                    self.loads.push(path);
                    answer = Some(Message::Loaded(Ok(())));
                }
                Effect::Prepare => answer = Some(Message::Prepared(Ok(()))),
                Effect::Adopt => self.flag = Some(StreamState::Pause),
                Effect::Show(display) => self.shown.push(display),
                Effect::Exit(result) => self.exit = Some(result),
            }
        }
        if let Some(message) = answer {
            let effects = jukebox.handle(message, self.flag);
            self.carry_out(jukebox, effects);
        }
    }

    fn start(&mut self, jukebox: &mut JukeBox) {
        let effects = jukebox.start();
        self.carry_out(jukebox, effects);
    }

    fn send(&mut self, jukebox: &mut JukeBox, message: Message) {
        let effects = jukebox.handle(message, self.flag);
        self.carry_out(jukebox, effects);
    }
}

fn started(len: usize, cfg: JukeboxConfig, looping: bool) -> (JukeBox, Held) {
    let mut queue = queue_of(len);
    queue.set_looping(looping);
    let mut jukebox = JukeBox::with_config(queue, cfg);
    let mut held = Held::new();
    held.start(&mut jukebox);
    (jukebox, held)
}

fn quiet(autoplay: bool) -> JukeboxConfig {
    JukeboxConfig { autoplay, show_state: false, playlist_buffer: 1 }
}

#[test]
fn settings_default_to_autoplay_and_a_shown_window_of_one() {
    assert_eq!(
        JukeboxConfig::default(),
        JukeboxConfig { autoplay: true, show_state: true, playlist_buffer: 1 }
    );
    let jukebox = JukeBox::new(queue_of(2));
    assert_eq!(jukebox.config(), JukeboxConfig::default());
    assert_eq!(jukebox.pending(), Pending::Idle);
    assert!(!jukebox.has_exited());
    assert_eq!(jukebox.queue().index(), 0);
}

#[test]
fn empty_playlist_starts_nothing() {
    assert!(launch(Playlist::new(Vec::new())).is_none());
    let jukebox = launch(Playlist::new(vec![track(0)])).expect("a track is there");
    assert_eq!(jukebox.queue().len(), 1);
    assert_eq!(jukebox.queue().index(), 0);
    assert!(jukebox.queue().is_looping());
    assert_eq!(jukebox.config(), JukeboxConfig::default());
    assert_eq!(jukebox.pending(), Pending::Idle);
}

#[test]
fn three_tracks_without_looping_play_through_and_settle_paused() {
    let mut queue = queue_of(3);
    queue.set_looping(false);
    let mut jukebox = JukeBox::new(queue);
    assert!(jukebox.config().autoplay);

    assert_eq!(jukebox.start(), vec![Effect::Load(track(0))]);
    assert_eq!(jukebox.pending(), Pending::Loading(true));
    assert_eq!(jukebox.handle(Message::Loaded(Ok(())), None), vec![Effect::Prepare]);
    assert_eq!(jukebox.pending(), Pending::Preparing(true));
    let effects = jukebox.handle(Message::Prepared(Ok(())), None);
    assert_eq!(effects.len(), 3);
    assert_eq!(effects[0], Effect::Adopt);
    assert!(matches!(effects[1], Effect::Show(_)));
    assert_eq!(effects[2], Effect::Write(StreamState::Play));
    assert_eq!(jukebox.pending(), Pending::Idle);
    assert_eq!(jukebox.queue().index(), 0);

    let effects = jukebox.handle(Message::Player(Event::Done), Some(StreamState::Done));
    assert_eq!(effects, vec![Effect::Write(StreamState::Stop), Effect::Load(track(1))]);
    assert_eq!(jukebox.queue().index(), 1);
    assert_eq!(
        jukebox.handle(Message::Loaded(Ok(())), Some(StreamState::Stop)),
        vec![Effect::Prepare]
    );
    let effects = jukebox.handle(Message::Prepared(Ok(())), Some(StreamState::Stop));
    assert_eq!(effects[0], Effect::Adopt);
    assert_eq!(effects[2], Effect::Write(StreamState::Play));

    let mut held = Held::new();
    held.flag = Some(StreamState::Done);
    held.send(&mut jukebox, Message::Player(Event::Done));
    assert_eq!(jukebox.queue().index(), 2);
    assert_eq!(held.flag, Some(StreamState::Play));
    assert_eq!(held.loads, vec![track(2)]);

    held.flag = Some(StreamState::Done);
    let effects = jukebox.handle(Message::Player(Event::Done), held.flag);
    assert_eq!(effects, vec![Effect::Write(StreamState::Pause)]);
    assert_eq!(jukebox.queue().index(), 3);
    assert_eq!(jukebox.queue().current(), None);
    assert_eq!(jukebox.pending(), Pending::Idle);
    assert!(!jukebox.has_exited());

    let effects = jukebox.handle(Message::Input(Command::Next), Some(StreamState::Pause));
    assert_eq!(effects, vec![Effect::Write(StreamState::Pause)]);
    assert_eq!(jukebox.queue().index(), 3);
}

#[test]
fn toggle_play_twice_returns_to_playing() {
    let (mut jukebox, mut held) = started(3, quiet(true), true);
    assert_eq!(held.flag, Some(StreamState::Play));
    assert_eq!(
        jukebox.handle(Message::Input(Command::TogglePlay), Some(StreamState::Play)),
        vec![Effect::Write(StreamState::Pause)]
    );
    assert_eq!(
        jukebox.handle(Message::Input(Command::TogglePlay), Some(StreamState::Pause)),
        vec![Effect::Write(StreamState::Play)]
    );
    held.send(&mut jukebox, Message::Input(Command::TogglePlay));
    assert_eq!(held.flag, Some(StreamState::Pause));
    held.send(&mut jukebox, Message::Input(Command::TogglePlay));
    assert_eq!(held.flag, Some(StreamState::Play));
    assert_eq!(jukebox.queue().index(), 0);
    assert_eq!(held.loads, vec![track(0)]);
}

#[test]
fn restart_while_paused_stays_paused() {
    let (mut jukebox, mut held) = started(3, quiet(true), true);
    held.send(&mut jukebox, Message::Input(Command::Next));
    held.send(&mut jukebox, Message::Input(Command::TogglePlay));
    assert_eq!(held.flag, Some(StreamState::Pause));
    assert_eq!(jukebox.queue().index(), 1);

    let effects = jukebox.handle(Message::Input(Command::Restart), held.flag);
    assert_eq!(effects, vec![Effect::Write(StreamState::Stop), Effect::Load(track(1))]);
    assert_eq!(jukebox.pending(), Pending::Loading(false));
    assert_eq!(
        jukebox.handle(Message::Loaded(Ok(())), Some(StreamState::Stop)),
        vec![Effect::Prepare]
    );
    assert_eq!(jukebox.pending(), Pending::Preparing(false));
    assert_eq!(
        jukebox.handle(Message::Prepared(Ok(())), Some(StreamState::Stop)),
        vec![Effect::Adopt]
    );
    assert_eq!(jukebox.pending(), Pending::Idle);
    assert_eq!(jukebox.queue().index(), 1);

    held.send(&mut jukebox, Message::Input(Command::Restart));
    assert_eq!(held.flag, Some(StreamState::Pause));
    assert_eq!(jukebox.queue().index(), 1);
    assert_eq!(held.loads, vec![track(0), track(1), track(1)]);
}

#[test]
fn restart_while_playing_plays_again() {
    let (mut jukebox, mut held) = started(3, quiet(true), true);
    assert_eq!(held.flag, Some(StreamState::Play));
    let effects = jukebox.handle(Message::Input(Command::Restart), held.flag);
    assert_eq!(effects, vec![Effect::Write(StreamState::Stop), Effect::Load(track(0))]);
    assert_eq!(jukebox.pending(), Pending::Loading(true));
    held.carry_out(&mut jukebox, effects);
    assert_eq!(held.flag, Some(StreamState::Play));
    assert_eq!(jukebox.queue().index(), 0);
    assert_eq!(held.loads, vec![track(0), track(0)]);
}

#[test]
fn restart_with_nothing_selected_loads_nothing() {
    let (mut jukebox, mut held) = started(1, quiet(true), false);
    held.flag = Some(StreamState::Done);
    held.send(&mut jukebox, Message::Player(Event::Done));
    assert_eq!(jukebox.queue().index(), 1);
    assert_eq!(held.flag, Some(StreamState::Pause));
    assert_eq!(
        jukebox.handle(Message::Input(Command::Restart), Some(StreamState::Pause)),
        vec![Effect::Write(StreamState::Pause)]
    );
    assert_eq!(
        jukebox.handle(Message::Input(Command::Restart), Some(StreamState::Play)),
        vec![Effect::Write(StreamState::Pause), Effect::Write(StreamState::Play)]
    );
    assert_eq!(jukebox.pending(), Pending::Idle);
    assert_eq!(held.loads, vec![track(0)]);
}

#[test]
fn start_without_autoplay_leaves_the_stream_paused() {
    let (jukebox, held) = started(2, quiet(false), true);
    assert_eq!(held.flag, Some(StreamState::Pause));
    assert_eq!(held.loads, vec![track(0)]);
    assert_eq!(jukebox.pending(), Pending::Idle);
}

#[test]
fn start_on_an_empty_playlist_asks_for_nothing() {
    let mut jukebox = JukeBox::new(queue_of(0));
    assert_eq!(jukebox.start(), Vec::new());
    assert_eq!(jukebox.pending(), Pending::Idle);
}

#[test]
fn start_is_passed_over_while_an_answer_is_awaited() {
    let mut jukebox = JukeBox::new(queue_of(2));
    assert_eq!(jukebox.start(), vec![Effect::Load(track(0))]);
    assert_eq!(jukebox.start(), Vec::new());
    assert_eq!(jukebox.pending(), Pending::Loading(true));
}

#[test]
fn next_stops_the_stream_and_plays_the_next_track() {
    let (mut jukebox, mut held) = started(3, quiet(false), true);
    assert_eq!(held.flag, Some(StreamState::Pause));
    let effects = jukebox.handle(Message::Input(Command::Next), held.flag);
    assert_eq!(effects, vec![Effect::Write(StreamState::Stop), Effect::Load(track(1))]);
    assert_eq!(jukebox.pending(), Pending::Loading(true));
    assert_eq!(jukebox.queue().index(), 1);
    held.carry_out(&mut jukebox, effects);
    assert_eq!(held.flag, Some(StreamState::Play));
    assert_eq!(jukebox.pending(), Pending::Idle);
    held.send(&mut jukebox, Message::Input(Command::Next));
    assert_eq!(held.flag, Some(StreamState::Play));
    assert_eq!(jukebox.queue().index(), 2);
    held.send(&mut jukebox, Message::Input(Command::Next));
    assert_eq!(jukebox.queue().index(), 0);
    assert_eq!(held.loads, vec![track(0), track(1), track(2), track(0)]);
}

#[test]
fn previous_stops_the_stream_and_plays_the_track_before() {
    let (mut jukebox, mut held) = started(3, quiet(false), true);
    let effects = jukebox.handle(Message::Input(Command::Previous), held.flag);
    assert_eq!(effects, vec![Effect::Write(StreamState::Stop), Effect::Load(track(2))]);
    assert_eq!(jukebox.pending(), Pending::Loading(true));
    assert_eq!(jukebox.queue().index(), 2);
    held.carry_out(&mut jukebox, effects);
    assert_eq!(held.flag, Some(StreamState::Play));
    held.send(&mut jukebox, Message::Input(Command::Previous));
    assert_eq!(held.flag, Some(StreamState::Play));
    assert_eq!(jukebox.queue().index(), 1);
    assert_eq!(held.loads, vec![track(0), track(2), track(1)]);
}

#[test]
fn previous_at_the_first_track_without_looping_pauses() {
    let (mut jukebox, held) = started(3, quiet(true), false);
    assert_eq!(held.flag, Some(StreamState::Play));
    assert_eq!(
        jukebox.handle(Message::Input(Command::Previous), held.flag),
        vec![Effect::Write(StreamState::Pause)]
    );
    assert_eq!(jukebox.queue().index(), 0);
    assert_eq!(jukebox.pending(), Pending::Idle);
}

#[test]
fn navigation_without_a_stream_writes_nothing() {
    let mut queue = queue_of(1);
    queue.set_looping(false);
    let mut jukebox = JukeBox::new(queue);
    assert_eq!(jukebox.handle(Message::Input(Command::Previous), None), Vec::new());
    assert_eq!(jukebox.handle(Message::Input(Command::Next), None), Vec::new());
    assert_eq!(jukebox.queue().index(), 1);
    assert_eq!(jukebox.handle(Message::Input(Command::Restart), None), Vec::new());
    assert_eq!(jukebox.handle(Message::Input(Command::TogglePlay), None), Vec::new());
    assert_eq!(
        jukebox.handle(Message::Input(Command::Previous), None),
        vec![Effect::Load(track(0))]
    );
}

#[test]
fn done_without_autoplay_loads_the_next_track_paused() {
    let (mut jukebox, mut held) = started(2, quiet(false), true);
    held.flag = Some(StreamState::Done);
    let effects = jukebox.handle(Message::Player(Event::Done), held.flag);
    assert_eq!(effects, vec![Effect::Write(StreamState::Stop), Effect::Load(track(1))]);
    assert_eq!(jukebox.pending(), Pending::Loading(false));
    held.carry_out(&mut jukebox, effects);
    assert_eq!(held.flag, Some(StreamState::Pause));
    assert_eq!(jukebox.queue().index(), 1);
    held.flag = Some(StreamState::Done);
    held.send(&mut jukebox, Message::Player(Event::Done));
    assert_eq!(held.flag, Some(StreamState::Pause));
    assert_eq!(jukebox.queue().index(), 0);
}

#[test]
fn toggle_play_flips_only_a_playing_or_paused_stream() {
    let (mut jukebox, held) = started(1, quiet(true), true);
    assert!(held.flag.is_some());
    assert_eq!(
        jukebox.handle(Message::Input(Command::TogglePlay), Some(StreamState::Play)),
        vec![Effect::Write(StreamState::Pause)]
    );
    assert_eq!(
        jukebox.handle(Message::Input(Command::TogglePlay), Some(StreamState::Pause)),
        vec![Effect::Write(StreamState::Play)]
    );
    for state in [StreamState::Stop, StreamState::Done] {
        assert_eq!(
            jukebox.handle(Message::Input(Command::TogglePlay), Some(state)),
            Vec::new()
        );
    }
    assert_eq!(jukebox.handle(Message::Input(Command::TogglePlay), None), Vec::new());
    assert_eq!(jukebox.pending(), Pending::Idle);
    assert_eq!(jukebox.queue().index(), 0);
}

#[test]
fn toggle_play_leaves_a_finished_stream_as_it_is() {
    let (mut jukebox, mut held) = started(2, quiet(true), false);
    for state in [StreamState::Stop, StreamState::Done] {
        held.flag = Some(state);
        held.send(&mut jukebox, Message::Input(Command::TogglePlay));
        assert_eq!(held.flag, Some(state));
        held.send(&mut jukebox, Message::Input(Command::TogglePlay));
        assert_eq!(held.flag, Some(state));
    }
    assert_eq!(held.loads, vec![track(0)]);
}

#[test]
fn stream_that_is_done_is_written_over_only_to_stop_it_or_to_rest_at_the_end() {
    let commands = [
        Command::Next,
        Command::Previous,
        Command::Restart,
        Command::TogglePlay,
        Command::ToggleLoop,
        Command::ToggleAutoplay,
        Command::ToggleShowState,
    ];
    for looping in [false, true] {
        for start in 0..3 {
            for observed in [StreamState::Stop, StreamState::Done] {
                for command in commands {
                    let mut queue = queue_of(2);
                    queue.set_looping(looping);
                    if start < 2 {
                        assert_eq!(queue.set_index(start), Ok(()));
                    } else {
                        queue.next();
                        queue.next();
                    }
                    let mut jukebox = JukeBox::new(queue);
                    let effects = jukebox.handle(Message::Input(command), Some(observed));
                    let loads = effects.iter().any(|effect| matches!(effect, Effect::Load(_)));
                    for effect in &effects {
                        if let Effect::Write(state) = effect {
                            if loads {
                                assert_eq!(*state, StreamState::Stop);
                            } else {
                                assert_eq!(*state, StreamState::Pause);
                                assert_eq!(effects.len(), 1);
                                assert_ne!(command, Command::TogglePlay);
                            }
                        }
                    }
                }
            }
        }
    }
}

#[test]
fn toggles_flip_their_setting_and_nothing_else() {
    let (mut jukebox, held) = started(2, JukeboxConfig::default(), true);
    assert_eq!(jukebox.handle(Message::Input(Command::ToggleLoop), held.flag), Vec::new());
    assert!(!jukebox.queue().is_looping());
    assert_eq!(jukebox.config(), JukeboxConfig::default());
    assert_eq!(jukebox.handle(Message::Input(Command::ToggleLoop), held.flag), Vec::new());
    assert!(jukebox.queue().is_looping());

    assert_eq!(jukebox.handle(Message::Input(Command::ToggleAutoplay), held.flag), Vec::new());
    assert_eq!(
        jukebox.config(),
        JukeboxConfig { autoplay: false, show_state: true, playlist_buffer: 1 }
    );
    assert_eq!(jukebox.handle(Message::Input(Command::ToggleShowState), held.flag), Vec::new());
    assert_eq!(
        jukebox.config(),
        JukeboxConfig { autoplay: false, show_state: false, playlist_buffer: 1 }
    );
    assert_eq!(jukebox.handle(Message::Input(Command::ToggleAutoplay), held.flag), Vec::new());
    assert_eq!(jukebox.handle(Message::Input(Command::ToggleShowState), held.flag), Vec::new());
    assert_eq!(jukebox.config(), JukeboxConfig::default());
    assert_eq!(jukebox.queue().index(), 0);
    assert_eq!(jukebox.pending(), Pending::Idle);
}

#[test]
fn toggled_loop_applies_to_later_steps() {
    let (mut jukebox, mut held) = started(2, quiet(true), true);
    held.send(&mut jukebox, Message::Input(Command::ToggleLoop));
    held.send(&mut jukebox, Message::Input(Command::Next));
    assert_eq!(jukebox.queue().index(), 1);
    held.send(&mut jukebox, Message::Input(Command::Next));
    assert_eq!(jukebox.queue().index(), 2);
    assert_eq!(held.flag, Some(StreamState::Pause));
    held.send(&mut jukebox, Message::Input(Command::ToggleLoop));
    held.send(&mut jukebox, Message::Input(Command::Next));
    assert_eq!(jukebox.queue().index(), 0);
    assert_eq!(held.flag, Some(StreamState::Play));
}

#[test]
fn quit_leaves_the_loop() {
    let (mut jukebox, held) = started(2, quiet(true), true);
    assert_eq!(
        jukebox.handle(Message::Input(Command::Quit), held.flag),
        vec![Effect::Exit(Ok(()))]
    );
    assert!(jukebox.has_exited());
    assert_eq!(jukebox.pending(), Pending::Exited);
    assert_eq!(jukebox.handle(Message::Input(Command::Next), held.flag), Vec::new());
    assert_eq!(jukebox.handle(Message::Player(Event::Done), held.flag), Vec::new());
    assert_eq!(jukebox.start(), Vec::new());
    assert_eq!(jukebox.queue().index(), 0);
}

#[test]
fn closed_channels_end_the_loop() {
    for message in [Message::InputClosed, Message::PlayerClosed] {
        let (mut jukebox, held) = started(2, quiet(true), true);
        assert_eq!(
            jukebox.handle(message, held.flag),
            vec![Effect::Exit(Err(Player::Channel))]
        );
        assert!(jukebox.has_exited());
    }
}

#[test]
fn stream_error_ends_the_loop() {
    let (mut jukebox, held) = started(2, quiet(true), true);
    let error = StreamError::Resample(Media::Code(-12));
    assert_eq!(
        jukebox.handle(Message::Player(Event::StreamErr(error)), held.flag),
        vec![Effect::Exit(Err(Player::Stream(StreamError::Resample(Media::Code(-12)))))]
    );
    assert!(jukebox.has_exited());
}

#[test]
fn failed_load_ends_the_loop() {
    for (failure, media) in [
        (Load::Audio(Media::Code(-2)), Media::Code(-2)),
        (Load::Stream(Media::StreamNotFound), Media::StreamNotFound),
        (Load::Stream(Media::UnsupportedFormat), Media::UnsupportedFormat),
        (Load::Stream(Media::BufferSize), Media::BufferSize),
        (Load::Stream(Media::Device), Media::Device),
    ] {
        let mut jukebox = JukeBox::new(queue_of(2));
        assert_eq!(jukebox.start(), vec![Effect::Load(track(0))]);
        assert_eq!(
            jukebox.handle(Message::Loaded(Err(failure)), None),
            vec![Effect::Exit(Err(Player::Load(media)))]
        );
        assert!(jukebox.has_exited());
    }
}

#[test]
fn refused_prepare_ends_the_loop() {
    let mut jukebox = JukeBox::new(queue_of(2));
    jukebox.start();
    jukebox.handle(Message::Loaded(Ok(())), None);
    assert_eq!(
        jukebox.handle(Message::Prepared(Err(Play::NoStream)), None),
        vec![Effect::Exit(Err(Player::NoStream))]
    );
    assert!(jukebox.has_exited());
}

#[test]
fn unanswered_request_ends_the_loop() {
    let mut jukebox = JukeBox::new(queue_of(2));
    jukebox.start();
    assert_eq!(
        jukebox.handle(Message::Unanswered, None),
        vec![Effect::Exit(Err(Player::Channel))]
    );
    assert!(jukebox.has_exited());

    let mut jukebox = JukeBox::new(queue_of(2));
    jukebox.start();
    jukebox.handle(Message::Loaded(Ok(())), None);
    assert_eq!(
        jukebox.handle(Message::Unanswered, None),
        vec![Effect::Exit(Err(Player::Channel))]
    );
    assert!(jukebox.has_exited());
}

#[test]
fn messages_are_passed_over_while_an_answer_is_awaited() {
    let mut jukebox = JukeBox::new(queue_of(3));
    jukebox.start();
    assert_eq!(jukebox.handle(Message::Input(Command::Next), None), Vec::new());
    assert_eq!(jukebox.handle(Message::Input(Command::Quit), None), Vec::new());
    assert_eq!(jukebox.handle(Message::Player(Event::Done), None), Vec::new());
    assert_eq!(jukebox.handle(Message::InputClosed, None), Vec::new());
    assert_eq!(jukebox.handle(Message::Prepared(Ok(())), None), Vec::new());
    assert_eq!(jukebox.pending(), Pending::Loading(true));
    assert_eq!(jukebox.queue().index(), 0);
    jukebox.handle(Message::Loaded(Ok(())), None);
    assert_eq!(jukebox.handle(Message::Loaded(Ok(())), None), Vec::new());
    assert_eq!(jukebox.handle(Message::Input(Command::ToggleLoop), None), Vec::new());
    assert_eq!(jukebox.pending(), Pending::Preparing(true));
    assert!(jukebox.queue().is_looping());
}

#[test]
fn answers_that_nobody_waits_for_are_passed_over() {
    let (mut jukebox, held) = started(2, quiet(true), true);
    assert_eq!(jukebox.handle(Message::Loaded(Ok(())), held.flag), Vec::new());
    assert_eq!(jukebox.handle(Message::Prepared(Ok(())), held.flag), Vec::new());
    assert_eq!(jukebox.handle(Message::Unanswered, held.flag), Vec::new());
    assert_eq!(
        jukebox.handle(Message::Loaded(Err(Load::Audio(Media::Code(1)))), held.flag),
        Vec::new()
    );
    assert_eq!(jukebox.pending(), Pending::Idle);
}

#[test]
fn orchestrator_never_marks_a_stream_as_done() {
    let commands = [
        Command::Next,
        Command::Previous,
        Command::Restart,
        Command::TogglePlay,
        Command::ToggleLoop,
        Command::Next,
        Command::Next,
        Command::TogglePlay,
        Command::Restart,
        Command::Previous,
    ];
    for observed in [StreamState::Play, StreamState::Pause, StreamState::Stop, StreamState::Done] {
        let (mut jukebox, mut held) = started(2, JukeboxConfig::default(), false);
        for command in commands {
            held.flag = Some(observed);
            let effects = jukebox.handle(Message::Input(command), held.flag);
            for effect in &effects {
                assert_ne!(effect, &Effect::Write(StreamState::Done));
            }
            let writes = effects.iter().any(|effect| matches!(effect, Effect::Write(_)));
            held.carry_out(&mut jukebox, effects);
            if writes {
                assert_ne!(held.flag, Some(StreamState::Done));
            }
        }
    }
}

#[test]
fn display_shows_the_tracks_around_the_cursor() {
    let mut queue = queue_of(5);
    assert_eq!(queue.set_index(2), Ok(()));
    let jukebox = JukeBox::new(queue);
    let display = jukebox.display();
    assert_eq!(
        display,
        Display {
            first: 1,
            last: 3,
            current: 2,
            tracks: 5,
            marked: true,
            looping: true,
            autoplay: true,
        }
    );
    assert_eq!(
        display.lines(),
        vec![
            Line::Track { index: 1, marked: false },
            Line::Track { index: 2, marked: true },
            Line::Track { index: 3, marked: false },
            Line::Total(5),
            Line::Flags { looping: true, autoplay: true },
        ]
    );
}

#[test]
fn display_stops_at_the_ends_of_the_playlist() {
    let jukebox = JukeBox::new(queue_of(3));
    let display = jukebox.display();
    assert_eq!((display.first, display.last, display.current), (0, 1, 0));
    assert_eq!(
        display.lines(),
        vec![
            Line::Track { index: 0, marked: true },
            Line::Track { index: 1, marked: false },
            Line::Total(3),
            Line::Flags { looping: true, autoplay: true },
        ]
    );

    let mut queue = queue_of(3);
    assert_eq!(queue.set_index(2), Ok(()));
    queue.set_looping(false);
    let jukebox = JukeBox::with_config(queue, quiet(false));
    let display = jukebox.display();
    assert_eq!((display.first, display.last, display.current), (1, 3, 2));
    assert_eq!(
        display.lines(),
        vec![
            Line::Track { index: 1, marked: false },
            Line::Track { index: 2, marked: true },
            Line::End,
            Line::Flags { looping: false, autoplay: false },
        ]
    );
}

#[test]
fn display_with_a_wide_window_shows_the_whole_playlist() {
    let mut queue = queue_of(3);
    assert_eq!(queue.set_index(1), Ok(()));
    let cfg = JukeboxConfig { autoplay: true, show_state: true, playlist_buffer: usize::MAX };
    let display = JukeBox::with_config(queue, cfg).display();
    assert_eq!((display.first, display.last), (0, 3));
    assert_eq!(
        display.lines(),
        vec![
            Line::Track { index: 0, marked: false },
            Line::Track { index: 1, marked: true },
            Line::Track { index: 2, marked: false },
            Line::End,
            Line::Flags { looping: true, autoplay: true },
        ]
    );
}

#[test]
fn display_with_a_window_of_nothing_shows_the_current_track_unmarked() {
    let mut queue = queue_of(3);
    assert_eq!(queue.set_index(1), Ok(()));
    let cfg = JukeboxConfig { autoplay: false, show_state: true, playlist_buffer: 0 };
    let display = JukeBox::with_config(queue, cfg).display();
    assert_eq!((display.first, display.last, display.marked), (1, 1, false));
    assert_eq!(
        display.lines(),
        vec![
            Line::Track { index: 1, marked: false },
            Line::Total(3),
            Line::Flags { looping: true, autoplay: false },
        ]
    );
}

#[test]
fn display_of_a_playlist_without_bounds_is_only_its_settings() {
    let display = Display {
        first: 3,
        last: 2,
        current: 0,
        tracks: 5,
        marked: true,
        looping: false,
        autoplay: true,
    };
    assert_eq!(
        display.lines(),
        vec![Line::Total(5), Line::Flags { looping: false, autoplay: true }]
    );
}

#[test]
fn prepared_stream_is_shown_where_that_is_asked_for() {
    let (mut jukebox, mut held) = started(3, JukeboxConfig::default(), true);
    assert_eq!(held.shown.len(), 1);
    assert_eq!((held.shown[0].first, held.shown[0].last, held.shown[0].current), (0, 1, 0));
    held.send(&mut jukebox, Message::Input(Command::Next));
    assert_eq!(held.shown.len(), 2);
    assert_eq!((held.shown[1].first, held.shown[1].last, held.shown[1].current), (0, 2, 1));
    held.send(&mut jukebox, Message::Input(Command::ToggleShowState));
    held.send(&mut jukebox, Message::Input(Command::Next));
    assert_eq!(held.shown.len(), 2);
    assert_eq!(held.loads.len(), 3);
}

#[test]
fn worker_errors_become_orchestrator_errors() {
    assert_eq!(Player::from(Load::Audio(Media::Code(-2))), Player::Load(Media::Code(-2)));
    assert_eq!(
        Player::from(Load::Stream(Media::StreamNotFound)),
        Player::Load(Media::StreamNotFound)
    );
    assert_eq!(Player::from(Play::NoStream), Player::NoStream);
    assert_eq!(Player::from(Channel), Player::Channel);
}

#[test]
fn orchestrator_changes_a_live_stream_only_between_play_and_pause_or_to_stop() {
    let commands = [
        Command::Next,
        Command::Previous,
        Command::Restart,
        Command::TogglePlay,
        Command::ToggleLoop,
        Command::ToggleAutoplay,
        Command::ToggleShowState,
    ];
    for looping in [false, true] {
        for start in 0..3 {
            for observed in [StreamState::Play, StreamState::Pause] {
                for command in commands {
                    let mut queue = queue_of(2);
                    queue.set_looping(looping);
                    if start < 2 {
                        assert_eq!(queue.set_index(start), Ok(()));
                    } else {
                        queue.next();
                        queue.next();
                    }
                    let mut jukebox = JukeBox::new(queue);
                    let mut held = observed;
                    for effect in jukebox.handle(Message::Input(command), Some(observed)) {
                        if let Effect::Write(state) = effect {
                            let flips = (held == StreamState::Play && state == StreamState::Pause)
                                || (held == StreamState::Pause && state == StreamState::Play);
                            assert!(state == held || state == StreamState::Stop || flips);
                            held = state;
                        }
                    }
                }
            }
        }
    }
}

#[test]
fn held_stream_is_stopped_right_before_the_next_is_loaded() {
    for message in [
        Message::Input(Command::Next),
        Message::Input(Command::Previous),
        Message::Input(Command::Restart),
        Message::Player(Event::Done),
    ] {
        for observed in [StreamState::Play, StreamState::Pause, StreamState::Stop, StreamState::Done] {
            let mut jukebox = JukeBox::new(queue_of(3));
            let effects = jukebox.handle(message_copy(&message), Some(observed));
            assert_eq!(effects.len(), 2);
            assert_eq!(effects[0], Effect::Write(StreamState::Stop));
            assert!(matches!(effects[1], Effect::Load(_)));
        }
    }
}

fn message_copy(message: &Message) -> Message {
    match message {
        Message::Input(command) => Message::Input(*command),
        Message::Player(Event::Done) => Message::Player(Event::Done),
        _ => Message::Unanswered,
    }
}
