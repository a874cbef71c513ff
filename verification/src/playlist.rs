//! An ordered list of tracks with a cursor and a loop flag.

use crate::error::InvalidIndex;
use std::path::PathBuf;
use vstd::arithmetic::div_mod::{lemma_mod_add_multiples_vanish, lemma_mod_self_0, lemma_small_mod};
use vstd::prelude::*;

verus! {

/// `std::path::PathBuf`, carried through as an opaque value.
#[verifier::external_type_specification]
#[verifier::external_body]
pub struct ExPathBuf(PathBuf);

/// `PathBuf::clone` returns a path equal to the one it was given.
pub assume_specification[ <PathBuf as Clone>::clone ](path: &PathBuf) -> (copy: PathBuf)
    ensures
        copy == *path,
;

/// The tracks of a playlist, in playing order.
#[derive(Debug)]
pub struct Playlist(Vec<PathBuf>);

impl View for Playlist {
    type V = Seq<PathBuf>;

    closed spec fn view(&self) -> Seq<PathBuf> {
        self.0@
    }
}

impl Playlist {
    pub fn new(files: Vec<PathBuf>) -> (playlist: Self)
        ensures
            playlist@ == files@,
    {
        Self(files)
    }

    pub fn len(&self) -> (n: usize)
        ensures
            n == self@.len(),
    {
        self.0.len()
    }

    pub fn is_empty(&self) -> (empty: bool)
        ensures
            empty == (self@.len() == 0),
    {
        self.0.len() == 0
    }

    /// The track at `index`, if there is one.
    pub fn get(&self, index: usize) -> (track: Option<&PathBuf>)
        ensures
            track == match track_at(self@, index as nat) {
                Some(path) => Some(&path),
                None => None,
            },
    {
        if index < self.0.len() {
            Some(&self.0[index])
        } else {
            None
        }
    }

    /// The tracks, in order.
    pub fn tracks(&self) -> (tracks: &Vec<PathBuf>)
        ensures
            tracks@ == self@,
    {
        &self.0
    }
}

/// The track at position `cursor` of `tracks`; none at a position past the
/// last track.
pub open spec fn track_at(tracks: Seq<PathBuf>, cursor: nat) -> Option<PathBuf> {
    if cursor < tracks.len() {
        Some(tracks[cursor as int])
    } else {
        None
    }
}

/// How a queue walks its playlist.
#[derive(Debug)]
pub struct AudioPlayConfig {
    /// Return to beginning of playlist once ended.
    pub loop_playlist: bool,
}

impl Default for AudioPlayConfig {
    fn default() -> (cfg: Self)
        ensures
            cfg.loop_playlist,
    {
        Self { loop_playlist: true }
    }
}

/// Where the cursor stands after a step forward from `index` in a playlist
/// of `len` tracks. `index == len` is the position past the last track.
pub open spec fn next_cursor(index: nat, len: nat, looping: bool) -> nat {
    if looping {
        if index + 1 >= len {
            0
        } else {
            index + 1
        }
    } else if index < len {
        index + 1
    } else {
        index
    }
}

/// Where the cursor stands after a step back from `index`.
pub open spec fn previous_cursor(index: nat, len: nat, looping: bool) -> nat {
    if looping {
        if len == 0 {
            0
        } else if index == 0 {
            (len - 1) as nat
        } else {
            (index - 1) as nat
        }
    } else if index == 0 {
        0
    } else {
        (index - 1) as nat
    }
}

/// Whether a step back from `index` selects a track.
pub open spec fn previous_selects(index: nat, len: nat, looping: bool) -> bool {
    if looping {
        len > 0
    } else {
        index > 0
    }
}

/// One step of navigation through a playlist.
#[derive(Debug, Clone, Copy, PartialEq, Eq, Structural)]
pub enum Direction {
    Forward,
    Backward,
}

/// Where the cursor stands after `steps`, taken in order from `index`.
pub open spec fn cursor_after(index: nat, len: nat, looping: bool, steps: Seq<Direction>) -> nat
    decreases steps.len(),
{
    if steps.len() == 0 {
        index
    } else {
        let before = cursor_after(index, len, looping, steps.drop_last());
        match steps.last() {
            Direction::Forward => next_cursor(before, len, looping),
            Direction::Backward => previous_cursor(before, len, looping),
        }
    }
}

/// No run of steps, with or without looping, takes a cursor that starts in
/// `0..=len` out of that range.
pub proof fn lemma_cursor_stays_in_bounds(
    index: nat,
    len: nat,
    looping: bool,
    steps: Seq<Direction>,
)
    requires
        index <= len,
    ensures
        cursor_after(index, len, looping, steps) <= len,
    decreases steps.len(),
{
    if steps.len() > 0 {
        lemma_cursor_stays_in_bounds(index, len, looping, steps.drop_last());
    }
}

/// Without looping, a cursor past the last track stays there however often
/// it is stepped forward, and no track is selected there.
pub proof fn lemma_forward_past_end_is_idempotent(tracks: Seq<PathBuf>, times: nat)
    ensures
        next_cursor(tracks.len(), tracks.len(), false) == tracks.len(),
        cursor_after(
            tracks.len(),
            tracks.len(),
            false,
            Seq::new(times, |i: int| Direction::Forward),
        ) == tracks.len(),
        track_at(tracks, tracks.len()) is None,
    decreases times,
{
    let steps = Seq::new(times, |i: int| Direction::Forward);
    if times > 0 {
        lemma_forward_past_end_is_idempotent(tracks, (times - 1) as nat);
        assert(steps.drop_last() =~= Seq::new((times - 1) as nat, |i: int| Direction::Forward));
    }
}

/// With looping, on a playlist of at least one track, a step from a selected
/// track is a step modulo the playlist's length.
pub proof fn lemma_looping_steps_are_modular(index: nat, len: nat)
    requires
        len >= 1,
        index < len,
    ensures
        next_cursor(index, len, true) == (index + 1) % len,
        previous_cursor(index, len, true) == (index + len - 1) % (len as int),
{
    if index + 1 < len {
        lemma_small_mod(index + 1, len);
    } else {
        lemma_mod_self_0(len as int);
    }
    if index == 0 {
        lemma_small_mod((len - 1) as nat, len);
    } else {
        lemma_mod_add_multiples_vanish(index - 1, len as int);
        lemma_small_mod((index - 1) as nat, len);
    }
}

/// With looping, on a playlist of at least one track, a step forward from a
/// selected track followed by a step back returns to that track, and so does
/// a step back followed by a step forward.
pub proof fn lemma_looping_steps_undo_each_other(index: nat, len: nat)
    requires
        len >= 1,
        index < len,
    ensures
        previous_cursor(next_cursor(index, len, true), len, true) == index,
        next_cursor(previous_cursor(index, len, true), len, true) == index,
{
}

/// A playlist with a cursor. The cursor is an index into the playlist, or the
/// playlist's length when nothing is selected.
#[derive(Debug)]
pub struct PlaylistQueue {
    playlist: Playlist,
    index: usize,
    cfg: AudioPlayConfig,
}

impl PlaylistQueue {
    #[verifier::type_invariant]
    spec fn cursor_in_bounds(self) -> bool {
        self.index <= self.playlist@.len()
    }

    /// The tracks, in order.
    pub closed spec fn tracks(&self) -> Seq<PathBuf> {
        self.playlist@
    }

    /// The cursor.
    pub closed spec fn cursor(&self) -> nat {
        self.index as nat
    }

    /// The loop flag.
    pub closed spec fn looping(&self) -> bool {
        self.cfg.loop_playlist
    }

    /// The track under the cursor, if any.
    pub open spec fn selected(&self) -> Option<PathBuf> {
        track_at(self.tracks(), self.cursor())
    }

    /// A queue over `playlist` with the cursor on the first track and looping on.
    pub fn new(playlist: Playlist) -> (queue: Self)
        ensures
            queue.tracks() == playlist@,
            queue.cursor() == 0,
            queue.looping(),
    {
        Self { playlist, index: 0, cfg: AudioPlayConfig::default() }
    }

    /// The track under the cursor; `None` when the cursor is past the end.
    pub fn current(&self) -> (track: Option<&PathBuf>)
        ensures
            track == match self.selected() {
                Some(path) => Some(&path),
                None => None,
            },
    {
        proof {
            use_type_invariant(self);
        }
        if self.index < self.playlist.0.len() {
            Some(&self.playlist.0[self.index])
        } else {
            None
        }
    }

    /// Steps forward and returns the track now selected. With looping the
    /// cursor wraps to the first track; without it the cursor stops one past
    /// the last track, where further calls change nothing and return `None`.
    pub fn next(&mut self) -> (track: Option<&PathBuf>)
        ensures
            final(self).tracks() == old(self).tracks(),
            final(self).looping() == old(self).looping(),
            final(self).cursor() == next_cursor(
                old(self).cursor(),
                old(self).tracks().len(),
                old(self).looping(),
            ),
            track == match final(self).selected() {
                Some(path) => Some(&path),
                None => None,
            },
    {
        proof {
            use_type_invariant(&*self);
        }
        let len = self.playlist.0.len();
        if self.cfg.loop_playlist {
            if len == 0 || self.index >= len - 1 {
                self.index = 0;
            } else {
                self.index = self.index + 1;
            }
        } else if self.index < len {
            self.index = self.index + 1;
        }
        if self.index < len {
            Some(&self.playlist.0[self.index])
        } else {
            None
        }
    }

    /// Steps back and returns the track now selected. With looping the cursor
    /// wraps from the first track to the last; without it a step back from
    /// the first track moves nothing and returns `None`.
    pub fn next_back(&mut self) -> (track: Option<&PathBuf>)
        ensures
            final(self).tracks() == old(self).tracks(),
            final(self).looping() == old(self).looping(),
            final(self).cursor() == previous_cursor(
                old(self).cursor(),
                old(self).tracks().len(),
                old(self).looping(),
            ),
            track == if previous_selects(
                old(self).cursor(),
                old(self).tracks().len(),
                old(self).looping(),
            ) {
                Some(&final(self).tracks()[final(self).cursor() as int])
            } else {
                None
            },
    {
        proof {
            use_type_invariant(&*self);
        }
        let len = self.playlist.0.len();
        if self.cfg.loop_playlist {
            if len == 0 {
                self.index = 0;
                return None;
            }
            if self.index == 0 {
                self.index = len - 1;
            } else {
                self.index = self.index - 1;
            }
            Some(&self.playlist.0[self.index])
        } else if self.index == 0 {
            None
        } else {
            self.index = self.index - 1;
            Some(&self.playlist.0[self.index])
        }
    }

    pub fn playlist(&self) -> (tracks: &Vec<PathBuf>)
        ensures
            tracks@ == self.tracks(),
    {
        &self.playlist.0
    }

    pub fn index(&self) -> (index: usize)
        ensures
            index == self.cursor(),
            index <= self.tracks().len(),
    {
        proof {
            use_type_invariant(self);
        }
        self.index
    }

    pub fn len(&self) -> (len: usize)
        ensures
            len == self.tracks().len(),
    {
        self.playlist.0.len()
    }

    /// Moves the cursor to `index` if it names a track, and changes nothing
    /// otherwise.
    pub fn set_index(&mut self, index: usize) -> (result: Result<(), InvalidIndex>)
        ensures
            final(self).tracks() == old(self).tracks(),
            final(self).looping() == old(self).looping(),
            result is Ok <==> index < old(self).tracks().len(),
            result is Ok ==> final(self).cursor() == index,
            result is Err ==> final(self).cursor() == old(self).cursor(),
    {
        proof {
            use_type_invariant(&*self);
        }
        if index >= self.playlist.0.len() {
            Err(InvalidIndex)
        } else {
            self.index = index;
            Ok(())
        }
    }

    pub fn is_looping(&self) -> (looping: bool)
        ensures
            looping == self.looping(),
    {
        self.cfg.loop_playlist
    }

    pub fn set_looping(&mut self, looping: bool)
        ensures
            final(self).tracks() == old(self).tracks(),
            final(self).cursor() == old(self).cursor(),
            final(self).looping() == looping,
    {
        proof {
            use_type_invariant(&*self);
        }
        self.cfg.loop_playlist = looping;
    }
}

} // verus!
