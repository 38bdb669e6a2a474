//! The engine: the library of playlists, the play queue with its repeat and
//! shuffle transforms, the playback position, and the selection of the
//! three panes.

use vstd::arithmetic::div_mod::{lemma_mod_self_0, lemma_small_mod};
use vstd::prelude::*;

use crate::machine::{lemma_padded, lemma_shuffle_keeps_tracks, BackendView};
use crate::models::{
    AppState, CurrentColumn, PlayerAction, PlayerState, Playlist, QueueState, RepeatMode,
    RepeatState, SelectionState, ShuffleState, Track, MAXQUEUELENGTH, SECONDTICK,
};
use crate::queue::{clonetracks, padtracks, repeattrack, shuffletracks, tracksfrom};
use crate::selection::{getclampedrow, getnextidx, getprevidx};

verus! {

/// The engine. Its state is reached through the getters and changed
/// through the operations only, all of which keep it well-formed.
pub struct Backend {
    state: AppState,
    selection: SelectionState,
}

/// A saved queue as a sequence.
pub open spec fn savedview(saved: Option<Vec<Track>>) -> Option<Seq<Track>> {
    match saved {
        Some(s) => Some(s@),
        None => None,
    }
}

/// The state that the engine's data stand for.
pub open spec fn modelof(state: AppState, selection: SelectionState) -> BackendView {
    BackendView {
        playlists: state.playlists@,
        queue: state.player.queuestate.queue@,
        index: state.player.queuestate.currentidx as int,
        elapsed: state.player.currenttime as int,
        playing: state.player.isplaying,
        repeat: state.player.repeatstate.repeatmode,
        beforerepeat: savedview(state.player.repeatstate.originalqueue),
        shuffle: state.player.shufflestate.shuffle,
        beforeshuffle: savedview(state.player.shufflestate.originalqueue),
        source: match state.player.currentplaylist {
            Some(p) => Some(p as int),
            None => None,
        },
        column: selection.selectedcolumn,
        playlistrow: selection.selectedplaylist,
        trackrow: selection.selectedtrack,
        queuerow: selection.selectedqueue,
    }
}

impl View for Backend {
    type V = BackendView;

    open spec fn view(&self) -> BackendView {
        modelof(self.state(), self.selection())
    }
}

impl Backend {
    /// The data that `getstate` hands out.
    pub closed spec fn state(&self) -> AppState {
        self.state
    }

    /// The data that `getselection` hands out.
    pub closed spec fn selection(&self) -> SelectionState {
        self.selection
    }

    pub fn new() -> (backend: Self)
        ensures
            backend@ == BackendView::initial(),
            backend@.wf(),
    {
        Backend {
            state: AppState {
                playlists: Vec::new(),
                player: PlayerState {
                    isplaying: false,
                    currenttime: 0,
                    queuestate: QueueState { queue: Vec::new(), currentidx: 0 },
                    repeatstate: RepeatState { repeatmode: RepeatMode::Off, originalqueue: None },
                    shufflestate: ShuffleState { shuffle: false, originalqueue: None },
                    currentplaylist: None,
                },
            },
            selection: SelectionState {
                selectedcolumn: CurrentColumn::Playlists,
                selectedplaylist: None,
                selectedtrack: None,
                selectedqueue: None,
            },
        }
    }

    /// Whether the engine's data are well-formed. Every engine that `new`
    /// made and the operations below changed is; the test is for callers
    /// that nothing else holds to it.
    pub fn valid(&self) -> (valid: bool)
        ensures
            valid == self@.wf(),
    {
        let player = &self.state.player;
        let len: usize = player.queuestate.queue.len();
        let positioned: bool = if len > 0 {
            player.queuestate.currentidx < len
        } else {
            player.queuestate.currentidx == 0 && !player.isplaying && player.currenttime == 0
                && player.repeatstate.originalqueue.is_none()
                && player.shufflestate.originalqueue.is_none()
        };
        let sourced: bool = match player.currentplaylist {
            Some(p) => p < self.state.playlists.len(),
            None => true,
        };
        let repeatsaved: bool = match &player.repeatstate.originalqueue {
            Some(s) => s.len() > 0 && player.repeatstate.repeatmode != RepeatMode::Off,
            None => true,
        };
        let shufflesaved: bool = match &player.shufflestate.originalqueue {
            Some(s) => s.len() > 0 && player.shufflestate.shuffle,
            None => true,
        };
        positioned && sourced && repeatsaved && shufflesaved
    }

    // --- playback control ---

    /// Pauses if the engine plays and resumes if it does not. With an empty
    /// queue nothing happens.
    pub fn playpause(&mut self) -> (action: PlayerAction)
        requires
            old(self)@.wf(),
        ensures
            final(self)@ == old(self)@.pausetoggled(),
            action == old(self)@.pauseaction(),
            final(self)@.wf(),
    {
        if self.state.player.queuestate.queue.len() == 0 {
            PlayerAction::Nothing
        } else if self.state.player.isplaying {
            self.pause()
        } else {
            self.unpause()
        }
    }

    fn unpause(&mut self) -> (action: PlayerAction)
        requires
            old(self)@.wf(),
            old(self)@.queue.len() > 0,
        ensures
            final(self)@ == old(self)@.started(),
            action == PlayerAction::Resume,
    {
        self.state.player.isplaying = true;
        PlayerAction::Resume
    }

    fn pause(&mut self) -> (action: PlayerAction)
        ensures
            final(self)@ == old(self)@.stopped(),
            action == PlayerAction::Pause,
    {
        self.state.player.isplaying = false;
        PlayerAction::Pause
    }

    /// Starts the current track, if there is one.
    fn playsong(&mut self) -> (action: PlayerAction)
        requires
            old(self)@.wf(),
        ensures
            final(self)@ == old(self)@.started(),
            action == final(self)@.steppedaction(),
    {
        if self.state.player.queuestate.queue.len() == 0 {
            return PlayerAction::Nothing;
        }
        let url = self.state.player.queuestate.queue[self.state.player.queuestate.currentidx].url.clone();
        self.state.player.isplaying = true;
        PlayerAction::Play(url)
    }

    /// Goes on to the track that the repeat mode puts next and starts it.
    /// With repeat off the playback stops at the end of the queue, and the
    /// position stays on the last track; with repeat-all it goes on from the
    /// first track. An empty queue is left alone.
    pub fn next(&mut self) -> (action: PlayerAction)
        requires
            old(self)@.wf(),
        ensures
            final(self)@ == old(self)@.advanced(),
            action == final(self)@.steppedaction(),
            final(self)@.wf(),
            old(self)@.atlast() && old(self)@.repeat == RepeatMode::Off ==> {
                &&& !final(self)@.playing
                &&& final(self)@.index == old(self)@.index
                &&& action == PlayerAction::Stop
            },
            old(self)@.atlast() && old(self)@.repeat == RepeatMode::All ==> {
                &&& final(self)@.playing
                &&& final(self)@.index == 0
            },
    {
        let len: usize = self.state.player.queuestate.queue.len();
        if len == 0 {
            return PlayerAction::Nothing;
        }
        let idx: usize = self.state.player.queuestate.currentidx;
        self.state.player.currenttime = 0;
        match self.state.player.repeatstate.repeatmode {
            RepeatMode::Off => {
                if idx + 1 < len {
                    self.state.player.queuestate.currentidx = idx + 1;
                } else {
                    self.state.player.isplaying = false;
                    return PlayerAction::Stop;
                }
            },
            RepeatMode::One => {},
            RepeatMode::All => {
                if idx + 1 < len {
                    proof {
                        lemma_small_mod((idx + 1) as nat, len as nat);
                    }
                    self.state.player.queuestate.currentidx = idx + 1;
                } else {
                    proof {
                        lemma_mod_self_0(len as int);
                    }
                    self.state.player.queuestate.currentidx = 0;
                }
            },
        }
        self.playsong()
    }

    /// Goes back to the track before the current one and starts it, from
    /// the first track round to the last, whatever the repeat mode.
    pub fn prev(&mut self) -> (action: PlayerAction)
        requires
            old(self)@.wf(),
        ensures
            final(self)@ == old(self)@.rewound(),
            action == final(self)@.steppedaction(),
            final(self)@.wf(),
    {
        let len: usize = self.state.player.queuestate.queue.len();
        if len == 0 {
            return PlayerAction::Nothing;
        }
        let idx: usize = self.state.player.queuestate.currentidx;
        self.state.player.queuestate.currentidx = if idx == 0 {
            len - 1
        } else {
            idx - 1
        };
        self.state.player.currenttime = 0;
        self.playsong()
    }

    /// One tick of the clock. Time is taken on the ticks whose counter is
    /// `SECONDTICK`, while the engine plays: from `polled`, the time that the process
    /// reported, or by counting one second where it reported none. When the
    /// current track is over the engine goes on as `next` does.
    pub fn tick(&mut self, counter: u8, polled: Option<u32>) -> (action: PlayerAction)
        requires
            old(self)@.wf(),
        ensures
            final(self)@ == old(self)@.ticked(counter, polled),
            action == old(self)@.tickaction(counter, polled),
            final(self)@.wf(),
    {
        if counter != SECONDTICK || !self.state.player.isplaying {
            return PlayerAction::Nothing;
        }
        let duration: u32 =
            self.state.player.queuestate.queue[self.state.player.queuestate.currentidx].duration;
        match polled {
            Some(p) => {
                if duration == 0 || p >= duration - 1 {
                    self.next()
                } else {
                    self.state.player.currenttime = p;
                    PlayerAction::Nothing
                }
            },
            None => {
                let elapsed: u32 = self.state.player.currenttime;
                if elapsed == u32::MAX || elapsed + 1 >= duration {
                    self.next()
                } else {
                    self.state.player.currenttime = elapsed + 1;
                    PlayerAction::Nothing
                }
            },
        }
    }

    /// Whether a tick with this counter needs the time that the process
    /// reports.
    pub fn needselapsed(&self, counter: u8) -> (due: bool)
        requires
            self@.wf(),
        ensures
            due == self@.tickdue(counter),
    {
        counter == SECONDTICK && self.state.player.isplaying
    }

    /// Takes note that the process could not be started: the playback is at
    /// rest, and the position stays where it is for another try.
    pub fn playfailed(&mut self)
        requires
            old(self)@.wf(),
        ensures
            final(self)@ == old(self)@.stopped(),
            final(self)@.wf(),
    {
        self.state.player.isplaying = false;
    }

    // --- shuffle and repeat ---

    /// Flips the shuffle flag. Going on, a queue of two tracks or more is
    /// saved and reordered at random behind the current track; going off,
    /// the saved queue comes back. Which order the shuffle gives is open;
    /// it holds the tracks that were there.
    pub fn toggleshuffle(&mut self)
        requires
            old(self)@.wf(),
        ensures
            final(self)@ == old(self)@.shuffletoggled(final(self)@.queue.skip(1)),
            !old(self)@.shuffle ==> {
                &&& old(self)@.shufflesto(final(self)@.queue.skip(1))
                &&& final(self)@.queue.to_multiset() == old(self)@.queue.to_multiset()
                &&& final(self)@.queue.len() == old(self)@.queue.len()
                &&& old(self)@.queue.len() > 0 ==> final(self)@.current() == old(self)@.current()
            },
            final(self)@.wf(),
    {
        if self.state.player.shufflestate.shuffle {
            self.state.player.shufflestate.shuffle = false;
            if self.state.player.queuestate.queue.len() > 0 {
                let saved = self.state.player.shufflestate.originalqueue.take();
                match saved {
                    Some(s) => {
                        self.state.player.queuestate.queue = s;
                    },
                    None => {
                        self.restorefallback();
                    },
                }
                self.state.player.queuestate.currentidx = 0;
                self.state.player.currenttime = 0;
            }
        } else {
            self.state.player.shufflestate.shuffle = true;
            self.shufflequeue();
            proof {
                if old(self)@.queue.len() > 1 {
                    lemma_shuffle_keeps_tracks(old(self)@, self@.queue.skip(1));
                }
            }
        }
    }

    /// Shuffles the queue behind the current track, if it has two tracks or
    /// more.
    fn shufflequeue(&mut self)
        requires
            old(self)@.wf(),
            old(self)@.shuffle,
        ensures
            final(self)@ == old(self)@.shuffleon(final(self)@.queue.skip(1)),
            old(self)@.shufflesto(final(self)@.queue.skip(1)),
            final(self)@.wf(),
    {
        if self.state.player.queuestate.queue.len() > 1 {
            let mut rest = clonetracks(&self.state.player.queuestate.queue);
            rest.remove(self.state.player.queuestate.currentidx);
            shuffletracks(&mut rest);
            let ghost order = rest@;
            self.shufflewith(rest);
            assert(self@.queue.skip(1) =~= order);
        }
    }

    /// Switches shuffle on with `rest` as the order of the tracks behind the
    /// current one. A queue of two tracks or more is saved, unless one is
    /// saved already, and becomes the current track followed by `rest`; a
    /// shorter queue stays as it is.
    pub fn shufflewith(&mut self, rest: Vec<Track>)
        requires
            old(self)@.wf(),
        ensures
            final(self)@ == old(self)@.shuffleon(rest@),
            final(self)@.wf(),
    {
        self.state.player.shufflestate.shuffle = true;
        if self.state.player.queuestate.queue.len() > 1 {
            if self.state.player.shufflestate.originalqueue.is_none() {
                self.state.player.shufflestate.originalqueue = Some(
                    clonetracks(&self.state.player.queuestate.queue),
                );
            }
            let current =
                self.state.player.queuestate.queue[self.state.player.queuestate.currentidx].clone();
            let mut queue = rest;
            queue.insert(0, current);
            assert(queue@ =~= seq![current] + rest@);
            self.state.player.queuestate.queue = queue;
            self.state.player.queuestate.currentidx = 0;
        }
    }

    /// Steps the repeat mode from off to one, from one to all, from all to
    /// off, and brings the queue in line with the new mode.
    pub fn cyclerepeat(&mut self)
        requires
            old(self)@.wf(),
        ensures
            final(self)@ == old(self)@.cycled(),
            final(self)@.wf(),
    {
        let mode = match self.state.player.repeatstate.repeatmode {
            RepeatMode::Off => RepeatMode::One,
            RepeatMode::One => RepeatMode::All,
            RepeatMode::All => RepeatMode::Off,
        };
        self.handlerepeat(mode);
    }

    /// Sets the repeat mode and brings the queue in line with it.
    fn handlerepeat(&mut self, mode: RepeatMode)
        requires
            old(self)@.wf(),
        ensures
            final(self)@ == old(self)@.withmode(mode).repeatapplied(),
            final(self)@.wf(),
    {
        self.state.player.repeatstate.repeatmode = mode;
        if self.state.player.queuestate.queue.len() == 0 {
            return;
        }
        proof {
            lemma_padded(self@.queue, MAXQUEUELENGTH as nat);
        }
        match mode {
            RepeatMode::All => {
                self.savebeforerepeat();
                padtracks(&mut self.state.player.queuestate.queue);
            },
            RepeatMode::One => {
                self.savebeforerepeat();
                let current =
                    self.state.player.queuestate.queue[self.state.player.queuestate.currentidx].clone();
                self.state.player.queuestate.queue = repeattrack(&current);
                if self.state.player.queuestate.currentidx >= MAXQUEUELENGTH {
                    self.state.player.queuestate.currentidx = MAXQUEUELENGTH - 1;
                }
            },
            RepeatMode::Off => {
                let saved = self.state.player.repeatstate.originalqueue.take();
                match saved {
                    Some(s) => {
                        self.state.player.queuestate.queue = s;
                    },
                    None => {
                        self.restorefallback();
                    },
                }
                let len: usize = self.state.player.queuestate.queue.len();
                if self.state.player.queuestate.currentidx >= len {
                    self.state.player.queuestate.currentidx = len - 1;
                }
            },
        }
    }

    /// Saves the queue as the one before repeat, unless one is saved.
    fn savebeforerepeat(&mut self)
        ensures
            final(self)@ == (BackendView {
                beforerepeat: BackendView::kept(old(self)@.beforerepeat, old(self)@.queue),
                ..old(self)@
            }),
    {
        if self.state.player.repeatstate.originalqueue.is_none() {
            self.state.player.repeatstate.originalqueue = Some(
                clonetracks(&self.state.player.queuestate.queue),
            );
        }
    }

    /// Replaces the queue by the whole playlist that it was built from, if
    /// there is one and it holds a track.
    fn restorefallback(&mut self)
        requires
            old(self)@.source matches Some(p) ==> 0 <= p < old(self)@.playlists.len(),
        ensures
            final(self)@ == (BackendView { queue: old(self)@.fallback(), ..old(self)@ }),
    {
        match self.state.player.currentplaylist {
            Some(p) => {
                if self.state.playlists[p].tracks.len() > 0 {
                    self.state.player.queuestate.queue = clonetracks(
                        &self.state.playlists[p].tracks,
                    );
                }
            },
            None => {},
        }
    }

    // --- queue and playlist management ---

    /// Replaces the queue by `tracks`. What was saved for the repeat mode
    /// and the shuffle is dropped. With `clearhistory` what was played is
    /// forgotten: the position returns to the first track; without it the
    /// position stays, held inside the new queue. An empty queue brings the
    /// playback to rest.
    pub fn setqueue(&mut self, tracks: Vec<Track>, clearhistory: bool) -> (action: PlayerAction)
        requires
            old(self)@.wf(),
        ensures
            final(self)@ == old(self)@.queueset(tracks@, clearhistory),
            action == old(self)@.queuesetaction(tracks@),
            final(self)@.wf(),
    {
        let len: usize = tracks.len();
        let wasplaying: bool = self.state.player.isplaying;
        self.state.player.queuestate.queue = tracks;
        self.state.player.repeatstate.originalqueue = None;
        self.state.player.shufflestate.originalqueue = None;
        self.state.player.currentplaylist = None;
        if len == 0 {
            self.state.player.queuestate.currentidx = 0;
            self.state.player.currenttime = 0;
            self.state.player.isplaying = false;
            if wasplaying {
                return PlayerAction::Stop;
            }
        } else if clearhistory {
            self.state.player.queuestate.currentidx = 0;
            self.state.player.currenttime = 0;
        } else if self.state.player.queuestate.currentidx >= len {
            self.state.player.queuestate.currentidx = len - 1;
        }
        PlayerAction::Nothing
    }

    /// Adds a track to the end of the queue.
    pub fn addtoqueue(&mut self, track: Track)
        requires
            old(self)@.wf(),
        ensures
            final(self)@ == old(self)@.queuedlast(track),
            final(self)@.wf(),
    {
        self.state.player.queuestate.queue.push(track);
    }

    /// Puts a track directly behind the current one, so that it plays next.
    pub fn playnext(&mut self, track: Track)
        requires
            old(self)@.wf(),
        ensures
            final(self)@ == old(self)@.queuednext(track),
            final(self)@.wf(),
    {
        if self.state.player.queuestate.queue.len() == 0 {
            self.state.player.queuestate.queue.push(track);
        } else {
            let at: usize = self.state.player.queuestate.currentidx + 1;
            self.state.player.queuestate.queue.insert(at, track);
        }
    }

    /// Moves the position to row `index` of the queue and starts that
    /// track; the queue stays as it is. A row outside the queue changes
    /// nothing.
    pub fn playtrackfromqueue(&mut self, index: usize) -> (action: PlayerAction)
        requires
            old(self)@.wf(),
        ensures
            final(self)@ == old(self)@.jumped(index as int),
            action == old(self)@.jumpaction(index as int),
            final(self)@.wf(),
    {
        if index < self.state.player.queuestate.queue.len() {
            self.state.player.queuestate.currentidx = index;
            self.state.player.currenttime = 0;
            self.playsong()
        } else {
            PlayerAction::Nothing
        }
    }

    pub fn addplaylist(&mut self, playlist: Playlist)
        requires
            old(self)@.wf(),
        ensures
            final(self)@ == old(self)@.playlistadded(playlist),
            final(self)@.wf(),
    {
        self.state.playlists.push(playlist)
    }

    /// Selects row `index` of the playlists, or the last row if there are
    /// fewer, or nothing if there are none.
    pub fn selectplaylist(&mut self, index: usize)
        ensures
            final(self)@ == old(self)@.playlistselected(index),
            old(self)@.wf() ==> final(self)@.wf(),
    {
        self.selection.selectedplaylist = getclampedrow(Some(index), self.state.playlists.len());
    }

    /// Enter on the focused pane. On a playlist, the queue becomes that
    /// playlist; on a track, the playlist from that track to its end; the
    /// repeat mode and the shuffle that are on are applied to the new
    /// queue, and its first track starts. A playlist without tracks leaves
    /// the queue empty and the playback at rest. On a row of the queue, the
    /// position jumps there. Where the pane has no row selected, or one
    /// outside its list, nothing happens.
    pub fn enter(&mut self) -> (action: PlayerAction)
        requires
            old(self)@.wf(),
        ensures
            final(self)@ == old(self)@.entered(final(self)@.queue.skip(1)),
            action == old(self)@.enteraction(),
            old(self)@.shuffle ==> old(self)@.entershufflesto(final(self)@.queue.skip(1)),
            final(self)@.wf(),
    {
        match self.selection.selectedcolumn {
            CurrentColumn::Playlists => {
                match self.selection.selectedplaylist {
                    Some(p) => {
                        if p < self.state.playlists.len() {
                            self.load(p, 0)
                        } else {
                            PlayerAction::Nothing
                        }
                    },
                    None => PlayerAction::Nothing,
                }
            },
            CurrentColumn::Tracks => {
                let p: usize = self.selection.selectedplaylist.unwrap_or(0);
                match self.selection.selectedtrack {
                    Some(t) => {
                        if p < self.state.playlists.len() && t
                            < self.state.playlists[p].tracks.len() {
                            self.load(p, t)
                        } else {
                            PlayerAction::Nothing
                        }
                    },
                    None => PlayerAction::Nothing,
                }
            },
            CurrentColumn::Queue => {
                match self.selection.selectedqueue {
                    Some(q) => self.playtrackfromqueue(q),
                    None => PlayerAction::Nothing,
                }
            },
        }
    }

    /// Builds the queue from playlist `p`, row `t` onward, applies the
    /// transforms that are on, and starts its first track. Where that
    /// leaves no track, the playback comes to rest.
    fn load(&mut self, p: usize, t: usize) -> (action: PlayerAction)
        requires
            old(self)@.wf(),
            p < old(self)@.playlists.len(),
            t <= old(self)@.tracksof(p as int).len(),
        ensures
            final(self)@ == old(self)@.loaded(p as int, t as int).retransformed(
                final(self)@.queue.skip(1),
            ),
            old(self)@.shuffle ==> old(self)@.loaded(p as int, t as int).rerepeated().shufflesto(
                final(self)@.queue.skip(1),
            ),
            action == old(self)@.loadaction(p as int, t as int),
            final(self)@.wf(),
    {
        let wasplaying: bool = self.state.player.isplaying;
        let queue = tracksfrom(&self.state.playlists[p].tracks, t);
        let holdstracks: bool = queue.len() > 0;
        self.state.player.queuestate.queue = queue;
        self.state.player.queuestate.currentidx = 0;
        self.state.player.currenttime = 0;
        self.state.player.isplaying = holdstracks;
        self.state.player.currentplaylist = Some(p);
        self.state.player.repeatstate.originalqueue = None;
        self.state.player.shufflestate.originalqueue = None;
        self.selection.selectedqueue = if holdstracks {
            Some(0)
        } else {
            None
        };
        let mode = self.state.player.repeatstate.repeatmode;
        if mode != RepeatMode::Off {
            self.handlerepeat(mode);
        }
        if self.state.player.shufflestate.shuffle {
            self.shufflequeue();
        }
        if holdstracks {
            self.playsong()
        } else if wasplaying {
            PlayerAction::Stop
        } else {
            PlayerAction::Nothing
        }
    }

    // --- navigation ---

    /// Moves the focus one pane to the right, from the queue round to the
    /// playlists, and restores the row remembered for the pane it arrives
    /// at, held inside that pane.
    pub fn nextcolumn(&mut self)
        ensures
            final(self)@ == old(self)@.movedhorizontal(false),
            old(self)@.wf() ==> final(self)@.wf(),
            final(self)@.rowinside(),
    {
        let column = match self.selection.selectedcolumn {
            CurrentColumn::Playlists => CurrentColumn::Tracks,
            CurrentColumn::Tracks => CurrentColumn::Queue,
            CurrentColumn::Queue => CurrentColumn::Playlists,
        };
        self.arrive(column);
    }

    /// Moves the focus one pane to the left, from the playlists round to
    /// the queue, and restores the row remembered for the pane it arrives
    /// at, held inside that pane.
    pub fn prevcolumn(&mut self)
        ensures
            final(self)@ == old(self)@.movedhorizontal(true),
            old(self)@.wf() ==> final(self)@.wf(),
            final(self)@.rowinside(),
    {
        let column = match self.selection.selectedcolumn {
            CurrentColumn::Playlists => CurrentColumn::Queue,
            CurrentColumn::Tracks => CurrentColumn::Playlists,
            CurrentColumn::Queue => CurrentColumn::Tracks,
        };
        self.arrive(column);
    }

    /// Gives `column` the focus, with its remembered row held inside it.
    fn arrive(&mut self, column: CurrentColumn)
        ensures
            final(self)@ == (BackendView { column, ..old(self)@ }).withrow(
                column,
                crate::selection::clampedrow(
                    old(self)@.row(column),
                    old(self)@.panelen(column),
                ),
            ),
    {
        self.selection.selectedcolumn = column;
        let row = getclampedrow(self.row(column), self.panelen(column));
        self.setrow(column, row);
    }

    /// Selects the row below in the focused pane, from the last row round
    /// to the first. An empty pane keeps what it has.
    pub fn nextrow(&mut self)
        ensures
            final(self)@ == old(self)@.movedvertical(false),
            old(self)@.wf() ==> final(self)@.wf(),
            old(self)@.panelen(old(self)@.column) > 0 ==> final(self)@.rowinside(),
    {
        let column = self.selection.selectedcolumn;
        let len: usize = self.panelen(column);
        if len > 0 {
            let row: usize = getnextidx(self.row(column), len);
            self.setrow(column, Some(row));
        }
    }

    /// Selects the row above in the focused pane, from the first row round
    /// to the last. An empty pane keeps what it has.
    pub fn prevrow(&mut self)
        ensures
            final(self)@ == old(self)@.movedvertical(true),
            old(self)@.wf() ==> final(self)@.wf(),
            old(self)@.panelen(old(self)@.column) > 0 ==> final(self)@.rowinside(),
    {
        let column = self.selection.selectedcolumn;
        let len: usize = self.panelen(column);
        if len > 0 {
            let row: usize = getprevidx(self.row(column), len);
            self.setrow(column, Some(row));
        }
    }

    /// Sets the selection as it is at startup: the first playlist and its
    /// first track, as far as they exist, and no row of the queue.
    pub fn resetselection(&mut self)
        ensures
            final(self)@ == old(self)@.selectionreset(),
            old(self)@.wf() ==> final(self)@.wf(),
    {
        if self.state.playlists.len() > 0 {
            self.selection.selectedplaylist = Some(0);
            self.selection.selectedtrack = getclampedrow(
                None,
                self.state.playlists[0].tracks.len(),
            );
        } else {
            self.selection.selectedplaylist = None;
            self.selection.selectedtrack = None;
        }
        self.selection.selectedqueue = None;
    }

    fn panelen(&self, column: CurrentColumn) -> (len: usize)
        ensures
            len == self@.panelen(column),
    {
        match column {
            CurrentColumn::Playlists => self.state.playlists.len(),
            CurrentColumn::Tracks => {
                let p: usize = self.selection.selectedplaylist.unwrap_or(0);
                if p < self.state.playlists.len() {
                    self.state.playlists[p].tracks.len()
                } else {
                    0
                }
            },
            CurrentColumn::Queue => self.state.player.queuestate.queue.len(),
        }
    }

    fn row(&self, column: CurrentColumn) -> (row: Option<usize>)
        ensures
            row == self@.row(column),
    {
        match column {
            CurrentColumn::Playlists => self.selection.selectedplaylist,
            CurrentColumn::Tracks => self.selection.selectedtrack,
            CurrentColumn::Queue => self.selection.selectedqueue,
        }
    }

    fn setrow(&mut self, column: CurrentColumn, row: Option<usize>)
        ensures
            final(self)@ == old(self)@.withrow(column, row),
    {
        match column {
            CurrentColumn::Playlists => {
                self.selection.selectedplaylist = row;
            },
            CurrentColumn::Tracks => {
                self.selection.selectedtrack = row;
            },
            CurrentColumn::Queue => {
                self.selection.selectedqueue = row;
            },
        }
    }

    // --- state access ---

    pub fn getstate(&self) -> (state: &AppState)
        ensures
            *state == self.state(),
    {
        &self.state
    }

    pub fn getselection(&self) -> (selection: &SelectionState)
        ensures
            *selection == self.selection(),
    {
        &self.selection
    }

    pub fn getplayingstate(&self) -> (playing: &bool)
        ensures
            *playing == self@.playing,
    {
        &self.state.player.isplaying
    }

    pub fn getplayerstate(&self) -> (player: &PlayerState)
        ensures
            *player == self.state().player,
    {
        &self.state.player
    }

    pub fn getplaylists(&self) -> (playlists: &Vec<Playlist>)
        ensures
            playlists@ == self@.playlists,
    {
        &self.state.playlists
    }

    pub fn getrepeatstate(&self) -> (mode: &RepeatMode)
        ensures
            *mode == self@.repeat,
    {
        &self.state.player.repeatstate.repeatmode
    }

    pub fn getshufflestate(&self) -> (shuffle: &bool)
        ensures
            *shuffle == self@.shuffle,
    {
        &self.state.player.shufflestate.shuffle
    }

    /// Seconds played of the current track, as far as the engine knows.
    pub fn getelapsedduration(&self) -> (elapsed: u32)
        ensures
            elapsed == self@.elapsed,
    {
        self.state.player.currenttime
    }

    /// Length in seconds of the current track, or 0 where there is none.
    pub fn gettotalduration(&self) -> (total: u32)
        ensures
            0 <= self@.index < self@.queue.len() ==> total == self@.current().duration,
            !(0 <= self@.index < self@.queue.len()) ==> total == 0,
    {
        let idx: usize = self.state.player.queuestate.currentidx;
        if idx < self.state.player.queuestate.queue.len() {
            self.state.player.queuestate.queue[idx].duration
        } else {
            0
        }
    }

    /// The track at the position, if the queue holds one there.
    pub fn getcurrentsong(&self) -> (song: Option<&Track>)
        ensures
            0 <= self@.index < self@.queue.len() ==> song == Some(&self@.current()),
            !(0 <= self@.index < self@.queue.len()) ==> song is None,
    {
        let idx: usize = self.state.player.queuestate.currentidx;
        if idx < self.state.player.queuestate.queue.len() {
            Some(&self.state.player.queuestate.queue[idx])
        } else {
            None
        }
    }

    pub fn getqueue(&self) -> (queue: &Vec<Track>)
        ensures
            queue@ == self@.queue,
    {
        &self.state.player.queuestate.queue
    }

    // --- cleanup ---

    /// Brings the playback to rest and orders the process to end.
    pub fn shutdown(&mut self) -> (action: PlayerAction)
        requires
            old(self)@.wf(),
        ensures
            final(self)@ == old(self)@.stopped(),
            action == PlayerAction::Stop,
            final(self)@.wf(),
    {
        self.state.player.isplaying = false;
        PlayerAction::Stop
    }
}

} // verus!
