//! The engine as mathematics: its state as sequences and integers, each
//! operation as a function from state to state, and the laws that hold of
//! them.

use vstd::arithmetic::div_mod::{lemma_mod_bound, lemma_mod_self_0, lemma_small_mod};
use vstd::prelude::*;
use vstd::seq_lib::{group_to_multiset_ensures, to_multiset_len};

use crate::models::{
    CurrentColumn, PlayerAction, Playlist, RepeatMode, Track, MAXQUEUELENGTH, SECONDTICK,
};
use crate::queue::{copies, isrestof, padded, shuffledaround, slicefrom};
use crate::selection::{clampedrow, nextidx, previdx};

verus! {

/// State of the engine.
pub struct BackendView {
    pub playlists: Seq<Playlist>,
    pub queue: Seq<Track>,
    /// Place in the queue of the current track.
    pub index: int,
    /// Seconds played of the current track.
    pub elapsed: int,
    pub playing: bool,
    pub repeat: RepeatMode,
    /// The queue as it was before a repeat mode was switched on.
    pub beforerepeat: Option<Seq<Track>>,
    pub shuffle: bool,
    /// The queue as it was before it was shuffled.
    pub beforeshuffle: Option<Seq<Track>>,
    /// The playlist that the queue was last built from.
    pub source: Option<int>,
    pub column: CurrentColumn,
    pub playlistrow: Option<usize>,
    pub trackrow: Option<usize>,
    pub queuerow: Option<usize>,
}

/// `index`, held inside a list of `len` rows.
pub open spec fn clampedindex(index: int, len: int) -> int {
    if index < len {
        index
    } else {
        len - 1
    }
}

/// The mode that follows `mode` in the rotation off, one, all, off.
pub open spec fn nextmode(mode: RepeatMode) -> RepeatMode {
    match mode {
        RepeatMode::Off => RepeatMode::One,
        RepeatMode::One => RepeatMode::All,
        RepeatMode::All => RepeatMode::Off,
    }
}

/// The pane to the right of `column`, or to its left, in the ring
/// playlists, tracks, queue.
pub open spec fn neighbour(column: CurrentColumn, isleft: bool) -> CurrentColumn {
    match column {
        CurrentColumn::Playlists => if isleft {
            CurrentColumn::Queue
        } else {
            CurrentColumn::Tracks
        },
        CurrentColumn::Tracks => if isleft {
            CurrentColumn::Playlists
        } else {
            CurrentColumn::Queue
        },
        CurrentColumn::Queue => if isleft {
            CurrentColumn::Tracks
        } else {
            CurrentColumn::Playlists
        },
    }
}

impl BackendView {
    /// What holds of every state that the engine reaches: the position lies
    /// in the queue; with an empty queue nothing plays, no time has elapsed
    /// and nothing is saved; a queue is saved only while its transform is
    /// on, and a saved queue is never empty.
    pub open spec fn wf(self) -> bool {
        &&& 0 <= self.index
        &&& self.queue.len() > 0 ==> self.index < self.queue.len()
        &&& self.queue.len() == 0 ==> {
            &&& self.index == 0
            &&& !self.playing
            &&& self.elapsed == 0
            &&& self.beforerepeat is None
            &&& self.beforeshuffle is None
        }
        &&& 0 <= self.elapsed <= u32::MAX
        &&& self.source matches Some(p) ==> 0 <= p < self.playlists.len()
        &&& self.repeat == RepeatMode::Off ==> self.beforerepeat is None
        &&& !self.shuffle ==> self.beforeshuffle is None
        &&& self.beforerepeat matches Some(s) ==> s.len() > 0
        &&& self.beforeshuffle matches Some(s) ==> s.len() > 0
    }

    /// The engine before anything was loaded.
    pub open spec fn initial() -> Self {
        BackendView {
            playlists: Seq::empty(),
            queue: Seq::empty(),
            index: 0,
            elapsed: 0,
            playing: false,
            repeat: RepeatMode::Off,
            beforerepeat: None,
            shuffle: false,
            beforeshuffle: None,
            source: None,
            column: CurrentColumn::Playlists,
            playlistrow: None,
            trackrow: None,
            queuerow: None,
        }
    }

    pub open spec fn tracksof(self, playlist: int) -> Seq<Track> {
        self.playlists[playlist].tracks@
    }

    pub open spec fn current(self) -> Track {
        self.queue[self.index]
    }

    /// The order to start the current track.
    pub open spec fn playcurrent(self) -> PlayerAction {
        PlayerAction::Play(self.current().url)
    }

    /// The queue that a restore falls back to when nothing was saved: the
    /// whole playlist that the queue was built from, or the queue itself
    /// where there is no such playlist or it is empty.
    pub open spec fn fallback(self) -> Seq<Track> {
        match self.source {
            Some(p) if self.tracksof(p).len() > 0 => self.tracksof(p),
            _ => self.queue,
        }
    }

    // ----- selection -----

    /// Rows of a pane. The tracks pane shows the selected playlist, or the
    /// first one while none is selected.
    pub open spec fn panelen(self, column: CurrentColumn) -> int {
        match column {
            CurrentColumn::Playlists => self.playlists.len() as int,
            CurrentColumn::Tracks => {
                let p = self.playlistrow.unwrap_or(0);
                if p < self.playlists.len() {
                    self.tracksof(p as int).len() as int
                } else {
                    0
                }
            },
            CurrentColumn::Queue => self.queue.len() as int,
        }
    }

    pub open spec fn row(self, column: CurrentColumn) -> Option<usize> {
        match column {
            CurrentColumn::Playlists => self.playlistrow,
            CurrentColumn::Tracks => self.trackrow,
            CurrentColumn::Queue => self.queuerow,
        }
    }

    pub open spec fn withrow(self, column: CurrentColumn, row: Option<usize>) -> Self {
        match column {
            CurrentColumn::Playlists => BackendView { playlistrow: row, ..self },
            CurrentColumn::Tracks => BackendView { trackrow: row, ..self },
            CurrentColumn::Queue => BackendView { queuerow: row, ..self },
        }
    }

    /// Whether the focused pane highlights one of its rows, or is empty and
    /// highlights none.
    pub open spec fn rowinside(self) -> bool {
        match self.row(self.column) {
            Some(r) => r < self.panelen(self.column),
            None => self.panelen(self.column) == 0,
        }
    }

    /// One step up or down in the focused pane, wrapping at its ends. The
    /// other panes keep their rows, and an empty pane keeps what it has.
    pub open spec fn movedvertical(self, isup: bool) -> Self {
        let len = self.panelen(self.column);
        let row = self.row(self.column);
        if len <= 0 {
            self
        } else if isup {
            self.withrow(self.column, Some(previdx(row, len) as usize))
        } else {
            self.withrow(self.column, Some(nextidx(row, len) as usize))
        }
    }

    /// The focus moves to the neighbouring pane, whose remembered row is
    /// held inside its present length.
    pub open spec fn movedhorizontal(self, isleft: bool) -> Self {
        let column = neighbour(self.column, isleft);
        BackendView { column, ..self }.withrow(
            column,
            clampedrow(self.row(column), self.panelen(column)),
        )
    }

    /// The selection at startup: the first playlist and its first track,
    /// as far as they exist, and no row of the queue.
    pub open spec fn selectionreset(self) -> Self {
        BackendView {
            playlistrow: clampedrow(None, self.playlists.len() as int),
            trackrow: if self.playlists.len() > 0 {
                clampedrow(None, self.tracksof(0).len() as int)
            } else {
                None
            },
            queuerow: None,
            ..self
        }
    }

    // ----- repeat -----

    /// The queue saved before a transform: the one already held, else `queue`.
    pub open spec fn kept(saved: Option<Seq<Track>>, queue: Seq<Track>) -> Option<Seq<Track>> {
        match saved {
            Some(s) => Some(s),
            None => Some(queue),
        }
    }

    /// The queue brought in line with the repeat mode. All pads the queue
    /// with its own contents; one replaces it by copies of the current
    /// track; both save the queue first unless one is saved already. Off
    /// brings the saved queue back, or else the fallback. An empty queue
    /// stays empty.
    pub open spec fn repeatapplied(self) -> Self {
        if self.queue.len() == 0 {
            self
        } else {
            match self.repeat {
                RepeatMode::All => BackendView {
                    queue: padded(self.queue, MAXQUEUELENGTH as nat),
                    beforerepeat: Self::kept(self.beforerepeat, self.queue),
                    ..self
                },
                RepeatMode::One => BackendView {
                    queue: copies(self.current(), MAXQUEUELENGTH as nat),
                    index: clampedindex(self.index, MAXQUEUELENGTH as int),
                    beforerepeat: Self::kept(self.beforerepeat, self.queue),
                    ..self
                },
                RepeatMode::Off => {
                    let queue = match self.beforerepeat {
                        Some(s) => s,
                        None => self.fallback(),
                    };
                    BackendView {
                        queue,
                        index: clampedindex(self.index, queue.len() as int),
                        beforerepeat: None,
                        ..self
                    }
                },
            }
        }
    }

    /// The next repeat mode, applied to the queue.
    pub open spec fn cycled(self) -> Self {
        self.withmode(nextmode(self.repeat)).repeatapplied()
    }

    // ----- shuffle -----

    /// Shuffle switched on. A queue of two tracks or more is saved, unless
    /// one is saved already, and becomes the current track followed by
    /// `rest`, with the position on that first track.
    pub open spec fn shuffleon(self, rest: Seq<Track>) -> Self {
        if self.queue.len() > 1 {
            BackendView {
                shuffle: true,
                beforeshuffle: Self::kept(self.beforeshuffle, self.queue),
                queue: shuffledaround(self.queue, self.index, rest),
                index: 0,
                ..self
            }
        } else {
            BackendView { shuffle: true, ..self }
        }
    }

    /// Shuffle switched off. The saved queue comes back, or else the
    /// fallback, and the position and the elapsed time return to 0. An
    /// empty queue stays empty.
    pub open spec fn shuffleoff(self) -> Self {
        if self.queue.len() == 0 {
            BackendView { shuffle: false, beforeshuffle: None, ..self }
        } else {
            BackendView {
                shuffle: false,
                queue: match self.beforeshuffle {
                    Some(s) => s,
                    None => self.fallback(),
                },
                beforeshuffle: None,
                index: 0,
                elapsed: 0,
                ..self
            }
        }
    }

    /// The shuffle flag flipped; `rest` is the order that the shuffle gave
    /// to the tracks around the current one, read only when it goes on.
    pub open spec fn shuffletoggled(self, rest: Seq<Track>) -> Self {
        if self.shuffle {
            self.shuffleoff()
        } else {
            self.shuffleon(rest)
        }
    }

    // ----- playback -----

    /// The position after the current track, by the repeat mode: off stops
    /// at the end of the queue, one stays, all wraps round.
    pub open spec fn advanced(self) -> Self {
        if self.queue.len() == 0 {
            self
        } else {
            match self.repeat {
                RepeatMode::Off => if self.index + 1 < self.queue.len() {
                    BackendView { index: self.index + 1, elapsed: 0, playing: true, ..self }
                } else {
                    BackendView { elapsed: 0, playing: false, ..self }
                },
                RepeatMode::One => BackendView { elapsed: 0, playing: true, ..self },
                RepeatMode::All => BackendView {
                    index: (self.index + 1) % (self.queue.len() as int),
                    elapsed: 0,
                    playing: true,
                    ..self
                },
            }
        }
    }

    /// What the process is to do once the state is `self`, after a step
    /// that left an empty queue alone: start the current track if the
    /// engine plays, stop if it came to rest.
    pub open spec fn steppedaction(self) -> PlayerAction {
        if self.queue.len() == 0 {
            PlayerAction::Nothing
        } else if self.playing {
            self.playcurrent()
        } else {
            PlayerAction::Stop
        }
    }

    /// Whether the position is on the last track of the queue.
    pub open spec fn atlast(self) -> bool {
        self.queue.len() > 0 && self.index == self.queue.len() - 1
    }

    /// The playback going, where the queue holds a track to play.
    pub open spec fn started(self) -> Self {
        if self.queue.len() == 0 {
            self
        } else {
            BackendView { playing: true, ..self }
        }
    }

    /// The position before the current track, wrapping to the last track
    /// whatever the repeat mode.
    pub open spec fn rewound(self) -> Self {
        if self.queue.len() == 0 {
            self
        } else {
            BackendView {
                index: if self.index == 0 {
                    self.queue.len() - 1
                } else {
                    self.index - 1
                },
                elapsed: 0,
                playing: true,
                ..self
            }
        }
    }

    /// Pause flipped; with an empty queue there is nothing to pause.
    pub open spec fn pausetoggled(self) -> Self {
        if self.queue.len() == 0 {
            self
        } else {
            BackendView { playing: !self.playing, ..self }
        }
    }

    pub open spec fn pauseaction(self) -> PlayerAction {
        if self.queue.len() == 0 {
            PlayerAction::Nothing
        } else if self.playing {
            PlayerAction::Pause
        } else {
            PlayerAction::Resume
        }
    }

    /// Whether a tick with this counter is one on which time is taken.
    pub open spec fn tickdue(self, counter: u8) -> bool {
        counter == SECONDTICK && self.playing && self.queue.len() > 0
    }

    /// Whether the current track is over on a due tick. A time reported by
    /// the process ends the track one second early; without one the local
    /// count goes up by a second and ends it when it reaches the duration.
    pub open spec fn trackover(self, polled: Option<u32>) -> bool {
        match polled {
            Some(p) => p >= self.current().duration - 1,
            None => self.elapsed + 1 >= self.current().duration,
        }
    }

    /// One tick of the clock.
    pub open spec fn ticked(self, counter: u8, polled: Option<u32>) -> Self {
        if !self.tickdue(counter) {
            self
        } else if self.trackover(polled) {
            self.advanced()
        } else {
            BackendView {
                elapsed: match polled {
                    Some(p) => p as int,
                    None => self.elapsed + 1,
                },
                ..self
            }
        }
    }

    pub open spec fn tickaction(self, counter: u8, polled: Option<u32>) -> PlayerAction {
        if self.tickdue(counter) && self.trackover(polled) {
            self.advanced().steppedaction()
        } else {
            PlayerAction::Nothing
        }
    }

    /// The position set to row `index` of the queue, which starts to play;
    /// a row outside the queue changes nothing.
    pub open spec fn jumped(self, index: int) -> Self {
        if 0 <= index < self.queue.len() {
            BackendView { index, elapsed: 0, playing: true, ..self }
        } else {
            self
        }
    }

    pub open spec fn jumpaction(self, index: int) -> PlayerAction {
        if 0 <= index < self.queue.len() {
            PlayerAction::Play(self.queue[index].url)
        } else {
            PlayerAction::Nothing
        }
    }

    // ----- queue building -----

    /// The queue replaced by `tracks`. Nothing saved survives, and the
    /// queue no longer stems from a playlist. The position restarts if
    /// asked, and is else held inside the new queue.
    pub open spec fn queueset(self, tracks: Seq<Track>, restart: bool) -> Self {
        if tracks.len() == 0 {
            BackendView {
                queue: tracks,
                index: 0,
                elapsed: 0,
                playing: false,
                beforerepeat: None,
                beforeshuffle: None,
                source: None,
                ..self
            }
        } else {
            BackendView {
                queue: tracks,
                index: if restart {
                    0
                } else {
                    clampedindex(self.index, tracks.len() as int)
                },
                elapsed: if restart {
                    0
                } else {
                    self.elapsed
                },
                beforerepeat: None,
                beforeshuffle: None,
                source: None,
                ..self
            }
        }
    }

    pub open spec fn queuesetaction(self, tracks: Seq<Track>) -> PlayerAction {
        if tracks.len() == 0 && self.playing {
            PlayerAction::Stop
        } else {
            PlayerAction::Nothing
        }
    }

    /// `playlist` added behind the playlists that are there.
    pub open spec fn playlistadded(self, playlist: Playlist) -> Self {
        BackendView { playlists: self.playlists.push(playlist), ..self }
    }

    /// The playlist pane set to row `index`, held inside the list.
    pub open spec fn playlistselected(self, index: usize) -> Self {
        BackendView {
            playlistrow: clampedrow(Some(index), self.playlists.len() as int),
            ..self
        }
    }

    /// `track` added behind the last track of the queue.
    pub open spec fn queuedlast(self, track: Track) -> Self {
        BackendView { queue: self.queue.push(track), ..self }
    }

    /// The playback at rest, with the position where it was.
    pub open spec fn stopped(self) -> Self {
        BackendView { playing: false, ..self }
    }

    /// `track` put directly behind the current one, or first into an empty
    /// queue.
    pub open spec fn queuednext(self, track: Track) -> Self {
        if self.queue.len() == 0 {
            BackendView { queue: self.queue.push(track), ..self }
        } else {
            BackendView { queue: self.queue.insert(self.index + 1, track), ..self }
        }
    }

    /// The playlist and the row in it that Enter starts from, if the
    /// focused pane names one: the selected playlist from its top, be it
    /// empty, or the selected track of the playlist shown. A row outside the
    /// list is no start.
    pub open spec fn entrypoint(self) -> Option<(int, int)> {
        match self.column {
            CurrentColumn::Playlists => match self.playlistrow {
                Some(p) if p < self.playlists.len() => Some((p as int, 0)),
                _ => None,
            },
            CurrentColumn::Tracks => {
                let p = self.playlistrow.unwrap_or(0);
                match self.trackrow {
                    Some(t) if p < self.playlists.len() && t < self.tracksof(p as int).len() => Some(
                        (p as int, t as int),
                    ),
                    _ => None,
                }
            },
            CurrentColumn::Queue => None,
        }
    }

    /// A fresh queue: playlist `p` from row `t` to its end, playing from its
    /// first track, with nothing saved and the queue pane on that track. An
    /// empty playlist gives the empty queue: the playback is at rest and the
    /// queue pane highlights nothing.
    pub open spec fn loaded(self, p: int, t: int) -> Self {
        let queue = slicefrom(self.tracksof(p), t);
        BackendView {
            queue,
            index: 0,
            elapsed: 0,
            playing: queue.len() > 0,
            source: Some(p),
            beforerepeat: None,
            beforeshuffle: None,
            queuerow: if queue.len() > 0 {
                Some(0)
            } else {
                None
            },
            ..self
        }
    }

    /// What the process is to do once playlist `p` is loaded from row `t`:
    /// start the track at that row, or, where the playlist is empty, stop
    /// if the engine played.
    pub open spec fn loadaction(self, p: int, t: int) -> PlayerAction {
        if t < self.tracksof(p).len() {
            PlayerAction::Play(self.tracksof(p)[t].url)
        } else if self.playing {
            PlayerAction::Stop
        } else {
            PlayerAction::Nothing
        }
    }

    /// The repeat mode applied if one is on.
    pub open spec fn rerepeated(self) -> Self {
        if self.repeat == RepeatMode::Off {
            self
        } else {
            self.repeatapplied()
        }
    }

    /// The queue shuffled if shuffle is on.
    pub open spec fn reshuffled(self, rest: Seq<Track>) -> Self {
        if self.shuffle {
            self.shuffleon(rest)
        } else {
            self
        }
    }

    /// Whether `rest` is an order that a shuffle of this state may give to
    /// the tracks around the current one: where there is anything to
    /// shuffle, it holds just those tracks.
    pub open spec fn shufflesto(self, rest: Seq<Track>) -> bool {
        self.queue.len() > 1 ==> isrestof(rest, self.queue, self.index)
    }

    /// The transforms that are switched on, applied to a fresh queue: first
    /// the repeat mode, then the shuffle, which orders the other tracks as
    /// `rest`.
    pub open spec fn retransformed(self, rest: Seq<Track>) -> Self {
        self.rerepeated().reshuffled(rest)
    }

    /// The repeat mode set to `mode`, with the queue as it is.
    pub open spec fn withmode(self, mode: RepeatMode) -> Self {
        BackendView { repeat: mode, ..self }
    }

    /// Whether `rest` is an order that the shuffle of an entry may give:
    /// where Enter loads a fresh queue, an order of its tracks around the
    /// first, after the repeat mode was applied.
    pub open spec fn entershufflesto(self, rest: Seq<Track>) -> bool {
        self.entrypoint() matches Some((p, t)) ==> self.loaded(p, t).rerepeated().shufflesto(rest)
    }

    /// Enter. On a playlist or a track it loads a fresh queue and applies
    /// the transforms that are on; an empty playlist empties the queue. On
    /// a row of the queue it jumps there and leaves the queue as it is;
    /// anywhere else it does nothing.
    pub open spec fn entered(self, rest: Seq<Track>) -> Self {
        match self.entrypoint() {
            Some((p, t)) => self.loaded(p, t).retransformed(rest),
            None => if self.column == CurrentColumn::Queue && self.queuerow is Some {
                self.jumped(self.queuerow->0 as int)
            } else {
                self
            },
        }
    }

    pub open spec fn enteraction(self) -> PlayerAction {
        match self.entrypoint() {
            Some((p, t)) => self.loadaction(p, t),
            None => if self.column == CurrentColumn::Queue && self.queuerow is Some {
                self.jumpaction(self.queuerow->0 as int)
            } else {
                PlayerAction::Nothing
            },
        }
    }
}

/// A padded queue holds `cap` tracks, or as many as it held if those were
/// more, and begins with the queue it was padded from; an empty queue stays
/// empty.
pub proof fn lemma_padded(queue: Seq<Track>, cap: nat)
    ensures
        queue.len() == 0 ==> padded(queue, cap).len() == 0,
        queue.len() > 0 && queue.len() < cap ==> padded(queue, cap).len() == cap,
        queue.len() >= cap ==> padded(queue, cap) == queue,
        padded(queue, cap).subrange(0, queue.len() as int) == queue,
{
    if 0 < queue.len() < cap {
        assert forall|i: int| 0 <= i < queue.len() implies padded(queue, cap)[i] == queue[i] by {
            lemma_small_mod(i as nat, queue.len());
        }
    }
    assert(padded(queue, cap).subrange(0, queue.len() as int) =~= queue);
}

/// The steps of the selection and of the playback leave a well-formed
/// state well-formed.
pub proof fn lemma_wf_steps(m: BackendView, flag: bool, counter: u8, polled: Option<u32>)
    requires
        m.wf(),
    ensures
        BackendView::initial().wf(),
        m.movedvertical(flag).wf(),
        m.movedhorizontal(flag).wf(),
        m.selectionreset().wf(),
        m.advanced().wf(),
        m.rewound().wf(),
        m.pausetoggled().wf(),
        m.stopped().wf(),
        m.ticked(counter, polled).wf(),
{
    if m.queue.len() > 0 {
        lemma_mod_bound(m.index + 1, m.queue.len() as int);
    }
}

/// The operations that build or reorder the queue leave a well-formed state
/// well-formed.
pub proof fn lemma_wf_queue(m: BackendView, rest: Seq<Track>, track: Track, index: int)
    requires
        m.wf(),
    ensures
        m.cycled().wf(),
        m.shuffletoggled(rest).wf(),
        m.jumped(index).wf(),
        m.queuedlast(track).wf(),
        m.queuednext(track).wf(),
        m.entered(rest).wf(),
{
    lemma_padded(m.queue, MAXQUEUELENGTH as nat);
    match m.entrypoint() {
        Some((p, t)) => {
            let l = m.loaded(p, t);
            lemma_padded(l.queue, MAXQUEUELENGTH as nat);
        },
        None => {},
    }
}

/// Loading playlists and replacing the queue leave a well-formed state
/// well-formed.
pub proof fn lemma_wf_load(m: BackendView, tracks: Seq<Track>, playlist: Playlist, flag: bool)
    requires
        m.wf(),
    ensures
        m.playlistadded(playlist).wf(),
        m.queueset(tracks, flag).wf(),
{
}

/// A queue that was saved stays saved while its transform is on: switching
/// shuffle on again, or stepping from repeat-one to repeat-all, does not
/// put the transformed queue in its place.
pub proof fn lemma_saved_queue_kept(m: BackendView, rest: Seq<Track>)
    requires
        m.wf(),
    ensures
        m.beforeshuffle is Some ==> m.shuffleon(rest).beforeshuffle == m.beforeshuffle,
        m.beforerepeat is Some && m.repeat == RepeatMode::One ==> m.cycled().beforerepeat
            == m.beforerepeat,
{
}

/// A pane that gets the focus highlights one of its rows, however long it
/// was when it last had the focus, or none if it is empty; and a step up or
/// down in a pane that has rows ends on one of them.
pub proof fn lemma_row_inside(m: BackendView, flag: bool)
    ensures
        m.movedhorizontal(flag).rowinside(),
        m.panelen(m.column) > 0 ==> m.movedvertical(flag).rowinside(),
{
}

/// The playlists are read only: whatever is done to the queue, by shuffle,
/// repeat, Enter or the playback, every playlist stays as it was loaded.
pub proof fn lemma_playlists_kept(m: BackendView, rest: Seq<Track>, counter: u8, polled: Option<u32>)
    requires
        m.wf(),
    ensures
        m.cycled().playlists == m.playlists,
        m.shuffletoggled(rest).playlists == m.playlists,
        m.entered(rest).playlists == m.playlists,
        m.advanced().playlists == m.playlists,
        m.rewound().playlists == m.playlists,
        m.ticked(counter, polled).playlists == m.playlists,
{
}

/// Shuffle switched on and off again gives back the queue exactly as it was,
/// whatever order the shuffle chose. This is said of a state in which
/// shuffle is off; of a queue of one track only where the fallback is that
/// queue, for nothing is saved of so short a queue.
pub proof fn lemma_shuffle_roundtrip(m: BackendView, rest: Seq<Track>, again: Seq<Track>)
    requires
        m.wf(),
        !m.shuffle,
        m.queue.len() == 1 ==> m.fallback() == m.queue,
    ensures
        m.shuffletoggled(rest).shuffle,
        !m.shuffletoggled(rest).shuffletoggled(again).shuffle,
        m.shuffletoggled(rest).shuffletoggled(again).queue == m.queue,
        m.shuffletoggled(rest).shuffletoggled(again).beforeshuffle is None,
{
}

/// A shuffle keeps the track that plays: it is first in the shuffled queue
/// and the position is on it. Where `rest` holds the other tracks, the
/// shuffled queue holds the tracks of the queue, each as often as before.
pub proof fn lemma_shuffle_keeps_tracks(m: BackendView, rest: Seq<Track>)
    requires
        m.wf(),
        !m.shuffle,
        m.queue.len() > 1,
        isrestof(rest, m.queue, m.index),
    ensures
        m.shuffletoggled(rest).current() == m.current(),
        m.shuffletoggled(rest).index == 0,
        m.shuffletoggled(rest).queue.to_multiset() == m.queue.to_multiset(),
        m.shuffletoggled(rest).queue.len() == m.queue.len(),
{
    broadcast use group_to_multiset_ensures;

    let shuffled = m.shuffletoggled(rest).queue;
    assert(rest.len() == m.queue.len() - 1) by {
        to_multiset_len(rest);
        to_multiset_len(m.queue.remove(m.index));
    }
    assert(shuffled.remove(0) =~= rest);
    assert(shuffled.to_multiset() =~= rest.to_multiset().insert(m.current()));
    assert(m.queue.to_multiset() =~= m.queue.remove(m.index).to_multiset().insert(m.current()));
}

/// Three steps of the repeat mode, from off, come back to off with the
/// queue exactly as it was and nothing saved. A queue that was a whole
/// playlist is that playlist again.
pub proof fn lemma_repeat_roundtrip(m: BackendView)
    requires
        m.wf(),
        m.repeat == RepeatMode::Off,
    ensures
        m.cycled().repeat == RepeatMode::One,
        m.cycled().cycled().repeat == RepeatMode::All,
        m.cycled().cycled().cycled().repeat == RepeatMode::Off,
        m.cycled().cycled().cycled().queue == m.queue,
        m.cycled().cycled().cycled().beforerepeat is None,
{
}

/// Once repeat-all is on, a queue that held a track holds `MAXQUEUELENGTH`
/// tracks, or as many as it held if those were more, and still begins with
/// the tracks it held.
pub proof fn lemma_repeat_all_length(m: BackendView)
    requires
        m.wf(),
        m.repeat == RepeatMode::One,
        m.queue.len() > 0,
    ensures
        m.cycled().repeat == RepeatMode::All,
        m.queue.len() < MAXQUEUELENGTH ==> m.cycled().queue.len() == MAXQUEUELENGTH,
        m.queue.len() >= MAXQUEUELENGTH ==> m.cycled().queue.len() == m.queue.len(),
        m.cycled().queue.subrange(0, m.queue.len() as int) == m.queue,
{
    lemma_padded(m.queue, MAXQUEUELENGTH as nat);
}

/// With repeat off, advancing from the last track of the queue stops the
/// playback and leaves the position on that track.
pub proof fn lemma_advance_stops_at_end(m: BackendView)
    requires
        m.wf(),
        m.repeat == RepeatMode::Off,
        m.atlast(),
    ensures
        !m.advanced().playing,
        m.advanced().index == m.index,
        m.advanced().steppedaction() == PlayerAction::Stop,
{
}

/// With repeat-all, advancing from the last track of the queue goes on
/// playing from its first track.
pub proof fn lemma_advance_wraps(m: BackendView)
    requires
        m.wf(),
        m.repeat == RepeatMode::All,
        m.atlast(),
    ensures
        m.advanced().playing,
        m.advanced().index == 0,
        m.advanced().steppedaction() == PlayerAction::Play(m.queue[0].url),
{
    lemma_mod_self_0(m.queue.len() as int);
}

/// Entering on a playlist or a track gives the queue that runs from that
/// row to the end of the playlist, while no transform is on, with the
/// position on its first track. It plays if it holds a track.
pub proof fn lemma_enter_slices(m: BackendView, p: int, t: int, rest: Seq<Track>)
    requires
        m.wf(),
        m.repeat == RepeatMode::Off,
        !m.shuffle,
        m.entrypoint() == Some((p, t)),
    ensures
        m.entered(rest).queue == slicefrom(m.tracksof(p), t),
        t == 0 ==> m.entered(rest).queue == m.tracksof(p),
        m.entered(rest).index == 0,
        m.entered(rest).playing == (t < m.tracksof(p).len()),
        t < m.tracksof(p).len() ==> m.entered(rest).current() == m.tracksof(p)[t],
{
    assert(slicefrom(m.tracksof(p), 0) =~= m.tracksof(p));
}

/// Entering on an empty playlist leaves the empty queue, whatever the
/// queue held and whichever transforms are on: the playback is at rest at
/// position 0 with no time elapsed and nothing saved, and the process is
/// ordered to stop if the engine played.
pub proof fn lemma_enter_empty(m: BackendView, p: int, rest: Seq<Track>)
    requires
        m.wf(),
        m.entrypoint() == Some((p, 0int)),
        m.tracksof(p).len() == 0,
    ensures
        m.entered(rest).queue.len() == 0,
        m.entered(rest).index == 0,
        m.entered(rest).elapsed == 0,
        !m.entered(rest).playing,
        m.entered(rest).beforerepeat is None,
        m.entered(rest).beforeshuffle is None,
        m.enteraction() == m.queuesetaction(Seq::empty()),
{
}

} // verus!
