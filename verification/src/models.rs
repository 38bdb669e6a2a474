//! Shared data structures of the player.

use vstd::prelude::*;

verus! {

/// Length that the play queue is padded to while a repeat mode is active.
pub const MAXQUEUELENGTH: usize = 50;

/// Value of the tick counter on which a second is counted. The counter runs
/// from 0 to 3, at four ticks to the second.
pub const SECONDTICK: u8 = 3;

/// One playable item. A track is a small value: playlists own their tracks,
/// and the queue holds copies of them.
#[derive(Debug, PartialEq, Eq)]
pub struct Track {
    pub title: String,
    pub artist: String,
    /// Length of the track in seconds.
    pub duration: u32,
    pub url: String,
}

impl Clone for Track {
    fn clone(&self) -> (r: Self)
        ensures
            r == *self,
    {
        Track {
            title: self.title.clone(),
            artist: self.artist.clone(),
            duration: self.duration,
            url: self.url.clone(),
        }
    }
}

/// A named, ordered list of tracks. The engine only ever reads playlists.
#[derive(Debug, PartialEq, Eq, Clone)]
pub struct Playlist {
    pub name: String,
    pub tracks: Vec<Track>,
}

/// What happens when the current track ends.
#[derive(Debug, PartialEq, Eq, Clone, Copy, Structural)]
pub enum RepeatMode {
    Off,
    One,
    All,
}

/// The three panes that can hold the input focus.
#[derive(Debug, PartialEq, Eq, Clone, Copy, Structural)]
pub enum CurrentColumn {
    Playlists,
    Tracks,
    Queue,
}

/// What the media process is to do after an operation of the engine. The
/// engine never talks to the process; whoever owns it carries the action out
/// and reports a failed start with `Backend::playfailed`.
#[derive(Debug, PartialEq, Eq, Clone)]
pub enum PlayerAction {
    /// Leave the process as it is.
    Nothing,
    /// End the running process, if any, and start one on this address.
    Play(String),
    /// Hold the running process.
    Pause,
    /// Let the held process go on; never starts a new one.
    Resume,
    /// End the running process.
    Stop,
}

/// The play queue and the place in it of the track that plays.
#[derive(Debug, PartialEq, Eq, Clone)]
pub struct QueueState {
    pub queue: Vec<Track>,
    pub currentidx: usize,
}

/// The repeat mode, and the queue as it was before a mode was switched on.
#[derive(Debug, PartialEq, Eq, Clone)]
pub struct RepeatState {
    pub repeatmode: RepeatMode,
    pub originalqueue: Option<Vec<Track>>,
}

/// The shuffle flag, and the queue as it was before it was shuffled.
#[derive(Debug, PartialEq, Eq, Clone)]
pub struct ShuffleState {
    pub shuffle: bool,
    pub originalqueue: Option<Vec<Track>>,
}

/// Everything about the playback: whether it goes, how far into the track,
/// and the queue with its transforms.
#[derive(Debug, Clone)]
pub struct PlayerState {
    pub isplaying: bool,
    /// Seconds played of the current track.
    pub currenttime: u32,
    pub queuestate: QueueState,
    pub repeatstate: RepeatState,
    pub shufflestate: ShuffleState,
    /// The playlist that the queue was last built from.
    pub currentplaylist: Option<usize>,
}

/// The focused pane and the row remembered for each pane.
#[derive(Debug, Clone)]
pub struct SelectionState {
    pub selectedcolumn: CurrentColumn,
    pub selectedplaylist: Option<usize>,
    pub selectedtrack: Option<usize>,
    pub selectedqueue: Option<usize>,
}

/// The playlists that were loaded, and the playback over them.
#[derive(Debug, Clone)]
pub struct AppState {
    pub playlists: Vec<Playlist>,
    pub player: PlayerState,
}

} // verus!
