use mpvlayer::backend::Backend;
use mpvlayer::models::{CurrentColumn, PlayerAction, Playlist, RepeatMode, Track};

fn track(name: &str, duration: u32) -> Track {
    Track {
        title: name.to_string(),
        artist: "someone".to_string(),
        duration,
        url: format!("https://example.org/{}", name),
    }
}

fn tracks(names: &[&str]) -> Vec<Track> {
    names.iter().map(|n| track(n, 100)).collect()
}

fn numbered(count: usize) -> Vec<Track> {
    (0..count).map(|i| track(&format!("t{}", i), 100)).collect()
}

fn playlist(name: &str, names: &[&str]) -> Playlist {
    Playlist { name: name.to_string(), tracks: tracks(names) }
}

fn play(name: &str) -> PlayerAction {
    PlayerAction::Play(format!("https://example.org/{}", name))
}

/// An engine with the playlist `[a, b, c, d]`, started as at startup.
fn loaded() -> Backend {
    let mut backend = Backend::new();
    backend.addplaylist(playlist("first", &["a", "b", "c", "d"]));
    backend.resetselection();
    backend
}

/// An engine that plays the whole playlist `[a, b, c, d]` from its top.
fn playing() -> Backend {
    let mut backend = loaded();
    assert_eq!(backend.enter(), play("a"));
    backend
}

fn sorted(mut list: Vec<Track>) -> Vec<Track> {
    list.sort_by(|x, y| x.title.cmp(&y.title));
    list
}

#[test]
fn new_engine_is_empty() {
    let backend = Backend::new();
    assert!(backend.valid());
    assert!(backend.getplaylists().is_empty());
    assert!(backend.getqueue().is_empty());
    assert!(!*backend.getplayingstate());
    assert!(!*backend.getshufflestate());
    assert_eq!(*backend.getrepeatstate(), RepeatMode::Off);
    assert_eq!(backend.getcurrentsong(), None);
    assert_eq!(backend.getelapsedduration(), 0);
    assert_eq!(backend.gettotalduration(), 0);
    assert_eq!(backend.getselection().selectedcolumn, CurrentColumn::Playlists);
    assert_eq!(backend.getselection().selectedplaylist, None);
    assert_eq!(backend.getselection().selectedtrack, None);
    assert_eq!(backend.getselection().selectedqueue, None);
}

#[test]
fn empty_engine_ignores_everything() {
    let mut backend = Backend::new();
    assert_eq!(backend.next(), PlayerAction::Nothing);
    assert_eq!(backend.prev(), PlayerAction::Nothing);
    assert_eq!(backend.playpause(), PlayerAction::Nothing);
    assert_eq!(backend.enter(), PlayerAction::Nothing);
    assert_eq!(backend.playtrackfromqueue(0), PlayerAction::Nothing);
    assert_eq!(backend.tick(3, Some(500)), PlayerAction::Nothing);
    backend.toggleshuffle();
    backend.cyclerepeat();
    backend.nextrow();
    backend.prevrow();
    backend.nextcolumn();
    backend.prevcolumn();
    assert!(backend.getqueue().is_empty());
    assert!(!*backend.getplayingstate());
    assert_eq!(backend.getstate().player.queuestate.currentidx, 0);
    assert_eq!(backend.getselection().selectedplaylist, None);
    assert_eq!(backend.getselection().selectedtrack, None);
    assert_eq!(backend.getselection().selectedqueue, None);
    assert!(backend.valid());
}

#[test]
fn flags_turn_even_on_an_empty_queue() {
    let mut backend = Backend::new();
    backend.toggleshuffle();
    assert!(*backend.getshufflestate());
    backend.cyclerepeat();
    assert_eq!(*backend.getrepeatstate(), RepeatMode::One);
    assert!(backend.getqueue().is_empty());
    assert!(backend.valid());
}

#[test]
fn startup_selection() {
    let backend = loaded();
    assert_eq!(backend.getselection().selectedplaylist, Some(0));
    assert_eq!(backend.getselection().selectedtrack, Some(0));
    assert_eq!(backend.getselection().selectedqueue, None);

    let mut empty = Backend::new();
    empty.addplaylist(playlist("empty", &[]));
    empty.resetselection();
    assert_eq!(empty.getselection().selectedplaylist, Some(0));
    assert_eq!(empty.getselection().selectedtrack, None);
}

#[test]
fn enter_from_track() {
    let mut backend = loaded();
    backend.nextcolumn();
    backend.nextrow();
    backend.nextrow();
    assert_eq!(backend.getselection().selectedtrack, Some(2));
    assert_eq!(backend.enter(), play("c"));
    assert_eq!(*backend.getqueue(), tracks(&["c", "d"]));
    assert_eq!(backend.getstate().player.queuestate.currentidx, 0);
    assert!(*backend.getplayingstate());
    assert_eq!(backend.getselection().selectedqueue, Some(0));
    assert_eq!(backend.getstate().player.currentplaylist, Some(0));
    assert_eq!(backend.getplaylists()[0].tracks, tracks(&["a", "b", "c", "d"]));
    assert!(backend.valid());
}

#[test]
fn enter_on_playlist_takes_it_from_the_top() {
    let mut backend = loaded();
    backend.nextcolumn();
    backend.nextrow();
    backend.prevcolumn();
    assert_eq!(backend.getselection().selectedtrack, Some(1));
    assert_eq!(backend.enter(), play("a"));
    assert_eq!(*backend.getqueue(), tracks(&["a", "b", "c", "d"]));
    assert_eq!(backend.getstate().player.queuestate.currentidx, 0);
}

#[test]
fn enter_on_empty_playlist_empties_the_queue() {
    let mut backend = playing();
    backend.next();
    backend.tick(3, Some(7));
    backend.addplaylist(playlist("empty", &[]));
    backend.selectplaylist(1);
    assert_eq!(backend.enter(), PlayerAction::Stop);
    assert!(backend.getqueue().is_empty());
    assert!(!*backend.getplayingstate());
    assert_eq!(backend.getstate().player.queuestate.currentidx, 0);
    assert_eq!(backend.getelapsedduration(), 0);
    assert_eq!(backend.getcurrentsong(), None);
    assert_eq!(backend.getstate().player.currentplaylist, Some(1));
    assert_eq!(backend.getselection().selectedqueue, None);
    assert!(backend.valid());
    assert_eq!(backend.enter(), PlayerAction::Nothing);
    assert!(backend.getqueue().is_empty());
}

#[test]
fn enter_on_empty_playlist_drops_what_was_saved() {
    let mut backend = playing();
    backend.cyclerepeat();
    backend.toggleshuffle();
    assert!(backend.getstate().player.repeatstate.originalqueue.is_some());
    assert!(backend.getstate().player.shufflestate.originalqueue.is_some());
    backend.playpause();
    backend.addplaylist(playlist("empty", &[]));
    backend.selectplaylist(1);
    assert_eq!(backend.enter(), PlayerAction::Nothing);
    assert!(backend.getqueue().is_empty());
    assert_eq!(backend.getstate().player.repeatstate.originalqueue, None);
    assert_eq!(backend.getstate().player.shufflestate.originalqueue, None);
    assert_eq!(*backend.getrepeatstate(), RepeatMode::One);
    assert!(*backend.getshufflestate());
    assert!(backend.valid());
    backend.cyclerepeat();
    backend.cyclerepeat();
    backend.toggleshuffle();
    assert!(backend.getqueue().is_empty());
    assert!(backend.valid());
}

#[test]
fn enter_on_playlist_ignores_the_remembered_track_row() {
    let mut backend = loaded();
    backend.addplaylist(playlist("second", &["x", "y"]));
    backend.nextcolumn();
    backend.prevrow();
    assert_eq!(backend.getselection().selectedtrack, Some(3));
    backend.prevcolumn();
    backend.selectplaylist(1);
    assert_eq!(backend.enter(), play("x"));
    assert_eq!(*backend.getqueue(), tracks(&["x", "y"]));
    assert_eq!(backend.getstate().player.queuestate.currentidx, 0);
    assert!(backend.valid());
}

#[test]
fn enter_on_a_track_row_of_an_empty_playlist_does_nothing() {
    let mut backend = playing();
    backend.addplaylist(playlist("empty", &[]));
    backend.nextcolumn();
    backend.selectplaylist(1);
    assert_eq!(backend.getselection().selectedtrack, Some(0));
    assert_eq!(backend.enter(), PlayerAction::Nothing);
    assert_eq!(*backend.getqueue(), tracks(&["a", "b", "c", "d"]));
    assert!(*backend.getplayingstate());
}

#[test]
fn enter_on_queue_row_jumps() {
    let mut backend = playing();
    backend.prevcolumn();
    assert_eq!(backend.getselection().selectedcolumn, CurrentColumn::Queue);
    backend.nextrow();
    backend.nextrow();
    assert_eq!(backend.enter(), play("c"));
    assert_eq!(*backend.getqueue(), tracks(&["a", "b", "c", "d"]));
    assert_eq!(backend.getstate().player.queuestate.currentidx, 2);
    assert_eq!(backend.getcurrentsong(), Some(&track("c", 100)));
}

#[test]
fn enter_with_nothing_selected_does_nothing() {
    let mut backend = Backend::new();
    backend.addplaylist(playlist("first", &["a"]));
    assert_eq!(backend.enter(), PlayerAction::Nothing);
    backend.addtoqueue(track("x", 1));
    backend.prevcolumn();
    backend.setqueue(tracks(&["y"]), true);
    assert_eq!(backend.getselection().selectedqueue, Some(0));
    assert_eq!(backend.enter(), play("y"));
}

#[test]
fn advance_steps_through_the_queue() {
    let mut backend = playing();
    assert_eq!(backend.next(), play("b"));
    assert_eq!(backend.getstate().player.queuestate.currentidx, 1);
    assert_eq!(backend.next(), play("c"));
    assert_eq!(backend.next(), play("d"));
    assert_eq!(backend.getstate().player.queuestate.currentidx, 3);
    assert!(*backend.getplayingstate());
}

#[test]
fn advance_without_repeat_stops_at_the_end() {
    let mut backend = playing();
    backend.playtrackfromqueue(3);
    assert_eq!(backend.next(), PlayerAction::Stop);
    assert!(!*backend.getplayingstate());
    assert_eq!(backend.getstate().player.queuestate.currentidx, 3);
    assert!(backend.valid());
}

#[test]
fn advance_with_repeat_all_wraps() {
    let mut backend = Backend::new();
    backend.cyclerepeat();
    backend.cyclerepeat();
    assert_eq!(*backend.getrepeatstate(), RepeatMode::All);
    backend.setqueue(tracks(&["a", "b", "c"]), true);
    assert_eq!(backend.playtrackfromqueue(2), play("c"));
    assert_eq!(backend.next(), play("a"));
    assert_eq!(backend.getstate().player.queuestate.currentidx, 0);
    assert!(*backend.getplayingstate());
}

#[test]
fn advance_with_repeat_one_stays() {
    let mut backend = Backend::new();
    backend.cyclerepeat();
    backend.setqueue(tracks(&["a", "b", "c"]), true);
    assert_eq!(backend.playtrackfromqueue(1), play("b"));
    assert_eq!(backend.tick(3, None), PlayerAction::Nothing);
    assert_eq!(backend.getelapsedduration(), 1);
    assert_eq!(backend.next(), play("b"));
    assert_eq!(backend.getstate().player.queuestate.currentidx, 1);
    assert_eq!(backend.getelapsedduration(), 0);
}

#[test]
fn prev_steps_back_and_wraps() {
    let mut backend = playing();
    assert_eq!(backend.prev(), play("d"));
    assert_eq!(backend.getstate().player.queuestate.currentidx, 3);
    assert_eq!(backend.prev(), play("c"));
    assert_eq!(backend.getstate().player.queuestate.currentidx, 2);
}

#[test]
fn prev_wraps_whatever_the_repeat_mode() {
    for steps in 0..3 {
        let mut backend = playing();
        for _ in 0..steps {
            backend.cyclerepeat();
        }
        let last = backend.getqueue().len() - 1;
        let expected = backend.getqueue()[last].url.clone();
        backend.playtrackfromqueue(0);
        assert_eq!(backend.prev(), PlayerAction::Play(expected));
        assert_eq!(backend.getstate().player.queuestate.currentidx, last);
    }
}

#[test]
fn pause_and_resume() {
    let mut backend = playing();
    assert_eq!(backend.playpause(), PlayerAction::Pause);
    assert!(!*backend.getplayingstate());
    assert_eq!(backend.playpause(), PlayerAction::Resume);
    assert!(*backend.getplayingstate());
    assert_eq!(backend.getstate().player.queuestate.currentidx, 0);
}

#[test]
fn failed_start_halts_and_keeps_the_position() {
    let mut backend = playing();
    backend.next();
    backend.playfailed();
    assert!(!*backend.getplayingstate());
    assert_eq!(backend.getstate().player.queuestate.currentidx, 1);
    assert_eq!(*backend.getqueue(), tracks(&["a", "b", "c", "d"]));
}

#[test]
fn shutdown_stops() {
    let mut backend = playing();
    assert_eq!(backend.shutdown(), PlayerAction::Stop);
    assert!(!*backend.getplayingstate());
    assert!(backend.valid());
}

#[test]
fn tick_counts_seconds_on_every_fourth_tick() {
    let mut backend = playing();
    for counter in 0..3u8 {
        assert_eq!(backend.tick(counter, None), PlayerAction::Nothing);
        assert!(!backend.needselapsed(counter));
    }
    assert_eq!(backend.getelapsedduration(), 0);
    assert!(backend.needselapsed(3));
    assert_eq!(backend.tick(3, None), PlayerAction::Nothing);
    assert_eq!(backend.getelapsedduration(), 1);
}

#[test]
fn tick_takes_the_reported_time() {
    let mut backend = playing();
    assert_eq!(backend.tick(3, Some(42)), PlayerAction::Nothing);
    assert_eq!(backend.getelapsedduration(), 42);
    assert_eq!(backend.tick(3, Some(98)), PlayerAction::Nothing);
    assert_eq!(backend.getelapsedduration(), 98);
    assert_eq!(backend.getstate().player.queuestate.currentidx, 0);
}

#[test]
fn tick_ends_a_track_one_second_early_on_reported_time() {
    let mut backend = playing();
    assert_eq!(backend.tick(3, Some(99)), play("b"));
    assert_eq!(backend.getstate().player.queuestate.currentidx, 1);
    assert_eq!(backend.getelapsedduration(), 0);
}

#[test]
fn tick_ends_a_track_at_its_duration_on_the_local_count() {
    let mut backend = playing();
    for _ in 0..99 {
        assert_eq!(backend.tick(3, None), PlayerAction::Nothing);
    }
    assert_eq!(backend.getelapsedduration(), 99);
    assert_eq!(backend.tick(3, None), play("b"));
    assert_eq!(backend.getelapsedduration(), 0);
}

#[test]
fn tick_does_nothing_while_paused() {
    let mut backend = playing();
    backend.playpause();
    assert!(!backend.needselapsed(3));
    assert_eq!(backend.tick(3, Some(1000)), PlayerAction::Nothing);
    assert_eq!(backend.getelapsedduration(), 0);
    assert_eq!(backend.getstate().player.queuestate.currentidx, 0);
}

#[test]
fn tick_on_a_track_without_duration_advances() {
    let mut backend = Backend::new();
    backend.setqueue(vec![track("z", 0), track("y", 5)], true);
    backend.playtrackfromqueue(0);
    assert_eq!(backend.tick(3, Some(0)), play("y"));
    backend.playtrackfromqueue(0);
    assert_eq!(backend.tick(3, None), play("y"));
}

#[test]
fn end_to_end() {
    let mut backend = Backend::new();
    backend.addplaylist(Playlist {
        name: "list".to_string(),
        tracks: vec![track("s1", 180), track("s2", 90)],
    });
    backend.resetselection();
    assert_eq!(backend.enter(), play("s1"));
    assert_eq!(*backend.getqueue(), vec![track("s1", 180), track("s2", 90)]);
    assert_eq!(backend.getstate().player.queuestate.currentidx, 0);
    assert_eq!(backend.gettotalduration(), 180);

    let mut counter: u8 = 0;
    let mut seconds = 0;
    let mut action = PlayerAction::Nothing;
    while action == PlayerAction::Nothing {
        action = backend.tick(counter, None);
        if counter == 3 {
            seconds += 1;
        }
        counter = (counter + 1) % 4;
    }
    assert_eq!(seconds, 180);
    assert_eq!(action, play("s2"));
    assert_eq!(backend.getstate().player.queuestate.currentidx, 1);
    assert_eq!(backend.getelapsedduration(), 0);
    assert!(*backend.getplayingstate());

    let mut seconds = 0;
    let mut action = PlayerAction::Nothing;
    while action == PlayerAction::Nothing {
        action = backend.tick(3, None);
        seconds += 1;
    }
    assert_eq!(seconds, 90);
    assert_eq!(action, PlayerAction::Stop);
    assert!(!*backend.getplayingstate());
    assert_eq!(backend.getstate().player.queuestate.currentidx, 1);
    assert_eq!(backend.getelapsedduration(), 0);
    assert_eq!(backend.tick(3, None), PlayerAction::Nothing);
    assert!(backend.valid());
}

#[test]
fn shuffle_keeps_the_playing_track_first() {
    let mut backend = Backend::new();
    backend.setqueue(numbered(40), true);
    backend.playtrackfromqueue(17);
    backend.tick(3, Some(12));
    backend.toggleshuffle();
    assert!(*backend.getshufflestate());
    assert_eq!(backend.getqueue().len(), 40);
    assert_eq!(backend.getqueue()[0], track("t17", 100));
    assert_eq!(backend.getstate().player.queuestate.currentidx, 0);
    assert_eq!(backend.getelapsedduration(), 12);
    assert_eq!(sorted(backend.getqueue().clone()), sorted(numbered(40)));
    assert_eq!(backend.getstate().player.shufflestate.originalqueue, Some(numbered(40)));
    assert!(backend.valid());
}

#[test]
fn shuffle_changes_the_order() {
    let mut changed = false;
    for _ in 0..5 {
        let mut backend = Backend::new();
        backend.setqueue(numbered(40), true);
        backend.toggleshuffle();
        if *backend.getqueue() != numbered(40) {
            changed = true;
        }
    }
    assert!(changed);
}

#[test]
fn shuffle_twice_restores_the_queue() {
    let mut backend = Backend::new();
    backend.setqueue(numbered(30), true);
    backend.playtrackfromqueue(4);
    backend.toggleshuffle();
    backend.toggleshuffle();
    assert!(!*backend.getshufflestate());
    assert_eq!(*backend.getqueue(), numbered(30));
    assert_eq!(backend.getqueue()[0], track("t0", 100));
    assert_eq!(backend.getstate().player.shufflestate.originalqueue, None);
    assert_eq!(backend.getstate().player.queuestate.currentidx, 0);
    assert_eq!(backend.getelapsedduration(), 0);
}

#[test]
fn shuffle_of_short_queue_leaves_it() {
    let mut backend = Backend::new();
    backend.setqueue(tracks(&["a"]), true);
    backend.toggleshuffle();
    assert_eq!(*backend.getqueue(), tracks(&["a"]));
    assert_eq!(backend.getstate().player.shufflestate.originalqueue, None);
    backend.toggleshuffle();
    assert_eq!(*backend.getqueue(), tracks(&["a"]));
}

#[test]
fn shuffle_off_without_a_saved_queue_falls_back_to_the_playlist() {
    let mut backend = loaded();
    backend.nextcolumn();
    backend.prevrow();
    assert_eq!(backend.enter(), play("d"));
    assert_eq!(*backend.getqueue(), tracks(&["d"]));
    backend.toggleshuffle();
    assert_eq!(*backend.getqueue(), tracks(&["d"]));
    backend.toggleshuffle();
    assert_eq!(*backend.getqueue(), tracks(&["a", "b", "c", "d"]));
    assert_eq!(backend.getstate().player.queuestate.currentidx, 0);
}

#[test]
fn shufflewith_takes_the_given_order() {
    let mut backend = Backend::new();
    backend.setqueue(tracks(&["a", "b", "c", "d"]), true);
    backend.playtrackfromqueue(2);
    backend.shufflewith(tracks(&["d", "a", "b"]));
    assert!(*backend.getshufflestate());
    assert_eq!(*backend.getqueue(), tracks(&["c", "d", "a", "b"]));
    assert_eq!(backend.getstate().player.queuestate.currentidx, 0);
    assert_eq!(
        backend.getstate().player.shufflestate.originalqueue,
        Some(tracks(&["a", "b", "c", "d"]))
    );
    backend.shufflewith(tracks(&["b", "a", "d"]));
    assert_eq!(*backend.getqueue(), tracks(&["c", "b", "a", "d"]));
    assert_eq!(
        backend.getstate().player.shufflestate.originalqueue,
        Some(tracks(&["a", "b", "c", "d"]))
    );
    backend.toggleshuffle();
    assert_eq!(*backend.getqueue(), tracks(&["a", "b", "c", "d"]));
}

#[test]
fn repeat_modes_rotate() {
    let mut backend = Backend::new();
    assert_eq!(*backend.getrepeatstate(), RepeatMode::Off);
    backend.cyclerepeat();
    assert_eq!(*backend.getrepeatstate(), RepeatMode::One);
    backend.cyclerepeat();
    assert_eq!(*backend.getrepeatstate(), RepeatMode::All);
    backend.cyclerepeat();
    assert_eq!(*backend.getrepeatstate(), RepeatMode::Off);
}

#[test]
fn repeat_one_fills_the_queue_with_the_current_track() {
    let mut backend = playing();
    backend.next();
    backend.cyclerepeat();
    assert_eq!(backend.getqueue().len(), 50);
    assert!(backend.getqueue().iter().all(|t| *t == track("b", 100)));
    assert_eq!(backend.getstate().player.queuestate.currentidx, 1);
    assert_eq!(
        backend.getstate().player.repeatstate.originalqueue,
        Some(tracks(&["a", "b", "c", "d"]))
    );
    assert!(backend.valid());
}

#[test]
fn repeat_round_trip_restores_the_queue() {
    let mut backend = playing();
    backend.next();
    backend.next();
    backend.cyclerepeat();
    backend.cyclerepeat();
    backend.cyclerepeat();
    assert_eq!(*backend.getrepeatstate(), RepeatMode::Off);
    assert_eq!(*backend.getqueue(), tracks(&["a", "b", "c", "d"]));
    assert_eq!(*backend.getqueue(), backend.getplaylists()[0].tracks);
    assert_eq!(backend.getstate().player.repeatstate.originalqueue, None);
    assert_eq!(backend.getstate().player.queuestate.currentidx, 2);
}

#[test]
fn repeat_all_pads_the_queue() {
    let mut backend = Backend::new();
    backend.cyclerepeat();
    backend.setqueue(tracks(&["a", "b", "c"]), true);
    backend.cyclerepeat();
    assert_eq!(*backend.getrepeatstate(), RepeatMode::All);
    assert_eq!(backend.getqueue().len(), 50);
    let first = tracks(&["a", "b", "c"]);
    for (i, t) in backend.getqueue().iter().enumerate() {
        assert_eq!(*t, first[i % 3]);
    }
    assert_eq!(backend.getstate().player.repeatstate.originalqueue, Some(first.clone()));
    backend.cyclerepeat();
    assert_eq!(*backend.getqueue(), first);
}

#[test]
fn repeat_all_leaves_a_long_queue() {
    let mut backend = Backend::new();
    backend.cyclerepeat();
    backend.setqueue(numbered(60), true);
    backend.cyclerepeat();
    assert_eq!(*backend.getqueue(), numbered(60));
}

#[test]
fn repeat_off_without_a_saved_queue_falls_back_to_the_playlist() {
    let mut backend = Backend::new();
    backend.addplaylist(playlist("first", &["a", "b", "c", "d"]));
    backend.resetselection();
    backend.cyclerepeat();
    backend.cyclerepeat();
    backend.nextcolumn();
    backend.prevrow();
    backend.enter();
    assert_eq!(backend.getqueue().len(), 50);
    let mut fresh = Backend::new();
    fresh.addplaylist(playlist("first", &["a", "b", "c", "d"]));
    fresh.resetselection();
    fresh.enter();
    fresh.cyclerepeat();
    fresh.cyclerepeat();
    fresh.addtoqueue(track("x", 1));
    fresh.cyclerepeat();
    assert_eq!(*fresh.getqueue(), tracks(&["a", "b", "c", "d"]));
}

#[test]
fn enter_applies_the_transforms_that_are_on() {
    let mut backend = loaded();
    backend.cyclerepeat();
    backend.cyclerepeat();
    backend.toggleshuffle();
    backend.nextcolumn();
    backend.nextrow();
    assert_eq!(backend.enter(), play("b"));
    assert_eq!(backend.getqueue().len(), 50);
    assert_eq!(backend.getqueue()[0], track("b", 100));
    assert_eq!(backend.getstate().player.queuestate.currentidx, 0);
    assert_eq!(
        backend.getstate().player.repeatstate.originalqueue,
        Some(tracks(&["b", "c", "d"]))
    );
    let mut padded = tracks(&["b", "c", "d"]);
    mpvlayer::queue::padtracks(&mut padded);
    assert_eq!(backend.getstate().player.shufflestate.originalqueue, Some(padded.clone()));
    assert_eq!(sorted(backend.getqueue().clone()), sorted(padded));
    backend.toggleshuffle();
    backend.cyclerepeat();
    assert_eq!(*backend.getqueue(), tracks(&["b", "c", "d"]));
}

#[test]
fn enter_with_repeat_one() {
    let mut backend = loaded();
    backend.cyclerepeat();
    backend.nextcolumn();
    backend.nextrow();
    assert_eq!(backend.enter(), play("b"));
    assert_eq!(backend.getqueue().len(), 50);
    assert!(backend.getqueue().iter().all(|t| *t == track("b", 100)));
}

#[test]
fn enter_drops_what_was_saved() {
    let mut backend = playing();
    backend.toggleshuffle();
    backend.addplaylist(playlist("second", &["x", "y"]));
    backend.toggleshuffle();
    backend.cyclerepeat();
    backend.selectplaylist(1);
    backend.cyclerepeat();
    backend.cyclerepeat();
    assert_eq!(backend.enter(), play("x"));
    assert_eq!(*backend.getqueue(), tracks(&["x", "y"]));
    assert_eq!(backend.getstate().player.repeatstate.originalqueue, None);
    assert_eq!(backend.getstate().player.shufflestate.originalqueue, None);
}

#[test]
fn set_queue_replaces_the_queue() {
    let mut backend = playing();
    backend.next();
    backend.next();
    backend.tick(3, Some(7));
    assert_eq!(backend.setqueue(tracks(&["x", "y"]), false), PlayerAction::Nothing);
    assert_eq!(*backend.getqueue(), tracks(&["x", "y"]));
    assert_eq!(backend.getstate().player.queuestate.currentidx, 1);
    assert_eq!(backend.getelapsedduration(), 7);
    assert_eq!(backend.getstate().player.currentplaylist, None);
    assert_eq!(backend.setqueue(tracks(&["p", "q", "r"]), true), PlayerAction::Nothing);
    assert_eq!(backend.getstate().player.queuestate.currentidx, 0);
    assert_eq!(backend.getelapsedduration(), 0);
    assert!(backend.valid());
}

#[test]
fn set_empty_queue_stops() {
    let mut backend = playing();
    backend.tick(3, Some(7));
    assert_eq!(backend.setqueue(Vec::new(), false), PlayerAction::Stop);
    assert!(!*backend.getplayingstate());
    assert_eq!(backend.getelapsedduration(), 0);
    assert_eq!(backend.getstate().player.queuestate.currentidx, 0);
    assert_eq!(backend.setqueue(Vec::new(), true), PlayerAction::Nothing);
    assert!(backend.valid());
}

#[test]
fn add_to_queue_appends() {
    let mut backend = Backend::new();
    backend.addtoqueue(track("a", 1));
    backend.addtoqueue(track("b", 2));
    assert_eq!(*backend.getqueue(), vec![track("a", 1), track("b", 2)]);
    assert_eq!(backend.getcurrentsong(), Some(&track("a", 1)));
    assert_eq!(backend.gettotalduration(), 1);
    assert!(!*backend.getplayingstate());
}

#[test]
fn play_next_goes_behind_the_current_track() {
    let mut backend = playing();
    backend.next();
    backend.playnext(track("x", 1));
    assert_eq!(
        *backend.getqueue(),
        vec![track("a", 100), track("b", 100), track("x", 1), track("c", 100), track("d", 100)]
    );
    assert_eq!(backend.getstate().player.queuestate.currentidx, 1);
    assert_eq!(backend.next(), play("x"));

    let mut empty = Backend::new();
    empty.playnext(track("x", 1));
    assert_eq!(*empty.getqueue(), vec![track("x", 1)]);
}

#[test]
fn play_track_from_queue_outside_does_nothing() {
    let mut backend = playing();
    assert_eq!(backend.playtrackfromqueue(4), PlayerAction::Nothing);
    assert_eq!(backend.getstate().player.queuestate.currentidx, 0);
}

#[test]
fn select_playlist_clamps() {
    let mut backend = Backend::new();
    backend.selectplaylist(3);
    assert_eq!(backend.getselection().selectedplaylist, None);
    backend.addplaylist(playlist("a", &[]));
    backend.addplaylist(playlist("b", &[]));
    backend.selectplaylist(1);
    assert_eq!(backend.getselection().selectedplaylist, Some(1));
    backend.selectplaylist(2);
    assert_eq!(backend.getselection().selectedplaylist, Some(1));
    backend.selectplaylist(0);
    assert_eq!(backend.getselection().selectedplaylist, Some(0));
}

#[test]
fn columns_go_round_the_ring() {
    let mut backend = loaded();
    backend.nextcolumn();
    assert_eq!(backend.getselection().selectedcolumn, CurrentColumn::Tracks);
    backend.nextcolumn();
    assert_eq!(backend.getselection().selectedcolumn, CurrentColumn::Queue);
    backend.nextcolumn();
    assert_eq!(backend.getselection().selectedcolumn, CurrentColumn::Playlists);
    backend.prevcolumn();
    assert_eq!(backend.getselection().selectedcolumn, CurrentColumn::Queue);
    backend.prevcolumn();
    assert_eq!(backend.getselection().selectedcolumn, CurrentColumn::Tracks);
    backend.prevcolumn();
    assert_eq!(backend.getselection().selectedcolumn, CurrentColumn::Playlists);
}

#[test]
fn arriving_at_a_pane_clamps_the_remembered_row() {
    let mut backend = Backend::new();
    backend.setqueue(numbered(8), true);
    backend.prevcolumn();
    for _ in 0..5 {
        backend.nextrow();
    }
    assert_eq!(backend.getselection().selectedqueue, Some(5));
    backend.prevcolumn();
    assert_eq!(backend.getselection().selectedcolumn, CurrentColumn::Tracks);
    backend.setqueue(numbered(3), true);
    assert_eq!(backend.getselection().selectedqueue, Some(5));
    backend.nextcolumn();
    assert_eq!(backend.getselection().selectedcolumn, CurrentColumn::Queue);
    assert_eq!(backend.getselection().selectedqueue, Some(2));
}

#[test]
fn arriving_at_an_empty_pane_selects_nothing() {
    let mut backend = loaded();
    backend.prevcolumn();
    assert_eq!(backend.getselection().selectedqueue, None);
    backend.nextrow();
    assert_eq!(backend.getselection().selectedqueue, None);
}

#[test]
fn rows_wrap_in_the_focused_pane_only() {
    let mut backend = loaded();
    backend.addplaylist(playlist("second", &["x", "y"]));
    backend.nextrow();
    assert_eq!(backend.getselection().selectedplaylist, Some(1));
    backend.nextrow();
    assert_eq!(backend.getselection().selectedplaylist, Some(0));
    backend.prevrow();
    assert_eq!(backend.getselection().selectedplaylist, Some(1));
    assert_eq!(backend.getselection().selectedtrack, Some(0));
    assert_eq!(backend.getselection().selectedqueue, None);
}

#[test]
fn track_rows_follow_the_selected_playlist() {
    let mut backend = loaded();
    backend.addplaylist(playlist("second", &["x", "y"]));
    backend.nextcolumn();
    backend.prevrow();
    assert_eq!(backend.getselection().selectedtrack, Some(3));
    backend.selectplaylist(1);
    assert_eq!(backend.getselection().selectedtrack, Some(3));
    backend.nextrow();
    assert_eq!(backend.getselection().selectedtrack, Some(0));
    backend.prevrow();
    assert_eq!(backend.getselection().selectedtrack, Some(1));
}

#[test]
fn queue_never_aliases_the_playlist() {
    let mut backend = playing();
    backend.toggleshuffle();
    backend.cyclerepeat();
    backend.addtoqueue(track("x", 1));
    assert_eq!(backend.getplaylists()[0].tracks, tracks(&["a", "b", "c", "d"]));
}
