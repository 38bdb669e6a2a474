use mpvlayer::models::{Track, MAXQUEUELENGTH};
use mpvlayer::queue::{clonetracks, padtracks, repeattrack, tracksfrom};

fn track(name: &str, duration: u32) -> Track {
    Track {
        title: name.to_string(),
        artist: format!("artist of {}", name),
        duration,
        url: format!("https://example.org/{}", name),
    }
}

fn tracks(names: &[&str]) -> Vec<Track> {
    names.iter().map(|n| track(n, 100)).collect()
}

#[test]
fn cap_is_fifty() {
    assert_eq!(MAXQUEUELENGTH, 50);
}

#[test]
fn clone_is_equal() {
    let list = tracks(&["a", "b", "c"]);
    assert_eq!(clonetracks(&list), list);
    assert_eq!(clonetracks(&Vec::new()), Vec::<Track>::new());
}

#[test]
fn track_clone_keeps_every_field() {
    let t = track("a", 42);
    let c = t.clone();
    assert_eq!(c.title, "a");
    assert_eq!(c.artist, "artist of a");
    assert_eq!(c.duration, 42);
    assert_eq!(c.url, "https://example.org/a");
}

#[test]
fn slice_from_a_row() {
    let list = tracks(&["a", "b", "c", "d"]);
    assert_eq!(tracksfrom(&list, 2), tracks(&["c", "d"]));
    assert_eq!(tracksfrom(&list, 0), list);
    assert_eq!(tracksfrom(&list, 3), tracks(&["d"]));
}

#[test]
fn slice_from_the_end_is_empty() {
    let list = tracks(&["a", "b"]);
    assert!(tracksfrom(&list, 2).is_empty());
    assert!(tracksfrom(&list, 9).is_empty());
}

#[test]
fn repeat_one_track() {
    let t = track("x", 7);
    let queue = repeattrack(&t);
    assert_eq!(queue.len(), 50);
    assert!(queue.iter().all(|q| *q == t));
}

#[test]
fn pad_repeats_in_rounds() {
    let first = tracks(&["a", "b", "c"]);
    let mut queue = first.clone();
    padtracks(&mut queue);
    assert_eq!(queue.len(), 50);
    for (i, t) in queue.iter().enumerate() {
        assert_eq!(*t, first[i % 3]);
    }
    assert_eq!(queue[48], first[0]);
    assert_eq!(queue[49], first[1]);
}

#[test]
fn pad_of_a_divisor_length() {
    let first = tracks(&["a", "b", "c", "d", "e"]);
    let mut queue = first.clone();
    padtracks(&mut queue);
    assert_eq!(queue.len(), 50);
    assert_eq!(queue[45..50].to_vec(), first);
}

#[test]
fn pad_of_one_track() {
    let mut queue = tracks(&["a"]);
    padtracks(&mut queue);
    assert_eq!(queue, repeattrack(&track("a", 100)));
}

#[test]
fn pad_leaves_empty_queue_empty() {
    let mut queue: Vec<Track> = Vec::new();
    padtracks(&mut queue);
    assert!(queue.is_empty());
}

#[test]
fn pad_leaves_full_queue_alone() {
    let names: Vec<String> = (0..50).map(|i| format!("t{}", i)).collect();
    let full: Vec<Track> = names.iter().map(|n| track(n, 1)).collect();
    let mut queue = full.clone();
    padtracks(&mut queue);
    assert_eq!(queue, full);

    let names: Vec<String> = (0..60).map(|i| format!("t{}", i)).collect();
    let long: Vec<Track> = names.iter().map(|n| track(n, 1)).collect();
    let mut queue = long.clone();
    padtracks(&mut queue);
    assert_eq!(queue, long);
}

#[test]
fn pad_of_forty_nine_adds_one() {
    let names: Vec<String> = (0..49).map(|i| format!("t{}", i)).collect();
    let first: Vec<Track> = names.iter().map(|n| track(n, 1)).collect();
    let mut queue = first.clone();
    padtracks(&mut queue);
    assert_eq!(queue.len(), 50);
    assert_eq!(queue[..49].to_vec(), first);
    assert_eq!(queue[49], first[0]);
}
