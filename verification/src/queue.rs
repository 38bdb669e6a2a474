//! Transforms of the play queue, as functions on track sequences: the slice
//! of a playlist that an entry starts from, the padding of the repeat modes,
//! and the shuffle around the playing track.

use rand::rng;
use rand::seq::SliceRandom;
use vstd::arithmetic::div_mod::lemma_small_mod;
use vstd::prelude::*;

use crate::models::{Track, MAXQUEUELENGTH};

verus! {

/// The tracks of a playlist from row `start` to its end.
pub open spec fn slicefrom(tracks: Seq<Track>, start: int) -> Seq<Track> {
    tracks.subrange(start, tracks.len() as int)
}

/// `queue` repeated round and round until it holds `cap` tracks. The first
/// round is the queue itself; a queue that is empty, or already holds `cap`
/// tracks or more, stays as it is.
pub open spec fn padded(queue: Seq<Track>, cap: nat) -> Seq<Track> {
    if queue.len() == 0 || queue.len() >= cap {
        queue
    } else {
        Seq::new(cap, |i: int| queue[i % (queue.len() as int)])
    }
}

/// `n` copies of one track.
pub open spec fn copies(track: Track, n: nat) -> Seq<Track> {
    Seq::new(n, |i: int| track)
}

/// The queue that a shuffle leaves: the playing track first, then the other
/// tracks in the order `rest`.
pub open spec fn shuffledaround(queue: Seq<Track>, index: int, rest: Seq<Track>) -> Seq<Track> {
    seq![queue[index]] + rest
}

/// Whether `rest` holds the tracks of `queue` other than the one at `index`,
/// each as often as the queue does, in any order.
pub open spec fn isrestof(rest: Seq<Track>, queue: Seq<Track>, index: int) -> bool {
    rest.to_multiset() == queue.remove(index).to_multiset()
}

/// A copy of a track list.
pub fn clonetracks(tracks: &Vec<Track>) -> (copy: Vec<Track>)
    ensures
        copy@ == tracks@,
{
    tracks.clone()
}

/// Copies the tracks of a playlist from row `start` to its end; a start past
/// the end gives no tracks.
pub fn tracksfrom(tracks: &Vec<Track>, start: usize) -> (queue: Vec<Track>)
    ensures
        start <= tracks.len() ==> queue@ == slicefrom(tracks@, start as int),
        start > tracks.len() ==> queue@.len() == 0,
{
    let mut queue: Vec<Track> = Vec::new();
    let mut i: usize = start;
    while i < tracks.len()
        invariant
            start <= i,
            start <= tracks.len() ==> i <= tracks.len(),
            start > tracks.len() ==> queue@.len() == 0,
            start <= tracks.len() ==> queue@ == tracks@.subrange(start as int, i as int),
        decreases tracks.len() - i,
    {
        queue.push(tracks[i].clone());
        i += 1;
        assert(start <= tracks.len() ==> queue@ =~= tracks@.subrange(start as int, i as int));
    }
    queue
}

/// `MAXQUEUELENGTH` copies of `track`.
pub fn repeattrack(track: &Track) -> (queue: Vec<Track>)
    ensures
        queue@ == copies(*track, MAXQUEUELENGTH as nat),
{
    let mut queue: Vec<Track> = Vec::new();
    while queue.len() < MAXQUEUELENGTH
        invariant
            queue@.len() <= MAXQUEUELENGTH,
            forall|i: int| 0 <= i < queue@.len() ==> queue@[i] == *track,
        decreases MAXQUEUELENGTH - queue@.len(),
    {
        queue.push(track.clone());
    }
    assert(queue@ =~= copies(*track, MAXQUEUELENGTH as nat));
    queue
}

/// Pads `queue` to `MAXQUEUELENGTH` tracks by appending its own contents,
/// whole rounds first and then as much of one round as still fits.
pub fn padtracks(queue: &mut Vec<Track>)
    ensures
        final(queue)@ == padded(old(queue)@, MAXQUEUELENGTH as nat),
{
    let round: usize = queue.len();
    if round == 0 || round >= MAXQUEUELENGTH {
        return;
    }
    let ghost first = queue@;
    assert forall|i: int| 0 <= i < queue@.len() implies queue@[i] == first[i % (round as int)] by {
        lemma_small_mod(i as nat, round as nat);
    }
    while queue.len() < MAXQUEUELENGTH
        invariant
            round == first.len(),
            0 < round < MAXQUEUELENGTH,
            round <= queue@.len() <= MAXQUEUELENGTH,
            queue@.len() % (round as nat) == 0 || queue@.len() == MAXQUEUELENGTH,
            forall|i: int| 0 <= i < queue@.len() ==> queue@[i] == first[i % (round as int)],
        decreases MAXQUEUELENGTH - queue@.len(),
    {
        let remaining: usize = MAXQUEUELENGTH - queue.len();
        let chunk: usize = if round < remaining { round } else { remaining };
        let ghost base = queue@.len() as int;
        let mut j: usize = 0;
        while j < chunk
            invariant
                round == first.len(),
                0 < round < MAXQUEUELENGTH,
                chunk <= round,
                round <= base,
                base + chunk <= MAXQUEUELENGTH,
                base % (round as int) == 0,
                j <= chunk,
                queue@.len() == base + j,
                forall|i: int| 0 <= i < queue@.len() ==> queue@[i] == first[i % (round as int)],
            decreases chunk - j,
        {
            assert((base + j) % (round as int) == j) by (nonlinear_arith)
                requires
                    base % (round as int) == 0,
                    0 <= j < round,
                    round <= base,
            ;
            proof {
                lemma_small_mod(j as nat, round as nat);
            }
            queue.push(queue[j].clone());
            j += 1;
        }
        assert(chunk == round ==> queue@.len() % (round as nat) == 0) by (nonlinear_arith)
            requires
                base % (round as int) == 0,
                queue@.len() == base + chunk,
                0 < round <= base,
        ;
    }
    assert(queue@ =~= padded(first, MAXQUEUELENGTH as nat));
}

/// Puts `tracks` into a random order. This calls `shuffle` of
/// `rand::seq::SliceRandom` with the thread's generator from `rand::rng`.
/// The order that comes out differs from call to call; all that is claimed
/// is that the shuffle only swaps tracks, so each track is there as often as
/// it was.
#[verifier::external_body]
pub(crate) fn shuffletracks(tracks: &mut Vec<Track>)
    ensures
        final(tracks)@.to_multiset() == old(tracks)@.to_multiset(),
{
    tracks.shuffle(&mut rng());
}

} // verus!
