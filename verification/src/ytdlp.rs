//! Addresses of videos and playlists, and the list of addresses that the
//! listing of a playlist stands for.

use vstd::prelude::*;

verus! {

/// Address of the playlist with this id.
pub open spec fn playlisturl(id: Seq<char>) -> Seq<char> {
    "https://www.youtube.com/playlist?list="@ + id
}

/// Address of the video with this id.
pub open spec fn videourl(id: Seq<char>) -> Seq<char> {
    "https://www.youtube.com/watch?v="@ + id
}

/// Place of the first line break in `text`, or its length if it has none.
pub open spec fn firstbreak(text: Seq<char>) -> int
    decreases text.len(),
{
    if text.len() == 0 || text[0] == '\n' {
        0
    } else {
        1 + firstbreak(text.drop_first())
    }
}

/// The pieces of `text` between its line breaks, in order. A text with `n`
/// breaks has `n + 1` pieces, some of which may be empty; the empty text is
/// one empty piece.
pub open spec fn lines(text: Seq<char>) -> Seq<Seq<char>>
    decreases text.len(),
{
    let at = firstbreak(text);
    if 0 <= at < text.len() {
        seq![text.take(at)] + lines(text.skip(at + 1))
    } else {
        seq![text]
    }
}

/// The addresses of the videos whose ids are the lines of `listing`.
pub open spec fn videourls(listing: Seq<char>) -> Seq<Seq<char>> {
    lines(listing).map_values(|id: Seq<char>| videourl(id))
}

pub fn playlisturlfromid(id: String) -> (url: String)
    ensures
        url@ == playlisturl(id@),
{
    let mut url = String::from_str("https://www.youtube.com/playlist?list=");
    url.append(id.as_str());
    url
}

pub fn videourlfromid(id: String) -> (url: String)
    ensures
        url@ == videourl(id@),
{
    let mut url = String::from_str("https://www.youtube.com/watch?v=");
    url.append(id.as_str());
    url
}

/// Splits a text at its line breaks. This calls `str::split` of std with
/// the line break as the separator, and copies each piece into a `String`.
/// By its documentation `split` yields the pieces between the separators in
/// order, empty ones included, which is what `lines` says.
#[verifier::external_body]
fn splitlines(text: &str) -> (pieces: Vec<String>)
    ensures
        pieces.deep_view() == lines(text@),
{
    text.split("\n").map(|piece| piece.to_string()).collect()
}

/// The addresses of the videos that a listing names, one id to a line.
pub fn urlsfromlisting(listing: &str) -> (urls: Vec<String>)
    ensures
        urls.deep_view() == videourls(listing@),
{
    let ids = splitlines(listing);
    let mut urls: Vec<String> = Vec::new();
    let mut i: usize = 0;
    while i < ids.len()
        invariant
            i <= ids.len(),
            ids.deep_view() == lines(listing@),
            urls.len() == i,
            forall|k: int| 0 <= k < i ==> urls[k]@ == videourl(#[trigger] ids[k]@),
        decreases ids.len() - i,
    {
        let url = videourlfromid(ids[i].clone());
        urls.push(url);
        i += 1;
    }
    assert(urls.deep_view() =~= videourls(listing@)) by {
        assert forall|k: int| 0 <= k < urls.len() implies urls.deep_view()[k] == videourls(
            listing@,
        )[k] by {
            assert(ids.deep_view()[k] == ids[k]@);
        }
    }
    urls
}

} // verus!
