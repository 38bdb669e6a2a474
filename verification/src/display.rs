//! What the screen shows, as far as it can be said without a screen: the
//! texts of the status line, whether the window is large enough, and where
//! a popup goes.

use vstd::prelude::*;

use crate::models::{RepeatMode, Track};

verus! {

/// The digit that stands for `d`, for `d` from 0 to 9.
pub open spec fn digitchar(d: int) -> char {
    if d == 0 {
        '0'
    } else if d == 1 {
        '1'
    } else if d == 2 {
        '2'
    } else if d == 3 {
        '3'
    } else if d == 4 {
        '4'
    } else if d == 5 {
        '5'
    } else if d == 6 {
        '6'
    } else if d == 7 {
        '7'
    } else if d == 8 {
        '8'
    } else {
        '9'
    }
}

/// `n` written in decimal, without leading zeros.
pub open spec fn decimal(n: nat) -> Seq<char>
    decreases n,
{
    if n < 10 {
        seq![digitchar(n as int)]
    } else {
        decimal(n / 10).push(digitchar((n % 10) as int))
    }
}

/// A number of seconds as minutes, a colon and two digits of seconds. The
/// largest number stands for an unknown duration and is shown as dashes.
pub open spec fn prettyduration(secs: u32) -> Seq<char> {
    if secs == u32::MAX {
        "--:--"@
    } else {
        decimal((secs / 60) as nat) + seq![
            ':',
            digitchar((secs % 60 / 10) as int),
            digitchar((secs % 60 % 10) as int),
        ]
    }
}

/// The state of shuffle and repeat as one line of text.
pub open spec fn controlsstate(shuffle: bool, repeat: RepeatMode) -> Seq<char> {
    (if shuffle {
        "shuffle on \u{2500}"@
    } else {
        "shuffle off "@
    }) + "\u{2500}\u{2500}"@ + (match repeat {
        RepeatMode::Off => " repeat off"@,
        RepeatMode::One => " repeat one"@,
        RepeatMode::All => " repeat all"@,
    })
}

fn digitstr(d: u32) -> (s: &'static str)
    requires
        d < 10,
    ensures
        s@ == seq![digitchar(d as int)],
{
    proof {
        reveal_strlit("0");
        reveal_strlit("1");
        reveal_strlit("2");
        reveal_strlit("3");
        reveal_strlit("4");
        reveal_strlit("5");
        reveal_strlit("6");
        reveal_strlit("7");
        reveal_strlit("8");
        reveal_strlit("9");
    }
    let s = if d == 0 {
        "0"
    } else if d == 1 {
        "1"
    } else if d == 2 {
        "2"
    } else if d == 3 {
        "3"
    } else if d == 4 {
        "4"
    } else if d == 5 {
        "5"
    } else if d == 6 {
        "6"
    } else if d == 7 {
        "7"
    } else if d == 8 {
        "8"
    } else {
        "9"
    };
    assert(s@ =~= seq![digitchar(d as int)]);
    s
}

/// Appends `n` in decimal to `text`.
fn appenddecimal(text: &mut String, n: u32)
    ensures
        final(text)@ == old(text)@ + decimal(n as nat),
    decreases n,
{
    if n >= 10 {
        appenddecimal(text, n / 10);
    }
    text.append(digitstr(n % 10));
    assert(text@ =~= old(text)@ + decimal(n as nat));
}

pub fn getprettyduration(secs: u32) -> (text: String)
    ensures
        text@ == prettyduration(secs),
{
    if secs == u32::MAX {
        return String::from_str("--:--");
    }
    let minutes: u32 = secs / 60;
    let seconds: u32 = secs % 60;
    let mut text = String::new();
    appenddecimal(&mut text, minutes);
    proof {
        reveal_strlit(":");
    }
    text.append(":");
    text.append(digitstr(seconds / 10));
    text.append(digitstr(seconds % 10));
    assert(text@ =~= prettyduration(secs));
    text
}

pub fn getcontrolsstate(shuffle: bool, repeat: RepeatMode) -> (text: String)
    ensures
        text@ == controlsstate(shuffle, repeat),
{
    let mut text = if shuffle {
        String::from_str("shuffle on \u{2500}")
    } else {
        String::from_str("shuffle off ")
    };
    text.append("\u{2500}\u{2500}");
    match repeat {
        RepeatMode::Off => text.append(" repeat off"),
        RepeatMode::One => text.append(" repeat one"),
        RepeatMode::All => text.append(" repeat all"),
    }
    text
}

/// The line that names the current track: artist and title, or the title
/// alone where no artist is known, or a note that nothing plays.
pub open spec fn songinfo(song: Option<&Track>) -> Seq<char> {
    match song {
        Some(track) => if track.artist@.len() > 0 {
            " "@ + track.artist@ + " - "@ + track.title@
        } else {
            " "@ + track.title@
        },
        None => " no song playing "@,
    }
}

pub fn getsonginfo(song: Option<&Track>) -> (text: String)
    ensures
        text@ == songinfo(song),
{
    match song {
        Some(track) => {
            let mut text = String::from_str(" ");
            if !track.artist.as_str().is_empty() {
                text.append(track.artist.as_str());
                text.append(" - ");
            }
            text.append(track.title.as_str());
            text
        },
        None => String::from_str(" no song playing "),
    }
}

/// The elapsed and the whole time that the progress bar shows: those of
/// the track, or twice 0 where the elapsed time has run past its length.
pub fn getprogress(elapsed: u32, total: u32) -> (shown: (u32, u32))
    ensures
        shown == if elapsed <= total {
            (elapsed, total)
        } else {
            (0u32, 0u32)
        },
{
    if elapsed <= total {
        (elapsed, total)
    } else {
        (0, 0)
    }
}

/// Whether a window of this size can show the player: one under 40
/// columns gets the narrow view, and any other needs 60 columns and 10
/// rows.
pub fn windowsizepass(width: u16, height: u16) -> (pass: bool)
    ensures
        pass == (width < 40 || (width >= 60 && height >= 10)),
{
    if width < 40 {
        true
    } else if width < 60 || height < 10 {
        false
    } else {
        true
    }
}

/// The corner at which a box of `width` by `height` stands in the middle
/// of an area that it fits into.
pub fn centerrect(width: u16, height: u16, areawidth: u16, areaheight: u16) -> (corner: (u16, u16))
    requires
        width <= areawidth,
        height <= areaheight,
    ensures
        corner.0 == (areawidth - width) / 2,
        corner.1 == (areaheight - height) / 2,
{
    ((areawidth - width) / 2, (areaheight - height) / 2)
}

} // verus!
