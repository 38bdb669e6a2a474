//! Row arithmetic of the panes: wrapping steps and the clamp applied when a
//! pane regains the focus.

use vstd::prelude::*;

verus! {

/// Row below `current` in a list of `listlen` rows, wrapping to the top.
/// With nothing selected, or a row at or past the last one, it is the first
/// row; in an empty list it is 0.
pub open spec fn nextidx(current: Option<usize>, listlen: int) -> int {
    match current {
        Some(c) if c + 1 < listlen => c + 1,
        _ => 0,
    }
}

/// Row above `current` in a list of `listlen` rows, wrapping to the bottom.
/// With nothing selected it is the last row, and a row past the end counts
/// as the end; in an empty list it is 0.
pub open spec fn previdx(current: Option<usize>, listlen: int) -> int {
    if listlen <= 0 {
        0
    } else {
        match current {
            Some(c) if 0 < c < listlen => c - 1,
            _ => listlen - 1,
        }
    }
}

/// Row to highlight when a pane of `listlen` rows regains the focus and
/// `remembered` was its last row: the remembered row, or the first one if
/// there was none, held inside the list; nothing in an empty list.
pub open spec fn clampedrow(remembered: Option<usize>, listlen: int) -> Option<usize> {
    if listlen <= 0 {
        None
    } else {
        match remembered {
            Some(r) if r < listlen => Some(r),
            Some(_) => Some((listlen - 1) as usize),
            None => Some(0),
        }
    }
}

pub fn getnextidx(currentopt: Option<usize>, listlen: usize) -> (next: usize)
    ensures
        next == nextidx(currentopt, listlen as int),
        listlen > 0 ==> next < listlen,
{
    match currentopt {
        Some(current) => {
            if listlen == 0 || current >= listlen - 1 {
                0
            } else {
                current + 1
            }
        },
        None => 0,
    }
}

pub fn getprevidx(currentopt: Option<usize>, listlen: usize) -> (prev: usize)
    ensures
        prev == previdx(currentopt, listlen as int),
        listlen > 0 ==> prev < listlen,
{
    if listlen == 0 {
        return 0;
    }
    match currentopt {
        Some(current) => {
            if current == 0 || current >= listlen {
                listlen - 1
            } else {
                current - 1
            }
        },
        None => listlen - 1,
    }
}

/// Row to restore on arrival at a pane, as `clampedrow` defines it.
pub fn getclampedrow(remembered: Option<usize>, listlen: usize) -> (row: Option<usize>)
    ensures
        row == clampedrow(remembered, listlen as int),
        row matches Some(r) ==> r < listlen,
        row is None <==> listlen == 0,
{
    if listlen == 0 {
        None
    } else {
        match remembered {
            Some(r) => {
                if r < listlen {
                    Some(r)
                } else {
                    Some(listlen - 1)
                }
            },
            None => Some(0),
        }
    }
}

/// Stepping down and then up again, or up and then down, comes back to the
/// row it started from, for every row of a non-empty list.
pub proof fn lemma_step_roundtrip(current: usize, listlen: usize)
    requires
        current < listlen,
    ensures
        previdx(Some(nextidx(Some(current), listlen as int) as usize), listlen as int) == current,
        nextidx(Some(previdx(Some(current), listlen as int) as usize), listlen as int) == current,
{
}

/// In an empty list both steps give row 0, whatever was selected.
pub proof fn lemma_step_empty(current: Option<usize>)
    ensures
        nextidx(current, 0) == 0,
        previdx(current, 0) == 0,
{
}

} // verus!
