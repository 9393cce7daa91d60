//! The list from which the variant of a component is chosen: which row is
//! highlighted, and which variant a choice puts in place.

use vstd::prelude::*;
use crate::Key;

verus! {

/// The row that is highlighted after `key`, in a list of `count` rows of
/// which `selected` was highlighted. `Down` goes to the next row and from
/// the last row to the first; `Up` goes to the row before and from the first
/// row to the last; with no row highlighted, both go to the first. Any other
/// key leaves the highlight where it is.
pub open spec fn moved(selected: Option<usize>, key: Key, count: nat) -> Option<usize> {
    match key {
        Key::Down => match selected {
            Some(row) => if row + 1 < count {
                Some((row + 1) as usize)
            } else {
                Some(0)
            },
            None => Some(0),
        },
        Key::Up => match selected {
            Some(row) => if row == 0 {
                Some((count - 1) as usize)
            } else {
                Some((row - 1) as usize)
            },
            None => Some(0),
        },
        _ => selected,
    }
}

/// The move can be made: there is a row to go to, and its number fits.
pub open spec fn can_move(selected: Option<usize>, key: Key, count: nat) -> bool {
    match key {
        Key::Down => selected != Some(usize::MAX),
        Key::Up => selected == Some(0usize) ==> count > 0,
        _ => true,
    }
}

/// The variant that `Enter` puts in place: the highlighted row, unless none
/// is highlighted, the row is that of the variant in use, or the list has no
/// such row. A variant in use that the list does not hold counts as the
/// first row.
pub open spec fn picked(selected: Option<usize>, current: Option<int>, count: nat) -> Option<int> {
    let in_use = match current {
        Some(row) => row,
        None => 0,
    };
    match selected {
        Some(row) => if row != in_use && row < count {
            Some(row as int)
        } else {
            None
        },
        None => None,
    }
}

/// Whether the move that `key` asks for can be made in a list of `count` rows
/// of which `selected` is highlighted.
pub fn can_move_selection(selected: Option<usize>, key: Key, count: usize) -> (can: bool)
    ensures
        can == can_move(selected, key, count as nat),
{
    match key {
        Key::Down => match selected {
            Some(row) => row != usize::MAX,
            None => true,
        },
        Key::Up => match selected {
            Some(row) => row != 0 || count > 0,
            None => true,
        },
        _ => true,
    }
}

/// The row that is highlighted after `key`.
pub fn move_selection(selected: Option<usize>, key: Key, count: usize) -> (row: Option<usize>)
    requires
        can_move(selected, key, count as nat),
    ensures
        row == moved(selected, key, count as nat),
{
    match key {
        Key::Down => match selected {
            Some(row) => if row + 1 < count {
                Some(row + 1)
            } else {
                Some(0)
            },
            None => Some(0),
        },
        Key::Up => match selected {
            Some(row) => if row == 0 {
                Some(count - 1)
            } else {
                Some(row - 1)
            },
            None => Some(0),
        },
        _ => selected,
    }
}

/// The row at which the variant in use was found, as a row number.
pub open spec fn row_of(found: Option<int>) -> Option<usize> {
    match found {
        Some(row) => Some(row as usize),
        None => None,
    }
}

/// The three parts, in percent, into which an axis is cut so that the middle
/// part takes `percent` of it and lies centred: the two margins are equal,
/// each half of what is left, rounded down.
pub fn centered_percentages(percent: u16) -> (parts: (u16, u16, u16))
    requires
        percent <= 100,
    ensures
        parts.0 == (100 - percent) / 2,
        parts.1 == percent,
        parts.2 == (100 - percent) / 2,
        parts.0 + parts.1 + parts.2 <= 100,
{
    let margin: u16 = (100 - percent) / 2;
    (margin, percent, margin)
}

} // verus!
