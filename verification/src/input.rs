//! Commands produced by the input source, and the translation of terminal
//! mouse positions to grid coordinates.

use vstd::prelude::*;

use crate::grid::{Pattern, HEIGHT, WIDTH};

verus! {

/// A cell position, 0-based, column `x` and row `y`.
pub struct Coordinates {
    pub x: usize,
    pub y: usize,
}

/// The closed set of commands the simulation loop consumes; each instance
/// is processed at most once.
pub enum InputEvent {
    GridClicked(Coordinates),
    TogglePause,
    IncrementUpdateFrequence,
    DecrementUpdateFrequence,
    Reset(Pattern),
    Quit,
}

impl InputEvent {
    /// A reset command must carry a generatable pattern; every other
    /// command is unconditionally valid.
    pub open spec fn valid(&self) -> bool {
        match *self {
            InputEvent::Reset(pattern) => pattern.valid(),
            _ => true,
        }
    }

    /// Runtime test of `valid`, for callers that receive unchecked input.
    pub fn is_valid(&self) -> (r: bool)
        ensures
            r == self.valid(),
    {
        match self {
            InputEvent::Reset(pattern) => pattern.is_valid(),
            _ => true,
        }
    }
}

/// Where a click at screen position `(x, y)` lands: the screen shows each
/// cell two columns wide with the grid padded by one row and one column,
/// and mouse coordinates are 1-based. Odd grid-relative columns fall
/// between cells, and positions beyond the grid are rejected.
pub open spec fn spec_grid_coordinates(x: int, y: int) -> Option<Coordinates> {
    let cx = (x - 2) / 2;
    let cy = y - 2;
    if (x - 2) % 2 == 1 {
        None
    } else if cx < WIDTH && cy < HEIGHT {
        Some(Coordinates { x: cx as usize, y: cy as usize })
    } else {
        None
    }
}

/// Maps a 1-based mouse position to the cell under it, rejecting clicks
/// between cells or beyond the grid. Positions inside the one-character
/// padding border are not meaningful and are left out.
pub fn translate_to_grid_coordinates(x: u16, y: u16) -> (coords: Option<Coordinates>)
    requires
        x >= 2,
        y >= 2,
    ensures
        coords == spec_grid_coordinates(x as int, y as int),
{
    let x = (x - 2) as usize;
    let y = (y - 2) as usize;

    if x % 2 == 1 {
        None
    } else {
        let x = x / 2;
        if x < WIDTH && y < HEIGHT {
            Some(Coordinates { x, y })
        } else {
            None
        }
    }
}

} // verus!
