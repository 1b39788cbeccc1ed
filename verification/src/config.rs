//! How a game is set up: what the player may choose, and what is taken where
//! a choice is missing or out of range.

use vstd::prelude::*;

verus! {

/// The length of a snake where none is chosen.
pub const DEFAULT_LENGTH: u16 = 8;

/// The longest snake that can be chosen.
pub const MAX_LENGTH: u16 = 16;

/// The number of eggs where none is chosen.
pub const DEFAULT_EGGS: u16 = 255;

/// The column on which the tail of a new snake lies.
pub const START_X: u16 = 8;

/// The row on which a new snake lies.
pub const START_Y: u16 = 4;

/// The set-up of one game.
#[derive(Clone, Copy, PartialEq, Eq, Debug, Structural)]
pub struct Config {
    /// The number of segments of the snake.
    pub length: u16,
    /// The number of eggs on the grid.
    pub eggs: u16,
    /// Whether the snake is set up to grow when it eats.
    pub grow: bool,
}

/// The length taken for a chosen `size`: the choice itself if it is at least
/// 1 and at most 16, and 8 otherwise.
pub open spec fn length_for(size: Option<u8>) -> u16 {
    match size {
        Some(n) => if 0 < n <= MAX_LENGTH {
            n as u16
        } else {
            DEFAULT_LENGTH
        },
        None => DEFAULT_LENGTH,
    }
}

/// The number of eggs taken for a chosen number: the choice itself if it is
/// at least 1 and at most 254, and 255 otherwise.
pub open spec fn eggs_for(eggs: Option<u8>) -> u16 {
    match eggs {
        Some(n) => if 0 < n < DEFAULT_EGGS {
            n as u16
        } else {
            DEFAULT_EGGS
        },
        None => DEFAULT_EGGS,
    }
}

/// Whether the snake is to grow: as chosen, and not where nothing is chosen.
pub open spec fn grow_for(grow: Option<bool>) -> bool {
    match grow {
        Some(g) => g,
        None => false,
    }
}

impl Config {
    /// The set-up for what the player chose.
    pub fn new(size: Option<u8>, eggs: Option<u8>, grow: Option<bool>) -> (config: Config)
        ensures
            config.length == length_for(size),
            config.eggs == eggs_for(eggs),
            config.grow == grow_for(grow),
            1 <= config.length <= MAX_LENGTH,
            1 <= config.eggs <= DEFAULT_EGGS,
    {
        let length: u16 = match size {
            Some(n) => if n > 0 && n < 17 {
                n as u16
            } else {
                DEFAULT_LENGTH
            },
            None => DEFAULT_LENGTH,
        };
        let eggs: u16 = match eggs {
            Some(n) => if n > 0 && n < 255 {
                n as u16
            } else {
                DEFAULT_EGGS
            },
            None => DEFAULT_EGGS,
        };
        let grow = match grow {
            Some(g) => g,
            None => false,
        };
        Config { length, eggs, grow }
    }
}

} // verus!
