//! The player's token: where it stands, how far it may move in one turn, and
//! the colour it is drawn in.

use crate::color::{color_spec, parse_color, PlayerColor};
use crate::point::Point;
use vstd::prelude::*;

verus! {

pub struct Player {
    pub position: Point,
    /// The largest Chebyshev distance of a single move.
    pub max_move: u8,
    pub color: PlayerColor,
}

impl Player {
    /// A green token on `position`.
    pub fn new(position: Point, max_move: u8) -> (r: Player)
        ensures
            r.position == position,
            r.max_move == max_move,
            r.color == PlayerColor::Green,
    {
        Player { position, max_move, color: PlayerColor::Green }
    }

    /// Takes the colour that `color` names, if it names one; otherwise keeps
    /// the current colour. Tells whether it did.
    pub fn set_color(&mut self, color: &str) -> (r: bool)
        ensures
            r == color_spec(color@) is Some,
            final(self).color == (match color_spec(color@) {
                Some(c) => c,
                None => old(self).color,
            }),
            final(self).position == old(self).position,
            final(self).max_move == old(self).max_move,
    {
        match parse_color(color) {
            Some(c) => {
                self.color = c;
                true
            },
            None => false,
        }
    }
}

} // verus!
