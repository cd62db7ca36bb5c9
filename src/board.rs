//! The game engine: moves and searches on one grid for one player, and the
//! win that ends the game.

use crate::grid::Grid;
use crate::parser::{parse_coordinates, parse_spec, ParseError};
use crate::player::Player;
use crate::point::{chebyshev, Point};
use rand::rngs::StdRng;
use vstd::prelude::*;

verus! {

pub const BOARD_WIDTH: u8 = 15;

pub const BOARD_HEIGHT: u8 = 15;

pub const MAX_DIST: u8 = 4;

/// The size of the grid and the reach of one move, fixed for a game.
#[derive(Debug, Clone, Copy, PartialEq, Eq, Structural)]
pub struct Config {
    pub width: u8,
    pub height: u8,
    pub max_move: u8,
}

impl Config {
    pub open spec fn valid(self) -> bool {
        self.width > 0 && self.height > 0
    }

    /// A 15 by 15 grid with moves of at most 4 cells.
    pub fn standard() -> (r: Config)
        ensures
            r.width == BOARD_WIDTH,
            r.height == BOARD_HEIGHT,
            r.max_move == MAX_DIST,
            r.valid(),
    {
        Config { width: BOARD_WIDTH, height: BOARD_HEIGHT, max_move: MAX_DIST }
    }
}

/// Why a move was refused.
#[derive(Debug, Clone, Copy, PartialEq, Eq, Structural)]
pub enum MoveError {
    /// The destination is off the grid.
    OutOfBounds,
    /// The destination is further than one move reaches.
    TooFar,
}

/// What an action did.
#[derive(Debug, Clone, Copy, PartialEq, Eq, Structural)]
pub enum Outcome {
    /// The player now stands on this cell.
    MoveAccepted(Point),
    MoveRejected(MoveError),
    /// The target is not here; it lies this far away.
    SearchMiss(u8),
    /// The target is here: the game is won.
    SearchHit,
    /// The text of a move is not a coordinate pair.
    ParseRejected(ParseError),
    /// The game is already won; nothing changes any more.
    AlreadyWon,
}

/// The state of a game as the rules see it.
pub struct GameState {
    pub width: u8,
    pub height: u8,
    pub max_move: u8,
    pub position: Point,
    pub target: Point,
    pub searched: Set<Point>,
    pub won: bool,
}

impl GameState {
    /// What every game reached by play satisfies: a game is won exactly when
    /// its target has been searched, and a won game's player stands on it.
    pub open spec fn consistent(self) -> bool {
        &&& self.won ==> self.position == self.target
        &&& self.won ==> self.searched.contains(self.position)
        &&& self.searched.contains(self.target) ==> self.won
    }
}

/// A move to `dest`.
pub open spec fn move_step(s: GameState, dest: Point) -> (GameState, Outcome) {
    if s.won {
        (s, Outcome::AlreadyWon)
    } else if !dest.within(s.width as int, s.height as int) {
        (s, Outcome::MoveRejected(MoveError::OutOfBounds))
    } else if chebyshev(s.position, dest) > s.max_move {
        (s, Outcome::MoveRejected(MoveError::TooFar))
    } else {
        (GameState { position: dest, ..s }, Outcome::MoveAccepted(dest))
    }
}

/// A move to the cell that the text `raw` writes.
pub open spec fn try_move_step(s: GameState, raw: Seq<char>) -> (GameState, Outcome) {
    if s.won {
        (s, Outcome::AlreadyWon)
    } else {
        match parse_spec(raw) {
            Err(e) => (s, Outcome::ParseRejected(e)),
            Ok((x, y)) => move_step(s, Point { x, y }),
        }
    }
}

/// A search of the cell that the player stands on.
pub open spec fn search_step(s: GameState) -> (GameState, Outcome) {
    if s.won {
        (s, Outcome::AlreadyWon)
    } else {
        let marked = GameState { searched: s.searched.insert(s.position), ..s };
        if s.position == s.target {
            (GameState { won: true, ..marked }, Outcome::SearchHit)
        } else {
            (marked, Outcome::SearchMiss(chebyshev(s.position, s.target) as u8))
        }
    }
}

/// What `validate_move_coordinates` reports for a parse on a grid.
pub open spec fn validated(p: Result<(u8, u8), ParseError>, width: u8, height: u8) -> (
    bool,
    u8,
    u8,
) {
    match p {
        Ok((x, y)) => if x < width && y < height {
            (true, x, y)
        } else {
            (false, 0, 0)
        },
        Err(_) => (false, 0, 0),
    }
}

/// One game: the grid, the player, and whether the target has been found.
pub struct Board {
    pub grid: Grid,
    pub player: Player,
    pub treasure_found: bool,
}

impl View for Board {
    type V = GameState;

    open spec fn view(&self) -> GameState {
        GameState {
            width: self.grid.width,
            height: self.grid.height,
            max_move: self.player.max_move,
            position: self.player.position,
            target: self.grid.target,
            searched: self.grid.searched_cells(),
            won: self.treasure_found,
        }
    }
}

impl Board {
    pub open spec fn wf(&self) -> bool {
        &&& self.grid.wf()
        &&& self.player.position.within(self.grid.width as int, self.grid.height as int)
        &&& self@.consistent()
    }

    /// A game with the target and the player on given cells.
    pub fn from_positions(config: Config, target: Point, start: Point) -> (r: Board)
        requires
            config.valid(),
            target.within(config.width as int, config.height as int),
            start.within(config.width as int, config.height as int),
        ensures
            r.wf(),
            r@.width == config.width,
            r@.height == config.height,
            r@.max_move == config.max_move,
            r@.target == target,
            r@.position == start,
            r@.searched == Set::<Point>::empty(),
            !r@.won,
    {
        Board {
            grid: Grid::with_target(config.width, config.height, target),
            player: Player::new(start, config.max_move),
            treasure_found: false,
        }
    }

    /// A game with the target and the player drawn at random.
    pub fn new(config: Config, rng: &mut StdRng) -> (r: Board)
        requires
            config.valid(),
        ensures
            r.wf(),
            r@.width == config.width,
            r@.height == config.height,
            r@.max_move == config.max_move,
            r@.searched == Set::<Point>::empty(),
            !r@.won,
    {
        let target = Point::random(rng, config.width, config.height);
        let start = Point::random(rng, config.width, config.height);
        Board::from_positions(config, target, start)
    }

    pub fn is_won(&self) -> (r: bool)
        ensures
            r == self@.won,
    {
        self.treasure_found
    }

    pub fn player_position(&self) -> (r: Point)
        ensures
            r == self@.position,
    {
        self.player.position
    }

    pub fn is_cell_searched(&self, p: Point) -> (r: bool)
        ensures
            r == self@.searched.contains(p),
    {
        self.grid.is_searched(p)
    }

    /// How many cells have been searched.
    pub fn searched_count(&self) -> (r: usize)
        requires
            self.wf(),
        ensures
            r == self@.searched.len(),
    {
        self.grid.searched_count()
    }

    /// Whether `(x, y)` lies on the grid.
    pub fn is_within_bounds(&self, x: u8, y: u8) -> (r: bool)
        ensures
            r == (x < self@.width && y < self@.height),
    {
        x < self.grid.width && y < self.grid.height
    }

    /// The distance from the player to `(x, y)`.
    pub fn get_distance_to(&self, x: u8, y: u8) -> (r: u8)
        ensures
            r == chebyshev(self@.position, (Point { x, y })),
    {
        self.player.position.distance_to(Point::new(x, y))
    }

    /// Reads a coordinate pair from `coords` and checks it against the grid:
    /// `(true, x, y)` for a pair on the grid, `(false, 0, 0)` otherwise. How
    /// far the cell is from the player is left to the move itself.
    pub fn validate_move_coordinates(&self, coords: &str) -> (r: (bool, u8, u8))
        ensures
            r == validated(parse_spec(coords@), self@.width, self@.height),
    {
        match parse_coordinates(coords) {
            Ok((x, y)) => if self.is_within_bounds(x, y) {
                (true, x, y)
            } else {
                (false, 0, 0)
            },
            Err(_) => (false, 0, 0),
        }
    }

    /// Moves the player to `(x, y)` if the cell is on the grid and within one
    /// move's reach.
    pub fn move_to(&mut self, x: u8, y: u8) -> (r: Outcome)
        requires
            old(self).wf(),
        ensures
            final(self).wf(),
            final(self)@ == move_step(old(self)@, (Point { x, y })).0,
            r == move_step(old(self)@, (Point { x, y })).1,
            final(self).player.color == old(self).player.color,
    {
        if self.treasure_found {
            return Outcome::AlreadyWon;
        }
        let dest = Point::new(x, y);
        if !dest.in_bounds(self.grid.width, self.grid.height) {
            return Outcome::MoveRejected(MoveError::OutOfBounds);
        }
        if self.player.position.distance_to(dest) > self.player.max_move {
            return Outcome::MoveRejected(MoveError::TooFar);
        }
        self.player.position.set((x, y));
        Outcome::MoveAccepted(dest)
    }

    /// Reads a destination from `raw` and moves there.
    pub fn try_move(&mut self, raw: &str) -> (r: Outcome)
        requires
            old(self).wf(),
        ensures
            final(self).wf(),
            final(self)@ == try_move_step(old(self)@, raw@).0,
            r == try_move_step(old(self)@, raw@).1,
            final(self).player.color == old(self).player.color,
    {
        if self.treasure_found {
            return Outcome::AlreadyWon;
        }
        match parse_coordinates(raw) {
            Err(e) => Outcome::ParseRejected(e),
            Ok((x, y)) => self.move_to(x, y),
        }
    }

    /// Searches the player's cell: marks it, and either finds the target and
    /// wins, or tells how far away the target is.
    pub fn search(&mut self) -> (r: Outcome)
        requires
            old(self).wf(),
        ensures
            final(self).wf(),
            final(self)@ == search_step(old(self)@).0,
            r == search_step(old(self)@).1,
            final(self).player.color == old(self).player.color,
    {
        if self.treasure_found {
            return Outcome::AlreadyWon;
        }
        let pos = self.player.position;
        self.grid.mark_searched(pos);
        if self.grid.is_target(pos) {
            self.treasure_found = true;
            Outcome::SearchHit
        } else {
            Outcome::SearchMiss(self.grid.distance_from_target(pos))
        }
    }
}

/// A move that is refused, for its text or for its destination, leaves the
/// game as it was, and the player where they stood.
pub proof fn lemma_rejected_move_keeps_state(s: GameState, raw: Seq<char>)
    ensures
        (try_move_step(s, raw).1 is MoveRejected || try_move_step(s, raw).1 is ParseRejected)
            ==> try_move_step(s, raw).0 == s && try_move_step(s, raw).0.position == s.position,
{
}

/// Searching the same cell a second time adds nothing to the searched cells.
pub proof fn lemma_search_twice(s: GameState)
    ensures
        search_step(search_step(s).0).0.searched == search_step(s).0.searched,
        search_step(search_step(s).0).0.searched.len() == search_step(s).0.searched.len(),
{
    let once = search_step(s).0;
    if !once.won {
        assert(once.searched.insert(once.position) =~= once.searched);
    }
}

/// Searching a cell that has already been searched changes nothing.
pub proof fn lemma_search_searched_cell(s: GameState)
    requires
        s.consistent(),
        s.searched.contains(s.position),
    ensures
        search_step(s).0 == s,
{
    if !s.won {
        assert(s.searched.insert(s.position) =~= s.searched);
    }
}

/// Once won, a game answers every move and search with `AlreadyWon` and
/// does not change.
pub proof fn lemma_won_is_final(s: GameState, raw: Seq<char>, dest: Point)
    requires
        s.won,
    ensures
        search_step(s) == (s, Outcome::AlreadyWon),
        try_move_step(s, raw) == (s, Outcome::AlreadyWon),
        move_step(s, dest) == (s, Outcome::AlreadyWon),
{
}

} // verus!
