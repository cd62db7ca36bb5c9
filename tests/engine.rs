use rand::rngs::StdRng;
use rand::SeedableRng;
use treasure_hunt::board::{Board, Config, MoveError, Outcome, BOARD_HEIGHT, BOARD_WIDTH, MAX_DIST};
use treasure_hunt::parser::ParseError;
use treasure_hunt::point::{abs, Point};

fn standard(target: (u8, u8), start: (u8, u8)) -> Board {
    Board::from_positions(
        Config::standard(),
        Point::new(target.0, target.1),
        Point::new(start.0, start.1),
    )
}

// Every search should only yield one searched square
#[test]
fn test_search() {
    let mut board = standard((0, 0), (5, 9));
    assert_eq!(board.searched_count(), 0);
    board.search();
    assert_eq!(board.searched_count(), 1);
    let p = board.player_position();
    board.move_to(p.x + 1, p.y);
    board.search();
    assert_eq!(board.searched_count(), 2);
}

#[test]
fn standard_config() {
    let c = Config::standard();
    assert_eq!((c.width, c.height, c.max_move), (BOARD_WIDTH, BOARD_HEIGHT, MAX_DIST));
    assert_eq!((c.width, c.height, c.max_move), (15, 15, 4));
}

#[test]
fn distance_is_symmetric_and_zero_on_self() {
    let a = Point::new(2, 13);
    let b = Point::new(9, 4);
    assert_eq!(a.distance_to(b), 9);
    assert_eq!(b.distance_to(a), 9);
    assert_eq!(a.distance_to(a), 0);
    assert_eq!(Point::new(0, 0).distance_to(Point::new(255, 3)), 255);
}

#[test]
fn abs_values() {
    assert_eq!(abs(-7), 7);
    assert_eq!(abs(7), 7);
    assert_eq!(abs(0), 0);
    assert_eq!(abs(i32::MAX), i32::MAX);
}

#[test]
fn point_set_and_tuple() {
    let mut p = Point::new(1, 2);
    p.set((4, 5));
    assert_eq!(p.as_tuple(), (4, 5));
    assert!(p.in_bounds(5, 6));
    assert!(!p.in_bounds(4, 6));
    assert!(!p.in_bounds(5, 5));
}

#[test]
fn within_bounds_tests() {
    let board = standard((1, 1), (2, 2));
    assert!(board.is_within_bounds(0, 0));
    assert!(board.is_within_bounds(0, 14));
    assert!(board.is_within_bounds(14, 14));
    assert!(!board.is_within_bounds(15, 15));
    assert!(!board.is_within_bounds(255, 200));
}

#[test]
fn move_within_reach_and_too_far() {
    let mut board = standard((7, 7), (5, 5));
    assert_eq!(board.get_distance_to(9, 9), 4);
    assert_eq!(board.try_move("(9,9)"), Outcome::MoveAccepted(Point::new(9, 9)));
    assert_eq!(board.player_position(), Point::new(9, 9));

    let mut board = standard((7, 7), (5, 5));
    assert_eq!(board.get_distance_to(10, 10), 5);
    assert_eq!(board.try_move("(10,10)"), Outcome::MoveRejected(MoveError::TooFar));
    assert_eq!(board.player_position(), Point::new(5, 5));
}

#[test]
fn rejected_moves_keep_the_player() {
    let mut board = standard((7, 7), (14, 14));
    assert_eq!(board.try_move("(15,14)"), Outcome::MoveRejected(MoveError::OutOfBounds));
    assert_eq!(board.player_position(), Point::new(14, 14));
    assert_eq!(board.try_move("(14,14"), Outcome::ParseRejected(ParseError::Format));
    assert_eq!(board.player_position(), Point::new(14, 14));
    assert_eq!(board.try_move(""), Outcome::ParseRejected(ParseError::Empty));
    assert_eq!(board.player_position(), Point::new(14, 14));
    assert_eq!(board.move_to(9, 9), Outcome::MoveRejected(MoveError::TooFar));
    assert_eq!(board.player_position(), Point::new(14, 14));
    assert_eq!(board.searched_count(), 0);
}

#[test]
fn diagonal_moves_cost_their_larger_gap() {
    let mut board = standard((0, 0), (5, 5));
    assert_eq!(board.move_to(9, 1), Outcome::MoveAccepted(Point::new(9, 1)));
    assert_eq!(board.move_to(5, 5), Outcome::MoveAccepted(Point::new(5, 5)));
}

#[test]
fn search_reports_distance() {
    let mut board = standard((7, 7), (5, 5));
    assert_eq!(board.search(), Outcome::SearchMiss(2));
    assert!(!board.is_won());
    assert!(board.is_cell_searched(Point::new(5, 5)));
    assert!(!board.is_cell_searched(Point::new(7, 7)));
}

#[test]
fn searching_twice_adds_nothing() {
    let mut board = standard((7, 7), (5, 5));
    board.search();
    let once = board.searched_count();
    assert_eq!(board.search(), Outcome::SearchMiss(2));
    assert_eq!(board.searched_count(), once);
    assert_eq!(once, 1);
}

#[test]
fn finding_the_treasure_ends_the_game() {
    let mut board = standard((7, 7), (5, 5));
    assert_eq!(board.try_move("[7,7]"), Outcome::MoveAccepted(Point::new(7, 7)));
    assert_eq!(board.search(), Outcome::SearchHit);
    assert!(board.is_won());
    assert_eq!(board.search(), Outcome::AlreadyWon);
    assert_eq!(board.try_move("(8,8)"), Outcome::AlreadyWon);
    assert_eq!(board.try_move("nonsense"), Outcome::AlreadyWon);
    assert_eq!(board.move_to(6, 6), Outcome::AlreadyWon);
    assert_eq!(board.player_position(), Point::new(7, 7));
    assert_eq!(board.searched_count(), 1);
    assert!(board.is_won());
}

#[test]
fn custom_sizes() {
    let config = Config { width: 3, height: 2, max_move: 1 };
    let mut board = Board::from_positions(config, Point::new(2, 1), Point::new(0, 0));
    assert_eq!(board.try_move("(2,0)"), Outcome::MoveRejected(MoveError::TooFar));
    assert_eq!(board.try_move("(0,2)"), Outcome::MoveRejected(MoveError::OutOfBounds));
    assert_eq!(board.try_move("(1,1)"), Outcome::MoveAccepted(Point::new(1, 1)));
    assert_eq!(board.search(), Outcome::SearchMiss(1));
}

#[test]
fn random_placement_stays_on_the_grid() {
    let mut rng = StdRng::seed_from_u64(7);
    for _ in 0..200 {
        let p = Point::random(&mut rng, 1, 1);
        assert_eq!(p, Point::new(0, 0));
        let q = Point::random(&mut rng, 3, 200);
        assert!(q.x < 3 && q.y < 200);
        let board = Board::new(Config::standard(), &mut rng);
        let pos = board.player_position();
        assert!(pos.x < 15 && pos.y < 15);
        assert!(!board.is_won());
        assert_eq!(board.searched_count(), 0);
    }
}

#[test]
fn seeded_games_repeat() {
    let a = Board::new(Config::standard(), &mut StdRng::seed_from_u64(42));
    let b = Board::new(Config::standard(), &mut StdRng::seed_from_u64(42));
    assert_eq!(a.player_position(), b.player_position());
    assert_eq!(a.grid.target, b.grid.target);
}
