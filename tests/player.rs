use treasure_hunt::color::{check_color, parse_color, PlayerColor};
use treasure_hunt::menu::{parse_action, Action};
use treasure_hunt::player::Player;
use treasure_hunt::point::Point;

#[test]
fn utils_color_tests() {
    assert!(check_color("Green"));
    assert!(check_color("Blue"));
    assert!(!check_color("Cyam"));
    assert!(check_color("Black"));
    assert!(!check_color("0,0,0"));
}

#[test]
fn color_names_and_triples() {
    assert_eq!(parse_color("Magenta"), Some(PlayerColor::Magenta));
    assert_eq!(parse_color(" Yel low "), Some(PlayerColor::Yellow));
    assert_eq!(parse_color("yellow"), None);
    assert_eq!(parse_color("133, 230, 89"), Some(PlayerColor::Rgb(133, 230, 89)));
    assert_eq!(parse_color("0,0,0"), Some(PlayerColor::Rgb(0, 0, 0)));
    assert_eq!(parse_color("256,0,0"), None);
    assert_eq!(parse_color("1,2"), None);
    assert_eq!(parse_color("1,2,3,4"), None);
    assert_eq!(parse_color("1000,2,3"), None);
    assert_eq!(parse_color(""), None);
}

#[test]
fn player_keeps_color_on_bad_input() {
    let mut player = Player::new(Point::new(1, 2), 4);
    assert_eq!(player.color, PlayerColor::Green);
    assert!(player.set_color("Red"));
    assert_eq!(player.color, PlayerColor::Red);
    assert!(!player.set_color("Purple"));
    assert_eq!(player.color, PlayerColor::Red);
    assert!(player.set_color("10,20,30"));
    assert_eq!(player.color, PlayerColor::Rgb(10, 20, 30));
    assert_eq!(player.position, Point::new(1, 2));
}

#[test]
fn menu_choices() {
    assert_eq!(parse_action("1"), Some(Action::Move));
    assert_eq!(parse_action("Search"), Some(Action::Search));
    assert_eq!(parse_action("Help"), Some(Action::Help));
    assert_eq!(parse_action("help"), None);
    assert_eq!(parse_action("move"), None);
    assert_eq!(parse_action("4"), Some(Action::Quit));
    assert_eq!(parse_action("5"), None);
    assert_eq!(parse_action("QUIT"), None);
}
