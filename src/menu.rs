//! The actions a player can pick from the menu, by number or by name.

use crate::text::{chars_of, equals_word};
use vstd::prelude::*;

verus! {

#[derive(Debug, Clone, Copy, PartialEq, Eq, Structural)]
pub enum Action {
    Move,
    Search,
    Help,
    Quit,
}

/// The action that a menu answer names: its number, or its name exactly as
/// the menu writes it.
pub open spec fn action_of(s: Seq<char>) -> Option<Action> {
    if s == "1"@ || s == "Move"@ {
        Some(Action::Move)
    } else if s == "2"@ || s == "Search"@ {
        Some(Action::Search)
    } else if s == "3"@ || s == "Help"@ {
        Some(Action::Help)
    } else if s == "4"@ || s == "Quit"@ {
        Some(Action::Quit)
    } else {
        None
    }
}

/// Reads a menu answer.
pub fn parse_action(choice: &str) -> (r: Option<Action>)
    ensures
        r == action_of(choice@),
{
    let t = chars_of(choice);
    if equals_word(&t, "1") || equals_word(&t, "Move") {
        Some(Action::Move)
    } else if equals_word(&t, "2") || equals_word(&t, "Search") {
        Some(Action::Search)
    } else if equals_word(&t, "3") || equals_word(&t, "Help") {
        Some(Action::Help)
    } else if equals_word(&t, "4") || equals_word(&t, "Quit") {
        Some(Action::Quit)
    } else {
        None
    }
}

} // verus!
