//! The colour of the player's token: one of eight named colours, or an RGB
//! triple written as three decimal numbers separated by commas.

use crate::parser::{digit_of, digits_value, is_dec_digit, strip_spaces, without_spaces};
use crate::text::{chars_of, comma_fields, equals_word, split_commas};
use vstd::prelude::*;

verus! {

#[derive(Debug, Clone, Copy, PartialEq, Eq, Structural)]
pub enum PlayerColor {
    Black,
    Blue,
    Green,
    Red,
    Cyan,
    Magenta,
    Yellow,
    White,
    Rgb(u8, u8, u8),
}

/// The colour that one of the eight known names denotes, written exactly so.
pub open spec fn named_color(t: Seq<char>) -> Option<PlayerColor> {
    if t == "Black"@ {
        Some(PlayerColor::Black)
    } else if t == "Blue"@ {
        Some(PlayerColor::Blue)
    } else if t == "Green"@ {
        Some(PlayerColor::Green)
    } else if t == "Red"@ {
        Some(PlayerColor::Red)
    } else if t == "Cyan"@ {
        Some(PlayerColor::Cyan)
    } else if t == "Magenta"@ {
        Some(PlayerColor::Magenta)
    } else if t == "Yellow"@ {
        Some(PlayerColor::Yellow)
    } else if t == "White"@ {
        Some(PlayerColor::White)
    } else {
        None
    }
}

/// One to three decimal digits.
pub open spec fn short_number(d: Seq<char>) -> bool {
    1 <= d.len() <= 3 && forall|i: int| 0 <= i < d.len() ==> is_dec_digit(#[trigger] d[i])
}

/// Three short numbers separated by commas.
pub open spec fn rgb_shaped(t: Seq<char>) -> bool {
    let f = split_commas(t);
    f.len() == 3 && short_number(f[0]) && short_number(f[1]) && short_number(f[2])
}

/// The colour that `raw` names once its whitespace is removed: an RGB triple
/// whose three numbers fit in a byte, or a known colour name.
pub open spec fn color_spec(raw: Seq<char>) -> Option<PlayerColor> {
    let t = strip_spaces(raw);
    if raw.len() == 0 {
        None
    } else if rgb_shaped(t) {
        let f = split_commas(t);
        let (r, g, b) = (digits_value(f[0], 10), digits_value(f[1], 10), digits_value(f[2], 10));
        if r <= 255 && g <= 255 && b <= 255 {
            Some(PlayerColor::Rgb(r as u8, g as u8, b as u8))
        } else {
            None
        }
    } else {
        named_color(t)
    }
}

fn color_named(t: &Vec<char>) -> (r: Option<PlayerColor>)
    ensures
        r == named_color(t@),
{
    if equals_word(t, "Black") {
        Some(PlayerColor::Black)
    } else if equals_word(t, "Blue") {
        Some(PlayerColor::Blue)
    } else if equals_word(t, "Green") {
        Some(PlayerColor::Green)
    } else if equals_word(t, "Red") {
        Some(PlayerColor::Red)
    } else if equals_word(t, "Cyan") {
        Some(PlayerColor::Cyan)
    } else if equals_word(t, "Magenta") {
        Some(PlayerColor::Magenta)
    } else if equals_word(t, "Yellow") {
        Some(PlayerColor::Yellow)
    } else if equals_word(t, "White") {
        Some(PlayerColor::White)
    } else {
        None
    }
}

/// Whether `color` is one of the eight known colour names.
pub fn check_color(color: &str) -> (r: bool)
    ensures
        r == named_color(color@) is Some,
{
    let t = chars_of(color);
    color_named(&t).is_some()
}

fn is_short_number(d: &Vec<char>) -> (r: bool)
    ensures
        r == short_number(d@),
{
    let n = d.len();
    if n < 1 || n > 3 {
        return false;
    }
    let mut i: usize = 0;
    while i < n
        invariant
            n == d@.len(),
            i <= n,
            forall|j: int| 0 <= j < i ==> is_dec_digit(#[trigger] d@[j]),
        decreases n - i,
    {
        if !('0' <= d[i] && d[i] <= '9') {
            return false;
        }
        i = i + 1;
    }
    true
}

/// The value of a short number.
fn short_value(d: &Vec<char>) -> (r: u32)
    requires
        short_number(d@),
    ensures
        r == digits_value(d@, 10),
{
    let n = d.len();
    let mut acc: u32 = 0;
    let mut i: usize = 0;
    while i < n
        invariant
            n == d@.len(),
            n <= 3,
            i <= n,
            short_number(d@),
            acc == digits_value(d@.take(i as int), 10),
            i == 0 ==> acc == 0,
            i <= 1 ==> acc < 10,
            i <= 2 ==> acc < 100,
            acc < 1000,
        decreases n - i,
    {
        let v = digit_of(d[i]);
        assert(d@.take(i + 1).drop_last() =~= d@.take(i as int));
        acc = acc * 10 + v;
        i = i + 1;
    }
    assert(d@.take(n as int) =~= d@);
    acc
}

/// Reads a colour from free text.
pub fn parse_color(color: &str) -> (r: Option<PlayerColor>)
    ensures
        r == color_spec(color@),
{
    if color.is_empty() {
        return None;
    }
    let t = without_spaces(color);
    let (commas, a, b, c) = comma_fields(&t);
    if commas == 2 && is_short_number(&a) && is_short_number(&b) && is_short_number(&c) {
        let (r, g, bl) = (short_value(&a), short_value(&b), short_value(&c));
        if r <= 255 && g <= 255 && bl <= 255 {
            Some(PlayerColor::Rgb(r as u8, g as u8, bl as u8))
        } else {
            None
        }
    } else {
        color_named(&t)
    }
}

} // verus!
