//! The textual form of a coordinate pair.
//!
//! Every whitespace character is removed first, anywhere in the text, so
//! `"(1 3, 1 3)"` reads as `(13,13)`. What is left must be an opening bracket
//! `(` or `[`, two numbers separated by a comma, and the matching closing
//! bracket. A number is decimal, or hexadecimal after a `0x` or `0X` prefix,
//! and must fit in a byte. No sign is accepted.

use crate::text::{comma_fields, split_commas};
use vstd::prelude::*;

verus! {

/// Why a text is not a coordinate pair.
#[derive(Debug, Clone, Copy, PartialEq, Eq, Structural)]
pub enum ParseError {
    /// The text is empty.
    Empty,
    /// The text is not a bracketed list of numbers.
    Format,
    /// The closing bracket is not the kind that the opening one asks for.
    BracketMismatch,
    /// The brackets hold more or fewer than two numbers.
    WrongCount,
    /// A number holds a character that is not one of its digits.
    NotANumber,
    /// A number is well formed but does not fit in a byte.
    OutOfRange,
}

/// Characters with the Unicode White_Space property.
pub open spec fn is_space(c: char) -> bool {
    let n = c as u32;
    ||| 0x9 <= n <= 0xd
    ||| n == 0x20
    ||| n == 0x85
    ||| n == 0xa0
    ||| n == 0x1680
    ||| 0x2000 <= n <= 0x200a
    ||| n == 0x2028
    ||| n == 0x2029
    ||| n == 0x202f
    ||| n == 0x205f
    ||| n == 0x3000
}

/// `s` with every whitespace character removed.
pub open spec fn strip_spaces(s: Seq<char>) -> Seq<char>
    decreases s.len(),
{
    if s.len() == 0 {
        seq![]
    } else {
        let rest = strip_spaces(s.drop_last());
        if is_space(s.last()) {
            rest
        } else {
            rest.push(s.last())
        }
    }
}

pub open spec fn is_open(c: char) -> bool {
    c == '(' || c == '['
}

pub open spec fn is_close(c: char) -> bool {
    c == ')' || c == ']'
}

pub open spec fn is_dec_digit(c: char) -> bool {
    '0' <= c <= '9'
}

pub open spec fn is_hex_digit(c: char) -> bool {
    is_dec_digit(c) || ('a' <= c <= 'f') || ('A' <= c <= 'F')
}

/// What may stand between the outer brackets: digits, the `x` of a hex
/// prefix and commas. A sign or another bracket never may.
pub open spec fn is_inner_char(c: char) -> bool {
    is_hex_digit(c) || c == 'x' || c == 'X' || c == ','
}

/// An opening bracket, at least one inner character, a closing bracket.
pub open spec fn well_shaped(t: Seq<char>) -> bool {
    &&& t.len() >= 3
    &&& is_open(t[0])
    &&& is_close(t.last())
    &&& forall|i: int| 1 <= i < t.len() - 1 ==> is_inner_char(#[trigger] t[i])
}

/// What stands between the outer brackets.
pub open spec fn inner(t: Seq<char>) -> Seq<char> {
    t.subrange(1, t.len() - 1)
}

/// The inside of the brackets is two non-empty pieces around one comma.
pub open spec fn two_numbers(t: Seq<char>) -> bool {
    let f = split_commas(inner(t));
    f.len() == 2 && f[0].len() > 0 && f[1].len() > 0
}

pub open spec fn brackets_match(t: Seq<char>) -> bool {
    (t[0] == '(' && t.last() == ')') || (t[0] == '[' && t.last() == ']')
}

/// The value of a decimal or hexadecimal digit.
pub open spec fn digit_value(c: char) -> int {
    if is_dec_digit(c) {
        c as int - '0' as int
    } else if 'a' <= c <= 'f' {
        c as int - 'a' as int + 10
    } else {
        c as int - 'A' as int + 10
    }
}

/// The number that the digits `d` write in `base`, most significant first.
pub open spec fn digits_value(d: Seq<char>, base: int) -> int
    decreases d.len(),
{
    if d.len() == 0 {
        0
    } else {
        digits_value(d.drop_last(), base) * base + digit_value(d.last())
    }
}

pub open spec fn has_hex_prefix(tok: Seq<char>) -> bool {
    tok.len() >= 2 && tok[0] == '0' && (tok[1] == 'x' || tok[1] == 'X')
}

pub open spec fn all_digits(d: Seq<char>, hex: bool) -> bool {
    forall|i: int|
        0 <= i < d.len() ==> (if hex {
            is_hex_digit(#[trigger] d[i])
        } else {
            is_dec_digit(d[i])
        })
}

/// The digits of a number: what follows a hex prefix, or the whole token.
pub open spec fn number_digits(tok: Seq<char>) -> Seq<char> {
    if has_hex_prefix(tok) {
        tok.skip(2)
    } else {
        tok
    }
}

/// The number that a token writes, if it is one.
pub open spec fn token_value(tok: Seq<char>) -> Option<int> {
    let hex = has_hex_prefix(tok);
    let d = number_digits(tok);
    if d.len() > 0 && all_digits(d, hex) {
        Some(digits_value(d, if hex { 16 } else { 10 }))
    } else {
        None
    }
}

/// A token read as a coordinate.
pub open spec fn read_token(tok: Seq<char>) -> Result<u8, ParseError> {
    match token_value(tok) {
        None => Err(ParseError::NotANumber),
        Some(v) => if v <= 255 {
            Ok(v as u8)
        } else {
            Err(ParseError::OutOfRange)
        },
    }
}

/// The coordinate pair that `raw` writes, or the first reason it writes none.
pub open spec fn parse_spec(raw: Seq<char>) -> Result<(u8, u8), ParseError> {
    let t = strip_spaces(raw);
    if raw.len() == 0 {
        Err(ParseError::Empty)
    } else if !well_shaped(t) {
        Err(ParseError::Format)
    } else if !brackets_match(t) {
        Err(ParseError::BracketMismatch)
    } else if !two_numbers(t) {
        Err(ParseError::WrongCount)
    } else {
        let f = split_commas(inner(t));
        match read_token(f[0]) {
            Err(e) => Err(e),
            Ok(x) => match read_token(f[1]) {
                Err(e) => Err(e),
                Ok(y) => Ok((x, y)),
            },
        }
    }
}

fn is_space_char(c: char) -> (r: bool)
    ensures
        r == is_space(c),
{
    let n = c as u32;
    (0x9 <= n && n <= 0xd) || n == 0x20 || n == 0x85 || n == 0xa0 || n == 0x1680 || (0x2000
        <= n && n <= 0x200a) || n == 0x2028 || n == 0x2029 || n == 0x202f || n == 0x205f || n
        == 0x3000
}

fn is_inner(c: char) -> (r: bool)
    ensures
        r == is_inner_char(c),
{
    ('0' <= c && c <= '9') || ('a' <= c && c <= 'f') || ('A' <= c && c <= 'F') || c == 'x' || c
        == 'X' || c == ','
}

/// The characters of `s` without its whitespace.
pub(crate) fn without_spaces(s: &str) -> (r: Vec<char>)
    ensures
        r@ == strip_spaces(s@),
{
    let n = s.unicode_len();
    let mut out: Vec<char> = Vec::new();
    let mut i: usize = 0;
    while i < n
        invariant
            n == s@.len(),
            i <= n,
            out@ == strip_spaces(s@.take(i as int)),
        decreases n - i,
    {
        let c = s.get_char(i);
        assert(s@.take(i + 1).drop_last() =~= s@.take(i as int));
        if !is_space_char(c) {
            out.push(c);
        }
        i = i + 1;
    }
    assert(s@.take(n as int) =~= s@);
    out
}

/// Whether `t` is an opening bracket, inner characters and a closing bracket.
fn check_shape(t: &Vec<char>) -> (r: bool)
    ensures
        r == well_shaped(t@),
{
    let n = t.len();
    if n < 3 {
        return false;
    }
    if !(t[0] == '(' || t[0] == '[') || !(t[n - 1] == ')' || t[n - 1] == ']') {
        return false;
    }
    let mut i: usize = 1;
    while i < n - 1
        invariant
            n == t@.len(),
            n >= 3,
            1 <= i <= n - 1,
            forall|j: int| 1 <= j < i ==> is_inner_char(#[trigger] t@[j]),
        decreases n - 1 - i,
    {
        if !is_inner(t[i]) {
            return false;
        }
        i = i + 1;
    }
    true
}

/// The characters of `t` between its first and its last.
fn inner_chars(t: &Vec<char>) -> (r: Vec<char>)
    requires
        t@.len() >= 2,
    ensures
        r@ == inner(t@),
{
    let n = t.len();
    let mut out: Vec<char> = Vec::new();
    let mut i: usize = 1;
    while i < n - 1
        invariant
            n == t@.len(),
            n >= 2,
            1 <= i <= n - 1,
            out@ == t@.subrange(1, i as int),
        decreases n - 1 - i,
    {
        out.push(t[i]);
        i = i + 1;
        assert(out@ =~= t@.subrange(1, i as int));
    }
    out
}

pub(crate) fn is_digit_of(c: char, hex: bool) -> (r: bool)
    ensures
        r == (if hex {
            is_hex_digit(c)
        } else {
            is_dec_digit(c)
        }),
{
    if hex {
        ('0' <= c && c <= '9') || ('a' <= c && c <= 'f') || ('A' <= c && c <= 'F')
    } else {
        '0' <= c && c <= '9'
    }
}

pub(crate) fn digit_of(c: char) -> (r: u32)
    requires
        is_hex_digit(c),
    ensures
        r == digit_value(c),
        r < 16,
        is_dec_digit(c) ==> r < 10,
{
    if '0' <= c && c <= '9' {
        c as u32 - '0' as u32
    } else if 'a' <= c && c <= 'f' {
        c as u32 - 'a' as u32 + 10
    } else {
        c as u32 - 'A' as u32 + 10
    }
}

proof fn lemma_digits_grow(v: int, base: int, d: int)
    requires
        v > 255,
        base >= 1,
        d >= 0,
    ensures
        v * base + d > 255,
{
    assert(v * base >= v) by (nonlinear_arith)
        requires
            v > 255,
            base >= 1,
    ;
}

/// Reads one token as a byte-sized number.
fn read_number(tok: &Vec<char>) -> (r: Result<u8, ParseError>)
    ensures
        r == read_token(tok@),
{
    let n = tok.len();
    let hex = n >= 2 && tok[0] == '0' && (tok[1] == 'x' || tok[1] == 'X');
    let start: usize = if hex {
        2
    } else {
        0
    };
    let base: u32 = if hex {
        16
    } else {
        10
    };
    let ghost d = number_digits(tok@);
    assert(d =~= tok@.subrange(start as int, n as int));
    if start == n {
        return Err(ParseError::NotANumber);
    }
    // `acc` is the value read so far, or 256 once it no longer fits in a byte.
    let mut acc: u32 = 0;
    let mut i: usize = start;
    while i < n
        invariant
            n == tok@.len(),
            start <= i <= n,
            d == tok@.subrange(start as int, n as int),
            d == number_digits(tok@),
            hex == has_hex_prefix(tok@),
            base == (if hex {
                16u32
            } else {
                10u32
            }),
            all_digits(d.take(i - start), hex),
            acc <= 256,
            digits_value(d.take(i - start), base as int) <= 255 ==> acc == digits_value(
                d.take(i - start),
                base as int,
            ),
            digits_value(d.take(i - start), base as int) > 255 ==> acc == 256,
            digits_value(d.take(i - start), base as int) >= 0,
        decreases n - i,
    {
        let c = tok[i];
        let ghost k = i - start;
        if !is_digit_of(c, hex) {
            assert(d[k] == c);
            assert(!all_digits(d, hex));
            return Err(ParseError::NotANumber);
        }
        let v = digit_of(c);
        let ghost before = digits_value(d.take(k), base as int);
        assert(d.take(k + 1).drop_last() =~= d.take(k));
        assert(digits_value(d.take(k + 1), base as int) == before * base + v);
        if acc <= 255 {
            assert(acc * base + v <= 255 * 16 + 15) by (nonlinear_arith)
                requires
                    acc <= 255,
                    base <= 16,
                    v < 16,
            ;
            acc = acc * base + v;
            if acc > 255 {
                acc = 256;
            }
        } else {
            proof {
                lemma_digits_grow(before, base as int, v as int);
            }
        }
        assert(before * base + v >= 0) by (nonlinear_arith)
            requires
                before >= 0,
                base >= 1,
                v >= 0,
        ;
        assert(all_digits(d.take(k + 1), hex)) by {
            assert forall|j: int| 0 <= j < k + 1 implies (if hex {
                is_hex_digit(#[trigger] d.take(k + 1)[j])
            } else {
                is_dec_digit(d.take(k + 1)[j])
            }) by {
                if j < k {
                    assert(d.take(k + 1)[j] == d.take(k)[j]);
                }
            }
        }
        i = i + 1;
    }
    assert(d.take(n - start) =~= d);
    if acc > 255 {
        Err(ParseError::OutOfRange)
    } else {
        Ok(acc as u8)
    }
}

/// Reads a coordinate pair from free text, without any check against a grid.
pub fn parse_coordinates(raw: &str) -> (r: Result<(u8, u8), ParseError>)
    ensures
        r == parse_spec(raw@),
{
    if raw.is_empty() {
        return Err(ParseError::Empty);
    }
    let t = without_spaces(raw);
    if !check_shape(&t) {
        return Err(ParseError::Format);
    }
    let n = t.len();
    if !((t[0] == '(' && t[n - 1] == ')') || (t[0] == '[' && t[n - 1] == ']')) {
        return Err(ParseError::BracketMismatch);
    }
    let inside = inner_chars(&t);
    let (commas, first, second, _) = comma_fields(&inside);
    if commas != 1 || first.len() == 0 || second.len() == 0 {
        return Err(ParseError::WrongCount);
    }
    let x = match read_number(&first) {
        Ok(v) => v,
        Err(e) => {
            return Err(e);
        },
    };
    let y = match read_number(&second) {
        Ok(v) => v,
        Err(e) => {
            return Err(e);
        },
    };
    Ok((x, y))
}

} // verus!
