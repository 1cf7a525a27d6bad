use crate::difficulty::Difficulty;
use crate::outside::{decimal_u32, lower_of, trim_of, lowercase, parse_decimal_u32, trim_text};
use vstd::prelude::*;

verus! {

/// The level that a menu token selects: `"1"`, `"2"` or `"3"`.
pub open spec fn choice_of(t: Seq<char>) -> Option<Difficulty> {
    if t == seq!['1'] {
        Some(Difficulty::Easy)
    } else if t == seq!['2'] {
        Some(Difficulty::Medium)
    } else if t == seq!['3'] {
        Some(Difficulty::Hard)
    } else {
        None
    }
}

/// Whether a lowercased token answers yes to another round.
pub open spec fn is_yes(t: Seq<char>) -> bool {
    t == seq!['y']
}

/// Reads an already trimmed menu token.
pub fn difficulty_from_token(t: &str) -> (r: Option<Difficulty>)
    ensures
        r == choice_of(t@),
{
    if t.unicode_len() != 1 {
        return None;
    }
    let c = t.get_char(0);
    proof {
        assert(t@ =~= seq![c]);
    }
    if c == '1' {
        Some(Difficulty::Easy)
    } else if c == '2' {
        Some(Difficulty::Medium)
    } else if c == '3' {
        Some(Difficulty::Hard)
    } else {
        proof {
            assert(t@ != seq!['1'] && t@ != seq!['2'] && t@ != seq!['3']) by {
                if t@ == seq!['1'] {
                    assert(t@[0] == '1');
                }
                if t@ == seq!['2'] {
                    assert(t@[0] == '2');
                }
                if t@ == seq!['3'] {
                    assert(t@[0] == '3');
                }
            }
        }
        None
    }
}

/// Reads the player's menu line: the level chosen, or `None` for anything
/// but `1`, `2` or `3` with surrounding white space.
pub fn difficulty_from_line(line: &str) -> (r: Option<Difficulty>)
    ensures
        r == choice_of(trim_of(line@)),
{
    let t = trim_text(line);
    difficulty_from_token(t)
}

/// Reads the player's guess line: the number it writes once trimmed, or
/// `None` when it writes none.
pub fn parse_guess(line: &str) -> (r: Option<u32>)
    ensures
        r == decimal_u32(trim_of(line@)),
{
    let t = trim_text(line);
    parse_decimal_u32(t)
}

/// Whether an already trimmed and lowercased answer is exactly `y`.
pub fn answer_is_yes(t: &str) -> (r: bool)
    ensures
        r == is_yes(t@),
{
    if t.unicode_len() != 1 {
        return false;
    }
    let c = t.get_char(0);
    proof {
        assert(t@ =~= seq![c]);
        if t@ == seq!['y'] {
            assert(t@[0] == 'y');
        }
    }
    c == 'y'
}

/// Whether the player's answer asks for another round: the line, trimmed
/// and lowercased, is exactly `y`.
pub fn wants_replay(line: &str) -> (r: bool)
    ensures
        r == is_yes(lower_of(trim_of(line@))),
{
    let t = trim_text(line);
    let l = lowercase(t);
    answer_is_yes(l.as_str())
}

} // verus!
