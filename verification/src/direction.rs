//! Direction words accepted by the axis commands.
//!
//! A command names its direction with a word that is compared after
//! lowercasing: `forward`, `clockwise` and `cw` turn an axis one way,
//! `backward`, `counterclockwise` and `ccw` the other.

use vstd::prelude::*;

verus! {

/// The two senses in which an axis can be stepped.
#[derive(Clone, Copy, Debug, PartialEq, Eq, Structural)]
pub enum Direction {
    /// `forward`, `clockwise` or `cw`: the step count grows.
    Forward,
    /// `backward`, `counterclockwise` or `ccw`: the step count shrinks.
    Backward,
}

/// What `str::to_lowercase` returns for a string with these characters.
pub uninterp spec fn lowercase(s: Seq<char>) -> Seq<char>;

/// Whether every character is an ASCII character.
pub open spec fn is_ascii_text(s: Seq<char>) -> bool {
    forall|i: int| 0 <= i < s.len() ==> (#[trigger] s[i] as u32) < 128
}

/// An ASCII capital letter turned into its small letter; any other
/// character unchanged.
pub open spec fn ascii_lower_char(c: char) -> char {
    if 65 <= (c as u32) <= 90 {
        ((c as u32) + 32) as char
    } else {
        c
    }
}

/// Each character passed through `ascii_lower_char`.
pub open spec fn ascii_lowercase(s: Seq<char>) -> Seq<char> {
    s.map_values(|c: char| ascii_lower_char(c))
}

/// Calls `str::to_lowercase`, Unicode lowercasing. The contract ties the
/// result to `lowercase` of the argument and states what Unicode
/// lowercasing does to ASCII text: `A` to `Z` become `a` to `z`, every
/// other ASCII character stays. What it does to other characters is not
/// stated.
#[verifier::external_body]
fn to_lowercase(s: &str) -> (lower: String)
    ensures
        lower@ == lowercase(s@),
        is_ascii_text(s@) ==> lower@ == ascii_lowercase(s@),
{
    s.to_lowercase()
}

/// The direction that an already lowercased word names, if any.
pub open spec fn direction_of(lower: Seq<char>) -> Option<Direction> {
    if lower == "forward"@ || lower == "clockwise"@ || lower == "cw"@ {
        Some(Direction::Forward)
    } else if lower == "backward"@ || lower == "counterclockwise"@ || lower == "ccw"@ {
        Some(Direction::Backward)
    } else {
        None
    }
}

/// The direction that a word names once lowercased.
pub open spec fn parsed_direction(word: Seq<char>) -> Option<Direction> {
    direction_of(lowercase(word))
}

/// Whether two strings hold the same characters.
pub fn same_text(a: &str, b: &str) -> (same: bool)
    ensures
        same == (a@ == b@),
{
    let a_owned = String::from_str(a);
    let b_owned = String::from_str(b);
    a_owned == b_owned
}

/// The direction named by `lower`, a word that is already lowercased.
pub fn direction_from_lowercase(lower: &str) -> (dir: Option<Direction>)
    ensures
        dir == direction_of(lower@),
{
    if same_text(lower, "forward") || same_text(lower, "clockwise") || same_text(lower, "cw") {
        Some(Direction::Forward)
    } else if same_text(lower, "backward") || same_text(lower, "counterclockwise")
        || same_text(lower, "ccw") {
        Some(Direction::Backward)
    } else {
        None
    }
}

/// Lowercases `word` and reads the direction it names; `None` where it
/// names none.
pub fn parse_direction(word: &str) -> (dir: Option<Direction>)
    ensures
        dir == parsed_direction(word@),
        is_ascii_text(word@) ==> dir == direction_of(ascii_lowercase(word@)),
{
    let lower = to_lowercase(word);
    direction_from_lowercase(lower.as_str())
}

/// The direction words themselves are ASCII and already lowercase, so
/// each names its direction as it stands, and so does its spelling in
/// capitals.
pub proof fn lemma_direction_words()
    ensures
        is_ascii_text("forward"@) && direction_of(ascii_lowercase("forward"@)) == Some(
            Direction::Forward,
        ),
        is_ascii_text("clockwise"@) && direction_of(ascii_lowercase("clockwise"@)) == Some(
            Direction::Forward,
        ),
        is_ascii_text("cw"@) && direction_of(ascii_lowercase("cw"@)) == Some(Direction::Forward),
        is_ascii_text("backward"@) && direction_of(ascii_lowercase("backward"@)) == Some(
            Direction::Backward,
        ),
        is_ascii_text("counterclockwise"@) && direction_of(ascii_lowercase("counterclockwise"@))
            == Some(Direction::Backward),
        is_ascii_text("ccw"@) && direction_of(ascii_lowercase("ccw"@)) == Some(Direction::Backward),
        is_ascii_text("FORWARD"@) && direction_of(ascii_lowercase("FORWARD"@)) == Some(
            Direction::Forward,
        ),
        is_ascii_text("CCW"@) && direction_of(ascii_lowercase("CCW"@)) == Some(Direction::Backward),
{
    reveal_strlit("forward");
    reveal_strlit("clockwise");
    reveal_strlit("cw");
    reveal_strlit("backward");
    reveal_strlit("counterclockwise");
    reveal_strlit("ccw");
    reveal_strlit("FORWARD");
    reveal_strlit("CCW");
    assert(ascii_lowercase("forward"@) =~= "forward"@);
    assert(ascii_lowercase("clockwise"@) =~= "clockwise"@);
    assert(ascii_lowercase("cw"@) =~= "cw"@);
    assert(ascii_lowercase("backward"@) =~= "backward"@);
    assert(ascii_lowercase("counterclockwise"@) =~= "counterclockwise"@);
    assert(ascii_lowercase("ccw"@) =~= "ccw"@);
    assert(ascii_lowercase("FORWARD"@) =~= "forward"@);
    assert(ascii_lowercase("CCW"@) =~= "ccw"@);
}

/// Exactly three words name each direction: `forward`, `clockwise` and
/// `cw` name forward, `backward`, `counterclockwise` and `ccw` backward,
/// and every other (lowercased) word names none.
pub proof fn lemma_only_six_words(w: Seq<char>)
    ensures
        direction_of(w) == Some(Direction::Forward) <==> (w == "forward"@ || w == "clockwise"@
            || w == "cw"@),
        direction_of(w) == Some(Direction::Backward) <==> (w == "backward"@ || w
            == "counterclockwise"@ || w == "ccw"@),
        direction_of(w) is None <==> !(w == "forward"@ || w == "clockwise"@ || w == "cw"@ || w
            == "backward"@ || w == "counterclockwise"@ || w == "ccw"@),
{
    reveal_strlit("forward");
    reveal_strlit("clockwise");
    reveal_strlit("cw");
    reveal_strlit("backward");
    reveal_strlit("counterclockwise");
    reveal_strlit("ccw");
    assert("forward"@.len() == 7 && "clockwise"@.len() == 9 && "cw"@.len() == 2);
    assert("backward"@.len() == 8 && "counterclockwise"@.len() == 16 && "ccw"@.len() == 3);
}

} // verus!
