//! Color lists written as text: hexadecimal color codes such as `#282a36`,
//! separated by commas or white space.

use vstd::prelude::*;
use vstd::string::StrSliceExecFns;
use vstd::string::StringExecFns;
use vstd::utf8::encode_utf8;
use crate::hexcode::{decode_hex, describe_hex_error, hex_decoded, hex_error_text, HexError};
use crate::theme::Color;

verus! {

/// Why a text is not a list of colors.
#[derive(Clone, Copy, Debug, PartialEq, Eq, Structural)]
pub enum ParseError {
    /// A color code is not hexadecimal.
    Hex(HexError),
    /// A color code does not spell out exactly three bytes.
    NotThreeComponents,
}

impl ParseError {
    /// The error in words.
    pub open spec fn text(self) -> Seq<char> {
        match self {
            ParseError::Hex(error) => hex_failure_text(hex_error_text(error)),
            ParseError::NotThreeComponents => "RGB color tuple must have three components"@,
        }
    }

    /// The error in words, for the one who wrote the color list.
    pub fn message(&self) -> (text: String)
        ensures
            text@ == self.text(),
    {
        match self {
            ParseError::Hex(error) => {
                let detail = describe_hex_error(*error);
                hex_failure_message(detail.as_str())
            },
            ParseError::NotThreeComponents => "RGB color tuple must have three components".to_owned(),
        }
    }
}

/// The words for a color code that is not hexadecimal, `detail` saying
/// what is wrong with it.
pub open spec fn hex_failure_text(detail: Seq<char>) -> Seq<char> {
    "Failed to parse hex color code: "@ + detail
}

/// The words for a color code that is not hexadecimal, `detail` saying
/// what is wrong with it.
pub fn hex_failure_message(detail: &str) -> (text: String)
    ensures
        text@ == hex_failure_text(detail@),
{
    "Failed to parse hex color code: ".to_owned().concat(detail)
}

/// Whether a character is white space, as `char::is_whitespace` has it:
/// the characters with the Unicode property `White_Space`.
pub uninterp spec fn is_whitespace(c: char) -> bool;

/// `char::is_whitespace`.
#[verifier::external_body]
fn whitespace(c: char) -> (white: bool)
    ensures
        white == is_whitespace(c),
{
    c.is_whitespace()
}

/// Whether a character stands between two color codes: a comma, or white
/// space.
pub open spec fn is_separator(c: char) -> bool {
    c == ',' || is_whitespace(c)
}

/// For each character of a text, whether it is a separator.
pub open spec fn separators_of(text: Seq<char>) -> Seq<bool> {
    Seq::new(text.len(), |i: int| is_separator(text[i]))
}

/// Whether position `i` is marked as a separator. Positions that the marks
/// do not reach are not.
pub open spec fn separates(separator: Seq<bool>, i: int) -> bool {
    0 <= i < separator.len() && separator[i]
}

/// Where the piece that begins at `from` ends: at the first separator at or
/// after `from`, or at the end of the text.
pub open spec fn piece_end(len: int, separator: Seq<bool>, from: int) -> int
    decreases len - from,
{
    if from >= len || separates(separator, from) {
        from
    } else {
        piece_end(len, separator, from + 1)
    }
}

/// Where the digits of the piece between `from` and `end` begin: behind
/// its leading `#` signs.
pub open spec fn digits_start(text: Seq<char>, from: int, end: int) -> int
    decreases end - from,
{
    if from >= end || text[from] != '#' {
        from
    } else {
        digits_start(text, from + 1, end)
    }
}

/// The color that the digits of one piece spell out. A piece without digits
/// gives no color and no error.
pub open spec fn piece_color(digits: Seq<char>) -> Result<Option<Color>, ParseError> {
    if digits.len() == 0 {
        Ok(None)
    } else {
        match hex_decoded(encode_utf8(digits)) {
            Err(error) => Err(ParseError::Hex(error)),
            Ok(bytes) => if bytes.len() == 3 {
                Ok(Some((bytes[0], bytes[1], bytes[2])))
            } else {
                Err(ParseError::NotThreeComponents)
            },
        }
    }
}

/// `colors` followed by what the rest of the text gave, or the error that
/// the rest gave.
pub open spec fn followed_by(colors: Seq<Color>, rest: Result<Seq<Color>, ParseError>) -> Result<
    Seq<Color>,
    ParseError,
> {
    match rest {
        Ok(more) => Ok(colors + more),
        Err(error) => Err(error),
    }
}

/// The colors that the text spells out from position `from` on, where
/// `from` begins a piece. The text is cut into pieces at the marked
/// separators; each piece, without its leading `#` signs, is a color code
/// or empty. The first piece that fails decides the error.
pub open spec fn colors_from(text: Seq<char>, separator: Seq<bool>, from: int) -> Result<
    Seq<Color>,
    ParseError,
>
    decreases text.len() - from,
    when 0 <= from <= text.len()
    via colors_from_decreases
{
    let end = piece_end(text.len() as int, separator, from);
    match piece_color(text.subrange(digits_start(text, from, end), end)) {
        Err(error) => Err(error),
        Ok(found) => {
            let here = match found {
                Some(color) => seq![color],
                None => Seq::empty(),
            };
            if end >= text.len() {
                Ok(here)
            } else {
                followed_by(here, colors_from(text, separator, end + 1))
            }
        },
    }
}

#[via_fn]
proof fn colors_from_decreases(text: Seq<char>, separator: Seq<bool>, from: int) {
    lemma_piece_end_bounds(text.len() as int, separator, from);
}

/// A piece ends at or after its beginning and within the text, at a
/// separator unless the text ends there.
pub proof fn lemma_piece_end_bounds(len: int, separator: Seq<bool>, from: int)
    requires
        0 <= from <= len,
    ensures
        from <= piece_end(len, separator, from) <= len,
        piece_end(len, separator, from) < len ==> separates(
            separator,
            piece_end(len, separator, from),
        ),
        forall|i: int| from <= i < piece_end(len, separator, from) ==> !separates(separator, i),
    decreases len - from,
{
    if from >= len || separates(separator, from) {
    } else {
        lemma_piece_end_bounds(len, separator, from + 1);
    }
}

/// What parsing returned, the colors as a sequence.
pub open spec fn colors_outcome(result: Result<Vec<Color>, ParseError>) -> Result<
    Seq<Color>,
    ParseError,
> {
    match result {
        Ok(colors) => Ok(colors@),
        Err(error) => Err(error),
    }
}

/// The characters of a text, in order.
fn chars_of(text: &str) -> (chars: Vec<char>)
    ensures
        chars@ == text@,
{
    let mut chars: Vec<char> = Vec::new();
    for c in it: text.chars()
        invariant
            it.seq() == text@,
            chars@ == it.seq().take(it.index() as int),
    {
        chars.push(c);
    }
    chars
}

/// Marks the separators among the characters of a text: the commas and
/// the white space.
pub fn separators(text: &str) -> (separator: Vec<bool>)
    ensures
        separator@ == separators_of(text@),
{
    let mut separator: Vec<bool> = Vec::new();
    for c in it: text.chars()
        invariant
            it.seq() == text@,
            separator@ == separators_of(it.seq().take(it.index() as int)),
    {
        separator.push(c == ',' || whitespace(c));
        assert(separator@ =~= separators_of(it.seq().take(it.index() + 1)));
    }
    assert(text@.take(text@.len() as int) =~= text@);
    separator
}

/// The colors that a text spells out, given which of its characters
/// separate color codes (`separator[i]` for the character at position `i`;
/// characters beyond the marks do not separate). Between separators, a
/// piece may begin with any number of `#` signs; what follows them must be
/// empty or six hexadecimal digits, two each for red, green and blue.
/// Empty pieces are passed over. The first piece at fault ends the parse
/// with its error.
pub fn colors_between(text: &str, separator: &Vec<bool>) -> (result: Result<Vec<Color>, ParseError>)
    ensures
        colors_outcome(result) == colors_from(text@, separator@, 0),
{
    let chars = chars_of(text);
    let len: usize = chars.len();
    let mut colors: Vec<Color> = Vec::new();
    let mut from: usize = 0;
    loop
        invariant
            chars@ == text@,
            len == text@.len(),
            from <= len,
            colors_from(text@, separator@, 0) == followed_by(
                colors@,
                colors_from(text@, separator@, from as int),
            ),
        decreases len - from,
    {
        let mut end: usize = from;
        while end < len && !(end < separator.len() && separator[end])
            invariant
                from <= end <= len,
                len == text@.len(),
                piece_end(len as int, separator@, end as int) == piece_end(
                    len as int,
                    separator@,
                    from as int,
                ),
            decreases len - end,
        {
            end = end + 1;
        }
        let mut start: usize = from;
        while start < end && chars[start] == '#'
            invariant
                from <= start <= end <= len,
                chars@ == text@,
                len == text@.len(),
                digits_start(text@, start as int, end as int) == digits_start(
                    text@,
                    from as int,
                    end as int,
                ),
            decreases end - start,
        {
            start = start + 1;
        }
        let ghost digits = text@.subrange(start as int, end as int);
        let ghost before = colors@;
        let ghost whole = colors_from(text@, separator@, from as int);
        proof {
            assert(piece_end(len as int, separator@, from as int) == end);
            assert(digits_start(text@, from as int, end as int) == start);
            assert(digits.len() == end - start);
        }
        if start < end {
            let piece = text.substring_char(start, end);
            match decode_hex(piece.as_bytes()) {
                Err(error) => {
                    return Err(ParseError::Hex(error));
                },
                Ok(bytes) => {
                    if bytes.len() == 3 {
                        colors.push((bytes[0], bytes[1], bytes[2]));
                    } else {
                        return Err(ParseError::NotThreeComponents);
                    }
                },
            }
        }
        let ghost here = colors@.skip(before.len() as int);
        proof {
            assert(colors@ =~= before + here);
            assert(piece_color(digits) is Ok);
            assert(here =~= match piece_color(digits)->Ok_0 {
                Some(color) => seq![color],
                None => Seq::empty(),
            });
        }
        if end >= len {
            assert(whole == Ok::<Seq<Color>, ParseError>(here));
            return Ok(colors);
        }
        proof {
            let rest = colors_from(text@, separator@, end + 1);
            assert(whole == followed_by(here, rest));
            match rest {
                Ok(more) => {
                    assert(before + (here + more) =~= colors@ + more);
                },
                Err(_) => {},
            }
        }
        from = end + 1;
    }
}

/// The colors that a text spells out: hexadecimal color codes, each of six
/// digits and with or without `#` before it, separated by commas or white
/// space.
pub fn parse_colors(text: &str) -> (result: Result<Vec<Color>, ParseError>)
    ensures
        colors_outcome(result) == colors_from(text@, separators_of(text@), 0),
{
    let separator = separators(text);
    colors_between(text, &separator)
}

} // verus!
