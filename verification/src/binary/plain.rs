//! The plain form of the cache file: the only form that is handed to the
//! TOML reader.
//!
//! A text is plain where each of its lines is empty, a table header with
//! one key (`["0.10.2"]`), or a key with a string (`win64 = "https://.."`).
//! A key is bare, made of letters, digits, `-` and `_`, or a string. A
//! string stands between two double quotes on one line; in it a backslash
//! takes the character after it along, so that the string ends at the first
//! quote without a backslash before it. Around `=` stands one space on each
//! side, and nowhere else is there room for more.
//!
//! This is how the cache is written. It leaves out what makes the TOML
//! reader descend: arrays, inline tables and keys with dots. A bracket, a
//! brace or a dot of a plain text is the bracket that begins a header, or
//! stands inside a string.

use vstd::prelude::*;

verus! {

/// Where the reading of a text stands in its line.
#[derive(Clone, Copy, Debug, PartialEq, Eq, Structural)]
pub enum Place {
    /// At the beginning of a line.
    LineStart,
    /// Behind the bracket that begins a header.
    HeaderBegun,
    /// In the bare key of a header.
    HeaderBare,
    /// In the string that is the key of a header.
    HeaderString,
    /// Behind a backslash in that string.
    HeaderEscape,
    /// Behind that string.
    HeaderKeyed,
    /// Behind the bracket that ends a header.
    HeaderEnded,
    /// In the bare key of a pair.
    KeyBare,
    /// In the string that is the key of a pair.
    KeyString,
    /// Behind a backslash in that string.
    KeyEscape,
    /// Behind that string.
    Keyed,
    /// Behind the space that follows the key.
    BeforeEquals,
    /// Behind the equals sign.
    AfterEquals,
    /// Behind the space that follows the equals sign.
    BeforeValue,
    /// In the string that is the value.
    ValueString,
    /// Behind a backslash in that string.
    ValueEscape,
    /// Behind that string.
    ValueEnded,
    /// In a text that is not plain.
    Astray,
}

/// Whether `c` may stand in a bare key: a letter, a digit, `-` or `_`.
pub open spec fn is_bare(c: char) -> bool {
    ||| 0x30 <= c as u32 <= 0x39
    ||| 0x41 <= c as u32 <= 0x5a
    ||| 0x61 <= c as u32 <= 0x7a
    ||| c == '-'
    ||| c == '_'
}

/// Where the reading stands in a string, behind one more character: the
/// string ends at a quote, a backslash takes the next character along, and
/// a string does not go on to the next line.
pub open spec fn in_string(c: char, inside: Place, escape: Place, behind: Place) -> Place {
    if c == '"' {
        behind
    } else if c == '\\' {
        escape
    } else if c == '\n' {
        Place::Astray
    } else {
        inside
    }
}

/// Where the reading stands behind a backslash and one more character.
pub open spec fn escaped(c: char, inside: Place) -> Place {
    if c == '\n' {
        Place::Astray
    } else {
        inside
    }
}

/// Where the reading stands behind one more character that must be `c`.
pub open spec fn only(c: char, wanted: char, then: Place) -> Place {
    if c == wanted {
        then
    } else {
        Place::Astray
    }
}

/// Where the reading stands behind one more character.
pub open spec fn moved(place: Place, c: char) -> Place {
    match place {
        Place::LineStart => if c == '\n' {
            Place::LineStart
        } else if c == '[' {
            Place::HeaderBegun
        } else if c == '"' {
            Place::KeyString
        } else if is_bare(c) {
            Place::KeyBare
        } else {
            Place::Astray
        },
        Place::HeaderBegun => if c == '"' {
            Place::HeaderString
        } else if is_bare(c) {
            Place::HeaderBare
        } else {
            Place::Astray
        },
        Place::HeaderBare => if c == ']' {
            Place::HeaderEnded
        } else if is_bare(c) {
            Place::HeaderBare
        } else {
            Place::Astray
        },
        Place::HeaderString => in_string(
            c,
            Place::HeaderString,
            Place::HeaderEscape,
            Place::HeaderKeyed,
        ),
        Place::HeaderEscape => escaped(c, Place::HeaderString),
        Place::HeaderKeyed => only(c, ']', Place::HeaderEnded),
        Place::HeaderEnded => only(c, '\n', Place::LineStart),
        Place::KeyBare => if c == ' ' {
            Place::BeforeEquals
        } else if is_bare(c) {
            Place::KeyBare
        } else {
            Place::Astray
        },
        Place::KeyString => in_string(c, Place::KeyString, Place::KeyEscape, Place::Keyed),
        Place::KeyEscape => escaped(c, Place::KeyString),
        Place::Keyed => only(c, ' ', Place::BeforeEquals),
        Place::BeforeEquals => only(c, '=', Place::AfterEquals),
        Place::AfterEquals => only(c, ' ', Place::BeforeValue),
        Place::BeforeValue => only(c, '"', Place::ValueString),
        Place::ValueString => in_string(
            c,
            Place::ValueString,
            Place::ValueEscape,
            Place::ValueEnded,
        ),
        Place::ValueEscape => escaped(c, Place::ValueString),
        Place::ValueEnded => only(c, '\n', Place::LineStart),
        Place::Astray => Place::Astray,
    }
}

/// Where the reading stands behind the whole of `text`.
pub open spec fn reading(text: Seq<char>) -> Place
    decreases text.len(),
{
    if text.len() == 0 {
        Place::LineStart
    } else {
        moved(reading(text.drop_last()), text.last())
    }
}

/// Whether a text may end at a place: at the beginning of a line, behind a
/// header and behind a value.
pub open spec fn may_end(place: Place) -> bool {
    place == Place::LineStart || place == Place::HeaderEnded || place == Place::ValueEnded
}

/// Whether a text is plain: see the head of this file.
pub open spec fn plain_cache(text: Seq<char>) -> bool {
    may_end(reading(text))
}

fn bare(c: char) -> (r: bool)
    ensures
        r == is_bare(c),
{
    let n: u32 = c as u32;
    (0x30 <= n && n <= 0x39) || (0x41 <= n && n <= 0x5a) || (0x61 <= n && n <= 0x7a) || c == '-'
        || c == '_'
}

fn string_step(c: char, inside: Place, escape: Place, behind: Place) -> (r: Place)
    ensures
        r == in_string(c, inside, escape, behind),
{
    if c == '"' {
        behind
    } else if c == '\\' {
        escape
    } else if c == '\n' {
        Place::Astray
    } else {
        inside
    }
}

fn escape_step(c: char, inside: Place) -> (r: Place)
    ensures
        r == escaped(c, inside),
{
    if c == '\n' {
        Place::Astray
    } else {
        inside
    }
}

fn only_step(c: char, wanted: char, then: Place) -> (r: Place)
    ensures
        r == only(c, wanted, then),
{
    if c == wanted {
        then
    } else {
        Place::Astray
    }
}

/// Where the reading stands behind one more character.
pub fn move_on(place: Place, c: char) -> (r: Place)
    ensures
        r == moved(place, c),
{
    match place {
        Place::LineStart => {
            if c == '\n' {
                Place::LineStart
            } else if c == '[' {
                Place::HeaderBegun
            } else if c == '"' {
                Place::KeyString
            } else if bare(c) {
                Place::KeyBare
            } else {
                Place::Astray
            }
        },
        Place::HeaderBegun => {
            if c == '"' {
                Place::HeaderString
            } else if bare(c) {
                Place::HeaderBare
            } else {
                Place::Astray
            }
        },
        Place::HeaderBare => {
            if c == ']' {
                Place::HeaderEnded
            } else if bare(c) {
                Place::HeaderBare
            } else {
                Place::Astray
            }
        },
        Place::HeaderString => string_step(
            c,
            Place::HeaderString,
            Place::HeaderEscape,
            Place::HeaderKeyed,
        ),
        Place::HeaderEscape => escape_step(c, Place::HeaderString),
        Place::HeaderKeyed => only_step(c, ']', Place::HeaderEnded),
        Place::HeaderEnded => only_step(c, '\n', Place::LineStart),
        Place::KeyBare => {
            if c == ' ' {
                Place::BeforeEquals
            } else if bare(c) {
                Place::KeyBare
            } else {
                Place::Astray
            }
        },
        Place::KeyString => string_step(c, Place::KeyString, Place::KeyEscape, Place::Keyed),
        Place::KeyEscape => escape_step(c, Place::KeyString),
        Place::Keyed => only_step(c, ' ', Place::BeforeEquals),
        Place::BeforeEquals => only_step(c, '=', Place::AfterEquals),
        Place::AfterEquals => only_step(c, ' ', Place::BeforeValue),
        Place::BeforeValue => only_step(c, '"', Place::ValueString),
        Place::ValueString => string_step(
            c,
            Place::ValueString,
            Place::ValueEscape,
            Place::ValueEnded,
        ),
        Place::ValueEscape => escape_step(c, Place::ValueString),
        Place::ValueEnded => only_step(c, '\n', Place::LineStart),
        Place::Astray => Place::Astray,
    }
}

/// Whether a text is plain.
pub fn is_plain_cache(text: &str) -> (r: bool)
    ensures
        r == plain_cache(text@),
{
    let mut place = Place::LineStart;
    let ghost mut read: Seq<char> = Seq::empty();
    for c in it: text.chars()
        invariant
            read == it.seq().take(it.index() as int),
            place == reading(read),
    {
        proof {
            assert(read.push(c).drop_last() == read);
            assert(read.push(c) == it.seq().take(it.index() + 1));
            read = read.push(c);
        }
        place = move_on(place, c);
    }
    assert(read == text@);
    match place {
        Place::LineStart | Place::HeaderEnded | Place::ValueEnded => true,
        _ => false,
    }
}

} // verus!
