//! The text by which an error is shown.

use crate::error::Error;
use crate::utf16::{lemma_utf16_injective, utf16};
use vstd::prelude::*;
use vstd::string::{StrSliceExecFns, StringExecFns};

verus! {

/// The digits of hexadecimal notation, by value.
pub const HEX_DIGITS: &'static str = "0123456789abcdef";

/// What every description of an error without a message begins with.
pub const UNKNOWN_ERROR: &'static str = "unknown error 0x";

/// White space as Unicode defines it.
pub open spec fn is_white_space(c: char) -> bool {
    let code = c as u32;
    ||| 0x09 <= code <= 0x0D
    ||| code == 0x20
    ||| code == 0x85
    ||| code == 0xA0
    ||| code == 0x1680
    ||| 0x2000 <= code <= 0x200A
    ||| code == 0x2028
    ||| code == 0x2029
    ||| code == 0x202F
    ||| code == 0x205F
    ||| code == 0x3000
}

/// Computes [`is_white_space`].
pub fn white_space(c: char) -> (white: bool)
    ensures
        white == is_white_space(c),
{
    let code = c as u32;
    (0x09 <= code && code <= 0x0D) || code == 0x20 || code == 0x85 || code == 0xA0 || code
        == 0x1680 || (0x2000 <= code && code <= 0x200A) || code == 0x2028 || code == 0x2029
        || code == 0x202F || code == 0x205F || code == 0x3000
}

/// How many characters of white space `text` begins with.
pub open spec fn leading_white(text: Seq<char>) -> nat
    decreases text.len(),
{
    if text.len() > 0 && is_white_space(text.first()) {
        1 + leading_white(text.drop_first())
    } else {
        0
    }
}

/// How many characters of white space `text` ends with.
pub open spec fn trailing_white(text: Seq<char>) -> nat
    decreases text.len(),
{
    if text.len() > 0 && is_white_space(text.last()) {
        1 + trailing_white(text.drop_last())
    } else {
        0
    }
}

/// `text` without the white space that it begins and ends with.
pub open spec fn trimmed(text: Seq<char>) -> Seq<char> {
    let start = leading_white(text);
    let rest = text.skip(start as int);
    rest.take(rest.len() - trailing_white(rest))
}

/// Where the first `start` characters of `text` are white space and the
/// next one is not, or there is none, `text` begins with exactly `start`
/// characters of white space.
proof fn lemma_leading_white(text: Seq<char>, start: nat)
    requires
        start <= text.len(),
        forall|i: int| 0 <= i < start ==> is_white_space(#[trigger] text[i]),
        start < text.len() ==> !is_white_space(text[start as int]),
    ensures
        leading_white(text) == start,
    decreases start,
{
    if start > 0 {
        let rest = text.drop_first();
        assert forall|i: int| 0 <= i < start - 1 implies is_white_space(#[trigger] rest[i]) by {
            assert(rest[i] == text[i + 1]);
        }
        lemma_leading_white(rest, (start - 1) as nat);
    }
}

/// Where the last `count` characters of `text` are white space and the one
/// before them is not, or there is none, `text` ends with exactly `count`
/// characters of white space.
proof fn lemma_trailing_white(text: Seq<char>, count: nat)
    requires
        count <= text.len(),
        forall|i: int| text.len() - count <= i < text.len() ==> is_white_space(#[trigger] text[i]),
        count < text.len() ==> !is_white_space(text[text.len() - count - 1]),
    ensures
        trailing_white(text) == count,
    decreases count,
{
    if count > 0 {
        let rest = text.drop_last();
        assert forall|i: int| rest.len() - (count - 1) <= i < rest.len() implies is_white_space(
            #[trigger] rest[i],
        ) by {
            assert(rest[i] == text[i]);
        }
        lemma_trailing_white(rest, (count - 1) as nat);
    }
}

/// Removes the white space that `text` begins and ends with.
pub fn trim(text: &str) -> (middle: &str)
    ensures
        middle@ == trimmed(text@),
{
    broadcast use vstd::string::group_string_axioms;

    let len = text.unicode_len();
    // Where the first and behind the last character that is no white space
    // stand, once one was met.
    let mut start: usize = len;
    let mut end: usize = len;
    let mut met = false;
    let mut index: usize = 0;
    for c in it: text.chars()
        invariant
            it.seq() == text@,
            len == text@.len(),
            index == it.index(),
            !met ==> start == len && end == len,
            !met ==> forall|i: int| 0 <= i < index ==> is_white_space(#[trigger] text@[i]),
            met ==> start < end <= index,
            met ==> forall|i: int| 0 <= i < start ==> is_white_space(#[trigger] text@[i]),
            met ==> !is_white_space(text@[start as int]),
            met ==> !is_white_space(text@[end - 1]),
            met ==> forall|i: int| end <= i < index ==> is_white_space(#[trigger] text@[i]),
    {
        if !white_space(c) {
            if !met {
                start = index;
                met = true;
            }
            end = index + 1;
        }
        index = index + 1;
    }
    proof {
        lemma_leading_white(text@, start as nat);
        let rest = text@.skip(start as int);
        assert forall|i: int| rest.len() - (len - end) <= i < rest.len() implies is_white_space(
            #[trigger] rest[i],
        ) by {
            assert(rest[i] == text@[i + start]);
        }
        lemma_trailing_white(rest, (len - end) as nat);
        assert(rest.take(rest.len() - (len - end)) =~= text@.subrange(start as int, end as int));
    }
    text.substring_char(start, end)
}

/// The hexadecimal notation of `n`, without leading zeros.
pub open spec fn hex(n: nat) -> Seq<char>
    decreases n,
{
    if n < 16 {
        seq![HEX_DIGITS@[n as int]]
    } else {
        hex(n / 16).push(HEX_DIGITS@[(n % 16) as int])
    }
}

/// The 32 bits of a status code, read as a number without sign.
pub open spec fn unsigned(code: i32) -> nat {
    if code < 0 {
        (code + 0x1_0000_0000) as nat
    } else {
        code as nat
    }
}

/// Appends the hexadecimal notation of `n` to `text`.
fn push_hex(text: &mut String, n: u64)
    ensures
        final(text)@ == old(text)@ + hex(n as nat),
    decreases n,
{
    proof {
        reveal_strlit("0123456789abcdef");
        assert(HEX_DIGITS@.len() == 16);
        assert(HEX_DIGITS.is_ascii());
    }
    if n >= 16 {
        push_hex(text, n / 16);
    }
    let digit = (n % 16) as usize;
    text.append(HEX_DIGITS.substring_ascii(digit, digit + 1));
    proof {
        assert(HEX_DIGITS@.subrange(digit as int, digit + 1) =~= seq![HEX_DIGITS@[digit as int]]);
        if n >= 16 {
            assert(old(text)@ + hex((n / 16) as nat) + seq![HEX_DIGITS@[digit as int]] =~= old(
                text,
            )@ + hex(n as nat));
        } else {
            assert(hex(n as nat) =~= seq![HEX_DIGITS@[digit as int]]);
        }
    }
}

/// The text that `units` encode in UTF-16, if they encode one.
pub open spec fn utf16_text(units: Seq<u16>) -> Option<Seq<char>> {
    if exists|text: Seq<char>| utf16(text) == units {
        Some(choose|text: Seq<char>| utf16(text) == units)
    } else {
        None
    }
}

/// Decodes `units` as UTF-16.
///
/// This is `String::from_utf16` of the standard library, whose contract is
/// taken on trust: it returns the text that `units` are the UTF-16 encoding
/// of, and fails exactly where they are the encoding of no text.
#[verifier::external_body]
fn decode_utf16(units: &[u16]) -> (text: Option<String>)
    ensures
        match text {
            Some(decoded) => utf16(decoded@) == units@,
            None => forall|any: Seq<char>| #[trigger] utf16(any) != units@,
        },
{
    match String::from_utf16(units) {
        Ok(decoded) => Some(decoded),
        Err(_) => None,
    }
}

impl Error {
    /// The message that the platform has for an error, from the UTF-16 units
    /// that it formatted for the code: none where it formatted nothing, and
    /// none where what it formatted is no text.
    pub open spec fn message_of(formatted: Seq<u16>) -> Option<Seq<char>> {
        if formatted.len() == 0 {
            None
        } else {
            utf16_text(formatted)
        }
    }

    /// Computes [`Error::message_of`].
    pub fn message(formatted: &[u16]) -> (message: Option<String>)
        ensures
            Self::message_of(formatted@) == match message {
                Some(text) => Some(text@),
                None => None,
            },
    {
        if formatted.len() == 0 {
            return None;
        }
        let message = decode_utf16(formatted);
        proof {
            if message is Some {
                lemma_utf16_injective(utf16_text(formatted@)->Some_0, message->Some_0@);
            }
        }
        message
    }

    /// How the error is shown: by the message that the platform has for its
    /// code, without the white space around it, and where it has none, as an
    /// unknown error with the 32 bits of its code in hexadecimal notation.
    pub open spec fn displayed(self, message: Option<Seq<char>>) -> Seq<char> {
        match message {
            Some(text) => trimmed(text),
            None => UNKNOWN_ERROR@ + hex(unsigned(self.0)),
        }
    }

    /// Computes [`Error::displayed`].
    pub fn display(&self, message: Option<&str>) -> (text: String)
        ensures
            text@ == self.displayed(
                match message {
                    Some(m) => Some(m@),
                    None => None,
                },
            ),
    {
        match message {
            Some(m) => String::from_str(trim(m)),
            None => {
                let wide: i64 = self.0 as i64;
                let bits: u64 = if wide < 0 {
                    (wide + 0x1_0000_0000) as u64
                } else {
                    wide as u64
                };
                let mut text = String::from_str(UNKNOWN_ERROR);
                push_hex(&mut text, bits);
                text
            },
        }
    }
}

} // verus!
