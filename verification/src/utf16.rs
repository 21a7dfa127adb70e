//! UTF-16, the encoding in which the provider takes a server name.

use vstd::prelude::*;

verus! {

/// The first code point that UTF-16 encodes as a pair of units.
pub const SUPPLEMENTARY_START: u32 = 0x1_0000;

/// The UTF-16 units of one character: the code point itself where it fits in
/// one unit, and otherwise a high and a low surrogate that carry the upper
/// and the lower ten bits of its offset into the supplementary planes.
pub open spec fn utf16_of_char(c: char) -> Seq<u16> {
    let code = c as u32;
    if code < SUPPLEMENTARY_START {
        seq![code as u16]
    } else {
        seq![
            (0xD800 + (code - SUPPLEMENTARY_START) / 0x400) as u16,
            (0xDC00 + (code - SUPPLEMENTARY_START) % 0x400) as u16,
        ]
    }
}

/// The UTF-16 encoding of a text: the units of its characters, in order.
pub open spec fn utf16(text: Seq<char>) -> Seq<u16>
    decreases text.len(),
{
    if text.len() == 0 {
        Seq::empty()
    } else {
        utf16(text.drop_last()) + utf16_of_char(text.last())
    }
}

/// A server name as the provider takes it: the UTF-16 encoding of `domain`
/// with a closing zero unit.
pub open spec fn server_name(domain: Seq<char>) -> Seq<u16> {
    utf16(domain).push(0u16)
}

/// The units of a character tell the character: one unit that is no low
/// surrogate and is the code point itself, or a high surrogate followed by a
/// low one, which carry the upper and the lower ten bits of the code
/// point's offset into the supplementary planes.
pub proof fn lemma_utf16_of_char(c: char)
    ensures
        ({
            let units = utf16_of_char(c);
            ||| {
                &&& units.len() == 1
                &&& !(0xDC00 <= units[0] <= 0xDFFF)
                &&& c as int == units[0]
            }
            ||| {
                &&& units.len() == 2
                &&& 0xD800 <= units[0] <= 0xDBFF
                &&& 0xDC00 <= units[1] <= 0xDFFF
                &&& c as int == SUPPLEMENTARY_START + (units[0] - 0xD800) * 0x400 + (units[1]
                    - 0xDC00)
            }
        }),
{
}

/// The encoding of a text that is not empty is the encoding of all but its
/// last character followed by the units of the last.
pub proof fn lemma_utf16_last(text: Seq<char>)
    requires
        text.len() > 0,
    ensures
        ({
            let units = utf16(text);
            let last = utf16_of_char(text.last());
            &&& units == utf16(text.drop_last()) + last
            &&& units.len() >= last.len()
            &&& units.len() > 0
            &&& units.subrange(units.len() - last.len(), units.len() as int) == last
            &&& units.take(units.len() - last.len()) == utf16(text.drop_last())
            &&& units.last() == last.last()
        }),
{
    let units = utf16(text);
    let last = utf16_of_char(text.last());
    lemma_utf16_of_char(text.last());
    assert(units.subrange(units.len() - last.len(), units.len() as int) =~= last);
    assert(units.take(units.len() - last.len()) =~= utf16(text.drop_last()));
}

/// No two texts have the same UTF-16 encoding.
pub proof fn lemma_utf16_injective(a: Seq<char>, b: Seq<char>)
    requires
        utf16(a) == utf16(b),
    ensures
        a == b,
    decreases a.len(),
{
    if a.len() == 0 {
        if b.len() > 0 {
            lemma_utf16_last(b);
        }
        assert(a =~= b);
    } else {
        lemma_utf16_last(a);
        if b.len() == 0 {
            assert(false);
        } else {
            lemma_utf16_last(b);
            lemma_utf16_of_char(a.last());
            lemma_utf16_of_char(b.last());
            // The last unit tells how many units the last character has, and
            // those units tell the character.
            assert(utf16_of_char(a.last()) == utf16_of_char(b.last()));
            assert(a.last() as int == b.last() as int);
            lemma_utf16_injective(a.drop_last(), b.drop_last());
            assert(a =~= a.drop_last().push(a.last()));
            assert(b =~= b.drop_last().push(b.last()));
        }
    }
}

/// A server name tells the domain that it was made from.
pub proof fn lemma_server_name_injective(a: Seq<char>, b: Seq<char>)
    requires
        server_name(a) == server_name(b),
    ensures
        a == b,
{
    assert(utf16(a) =~= server_name(a).drop_last());
    assert(utf16(b) =~= server_name(b).drop_last());
    lemma_utf16_injective(a, b);
}

/// Appends the UTF-16 units of `c` to `units`.
pub fn push_utf16(units: &mut Vec<u16>, c: char)
    ensures
        final(units)@ == old(units)@ + utf16_of_char(c),
{
    let code = c as u32;
    if code < SUPPLEMENTARY_START {
        units.push(code as u16);
    } else {
        let offset = code - SUPPLEMENTARY_START;
        units.push((0xD800 + offset / 0x400) as u16);
        units.push((0xDC00 + offset % 0x400) as u16);
    }
    assert(units@ =~= old(units)@ + utf16_of_char(c));
}

/// Encodes `domain` as a server name for the provider.
pub fn encode_server_name(domain: &str) -> (name: Vec<u16>)
    ensures
        name@ == server_name(domain@),
{
    broadcast use vstd::string::group_string_axioms;

    let mut name: Vec<u16> = Vec::new();
    for c in it: domain.chars()
        invariant
            it.seq() == domain@,
            name@ == utf16(domain@.take(it.index() as int)),
    {
        push_utf16(&mut name, c);
        proof {
            let next = domain@.take(it.index() + 1);
            assert(next.drop_last() =~= domain@.take(it.index() as int));
            assert(next.last() == c);
        }
    }
    assert(domain@.take(domain@.len() as int) =~= domain@);
    name.push(0);
    name
}

} // verus!
