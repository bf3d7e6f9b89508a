//! UTF-16 encoding of text, with an exact specification.
//!
//! The notification record's tooltip buffer holds UTF-16 code units, so the
//! builder must encode Rust text before storing it. The encoding of a
//! character is fully determined by its Unicode scalar value: one code unit
//! below `0x10000`, a surrogate pair at and above it.

use vstd::prelude::*;
use vstd::utf8::char_is_scalar;

verus! {

/// The UTF-16 code units that encode one character: the scalar value itself
/// for characters below `0x10000`, otherwise a high/low surrogate pair over
/// the scalar value's offset from `0x10000`.
pub open spec fn utf16_units(c: char) -> Seq<u16> {
    let u = c as u32;
    if u < 0x10000 {
        seq![u as u16]
    } else {
        seq![
            (0xD800 + (u - 0x10000) / 0x400) as u16,
            (0xDC00 + (u - 0x10000) % 0x400) as u16,
        ]
    }
}

/// The UTF-16 encoding of a character sequence: the concatenation of each
/// character's code units, in order, with no terminator.
pub open spec fn utf16_encode(s: Seq<char>) -> Seq<u16>
    decreases s.len(),
{
    if s.len() == 0 {
        Seq::empty()
    } else {
        utf16_units(s[0]) + utf16_encode(s.drop_first())
    }
}

/// Appending one character to the text appends exactly that character's code
/// units to the encoding.
pub proof fn lemma_utf16_encode_push(s: Seq<char>, c: char)
    ensures
        utf16_encode(s.push(c)) == utf16_encode(s) + utf16_units(c),
    decreases s.len(),
{
    if s.len() == 0 {
        assert(s.push(c).drop_first() =~= Seq::<char>::empty());
        assert(s.push(c)[0] == c);
        assert(s.push(c).len() == 1);
        assert(utf16_encode(s.push(c))
            == utf16_units(c) + utf16_encode(Seq::<char>::empty()));
        assert(utf16_encode(Seq::<char>::empty()) == Seq::<u16>::empty());
        assert(utf16_encode(s) == Seq::<u16>::empty());
        assert(utf16_encode(s.push(c)) =~= utf16_encode(s) + utf16_units(c));
    } else {
        lemma_utf16_encode_push(s.drop_first(), c);
        assert(s.push(c).drop_first() =~= s.drop_first().push(c));
        assert(utf16_encode(s.push(c)) =~= utf16_encode(s) + utf16_units(c));
    }
}

/// Encodes `s` as UTF-16 code units, without a terminator.
pub fn encode_utf16_units(s: &str) -> (r: Vec<u16>)
    ensures
        r@ == utf16_encode(s@),
{
    let mut r: Vec<u16> = Vec::new();
    for c in it: s.chars()
        invariant
            it.seq() == s@,
            r@ == utf16_encode(it.seq().take(it.index() as int)),
    {
        proof {
            char_is_scalar(c);
        }
        let u = c as u32;
        if u < 0x10000 {
            r.push(u as u16);
        } else {
            let v = u - 0x10000;
            r.push(0xD800 + (v / 0x400) as u16);
            r.push(0xDC00 + (v % 0x400) as u16);
        }
        proof {
            let done: int = it.index() as int;
            assert(it.seq().take(done + 1) =~= it.seq().take(done).push(it.seq()[done]));
            lemma_utf16_encode_push(it.seq().take(done), c);
        }
    }
    proof {
        assert(s@.take(s@.len() as int) =~= s@);
    }
    r
}

} // verus!
