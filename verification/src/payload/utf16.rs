//! UTF-16, the encoding of the paths in a Win32 file list.

use vstd::prelude::*;
use vstd::utf8::is_scalar;
use crate::text::{chars_of, string_of};

verus! {

/// The UTF-16 code units of one character: the scalar value itself below
/// `0x10000`, a high and a low surrogate above.
pub open spec fn encode_char(c: char) -> Seq<u16> {
    let v = c as u32;
    if v < 0x10000 {
        seq![v as u16]
    } else {
        seq![(0xD800 + (v - 0x10000) / 0x400) as u16, (0xDC00 + (v - 0x10000) % 0x400) as u16]
    }
}

/// The UTF-16 encoding of a string.
pub open spec fn encode_utf16(s: Seq<char>) -> Seq<u16>
    decreases s.len(),
{
    if s.len() == 0 {
        Seq::empty()
    } else {
        encode_char(s[0]) + encode_utf16(s.drop_first())
    }
}

pub open spec fn is_high_surrogate(u: u16) -> bool {
    0xD800 <= u < 0xDC00
}

pub open spec fn is_low_surrogate(u: u16) -> bool {
    0xDC00 <= u < 0xE000
}

/// The scalar value that a surrogate pair stands for.
pub open spec fn pair_value(high: u16, low: u16) -> u32 {
    (0x10000 + (high - 0xD800) * 0x400 + (low - 0xDC00)) as u32
}

/// The string that `units` encode, or `None` where a surrogate stands
/// without its partner.
pub open spec fn decode_utf16(units: Seq<u16>) -> Option<Seq<char>>
    decreases units.len(),
{
    if units.len() == 0 {
        Some(Seq::empty())
    } else if !is_high_surrogate(units[0]) && !is_low_surrogate(units[0]) {
        match decode_utf16(units.skip(1)) {
            Some(rest) => Some(seq![units[0] as u32 as char] + rest),
            None => None,
        }
    } else if is_high_surrogate(units[0]) && units.len() >= 2 && is_low_surrogate(units[1]) {
        match decode_utf16(units.skip(2)) {
            Some(rest) => Some(seq![pair_value(units[0], units[1]) as char] + rest),
            None => None,
        }
    } else {
        None
    }
}

/// The code units of a character are one unit that is no surrogate, or a
/// high surrogate followed by a low one; and they decode to the character.
pub proof fn lemma_encode_char(c: char)
    ensures
        encode_char(c).len() == 1 || encode_char(c).len() == 2,
        encode_char(c).len() == 1 ==> !is_high_surrogate(encode_char(c)[0]) && !is_low_surrogate(
            encode_char(c)[0],
        ) && encode_char(c)[0] as u32 as char == c,
        encode_char(c).len() == 2 ==> is_high_surrogate(encode_char(c)[0]) && is_low_surrogate(
            encode_char(c)[1],
        ) && pair_value(encode_char(c)[0], encode_char(c)[1]) as char == c,
        (exists|i: int| 0 <= i < encode_char(c).len() && encode_char(c)[i] == 0) <==> c as u32
            == 0,
{
    broadcast use vstd::utf8::char_is_scalar, vstd::utf8::char_u32_cast;

    let v = c as u32;
    assert(is_scalar(v));
    if v < 0x10000 {
        assert(encode_char(c)[0] as u32 == v);
    } else {
        let w = (v - 0x10000) as int;
        assert(0 <= w < 0x100000);
        assert(0 <= w / 0x400 < 0x400);
        assert(w == (w / 0x400) * 0x400 + w % 0x400);
        assert(pair_value(encode_char(c)[0], encode_char(c)[1]) == v);
    }
}

pub proof fn lemma_encode_utf16_concat(a: Seq<char>, b: Seq<char>)
    ensures
        encode_utf16(a + b) == encode_utf16(a) + encode_utf16(b),
    decreases a.len(),
{
    if a.len() == 0 {
        assert(a + b =~= b);
        assert(encode_utf16(a) + encode_utf16(b) =~= encode_utf16(b));
    } else {
        assert((a + b).drop_first() =~= a.drop_first() + b);
        lemma_encode_utf16_concat(a.drop_first(), b);
        assert(encode_char(a[0]) + (encode_utf16(a.drop_first()) + encode_utf16(b)) =~= (
        encode_char(a[0]) + encode_utf16(a.drop_first())) + encode_utf16(b));
    }
}

pub proof fn lemma_encode_utf16_push(s: Seq<char>, c: char)
    ensures
        encode_utf16(s.push(c)) == encode_utf16(s) + encode_char(c),
{
    assert(s.push(c) =~= s + seq![c]);
    lemma_encode_utf16_concat(s, seq![c]);
    assert(seq![c].drop_first() =~= Seq::<char>::empty());
    assert(encode_utf16(seq![c].drop_first()) =~= Seq::<u16>::empty());
    assert(seq![c][0] == c);
    assert(encode_utf16(seq![c]) =~= encode_char(c));
}

/// Decoding undoes encoding, for every string.
pub proof fn law_utf16_round_trip(s: Seq<char>)
    ensures
        decode_utf16(encode_utf16(s)) == Some(s),
    decreases s.len(),
{
    if s.len() > 0 {
        let head = encode_char(s[0]);
        let tail = encode_utf16(s.drop_first());
        lemma_encode_char(s[0]);
        law_utf16_round_trip(s.drop_first());
        let units = head + tail;
        if head.len() == 1 {
            assert(units.skip(1) =~= tail);
        } else {
            assert(units.skip(2) =~= tail);
        }
        assert(seq![s[0]] + s.drop_first() =~= s);
    }
}

/// The encoding of a string holds a zero unit exactly where the string
/// holds the NUL character.
pub proof fn lemma_encode_utf16_zero(s: Seq<char>)
    ensures
        encode_utf16(s).contains(0u16) <==> s.contains('\0'),
    decreases s.len(),
{
    let units = encode_utf16(s);
    if s.len() > 0 {
        let head = encode_char(s[0]);
        let tail = encode_utf16(s.drop_first());
        lemma_encode_char(s[0]);
        lemma_encode_utf16_zero(s.drop_first());
        if units.contains(0u16) {
            let i = choose|i: int| 0 <= i < units.len() && units[i] == 0u16;
            if i < head.len() {
                assert(head[i] == 0);
                assert(s[0] as u32 == 0);
                assert(s[0] == '\0');
            } else {
                assert(tail[i - head.len()] == 0u16);
                assert(tail.contains(0u16));
                let j = choose|j: int| 0 <= j < s.drop_first().len() && s.drop_first()[j] == '\0';
                assert(s[j + 1] == '\0');
            }
        }
        if s.contains('\0') {
            let j = choose|j: int| 0 <= j < s.len() && s[j] == '\0';
            if j == 0 {
                let i = choose|i: int| 0 <= i < head.len() && head[i] == 0;
                assert(units[i] == 0u16);
            } else {
                assert(s.drop_first()[j - 1] == '\0');
                assert(s.drop_first().contains('\0'));
                let i = choose|i: int| 0 <= i < tail.len() && tail[i] == 0u16;
                assert(units[head.len() + i] == 0u16);
            }
        }
    }
}

pub assume_specification[ char::from_u32 ](i: u32) -> (r: Option<char>)
    ensures
        is_scalar(i) ==> r == Some(i as char),
        !is_scalar(i) ==> r is None,
;

/// Appends the code units of `c` to `out`.
fn push_char(out: &mut Vec<u16>, c: char)
    ensures
        final(out)@ == old(out)@ + encode_char(c),
{
    broadcast use vstd::utf8::char_is_scalar;

    let v: u32 = c as u32;
    assert(is_scalar(v));
    if v < 0x10000 {
        out.push(v as u16);
        assert(out@ =~= old(out)@ + encode_char(c));
    } else {
        let w: u32 = v - 0x10000;
        out.push((0xD800 + w / 0x400) as u16);
        out.push((0xDC00 + w % 0x400) as u16);
        assert(out@ =~= old(out)@ + encode_char(c));
    }
}

/// Encodes a string as UTF-16.
pub fn encode_wide(s: &str) -> (r: Vec<u16>)
    ensures
        r@ == encode_utf16(s@),
{
    let chars = chars_of(s);
    let mut out: Vec<u16> = Vec::new();
    let mut i: usize = 0;
    while i < chars.len()
        invariant
            i <= chars.len(),
            out@ == encode_utf16(chars@.take(i as int)),
        decreases chars.len() - i,
    {
        proof {
            lemma_encode_utf16_push(chars@.take(i as int), chars@[i as int]);
            assert(chars@.take(i + 1) =~= chars@.take(i as int).push(chars@[i as int]));
        }
        push_char(&mut out, chars[i]);
        i += 1;
    }
    assert(chars@.take(i as int) =~= chars@);
    out
}

/// Decodes UTF-16 code units: the string they encode, or `None` where a
/// surrogate stands without its partner.
pub fn decode_wide(units: &[u16]) -> (r: Option<String>)
    ensures
        match r {
            Some(s) => decode_utf16(units@) == Some(s@),
            None => decode_utf16(units@) is None,
        },
{
    let mut chars: Vec<char> = Vec::new();
    let mut i: usize = 0;
    proof {
        assert(units@.skip(0) =~= units@);
        if let Some(rest) = decode_utf16(units@) {
            assert(chars@ + rest =~= rest);
        }
    }
    while i < units.len()
        invariant
            i <= units.len(),
            decode_utf16(units@) == (match decode_utf16(units@.skip(i as int)) {
                Some(rest) => Some(chars@ + rest),
                None => None,
            }),
        decreases units.len() - i,
    {
        let ghost rest_units = units@.skip(i as int);
        let u: u16 = units[i];
        assert(rest_units[0] == u);
        if u < 0xD800 || u >= 0xE000 {
            let c = char::from_u32(u as u32);
            assert(is_scalar(u as u32));
            assert(rest_units.skip(1) =~= units@.skip(i + 1));
            proof {
                if let Some(rest) = decode_utf16(units@.skip(i + 1)) {
                    assert(chars@ + (seq![u as u32 as char] + rest) =~= chars@.push(
                        u as u32 as char,
                    ) + rest);
                }
            }
            chars.push(c.unwrap());
            i += 1;
        } else if u < 0xDC00 && i + 1 < units.len() && 0xDC00 <= units[i + 1] && units[i + 1]
            < 0xE000 {
            let low: u16 = units[i + 1];
            assert(rest_units[1] == low);
            let v: u32 = 0x10000 + (u as u32 - 0xD800) * 0x400 + (low as u32 - 0xDC00);
            assert(v == pair_value(u, low));
            assert(is_scalar(v));
            let c = char::from_u32(v);
            assert(rest_units.skip(2) =~= units@.skip(i + 2));
            proof {
                if let Some(rest) = decode_utf16(units@.skip(i + 2)) {
                    assert(chars@ + (seq![v as char] + rest) =~= chars@.push(v as char) + rest);
                }
            }
            chars.push(c.unwrap());
            i += 2;
        } else {
            assert(decode_utf16(rest_units) is None);
            return None;
        }
    }
    assert(units@.skip(i as int) =~= Seq::<u16>::empty());
    assert(chars@ + Seq::<char>::empty() =~= chars@);
    Some(string_of(&chars))
}

} // verus!
