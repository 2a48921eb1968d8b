use vstd::prelude::*;

use crate::tables::{is_high_surrogate, is_low_surrogate, is_scalar_value, is_surrogate};

verus! {

/// The scalar value denoted by a valid surrogate pair.
pub open spec fn combine_scalar(high: u32, low: u32) -> u32 {
    (0x10000 + (high - 0xD800) * 0x400 + (low - 0xDC00)) as u32
}

/// The UTF-16 code units of one scalar value: inside the Basic Multilingual
/// Plane the value itself, paired with the absent sentinel 0; beyond it the
/// leading surrogate paired with the trailing surrogate.
pub open spec fn split_scalar(u: u32) -> (u16, u16) {
    if u < 0x10000 {
        (u as u16, 0)
    } else {
        ((0xD800 + (u - 0x10000) / 0x400) as u16, (0xDC00 + (u - 0x10000) % 0x400) as u16)
    }
}

/// Tests whether a code unit is a UTF-16 high (leading) surrogate; callers
/// establish the precondition of `combine` with this and its counterpart.
pub fn unit_is_high_surrogate(u: u16) -> (r: bool)
    ensures
        r == is_high_surrogate(u as u32),
{
    0xD800 <= u && u <= 0xDBFF
}

/// Tests whether a code unit is a UTF-16 low (trailing) surrogate.
pub fn unit_is_low_surrogate(u: u16) -> (r: bool)
    ensures
        r == is_low_surrogate(u as u32),
{
    0xDC00 <= u && u <= 0xDFFF
}

/// Reconstructs the scalar value of a surrogate pair. The caller must have
/// established with the surrogate predicates that the pair is valid.
pub fn combine(high: u16, low: u16) -> (r: u32)
    requires
        is_high_surrogate(high as u32),
        is_low_surrogate(low as u32),
    ensures
        r == combine_scalar(high as u32, low as u32),
        0x10000 <= r < 0x110000,
{
    0x10000 + (high as u32 - 0xD800) * 0x400 + (low as u32 - 0xDC00)
}

/// Splits a scalar value into UTF-16 code units: a value inside the Basic
/// Multilingual Plane is returned with the absent sentinel 0, a value beyond
/// it as its surrogate pair.
pub fn split(scalar: u32) -> (r: (u16, u16))
    requires
        is_scalar_value(scalar),
    ensures
        r == split_scalar(scalar),
{
    if scalar < 0x10000 {
        (scalar as u16, 0)
    } else {
        let off = scalar - 0x10000;
        (0xD800 + (off / 0x400) as u16, 0xDC00 + (off % 0x400) as u16)
    }
}

/// Splitting a scalar value beyond the Basic Multilingual Plane yields a
/// valid surrogate pair, and combining that pair restores the value.
pub proof fn lemma_split_combine(u: u32)
    requires
        is_scalar_value(u),
        0x10000 <= u,
    ensures
        is_high_surrogate(split_scalar(u).0 as u32),
        is_low_surrogate(split_scalar(u).1 as u32),
        combine_scalar(split_scalar(u).0 as u32, split_scalar(u).1 as u32) == u,
{
    let off = u - 0x10000;
    assert(off / 0x400 <= 0x3FF) by (nonlinear_arith)
        requires
            0 <= off <= 0xFFFFF,
    ;
    assert(off % 0x400 <= 0x3FF);
    assert((off / 0x400) * 0x400 + off % 0x400 == off) by (nonlinear_arith);
}

/// The UTF-16 encoding of one character.
pub open spec fn encode_scalar(c: char) -> Seq<u16> {
    if (c as u32) < 0x10000 {
        seq![c as u16]
    } else {
        seq![split_scalar(c as u32).0, split_scalar(c as u32).1]
    }
}

/// The UTF-16 encoding of a character sequence, in order.
pub open spec fn utf16_encode(s: Seq<char>) -> Seq<u16>
    decreases s.len(),
{
    if s.len() == 0 {
        Seq::empty()
    } else {
        encode_scalar(s[0]) + utf16_encode(s.skip(1))
    }
}

/// The characters read back from a UTF-16 code unit sequence: a leading
/// surrogate followed by a trailing surrogate denotes one scalar value
/// beyond the Basic Multilingual Plane, any unpaired surrogate becomes the
/// replacement character U+FFFD, and every other unit is its own scalar.
pub open spec fn utf16_decode(s: Seq<u16>) -> Seq<char>
    decreases s.len(),
{
    if s.len() == 0 {
        Seq::empty()
    } else if is_high_surrogate(s[0] as u32) && s.len() >= 2 && is_low_surrogate(s[1] as u32) {
        seq![combine_scalar(s[0] as u32, s[1] as u32) as char] + utf16_decode(s.skip(2))
    } else if is_surrogate(s[0] as u32) {
        seq!['\u{FFFD}'] + utf16_decode(s.skip(1))
    } else {
        seq![s[0] as char] + utf16_decode(s.skip(1))
    }
}


/// A character value within Unicode's allowed range; every character read
/// from a real string satisfies this.
pub open spec fn valid_char(c: char) -> bool {
    0 <= c as int && (c as int) < 0x110000 && !(0xD800 <= c as int && (c as int) <= 0xDFFF)
}

/// Law: decoding the UTF-16 encoding of any character sequence restores it
/// exactly: encoding emits no unpaired surrogate, and each surrogate pair
/// decodes back to the scalar value it was split from.
pub proof fn lemma_encode_decode_round_trip(s: Seq<char>)
    requires
        forall|i: int| 0 <= i < s.len() ==> #[trigger] valid_char(s[i]),
    ensures
        utf16_decode(utf16_encode(s)) == s,
    decreases s.len(),
{
    if s.len() == 0 {
        assert(utf16_encode(s) =~= Seq::<u16>::empty());
        assert(utf16_decode(Seq::<u16>::empty()) =~= s);
    } else {
        let c = s[0];
        let e = utf16_encode(s);
        let rest = utf16_encode(s.skip(1));
        assert forall|i: int| 0 <= i < s.skip(1).len() implies #[trigger] valid_char(
            s.skip(1)[i],
        ) by {
            assert(s.skip(1)[i] == s[i + 1]);
        };
        lemma_encode_decode_round_trip(s.skip(1));
        assert(valid_char(c));
        assert(c as u32 == c as int);
        assert(is_scalar_value(c as u32));
        if (c as u32) < 0x10000 {
            assert(e == seq![c as u16] + rest);
            assert(e[0] == c as u16);
            assert(!is_surrogate(e[0] as u32));
            assert(e.skip(1) =~= rest);
            assert(utf16_decode(e) == seq![e[0] as char] + utf16_decode(rest));
            assert(e[0] as char == c);
        } else {
            lemma_split_combine(c as u32);
            let p = split_scalar(c as u32);
            assert(e == seq![p.0, p.1] + rest);
            assert(e[0] == p.0 && e[1] == p.1);
            assert(e.skip(2) =~= rest);
            assert(utf16_decode(e) == seq![combine_scalar(e[0] as u32, e[1] as u32) as char]
                + utf16_decode(rest));
            assert(combine_scalar(e[0] as u32, e[1] as u32) as char == c);
        }
        assert(seq![c] + s.skip(1) =~= s);
        assert(utf16_decode(e) =~= s);
    }
}

/// Relies on str::encode_utf16: it yields the string's UTF-16 code units in
/// order, one unit per scalar value in the Basic Multilingual Plane and a
/// surrogate pair for each scalar value beyond it.
#[verifier::external_body]
pub(crate) fn encode_utf16_units(s: &str) -> (r: Vec<u16>)
    ensures
        r@ == utf16_encode(s@),
{
    s.encode_utf16().collect()
}

/// Relies on String::from_utf16_lossy: it decodes UTF-16, pairing each
/// leading surrogate with a directly following trailing surrogate and
/// replacing every unpaired surrogate with the replacement character U+FFFD.
#[verifier::external_body]
pub(crate) fn utf16_units_to_string(v: &Vec<u16>) -> (r: String)
    ensures
        r@ == utf16_decode(v@),
{
    String::from_utf16_lossy(v.as_slice())
}

} // verus!
