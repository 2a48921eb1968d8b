use vstd::prelude::*;

use crate::engine::{apply_all_spec, convert_spec, narrow_seq, unit_image, wide_seq, ConvertType};
use crate::tables::{
    has_fused, is_high_surrogate, is_low_surrogate, is_narrow_mapped, is_surrogate, is_wide_mapped, lemma_fused_of_narrow_voiced,
    lemma_narrow_of_fused, lemma_narrow_of_wide, lemma_surrogate_unit, lemma_tables_bmp,
    lemma_wide_of_narrow_simple, lemma_width_unmapped, narrow_units, wide_unit,
};
use crate::width::wide_step;

verus! {

// Script round trip ------------------------------------------------------------

/// A unit that neither kana mapping moves: everything outside the two kana
/// blocks, among them ASCII and the kana exception characters shared by both
/// scripts, such as the prolonged sound mark.
pub open spec fn kana_invariant_unit(u: u16) -> bool {
    !(0x3041 <= u && u <= 0x3096) && !(0x30A1 <= u && u <= 0x30F6)
}

/// Law: a unit outside both kana blocks is invariant under both kana
/// operations.
pub proof fn lemma_kana_exception_invariant(u: u16)
    requires
        kana_invariant_unit(u),
    ensures
        unit_image(u, ConvertType::Hiragana) == u,
        unit_image(u, ConvertType::Katakana) == u,
{
}

/// Law: converting to katakana and back to hiragana restores any text made
/// of hiragana and units that neither kana mapping moves.
pub proof fn lemma_script_round_trip_hiragana(s: Seq<u16>)
    requires
        forall|i: int|
            0 <= i < s.len() ==> (0x3041 <= #[trigger] s[i] && s[i] <= 0x3096) || kana_invariant_unit(s[i]),
    ensures
        convert_spec(convert_spec(s, ConvertType::Katakana), ConvertType::Hiragana) == s,
{
    let k = convert_spec(s, ConvertType::Katakana);
    assert forall|i: int| 0 <= i < s.len() implies unit_image(k[i], ConvertType::Hiragana) == s[i] by {
        assert(k[i] == unit_image(s[i], ConvertType::Katakana));
    };
    assert(convert_spec(k, ConvertType::Hiragana) =~= s);
}

/// Law: converting to hiragana and back to katakana restores any text made
/// of katakana and units that neither kana mapping moves.
pub proof fn lemma_script_round_trip_katakana(s: Seq<u16>)
    requires
        forall|i: int|
            0 <= i < s.len() ==> (0x30A1 <= #[trigger] s[i] && s[i] <= 0x30F6) || kana_invariant_unit(s[i]),
    ensures
        convert_spec(convert_spec(s, ConvertType::Hiragana), ConvertType::Katakana) == s,
{
    let h = convert_spec(s, ConvertType::Hiragana);
    assert forall|i: int| 0 <= i < s.len() implies unit_image(h[i], ConvertType::Katakana) == s[i] by {
        assert(h[i] == unit_image(s[i], ConvertType::Hiragana));
    };
    assert(convert_spec(h, ConvertType::Katakana) =~= s);
}

// Width round trip ---------------------------------------------------------------

/// Halfwidth-to-fullwidth decomposition distributes over concatenation: each
/// unit narrows independently.
pub proof fn lemma_narrow_seq_concat(a: Seq<u16>, b: Seq<u16>)
    ensures
        narrow_seq(a + b) == narrow_seq(a) + narrow_seq(b),
    decreases a.len(),
{
    if a.len() == 0 {
        assert(a + b =~= b);
        assert(narrow_seq(a) + narrow_seq(b) =~= narrow_seq(b));
    } else {
        assert((a + b)[0] == a[0]);
        assert((a + b).skip(1) =~= a.skip(1) + b);
        lemma_narrow_seq_concat(a.skip(1), b);
        assert(narrow_seq(a) + narrow_seq(b) =~= narrow_seq(a + b));
    }
}

/// Halfwidth decomposition of a single unit.
pub proof fn lemma_narrow_seq_single(x: u16)
    ensures
        narrow_seq(seq![x]) == (if narrow_units(x as u32).1 == 0 {
            seq![narrow_units(x as u32).0 as u16]
        } else {
            seq![narrow_units(x as u32).0 as u16, narrow_units(x as u32).1 as u16]
        }),
{
    let one = seq![x];
    assert(one.skip(1) =~= Seq::<u16>::empty());
    assert(narrow_seq(Seq::<u16>::empty()) =~= Seq::<u16>::empty());
    let head: Seq<u16> = if narrow_units(x as u32).1 == 0 {
        seq![narrow_units(x as u32).0 as u16]
    } else {
        seq![narrow_units(x as u32).0 as u16, narrow_units(x as u32).1 as u16]
    };
    assert(narrow_seq(one) == head + narrow_seq(one.skip(1)));
    assert(head + Seq::<u16>::empty() =~= head);
}

/// A unit safe for the halfwidth round trip: a mappable halfwidth form, or a
/// unit with no width table entry at all, which both width passes leave in
/// place.
pub open spec fn narrow_trip_unit(u: u16) -> bool {
    is_narrow_mapped(u as u32) || !is_wide_mapped(u as u32)
}

/// Law: converting to fullwidth and back to halfwidth restores any text whose
/// units are mappable halfwidth forms or have no width table entry; fusing a
/// base with its voicing mark and splitting the fused kana again cancel out.
pub proof fn lemma_width_round_trip_narrow(s: Seq<u16>)
    requires
        forall|i: int| 0 <= i < s.len() ==> #[trigger] narrow_trip_unit(s[i]),
    ensures
        convert_spec(convert_spec(s, ConvertType::Wide), ConvertType::Narrow) == s,
    decreases s.len(),
{
    if s.len() == 0 {
        assert(narrow_seq(wide_seq(s)) =~= s);
    } else {
        let c = s[0] as u32;
        let next: u32 = if s.len() >= 2 {
            s[1] as u32
        } else {
            0
        };
        assert(narrow_trip_unit(s[0]));
        lemma_tables_bmp(c, c, next);
        if has_fused(c, next) {
            let w = crate::tables::fused_wide(c, next);
            lemma_narrow_of_fused(c, next);
            let rest = s.skip(2);
            assert(wide_seq(s) == seq![w as u16] + wide_seq(rest));
            lemma_narrow_seq_concat(seq![w as u16], wide_seq(rest));
            lemma_narrow_seq_single(w as u16);
            assert(narrow_seq(seq![w as u16]) =~= seq![s[0], s[1]]);
            assert forall|i: int| 0 <= i < rest.len() implies #[trigger] narrow_trip_unit(rest[i]) by {
                assert(rest[i] == s[i + 2]);
            };
            lemma_width_round_trip_narrow(rest);
            assert(seq![s[0], s[1]] + rest =~= s);
        } else {
            let w = wide_unit(c);
            if is_narrow_mapped(c) {
                lemma_narrow_of_wide(c);
            } else {
                lemma_width_unmapped(c, c);
            }
            let rest = s.skip(1);
            assert(wide_seq(s) == seq![w as u16] + wide_seq(rest));
            lemma_narrow_seq_concat(seq![w as u16], wide_seq(rest));
            lemma_narrow_seq_single(w as u16);
            assert(narrow_seq(seq![w as u16]) =~= seq![s[0]]);
            assert forall|i: int| 0 <= i < rest.len() implies #[trigger] narrow_trip_unit(rest[i]) by {
                assert(rest[i] == s[i + 1]);
            };
            lemma_width_round_trip_narrow(rest);
            assert(seq![s[0]] + rest =~= s);
        }
    }
}

/// A unit safe for the fullwidth round trip: a mappable fullwidth form, or a
/// unit with no width table entry.
pub open spec fn wide_trip_unit(u: u16) -> bool {
    is_wide_mapped(u as u32) || !is_narrow_mapped(u as u32)
}

/// Adjacent units whose halfwidth decompositions do not fuse across their
/// boundary. The pair fails only when the first unit narrows to a single
/// base and the second to a voicing mark the width table fuses with it: a
/// plain kana followed by a lone combining mark, such as KA (U+30AB)
/// followed by U+3099, narrows to a base-and-mark pair that converting back
/// fuses into the single voiced kana.
pub open spec fn splits_cleanly(a: u16, b: u16) -> bool {
    narrow_units(a as u32).1 != 0 || !has_fused(narrow_units(a as u32).0, narrow_units(b as u32).0)
}

/// Law: converting to halfwidth and back to fullwidth restores any text whose
/// units are mappable fullwidth forms or have no width table entry, provided
/// no adjacent pair decomposes into a base followed by a mark that the width
/// table would fuse.
pub proof fn lemma_width_round_trip_wide(s: Seq<u16>)
    requires
        forall|i: int| 0 <= i < s.len() ==> #[trigger] wide_trip_unit(s[i]),
        forall|i: int| 0 <= i < s.len() - 1 ==> #[trigger] splits_cleanly(s[i], s[i + 1]),
    ensures
        convert_spec(convert_spec(s, ConvertType::Narrow), ConvertType::Wide) == s,
    decreases s.len(),
{
    if s.len() == 0 {
        assert(wide_seq(narrow_seq(s)) =~= s);
    } else {
        let w = s[0] as u32;
        assert(wide_trip_unit(s[0]));
        lemma_tables_bmp(w, 0, 0);
        let p = narrow_units(w);
        let tail = narrow_seq(s.skip(1));
        assert forall|i: int| 0 <= i < s.skip(1).len() implies #[trigger] wide_trip_unit(s.skip(1)[i]) by {
            assert(s.skip(1)[i] == s[i + 1]);
        };
        assert forall|i: int| 0 <= i < s.skip(1).len() - 1 implies #[trigger] splits_cleanly(
            s.skip(1)[i],
            s.skip(1)[i + 1],
        ) by {
            assert(s.skip(1)[i] == s[i + 1]);
            assert(s.skip(1)[i + 1] == s[i + 2]);
        };
        lemma_width_round_trip_wide(s.skip(1));
        if p.1 != 0 {
            lemma_fused_of_narrow_voiced(w);
            let head = seq![p.0 as u16, p.1 as u16];
            assert(narrow_seq(s) == head + tail);
            assert((head + tail)[0] == head[0]);
            assert((head + tail)[1] == head[1]);
            assert(has_fused((head + tail)[0] as u32, (head + tail)[1] as u32));
            assert((head + tail).skip(2) =~= tail);
            assert(wide_seq(head + tail) == seq![s[0]] + wide_seq(tail));
            assert(seq![s[0]] + s.skip(1) =~= s);
        } else {
            let head = seq![p.0 as u16];
            assert(narrow_seq(s) == head + tail);
            assert((head + tail)[0] == head[0]);
            assert((head + tail).skip(1) =~= tail);
            if s.len() >= 2 {
                // The lookahead is the first unit of the next decomposition,
                // and the adjacency condition rules the fusion out.
                let w1 = s[1] as u32;
                lemma_tables_bmp(w1, 0, 0);
                let pn = narrow_units(w1);
                assert(s.skip(1)[0] == s[1]);
                assert(tail == (if pn.1 == 0 {
                    seq![pn.0 as u16]
                } else {
                    seq![pn.0 as u16, pn.1 as u16]
                }) + narrow_seq(s.skip(1).skip(1)));
                assert(tail[0] == pn.0 as u16);
                assert(splits_cleanly(s[0], s[1]));
                assert((head + tail)[1] == tail[0]);
                assert(!has_fused((head + tail)[0] as u32, (head + tail)[1] as u32));
            } else {
                assert(s.skip(1) =~= Seq::<u16>::empty());
                assert((head + tail).len() == 1);
            }
            if is_wide_mapped(w) {
                lemma_wide_of_narrow_simple(w);
            } else {
                lemma_width_unmapped(w, w);
            }
            assert(wide_unit(p.0) == w);
            assert(wide_seq(head + tail) == seq![s[0]] + wide_seq(tail));
            assert(seq![s[0]] + s.skip(1) =~= s);
        }
    }
}

// Pass-through laws --------------------------------------------------------------

/// Law: a buffer of surrogate code units, among them the two-unit encodings
/// of scalar values beyond the Basic Multilingual Plane, passes through every
/// operation unchanged: no table maps a surrogate and no fusion consumes one.
pub proof fn lemma_surrogate_passthrough(s: Seq<u16>, t: ConvertType)
    requires
        forall|i: int| 0 <= i < s.len() ==> is_surrogate(#[trigger] s[i] as u32),
    ensures
        convert_spec(s, t) == s,
    decreases s.len(),
{
    match t {
        ConvertType::Wide => {
            if s.len() == 0 {
                assert(wide_seq(s) =~= s);
            } else {
                let next: u32 = if s.len() >= 2 {
                    s[1] as u32
                } else {
                    0
                };
                lemma_surrogate_unit(s[0] as u32, next);
                assert forall|i: int| 0 <= i < s.skip(1).len() implies is_surrogate(
                    #[trigger] s.skip(1)[i] as u32,
                ) by {
                    assert(s.skip(1)[i] == s[i + 1]);
                };
                lemma_surrogate_passthrough(s.skip(1), t);
                assert(wide_seq(s) == seq![s[0]] + s.skip(1));
                assert(seq![s[0]] + s.skip(1) =~= s);
            }
        },
        ConvertType::Narrow => {
            if s.len() == 0 {
                assert(narrow_seq(s) =~= s);
            } else {
                lemma_surrogate_unit(s[0] as u32, 0);
                assert forall|i: int| 0 <= i < s.skip(1).len() implies is_surrogate(
                    #[trigger] s.skip(1)[i] as u32,
                ) by {
                    assert(s.skip(1)[i] == s[i + 1]);
                };
                lemma_surrogate_passthrough(s.skip(1), t);
                assert(narrow_seq(s) == seq![s[0]] + s.skip(1));
                assert(seq![s[0]] + s.skip(1) =~= s);
            }
        },
        ConvertType::Identity => {
        },
        _ => {
            assert forall|i: int| 0 <= i < s.len() implies unit_image(s[i], t) == s[i] by {
                lemma_surrogate_unit(s[i] as u32, 0);
            };
            assert(convert_spec(s, t) =~= s);
        },
    }
}


/// Fullwidth conversion splits at any seam that no fusion crosses: when the
/// last unit ahead of the seam and the first unit behind it have no fused
/// width table entry, the two halves convert independently.
pub proof fn lemma_wide_seq_concat(a: Seq<u16>, b: Seq<u16>)
    requires
        a.len() > 0 && b.len() > 0 ==> !has_fused(a.last() as u32, b[0] as u32),
    ensures
        wide_seq(a + b) == wide_seq(a) + wide_seq(b),
    decreases a.len(),
{
    if a.len() == 0 {
        assert(a + b =~= b);
        assert(wide_seq(a) + wide_seq(b) =~= wide_seq(b));
    } else if a.len() == 1 {
        assert((a + b)[0] == a[0]);
        assert(a.skip(1) =~= Seq::<u16>::empty());
        assert(wide_seq(a.skip(1)) =~= Seq::<u16>::empty());
        if b.len() == 0 {
            assert(a + b =~= a);
            assert(wide_seq(a) + wide_seq(b) =~= wide_seq(a));
        } else {
            assert((a + b)[1] == b[0]);
            assert(a.last() == a[0]);
            assert(!has_fused((a + b)[0] as u32, (a + b)[1] as u32));
            assert((a + b).skip(1) =~= b);
            assert(wide_seq(a + b) == seq![wide_unit(a[0] as u32) as u16] + wide_seq(b));
            assert(wide_seq(a) == seq![wide_unit(a[0] as u32) as u16] + wide_seq(a.skip(1)));
            assert(wide_seq(a) + wide_seq(b) =~= wide_seq(a + b));
        }
    } else {
        assert((a + b)[0] == a[0]);
        assert((a + b)[1] == a[1]);
        let head = a[0] as u32;
        let next = a[1] as u32;
        if has_fused(head, next) {
            assert((a + b).skip(2) =~= a.skip(2) + b);
            if a.skip(2).len() > 0 {
                assert(a.skip(2).last() == a.last());
            }
            lemma_wide_seq_concat(a.skip(2), b);
            assert(wide_seq(a + b) == seq![crate::tables::fused_wide(head, next) as u16]
                + (wide_seq(a.skip(2)) + wide_seq(b)));
            assert(wide_seq(a) == seq![crate::tables::fused_wide(head, next) as u16]
                + wide_seq(a.skip(2)));
            assert(wide_seq(a) + wide_seq(b) =~= wide_seq(a + b));
        } else {
            assert((a + b).skip(1) =~= a.skip(1) + b);
            assert(a.skip(1).last() == a.last());
            lemma_wide_seq_concat(a.skip(1), b);
            assert(wide_seq(a + b) == seq![wide_unit(head) as u16]
                + (wide_seq(a.skip(1)) + wide_seq(b)));
            assert(wide_seq(a) == seq![wide_unit(head) as u16] + wide_seq(a.skip(1)));
            assert(wide_seq(a) + wide_seq(b) =~= wide_seq(a + b));
        }
    }
}

/// Law: a surrogate pair anywhere in a buffer, the two-unit encoding of a
/// scalar value beyond the Basic Multilingual Plane, is emitted unchanged and
/// in place by every operation: no pass maps, splits, merges or moves it.
pub proof fn lemma_surrogate_pair_in_context(a: Seq<u16>, p: Seq<u16>, c: Seq<u16>, t: ConvertType)
    requires
        p.len() == 2,
        is_high_surrogate(p[0] as u32),
        is_low_surrogate(p[1] as u32),
    ensures
        convert_spec(a + p + c, t) == convert_spec(a, t) + p + convert_spec(c, t),
{
    lemma_surrogate_unit(p[0] as u32, if a.len() > 0 {
        a.last() as u32
    } else {
        0
    });
    lemma_surrogate_unit(p[1] as u32, if c.len() > 0 {
        c[0] as u32
    } else {
        0
    });
    lemma_surrogate_passthrough(p, t);
    assert(a + p + c =~= a + (p + c));
    match t {
        ConvertType::Wide => {
            assert((p + c)[0] == p[0]);
            lemma_wide_seq_concat(a, p + c);
            lemma_wide_seq_concat(p, c);
            assert(wide_seq(a + p + c) =~= wide_seq(a) + p + wide_seq(c));
        },
        ConvertType::Narrow => {
            lemma_narrow_seq_concat(a, p + c);
            lemma_narrow_seq_concat(p, c);
            assert(narrow_seq(a + p + c) =~= narrow_seq(a) + p + narrow_seq(c));
        },
        ConvertType::Identity => {
        },
        _ => {
            let whole = a + p + c;
            let image = convert_spec(a, t) + p + convert_spec(c, t);
            assert forall|i: int| 0 <= i < whole.len() implies unit_image(whole[i], t)
                == image[i] by {
                if i < a.len() {
                    assert(whole[i] == a[i]);
                    assert(image[i] == unit_image(a[i], t));
                } else if i < a.len() + 2 {
                    assert(whole[i] == p[i - a.len()]);
                    assert(image[i] == p[i - a.len()]);
                    lemma_surrogate_unit(p[i - a.len()] as u32, 0);
                } else {
                    assert(whole[i] == c[i - a.len() - 2]);
                    assert(image[i] == unit_image(c[i - a.len() - 2], t));
                }
            };
            assert(convert_spec(whole, t) =~= image);
        },
    }
}

/// Law: the identity operation returns every buffer unchanged.
pub proof fn lemma_identity_noop(s: Seq<u16>)
    ensures
        convert_spec(s, ConvertType::Identity) == s,
{
}

/// Law: a unit that is not an ASCII letter passes through both case
/// operations unchanged.
pub proof fn lemma_case_passthrough(u: u16)
    requires
        !(0x41 <= u && u <= 0x5A),
        !(0x61 <= u && u <= 0x7A),
    ensures
        unit_image(u, ConvertType::UpperCase) == u,
        unit_image(u, ConvertType::LowerCase) == u,
{
}

/// Law: a lookahead other than the halfwidth voicing marks U+FF9E and U+FF9F
/// never fuses; the current unit converts independently of it.
pub proof fn lemma_no_fusion_without_mark(current: u32, next: u32)
    requires
        next != 0xFF9E,
        next != 0xFF9F,
    ensures
        wide_step(current, next) == (wide_unit(current), false),
{
}

/// Law: a scheduled chain of two operations is their sequential composition:
/// running katakana then narrow in one pipeline equals narrow of katakana.
pub proof fn lemma_chain_is_composition(s: Seq<u16>, a: ConvertType, b: ConvertType)
    ensures
        apply_all_spec(s, seq![a, b]) == convert_spec(convert_spec(s, a), b),
{
    let ops = seq![a, b];
    let t1 = convert_spec(s, a);
    assert(apply_all_spec(s, ops) == apply_all_spec(t1, ops.skip(1)));
    assert(ops.skip(1) =~= seq![b]);
    assert(apply_all_spec(t1, seq![b]) == apply_all_spec(convert_spec(t1, b), seq![b].skip(1)));
    assert(seq![b].skip(1) =~= Seq::<ConvertType>::empty());
    assert(apply_all_spec(convert_spec(t1, b), Seq::<ConvertType>::empty()) == convert_spec(t1, b));
}

} // verus!
