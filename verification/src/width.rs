use vstd::prelude::*;

use crate::tables::{
    fused_wide, has_fused, is_scalar_value, lemma_tables_scalar, narrow_units, to_fused,
    to_narrow_units, to_wide_unit, wide_unit,
};

verus! {

/// One step of halfwidth-to-fullwidth conversion: the fullwidth image of
/// `current`, and whether the following unit was consumed by fusion.
pub open spec fn wide_step(current: u32, next: u32) -> (u32, bool) {
    if has_fused(current, next) {
        (fused_wide(current, next), true)
    } else {
        (wide_unit(current), false)
    }
}

/// Relies on char::from_u32: it returns Some exactly when the argument is a
/// Unicode scalar value.
#[verifier::external_body]
fn char_from_scalar(u: u32) -> (c: char)
    requires
        is_scalar_value(u),
    ensures
        c as u32 == u,
{
    char::from_u32(u).unwrap()
}

/// The width resolver: converts single characters between their halfwidth and
/// fullwidth forms, fusing and splitting voiced kana.
pub struct WidthUtils;

impl WidthUtils {
    /// Converts one character toward fullwidth, fusing it with the following
    /// character when that is a matching halfwidth voicing mark. Returns the
    /// fullwidth character and whether `next` was consumed by fusion. `next`
    /// may be the absent sentinel '\u{0}' at the end of input; no fusion
    /// matches it.
    pub fn convert_to_wide(current: char, next: char) -> (r: (char, bool))
        ensures
            (r.0 as u32, r.1) == wide_step(current as u32, next as u32),
    {
        let c = current as u32;
        let n = next as u32;
        proof {
            lemma_tables_scalar(c, c, n);
        }
        let fused = to_fused(c, n);
        if fused != 0 {
            (char_from_scalar(fused), true)
        } else {
            (char_from_scalar(to_wide_unit(c)), false)
        }
    }

    /// Converts one character toward halfwidth. Returns the halfwidth
    /// character and, for a voiced or semi-voiced fullwidth kana, the
    /// trailing halfwidth voicing mark; otherwise the absent sentinel
    /// '\u{0}'.
    pub fn convert_to_narrow(current: char) -> (r: (char, char))
        ensures
            (r.0 as u32, r.1 as u32) == narrow_units(current as u32),
    {
        let c = current as u32;
        proof {
            lemma_tables_scalar(c, 0, 0);
        }
        let p = to_narrow_units(c);
        (char_from_scalar(p.0), char_from_scalar(p.1))
    }
}

} // verus!
