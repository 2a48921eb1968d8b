use vstd::prelude::*;

verus! {

// Scalar-value classification ------------------------------------------------

/// A UTF-16 high (leading) surrogate code unit.
pub open spec fn is_high_surrogate(u: u32) -> bool {
    0xD800 <= u && u <= 0xDBFF
}

/// A UTF-16 low (trailing) surrogate code unit.
pub open spec fn is_low_surrogate(u: u32) -> bool {
    0xDC00 <= u && u <= 0xDFFF
}

/// Any UTF-16 surrogate code unit.
pub open spec fn is_surrogate(u: u32) -> bool {
    0xD800 <= u && u <= 0xDFFF
}

/// A Unicode scalar value: any code point except the surrogates.
pub open spec fn is_scalar_value(u: u32) -> bool {
    u < 0x110000 && !is_surrogate(u)
}

// Case table -----------------------------------------------------------------

/// The ASCII uppercase image of a scalar: `a`-`z` map to `A`-`Z`, everything
/// else passes through unchanged.
pub open spec fn upper_unit(u: u32) -> u32 {
    if 0x61 <= u && u <= 0x7A {
        (u - 0x20) as u32
    } else {
        u
    }
}

/// The ASCII lowercase image of a scalar: `A`-`Z` map to `a`-`z`, everything
/// else passes through unchanged.
pub open spec fn lower_unit(u: u32) -> u32 {
    if 0x41 <= u && u <= 0x5A {
        (u + 0x20) as u32
    } else {
        u
    }
}

// Kana table -----------------------------------------------------------------

/// The katakana image of a scalar: the hiragana block U+3041..U+3096 is moved
/// up by the fixed kana block offset 0x60; every other scalar (including the
/// shared prolonged-sound and iteration marks) passes through unchanged.
pub open spec fn katakana_unit(u: u32) -> u32 {
    if 0x3041 <= u && u <= 0x3096 {
        (u + 0x60) as u32
    } else {
        u
    }
}

/// The hiragana image of a scalar: the katakana block U+30A1..U+30F6 is moved
/// down by the fixed kana block offset 0x60; every other scalar passes through
/// unchanged.
pub open spec fn hiragana_unit(u: u32) -> u32 {
    if 0x30A1 <= u && u <= 0x30F6 {
        (u - 0x60) as u32
    } else {
        u
    }
}

// Width table ----------------------------------------------------------------

/// True of the halfwidth forms that have a fullwidth counterpart: ASCII space
/// through tilde, the narrow currency and sign characters, the halfwidth
/// brackets, punctuation, katakana and voicing marks, and the halfwidth form
/// signs.
pub open spec fn is_narrow_mapped(n: u32) -> bool {
    (0x20 <= n && n <= 0x7E)
        || n == 0xA2 || n == 0xA3 || n == 0xA5 || n == 0xA6 || n == 0xAC || n == 0xAF
        || n == 0x20A9
        || (0xFF5F <= n && n <= 0xFF9F)
        || (0xFFE8 <= n && n <= 0xFFEE)
}

/// The fullwidth counterpart of one halfwidth scalar, ignoring fusion; a
/// scalar with no width table entry passes through unchanged.
pub open spec fn wide_unit(n: u32) -> u32 {
    if n == 0x20 {
        0x3000
    } else if 0x21 <= n && n <= 0x7E {
        (n + 0xFEE0) as u32
    } else {
        match n {
            0x00A2 => 0xFFE0,
            0x00A3 => 0xFFE1,
            0x00A5 => 0xFFE5,
            0x00A6 => 0xFFE4,
            0x00AC => 0xFFE2,
            0x00AF => 0xFFE3,
            0x20A9 => 0xFFE6,
            0xFF5F => 0x2985,
            0xFF60 => 0x2986,
            0xFF61 => 0x3002,
            0xFF62 => 0x300C,
            0xFF63 => 0x300D,
            0xFF64 => 0x3001,
            0xFF65 => 0x30FB,
            0xFF66 => 0x30F2,
            0xFF67 => 0x30A1,
            0xFF68 => 0x30A3,
            0xFF69 => 0x30A5,
            0xFF6A => 0x30A7,
            0xFF6B => 0x30A9,
            0xFF6C => 0x30E3,
            0xFF6D => 0x30E5,
            0xFF6E => 0x30E7,
            0xFF6F => 0x30C3,
            0xFF70 => 0x30FC,
            0xFF71 => 0x30A2,
            0xFF72 => 0x30A4,
            0xFF73 => 0x30A6,
            0xFF74 => 0x30A8,
            0xFF75 => 0x30AA,
            0xFF76 => 0x30AB,
            0xFF77 => 0x30AD,
            0xFF78 => 0x30AF,
            0xFF79 => 0x30B1,
            0xFF7A => 0x30B3,
            0xFF7B => 0x30B5,
            0xFF7C => 0x30B7,
            0xFF7D => 0x30B9,
            0xFF7E => 0x30BB,
            0xFF7F => 0x30BD,
            0xFF80 => 0x30BF,
            0xFF81 => 0x30C1,
            0xFF82 => 0x30C4,
            0xFF83 => 0x30C6,
            0xFF84 => 0x30C8,
            0xFF85 => 0x30CA,
            0xFF86 => 0x30CB,
            0xFF87 => 0x30CC,
            0xFF88 => 0x30CD,
            0xFF89 => 0x30CE,
            0xFF8A => 0x30CF,
            0xFF8B => 0x30D2,
            0xFF8C => 0x30D5,
            0xFF8D => 0x30D8,
            0xFF8E => 0x30DB,
            0xFF8F => 0x30DE,
            0xFF90 => 0x30DF,
            0xFF91 => 0x30E0,
            0xFF92 => 0x30E1,
            0xFF93 => 0x30E2,
            0xFF94 => 0x30E4,
            0xFF95 => 0x30E6,
            0xFF96 => 0x30E8,
            0xFF97 => 0x30E9,
            0xFF98 => 0x30EA,
            0xFF99 => 0x30EB,
            0xFF9A => 0x30EC,
            0xFF9B => 0x30ED,
            0xFF9C => 0x30EF,
            0xFF9D => 0x30F3,
            0xFF9E => 0x3099,
            0xFF9F => 0x309A,
            0xFFE8 => 0x2502,
            0xFFE9 => 0x2190,
            0xFFEA => 0x2191,
            0xFFEB => 0x2192,
            0xFFEC => 0x2193,
            0xFFED => 0x25A0,
            0xFFEE => 0x25CB,
            _ => n,
        }
    }
}

/// The voiced fullwidth kana fused from a halfwidth base and a following
/// halfwidth voiced sound mark (U+FF9E); 0 when the base has no voiced form.
pub open spec fn voiced_wide(b: u32) -> u32 {
    match b {
        0xFF66 => 0x30FA,
        0xFF73 => 0x30F4,
        0xFF76 => 0x30AC,
        0xFF77 => 0x30AE,
        0xFF78 => 0x30B0,
        0xFF79 => 0x30B2,
        0xFF7A => 0x30B4,
        0xFF7B => 0x30B6,
        0xFF7C => 0x30B8,
        0xFF7D => 0x30BA,
        0xFF7E => 0x30BC,
        0xFF7F => 0x30BE,
        0xFF80 => 0x30C0,
        0xFF81 => 0x30C2,
        0xFF82 => 0x30C5,
        0xFF83 => 0x30C7,
        0xFF84 => 0x30C9,
        0xFF8A => 0x30D0,
        0xFF8B => 0x30D3,
        0xFF8C => 0x30D6,
        0xFF8D => 0x30D9,
        0xFF8E => 0x30DC,
        0xFF9C => 0x30F7,
        _ => 0,
    }
}

/// The semi-voiced fullwidth kana fused from a halfwidth base and a following
/// halfwidth semi-voiced sound mark (U+FF9F); 0 when the base has no
/// semi-voiced form.
pub open spec fn semi_voiced_wide(b: u32) -> u32 {
    match b {
        0xFF8A => 0x30D1,
        0xFF8B => 0x30D4,
        0xFF8C => 0x30D7,
        0xFF8D => 0x30DA,
        0xFF8E => 0x30DD,
        _ => 0,
    }
}

/// The fullwidth kana fused from a halfwidth base and a following halfwidth
/// voicing mark; 0 when the pair has no fused entry.
pub open spec fn fused_wide(b: u32, m: u32) -> u32 {
    if m == 0xFF9E {
        voiced_wide(b)
    } else if m == 0xFF9F {
        semi_voiced_wide(b)
    } else {
        0
    }
}

/// True when the width table declares a fused entry for the pair.
pub open spec fn has_fused(b: u32, m: u32) -> bool {
    fused_wide(b, m) != 0
}

/// The halfwidth decomposition of one fullwidth scalar: a simple entry gives
/// `(counterpart, 0)`, a voiced or semi-voiced kana gives `(base, mark)`, and
/// a scalar with no width table entry gives `(itself, 0)`.
pub open spec fn narrow_units(w: u32) -> (u32, u32) {
    if w == 0x3000 {
        (0x20, 0)
    } else if 0xFF01 <= w && w <= 0xFF5E {
        ((w - 0xFEE0) as u32, 0)
    } else {
        match w {
            0x2190 => (0xFFE9, 0x0000),
            0x2191 => (0xFFEA, 0x0000),
            0x2192 => (0xFFEB, 0x0000),
            0x2193 => (0xFFEC, 0x0000),
            0x2502 => (0xFFE8, 0x0000),
            0x25A0 => (0xFFED, 0x0000),
            0x25CB => (0xFFEE, 0x0000),
            0x2985 => (0xFF5F, 0x0000),
            0x2986 => (0xFF60, 0x0000),
            0x3001 => (0xFF64, 0x0000),
            0x3002 => (0xFF61, 0x0000),
            0x300C => (0xFF62, 0x0000),
            0x300D => (0xFF63, 0x0000),
            0x3099 => (0xFF9E, 0x0000),
            0x309A => (0xFF9F, 0x0000),
            0x30A1 => (0xFF67, 0x0000),
            0x30A2 => (0xFF71, 0x0000),
            0x30A3 => (0xFF68, 0x0000),
            0x30A4 => (0xFF72, 0x0000),
            0x30A5 => (0xFF69, 0x0000),
            0x30A6 => (0xFF73, 0x0000),
            0x30A7 => (0xFF6A, 0x0000),
            0x30A8 => (0xFF74, 0x0000),
            0x30A9 => (0xFF6B, 0x0000),
            0x30AA => (0xFF75, 0x0000),
            0x30AB => (0xFF76, 0x0000),
            0x30AD => (0xFF77, 0x0000),
            0x30AF => (0xFF78, 0x0000),
            0x30B1 => (0xFF79, 0x0000),
            0x30B3 => (0xFF7A, 0x0000),
            0x30B5 => (0xFF7B, 0x0000),
            0x30B7 => (0xFF7C, 0x0000),
            0x30B9 => (0xFF7D, 0x0000),
            0x30BB => (0xFF7E, 0x0000),
            0x30BD => (0xFF7F, 0x0000),
            0x30BF => (0xFF80, 0x0000),
            0x30C1 => (0xFF81, 0x0000),
            0x30C3 => (0xFF6F, 0x0000),
            0x30C4 => (0xFF82, 0x0000),
            0x30C6 => (0xFF83, 0x0000),
            0x30C8 => (0xFF84, 0x0000),
            0x30CA => (0xFF85, 0x0000),
            0x30CB => (0xFF86, 0x0000),
            0x30CC => (0xFF87, 0x0000),
            0x30CD => (0xFF88, 0x0000),
            0x30CE => (0xFF89, 0x0000),
            0x30CF => (0xFF8A, 0x0000),
            0x30D2 => (0xFF8B, 0x0000),
            0x30D5 => (0xFF8C, 0x0000),
            0x30D8 => (0xFF8D, 0x0000),
            0x30DB => (0xFF8E, 0x0000),
            0x30DE => (0xFF8F, 0x0000),
            0x30DF => (0xFF90, 0x0000),
            0x30E0 => (0xFF91, 0x0000),
            0x30E1 => (0xFF92, 0x0000),
            0x30E2 => (0xFF93, 0x0000),
            0x30E3 => (0xFF6C, 0x0000),
            0x30E4 => (0xFF94, 0x0000),
            0x30E5 => (0xFF6D, 0x0000),
            0x30E6 => (0xFF95, 0x0000),
            0x30E7 => (0xFF6E, 0x0000),
            0x30E8 => (0xFF96, 0x0000),
            0x30E9 => (0xFF97, 0x0000),
            0x30EA => (0xFF98, 0x0000),
            0x30EB => (0xFF99, 0x0000),
            0x30EC => (0xFF9A, 0x0000),
            0x30ED => (0xFF9B, 0x0000),
            0x30EF => (0xFF9C, 0x0000),
            0x30F2 => (0xFF66, 0x0000),
            0x30F3 => (0xFF9D, 0x0000),
            0x30FB => (0xFF65, 0x0000),
            0x30FC => (0xFF70, 0x0000),
            0xFFE0 => (0x00A2, 0x0000),
            0xFFE1 => (0x00A3, 0x0000),
            0xFFE2 => (0x00AC, 0x0000),
            0xFFE3 => (0x00AF, 0x0000),
            0xFFE4 => (0x00A6, 0x0000),
            0xFFE5 => (0x00A5, 0x0000),
            0xFFE6 => (0x20A9, 0x0000),
            0x30AC => (0xFF76, 0xFF9E),
            0x30AE => (0xFF77, 0xFF9E),
            0x30B0 => (0xFF78, 0xFF9E),
            0x30B2 => (0xFF79, 0xFF9E),
            0x30B4 => (0xFF7A, 0xFF9E),
            0x30B6 => (0xFF7B, 0xFF9E),
            0x30B8 => (0xFF7C, 0xFF9E),
            0x30BA => (0xFF7D, 0xFF9E),
            0x30BC => (0xFF7E, 0xFF9E),
            0x30BE => (0xFF7F, 0xFF9E),
            0x30C0 => (0xFF80, 0xFF9E),
            0x30C2 => (0xFF81, 0xFF9E),
            0x30C5 => (0xFF82, 0xFF9E),
            0x30C7 => (0xFF83, 0xFF9E),
            0x30C9 => (0xFF84, 0xFF9E),
            0x30D0 => (0xFF8A, 0xFF9E),
            0x30D1 => (0xFF8A, 0xFF9F),
            0x30D3 => (0xFF8B, 0xFF9E),
            0x30D4 => (0xFF8B, 0xFF9F),
            0x30D6 => (0xFF8C, 0xFF9E),
            0x30D7 => (0xFF8C, 0xFF9F),
            0x30D9 => (0xFF8D, 0xFF9E),
            0x30DA => (0xFF8D, 0xFF9F),
            0x30DC => (0xFF8E, 0xFF9E),
            0x30DD => (0xFF8E, 0xFF9F),
            0x30F4 => (0xFF73, 0xFF9E),
            0x30F7 => (0xFF9C, 0xFF9E),
            0x30FA => (0xFF66, 0xFF9E),
            _ => (w, 0),
        }
    }
}

/// True of the fullwidth forms that have a halfwidth counterpart.
pub open spec fn is_wide_mapped(w: u32) -> bool {
    narrow_units(w) != (w, 0u32)
}

/// True of the voiced and semi-voiced fullwidth kana, whose halfwidth
/// decomposition is two units.
pub open spec fn is_voiced_wide(w: u32) -> bool {
    narrow_units(w).1 != 0
}

// Executable table lookups ----------------------------------------------------

/// Maps one scalar through the case table toward uppercase.
pub fn to_upper(u: u32) -> (r: u32)
    ensures
        r == upper_unit(u),
{
    if 0x61 <= u && u <= 0x7A {
        u - 0x20
    } else {
        u
    }
}

/// Maps one scalar through the case table toward lowercase.
pub fn to_lower(u: u32) -> (r: u32)
    ensures
        r == lower_unit(u),
{
    if 0x41 <= u && u <= 0x5A {
        u + 0x20
    } else {
        u
    }
}

/// Maps one scalar through the kana table toward katakana.
pub fn to_katakana(u: u32) -> (r: u32)
    ensures
        r == katakana_unit(u),
{
    if 0x3041 <= u && u <= 0x3096 {
        u + 0x60
    } else {
        u
    }
}

/// Maps one scalar through the kana table toward hiragana.
pub fn to_hiragana(u: u32) -> (r: u32)
    ensures
        r == hiragana_unit(u),
{
    if 0x30A1 <= u && u <= 0x30F6 {
        u - 0x60
    } else {
        u
    }
}

/// Looks up the fullwidth counterpart of one halfwidth scalar.
pub fn to_wide_unit(n: u32) -> (r: u32)
    ensures
        r == wide_unit(n),
{
    if n == 0x20 {
        0x3000
    } else if 0x21 <= n && n <= 0x7E {
        n + 0xFEE0
    } else {
        match n {
            0x00A2 => 0xFFE0,
            0x00A3 => 0xFFE1,
            0x00A5 => 0xFFE5,
            0x00A6 => 0xFFE4,
            0x00AC => 0xFFE2,
            0x00AF => 0xFFE3,
            0x20A9 => 0xFFE6,
            0xFF5F => 0x2985,
            0xFF60 => 0x2986,
            0xFF61 => 0x3002,
            0xFF62 => 0x300C,
            0xFF63 => 0x300D,
            0xFF64 => 0x3001,
            0xFF65 => 0x30FB,
            0xFF66 => 0x30F2,
            0xFF67 => 0x30A1,
            0xFF68 => 0x30A3,
            0xFF69 => 0x30A5,
            0xFF6A => 0x30A7,
            0xFF6B => 0x30A9,
            0xFF6C => 0x30E3,
            0xFF6D => 0x30E5,
            0xFF6E => 0x30E7,
            0xFF6F => 0x30C3,
            0xFF70 => 0x30FC,
            0xFF71 => 0x30A2,
            0xFF72 => 0x30A4,
            0xFF73 => 0x30A6,
            0xFF74 => 0x30A8,
            0xFF75 => 0x30AA,
            0xFF76 => 0x30AB,
            0xFF77 => 0x30AD,
            0xFF78 => 0x30AF,
            0xFF79 => 0x30B1,
            0xFF7A => 0x30B3,
            0xFF7B => 0x30B5,
            0xFF7C => 0x30B7,
            0xFF7D => 0x30B9,
            0xFF7E => 0x30BB,
            0xFF7F => 0x30BD,
            0xFF80 => 0x30BF,
            0xFF81 => 0x30C1,
            0xFF82 => 0x30C4,
            0xFF83 => 0x30C6,
            0xFF84 => 0x30C8,
            0xFF85 => 0x30CA,
            0xFF86 => 0x30CB,
            0xFF87 => 0x30CC,
            0xFF88 => 0x30CD,
            0xFF89 => 0x30CE,
            0xFF8A => 0x30CF,
            0xFF8B => 0x30D2,
            0xFF8C => 0x30D5,
            0xFF8D => 0x30D8,
            0xFF8E => 0x30DB,
            0xFF8F => 0x30DE,
            0xFF90 => 0x30DF,
            0xFF91 => 0x30E0,
            0xFF92 => 0x30E1,
            0xFF93 => 0x30E2,
            0xFF94 => 0x30E4,
            0xFF95 => 0x30E6,
            0xFF96 => 0x30E8,
            0xFF97 => 0x30E9,
            0xFF98 => 0x30EA,
            0xFF99 => 0x30EB,
            0xFF9A => 0x30EC,
            0xFF9B => 0x30ED,
            0xFF9C => 0x30EF,
            0xFF9D => 0x30F3,
            0xFF9E => 0x3099,
            0xFF9F => 0x309A,
            0xFFE8 => 0x2502,
            0xFFE9 => 0x2190,
            0xFFEA => 0x2191,
            0xFFEB => 0x2192,
            0xFFEC => 0x2193,
            0xFFED => 0x25A0,
            0xFFEE => 0x25CB,
            _ => n,
        }
    }
}

/// Looks up the fused fullwidth kana for a halfwidth base and voicing mark;
/// returns 0 when the width table has no fused entry for the pair.
pub fn to_fused(b: u32, m: u32) -> (r: u32)
    ensures
        r == fused_wide(b, m),
{
    if m == 0xFF9E {
        match b {
            0xFF66 => 0x30FA,
            0xFF73 => 0x30F4,
            0xFF76 => 0x30AC,
            0xFF77 => 0x30AE,
            0xFF78 => 0x30B0,
            0xFF79 => 0x30B2,
            0xFF7A => 0x30B4,
            0xFF7B => 0x30B6,
            0xFF7C => 0x30B8,
            0xFF7D => 0x30BA,
            0xFF7E => 0x30BC,
            0xFF7F => 0x30BE,
            0xFF80 => 0x30C0,
            0xFF81 => 0x30C2,
            0xFF82 => 0x30C5,
            0xFF83 => 0x30C7,
            0xFF84 => 0x30C9,
            0xFF8A => 0x30D0,
            0xFF8B => 0x30D3,
            0xFF8C => 0x30D6,
            0xFF8D => 0x30D9,
            0xFF8E => 0x30DC,
            0xFF9C => 0x30F7,
            _ => 0,
        }
    } else if m == 0xFF9F {
        match b {
            0xFF8A => 0x30D1,
            0xFF8B => 0x30D4,
            0xFF8C => 0x30D7,
            0xFF8D => 0x30DA,
            0xFF8E => 0x30DD,
            _ => 0,
        }
    } else {
        0
    }
}

/// Looks up the halfwidth decomposition of one fullwidth scalar.
pub fn to_narrow_units(w: u32) -> (r: (u32, u32))
    ensures
        r == narrow_units(w),
{
    if w == 0x3000 {
        (0x20, 0)
    } else if 0xFF01 <= w && w <= 0xFF5E {
        (w - 0xFEE0, 0)
    } else {
        match w {
            0x2190 => (0xFFE9, 0x0000),
            0x2191 => (0xFFEA, 0x0000),
            0x2192 => (0xFFEB, 0x0000),
            0x2193 => (0xFFEC, 0x0000),
            0x2502 => (0xFFE8, 0x0000),
            0x25A0 => (0xFFED, 0x0000),
            0x25CB => (0xFFEE, 0x0000),
            0x2985 => (0xFF5F, 0x0000),
            0x2986 => (0xFF60, 0x0000),
            0x3001 => (0xFF64, 0x0000),
            0x3002 => (0xFF61, 0x0000),
            0x300C => (0xFF62, 0x0000),
            0x300D => (0xFF63, 0x0000),
            0x3099 => (0xFF9E, 0x0000),
            0x309A => (0xFF9F, 0x0000),
            0x30A1 => (0xFF67, 0x0000),
            0x30A2 => (0xFF71, 0x0000),
            0x30A3 => (0xFF68, 0x0000),
            0x30A4 => (0xFF72, 0x0000),
            0x30A5 => (0xFF69, 0x0000),
            0x30A6 => (0xFF73, 0x0000),
            0x30A7 => (0xFF6A, 0x0000),
            0x30A8 => (0xFF74, 0x0000),
            0x30A9 => (0xFF6B, 0x0000),
            0x30AA => (0xFF75, 0x0000),
            0x30AB => (0xFF76, 0x0000),
            0x30AD => (0xFF77, 0x0000),
            0x30AF => (0xFF78, 0x0000),
            0x30B1 => (0xFF79, 0x0000),
            0x30B3 => (0xFF7A, 0x0000),
            0x30B5 => (0xFF7B, 0x0000),
            0x30B7 => (0xFF7C, 0x0000),
            0x30B9 => (0xFF7D, 0x0000),
            0x30BB => (0xFF7E, 0x0000),
            0x30BD => (0xFF7F, 0x0000),
            0x30BF => (0xFF80, 0x0000),
            0x30C1 => (0xFF81, 0x0000),
            0x30C3 => (0xFF6F, 0x0000),
            0x30C4 => (0xFF82, 0x0000),
            0x30C6 => (0xFF83, 0x0000),
            0x30C8 => (0xFF84, 0x0000),
            0x30CA => (0xFF85, 0x0000),
            0x30CB => (0xFF86, 0x0000),
            0x30CC => (0xFF87, 0x0000),
            0x30CD => (0xFF88, 0x0000),
            0x30CE => (0xFF89, 0x0000),
            0x30CF => (0xFF8A, 0x0000),
            0x30D2 => (0xFF8B, 0x0000),
            0x30D5 => (0xFF8C, 0x0000),
            0x30D8 => (0xFF8D, 0x0000),
            0x30DB => (0xFF8E, 0x0000),
            0x30DE => (0xFF8F, 0x0000),
            0x30DF => (0xFF90, 0x0000),
            0x30E0 => (0xFF91, 0x0000),
            0x30E1 => (0xFF92, 0x0000),
            0x30E2 => (0xFF93, 0x0000),
            0x30E3 => (0xFF6C, 0x0000),
            0x30E4 => (0xFF94, 0x0000),
            0x30E5 => (0xFF6D, 0x0000),
            0x30E6 => (0xFF95, 0x0000),
            0x30E7 => (0xFF6E, 0x0000),
            0x30E8 => (0xFF96, 0x0000),
            0x30E9 => (0xFF97, 0x0000),
            0x30EA => (0xFF98, 0x0000),
            0x30EB => (0xFF99, 0x0000),
            0x30EC => (0xFF9A, 0x0000),
            0x30ED => (0xFF9B, 0x0000),
            0x30EF => (0xFF9C, 0x0000),
            0x30F2 => (0xFF66, 0x0000),
            0x30F3 => (0xFF9D, 0x0000),
            0x30FB => (0xFF65, 0x0000),
            0x30FC => (0xFF70, 0x0000),
            0xFFE0 => (0x00A2, 0x0000),
            0xFFE1 => (0x00A3, 0x0000),
            0xFFE2 => (0x00AC, 0x0000),
            0xFFE3 => (0x00AF, 0x0000),
            0xFFE4 => (0x00A6, 0x0000),
            0xFFE5 => (0x00A5, 0x0000),
            0xFFE6 => (0x20A9, 0x0000),
            0x30AC => (0xFF76, 0xFF9E),
            0x30AE => (0xFF77, 0xFF9E),
            0x30B0 => (0xFF78, 0xFF9E),
            0x30B2 => (0xFF79, 0xFF9E),
            0x30B4 => (0xFF7A, 0xFF9E),
            0x30B6 => (0xFF7B, 0xFF9E),
            0x30B8 => (0xFF7C, 0xFF9E),
            0x30BA => (0xFF7D, 0xFF9E),
            0x30BC => (0xFF7E, 0xFF9E),
            0x30BE => (0xFF7F, 0xFF9E),
            0x30C0 => (0xFF80, 0xFF9E),
            0x30C2 => (0xFF81, 0xFF9E),
            0x30C5 => (0xFF82, 0xFF9E),
            0x30C7 => (0xFF83, 0xFF9E),
            0x30C9 => (0xFF84, 0xFF9E),
            0x30D0 => (0xFF8A, 0xFF9E),
            0x30D1 => (0xFF8A, 0xFF9F),
            0x30D3 => (0xFF8B, 0xFF9E),
            0x30D4 => (0xFF8B, 0xFF9F),
            0x30D6 => (0xFF8C, 0xFF9E),
            0x30D7 => (0xFF8C, 0xFF9F),
            0x30D9 => (0xFF8D, 0xFF9E),
            0x30DA => (0xFF8D, 0xFF9F),
            0x30DC => (0xFF8E, 0xFF9E),
            0x30DD => (0xFF8E, 0xFF9F),
            0x30F4 => (0xFF73, 0xFF9E),
            0x30F7 => (0xFF9C, 0xFF9E),
            0x30FA => (0xFF66, 0xFF9E),
            _ => (w, 0),
        }
    }
}

// Facts about the width table --------------------------------------------------

/// A halfwidth scalar with a width table entry decomposes from its fullwidth
/// counterpart back to exactly itself.
pub proof fn lemma_narrow_of_wide(n: u32)
    requires
        is_narrow_mapped(n),
    ensures
        narrow_units(wide_unit(n)) == (n, 0u32),
{
}

/// A fused fullwidth kana decomposes back to exactly the base and mark it was
/// fused from.
pub proof fn lemma_narrow_of_fused(b: u32, m: u32)
    requires
        has_fused(b, m),
    ensures
        narrow_units(fused_wide(b, m)) == (b, m),
{
}

/// The halfwidth counterpart of a simple fullwidth form converts back to that
/// form alone.
pub proof fn lemma_wide_of_narrow_simple(w: u32)
    requires
        is_wide_mapped(w),
        !is_voiced_wide(w),
    ensures
        narrow_units(w).1 == 0,
        wide_unit(narrow_units(w).0) == w,
        is_narrow_mapped(narrow_units(w).0),
{
}

/// The halfwidth base and mark of a voiced fullwidth kana fuse back to it.
pub proof fn lemma_fused_of_narrow_voiced(w: u32)
    requires
        is_voiced_wide(w),
    ensures
        has_fused(narrow_units(w).0, narrow_units(w).1),
        fused_wide(narrow_units(w).0, narrow_units(w).1) == w,
        is_narrow_mapped(narrow_units(w).0),
        is_narrow_mapped(narrow_units(w).1),
        is_wide_mapped(w),
{
}

/// A scalar without a width table entry passes through the width lookups
/// unchanged.
pub proof fn lemma_width_unmapped(n: u32, w: u32)
    requires
        !is_narrow_mapped(n),
        !is_wide_mapped(w),
    ensures
        wide_unit(n) == n,
        narrow_units(w) == (w, 0u32),
{
}

/// Every table image of a Basic Multilingual Plane scalar stays in the plane.
pub proof fn lemma_tables_bmp(u: u32, b: u32, m: u32)
    requires
        u < 0x10000,
    ensures
        upper_unit(u) < 0x10000,
        lower_unit(u) < 0x10000,
        katakana_unit(u) < 0x10000,
        hiragana_unit(u) < 0x10000,
        wide_unit(u) < 0x10000,
        fused_wide(b, m) < 0x10000,
        narrow_units(u).0 < 0x10000,
        narrow_units(u).1 < 0x10000,
{
}

/// Every table image of a Unicode scalar value is a Unicode scalar value, and
/// a fused entry is one as well.
pub proof fn lemma_tables_scalar(u: u32, b: u32, m: u32)
    requires
        is_scalar_value(u),
    ensures
        is_scalar_value(upper_unit(u)),
        is_scalar_value(lower_unit(u)),
        is_scalar_value(katakana_unit(u)),
        is_scalar_value(hiragana_unit(u)),
        is_scalar_value(wide_unit(u)),
        is_scalar_value(narrow_units(u).0),
        is_scalar_value(narrow_units(u).1),
        has_fused(b, m) ==> is_scalar_value(fused_wide(b, m)),
{
}

/// A surrogate code unit has no entry in any table and never takes part in
/// fusion, on either side.
pub proof fn lemma_surrogate_unit(u: u32, v: u32)
    requires
        is_surrogate(u),
    ensures
        upper_unit(u) == u,
        lower_unit(u) == u,
        katakana_unit(u) == u,
        hiragana_unit(u) == u,
        wide_unit(u) == u,
        narrow_units(u) == (u, 0u32),
        !has_fused(u, v),
        !has_fused(v, u),
{
}

} // verus!
