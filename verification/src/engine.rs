use vstd::prelude::*;

use crate::tables::{
    fused_wide, has_fused, hiragana_unit, katakana_unit, lemma_tables_bmp, lower_unit,
    narrow_units, to_fused, to_hiragana, to_katakana, to_lower, to_narrow_units, to_upper,
    to_wide_unit, upper_unit, wide_unit,
};

verus! {

/// One requested transformation over a buffer of UTF-16 code units.
#[derive(Clone, Copy, Debug)]
pub enum ConvertType {
    /// Map ASCII letters to uppercase.
    UpperCase,
    /// Map ASCII letters to lowercase.
    LowerCase,
    /// Map the katakana block to hiragana.
    Hiragana,
    /// Map the hiragana block to katakana.
    Katakana,
    /// Split fullwidth forms into their halfwidth forms.
    Narrow,
    /// Fuse halfwidth forms into their fullwidth forms.
    Wide,
    /// Leave the buffer as it is.
    Identity,
}

/// The image of one code unit under a per-unit operation; the width
/// operations and the identity leave every single unit in place here.
pub open spec fn unit_image(u: u16, t: ConvertType) -> u16 {
    match t {
        ConvertType::UpperCase => upper_unit(u as u32) as u16,
        ConvertType::LowerCase => lower_unit(u as u32) as u16,
        ConvertType::Hiragana => hiragana_unit(u as u32) as u16,
        ConvertType::Katakana => katakana_unit(u as u32) as u16,
        ConvertType::Narrow => u,
        ConvertType::Wide => u,
        ConvertType::Identity => u,
    }
}

/// Halfwidth-to-fullwidth conversion of a whole buffer: at each position the
/// current unit and, when a fused width table entry matches it, the following
/// voicing mark are consumed and replaced by one fullwidth unit.
pub open spec fn wide_seq(s: Seq<u16>) -> Seq<u16>
    decreases s.len(),
{
    if s.len() == 0 {
        Seq::empty()
    } else {
        let next: u32 = if s.len() >= 2 {
            s[1] as u32
        } else {
            0
        };
        if has_fused(s[0] as u32, next) {
            seq![fused_wide(s[0] as u32, next) as u16] + wide_seq(s.skip(2))
        } else {
            seq![wide_unit(s[0] as u32) as u16] + wide_seq(s.skip(1))
        }
    }
}

/// Fullwidth-to-halfwidth conversion of a whole buffer: each unit is
/// replaced by its halfwidth decomposition, one unit or a base followed by a
/// voicing mark.
pub open spec fn narrow_seq(s: Seq<u16>) -> Seq<u16>
    decreases s.len(),
{
    if s.len() == 0 {
        Seq::empty()
    } else {
        let p = narrow_units(s[0] as u32);
        let head: Seq<u16> = if p.1 == 0 {
            seq![p.0 as u16]
        } else {
            seq![p.0 as u16, p.1 as u16]
        };
        head + narrow_seq(s.skip(1))
    }
}

/// What one pass of the engine returns for each operation: the per-unit
/// table image for case and kana, the width algorithms for narrow and wide,
/// and the input itself for the identity.
pub open spec fn convert_spec(s: Seq<u16>, t: ConvertType) -> Seq<u16> {
    match t {
        ConvertType::Narrow => narrow_seq(s),
        ConvertType::Wide => wide_seq(s),
        ConvertType::Identity => s,
        _ => s.map_values(|u: u16| unit_image(u, t)),
    }
}

/// The result of running a chain of operations left to right, each pass
/// consuming the previous pass's output.
pub open spec fn apply_all_spec(s: Seq<u16>, ops: Seq<ConvertType>) -> Seq<u16>
    decreases ops.len(),
{
    if ops.len() == 0 {
        s
    } else {
        apply_all_spec(convert_spec(s, ops[0]), ops.skip(1))
    }
}

/// Applies one operation across a buffer, producing a new buffer; the input
/// buffer is left untouched.
pub fn apply(buffer: &Vec<u16>, t: ConvertType) -> (r: Vec<u16>)
    ensures
        r@ == convert_spec(buffer@, t),
{
    match t {
        ConvertType::Narrow => apply_narrow(buffer),
        ConvertType::Wide => apply_wide(buffer),
        _ => apply_units(buffer, t),
    }
}

/// Applies a per-unit operation (case, kana, or the identity) across a
/// buffer.
fn apply_units(buffer: &Vec<u16>, t: ConvertType) -> (r: Vec<u16>)
    requires
        !(t is Narrow),
        !(t is Wide),
    ensures
        r@ == convert_spec(buffer@, t),
{
    let mut out: Vec<u16> = Vec::new();
    let mut i: usize = 0;
    while i < buffer.len()
        invariant
            !(t is Narrow),
            !(t is Wide),
            i <= buffer.len(),
            out@.len() == i as int,
            forall|j: int| 0 <= j < i ==> out@[j] == unit_image(buffer@[j], t),
        decreases buffer.len() - i,
    {
        let u = buffer[i];
        proof {
            lemma_tables_bmp(u as u32, 0, 0);
        }
        let v: u32 = match t {
            ConvertType::UpperCase => to_upper(u as u32),
            ConvertType::LowerCase => to_lower(u as u32),
            ConvertType::Hiragana => to_hiragana(u as u32),
            ConvertType::Katakana => to_katakana(u as u32),
            _ => u as u32,
        };
        out.push(v as u16);
        i = i + 1;
    }
    proof {
        if t is Identity {
            assert(out@ =~= buffer@);
        } else {
            assert(out@ =~= buffer@.map_values(|u: u16| unit_image(u, t)));
        }
    }
    out
}

/// The width resolver's driving loop toward fullwidth: consumes one unit, or
/// two when the lookahead is a voicing mark with a fused entry.
fn apply_wide(buffer: &Vec<u16>) -> (r: Vec<u16>)
    ensures
        r@ == wide_seq(buffer@),
{
    let ghost s = buffer@;
    let mut out: Vec<u16> = Vec::new();
    let mut i: usize = 0;
    proof {
        assert(s.skip(0) =~= s);
        assert(out@ + wide_seq(s) =~= wide_seq(s));
    }
    while i < buffer.len()
        invariant
            s == buffer@,
            i <= buffer.len(),
            wide_seq(s) == out@ + wide_seq(s.skip(i as int)),
        decreases buffer.len() - i,
    {
        let current = buffer[i];
        let next: u32 = if i + 1 < buffer.len() {
            buffer[i + 1] as u32
        } else {
            0
        };
        proof {
            lemma_tables_bmp(current as u32, current as u32, next);
            assert(s.skip(i as int)[0] == s[i as int]);
        }
        let fused = to_fused(current as u32, next);
        if fused != 0 {
            out.push(fused as u16);
            proof {
                assert(s.skip(i as int)[1] == s[i as int + 1]);
                assert(s.skip(i as int).skip(2) =~= s.skip(i as int + 2));
                assert(out@ + wide_seq(s.skip(i as int + 2)) =~= wide_seq(s));
            }
            i = i + 2;
        } else {
            let w = to_wide_unit(current as u32);
            out.push(w as u16);
            proof {
                assert(s.skip(i as int).skip(1) =~= s.skip(i as int + 1));
                assert(out@ + wide_seq(s.skip(i as int + 1)) =~= wide_seq(s));
            }
            i = i + 1;
        }
    }
    proof {
        assert(s.skip(i as int) =~= Seq::<u16>::empty());
        assert(out@ =~= wide_seq(s));
    }
    out
}

/// The width resolver's driving loop toward halfwidth: each unit expands to
/// its decomposition; splitting never consumes extra input.
fn apply_narrow(buffer: &Vec<u16>) -> (r: Vec<u16>)
    ensures
        r@ == narrow_seq(buffer@),
{
    let ghost s = buffer@;
    let mut out: Vec<u16> = Vec::new();
    let mut i: usize = 0;
    proof {
        assert(s.skip(0) =~= s);
        assert(out@ + narrow_seq(s) =~= narrow_seq(s));
    }
    while i < buffer.len()
        invariant
            s == buffer@,
            i <= buffer.len(),
            narrow_seq(s) == out@ + narrow_seq(s.skip(i as int)),
        decreases buffer.len() - i,
    {
        let current = buffer[i];
        proof {
            lemma_tables_bmp(current as u32, 0, 0);
            assert(s.skip(i as int)[0] == s[i as int]);
        }
        let p = to_narrow_units(current as u32);
        out.push(p.0 as u16);
        if p.1 != 0 {
            out.push(p.1 as u16);
        }
        proof {
            assert(s.skip(i as int).skip(1) =~= s.skip(i as int + 1));
            assert(out@ + narrow_seq(s.skip(i as int + 1)) =~= narrow_seq(s));
        }
        i = i + 1;
    }
    proof {
        assert(s.skip(i as int) =~= Seq::<u16>::empty());
        assert(out@ =~= narrow_seq(s));
    }
    out
}

} // verus!
