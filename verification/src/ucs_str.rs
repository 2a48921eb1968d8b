use vstd::prelude::*;

use crate::codec::{encode_utf16_units, utf16_decode, utf16_encode, utf16_units_to_string};
use crate::engine::{apply, apply_all_spec, ConvertType};

verus! {

/// A conversion request: a source buffer of UTF-16 code units together with
/// the ordered chain of operations scheduled against it. The buffer and the
/// chain are both materialized only when `to_vec` or `to_string` is called.
pub struct UCSStr {
    /// The code units the chain will run over.
    pub target: Vec<u16>,
    /// The scheduled operations, applied left to right.
    pub convert_types: Vec<ConvertType>,
}

impl UCSStr {
    /// Creates a conversion request over the UTF-16 code units of a string,
    /// with no operations scheduled yet.
    pub fn from_str(s: &str) -> (r: Self)
        ensures
            r.target@ == utf16_encode(s@),
            r.convert_types@ == Seq::<ConvertType>::empty(),
    {
        UCSStr { target: encode_utf16_units(s), convert_types: Vec::new() }
    }

    /// Creates a conversion request over a copy of the given code units,
    /// with no operations scheduled yet.
    pub fn from_slice(source: &[u16]) -> (r: Self)
        ensures
            r.target@ == source@,
            r.convert_types@ == Seq::<ConvertType>::empty(),
    {
        UCSStr { target: vstd::slice::slice_to_vec(source), convert_types: Vec::new() }
    }

    /// Schedules conversion of ASCII letters to uppercase as the next stage.
    pub fn upper_case(self) -> (r: Self)
        ensures
            r.target@ == self.target@,
            r.convert_types@ == self.convert_types@.push(ConvertType::UpperCase),
    {
        self.push_op(ConvertType::UpperCase)
    }

    /// Schedules conversion of ASCII letters to lowercase as the next stage.
    pub fn lower_case(self) -> (r: Self)
        ensures
            r.target@ == self.target@,
            r.convert_types@ == self.convert_types@.push(ConvertType::LowerCase),
    {
        self.push_op(ConvertType::LowerCase)
    }

    /// Schedules conversion of katakana to hiragana as the next stage.
    pub fn hiragana(self) -> (r: Self)
        ensures
            r.target@ == self.target@,
            r.convert_types@ == self.convert_types@.push(ConvertType::Hiragana),
    {
        self.push_op(ConvertType::Hiragana)
    }

    /// Schedules conversion of hiragana to katakana as the next stage.
    pub fn katakana(self) -> (r: Self)
        ensures
            r.target@ == self.target@,
            r.convert_types@ == self.convert_types@.push(ConvertType::Katakana),
    {
        self.push_op(ConvertType::Katakana)
    }

    /// Schedules conversion to fullwidth forms as the next stage.
    pub fn wide(self) -> (r: Self)
        ensures
            r.target@ == self.target@,
            r.convert_types@ == self.convert_types@.push(ConvertType::Wide),
    {
        self.push_op(ConvertType::Wide)
    }

    /// Schedules conversion to halfwidth forms as the next stage.
    pub fn narrow(self) -> (r: Self)
        ensures
            r.target@ == self.target@,
            r.convert_types@ == self.convert_types@.push(ConvertType::Narrow),
    {
        self.push_op(ConvertType::Narrow)
    }

    /// Schedules a stage that leaves the buffer unchanged.
    pub fn none(self) -> (r: Self)
        ensures
            r.target@ == self.target@,
            r.convert_types@ == self.convert_types@.push(ConvertType::Identity),
    {
        self.push_op(ConvertType::Identity)
    }

    fn push_op(self, t: ConvertType) -> (r: Self)
        ensures
            r.target@ == self.target@,
            r.convert_types@ == self.convert_types@.push(t),
    {
        let mut this = self;
        this.convert_types.push(t);
        this
    }

    /// Runs the scheduled chain over the source buffer, each stage consuming
    /// the previous stage's output, and returns the final code units. The
    /// request itself is left unchanged.
    pub fn to_vec(&self) -> (r: Vec<u16>)
        ensures
            r@ == apply_all_spec(self.target@, self.convert_types@),
    {
        let ghost ops = self.convert_types@;
        let mut buffer: Vec<u16> = vstd::slice::slice_to_vec(self.target.as_slice());
        let mut i: usize = 0;
        proof {
            assert(ops.skip(0) =~= ops);
        }
        while i < self.convert_types.len()
            invariant
                ops == self.convert_types@,
                i <= ops.len(),
                apply_all_spec(self.target@, ops) == apply_all_spec(buffer@, ops.skip(i as int)),
            decreases ops.len() - i,
        {
            let t = self.convert_types[i];
            buffer = apply(&buffer, t);
            proof {
                assert(ops.skip(i as int).skip(1) =~= ops.skip(i as int + 1));
            }
            i = i + 1;
        }
        buffer
    }

    /// Runs the scheduled chain and returns the result decoded as a string,
    /// unpaired surrogates replaced by U+FFFD.
    pub fn to_string(&self) -> (r: String)
        ensures
            r@ == utf16_decode(apply_all_spec(self.target@, self.convert_types@)),
    {
        let units = self.to_vec();
        utf16_units_to_string(&units)
    }
}

} // verus!
