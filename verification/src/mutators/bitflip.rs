use vstd::prelude::*;
use crate::mutators::{takes_turn, turn};
use crate::source::{EntropySource, GenerationSource, SourceView};

verus! {

/// Flips one bit of an integer argument.
#[derive(Debug, Clone, Copy, PartialEq, Eq, Structural)]
pub struct BitFlipMutator;

impl BitFlipMutator {
    /// What [`BitFlipMutator::mutate_int`] returns and what it leaves of
    /// the source: no change where the strategy has no turn, else the value with the bit at the drawn place flipped.
    pub open spec fn int_spec(value: i32, s: SourceView, rate: u64) -> (Option<i32>, SourceView) {
        let first = turn(s, rate);
        if !first.0 {
            (None, first.1)
        } else {
            let place = first.1.draw_range(0, 32);
            (Some(value ^ (1i32 << (place.0 as u32))), place.1)
        }
    }

    /// As [`BitFlipMutator::int_spec`], over 64 bits.
    pub open spec fn long_spec(value: i64, s: SourceView, rate: u64) -> (Option<i64>, SourceView) {
        let first = turn(s, rate);
        if !first.0 {
            (None, first.1)
        } else {
            let place = first.1.draw_range(0, 64);
            (Some(value ^ (1i64 << (place.0 as u32))), place.1)
        }
    }

    /// The name of the strategy.
    pub fn name(&self) -> (name: &'static str)
        ensures
            name@ == "bitflip"@,
    {
        "bitflip"
    }

    /// The integer after the strategy had its turn, or nothing where it makes
    /// no change.
    pub fn mutate_int(&self, value: i32, source: &mut GenerationSource, rate: u64) -> (r: Option<
        i32,
    >)
        ensures
            r == Self::int_spec(value, old(source)@, rate).0,
            final(source)@ == Self::int_spec(value, old(source)@, rate).1,
    {
        if !takes_turn(source, rate) {
            return None;
        }
        let bit_pos: usize = source.gen_range(0, 32);
        Some(value ^ (1i32 << (bit_pos as u32)))
    }

    /// The long integer after the strategy had its turn, or nothing where it
    /// makes no change.
    pub fn mutate_long(&self, value: i64, source: &mut GenerationSource, rate: u64) -> (r: Option<
        i64,
    >)
        ensures
            r == Self::long_spec(value, old(source)@, rate).0,
            final(source)@ == Self::long_spec(value, old(source)@, rate).1,
    {
        if !takes_turn(source, rate) {
            return None;
        }
        let bit_pos: usize = source.gen_range(0, 64);
        Some(value ^ (1i64 << (bit_pos as u32)))
    }
}

/// A flipped integer differs from the integer that it was made of in the
/// one bit that was flipped, and in no other.
pub proof fn lemma_flip_changes_one_bit(value: i32, place: u32)
    requires
        place < 32,
    ensures
        (value ^ (1i32 << place)) ^ value == (1i32 << place),
        (value ^ (1i32 << place)) != value,
{
    assert((value ^ (1i32 << place)) ^ value == (1i32 << place)) by (bit_vector);
    assert((value ^ (1i32 << place)) != value) by (bit_vector)
        requires
            place < 32,
    ;
}

/// A flipped long integer differs from the integer that it was made of in
/// the one bit that was flipped, and in no other.
pub proof fn lemma_flip_changes_one_bit_long(value: i64, place: u32)
    requires
        place < 64,
    ensures
        (value ^ (1i64 << place)) ^ value == (1i64 << place),
        (value ^ (1i64 << place)) != value,
{
    assert((value ^ (1i64 << place)) ^ value == (1i64 << place)) by (bit_vector);
    assert((value ^ (1i64 << place)) != value) by (bit_vector)
        requires
            place < 64,
    ;
}

} // verus!
