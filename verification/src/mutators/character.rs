use vstd::prelude::*;
use crate::mutators::{takes_turn, turn};
use crate::source::{EntropySource, GenerationSource, SourceView};

verus! {

/// Replaces one character of a text, or one byte of a byte string.
#[derive(Debug, Clone, Copy, PartialEq, Eq, Structural)]
pub struct CharacterMutator;

impl CharacterMutator {
    /// What [`CharacterMutator::mutate_string`] returns and what it leaves
    /// of the source: no change where the strategy has no turn or the text is empty, else the text with a printable character
    /// other than the space at the drawn place.
    pub open spec fn string_spec(value: Seq<u8>, s: SourceView, rate: u64) -> (
        Option<Seq<u8>>,
        SourceView,
    ) {
        let first = turn(s, rate);
        if !first.0 || value.len() == 0 {
            (None, first.1)
        } else {
            let place = first.1.draw_range(0, value.len() as usize);
            let byte = place.1.draw_u8();
            (Some(value.update(place.0 as int, (byte.0 % 94 + 33) as u8)), byte.1)
        }
    }

    /// As [`CharacterMutator::string_spec`], with any byte at the drawn
    /// place.
    pub open spec fn bytes_spec(value: Seq<u8>, s: SourceView, rate: u64) -> (
        Option<Seq<u8>>,
        SourceView,
    ) {
        let first = turn(s, rate);
        if !first.0 || value.len() == 0 {
            (None, first.1)
        } else {
            let place = first.1.draw_range(0, value.len() as usize);
            let byte = place.1.draw_u8();
            (Some(value.update(place.0 as int, byte.0)), byte.1)
        }
    }

    /// The name of the strategy.
    pub fn name(&self) -> (name: &'static str)
        ensures
            name@ == "character"@,
    {
        "character"
    }

    /// `value` is text as its bytes; the place that is drawn is a byte.
    pub fn mutate_string(&self, value: Vec<u8>, source: &mut GenerationSource, rate: u64) -> (r:
        Option<Vec<u8>>)
        ensures
            match Self::string_spec(value@, old(source)@, rate).0 {
                Some(text) => r is Some && r->Some_0@ == text,
                None => r is None,
            },
            final(source)@ == Self::string_spec(value@, old(source)@, rate).1,
    {
        if !takes_turn(source, rate) || value.len() == 0 {
            return None;
        }
        let mut result: Vec<u8> = value;
        let idx: usize = source.gen_range(0, result.len());
        let b: u8 = source.gen_u8();
        result[idx] = b % 94 + 33;
        Some(result)
    }

    /// The byte string after the strategy had its turn, or nothing where it
    /// makes no change.
    pub fn mutate_bytes(&self, value: Vec<u8>, source: &mut GenerationSource, rate: u64) -> (r:
        Option<Vec<u8>>)
        ensures
            match Self::bytes_spec(value@, old(source)@, rate).0 {
                Some(bytes) => r is Some && r->Some_0@ == bytes,
                None => r is None,
            },
            final(source)@ == Self::bytes_spec(value@, old(source)@, rate).1,
    {
        if !takes_turn(source, rate) || value.len() == 0 {
            return None;
        }
        let mut result: Vec<u8> = value;
        let idx: usize = source.gen_range(0, result.len());
        let b: u8 = source.gen_u8();
        result[idx] = b;
        Some(result)
    }
}

} // verus!
