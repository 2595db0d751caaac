use vstd::prelude::*;
use crate::mutators::{takes_turn, turn};
use crate::source::{EntropySource, GenerationSource, SourceView};

verus! {

/// Changes the length of a text or of a byte string: cuts it, extends it,
/// or doubles it.
#[derive(Debug, Clone, Copy, PartialEq, Eq, Structural)]
pub struct StringLengthMutator;

/// `n` lower-case letters, each from one drawn byte, and the source after
/// them.
pub open spec fn draw_letters(s: SourceView, n: nat) -> (Seq<u8>, SourceView)
    decreases n,
{
    if n == 0 {
        (Seq::<u8>::empty(), s)
    } else {
        let front = draw_letters(s, (n - 1) as nat);
        let byte = front.1.draw_u8();
        (front.0.push((byte.0 % 26 + 97) as u8), byte.1)
    }
}

/// `n` drawn bytes, and the source after them.
pub open spec fn draw_raw(s: SourceView, n: nat) -> (Seq<u8>, SourceView)
    decreases n,
{
    if n == 0 {
        (Seq::<u8>::empty(), s)
    } else {
        let front = draw_raw(s, (n - 1) as nat);
        let byte = front.1.draw_u8();
        (front.0.push(byte.0), byte.1)
    }
}

impl StringLengthMutator {
    /// What [`StringLengthMutator::mutate_string`] returns and what it
    /// leaves of the source: no change where the strategy has no turn; else, by a drawn choice of three, a prefix of a drawn
    /// length (an empty text stays), the text with one to nine drawn
    /// letters behind it, or the text twice.
    pub open spec fn string_spec(value: Seq<u8>, s: SourceView, rate: u64) -> (
        Option<Seq<u8>>,
        SourceView,
    ) {
        let first = turn(s, rate);
        if !first.0 {
            (None, first.1)
        } else {
            let mode = first.1.draw_range(0, 3);
            if mode.0 == 0 {
                if value.len() == 0 {
                    (Some(value), mode.1)
                } else {
                    let cut = mode.1.draw_range(0, value.len() as usize);
                    (Some(value.take(cut.0 as int)), cut.1)
                }
            } else if mode.0 == 1 {
                let extra = mode.1.draw_range(1, 10);
                let tail = draw_letters(extra.1, extra.0 as nat);
                (Some(value + tail.0), tail.1)
            } else {
                (Some(value + value), mode.1)
            }
        }
    }

    /// As [`StringLengthMutator::string_spec`], extending with drawn bytes
    /// as they come.
    pub open spec fn bytes_spec(value: Seq<u8>, s: SourceView, rate: u64) -> (
        Option<Seq<u8>>,
        SourceView,
    ) {
        let first = turn(s, rate);
        if !first.0 {
            (None, first.1)
        } else {
            let mode = first.1.draw_range(0, 3);
            if mode.0 == 0 {
                if value.len() == 0 {
                    (Some(value), mode.1)
                } else {
                    let cut = mode.1.draw_range(0, value.len() as usize);
                    (Some(value.take(cut.0 as int)), cut.1)
                }
            } else if mode.0 == 1 {
                let extra = mode.1.draw_range(1, 10);
                let tail = draw_raw(extra.1, extra.0 as nat);
                (Some(value + tail.0), tail.1)
            } else {
                (Some(value + value), mode.1)
            }
        }
    }

    /// The name of the strategy.
    pub fn name(&self) -> (name: &'static str)
        ensures
            name@ == "stringlen"@,
    {
        "stringlen"
    }

    /// `value` is text as its bytes; lengths are counted in bytes.
    pub fn mutate_string(&self, value: Vec<u8>, source: &mut GenerationSource, rate: u64) -> (r:
        Option<Vec<u8>>)
        ensures
            match Self::string_spec(value@, old(source)@, rate).0 {
                Some(text) => r is Some && r->Some_0@ == text,
                None => r is None,
            },
            final(source)@ == Self::string_spec(value@, old(source)@, rate).1,
    {
        if !takes_turn(source, rate) {
            return None;
        }
        let mode: usize = source.gen_range(0, 3);
        let mut result: Vec<u8> = value;
        if mode == 0 {
            if result.len() == 0 {
                return Some(result);
            }
            let new_len: usize = source.gen_range(0, result.len());
            result.truncate(new_len);
            assert(result@ =~= value@.take(new_len as int));
            Some(result)
        } else if mode == 1 {
            let extra_len: usize = source.gen_range(1, 10);
            let ghost start = source@;
            let mut i: usize = 0;
            while i < extra_len
                invariant
                    i <= extra_len,
                    result@ == value@ + draw_letters(start, i as nat).0,
                    source@ == draw_letters(start, i as nat).1,
                decreases extra_len - i,
            {
                let b: u8 = source.gen_u8();
                result.push(b % 26 + 97);
                i = i + 1;
                assert(result@ =~= value@ + draw_letters(start, i as nat).0);
            }
            Some(result)
        } else {
            let copy: Vec<u8> = result.clone();
            result.extend_from_slice(copy.as_slice());
            assert(result@ =~= value@ + value@);
            Some(result)
        }
    }

    /// The byte string after the strategy had its turn, or nothing where it
    /// makes no change.
    pub fn mutate_bytes(&self, value: Vec<u8>, source: &mut GenerationSource, rate: u64) -> (r:
        Option<Vec<u8>>)
        ensures
            match Self::bytes_spec(value@, old(source)@, rate).0 {
                Some(bytes) => r is Some && r->Some_0@ == bytes,
                None => r is None,
            },
            final(source)@ == Self::bytes_spec(value@, old(source)@, rate).1,
    {
        if !takes_turn(source, rate) {
            return None;
        }
        let mode: usize = source.gen_range(0, 3);
        let mut result: Vec<u8> = value;
        if mode == 0 {
            if result.len() == 0 {
                return Some(result);
            }
            let new_len: usize = source.gen_range(0, result.len());
            result.truncate(new_len);
            assert(result@ =~= value@.take(new_len as int));
            Some(result)
        } else if mode == 1 {
            let extra_len: usize = source.gen_range(1, 10);
            let ghost start = source@;
            let mut i: usize = 0;
            while i < extra_len
                invariant
                    i <= extra_len,
                    result@ == value@ + draw_raw(start, i as nat).0,
                    source@ == draw_raw(start, i as nat).1,
                decreases extra_len - i,
            {
                let b: u8 = source.gen_u8();
                result.push(b);
                i = i + 1;
                assert(result@ =~= value@ + draw_raw(start, i as nat).0);
            }
            Some(result)
        } else {
            let copy: Vec<u8> = result.clone();
            result.extend_from_slice(copy.as_slice());
            assert(result@ =~= value@ + value@);
            Some(result)
        }
    }
}

} // verus!
