use vstd::prelude::*;
use crate::binary64;
use crate::mutators::{takes_turn, turn};
use crate::source::{EntropySource, GenerationSource, SourceView};

verus! {

/// Puts a boundary value in the place of a number.
#[derive(Debug, Clone, Copy, PartialEq, Eq, Structural)]
pub struct BoundaryMutator;

/// The boundary values of a 32-bit integer: 0, -1, 1, the largest and the
/// smallest.
pub open spec fn boundary_int(k: usize) -> i32 {
    if k == 0 {
        0
    } else if k == 1 {
        -1i32
    } else if k == 2 {
        1
    } else if k == 3 {
        i32::MAX
    } else {
        i32::MIN
    }
}

/// The boundary values of a 64-bit integer: 0, -1, 1, the largest and the
/// smallest.
pub open spec fn boundary_long(k: usize) -> i64 {
    if k == 0 {
        0
    } else if k == 1 {
        -1i64
    } else if k == 2 {
        1
    } else if k == 3 {
        i64::MAX
    } else {
        i64::MIN
    }
}

/// The boundary values of a binary64 number, as bit patterns: 0.0, -1.0,
/// 1.0, the largest and the smallest finite value, the two infinities, and
/// a value that is not a number.
pub open spec fn boundary_float(k: usize) -> u64 {
    if k == 0 {
        binary64::ZERO
    } else if k == 1 {
        binary64::NEG_ONE
    } else if k == 2 {
        binary64::ONE
    } else if k == 3 {
        binary64::MAX
    } else if k == 4 {
        binary64::MIN
    } else if k == 5 {
        binary64::INFINITY
    } else if k == 6 {
        binary64::NEG_INFINITY
    } else {
        binary64::NAN
    }
}

impl BoundaryMutator {
    /// What the strategy makes of an integer, and what it leaves of the
    /// source: no change where the strategy has no turn.
    pub open spec fn int_spec(value: i32, s: SourceView, rate: u64) -> (Option<i32>, SourceView) {
        let first = turn(s, rate);
        if !first.0 {
            (None, first.1)
        } else {
            let pick = first.1.draw_range(0, 5);
            (Some(boundary_int(pick.0)), pick.1)
        }
    }

    /// What the strategy makes of a long integer, and what it leaves of the
    /// source: no change where the strategy has no turn.
    pub open spec fn long_spec(value: i64, s: SourceView, rate: u64) -> (Option<i64>, SourceView) {
        let first = turn(s, rate);
        if !first.0 {
            (None, first.1)
        } else {
            let pick = first.1.draw_range(0, 5);
            (Some(boundary_long(pick.0)), pick.1)
        }
    }

    /// What the strategy makes of a binary64 value, and what it leaves of
    /// the source: no change where the strategy has no turn.
    pub open spec fn float_spec(value: u64, s: SourceView, rate: u64) -> (Option<u64>, SourceView) {
        let first = turn(s, rate);
        if !first.0 {
            (None, first.1)
        } else {
            let pick = first.1.draw_range(0, 8);
            (Some(boundary_float(pick.0)), pick.1)
        }
    }

    /// The name of the strategy.
    pub fn name(&self) -> (name: &'static str)
        ensures
            name@ == "boundary"@,
    {
        "boundary"
    }

    /// The integer after the strategy had its turn, or nothing where it makes
    /// no change.
    pub fn mutate_int(&self, value: i32, source: &mut GenerationSource, rate: u64) -> (r: Option<
        i32,
    >)
        ensures
            r == Self::int_spec(value, old(source)@, rate).0,
            final(source)@ == Self::int_spec(value, old(source)@, rate).1,
    {
        if !takes_turn(source, rate) {
            return None;
        }
        let k: usize = source.gen_range(0, 5);
        if k == 0 {
            Some(0)
        } else if k == 1 {
            Some(-1)
        } else if k == 2 {
            Some(1)
        } else if k == 3 {
            Some(i32::MAX)
        } else {
            Some(i32::MIN)
        }
    }

    /// The long integer after the strategy had its turn, or nothing where it
    /// makes no change.
    pub fn mutate_long(&self, value: i64, source: &mut GenerationSource, rate: u64) -> (r: Option<
        i64,
    >)
        ensures
            r == Self::long_spec(value, old(source)@, rate).0,
            final(source)@ == Self::long_spec(value, old(source)@, rate).1,
    {
        if !takes_turn(source, rate) {
            return None;
        }
        let k: usize = source.gen_range(0, 5);
        if k == 0 {
            Some(0)
        } else if k == 1 {
            Some(-1)
        } else if k == 2 {
            Some(1)
        } else if k == 3 {
            Some(i64::MAX)
        } else {
            Some(i64::MIN)
        }
    }

    /// `value` and the result are bit patterns of binary64 values.
    pub fn mutate_float(&self, value: u64, source: &mut GenerationSource, rate: u64) -> (r: Option<
        u64,
    >)
        ensures
            r == Self::float_spec(value, old(source)@, rate).0,
            final(source)@ == Self::float_spec(value, old(source)@, rate).1,
    {
        if !takes_turn(source, rate) {
            return None;
        }
        let k: usize = source.gen_range(0, 8);
        if k == 0 {
            Some(binary64::ZERO)
        } else if k == 1 {
            Some(binary64::NEG_ONE)
        } else if k == 2 {
            Some(binary64::ONE)
        } else if k == 3 {
            Some(binary64::MAX)
        } else if k == 4 {
            Some(binary64::MIN)
        } else if k == 5 {
            Some(binary64::INFINITY)
        } else if k == 6 {
            Some(binary64::NEG_INFINITY)
        } else {
            Some(binary64::NAN)
        }
    }
}

} // verus!
