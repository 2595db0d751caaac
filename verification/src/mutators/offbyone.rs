use vstd::prelude::*;
use crate::mutators::{takes_turn, turn};
use crate::source::{EntropySource, GenerationSource, SourceView};

verus! {

/// Moves a number by one, up or down.
#[derive(Debug, Clone, Copy, PartialEq, Eq, Structural)]
pub struct OffByOneMutator;

/// `v + 1`, wrapping from the largest to the smallest value.
pub open spec fn wrapping_up_int(v: i32) -> i32 {
    if v == i32::MAX {
        i32::MIN
    } else {
        (v + 1) as i32
    }
}

/// `v - 1`, wrapping from the smallest to the largest value.
pub open spec fn wrapping_down_int(v: i32) -> i32 {
    if v == i32::MIN {
        i32::MAX
    } else {
        (v - 1) as i32
    }
}

/// `v + 1`, wrapping from the largest to the smallest value.
pub open spec fn wrapping_up_long(v: i64) -> i64 {
    if v == i64::MAX {
        i64::MIN
    } else {
        (v + 1) as i64
    }
}

/// `v - 1`, wrapping from the smallest to the largest value.
pub open spec fn wrapping_down_long(v: i64) -> i64 {
    if v == i64::MIN {
        i64::MAX
    } else {
        (v - 1) as i64
    }
}

/// `v + 1`, staying at the largest value.
pub open spec fn saturating_up(v: usize) -> usize {
    if v == usize::MAX {
        v
    } else {
        (v + 1) as usize
    }
}

/// `v - 1`, staying at zero.
pub open spec fn saturating_down(v: usize) -> usize {
    if v == 0 {
        v
    } else {
        (v - 1) as usize
    }
}

/// Exec form of [`saturating_up`].
pub fn index_up(v: usize) -> (r: usize)
    ensures
        r == saturating_up(v),
{
    if v == usize::MAX {
        v
    } else {
        v + 1
    }
}

/// Exec form of [`saturating_down`].
pub fn index_down(v: usize) -> (r: usize)
    ensures
        r == saturating_down(v),
{
    if v == 0 {
        v
    } else {
        v - 1
    }
}

impl OffByOneMutator {
    /// What the strategy makes of an integer, and what it leaves of the
    /// source: no change where the strategy has no turn.
    pub open spec fn int_spec(value: i32, s: SourceView, rate: u64) -> (Option<i32>, SourceView) {
        let first = turn(s, rate);
        if !first.0 {
            (None, first.1)
        } else {
            let up = first.1.draw_bool();
            if up.0 {
                (Some(wrapping_up_int(value)), up.1)
            } else {
                (Some(wrapping_down_int(value)), up.1)
            }
        }
    }

    /// What the strategy makes of a long integer, and what it leaves of the
    /// source: no change where the strategy has no turn.
    pub open spec fn long_spec(value: i64, s: SourceView, rate: u64) -> (Option<i64>, SourceView) {
        let first = turn(s, rate);
        if !first.0 {
            (None, first.1)
        } else {
            let up = first.1.draw_bool();
            if up.0 {
                (Some(wrapping_up_long(value)), up.1)
            } else {
                (Some(wrapping_down_long(value)), up.1)
            }
        }
    }

    /// What the strategy makes of an index of the reference table, and what
    /// it leaves of the source: no change where the strategy has no turn.
    pub open spec fn memo_index_spec(index: usize, s: SourceView, rate: u64) -> (
        Option<usize>,
        SourceView,
    ) {
        let first = turn(s, rate);
        if !first.0 {
            (None, first.1)
        } else {
            let up = first.1.draw_bool();
            if up.0 {
                (Some(saturating_up(index)), up.1)
            } else {
                (Some(saturating_down(index)), up.1)
            }
        }
    }

    /// The name of the strategy.
    pub fn name(&self) -> (name: &'static str)
        ensures
            name@ == "offbyone"@,
    {
        "offbyone"
    }

    /// The integer after the strategy had its turn, or nothing where it makes
    /// no change.
    pub fn mutate_int(&self, value: i32, source: &mut GenerationSource, rate: u64) -> (r: Option<
        i32,
    >)
        ensures
            r == Self::int_spec(value, old(source)@, rate).0,
            final(source)@ == Self::int_spec(value, old(source)@, rate).1,
    {
        if !takes_turn(source, rate) {
            return None;
        }
        if source.gen_bool() {
            if value == i32::MAX {
                Some(i32::MIN)
            } else {
                Some(value + 1)
            }
        } else {
            if value == i32::MIN {
                Some(i32::MAX)
            } else {
                Some(value - 1)
            }
        }
    }

    /// The long integer after the strategy had its turn, or nothing where it
    /// makes no change.
    pub fn mutate_long(&self, value: i64, source: &mut GenerationSource, rate: u64) -> (r: Option<
        i64,
    >)
        ensures
            r == Self::long_spec(value, old(source)@, rate).0,
            final(source)@ == Self::long_spec(value, old(source)@, rate).1,
    {
        if !takes_turn(source, rate) {
            return None;
        }
        if source.gen_bool() {
            if value == i64::MAX {
                Some(i64::MIN)
            } else {
                Some(value + 1)
            }
        } else {
            if value == i64::MIN {
                Some(i64::MAX)
            } else {
                Some(value - 1)
            }
        }
    }

    /// The index after the strategy had its turn, or nothing where it makes
    /// no change.
    pub fn mutate_memo_index(&self, index: usize, source: &mut GenerationSource, rate: u64) -> (r:
        Option<usize>)
        ensures
            r == Self::memo_index_spec(index, old(source)@, rate).0,
            final(source)@ == Self::memo_index_spec(index, old(source)@, rate).1,
    {
        if !takes_turn(source, rate) {
            return None;
        }
        if source.gen_bool() {
            Some(index_up(index))
        } else {
            Some(index_down(index))
        }
    }
}

} // verus!
