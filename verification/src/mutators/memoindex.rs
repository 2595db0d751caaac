use vstd::prelude::*;
use crate::mutators::{takes_turn, turn};
use crate::mutators::offbyone::{index_down, index_up, saturating_down, saturating_up};
use crate::source::{EntropySource, GenerationSource, SourceView};

verus! {

/// Makes a read of the reference table name another index: a neighbour of
/// the chosen one, or in unsafe mode any index below 1000.
#[derive(Debug, Clone, Copy, PartialEq, Eq, Structural)]
pub struct MemoIndexMutator {
    pub unsafe_mode: bool,
}

impl MemoIndexMutator {
    /// The strategy in the given mode.
    pub fn new(unsafe_mode: bool) -> (mutator: Self)
        ensures
            mutator.unsafe_mode == unsafe_mode,
    {
        MemoIndexMutator { unsafe_mode }
    }

    /// What [`MemoIndexMutator::mutate_memo_index`] returns and what it
    /// leaves of the source: no change where the strategy has no turn; else in unsafe mode a drawn index below 1000,
    /// and in safe mode, by a drawn choice of three, the index above, the
    /// index below, or the index itself.
    pub open spec fn memo_index_spec(self, index: usize, s: SourceView, rate: u64) -> (
        Option<usize>,
        SourceView,
    ) {
        let first = turn(s, rate);
        if !first.0 {
            (None, first.1)
        } else if self.unsafe_mode {
            let any = first.1.draw_range(0, 1000);
            (Some(any.0), any.1)
        } else {
            let way = first.1.draw_range(0, 3);
            if way.0 == 0 {
                (Some(saturating_up(index)), way.1)
            } else if way.0 == 1 {
                (Some(saturating_down(index)), way.1)
            } else {
                (Some(index), way.1)
            }
        }
    }

    /// The name of the strategy.
    pub fn name(&self) -> (name: &'static str)
        ensures
            name@ == "memoindex"@,
    {
        "memoindex"
    }

    /// Whether the mutator may name an index that the table does not hold.
    pub fn is_unsafe(&self) -> (b: bool)
        ensures
            b == self.unsafe_mode,
    {
        self.unsafe_mode
    }

    /// The index after the strategy had its turn, or nothing where it makes
    /// no change.
    pub fn mutate_memo_index(&self, index: usize, source: &mut GenerationSource, rate: u64) -> (r:
        Option<usize>)
        ensures
            r == self.memo_index_spec(index, old(source)@, rate).0,
            final(source)@ == self.memo_index_spec(index, old(source)@, rate).1,
    {
        if !takes_turn(source, rate) {
            return None;
        }
        if self.unsafe_mode {
            Some(source.gen_range(0, 1000))
        } else {
            let way: usize = source.gen_range(0, 3);
            if way == 0 {
                Some(index_up(index))
            } else if way == 1 {
                Some(index_down(index))
            } else {
                Some(index)
            }
        }
    }
}

} // verus!
