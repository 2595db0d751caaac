//! Markers on the simulated stack: every marker that is on the stack was
//! put there by the instruction that pushes one, so no more markers are
//! ever taken off the stack than were pushed.

use vstd::prelude::*;
use crate::generator::effects::{apply, effect};
use crate::opcodes::OpcodeKind;
use crate::stack::{lemma_mark_below, StackView};
use crate::state::{lemma_memo_place, memo_has, memo_place, memo_put, StateView};

verus! {

impl StackView {
    /// The number of slots below `n` that hold a marker.
    pub open spec fn marks_below(self, n: int) -> nat
        decreases n,
    {
        if n <= 0 {
            0
        } else if self.slot(n - 1) is Mark {
            self.marks_below(n - 1) + 1
        } else {
            self.marks_below(n - 1)
        }
    }

    /// The number of markers on the stack.
    pub open spec fn marks(self) -> nat {
        self.marks_below(self.inner.len() as int)
    }
}

/// Where a marker stands below `n`, the markers below `n` count one at
/// least.
pub proof fn lemma_a_marker_counts(stack: StackView, n: int)
    requires
        0 <= n <= stack.inner.len(),
        stack.mark_below(n) >= 0,
    ensures
        stack.marks_below(n) >= 1,
    decreases n,
{
    if n > 0 && !(stack.slot(n - 1) is Mark) {
        lemma_a_marker_counts(stack, n - 1);
    }
}

/// No entry of the reference table names a marker.
pub open spec fn memo_clean(s: StateView) -> bool {
    forall|i: int| 0 <= i < s.memo.len() ==> !(s.stack.object((#[trigger] s.memo[i]).1) is Mark)
}

/// The arena of `after` holds the values of the arena of `before`, each
/// still a marker or still none, and maybe more.
pub open spec fn arena_kept(before: StackView, after: StackView) -> bool {
    &&& after.objects.len() >= before.objects.len()
    &&& forall|r: int|
        0 <= r < before.objects.len() ==> (#[trigger] after.objects[r] is Mark)
            == (before.objects[r] is Mark)
}

/// The stack of `after` is the lowest `k` slots of the stack of `before`,
/// and maybe more.
pub open spec fn slots_kept(before: StackView, after: StackView, k: int) -> bool {
    &&& 0 <= k <= before.inner.len()
    &&& k <= after.inner.len()
    &&& forall|i: int| 0 <= i < k ==> (#[trigger] after.inner[i]) == before.inner[i]
}

/// More slots hold no fewer markers.
pub proof fn lemma_marks_grow(s: StackView, k: int, n: int)
    requires
        k <= n,
    ensures
        s.marks_below(k) <= s.marks_below(n),
    decreases n - k,
{
    if k < n {
        lemma_marks_grow(s, k, n - 1);
    }
}

/// Slots that are kept hold the markers that they held.
pub proof fn lemma_marks_kept(before: StackView, after: StackView, k: int)
    requires
        before.wf(),
        arena_kept(before, after),
        slots_kept(before, after, k),
    ensures
        after.marks_below(k) == before.marks_below(k),
        after.marks_below(k) <= before.marks(),
    decreases k,
{
    if k > 0 {
        lemma_marks_kept(before, after, k - 1);
        assert(after.inner[k - 1] == before.inner[k - 1]);
        assert(before.inner[k - 1].0 < before.objects.len());
        assert(after.slot(k - 1) is Mark == before.slot(k - 1) is Mark);
    }
    lemma_marks_grow(before, k, before.inner.len() as int);
}

/// A stack that keeps the lowest `k` slots of another and holds nothing
/// above them, or one value that is no marker, holds no more markers.
pub proof fn lemma_marks_of_kept(before: StackView, after: StackView, k: int)
    requires
        before.wf(),
        arena_kept(before, after),
        slots_kept(before, after, k),
        after.inner.len() == k || (after.inner.len() == k + 1 && !(after.slot(k) is Mark)),
    ensures
        after.marks() <= before.marks(),
{
    lemma_marks_kept(before, after, k);
}

/// A stack that keeps the lowest `k` slots of another, of which the slot
/// `k` held a marker, and holds one value above them, holds no more
/// markers.
pub proof fn lemma_marks_of_replaced(before: StackView, after: StackView, k: int)
    requires
        before.wf(),
        arena_kept(before, after),
        slots_kept(before, after, k),
        after.inner.len() == k + 1,
        k < before.inner.len(),
        before.slot(k) is Mark,
    ensures
        after.marks() <= before.marks(),
{
    lemma_marks_kept(before, after, k);
    lemma_marks_grow(before, k + 1, before.inner.len() as int);
}

/// What is left below the pairs is a part of the stack.
pub proof fn lemma_height_after_pairs(s: StackView, n: int)
    requires
        0 <= n <= s.inner.len(),
    ensures
        0 <= s.height_after_pairs(n) <= n,
    decreases n,
{
    if n >= 2 && !(s.slot(n - 1) is Mark) {
        lemma_height_after_pairs(s, n - 2);
    }
}

/// Where the stack holds a marker below `n`, the topmost of them is one of
/// the markers below `n`, and no slot between it and `n` holds another.
pub proof fn lemma_topmost_marker_counts(stack: StackView, n: int)
    requires
        0 <= n <= stack.inner.len(),
        stack.mark_below(n) >= 0,
    ensures
        stack.marks_below(n) == stack.marks_below(stack.mark_below(n)) + 1,
    decreases n,
{
    if n > 0 && !(stack.slot(n - 1) is Mark) {
        lemma_topmost_marker_counts(stack, n - 1);
    }
}

/// An instruction that makes a value of the topmost group, or takes the
/// group off, takes exactly one marker off the stack: the topmost.
pub proof fn lemma_group_takes_one_marker(s: StateView, op: OpcodeKind)
    requires
        s.wf(),
        has_room(s, op, None),
        s.stack.has_mark(),
        op == OpcodeKind::Tuple || op == OpcodeKind::List || op == OpcodeKind::FrozenSet || op
            == OpcodeKind::PopMark || op == OpcodeKind::Appends || op == OpcodeKind::AddItems
            || op == OpcodeKind::Obj,
    ensures
        apply(s, op, None).stack.marks() + 1 == s.stack.marks(),
        op == OpcodeKind::PopMark || op == OpcodeKind::Appends || op == OpcodeKind::AddItems
            ==> apply(s, op, None).depth() == s.stack.mark_top(),
        op == OpcodeKind::Tuple || op == OpcodeKind::List || op == OpcodeKind::FrozenSet
            ==> apply(s, op, None).depth() == s.stack.mark_top() + 1,
{
    reveal(effect);
    let before = s.stack;
    let after = apply(s, op, None).stack;
    let len = before.inner.len() as int;
    let top = before.mark_top();
    lemma_mark_below(before, len);
    lemma_topmost_marker_counts(before, len);
    assert(before.without_group().inner == before.inner.take(top));
    if op == OpcodeKind::AddItems {
        let rest = before.without_group();
        if rest.inner.len() > 0 {
            crate::equality::lemma_put_keeps_kind(rest, rest.top(), Seq::empty(), before.group());
        }
    }
    assert forall|i: int| 0 <= i < top implies (#[trigger] after.inner[i]) == before.inner[i] by {
        assert(before.inner.take(top)[i] == before.inner[i]);
    }
    lemma_marks_kept(before, after, top);
    if after.inner.len() > top {
        assert(after.inner.len() == top + 1);
        assert(!(after.slot(top) is Mark));
    }
}

/// Where the items above the topmost marker are even in number, taking
/// them off in pairs ends at the marker.
pub proof fn lemma_pairs_end_at_marker(stack: StackView, n: int)
    requires
        0 <= n <= stack.inner.len(),
        stack.mark_below(n) >= 0,
        (n - 1 - stack.mark_below(n)) % 2 == 0,
    ensures
        stack.height_after_pairs(n) == stack.mark_below(n),
    decreases n,
{
    lemma_mark_below(stack, n);
    if n > 0 && !(stack.slot(n - 1) is Mark) {
        lemma_mark_below(stack, n - 1);
        lemma_pairs_end_at_marker(stack, n - 2);
    }
}

/// An instruction that makes a mapping of the pairs above the topmost
/// marker, or puts them into the mapping below it, takes exactly one
/// marker off the stack where the items above the marker are even in
/// number.
pub proof fn lemma_pairs_take_one_marker(s: StateView, op: OpcodeKind)
    requires
        s.wf(),
        has_room(s, op, None),
        s.stack.has_mark(),
        s.stack.items_to_mark()->Some_0 % 2 == 0,
        op == OpcodeKind::Dict || op == OpcodeKind::SetItems,
    ensures
        apply(s, op, None).stack.marks() + 1 == s.stack.marks(),
{
    reveal(effect);
    let before = s.stack;
    let after = apply(s, op, None).stack;
    let len = before.inner.len() as int;
    let top = before.mark_top();
    lemma_mark_below(before, len);
    lemma_topmost_marker_counts(before, len);
    lemma_pairs_end_at_marker(before, len);
    if op == OpcodeKind::SetItems {
        let rest = s.without_pairs().stack;
        if rest.inner.len() > 0 {
            crate::equality::lemma_put_keeps_kind(
                rest,
                rest.top(),
                before.pairs_from(len),
                Seq::empty(),
            );
        }
    }
    assert forall|i: int| 0 <= i < top implies (#[trigger] after.inner[i]) == before.inner[i] by {
        assert(before.inner.take(top)[i] == before.inner[i]);
    }
    lemma_marks_kept(before, after, top);
    if after.inner.len() > top {
        assert(after.inner.len() == top + 1);
        assert(!(after.slot(top) is Mark));
    }
}

/// The instruction that makes an instance of a named class with the
/// topmost group as its arguments takes exactly one marker off the stack.
pub proof fn lemma_instance_takes_one_marker(s: StateView, arg: Seq<u8>)
    requires
        s.wf(),
        has_room(s, OpcodeKind::Inst, Some(arg)),
        s.stack.has_mark(),
        crate::generator::effects::has_two_lines(arg),
    ensures
        apply(s, OpcodeKind::Inst, Some(arg)).stack.marks() + 1 == s.stack.marks(),
        apply(s, OpcodeKind::Inst, Some(arg)).depth() == s.stack.mark_top() + 1,
{
    reveal(effect);
    let before = s.stack;
    let after = apply(s, OpcodeKind::Inst, Some(arg)).stack;
    let len = before.inner.len() as int;
    let top = before.mark_top();
    lemma_mark_below(before, len);
    lemma_topmost_marker_counts(before, len);
    assert(before.without_group().inner == before.inner.take(top));
    assert forall|i: int| 0 <= i < top implies (#[trigger] after.inner[i]) == before.inner[i] by {
        assert(before.inner.take(top)[i] == before.inner[i]);
    }
    lemma_marks_kept(before, after, top);
    assert(after.inner.len() == top + 1);
    assert(!(after.slot(top) is Mark));
}

/// Whether the arena has room for the values that the instruction `op`
/// with the operand `arg` makes.
pub open spec fn has_room(s: StateView, op: OpcodeKind, arg: Option<Seq<u8>>) -> bool {
    apply(s, op, arg).stack.objects.len() <= usize::MAX
}

/// An instruction that works on the stack alone, or on a container that
/// is on it, brings no marker onto the stack.
pub proof fn lemma_stack_instructions_add_no_marker(s: StateView, op: OpcodeKind)
    requires
        s.wf(),
        has_room(s, op, None),
        op == OpcodeKind::Pop || op == OpcodeKind::Dup || op == OpcodeKind::PopMark || op
            == OpcodeKind::Append || op == OpcodeKind::Appends || op == OpcodeKind::List || op
            == OpcodeKind::Tuple || op == OpcodeKind::Tuple1 || op == OpcodeKind::Tuple2 || op
            == OpcodeKind::Tuple3 || op == OpcodeKind::Dict || op == OpcodeKind::SetItem || op
            == OpcodeKind::SetItems || op == OpcodeKind::AddItems || op == OpcodeKind::FrozenSet,
    ensures
        apply(s, op, None).stack.marks() <= s.stack.marks(),
        arena_kept(s.stack, apply(s, op, None).stack),
        apply(s, op, None).memo == s.memo,
{
    reveal(effect);
    let before = s.stack;
    let after = apply(s, op, None).stack;
    let len = before.inner.len() as int;
    lemma_mark_below(before, len);
    lemma_height_after_pairs(before, len);
    let top = before.mark_top();
    let below = if top >= 0 {
        top
    } else {
        0
    };
    if op == OpcodeKind::SetItems {
        let rest = s.without_pairs().stack;
        if rest.inner.len() > 0 {
            crate::equality::lemma_put_keeps_kind(
                rest,
                rest.top(),
                before.pairs_from(len),
                Seq::empty(),
            );
        }
    }
    if op == OpcodeKind::AddItems {
        let rest = before.without_group();
        if rest.inner.len() > 0 {
            crate::equality::lemma_put_keeps_kind(rest, rest.top(), Seq::empty(), before.group());
        }
    }
    match op {
        OpcodeKind::Pop => {
            lemma_marks_of_kept(before, after, if len > 0 {
                len - 1
            } else {
                0
            });
        },
        OpcodeKind::Dup => {
            lemma_marks_of_kept(before, after, len);
        },
        OpcodeKind::PopMark | OpcodeKind::Appends | OpcodeKind::AddItems => {
            lemma_marks_of_kept(before, after, below);
        },
        OpcodeKind::List | OpcodeKind::Tuple | OpcodeKind::FrozenSet => {
            lemma_marks_of_kept(before, after, below);
        },
        OpcodeKind::Append => {
            lemma_marks_of_kept(before, after, if len >= 2 {
                len - 1
            } else {
                len
            });
        },
        OpcodeKind::Tuple1 => {
            lemma_marks_of_kept(before, after, if len >= 1 {
                len - 1
            } else {
                len
            });
        },
        OpcodeKind::Tuple2 => {
            lemma_marks_of_kept(before, after, if len >= 2 {
                len - 2
            } else {
                len
            });
        },
        OpcodeKind::Tuple3 => {
            lemma_marks_of_kept(before, after, if len >= 3 {
                len - 3
            } else {
                len
            });
        },
        OpcodeKind::SetItem => {
            lemma_marks_of_kept(before, after, if len >= 3 {
                len - 2
            } else {
                len
            });
        },
        _ => {
            lemma_marks_of_kept(before, after, before.height_after_pairs(len));
        },
    }
}

/// An instruction that pushes a value made of its operand, or of nothing,
/// brings no marker onto the stack.
pub proof fn lemma_values_add_no_marker(s: StateView, op: OpcodeKind, arg: Option<Seq<u8>>)
    requires
        s.wf(),
        has_room(s, op, arg),
        op == OpcodeKind::EmptyList || op == OpcodeKind::EmptyTuple || op == OpcodeKind::EmptyDict
            || op == OpcodeKind::EmptySet || op == OpcodeKind::Int || op == OpcodeKind::BinInt
            || op == OpcodeKind::BinInt1 || op == OpcodeKind::BinInt2 || op == OpcodeKind::Long
            || op == OpcodeKind::Long1 || op == OpcodeKind::Long4 || op == OpcodeKind::String || op
            == OpcodeKind::ShortBinUnicode || op == OpcodeKind::Unicode || op
            == OpcodeKind::BinUnicode || op == OpcodeKind::BinUnicode8 || op
            == OpcodeKind::BinString || op == OpcodeKind::ShortBinString || op
            == OpcodeKind::BinBytes || op == OpcodeKind::ShortBinBytes || op
            == OpcodeKind::BinBytes8 || op == OpcodeKind::ByteArray8 || op == OpcodeKind::Null
            || op == OpcodeKind::NewTrue || op == OpcodeKind::NewFalse || op == OpcodeKind::Float
            || op == OpcodeKind::BinFloat || op == OpcodeKind::Global || op == OpcodeKind::PersID
            || op == OpcodeKind::Ext1 || op == OpcodeKind::Ext2 || op == OpcodeKind::Ext4 || op
            == OpcodeKind::NextBuffer || op == OpcodeKind::Proto || op
            == OpcodeKind::ReadOnlyBuffer || op == OpcodeKind::Stop || op == OpcodeKind::Frame,
    ensures
        apply(s, op, arg).stack.marks() <= s.stack.marks(),
        arena_kept(s.stack, apply(s, op, arg).stack),
        apply(s, op, arg).memo == s.memo,
{
    reveal(effect);
    let before = s.stack;
    let after = apply(s, op, arg).stack;
    lemma_marks_of_kept(before, after, before.inner.len() as int);
}

/// An instruction that makes a module reference or an instance of what is
/// on the stack brings no marker onto the stack.
pub proof fn lemma_objects_add_no_marker(s: StateView, op: OpcodeKind, arg: Option<Seq<u8>>)
    requires
        s.wf(),
        has_room(s, op, arg),
        op == OpcodeKind::StackGlobal || op == OpcodeKind::Reduce || op == OpcodeKind::Build || op
            == OpcodeKind::Inst || op == OpcodeKind::Obj || op == OpcodeKind::NewObj || op
            == OpcodeKind::NewObjEx || op == OpcodeKind::BinPersID,
    ensures
        apply(s, op, arg).stack.marks() <= s.stack.marks(),
        arena_kept(s.stack, apply(s, op, arg).stack),
        apply(s, op, arg).memo == s.memo,
{
    reveal(effect);
    let before = s.stack;
    let after = apply(s, op, arg).stack;
    let len = before.inner.len() as int;
    lemma_mark_below(before, len);
    let top = before.mark_top();
    let below = if top >= 0 {
        top
    } else {
        0
    };
    match op {
        OpcodeKind::StackGlobal | OpcodeKind::Reduce | OpcodeKind::NewObj => {
            if len >= 2 {
                lemma_marks_of_kept(before, after, len - 2);
            } else if op == OpcodeKind::Reduce {
                lemma_marks_of_kept(before, after, len);
            } else {
                lemma_marks_of_kept(before, after, 0);
            }
        },
        OpcodeKind::NewObjEx => {
            if len >= 3 {
                lemma_marks_of_kept(before, after, len - 3);
            } else {
                lemma_marks_of_kept(before, after, 0);
            }
        },
        OpcodeKind::BinPersID => {
            lemma_marks_of_kept(before, after, if len >= 1 {
                len - 1
            } else {
                len
            });
        },
        OpcodeKind::Build => {
            if len >= 2 {
                if before.slot(len - 2) is Mark {
                    lemma_marks_of_replaced(before, after, len - 2);
                } else {
                    lemma_marks_of_kept(before, after, len - 2);
                }
            } else {
                lemma_marks_of_kept(before, after, len);
            }
        },
        _ => {
            if op == OpcodeKind::Inst && !(arg is Some
                && crate::generator::effects::has_two_lines(arg->Some_0)) {
                lemma_marks_of_kept(before, after, len);
            } else {
                lemma_marks_of_kept(before, after, below);
            }
        },
    }
}

/// A read of the reference table brings no marker onto the stack, where
/// the table names none.
pub proof fn lemma_reads_add_no_marker(s: StateView, op: OpcodeKind, arg: Option<Seq<u8>>)
    requires
        s.wf(),
        has_room(s, op, arg),
        memo_clean(s),
        op == OpcodeKind::Get || op == OpcodeKind::BinGet || op == OpcodeKind::LongBinGet,
    ensures
        apply(s, op, arg).stack.marks() <= s.stack.marks(),
        arena_kept(s.stack, apply(s, op, arg).stack),
        apply(s, op, arg).memo == s.memo,
{
    reveal(effect);
    let before = s.stack;
    let after = apply(s, op, arg).stack;
    assert forall|index: usize| memo_has(s.memo, index) implies !(before.object(
        s.memo[memo_place(s.memo, index, 0)].1,
    ) is Mark) by {
        lemma_memo_place(s.memo, index, 0);
    }
    lemma_marks_of_kept(before, after, before.inner.len() as int);
}

/// A write to the reference table leaves the stack as it is, and puts no
/// marker into the table. An instruction that memoizes the top of the
/// stack puts a copy in its place; it puts no marker into the table unless
/// the top is one.
pub proof fn lemma_writes_add_no_marker(s: StateView, op: OpcodeKind, arg: Option<Seq<u8>>)
    requires
        s.wf(),
        has_room(s, op, arg),
        memo_clean(s),
        op == OpcodeKind::Put || op == OpcodeKind::BinPut || op == OpcodeKind::LongBinPut || op
            == OpcodeKind::Memoize,
    ensures
        apply(s, op, arg).stack.marks() <= s.stack.marks(),
        arena_kept(s.stack, apply(s, op, arg).stack),
        op != OpcodeKind::Memoize || s.depth() == 0 || !(s.stack.at_depth(0) is Mark)
            ==> memo_clean(apply(s, op, arg)),
{
    reveal(effect);
    let before = s.stack;
    let result = apply(s, op, arg);
    let after = result.stack;
    let len = before.inner.len() as int;
    if op == OpcodeKind::Memoize {
        if len >= 1 {
            if before.slot(len - 1) is Mark {
                lemma_marks_of_replaced(before, after, len - 1);
            } else {
                lemma_marks_of_kept(before, after, len - 1);
            }
        } else {
            lemma_marks_of_kept(before, after, len);
        }
    } else {
        lemma_marks_of_kept(before, after, len);
    }
    if op != OpcodeKind::Memoize || s.depth() == 0 || !(s.stack.at_depth(0) is Mark) {
        if result.memo != s.memo {
            let fresh = before.next_ref();
            assert(exists|index: usize| result.memo == memo_put(s.memo, index, fresh));
            let index = choose|index: usize| result.memo == memo_put(s.memo, index, fresh);
            lemma_memo_place(s.memo, index, 0);
            let p = memo_place(s.memo, index, 0);
            assert forall|i: int| 0 <= i < result.memo.len() implies !(after.object(
                (#[trigger] result.memo[i]).1,
            ) is Mark) by {
                if memo_has(s.memo, index) {
                    if i != p {
                        assert(result.memo[i] == s.memo[i]);
                    }
                } else {
                    if i < p {
                        assert(result.memo[i] == s.memo[i]);
                    } else if i > p {
                        assert(result.memo[i] == s.memo[i - 1]);
                    }
                }
            }
        }
    }
}

/// Where the arena keeps its values, a clean reference table stays clean.
pub proof fn lemma_memo_stays_clean(s: StateView, after: StateView)
    requires
        s.wf(),
        memo_clean(s),
        arena_kept(s.stack, after.stack),
        after.memo == s.memo,
    ensures
        memo_clean(after),
{
    assert forall|i: int| 0 <= i < after.memo.len() implies !(after.stack.object(
        (#[trigger] after.memo[i]).1,
    ) is Mark) by {
        assert(s.stack.holds(s.memo[i].1));
    }
}

/// Markers come from the instruction that pushes one: where the reference
/// table names no marker, that instruction puts one more marker onto the
/// stack, and after any other instruction the stack holds no more markers
/// than before. The reference table still names no marker afterwards,
/// unless the instruction memoizes a marker, which is never legal.
pub proof fn lemma_markers_come_from_mark(s: StateView, op: OpcodeKind, arg: Option<Seq<u8>>)
    requires
        s.wf(),
        has_room(s, op, arg),
        memo_clean(s),
    ensures
        op == OpcodeKind::Mark ==> apply(s, op, arg).stack.marks() == s.stack.marks() + 1,
        op != OpcodeKind::Mark ==> apply(s, op, arg).stack.marks() <= s.stack.marks(),
        op != OpcodeKind::Memoize || s.depth() == 0 || !(s.stack.at_depth(0) is Mark)
            ==> memo_clean(apply(s, op, arg)),
{
    let after = apply(s, op, arg);
    match op {
        OpcodeKind::Mark => {
            reveal(effect);
            lemma_marks_kept(s.stack, after.stack, s.stack.inner.len() as int);
            lemma_memo_stays_clean(s, after);
        },
        OpcodeKind::Pop
        | OpcodeKind::Dup
        | OpcodeKind::PopMark
        | OpcodeKind::Append
        | OpcodeKind::Appends
        | OpcodeKind::List
        | OpcodeKind::Tuple
        | OpcodeKind::Tuple1
        | OpcodeKind::Tuple2
        | OpcodeKind::Tuple3
        | OpcodeKind::Dict
        | OpcodeKind::SetItem
        | OpcodeKind::SetItems
        | OpcodeKind::AddItems
        | OpcodeKind::FrozenSet => {
            assert(apply(s, op, arg) == apply(s, op, None)) by {
                reveal(effect);
            }
            lemma_stack_instructions_add_no_marker(s, op);
            lemma_memo_stays_clean(s, after);
        },
        OpcodeKind::StackGlobal
        | OpcodeKind::Reduce
        | OpcodeKind::Build
        | OpcodeKind::Inst
        | OpcodeKind::Obj
        | OpcodeKind::NewObj
        | OpcodeKind::NewObjEx
        | OpcodeKind::BinPersID => {
            lemma_objects_add_no_marker(s, op, arg);
            lemma_memo_stays_clean(s, after);
        },
        OpcodeKind::Get | OpcodeKind::BinGet | OpcodeKind::LongBinGet => {
            lemma_reads_add_no_marker(s, op, arg);
            lemma_memo_stays_clean(s, after);
        },
        OpcodeKind::Put | OpcodeKind::BinPut | OpcodeKind::LongBinPut | OpcodeKind::Memoize => {
            lemma_writes_add_no_marker(s, op, arg);
        },
        _ => {
            lemma_values_add_no_marker(s, op, arg);
            lemma_memo_stays_clean(s, after);
        },
    }
}

/// Whether the state `after` is the state `before` itself, or the state
/// `before` after one instruction: the instruction `opcode`, or for an
/// instruction that pushes an integer any of its forms.
pub open spec fn stepped(before: StateView, after: StateView, opcode: OpcodeKind) -> bool {
    after == before || exists|op: OpcodeKind, arg: Option<Seq<u8>>|
        after == #[trigger] apply(before, op, arg) && (op == opcode || (op.is_int_like()
            && opcode.is_int_like()))
}

/// One instruction of a pass keeps the reference table free of markers,
/// and brings a marker onto the stack only if it is the instruction that
/// pushes one. An instruction that memoizes is to be legal for that: the
/// top of the stack is no marker.
pub proof fn lemma_step_keeps_clean(before: StateView, after: StateView, opcode: OpcodeKind)
    requires
        before.wf(),
        after.stack.wf(),
        memo_clean(before),
        stepped(before, after, opcode),
        opcode == OpcodeKind::Memoize ==> before.depth() > 0 && !(before.stack.at_depth(0) is Mark),
    ensures
        memo_clean(after),
        opcode != OpcodeKind::Mark ==> after.stack.marks() <= before.stack.marks(),
        after.stack.marks() <= before.stack.marks() + 1,
{
    if after != before {
        let (op, arg) = choose|op: OpcodeKind, arg: Option<Seq<u8>>|
            after == #[trigger] apply(before, op, arg) && (op == opcode || (op.is_int_like()
                && opcode.is_int_like()));
        lemma_markers_come_from_mark(before, op, arg);
    }
}

} // verus!
