//! The state of the simulated machine: the protocol version, whether the
//! header has been written, the value stack, and the reference table.

use vstd::prelude::*;
use crate::protocol::Version;
use crate::stack::{ObjectView, Stack, StackObjectRef, StackView};

verus! {

/// The entries of a reference table are in the strict order of their
/// indices.
pub open spec fn memo_sorted(m: Seq<(usize, StackObjectRef)>) -> bool {
    forall|i: int, j: int| 0 <= i < j < m.len() ==> (#[trigger] m[i]).0 < (#[trigger] m[j]).0
}

/// The first place from `from` on whose index is not below `index`; the
/// length where there is none.
pub open spec fn memo_place(m: Seq<(usize, StackObjectRef)>, index: usize, from: int) -> int
    decreases m.len() - from,
{
    if from < 0 || from >= m.len() {
        m.len() as int
    } else if m[from].0 >= index {
        from
    } else {
        memo_place(m, index, from + 1)
    }
}

/// Whether the table has an entry for `index`.
pub open spec fn memo_has(m: Seq<(usize, StackObjectRef)>, index: usize) -> bool {
    let p = memo_place(m, index, 0);
    p < m.len() && m[p].0 == index
}

/// The handle that the table holds under `index`.
pub open spec fn memo_get(m: Seq<(usize, StackObjectRef)>, index: usize) -> Option<
    StackObjectRef,
> {
    if memo_has(m, index) {
        Some(m[memo_place(m, index, 0)].1)
    } else {
        None
    }
}

/// The table with `r` under `index`: in the place of the old entry of that
/// index, or as a new entry at its place in the order.
pub open spec fn memo_put(m: Seq<(usize, StackObjectRef)>, index: usize, r: StackObjectRef) -> Seq<
    (usize, StackObjectRef),
> {
    let p = memo_place(m, index, 0);
    if memo_has(m, index) {
        m.update(p, (index, r))
    } else {
        m.insert(p, (index, r))
    }
}

/// What [`memo_place`] finds in a sorted table: every entry before the
/// place has a smaller index, every entry from it on has none.
pub proof fn lemma_memo_place(m: Seq<(usize, StackObjectRef)>, index: usize, from: int)
    requires
        memo_sorted(m),
        0 <= from <= m.len(),
        forall|i: int| 0 <= i < from ==> (#[trigger] m[i]).0 < index,
    ensures
        from <= memo_place(m, index, from) <= m.len(),
        forall|i: int| 0 <= i < memo_place(m, index, from) ==> (#[trigger] m[i]).0 < index,
        forall|i: int| memo_place(m, index, from) <= i < m.len() ==> (#[trigger] m[i]).0 >= index,
    decreases m.len() - from,
{
    if from < m.len() && m[from].0 < index {
        lemma_memo_place(m, index, from + 1);
    }
}

/// Putting an entry keeps the table sorted, changes its length by at most
/// one, and makes the entry the one that is found under its index.
pub proof fn lemma_memo_put(m: Seq<(usize, StackObjectRef)>, index: usize, r: StackObjectRef)
    requires
        memo_sorted(m),
    ensures
        memo_sorted(memo_put(m, index, r)),
        memo_get(memo_put(m, index, r), index) == Some(r),
        memo_has(m, index) ==> memo_put(m, index, r).len() == m.len(),
        !memo_has(m, index) ==> memo_put(m, index, r).len() == m.len() + 1,
{
    lemma_memo_place(m, index, 0);
    let p = memo_place(m, index, 0);
    let after = memo_put(m, index, r);
    assert(after[p] == (index, r));
    assert(memo_sorted(after)) by {
        assert forall|i: int, j: int| 0 <= i < j < after.len() implies (#[trigger] after[i]).0 < (
        #[trigger] after[j]).0 by {
            if memo_has(m, index) {
                assert(after[i].0 == m[i].0);
                assert(after[j].0 == m[j].0);
            } else {
                if i < p {
                    assert(after[i] == m[i]);
                } else if i > p {
                    assert(after[i] == m[i - 1]);
                }
                if j < p {
                    assert(after[j] == m[j]);
                } else if j > p {
                    assert(after[j] == m[j - 1]);
                }
            }
        }
    }
    lemma_memo_place(after, index, 0);
    let q = memo_place(after, index, 0);
    if q < p {
        assert(after[q].0 >= index);
        assert(after[q].0 < after[p].0);
    } else if q > p {
        assert(after[p].0 < index);
    }
}

/// Putting an entry leaves what is found under every other index.
pub proof fn lemma_memo_put_other(
    m: Seq<(usize, StackObjectRef)>,
    index: usize,
    r: StackObjectRef,
    other: usize,
)
    requires
        memo_sorted(m),
        other != index,
    ensures
        memo_get(memo_put(m, index, r), other) == memo_get(m, other),
{
    lemma_memo_put(m, index, r);
    lemma_memo_place(m, index, 0);
    lemma_memo_place(m, other, 0);
    let after = memo_put(m, index, r);
    lemma_memo_place(after, other, 0);
    let p = memo_place(m, index, 0);
    let q = memo_place(m, other, 0);
    let q2 = memo_place(after, other, 0);
    if memo_has(m, index) {
        assert forall|i: int| 0 <= i < m.len() implies (#[trigger] after[i]).0 == m[i].0 by {}
        if q2 < q {
            assert(after[q2].0 >= other);
            assert(m[q2].0 < other);
        } else if q2 > q {
            assert(m[q].0 >= other);
            assert(after[q].0 < other);
        }
        if q < m.len() && q != p {
            assert(after[q] == m[q]);
        }
    } else {
        // a new entry at p shifts what follows it
        if other < index {
            // q <= p
            if q > p {
                assert(m[p].0 < other);
                assert(m[p].0 >= index);
            }
            if q2 < q {
                assert(after[q2] == m[q2]);
                assert(m[q2].0 < other);
            } else if q2 > q {
                if q < p {
                    assert(after[q] == m[q]);
                } else {
                    assert(after[q] == (index, r));
                }
                assert(after[q].0 < other);
            }
            if q < p {
                assert(after[q] == m[q]);
            } else {
                assert(after[q] == (index, r));
                if q < m.len() {
                    assert(m[q].0 >= index);
                }
            }
        } else {
            // q >= p
            if q < p {
                assert(m[q].0 >= other);
                assert(m[q].0 < index);
            }
            if q2 < q + 1 {
                if q2 < p {
                    assert(after[q2] == m[q2]);
                } else if q2 == p {
                } else {
                    assert(after[q2] == m[q2 - 1]);
                    assert(m[q2 - 1].0 < other);
                }
                assert(after[q2].0 >= other);
            } else if q2 > q + 1 {
                assert(after[q + 1] == m[q]);
                assert(after[q + 1].0 < other);
            }
            if q < m.len() {
                assert(after[q + 1] == m[q]);
            }
        }
    }
}

/// The reference table: handles under non-negative indices, kept in the
/// order of the indices.
#[derive(Debug)]
pub struct Memo {
    pub entries: Vec<(usize, StackObjectRef)>,
}

impl View for Memo {
    type V = Seq<(usize, StackObjectRef)>;

    open spec fn view(&self) -> Seq<(usize, StackObjectRef)> {
        self.entries@
    }
}

impl Memo {
    /// An empty table.
    pub fn new() -> (memo: Self)
        ensures
            memo@.len() == 0,
    {
        Memo { entries: Vec::new() }
    }

    /// The number of entries.
    pub fn len(&self) -> (n: usize)
        ensures
            n == self@.len(),
    {
        self.entries.len()
    }

    /// Whether the table has no entry.
    pub fn is_empty(&self) -> (b: bool)
        ensures
            b == (self@.len() == 0),
    {
        self.entries.len() == 0
    }

    /// Removes every entry.
    pub fn clear(&mut self)
        ensures
            final(self)@.len() == 0,
    {
        self.entries.clear();
    }

    /// The number of entries with an index below `index`.
    pub fn place(&self, index: usize) -> (p: usize)
        ensures
            p == memo_place(self@, index, 0),
            p <= self@.len(),
    {
        let mut p: usize = 0;
        while p < self.entries.len() && self.entries[p].0 < index
            invariant
                p <= self.entries.len(),
                memo_place(self@, index, 0) == memo_place(self@, index, p as int),
            decreases self.entries.len() - p,
        {
            p = p + 1;
        }
        p
    }

    /// The handle under `index`, if there is one.
    pub fn get(&self, index: usize) -> (r: Option<StackObjectRef>)
        ensures
            r == memo_get(self@, index),
    {
        let p: usize = self.place(index);
        if p < self.entries.len() && self.entries[p].0 == index {
            Some(self.entries[p].1)
        } else {
            None
        }
    }

    /// Puts `r` under `index`; an entry that the index had is overwritten.
    pub fn insert(&mut self, index: usize, r: StackObjectRef)
        ensures
            final(self)@ == memo_put(old(self)@, index, r),
    {
        let p: usize = self.place(index);
        if p < self.entries.len() && self.entries[p].0 == index {
            self.entries[p] = (index, r);
        } else {
            self.entries.insert(p, (index, r));
        }
    }

    /// The index of the entry at place `i` of the order.
    pub fn key_at(&self, i: usize) -> (index: usize)
        requires
            i < self@.len(),
        ensures
            index == self@[i as int].0,
    {
        self.entries[i].0
    }
}

/// The state of the machine as the contracts see it.
pub struct StateView {
    pub version: Version,
    pub proto_emitted: bool,
    pub stack: StackView,
    pub memo: Seq<(usize, StackObjectRef)>,
}

impl StateView {
    /// The handles on the stack and in the reference table name values of
    /// the arena, and the table is in the order of its indices.
    pub open spec fn wf(self) -> bool {
        &&& self.stack.wf()
        &&& memo_sorted(self.memo)
        &&& forall|i: int| 0 <= i < self.memo.len() ==> self.stack.holds((#[trigger] self.memo[i]).1)
    }

    /// The state at the start of a pass for the protocol `version`: the
    /// stack, the arena and the reference table are empty, and the header
    /// counts as not written.
    pub open spec fn fresh(version: Version) -> StateView {
        StateView {
            version,
            proto_emitted: false,
            stack: StackView { inner: Seq::empty(), objects: Seq::empty() },
            memo: Seq::empty(),
        }
    }

    /// The state with another stack.
    pub open spec fn with_stack(self, stack: StackView) -> StateView {
        StateView { stack, ..self }
    }

    /// The state with a new value on top of the stack.
    pub open spec fn push(self, value: ObjectView) -> StateView {
        self.with_stack(self.stack.push(value))
    }

    /// The state without the top `n` handles of the stack.
    pub open spec fn drop(self, n: int) -> StateView {
        self.with_stack(self.stack.drop(n))
    }

    /// The state with a copy of `value` in the arena and the copy's handle
    /// in the reference table under `index`.
    pub open spec fn put(self, index: usize, value: ObjectView) -> StateView {
        StateView {
            stack: self.stack.allocate(value),
            memo: memo_put(self.memo, index, self.stack.next_ref()),
            ..self
        }
    }

    /// The depth of the stack.
    pub open spec fn depth(self) -> nat {
        self.stack.inner.len()
    }
}

/// The state of the simulated machine.
#[derive(Debug)]
pub struct State {
    /// The protocol version of the pass.
    pub version: Version,
    /// Whether the header instruction has been written.
    pub proto_emitted: bool,
    /// The value stack and its arena.
    pub stack: Stack,
    /// The reference table.
    pub memo: Memo,
}

impl View for State {
    type V = StateView;

    open spec fn view(&self) -> StateView {
        StateView {
            version: self.version,
            proto_emitted: self.proto_emitted,
            stack: self.stack@,
            memo: self.memo@,
        }
    }
}

impl Default for State {
    /// The state at the start of a pass of the default protocol version.
    fn default() -> (state: Self)
        ensures
            state@.version == Version::V2,
            !state@.proto_emitted,
            state@.stack.inner.len() == 0,
            state@.stack.objects.len() == 0,
            state@.memo.len() == 0,
            state@.wf(),
    {
        State::new(Version::V2)
    }
}

impl State {
    /// The state at the start of a pass of the protocol `version`.
    pub fn new(version: Version) -> (state: Self)
        ensures
            state@.version == version,
            !state@.proto_emitted,
            state@.stack.inner.len() == 0,
            state@.stack.objects.len() == 0,
            state@.memo.len() == 0,
            state@.wf(),
    {
        State { version, proto_emitted: false, stack: Stack::new(), memo: Memo::new() }
    }

    /// Back to the start of a pass: the stack, the arena and the reference
    /// table are emptied and the header counts as not written. The version
    /// stays.
    pub fn reset(&mut self)
        ensures
            final(self)@ == StateView::fresh(old(self)@.version),
            final(self)@.wf(),
    {
        self.proto_emitted = false;
        self.memo.clear();
        self.stack.reset();
        assert(self@.stack.inner =~= Seq::empty());
        assert(self@.stack.objects =~= Seq::empty());
        assert(self@.memo =~= Seq::empty());
    }
}

} // verus!
