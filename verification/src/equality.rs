//! Equality and hashing of values, and the containers that rest on them. Two values are
//! equal when they hold the same: the same kind, the same payload, and for
//! containers equal items. The comparison follows handles into the arena,
//! so it is guarded: the same handle is the same value without a look at
//! it, and beyond a fixed depth only the same handle is.

use vstd::prelude::*;
use crate::binary64::{bits_is_nan, bits_magnitude, is_nan, magnitude};
use crate::stack::{ObjectView, Stack, StackObject, StackObjectRef, StackView};

verus! {

/// How deep the comparison of two values follows handles.
pub const EQUALITY_DEPTH: usize = 32;

/// Whether two binary64 values, given as bit patterns, are equal numbers:
/// the two zeros are, and what is not a number equals nothing.
pub open spec fn float_equal(a: u64, b: u64) -> bool {
    !is_nan(a) && !is_nan(b) && (a == b || (magnitude(a) == 0 && magnitude(b) == 0))
}

/// Whether the handles `a` and `b` name equal values, following handles
/// `depth` deep.
pub open spec fn refs_equal(heap: Seq<ObjectView>, a: StackObjectRef, b: StackObjectRef, depth: nat) -> bool
    decreases depth, 0nat,
{
    a == b || (depth > 0 && a.0 < heap.len() && b.0 < heap.len() && values_equal(
        heap,
        heap[a.0 as int],
        heap[b.0 as int],
        (depth - 1) as nat,
    ))
}

/// Whether two sequences of handles name equal values place by place.
pub open spec fn all_equal(
    heap: Seq<ObjectView>,
    a: Seq<StackObjectRef>,
    b: Seq<StackObjectRef>,
    depth: nat,
) -> bool
    decreases depth, 1nat,
{
    a.len() == b.len() && forall|i: int|
        0 <= i < a.len() ==> refs_equal(heap, #[trigger] a[i], b[i], depth)
}

/// Whether `b` has a member equal to the value that `m` names.
pub open spec fn member_in(
    heap: Seq<ObjectView>,
    m: StackObjectRef,
    b: Seq<StackObjectRef>,
    depth: nat,
) -> bool
    decreases depth, 1nat,
{
    exists|j: int| 0 <= j < b.len() && refs_equal(heap, m, #[trigger] b[j], depth)
}

/// Whether `b` has a key equal to the value that `k` names, with a value
/// equal to the value that `v` names.
pub open spec fn pair_in(
    heap: Seq<ObjectView>,
    k: StackObjectRef,
    v: StackObjectRef,
    b: Seq<(StackObjectRef, StackObjectRef)>,
    depth: nat,
) -> bool
    decreases depth, 1nat,
{
    exists|j: int|
        0 <= j < b.len() && refs_equal(heap, k, (#[trigger] b[j]).0, depth) && refs_equal(
            heap,
            v,
            b[j].1,
            depth,
        )
}

/// Whether two sets have as many members, and each member of `a` has its
/// equal in `b`.
pub open spec fn all_members_in(
    heap: Seq<ObjectView>,
    a: Seq<StackObjectRef>,
    b: Seq<StackObjectRef>,
    depth: nat,
) -> bool
    decreases depth, 2nat,
{
    a.len() == b.len() && forall|i: int|
        0 <= i < a.len() ==> member_in(heap, #[trigger] a[i], b, depth)
}

/// Whether two mappings have as many entries, and each key of `a` has its
/// equal in `b`, under an equal value.
pub open spec fn all_pairs_in(
    heap: Seq<ObjectView>,
    a: Seq<(StackObjectRef, StackObjectRef)>,
    b: Seq<(StackObjectRef, StackObjectRef)>,
    depth: nat,
) -> bool
    decreases depth, 2nat,
{
    a.len() == b.len() && forall|i: int|
        0 <= i < a.len() ==> pair_in(heap, (#[trigger] a[i]).0, a[i].1, b, depth)
}

/// Whether two values are equal, following handles `depth` deep. Lists
/// and tuples are equal when their items are, place by place; mappings
/// and sets when they have as many entries and each entry of the one has
/// its equal in the other. Two instances are always equal.
pub open spec fn values_equal(heap: Seq<ObjectView>, x: ObjectView, y: ObjectView, depth: nat) -> bool
    decreases depth, 3nat,
{
    match x {
        ObjectView::Int(a) => y matches ObjectView::Int(b) && a == b,
        ObjectView::Float(a) => y matches ObjectView::Float(b) && float_equal(a, b),
        ObjectView::Bool(a) => y matches ObjectView::Bool(b) && a == b,
        ObjectView::Null => y is Null,
        ObjectView::Bytes(a) => y matches ObjectView::Bytes(b) && a == b,
        ObjectView::String(a) => y matches ObjectView::String(b) && a == b,
        ObjectView::ByteArray(a) => y matches ObjectView::ByteArray(b) && a == b,
        ObjectView::List(a) => y matches ObjectView::List(b) && all_equal(heap, a, b, depth),
        ObjectView::Tuple(a) => y matches ObjectView::Tuple(b) && all_equal(heap, a, b, depth),
        ObjectView::Dict(a) => y matches ObjectView::Dict(b) && all_pairs_in(heap, a, b, depth),
        ObjectView::MutableSet(a) => y matches ObjectView::MutableSet(b) && all_members_in(
            heap,
            a,
            b,
            depth,
        ),
        ObjectView::FrozenSet(a) => y matches ObjectView::FrozenSet(b) && all_members_in(
            heap,
            a,
            b,
            depth,
        ),
        ObjectView::Mark => y is Mark,
        ObjectView::Global { module, name } => y matches ObjectView::Global {
            module: other_module,
            name: other_name,
        } && module == other_module && name == other_name,
        ObjectView::Instance(_) => y is Instance,
        ObjectView::Callable(a) => y matches ObjectView::Callable(b) && refs_equal(
            heap,
            a,
            b,
            depth,
        ),
        ObjectView::Extension(a) => y matches ObjectView::Extension(b) && a == b,
        ObjectView::Any => y is Any,
    }
}

/// Whether two handles name equal keys of a mapping, or equal members of a
/// set.
pub open spec fn key_equal(heap: Seq<ObjectView>, a: StackObjectRef, b: StackObjectRef) -> bool {
    refs_equal(heap, a, b, EQUALITY_DEPTH as nat)
}

/// The place of the first key from `from` on that is equal to `key`, or -1.
pub open spec fn find_key(
    heap: Seq<ObjectView>,
    pairs: Seq<(StackObjectRef, StackObjectRef)>,
    key: StackObjectRef,
    from: int,
) -> int
    decreases pairs.len() - from,
{
    if from < 0 || from >= pairs.len() {
        -1
    } else if key_equal(heap, pairs[from].0, key) {
        from
    } else {
        find_key(heap, pairs, key, from + 1)
    }
}

/// `pairs` with `value` under `key`: in the place of the value of the key
/// that is equal to it, which stays, or at the end for a new key.
pub open spec fn dict_put(
    heap: Seq<ObjectView>,
    pairs: Seq<(StackObjectRef, StackObjectRef)>,
    key: StackObjectRef,
    value: StackObjectRef,
) -> Seq<(StackObjectRef, StackObjectRef)> {
    let i = find_key(heap, pairs, key, 0);
    if i < 0 {
        pairs.push((key, value))
    } else {
        pairs.update(i, (pairs[i].0, value))
    }
}

/// `pairs` with each of `more` put into it, first to last.
pub open spec fn dict_put_all(
    heap: Seq<ObjectView>,
    pairs: Seq<(StackObjectRef, StackObjectRef)>,
    more: Seq<(StackObjectRef, StackObjectRef)>,
) -> Seq<(StackObjectRef, StackObjectRef)>
    decreases more.len(),
{
    if more.len() == 0 {
        pairs
    } else {
        dict_put(heap, dict_put_all(heap, pairs, more.drop_last()), more.last().0, more.last().1)
    }
}

/// The place of the first member from `from` on that is equal to `item`,
/// or -1.
pub open spec fn find_member(
    heap: Seq<ObjectView>,
    items: Seq<StackObjectRef>,
    item: StackObjectRef,
    from: int,
) -> int
    decreases items.len() - from,
{
    if from < 0 || from >= items.len() {
        -1
    } else if key_equal(heap, items[from], item) {
        from
    } else {
        find_member(heap, items, item, from + 1)
    }
}

/// `items` with `item` as a member: unchanged where it has an equal one.
pub open spec fn set_put(heap: Seq<ObjectView>, items: Seq<StackObjectRef>, item: StackObjectRef) -> Seq<
    StackObjectRef,
> {
    if find_member(heap, items, item, 0) >= 0 {
        items
    } else {
        items.push(item)
    }
}

/// `items` with each of `more` put into it, first to last.
pub open spec fn set_put_all(
    heap: Seq<ObjectView>,
    items: Seq<StackObjectRef>,
    more: Seq<StackObjectRef>,
) -> Seq<StackObjectRef>
    decreases more.len(),
{
    if more.len() == 0 {
        items
    } else {
        set_put(heap, set_put_all(heap, items, more.drop_last()), more.last())
    }
}

impl StackView {
    /// The stack with `value` under `key` in the mapping that `r` names.
    pub open spec fn put_pair(self, r: StackObjectRef, key: StackObjectRef, value: StackObjectRef) -> StackView {
        self.store(
            r,
            ObjectView::Dict(dict_put(self.objects, self.object(r)->Dict_0, key, value)),
        )
    }

    /// The stack with each of `more` put into the mapping that `r` names,
    /// first to last.
    pub open spec fn put_pairs(self, r: StackObjectRef, more: Seq<(StackObjectRef, StackObjectRef)>) -> StackView
        decreases more.len(),
    {
        if more.len() == 0 {
            self
        } else {
            self.put_pairs(r, more.drop_last()).put_pair(r, more.last().0, more.last().1)
        }
    }

    /// The stack with `item` as a member of the set that `r` names.
    pub open spec fn put_member(self, r: StackObjectRef, item: StackObjectRef) -> StackView {
        self.store(
            r,
            ObjectView::MutableSet(set_put(self.objects, self.object(r)->MutableSet_0, item)),
        )
    }

    /// The stack with each of `more` made a member of the set that `r`
    /// names, first to last.
    pub open spec fn put_members(self, r: StackObjectRef, more: Seq<StackObjectRef>) -> StackView
        decreases more.len(),
    {
        if more.len() == 0 {
            self
        } else {
            self.put_members(r, more.drop_last()).put_member(r, more.last())
        }
    }
}

/// Putting into a mapping, or into a set, leaves a mapping, or a set, in
/// its place.
pub proof fn lemma_put_keeps_kind(s: StackView, r: StackObjectRef, more: Seq<(StackObjectRef, StackObjectRef)>, items: Seq<StackObjectRef>)
    requires
        s.holds(r),
    ensures
        s.object(r) is Dict ==> s.put_pairs(r, more).object(r) is Dict,
        s.object(r) is MutableSet ==> s.put_members(r, items).object(r) is MutableSet,
        s.put_pairs(r, more).holds(r),
        s.put_members(r, items).holds(r),
        s.put_pairs(r, more).inner == s.inner,
        s.put_members(r, items).inner == s.inner,
        s.put_pairs(r, more).objects.len() == s.objects.len(),
        s.put_members(r, items).objects.len() == s.objects.len(),
        forall|x: int|
            0 <= x < s.objects.len() && x != r.0 ==> #[trigger] s.put_pairs(r, more).objects[x]
                == s.objects[x],
        forall|x: int|
            0 <= x < s.objects.len() && x != r.0 ==> #[trigger] s.put_members(r, items).objects[x]
                == s.objects[x],
    decreases more.len() + items.len(),
{
    if more.len() > 0 {
        lemma_put_keeps_kind(s, r, more.drop_last(), Seq::empty());
    }
    if items.len() > 0 {
        lemma_put_keeps_kind(s, r, Seq::empty(), items.drop_last());
    }
}

fn bytes_equal(a: &Vec<u8>, b: &Vec<u8>) -> (r: bool)
    ensures
        r == (a@ == b@),
{
    if a.len() != b.len() {
        return false;
    }
    let mut i: usize = 0;
    while i < a.len()
        invariant
            i <= a.len(),
            a.len() == b.len(),
            a@.take(i as int) == b@.take(i as int),
        decreases a.len() - i,
    {
        if a[i] != b[i] {
            return false;
        }
        i = i + 1;
        assert(a@.take(i as int) =~= a@.take(i - 1).push(a@[i - 1]));
        assert(b@.take(i as int) =~= b@.take(i - 1).push(b@[i - 1]));
    }
    assert(a@.take(a.len() as int) =~= a@);
    assert(b@.take(b.len() as int) =~= b@);
    true
}

/// Exec form of [`float_equal`].
pub fn bits_equal(a: u64, b: u64) -> (r: bool)
    ensures
        r == float_equal(a, b),
{
    !bits_is_nan(a) && !bits_is_nan(b) && (a == b || (bits_magnitude(a) == 0 && bits_magnitude(b)
        == 0))
}

impl Stack {
    /// Whether the handles `a` and `b` name equal values, following
    /// handles `depth` deep.
    pub fn refs_equal(&self, a: StackObjectRef, b: StackObjectRef, depth: usize) -> (r: bool)
        ensures
            r == refs_equal(self@.objects, a, b, depth as nat),
        decreases depth, 0nat,
    {
        if a.0 == b.0 {
            return true;
        }
        if depth == 0 || a.0 >= self.objects.len() || b.0 >= self.objects.len() {
            return false;
        }
        self.values_equal(&self.objects[a.0], &self.objects[b.0], depth - 1)
    }

    fn all_equal(&self, a: &Vec<StackObjectRef>, b: &Vec<StackObjectRef>, depth: usize) -> (r: bool)
        ensures
            r == all_equal(self@.objects, a@, b@, depth as nat),
        decreases depth, 1nat,
    {
        if a.len() != b.len() {
            return false;
        }
        let mut i: usize = 0;
        while i < a.len()
            invariant
                i <= a.len(),
                a.len() == b.len(),
                forall|k: int|
                    0 <= k < i ==> refs_equal(self@.objects, #[trigger] a@[k], b@[k], depth as nat),
            decreases a.len() - i,
        {
            if !self.refs_equal(a[i], b[i], depth) {
                return false;
            }
            i = i + 1;
        }
        true
    }

    fn member_in(&self, m: StackObjectRef, b: &Vec<StackObjectRef>, depth: usize) -> (r: bool)
        ensures
            r == member_in(self@.objects, m, b@, depth as nat),
        decreases depth, 1nat,
    {
        let mut j: usize = 0;
        while j < b.len()
            invariant
                j <= b.len(),
                forall|k: int|
                    0 <= k < j ==> !refs_equal(self@.objects, m, #[trigger] b@[k], depth as nat),
            decreases b.len() - j,
        {
            if self.refs_equal(m, b[j], depth) {
                return true;
            }
            j = j + 1;
        }
        false
    }

    fn pair_in(
        &self,
        k: StackObjectRef,
        v: StackObjectRef,
        b: &Vec<(StackObjectRef, StackObjectRef)>,
        depth: usize,
    ) -> (r: bool)
        ensures
            r == pair_in(self@.objects, k, v, b@, depth as nat),
        decreases depth, 1nat,
    {
        let mut j: usize = 0;
        while j < b.len()
            invariant
                j <= b.len(),
                forall|i: int|
                    0 <= i < j ==> !(refs_equal(self@.objects, k, (#[trigger] b@[i]).0, depth as nat)
                        && refs_equal(self@.objects, v, b@[i].1, depth as nat)),
            decreases b.len() - j,
        {
            if self.refs_equal(k, b[j].0, depth) && self.refs_equal(v, b[j].1, depth) {
                return true;
            }
            j = j + 1;
        }
        false
    }

    fn all_members_in(&self, a: &Vec<StackObjectRef>, b: &Vec<StackObjectRef>, depth: usize) -> (r:
        bool)
        ensures
            r == all_members_in(self@.objects, a@, b@, depth as nat),
        decreases depth, 2nat,
    {
        if a.len() != b.len() {
            return false;
        }
        let mut i: usize = 0;
        while i < a.len()
            invariant
                i <= a.len(),
                a.len() == b.len(),
                forall|k: int|
                    0 <= k < i ==> member_in(self@.objects, #[trigger] a@[k], b@, depth as nat),
            decreases a.len() - i,
        {
            if !self.member_in(a[i], b, depth) {
                return false;
            }
            i = i + 1;
        }
        true
    }

    fn all_pairs_in(
        &self,
        a: &Vec<(StackObjectRef, StackObjectRef)>,
        b: &Vec<(StackObjectRef, StackObjectRef)>,
        depth: usize,
    ) -> (r: bool)
        ensures
            r == all_pairs_in(self@.objects, a@, b@, depth as nat),
        decreases depth, 2nat,
    {
        if a.len() != b.len() {
            return false;
        }
        let mut i: usize = 0;
        while i < a.len()
            invariant
                i <= a.len(),
                a.len() == b.len(),
                forall|k: int|
                    0 <= k < i ==> pair_in(
                        self@.objects,
                        (#[trigger] a@[k]).0,
                        a@[k].1,
                        b@,
                        depth as nat,
                    ),
            decreases a.len() - i,
        {
            if !self.pair_in(a[i].0, a[i].1, b, depth) {
                return false;
            }
            i = i + 1;
        }
        true
    }

    /// Whether two values are equal, following handles `depth` deep.
    pub fn values_equal(&self, x: &StackObject, y: &StackObject, depth: usize) -> (r: bool)
        ensures
            r == values_equal(self@.objects, x@, y@, depth as nat),
        decreases depth, 3nat,
    {
        match (x, y) {
            (StackObject::Int(a), StackObject::Int(b)) => *a == *b,
            (StackObject::Float(a), StackObject::Float(b)) => bits_equal(*a, *b),
            (StackObject::Bool(a), StackObject::Bool(b)) => *a == *b,
            (StackObject::Null, StackObject::Null) => true,
            (StackObject::Bytes(a), StackObject::Bytes(b)) => bytes_equal(a, b),
            (StackObject::String(a), StackObject::String(b)) => bytes_equal(a, b),
            (StackObject::ByteArray(a), StackObject::ByteArray(b)) => bytes_equal(a, b),
            (StackObject::List(a), StackObject::List(b)) => self.all_equal(a, b, depth),
            (StackObject::Tuple(a), StackObject::Tuple(b)) => self.all_equal(a, b, depth),
            (StackObject::Dict(a), StackObject::Dict(b)) => self.all_pairs_in(a, b, depth),
            (StackObject::MutableSet(a), StackObject::MutableSet(b)) => self.all_members_in(
                a,
                b,
                depth,
            ),
            (StackObject::FrozenSet(a), StackObject::FrozenSet(b)) => self.all_members_in(
                a,
                b,
                depth,
            ),
            (StackObject::Mark, StackObject::Mark) => true,
            (
                StackObject::Global { module: am, name: an },
                StackObject::Global { module: bm, name: bn },
            ) => bytes_equal(am, bm) && bytes_equal(an, bn),
            (StackObject::Instance(_), StackObject::Instance(_)) => true,
            (StackObject::Any, StackObject::Any) => true,
            (StackObject::Extension(a), StackObject::Extension(b)) => *a == *b,
            (StackObject::Callable(a), StackObject::Callable(b)) => self.refs_equal(*a, *b, depth),
            _ => false,
        }
    }

    /// The place of the key of `pairs` that is equal to `key`.
    pub fn find_pair(&self, pairs: &Vec<(StackObjectRef, StackObjectRef)>, key: StackObjectRef) -> (r:
        Option<usize>)
        ensures
            match r {
                Some(i) => i == find_key(self@.objects, pairs@, key, 0) && i < pairs@.len(),
                None => find_key(self@.objects, pairs@, key, 0) == -1,
            },
    {
        let mut i: usize = 0;
        while i < pairs.len()
            invariant
                i <= pairs.len(),
                find_key(self@.objects, pairs@, key, 0) == find_key(
                    self@.objects,
                    pairs@,
                    key,
                    i as int,
                ),
            decreases pairs.len() - i,
        {
            if self.refs_equal(pairs[i].0, key, EQUALITY_DEPTH) {
                return Some(i);
            }
            i = i + 1;
        }
        None
    }

    /// The place of the member of `items` that is equal to `item`.
    pub fn find_item(&self, items: &Vec<StackObjectRef>, item: StackObjectRef) -> (r: Option<usize>)
        ensures
            match r {
                Some(i) => i == find_member(self@.objects, items@, item, 0) && i < items@.len(),
                None => find_member(self@.objects, items@, item, 0) == -1,
            },
    {
        let mut i: usize = 0;
        while i < items.len()
            invariant
                i <= items.len(),
                find_member(self@.objects, items@, item, 0) == find_member(
                    self@.objects,
                    items@,
                    item,
                    i as int,
                ),
            decreases items.len() - i,
        {
            if self.refs_equal(items[i], item, EQUALITY_DEPTH) {
                return Some(i);
            }
            i = i + 1;
        }
        None
    }

    /// Puts `value` under `key` into `pairs`, as [`dict_put`] says.
    pub fn put_pair(
        &self,
        pairs: &mut Vec<(StackObjectRef, StackObjectRef)>,
        key: StackObjectRef,
        value: StackObjectRef,
    )
        ensures
            final(pairs)@ == dict_put(self@.objects, old(pairs)@, key, value),
    {
        match self.find_pair(pairs, key) {
            Some(i) => {
                let kept = pairs[i].0;
                pairs[i] = (kept, value);
            },
            None => {
                pairs.push((key, value));
            },
        }
    }

    /// Makes `item` a member of `items`, as [`set_put`] says.
    pub fn put_member(&self, items: &mut Vec<StackObjectRef>, item: StackObjectRef)
        ensures
            final(items)@ == set_put(self@.objects, old(items)@, item),
    {
        match self.find_item(items, item) {
            Some(_) => {},
            None => {
                items.push(item);
            },
        }
    }

    /// Puts `value` under `key` in the mapping that `r` names.
    pub fn dict_insert(&mut self, r: StackObjectRef, key: StackObjectRef, value: StackObjectRef)
        requires
            old(self)@.holds(r),
            old(self)@.object(r) is Dict,
        ensures
            final(self)@ == old(self)@.put_pair(r, key, value),
    {
        let found: Option<usize> = match &self.objects[r.0] {
            StackObject::Dict(pairs) => self.find_pair(pairs, key),
            _ => None,
        };
        match &mut self.objects[r.0] {
            StackObject::Dict(pairs) => {
                match found {
                    Some(i) => {
                        let kept = pairs[i].0;
                        pairs[i] = (kept, value);
                    },
                    None => {
                        pairs.push((key, value));
                    },
                }
            },
            _ => {},
        }
        assert(self@.objects =~= old(self)@.put_pair(r, key, value).objects);
    }

    /// Puts each of `more` into the mapping that `r` names, first to last.
    pub fn dict_extend(&mut self, r: StackObjectRef, more: &Vec<(StackObjectRef, StackObjectRef)>)
        requires
            old(self)@.holds(r),
            old(self)@.object(r) is Dict,
        ensures
            final(self)@ == old(self)@.put_pairs(r, more@),
    {
        let mut i: usize = 0;
        assert(more@.take(0) =~= Seq::<(StackObjectRef, StackObjectRef)>::empty());
        while i < more.len()
            invariant
                i <= more.len(),
                old(self)@.holds(r),
                old(self)@.object(r) is Dict,
                self@ == old(self)@.put_pairs(r, more@.take(i as int)),
            decreases more.len() - i,
        {
            proof {
                lemma_put_keeps_kind(old(self)@, r, more@.take(i as int), Seq::empty());
            }
            let pair = more[i];
            self.dict_insert(r, pair.0, pair.1);
            i = i + 1;
            assert(more@.take(i as int).drop_last() =~= more@.take(i - 1));
        }
        assert(more@.take(more.len() as int) =~= more@);
    }

    /// Makes `item` a member of the set that `r` names.
    pub fn set_insert(&mut self, r: StackObjectRef, item: StackObjectRef)
        requires
            old(self)@.holds(r),
            old(self)@.object(r) is MutableSet,
        ensures
            final(self)@ == old(self)@.put_member(r, item),
    {
        let found: Option<usize> = match &self.objects[r.0] {
            StackObject::MutableSet(items) => self.find_item(items, item),
            _ => None,
        };
        match &mut self.objects[r.0] {
            StackObject::MutableSet(items) => {
                match found {
                    Some(_) => {},
                    None => {
                        items.push(item);
                    },
                }
            },
            _ => {},
        }
        assert(self@.objects =~= old(self)@.put_member(r, item).objects);
    }

    /// Makes each of `more` a member of the set that `r` names, first to
    /// last.
    pub fn set_extend(&mut self, r: StackObjectRef, more: &Vec<StackObjectRef>)
        requires
            old(self)@.holds(r),
            old(self)@.object(r) is MutableSet,
        ensures
            final(self)@ == old(self)@.put_members(r, more@),
    {
        let mut i: usize = 0;
        assert(more@.take(0) =~= Seq::<StackObjectRef>::empty());
        while i < more.len()
            invariant
                i <= more.len(),
                old(self)@.holds(r),
                old(self)@.object(r) is MutableSet,
                self@ == old(self)@.put_members(r, more@.take(i as int)),
            decreases more.len() - i,
        {
            proof {
                lemma_put_keeps_kind(old(self)@, r, Seq::empty(), more@.take(i as int));
            }
            self.set_insert(r, more[i]);
            i = i + 1;
            assert(more@.take(i as int).drop_last() =~= more@.take(i - 1));
        }
        assert(more@.take(more.len() as int) =~= more@);
    }
}

/// `h` mixed with `v`: 31 times `h`, plus `v`, in 64 bits.
pub open spec fn mix(h: u64, v: u64) -> u64 {
    ((h * 31 + v) % 0x1_0000_0000_0000_0000) as u64
}

/// `h` mixed with each of the first `n` bytes of `bytes` in turn.
pub open spec fn mix_bytes(h: u64, bytes: Seq<u8>, n: int) -> u64
    decreases n,
{
    if n <= 0 {
        h
    } else {
        mix(mix_bytes(h, bytes, n - 1), bytes[n - 1] as u64)
    }
}

/// The hash of the value that the handle `r` names, following handles
/// `depth` deep; 0 where the handle names nothing or the depth is used up.
pub open spec fn ref_hash(heap: Seq<ObjectView>, r: StackObjectRef, depth: nat) -> u64
    decreases depth, 0nat,
{
    if depth == 0 || r.0 >= heap.len() {
        0
    } else {
        value_hash(heap, heap[r.0 as int], (depth - 1) as nat)
    }
}

/// `h` mixed with the hashes of the values that the first `n` of `items`
/// name, in turn.
pub open spec fn mix_refs(heap: Seq<ObjectView>, h: u64, items: Seq<StackObjectRef>, n: int, depth: nat) -> u64
    decreases depth, 1nat, n,
{
    if n <= 0 {
        h
    } else {
        mix(mix_refs(heap, h, items, n - 1, depth), ref_hash(heap, items[n - 1], depth))
    }
}

/// The hash of a value, following handles `depth` deep. Equal values have
/// equal hashes: the hash of a number that is a zero is that of 0.0, the
/// hash of a mapping or a set is made of the number of its entries alone,
/// which does not depend on their order, and every instance has the same
/// hash.
pub open spec fn value_hash(heap: Seq<ObjectView>, x: ObjectView, depth: nat) -> u64
    decreases depth, 2nat,
{
    match x {
        ObjectView::Int(a) => mix(1, a as u64),
        ObjectView::Float(a) => mix(
            2,
            if magnitude(a) == 0 {
                0
            } else {
                a
            },
        ),
        ObjectView::Bool(a) => mix(
            3,
            if a {
                1
            } else {
                0
            },
        ),
        ObjectView::Null => 4,
        ObjectView::Bytes(a) => mix_bytes(5, a, a.len() as int),
        ObjectView::String(a) => mix_bytes(6, a, a.len() as int),
        ObjectView::ByteArray(a) => mix_bytes(7, a, a.len() as int),
        ObjectView::List(a) => mix_refs(heap, 8, a, a.len() as int, depth),
        ObjectView::Tuple(a) => mix_refs(heap, 9, a, a.len() as int, depth),
        ObjectView::Dict(a) => mix(10, a.len() as u64),
        ObjectView::MutableSet(a) => mix(11, a.len() as u64),
        ObjectView::FrozenSet(a) => mix(12, a.len() as u64),
        ObjectView::Mark => 13,
        ObjectView::Global { module, name } => mix_bytes(
            mix_bytes(14, module, module.len() as int),
            name,
            name.len() as int,
        ),
        ObjectView::Instance(_) => 15,
        ObjectView::Callable(a) => mix(16, ref_hash(heap, a, depth)),
        ObjectView::Extension(a) => mix(17, a as u64),
        ObjectView::Any => 18,
    }
}

/// Handles that name equal values name values with equal hashes, however
/// deep the hashes follow handles.
pub proof fn lemma_equal_refs_hash_alike(
    heap: Seq<ObjectView>,
    a: StackObjectRef,
    b: StackObjectRef,
    depth: nat,
    n: nat,
)
    requires
        refs_equal(heap, a, b, depth),
    ensures
        ref_hash(heap, a, n) == ref_hash(heap, b, n),
    decreases depth, 0nat,
{
    if a != b && n > 0 {
        lemma_equal_values_hash_alike(
            heap,
            heap[a.0 as int],
            heap[b.0 as int],
            (depth - 1) as nat,
            (n - 1) as nat,
        );
    }
}

/// Sequences of handles that name equal values place by place mix to the
/// same hash.
pub proof fn lemma_equal_items_hash_alike(
    heap: Seq<ObjectView>,
    h: u64,
    a: Seq<StackObjectRef>,
    b: Seq<StackObjectRef>,
    k: int,
    depth: nat,
    n: nat,
)
    requires
        all_equal(heap, a, b, depth),
        0 <= k <= a.len(),
    ensures
        mix_refs(heap, h, a, k, n) == mix_refs(heap, h, b, k, n),
    decreases depth, 1nat, k,
{
    if k > 0 {
        lemma_equal_items_hash_alike(heap, h, a, b, k - 1, depth, n);
        assert(refs_equal(heap, a[k - 1], b[k - 1], depth));
        lemma_equal_refs_hash_alike(heap, a[k - 1], b[k - 1], depth, n);
    }
}

/// Equal values have equal hashes, however deep the hashes follow handles.
pub proof fn lemma_equal_values_hash_alike(
    heap: Seq<ObjectView>,
    x: ObjectView,
    y: ObjectView,
    depth: nat,
    n: nat,
)
    requires
        values_equal(heap, x, y, depth),
    ensures
        value_hash(heap, x, n) == value_hash(heap, y, n),
    decreases depth, 2nat,
{
    match x {
        ObjectView::List(a) => {
            lemma_equal_items_hash_alike(heap, 8, a, y->List_0, a.len() as int, depth, n);
        },
        ObjectView::Tuple(a) => {
            lemma_equal_items_hash_alike(heap, 9, a, y->Tuple_0, a.len() as int, depth, n);
        },
        ObjectView::Callable(a) => {
            lemma_equal_refs_hash_alike(heap, a, y->Callable_0, depth, n);
        },
        ObjectView::Float(a) => {
            let b = y->Float_0;
            assert(magnitude(a) == 0 && magnitude(b) == 0 || a == b);
        },
        _ => {},
    }
}

fn mix_in(h: u64, v: u64) -> (r: u64)
    ensures
        r == mix(h, v),
{
    (((h as u128) * 31 + (v as u128)) % 0x1_0000_0000_0000_0000u128) as u64
}

fn mix_in_bytes(h: u64, bytes: &Vec<u8>) -> (r: u64)
    ensures
        r == mix_bytes(h, bytes@, bytes@.len() as int),
{
    let mut hash: u64 = h;
    let mut i: usize = 0;
    while i < bytes.len()
        invariant
            i <= bytes.len(),
            hash == mix_bytes(h, bytes@, i as int),
        decreases bytes.len() - i,
    {
        hash = mix_in(hash, bytes[i] as u64);
        i = i + 1;
    }
    hash
}

impl Stack {
    /// The hash of the value that the handle `r` names, following handles
    /// `depth` deep.
    pub fn ref_hash(&self, r: StackObjectRef, depth: usize) -> (h: u64)
        ensures
            h == ref_hash(self@.objects, r, depth as nat),
        decreases depth, 0nat,
    {
        if depth == 0 || r.0 >= self.objects.len() {
            return 0;
        }
        self.value_hash(&self.objects[r.0], depth - 1)
    }

    fn mix_in_refs(&self, h: u64, items: &Vec<StackObjectRef>, depth: usize) -> (r: u64)
        ensures
            r == mix_refs(self@.objects, h, items@, items@.len() as int, depth as nat),
        decreases depth, 1nat,
    {
        let mut hash: u64 = h;
        let mut i: usize = 0;
        while i < items.len()
            invariant
                i <= items.len(),
                hash == mix_refs(self@.objects, h, items@, i as int, depth as nat),
            decreases items.len() - i,
        {
            hash = mix_in(hash, self.ref_hash(items[i], depth));
            i = i + 1;
        }
        hash
    }

    /// The hash of a value, following handles `depth` deep.
    pub fn value_hash(&self, x: &StackObject, depth: usize) -> (h: u64)
        ensures
            h == value_hash(self@.objects, x@, depth as nat),
        decreases depth, 2nat,
    {
        match x {
            StackObject::Int(a) => mix_in(1, *a as u64),
            StackObject::Float(a) => {
                if bits_magnitude(*a) == 0 {
                    mix_in(2, 0)
                } else {
                    mix_in(2, *a)
                }
            },
            StackObject::Bool(a) => {
                if *a {
                    mix_in(3, 1)
                } else {
                    mix_in(3, 0)
                }
            },
            StackObject::Null => 4,
            StackObject::Bytes(a) => mix_in_bytes(5, a),
            StackObject::String(a) => mix_in_bytes(6, a),
            StackObject::ByteArray(a) => mix_in_bytes(7, a),
            StackObject::List(a) => self.mix_in_refs(8, a, depth),
            StackObject::Tuple(a) => self.mix_in_refs(9, a, depth),
            StackObject::Dict(a) => mix_in(10, a.len() as u64),
            StackObject::MutableSet(a) => mix_in(11, a.len() as u64),
            StackObject::FrozenSet(a) => mix_in(12, a.len() as u64),
            StackObject::Mark => 13,
            StackObject::Global { module, name } => mix_in_bytes(mix_in_bytes(14, module), name),
            StackObject::Instance(_) => 15,
            StackObject::Callable(a) => mix_in(16, self.ref_hash(*a, depth)),
            StackObject::Extension(a) => mix_in(17, *a as u64),
            StackObject::Any => 18,
        }
    }
}

impl StackObject {
    /// The hash of this value, which is of the arena of `stack`. Values
    /// that are equal have the same hash.
    pub fn hash(&self, stack: &Stack) -> (h: u64)
        ensures
            h == value_hash(stack@.objects, self@, EQUALITY_DEPTH as nat),
    {
        stack.value_hash(self, EQUALITY_DEPTH)
    }

    /// Whether this value and `other`, both of the arena of `stack`, are
    /// equal by what they hold.
    pub fn eq(&self, other: &StackObject, stack: &Stack) -> (b: bool)
        ensures
            b == values_equal(stack@.objects, self@, other@, EQUALITY_DEPTH as nat),
    {
        stack.values_equal(self, other, EQUALITY_DEPTH)
    }
}

} // verus!
