//! The simulated value stack. Values live in an arena that the stack owns;
//! the stack, the containers and the reference table hold handles into it,
//! so that a value can be held in several places at once and a change made
//! through one holder is seen through every other.

use vstd::prelude::*;

verus! {

/// A handle of a value: its place in the arena. Two handles are equal when
/// they name the same place, whatever the values are.
#[derive(Debug, Clone, Copy, PartialEq, Eq, Structural, Hash)]
pub struct StackObjectRef(pub usize);

/// An object that a callable and its arguments, or its state, made.
#[derive(Debug, Clone, Copy, PartialEq, Eq, Structural)]
pub struct InstanceObject {
    /// The callable that was invoked.
    pub callable: StackObjectRef,
    /// The arguments, or the state that was applied last.
    pub args: StackObjectRef,
}

/// A value of the simulated machine. Containers hold handles, not values.
#[derive(Debug)]
pub enum StackObject {
    Int(i64),
    /// A binary64 value as its bit pattern.
    Float(u64),
    Bool(bool),
    Null,
    Bytes(Vec<u8>),
    /// Text as its bytes on the wire.
    String(Vec<u8>),
    ByteArray(Vec<u8>),
    List(Vec<StackObjectRef>),
    Tuple(Vec<StackObjectRef>),
    /// Keys and their values, in the order in which the keys came. A key
    /// comes in only where no key that is there equals it.
    Dict(Vec<(StackObjectRef, StackObjectRef)>),
    /// Members in the order in which they came. A member comes in only
    /// where no member that is there equals it.
    MutableSet(Vec<StackObjectRef>),
    /// Members in the order in which they came. A member comes in only
    /// where no member that is there equals it.
    FrozenSet(Vec<StackObjectRef>),
    /// The sentinel that delimits a group of items.
    Mark,
    Global { module: Vec<u8>, name: Vec<u8> },
    Instance(InstanceObject),
    Callable(StackObjectRef),
    Extension(u8),
    Any,
}

/// A value as the contracts see it.
pub enum ObjectView {
    Int(i64),
    Float(u64),
    Bool(bool),
    Null,
    Bytes(Seq<u8>),
    String(Seq<u8>),
    ByteArray(Seq<u8>),
    List(Seq<StackObjectRef>),
    Tuple(Seq<StackObjectRef>),
    Dict(Seq<(StackObjectRef, StackObjectRef)>),
    MutableSet(Seq<StackObjectRef>),
    FrozenSet(Seq<StackObjectRef>),
    Mark,
    Global { module: Seq<u8>, name: Seq<u8> },
    Instance(InstanceObject),
    Callable(StackObjectRef),
    Extension(u8),
    Any,
}

impl View for StackObject {
    type V = ObjectView;

    open spec fn view(&self) -> ObjectView {
        match self {
            StackObject::Int(v) => ObjectView::Int(*v),
            StackObject::Float(v) => ObjectView::Float(*v),
            StackObject::Bool(v) => ObjectView::Bool(*v),
            StackObject::Null => ObjectView::Null,
            StackObject::Bytes(v) => ObjectView::Bytes(v@),
            StackObject::String(v) => ObjectView::String(v@),
            StackObject::ByteArray(v) => ObjectView::ByteArray(v@),
            StackObject::List(v) => ObjectView::List(v@),
            StackObject::Tuple(v) => ObjectView::Tuple(v@),
            StackObject::Dict(v) => ObjectView::Dict(v@),
            StackObject::MutableSet(v) => ObjectView::MutableSet(v@),
            StackObject::FrozenSet(v) => ObjectView::FrozenSet(v@),
            StackObject::Mark => ObjectView::Mark,
            StackObject::Global { module, name } => ObjectView::Global {
                module: module@,
                name: name@,
            },
            StackObject::Instance(v) => ObjectView::Instance(*v),
            StackObject::Callable(v) => ObjectView::Callable(*v),
            StackObject::Extension(v) => ObjectView::Extension(*v),
            StackObject::Any => ObjectView::Any,
        }
    }
}

impl ObjectView {
    /// Whether the value can be invoked: a callable or a module reference.
    pub open spec fn is_callable(self) -> bool {
        self is Callable || self is Global
    }
}

/// A copy of a vector of handles.
pub fn copy_refs(items: &Vec<StackObjectRef>) -> (copy: Vec<StackObjectRef>)
    ensures
        copy@ == items@,
{
    let mut copy: Vec<StackObjectRef> = Vec::new();
    let mut i: usize = 0;
    while i < items.len()
        invariant
            i <= items.len(),
            copy@ == items@.take(i as int),
        decreases items.len() - i,
    {
        copy.push(items[i]);
        i = i + 1;
        assert(copy@ =~= items@.take(i as int));
    }
    assert(items@.take(items.len() as int) =~= items@);
    copy
}

/// A copy of a vector of pairs of handles.
pub fn copy_pairs(pairs: &Vec<(StackObjectRef, StackObjectRef)>) -> (copy: Vec<
    (StackObjectRef, StackObjectRef),
>)
    ensures
        copy@ == pairs@,
{
    let mut copy: Vec<(StackObjectRef, StackObjectRef)> = Vec::new();
    let mut i: usize = 0;
    while i < pairs.len()
        invariant
            i <= pairs.len(),
            copy@ == pairs@.take(i as int),
        decreases pairs.len() - i,
    {
        let pair = pairs[i];
        copy.push((pair.0, pair.1));
        i = i + 1;
        assert(copy@ =~= pairs@.take(i as int));
    }
    assert(pairs@.take(pairs.len() as int) =~= pairs@);
    copy
}

impl StackObject {
    /// A copy of the value. The handles in a container are copied, not the
    /// values that they name.
    pub fn duplicate(&self) -> (copy: StackObject)
        ensures
            copy@ == self@,
    {
        match self {
            StackObject::Int(v) => StackObject::Int(*v),
            StackObject::Float(v) => StackObject::Float(*v),
            StackObject::Bool(v) => StackObject::Bool(*v),
            StackObject::Null => StackObject::Null,
            StackObject::Bytes(v) => StackObject::Bytes(v.clone()),
            StackObject::String(v) => StackObject::String(v.clone()),
            StackObject::ByteArray(v) => StackObject::ByteArray(v.clone()),
            StackObject::List(v) => StackObject::List(copy_refs(v)),
            StackObject::Tuple(v) => StackObject::Tuple(copy_refs(v)),
            StackObject::Dict(v) => StackObject::Dict(copy_pairs(v)),
            StackObject::MutableSet(v) => StackObject::MutableSet(copy_refs(v)),
            StackObject::FrozenSet(v) => StackObject::FrozenSet(copy_refs(v)),
            StackObject::Mark => StackObject::Mark,
            StackObject::Global { module, name } => StackObject::Global {
                module: module.clone(),
                name: name.clone(),
            },
            StackObject::Instance(v) => StackObject::Instance(*v),
            StackObject::Callable(v) => StackObject::Callable(*v),
            StackObject::Extension(v) => StackObject::Extension(*v),
            StackObject::Any => StackObject::Any,
        }
    }
}

/// The stack and its arena as the contracts see them.
pub struct StackView {
    /// The handles on the stack, bottom first.
    pub inner: Seq<StackObjectRef>,
    /// The values of the arena, by handle.
    pub objects: Seq<ObjectView>,
}

impl StackView {
    /// The arena is no larger than a machine can hold, and every handle on
    /// the stack names a value of it.
    pub open spec fn wf(self) -> bool {
        &&& self.objects.len() <= usize::MAX
        &&& forall|i: int|
            0 <= i < self.inner.len() ==> (#[trigger] self.inner[i]).0 < self.objects.len()
    }

    /// Whether the handle names a value of the arena.
    pub open spec fn holds(self, r: StackObjectRef) -> bool {
        r.0 < self.objects.len()
    }

    /// The value that a handle names.
    pub open spec fn object(self, r: StackObjectRef) -> ObjectView {
        self.objects[r.0 as int]
    }

    /// The value in the stack slot `i`, counted from the bottom.
    pub open spec fn slot(self, i: int) -> ObjectView {
        self.objects[self.inner[i].0 as int]
    }

    /// The depth of the stack.
    pub open spec fn len(self) -> nat {
        self.inner.len()
    }

    /// The value at `depth` below the top; the top has depth 0.
    pub open spec fn at_depth(self, depth: int) -> ObjectView {
        self.slot(self.inner.len() - 1 - depth)
    }

    /// The topmost slot below `n` that holds a marker, or -1.
    pub open spec fn mark_below(self, n: int) -> int
        decreases n,
    {
        if n <= 0 {
            -1
        } else if self.slot(n - 1) is Mark {
            n - 1
        } else {
            self.mark_below(n - 1)
        }
    }

    /// The slot of the topmost marker, or -1 where the stack holds none.
    pub open spec fn mark_top(self) -> int {
        self.mark_below(self.inner.len() as int)
    }

    /// The stack with its handles replaced.
    pub open spec fn with_inner(self, inner: Seq<StackObjectRef>) -> StackView {
        StackView { inner, objects: self.objects }
    }

    /// The stack with one more value in the arena, not on the stack.
    pub open spec fn allocate(self, value: ObjectView) -> StackView {
        StackView { inner: self.inner, objects: self.objects.push(value) }
    }

    /// The handle that the next value of the arena gets.
    pub open spec fn next_ref(self) -> StackObjectRef {
        StackObjectRef(self.objects.len() as usize)
    }

    /// The stack with a new value on top.
    pub open spec fn push(self, value: ObjectView) -> StackView {
        StackView { inner: self.inner.push(self.next_ref()), objects: self.objects.push(value) }
    }

    /// The stack with a handle on top.
    pub open spec fn push_ref(self, r: StackObjectRef) -> StackView {
        StackView { inner: self.inner.push(r), objects: self.objects }
    }

    /// The stack without its top `n` handles.
    pub open spec fn drop(self, n: int) -> StackView {
        StackView { inner: self.inner.take(self.inner.len() - n), objects: self.objects }
    }

    /// The stack with another value in the place of the one that `r` names.
    pub open spec fn store(self, r: StackObjectRef, value: ObjectView) -> StackView {
        StackView { inner: self.inner, objects: self.objects.update(r.0 as int, value) }
    }

    /// The top handle of the stack.
    pub open spec fn top(self) -> StackObjectRef {
        self.inner.last()
    }
}

/// The mark search finds a marker below `n`, or nothing.
pub proof fn lemma_mark_below(s: StackView, n: int)
    requires
        0 <= n <= s.inner.len(),
    ensures
        -1 <= s.mark_below(n) < n,
        s.mark_below(n) >= 0 ==> s.slot(s.mark_below(n)) is Mark,
        forall|i: int| s.mark_below(n) < i < n ==> !(#[trigger] s.slot(i) is Mark),
    decreases n,
{
    if n > 0 && !(s.slot(n - 1) is Mark) {
        lemma_mark_below(s, n - 1);
    }
}

/// The simulated stack together with the arena of its values.
#[derive(Debug)]
pub struct Stack {
    /// The handles on the stack, bottom first.
    pub inner: Vec<StackObjectRef>,
    /// The arena: every value that was made since the last reset.
    pub objects: Vec<StackObject>,
}

impl View for Stack {
    type V = StackView;

    open spec fn view(&self) -> StackView {
        StackView {
            inner: self.inner@,
            objects: Seq::new(self.objects.len() as nat, |i: int| self.objects[i]@),
        }
    }
}

impl Default for Stack {
    fn default() -> (stack: Self)
        ensures
            stack@.inner.len() == 0,
            stack@.objects.len() == 0,
    {
        Stack { inner: Vec::new(), objects: Vec::new() }
    }
}

impl Stack {
    /// An empty stack with an empty arena.
    pub fn new() -> (stack: Self)
        ensures
            stack@.inner.len() == 0,
            stack@.objects.len() == 0,
            stack@.wf(),
    {
        Stack { inner: Vec::new(), objects: Vec::new() }
    }

    /// Empties the stack and the arena.
    pub fn reset(&mut self)
        ensures
            final(self)@.inner.len() == 0,
            final(self)@.objects.len() == 0,
            final(self)@.wf(),
    {
        self.inner.clear();
        self.objects.clear();
    }

    /// Puts a value into the arena and gives its handle; the stack stays.
    pub fn allocate(&mut self, value: StackObject) -> (r: StackObjectRef)
        ensures
            final(self)@ == old(self)@.allocate(value@),
            r == old(self)@.next_ref(),
    {
        let r = StackObjectRef(self.objects.len());
        self.objects.push(value);
        assert(self@.objects =~= old(self)@.objects.push(value@));
        r
    }

    /// Puts a new value on top of the stack.
    pub fn push(&mut self, value: StackObject)
        ensures
            final(self)@ == old(self)@.push(value@),
    {
        let r = self.allocate(value);
        self.inner.push(r);
    }

    /// Takes the top handle off the stack; the value stays in the arena.
    pub fn pop(&mut self) -> (r: Option<StackObjectRef>)
        ensures
            old(self)@.inner.len() == 0 ==> r is None && final(self)@ == old(self)@,
            old(self)@.inner.len() > 0 ==> r == Some(old(self)@.top()) && final(self)@ == old(self)@.drop(1),
    {
        let r = self.inner.pop();
        assert(self@.objects =~= old(self)@.objects);
        r
    }

    /// The top handle, if there is one.
    pub fn peek(&self) -> (r: Option<StackObjectRef>)
        ensures
            self@.inner.len() == 0 ==> r is None,
            self@.inner.len() > 0 ==> r == Some(self@.top()),
    {
        if self.inner.len() == 0 {
            None
        } else {
            Some(self.inner[self.inner.len() - 1])
        }
    }

    /// The depth of the stack.
    pub fn len(&self) -> (n: usize)
        ensures
            n == self@.inner.len(),
    {
        self.inner.len()
    }

    /// The value that a handle names.
    pub fn get(&self, r: StackObjectRef) -> (value: &StackObject)
        requires
            self@.holds(r),
        ensures
            value@ == self@.object(r),
    {
        &self.objects[r.0]
    }

    /// Puts another value in the place of the one that `r` names; every
    /// holder of the handle sees the new value.
    pub fn store(&mut self, r: StackObjectRef, value: StackObject)
        requires
            old(self)@.holds(r),
        ensures
            final(self)@ == old(self)@.store(r, value@),
    {
        self.objects[r.0] = value;
        assert(self@.objects =~= old(self)@.objects.update(r.0 as int, value@));
    }
}

impl Stack {
    /// Puts `item` at the end of the list that `r` names.
    pub fn list_push(&mut self, r: StackObjectRef, item: StackObjectRef)
        requires
            old(self)@.holds(r),
            old(self)@.object(r) is List,
        ensures
            final(self)@ == old(self)@.store(
                r,
                ObjectView::List(old(self)@.object(r)->List_0.push(item)),
            ),
    {
        match &mut self.objects[r.0] {
            StackObject::List(items) => {
                items.push(item);
            },
            _ => {},
        }
        assert(self@.objects =~= old(self)@.objects.update(
            r.0 as int,
            ObjectView::List(old(self)@.object(r)->List_0.push(item)),
        ));
    }

    /// Puts `items` at the end of the list that `r` names.
    pub fn list_extend(&mut self, r: StackObjectRef, items: &Vec<StackObjectRef>)
        requires
            old(self)@.holds(r),
            old(self)@.object(r) is List,
        ensures
            final(self)@ == old(self)@.store(
                r,
                ObjectView::List(old(self)@.object(r)->List_0 + items@),
            ),
    {
        let mut i: usize = 0;
        assert(old(self)@.object(r)->List_0 + items@.take(0) =~= old(self)@.object(r)->List_0);
        assert(self@.objects =~= old(self)@.objects.update(r.0 as int, old(self)@.object(r)));
        while i < items.len()
            invariant
                i <= items.len(),
                self@.holds(r),
                old(self)@.holds(r),
                old(self)@.object(r) is List,
                self@ == old(self)@.store(
                    r,
                    ObjectView::List(old(self)@.object(r)->List_0 + items@.take(i as int)),
                ),
            decreases items.len() - i,
        {
            let ghost before = self@;
            self.list_push(r, items[i]);
            i = i + 1;
            assert(items@.take(i as int) =~= items@.take(i - 1).push(items@[i - 1]));
            assert((old(self)@.object(r)->List_0 + items@.take(i - 1)).push(items@[i - 1])
                =~= old(self)@.object(r)->List_0 + items@.take(i as int));
            assert(self@.objects =~= old(self)@.objects.update(
                r.0 as int,
                ObjectView::List(old(self)@.object(r)->List_0 + items@.take(i as int)),
            ));
        }
        assert(items@.take(items.len() as int) =~= items@);
    }

    /// Takes the top `n` handles off the stack.
    pub fn drop_top(&mut self, n: usize)
        requires
            n <= old(self)@.inner.len(),
        ensures
            final(self)@ == old(self)@.drop(n as int),
    {
        let len: usize = self.inner.len();
        self.inner.truncate(len - n);
        assert(self@.inner =~= old(self)@.inner.take(old(self)@.inner.len() - n));
        assert(self@.objects =~= old(self)@.objects);
    }

    /// Puts a handle on top of the stack.
    pub fn push_ref(&mut self, r: StackObjectRef)
        ensures
            final(self)@ == old(self)@.push_ref(r),
    {
        self.inner.push(r);
        assert(self@.objects =~= old(self)@.objects);
    }
}

impl StackObjectRef {
    /// Puts `obj` into the arena of `stack` and gives its handle; the stack
    /// itself stays.
    pub fn new(stack: &mut Stack, obj: StackObject) -> (r: StackObjectRef)
        ensures
            final(stack)@ == old(stack)@.allocate(obj@),
            r == old(stack)@.next_ref(),
    {
        stack.allocate(obj)
    }

    /// The value that the handle names in the arena of `stack`, for
    /// changing it in place: every holder of the handle sees the change.
    pub fn borrow_mut<'a>(&self, stack: &'a mut Stack) -> (value: &'a mut StackObject)
        requires
            old(stack)@.holds(*self),
        ensures
            value@ == old(stack)@.object(*self),
            final(stack).inner@ == old(stack).inner@,
            final(stack).objects@ == old(stack).objects@.update(self.0 as int, *final(value)),
    {
        &mut stack.objects[self.0]
    }

    /// The value that the handle names in the arena of `stack`.
    pub fn borrow<'a>(&self, stack: &'a Stack) -> (value: &'a StackObject)
        requires
            stack@.holds(*self),
        ensures
            value@ == stack@.object(*self),
    {
        stack.get(*self)
    }

    /// The module and the name of the module reference that the handle
    /// names, directly or through one callable or instance.
    pub fn as_global(&self, stack: &Stack) -> (r: Option<(Vec<u8>, Vec<u8>)>)
        requires
            stack@.holds(*self),
        ensures
            match global_behind(stack@, *self) {
                Some(g) => r is Some && r->Some_0.0@ == stack@.object(g)->Global_module
                    && r->Some_0.1@ == stack@.object(g)->Global_name,
                None => r is None,
            },
    {
        let target: StackObjectRef = match stack.get(*self) {
            StackObject::Global { module: _, name: _ } => *self,
            StackObject::Callable(inner) => *inner,
            StackObject::Instance(inst) => inst.callable,
            _ => {
                return None;
            },
        };
        if target.0 >= stack.objects.len() {
            return None;
        }
        match stack.get(target) {
            StackObject::Global { module, name } => Some((module.clone(), name.clone())),
            _ => None,
        }
    }

    /// The contents of the byte string that the handle names.
    pub fn as_bytes(&self, stack: &Stack) -> (r: Option<Vec<u8>>)
        requires
            stack@.holds(*self),
        ensures
            match stack@.object(*self) {
                ObjectView::Bytes(b) => r is Some && r->Some_0@ == b,
                _ => r is None,
            },
    {
        match stack.get(*self) {
            StackObject::Bytes(b) => Some(b.clone()),
            _ => None,
        }
    }
}

/// The handle of the module reference behind `r`: `r` itself, or what a
/// callable wraps, or the callable of an instance; nothing where that is no
/// module reference of the arena.
pub open spec fn global_behind(s: StackView, r: StackObjectRef) -> Option<StackObjectRef> {
    let target = match s.object(r) {
        ObjectView::Global { module, name } => Some(r),
        ObjectView::Callable(inner) => Some(inner),
        ObjectView::Instance(inst) => Some(inst.callable),
        _ => None,
    };
    match target {
        Some(t) => if s.holds(t) && s.object(t) is Global {
            Some(t)
        } else {
            None
        },
        None => None,
    }
}

} // verus!
