//! The simulation: each instruction's effect on the stack, the arena and
//! the reference table.

use vstd::prelude::*;
use vstd::slice::{slice_subrange, slice_to_vec};
use crate::decimal::{parse_decimal_i64, parse_decimal_i64_before, parse_decimal_index, strip_trailing_bound};
use crate::generator::effects::{
    apply, binary_index, effect, builtins_text, first_line, line_end, long_value,
    object_text, operand, operand_fits, persistent_text, text_index,
};
use crate::generator::Generator;
use crate::opcodes::OpcodeKind;
use crate::protocol::Version;
use crate::equality::{dict_put_all, lemma_put_keeps_kind, set_put_all};
use crate::stack::{InstanceObject, Stack, StackObject, StackObjectRef};
use crate::state::{lemma_memo_place, lemma_memo_put, memo_has, memo_place, State};
use crate::wire::{read_be, read_le, to_signed32, to_signed64};

verus! {

/// An operand as the contracts see it.
pub open spec fn operand_view(arg: Option<&[u8]>) -> Option<Seq<u8>> {
    match arg {
        Some(bytes) => Some(bytes@),
        None => None,
    }
}

/// The place of the first line feed of `text` from `from` on.
fn find_line_end(text: &[u8], from: usize) -> (end: usize)
    requires
        from <= text.len(),
    ensures
        end == line_end(text@, from as int),
        from <= end <= text.len(),
{
    let mut i: usize = from;
    while i < text.len() && text[i] != 10
        invariant
            from <= i <= text.len(),
            line_end(text@, from as int) == line_end(text@, i as int),
        decreases text.len() - i,
    {
        i = i + 1;
    }
    i
}

fn copy_range(text: &[u8], lo: usize, hi: usize) -> (copy: Vec<u8>)
    requires
        lo <= hi <= text.len(),
    ensures
        copy@ == text@.subrange(lo as int, hi as int),
{
    slice_to_vec(slice_subrange(text, lo, hi))
}

fn operand_bytes(arg: Option<&[u8]>) -> (copy: Vec<u8>)
    ensures
        copy@ == operand(operand_view(arg)),
{
    match arg {
        Some(bytes) => {
            let copy = slice_to_vec(bytes);
            copy
        },
        None => {
            let copy: Vec<u8> = Vec::new();
            assert(copy@ =~= Seq::<u8>::empty());
            copy
        },
    }
}

fn builtins_bytes() -> (text: Vec<u8>)
    ensures
        text@ == builtins_text(),
{
    let mut text: Vec<u8> = Vec::new();
    text.push(98);
    text.push(117);
    text.push(105);
    text.push(108);
    text.push(116);
    text.push(105);
    text.push(110);
    text.push(115);
    assert(text@ =~= builtins_text());
    text
}

fn object_bytes() -> (text: Vec<u8>)
    ensures
        text@ == object_text(),
{
    let mut text: Vec<u8> = Vec::new();
    text.push(111);
    text.push(98);
    text.push(106);
    text.push(101);
    text.push(99);
    text.push(116);
    assert(text@ =~= object_text());
    text
}

fn persistent_bytes() -> (text: Vec<u8>)
    ensures
        text@ == persistent_text(),
{
    let mut text: Vec<u8> = Vec::new();
    text.push(112);
    text.push(101);
    text.push(114);
    text.push(115);
    text.push(105);
    text.push(115);
    text.push(116);
    text.push(101);
    text.push(110);
    text.push(116);
    text.push(95);
    text.push(111);
    text.push(98);
    text.push(106);
    text.push(101);
    text.push(99);
    text.push(116);
    assert(text@ =~= persistent_text());
    text
}

impl Stack {
    /// The slot of the topmost marker.
    pub fn topmost_mark(&self) -> (r: Option<usize>)
        requires
            self@.wf(),
        ensures
            match r {
                Some(i) => i == self@.mark_top() && i < self@.inner.len(),
                None => self@.mark_top() == -1,
            },
    {
        let mut n: usize = self.inner.len();
        while n > 0
            invariant
                n <= self@.inner.len(),
                self@.wf(),
                self@.mark_top() == self@.mark_below(n as int),
            decreases n,
        {
            let r = self.inner[n - 1];
            match self.get(r) {
                StackObject::Mark => {
                    return Some(n - 1);
                },
                _ => {},
            }
            n = n - 1;
        }
        None
    }

    /// Whether the value that `r` names is a marker.
    pub fn is_mark(&self, r: StackObjectRef) -> (b: bool)
        requires
            self@.holds(r),
        ensures
            b == (self@.object(r) is Mark),
    {
        match self.get(r) {
            StackObject::Mark => true,
            _ => false,
        }
    }

    /// The handle in the slot `depth` below the top.
    pub fn ref_at(&self, depth: usize) -> (r: StackObjectRef)
        requires
            depth < self@.inner.len(),
        ensures
            r == self@.inner[self@.inner.len() - 1 - depth],
    {
        self.inner[self.inner.len() - 1 - depth]
    }
}

impl State {
    /// Takes the group off the stack: the handles above the topmost
    /// marker, and the marker.
    pub fn take_group(&mut self) -> (items: Vec<StackObjectRef>)
        requires
            old(self)@.wf(),
        ensures
            items@ == old(self)@.stack.group(),
            final(self)@ == old(self)@.with_stack(old(self)@.stack.without_group()),
            final(self)@.wf(),
    {
        let mark = self.stack.topmost_mark();
        let len: usize = self.stack.inner.len();
        let start: usize = match mark {
            Some(m) => m + 1,
            None => 0,
        };
        let keep: usize = match mark {
            Some(m) => m,
            None => 0,
        };
        let mut items: Vec<StackObjectRef> = Vec::new();
        let mut i: usize = start;
        while i < len
            invariant
                start <= i <= len,
                len == self.stack.inner@.len(),
                items@ == self.stack.inner@.subrange(start as int, i as int),
            decreases len - i,
        {
            items.push(self.stack.inner[i]);
            i = i + 1;
            assert(items@ =~= self.stack.inner@.subrange(start as int, i as int));
        }
        assert(items@ =~= old(self)@.stack.group());
        self.stack.inner.truncate(keep);
        assert(self@.stack.inner =~= old(self)@.stack.without_group().inner);
        assert(self@.stack.objects =~= old(self)@.stack.objects);
        items
    }

    /// Takes the pairs of key and value off the stack, and the marker
    /// that ends them.
    pub fn take_pairs(&mut self) -> (pairs: Vec<(StackObjectRef, StackObjectRef)>)
        requires
            old(self)@.wf(),
        ensures
            pairs@ == old(self)@.stack.pairs_from(old(self)@.depth() as int),
            final(self)@ == old(self)@.without_pairs(),
            final(self)@.wf(),
    {
        let len: usize = self.stack.inner.len();
        let mut pairs: Vec<(StackObjectRef, StackObjectRef)> = Vec::new();
        let mut n: usize = len;
        let mut done: bool = false;
        let ghost stack = self@.stack;
        assert(pairs@ + stack.pairs_from(n as int) =~= stack.pairs_from(len as int));
        while !done && n > 0
            invariant
                n <= len,
                len == stack.inner.len(),
                stack == self@.stack,
                stack.wf(),
                stack.pairs_from(len as int) == pairs@ + (if done {
                    Seq::<(StackObjectRef, StackObjectRef)>::empty()
                } else {
                    stack.pairs_from(n as int)
                }),
                stack.height_after_pairs(len as int) == (if done {
                    n as int
                } else {
                    stack.height_after_pairs(n as int)
                }),
            decreases
                    (if done {
                        0int
                    } else {
                        n + 1
                    }),
        {
            let value = self.stack.inner[n - 1];
            if self.stack.is_mark(value) {
                n = n - 1;
                done = true;
                assert(pairs@ + Seq::<(StackObjectRef, StackObjectRef)>::empty() =~= pairs@);
            } else if n == 1 {
                n = 0;
                done = true;
                assert(pairs@ + Seq::<(StackObjectRef, StackObjectRef)>::empty() =~= pairs@);
            } else {
                let key = self.stack.inner[n - 2];
                let ghost before = pairs@;
                pairs.push((key, value));
                assert(before + stack.pairs_from(n as int) =~= pairs@ + stack.pairs_from(n - 2));
                n = n - 2;
            }
        }
        assert(pairs@ =~= stack.pairs_from(len as int));
        self.stack.inner.truncate(n);
        assert(self@.stack.inner =~= old(self)@.without_pairs().stack.inner);
        assert(self@.stack.objects =~= old(self)@.stack.objects);
        pairs
    }

    /// Puts a module reference into the arena and a callable that wraps it
    /// on top of the stack.
    pub fn push_global(&mut self, module: Vec<u8>, name: Vec<u8>)
        requires
            old(self)@.wf(),
        ensures
            final(self)@ == old(self)@.push_global(module@, name@),
            final(self)@.wf(),
    {
        let global = self.stack.allocate(StackObject::Global { module, name });
        self.stack.push(StackObject::Callable(global));
    }

    /// Puts a copy of the value that `r` names on top of the stack.
    pub fn push_copy(&mut self, r: StackObjectRef)
        requires
            old(self)@.wf(),
            old(self)@.stack.holds(r),
        ensures
            final(self)@ == old(self)@.push_copy(r),
            final(self)@.wf(),
    {
        let copy = self.stack.get(r).duplicate();
        self.stack.push(copy);
    }

    /// Puts a new value on top of the stack.
    pub fn push_value(&mut self, value: StackObject)
        requires
            old(self)@.wf(),
        ensures
            final(self)@ == old(self)@.push(value@),
            final(self)@.wf(),
    {
        self.stack.push(value);
    }

    /// Puts `value` into the arena and its handle into the reference table
    /// under `index`.
    pub fn put_value(&mut self, index: usize, value: StackObject)
        requires
            old(self)@.wf(),
        ensures
            final(self)@ == old(self)@.put(index, value@),
            final(self)@.wf(),
    {
        proof {
            lemma_memo_put(self@.memo, index, self@.stack.next_ref());
        }
        let r = self.stack.allocate(value);
        self.memo.insert(index, r);
        proof {
            let before = old(self)@.memo;
            let after = self@.memo;
            let p = memo_place(before, index, 0);
            lemma_memo_place(before, index, 0);
            assert forall|i: int| 0 <= i < after.len() implies self@.stack.holds(
                (#[trigger] after[i]).1,
            ) by {
                if memo_has(before, index) {
                    if i != p {
                        assert(after[i] == before[i]);
                    }
                } else {
                    if i < p {
                        assert(after[i] == before[i]);
                    } else if i > p {
                        assert(after[i] == before[i - 1]);
                    }
                }
            }
        }
    }

    fn op_pop(&mut self)
        requires
            old(self)@.wf(),
        ensures
            final(self)@ == old(self)@.effect_pop(),
            final(self)@.wf(),
    {
        if self.stack.len() > 0 {
            self.stack.drop_top(1);
        }
    }

    fn op_dup(&mut self)
        requires
            old(self)@.wf(),
        ensures
            final(self)@ == old(self)@.effect_dup(),
            final(self)@.wf(),
    {
        if self.stack.len() > 0 {
            let top = self.stack.ref_at(0);
            if !self.stack.is_mark(top) {
                self.stack.push_ref(top);
            }
        }
    }

    fn op_pop_mark(&mut self)
        requires
            old(self)@.wf(),
        ensures
            final(self)@ == old(self)@.effect_pop_mark(),
            final(self)@.wf(),
    {
        let _items = self.take_group();
    }

    fn op_append(&mut self)
        requires
            old(self)@.wf(),
        ensures
            final(self)@ == old(self)@.effect_append(),
            final(self)@.wf(),
    {
        if self.stack.len() < 2 {
            return ;
        }
        let item = self.stack.ref_at(0);
        let cell = self.stack.ref_at(1);
        self.stack.drop_top(1);
        let is_list: bool = match self.stack.get(cell) {
            StackObject::List(_) => true,
            _ => false,
        };
        if is_list {
            self.stack.list_push(cell, item);
        }
    }

    fn op_appends(&mut self)
        requires
            old(self)@.wf(),
        ensures
            final(self)@ == old(self)@.effect_appends(),
            final(self)@.wf(),
    {
        let items = self.take_group();
        if self.stack.len() > 0 {
            let cell = self.stack.ref_at(0);
            let is_list: bool = match self.stack.get(cell) {
                StackObject::List(_) => true,
                _ => false,
            };
            if is_list {
                self.stack.list_extend(cell, &items);
            }
        }
    }

    fn op_list(&mut self)
        requires
            old(self)@.wf(),
        ensures
            final(self)@ == old(self)@.effect_list(),
            final(self)@.wf(),
    {
        let items = self.take_group();
        self.stack.push(StackObject::List(items));
    }

    fn op_tuple(&mut self)
        requires
            old(self)@.wf(),
        ensures
            final(self)@ == old(self)@.effect_tuple(),
            final(self)@.wf(),
    {
        let items = self.take_group();
        self.stack.push(StackObject::Tuple(items));
    }

    /// Makes a tuple of the top `arity` items, if the stack is that deep.
    fn op_tuple_of(&mut self, arity: usize)
        requires
            old(self)@.wf(),
            1 <= arity <= 3,
        ensures
            arity == 1 ==> final(self)@ == old(self)@.effect_tuple1(),
            arity == 2 ==> final(self)@ == old(self)@.effect_tuple2(),
            arity == 3 ==> final(self)@ == old(self)@.effect_tuple3(),
            final(self)@.wf(),
    {
        let len: usize = self.stack.len();
        if len >= arity {
            let mut items: Vec<StackObjectRef> = Vec::new();
            let mut i: usize = len - arity;
            while i < len
                invariant
                    arity <= len,
                    len - arity <= i <= len,
                    len == self.stack.inner@.len(),
                    items@ == self.stack.inner@.subrange(len - arity, i as int),
                decreases len - i,
            {
                items.push(self.stack.inner[i]);
                i = i + 1;
                assert(items@ =~= self.stack.inner@.subrange(len - arity, i as int));
            }
            assert(items@ =~= old(self)@.stack.inner.skip(len - arity));
            self.stack.drop_top(arity);
            self.stack.push(StackObject::Tuple(items));
        }
    }

    fn op_dict(&mut self)
        requires
            old(self)@.wf(),
        ensures
            final(self)@ == old(self)@.effect_dict(),
            final(self)@.wf(),
    {
        let pairs = self.take_pairs();
        let mut entries: Vec<(StackObjectRef, StackObjectRef)> = Vec::new();
        let mut i: usize = 0;
        assert(pairs@.take(0) =~= Seq::<(StackObjectRef, StackObjectRef)>::empty());
        while i < pairs.len()
            invariant
                i <= pairs.len(),
                entries@ == dict_put_all(
                    self@.stack.objects,
                    Seq::<(StackObjectRef, StackObjectRef)>::empty(),
                    pairs@.take(i as int),
                ),
            decreases pairs.len() - i,
        {
            let pair = pairs[i];
            self.stack.put_pair(&mut entries, pair.0, pair.1);
            i = i + 1;
            assert(pairs@.take(i as int).drop_last() =~= pairs@.take(i - 1));
        }
        assert(pairs@.take(pairs.len() as int) =~= pairs@);
        self.stack.push(StackObject::Dict(entries));
    }

    fn op_set_item(&mut self)
        requires
            old(self)@.wf(),
        ensures
            final(self)@ == old(self)@.effect_set_item(),
            final(self)@.wf(),
    {
        if self.stack.len() < 3 {
            return ;
        }
        let value = self.stack.ref_at(0);
        let key = self.stack.ref_at(1);
        let cell = self.stack.ref_at(2);
        self.stack.drop_top(2);
        let is_dict: bool = match self.stack.get(cell) {
            StackObject::Dict(_) => true,
            _ => false,
        };
        if is_dict {
            self.stack.dict_insert(cell, key, value);
        }
    }

    fn op_set_items(&mut self)
        requires
            old(self)@.wf(),
        ensures
            final(self)@ == old(self)@.effect_set_items(),
            final(self)@.wf(),
    {
        let pairs = self.take_pairs();
        if self.stack.len() > 0 {
            let cell = self.stack.ref_at(0);
            let is_dict: bool = match self.stack.get(cell) {
                StackObject::Dict(_) => true,
                _ => false,
            };
            if is_dict {
                proof {
                    lemma_put_keeps_kind(self@.stack, cell, pairs@, Seq::empty());
                }
                self.stack.dict_extend(cell, &pairs);
            }
        }
    }

    fn op_add_items(&mut self)
        requires
            old(self)@.wf(),
        ensures
            final(self)@ == old(self)@.effect_add_items(),
            final(self)@.wf(),
    {
        let items = self.take_group();
        if self.stack.len() > 0 {
            let cell = self.stack.ref_at(0);
            let is_set: bool = match self.stack.get(cell) {
                StackObject::MutableSet(_) => true,
                _ => false,
            };
            if is_set {
                proof {
                    lemma_put_keeps_kind(self@.stack, cell, Seq::empty(), items@);
                }
                self.stack.set_extend(cell, &items);
            }
        }
    }

    fn op_frozen_set(&mut self)
        requires
            old(self)@.wf(),
        ensures
            final(self)@ == old(self)@.effect_frozen_set(),
            final(self)@.wf(),
    {
        let items = self.take_group();
        let mut members: Vec<StackObjectRef> = Vec::new();
        let mut i: usize = items.len();
        let ghost reversed = items@.reverse();
        assert(reversed.take(0) =~= Seq::<StackObjectRef>::empty());
        while i > 0
            invariant
                i <= items.len(),
                reversed == items@.reverse(),
                members@ == set_put_all(
                    self@.stack.objects,
                    Seq::<StackObjectRef>::empty(),
                    reversed.take(items.len() - i),
                ),
            decreases i,
        {
            i = i - 1;
            self.stack.put_member(&mut members, items[i]);
            assert(reversed.take(items.len() - i).drop_last() =~= reversed.take(
                items.len() - i - 1,
            ));
            assert(reversed.take(items.len() - i).last() == items@[i as int]);
        }
        assert(reversed.take(items.len() as int) =~= reversed);
        self.stack.push(StackObject::FrozenSet(members));
    }

    fn op_int(&mut self, arg: Option<&[u8]>)
        requires
            old(self)@.wf(),
        ensures
            final(self)@ == old(self)@.effect_int(operand_view(arg)),
            final(self)@.wf(),
    {
        let value: i64 = match arg {
            Some(text) => match parse_decimal_i64(text) {
                Some(v) => v,
                None => 0,
            },
            None => 0,
        };
        if !self.version.at_least(Version::V2) && (value == 0 || value == 1) {
            self.stack.push(StackObject::Bool(value == 1));
        } else {
            self.stack.push(StackObject::Int(value));
        }
    }

    fn op_bin_int(&mut self, arg: Option<&[u8]>, width: usize)
        requires
            old(self)@.wf(),
            width == 1 || width == 2 || width == 4,
        ensures
            width == 1 ==> final(self)@ == old(self)@.effect_bin_int1(operand_view(arg)),
            width == 2 ==> final(self)@ == old(self)@.effect_bin_int2(operand_view(arg)),
            width == 4 ==> final(self)@ == old(self)@.effect_bin_int(operand_view(arg)),
            final(self)@.wf(),
    {
        match arg {
            Some(bytes) => {
                if bytes.len() >= width {
                    let raw: u64 = read_le(bytes, 0, width);
                    assert(bytes@.subrange(0, width as int) =~= bytes@.take(width as int));
                    proof {
                        crate::wire::lemma_le_value_bound(bytes@.take(width as int));
                        crate::wire::lemma_pow256_values();
                        if width == 1 {
                            let one = bytes@.take(1);
                            assert(one.drop_last() =~= Seq::<u8>::empty());
                            assert(crate::wire::le_value(one.drop_last()) == 0);
                            assert(one.last() == bytes@[0]);
                            assert(one.len() == 1);
                            assert(crate::wire::pow256((one.len() - 1) as nat) == 1);
                            assert(one.last() as nat * crate::wire::pow256((one.len() - 1) as nat)
                                == one.last() as nat) by (nonlinear_arith)
                                requires
                                    crate::wire::pow256((one.len() - 1) as nat) == 1,
                            ;
                            assert(crate::wire::le_value(one) == bytes@[0]);
                        }
                    }
                    let value: i64 = if width == 4 {
                        to_signed32(raw as u32) as i64
                    } else {
                        raw as i64
                    };
                    self.stack.push(StackObject::Int(value));
                }
            },
            None => {},
        }
    }

    fn op_long(&mut self, arg: Option<&[u8]>)
        requires
            old(self)@.wf(),
        ensures
            final(self)@ == old(self)@.effect_long(operand_view(arg)),
            final(self)@.wf(),
    {
        let value: i64 = match arg {
            Some(text) => {
                let without_feeds: usize = strip_trailing_bound(text, text.len(), 10);
                assert(text@.take(text.len() as int) =~= text@);
                let without_letters: usize = strip_trailing_bound(text, without_feeds, 76);
                match parse_decimal_i64_before(text, without_letters) {
                    Some(v) => v,
                    None => 0,
                }
            },
            None => 0,
        };
        self.stack.push(StackObject::Int(value));
    }

    /// Reads the magnitude bytes `bytes[lo..lo + size]` of a long integer.
    fn read_long(bytes: &[u8], lo: usize, size: usize) -> (value: i64)
        requires
            lo + size <= bytes.len(),
        ensures
            value == long_value(bytes@.subrange(lo as int, lo + size)),
    {
        let used: usize = if size < 8 {
            size
        } else {
            8
        };
        let raw: u64 = read_le(bytes, lo, used);
        let ghost all = bytes@.subrange(lo as int, lo + size);
        assert(bytes@.subrange(lo as int, lo + used) =~= (if all.len() < 8 {
            all
        } else {
            all.take(8)
        }));
        to_signed64(raw)
    }

    fn op_long1(&mut self, arg: Option<&[u8]>)
        requires
            old(self)@.wf(),
        ensures
            final(self)@ == old(self)@.effect_long1(operand_view(arg)),
            final(self)@.wf(),
    {
        match arg {
            Some(bytes) => {
                if bytes.len() >= 1 {
                    let size: usize = bytes[0] as usize;
                    if bytes.len() > size {
                        let value: i64 = Self::read_long(bytes, 1, size);
                        self.stack.push(StackObject::Int(value));
                    }
                }
            },
            None => {},
        }
    }

    fn op_long4(&mut self, arg: Option<&[u8]>)
        requires
            old(self)@.wf(),
        ensures
            final(self)@ == old(self)@.effect_long4(operand_view(arg)),
            final(self)@.wf(),
    {
        match arg {
            Some(bytes) => {
                if bytes.len() >= 4 {
                    let raw: u64 = read_le(bytes, 0, 4);
                    assert(bytes@.subrange(0, 4) =~= bytes@.take(4));
                    proof {
                        crate::wire::lemma_le_value_bound(bytes@.take(4));
                        crate::wire::lemma_pow256_values();
                    }
                    if raw <= (bytes.len() - 4) as u64 {
                        let size: usize = raw as usize;
                        let value: i64 = Self::read_long(bytes, 4, size);
                        self.stack.push(StackObject::Int(value));
                    }
                }
            },
            None => {},
        }
    }

    fn op_float(&mut self, arg: Option<&[u8]>, always: bool)
        requires
            old(self)@.wf(),
        ensures
            always ==> final(self)@ == old(self)@.effect_float(operand_view(arg)),
            !always ==> final(self)@ == old(self)@.effect_bin_float(operand_view(arg)),
            final(self)@.wf(),
    {
        let bits: Option<u64> = match arg {
            Some(bytes) => {
                if bytes.len() >= 8 {
                    let raw: u64 = read_be(bytes, 0, 8);
                    assert(bytes@.subrange(0, 8) =~= bytes@.take(8));
                    Some(raw)
                } else {
                    None
                }
            },
            None => None,
        };
        match bits {
            Some(raw) => {
                self.stack.push(StackObject::Float(raw));
            },
            None => {
                if always {
                    self.stack.push(StackObject::Float(0));
                }
            },
        }
    }

    fn op_global(&mut self, arg: Option<&[u8]>)
        requires
            old(self)@.wf(),
        ensures
            final(self)@ == old(self)@.effect_global(operand_view(arg)),
            final(self)@.wf(),
    {
        match arg {
            Some(bytes) => {
                let first_end: usize = find_line_end(bytes, 0);
                if first_end < bytes.len() {
                    let second_end: usize = find_line_end(bytes, first_end + 1);
                    let module = copy_range(bytes, 0, first_end);
                    let name = copy_range(bytes, first_end + 1, second_end);
                    assert(module@ =~= first_line(bytes@));
                    self.push_global(module, name);
                }
            },
            None => {},
        }
    }

    fn op_stack_global(&mut self)
        requires
            old(self)@.wf(),
        ensures
            final(self)@ == old(self)@.effect_stack_global(),
            final(self)@.wf(),
    {
        let len: usize = self.stack.len();
        if len < 2 {
            self.stack.drop_top(len);
            return ;
        }
        let attr = self.stack.ref_at(0);
        let module = self.stack.ref_at(1);
        self.stack.drop_top(2);
        let names: Option<(Vec<u8>, Vec<u8>)> = match self.stack.get(module) {
            StackObject::String(module_text) => match self.stack.get(attr) {
                StackObject::String(name_text) => Some((module_text.clone(), name_text.clone())),
                _ => None,
            },
            _ => None,
        };
        match names {
            Some((module_text, name_text)) => {
                self.push_global(module_text, name_text);
            },
            None => {},
        }
    }

    /// The handle that a callable wraps, or the handle itself.
    fn unwrap_callable(&self, r: StackObjectRef) -> (inner: StackObjectRef)
        requires
            self@.stack.holds(r),
        ensures
            inner == self@.stack.unwrapped(r),
    {
        match self.stack.get(r) {
            StackObject::Callable(inner) => *inner,
            _ => r,
        }
    }

    fn op_reduce(&mut self)
        requires
            old(self)@.wf(),
        ensures
            final(self)@ == old(self)@.effect_reduce(),
            final(self)@.wf(),
    {
        if self.stack.len() < 2 {
            return ;
        }
        let args = self.stack.ref_at(0);
        let callable = self.stack.ref_at(1);
        let inner_callable = self.unwrap_callable(callable);
        self.stack.drop_top(2);
        self.stack.push(
            StackObject::Instance(InstanceObject { callable: inner_callable, args }),
        );
    }

    fn op_build(&mut self)
        requires
            old(self)@.wf(),
        ensures
            final(self)@ == old(self)@.effect_build(),
            final(self)@.wf(),
    {
        if self.stack.len() < 2 {
            return ;
        }
        let state = self.stack.ref_at(0);
        let target = self.stack.ref_at(1);
        self.stack.drop_top(2);
        let updated: Option<InstanceObject> = match self.stack.get(target) {
            StackObject::Instance(inst) => Some(
                InstanceObject { callable: inst.callable, args: state },
            ),
            _ => None,
        };
        match updated {
            Some(inst) => {
                self.stack.store(target, StackObject::Instance(inst));
            },
            None => {},
        }
        self.push_copy(target);
    }

    fn op_inst(&mut self, arg: Option<&[u8]>)
        requires
            old(self)@.wf(),
        ensures
            final(self)@ == old(self)@.effect_inst(operand_view(arg)),
            final(self)@.wf(),
    {
        match arg {
            Some(bytes) => {
                let first_end: usize = find_line_end(bytes, 0);
                if first_end < bytes.len() {
                    let second_end: usize = find_line_end(bytes, first_end + 1);
                    let module = copy_range(bytes, 0, first_end);
                    let name = copy_range(bytes, first_end + 1, second_end);
                    assert(module@ =~= first_line(bytes@));
                    let items = self.take_group();
                    let class = self.stack.allocate(StackObject::Global { module, name });
                    let args = self.stack.allocate(StackObject::Tuple(items));
                    self.stack.push(
                        StackObject::Instance(InstanceObject { callable: class, args }),
                    );
                    assert(self@.stack.inner =~= old(self)@.effect_inst(
                        operand_view(arg),
                    ).stack.inner);
                    assert(self@.stack.objects =~= old(self)@.effect_inst(
                        operand_view(arg),
                    ).stack.objects);
                }
            },
            None => {},
        }
    }

    fn op_obj(&mut self)
        requires
            old(self)@.wf(),
        ensures
            final(self)@ == old(self)@.effect_obj(),
            final(self)@.wf(),
    {
        let items = self.take_group();
        if items.len() > 0 {
            let class = items[0];
            let mut rest: Vec<StackObjectRef> = Vec::new();
            let mut i: usize = 1;
            while i < items.len()
                invariant
                    1 <= i <= items.len(),
                    rest@ == items@.subrange(1, i as int),
                decreases items.len() - i,
            {
                rest.push(items[i]);
                i = i + 1;
                assert(rest@ =~= items@.subrange(1, i as int));
            }
            assert(rest@ =~= items@.skip(1));
            let args = self.stack.allocate(StackObject::Tuple(rest));
            self.stack.push(StackObject::Instance(InstanceObject { callable: class, args }));
        }
    }

    fn op_new_obj(&mut self)
        requires
            old(self)@.wf(),
        ensures
            final(self)@ == old(self)@.effect_new_obj(),
            final(self)@.wf(),
    {
        let len: usize = self.stack.len();
        if len < 2 {
            self.stack.drop_top(len);
        } else {
            self.op_reduce();
        }
    }

    fn op_new_obj_ex(&mut self)
        requires
            old(self)@.wf(),
        ensures
            final(self)@ == old(self)@.effect_new_obj_ex(),
            final(self)@.wf(),
    {
        let len: usize = self.stack.len();
        if len < 3 {
            self.stack.drop_top(len);
        } else {
            let args = self.stack.ref_at(1);
            let callable = self.stack.ref_at(2);
            let inner_callable = self.unwrap_callable(callable);
            self.stack.drop_top(3);
            self.stack.push(
                StackObject::Instance(InstanceObject { callable: inner_callable, args }),
            );
        }
    }

    fn op_bin_pers_id(&mut self)
        requires
            old(self)@.wf(),
        ensures
            final(self)@ == old(self)@.effect_bin_pers_id(),
            final(self)@.wf(),
    {
        if self.stack.len() >= 1 {
            self.stack.drop_top(1);
            self.stack.push(StackObject::String(persistent_bytes()));
        }
    }

    fn op_read(&mut self, index: Option<usize>)
        requires
            old(self)@.wf(),
        ensures
            final(self)@ == old(self)@.effect_read(
                match index {
                    Some(i) => Some(i as nat),
                    None => None,
                },
            ),
            final(self)@.wf(),
    {
        match index {
            Some(i) => {
                proof {
                    lemma_memo_place(self@.memo, i, 0);
                }
                match self.memo.get(i) {
                    Some(r) => {
                        self.push_copy(r);
                    },
                    None => {},
                }
            },
            None => {},
        }
    }

    fn op_write(&mut self, index: Option<usize>)
        requires
            old(self)@.wf(),
        ensures
            final(self)@ == old(self)@.effect_write(
                match index {
                    Some(i) => Some(i as nat),
                    None => None,
                },
            ),
            final(self)@.wf(),
    {
        match index {
            Some(i) => {
                if self.stack.len() > 0 {
                    let top = self.stack.ref_at(0);
                    if !self.stack.is_mark(top) {
                        let copy = self.stack.get(top).duplicate();
                        self.put_value(i, copy);
                    }
                }
            },
            None => {},
        }
    }

    fn op_memoize(&mut self)
        requires
            old(self)@.wf(),
        ensures
            final(self)@ == old(self)@.effect_memoize(),
            final(self)@.wf(),
    {
        if self.stack.len() >= 1 {
            let top = self.stack.ref_at(0);
            self.stack.drop_top(1);
            let first = self.stack.get(top).duplicate();
            let second = self.stack.get(top).duplicate();
            let index: usize = self.memo.len();
            self.put_value(index, first);
            self.stack.push(second);
        }
    }

    /// The index that a binary operand of `width` bytes names.
    fn read_index(arg: Option<&[u8]>, width: usize) -> (index: Option<usize>)
        requires
            width == 1 || width == 4,
            arg is Some ==> arg->Some_0@.len() >= width,
        ensures
            match index {
                Some(i) => binary_index(operand_view(arg), width as int) == Some(i as nat),
                None => binary_index(operand_view(arg), width as int) is None,
            },
    {
        match arg {
            Some(bytes) => {
                let raw: u64 = read_le(bytes, 0, width);
                assert(bytes@.subrange(0, width as int) =~= bytes@.take(width as int));
                proof {
                    crate::wire::lemma_le_value_bound(bytes@.take(width as int));
                    crate::wire::lemma_pow256_values();
                }
                Some(raw as usize)
            },
            None => None,
        }
    }

    /// The index that a text operand names.
    fn read_text_index(arg: Option<&[u8]>) -> (index: Option<usize>)
        ensures
            match index {
                Some(i) => text_index(operand_view(arg)) == Some(i as nat),
                None => text_index(operand_view(arg)) is None,
            },
    {
        match arg {
            Some(text) => parse_decimal_index(text),
            None => None,
        }
    }

    /// Brings the machine into the state after the instruction `opcode`
    /// with the operand `arg`.
    pub fn step(&mut self, opcode: OpcodeKind, arg: Option<&[u8]>)
        requires
            old(self)@.wf(),
            operand_fits(opcode, operand_view(arg)),
        ensures
            final(self)@ == apply(old(self)@, opcode, operand_view(arg)),
            final(self)@.wf(),
    {
        reveal(effect);
        match opcode {
            OpcodeKind::Pop => self.op_pop(),
            OpcodeKind::Dup => self.op_dup(),
            OpcodeKind::Mark => self.push_value(StackObject::Mark),
            OpcodeKind::PopMark => self.op_pop_mark(),
            OpcodeKind::EmptyList => self.push_value(StackObject::List(Vec::new())),
            OpcodeKind::Append => self.op_append(),
            OpcodeKind::Appends => self.op_appends(),
            OpcodeKind::List => self.op_list(),
            OpcodeKind::EmptyTuple => self.push_value(StackObject::Tuple(Vec::new())),
            OpcodeKind::Tuple => self.op_tuple(),
            OpcodeKind::Tuple1 => self.op_tuple_of(1),
            OpcodeKind::Tuple2 => self.op_tuple_of(2),
            OpcodeKind::Tuple3 => self.op_tuple_of(3),
            OpcodeKind::EmptyDict => self.push_value(StackObject::Dict(Vec::new())),
            OpcodeKind::Dict => self.op_dict(),
            OpcodeKind::SetItem => self.op_set_item(),
            OpcodeKind::SetItems => self.op_set_items(),
            OpcodeKind::EmptySet => self.push_value(StackObject::MutableSet(Vec::new())),
            OpcodeKind::AddItems => self.op_add_items(),
            OpcodeKind::FrozenSet => self.op_frozen_set(),
            OpcodeKind::Int => self.op_int(arg),
            OpcodeKind::BinInt => self.op_bin_int(arg, 4),
            OpcodeKind::BinInt1 => self.op_bin_int(arg, 1),
            OpcodeKind::BinInt2 => self.op_bin_int(arg, 2),
            OpcodeKind::Long => self.op_long(arg),
            OpcodeKind::Long1 => self.op_long1(arg),
            OpcodeKind::Long4 => self.op_long4(arg),
            OpcodeKind::String
            | OpcodeKind::ShortBinUnicode
            | OpcodeKind::Unicode
            | OpcodeKind::BinUnicode
            | OpcodeKind::BinUnicode8 => self.push_value(StackObject::String(operand_bytes(arg))),
            OpcodeKind::BinString
            | OpcodeKind::ShortBinString
            | OpcodeKind::BinBytes
            | OpcodeKind::ShortBinBytes
            | OpcodeKind::BinBytes8 => self.push_value(StackObject::Bytes(operand_bytes(arg))),
            OpcodeKind::ByteArray8 => self.push_value(StackObject::ByteArray(operand_bytes(arg))),
            OpcodeKind::Null => self.push_value(StackObject::Null),
            OpcodeKind::NewTrue => self.push_value(StackObject::Bool(true)),
            OpcodeKind::NewFalse => self.push_value(StackObject::Bool(false)),
            OpcodeKind::Float => self.op_float(arg, true),
            OpcodeKind::BinFloat => self.op_float(arg, false),
            OpcodeKind::Global => self.op_global(arg),
            OpcodeKind::StackGlobal => self.op_stack_global(),
            OpcodeKind::Reduce => self.op_reduce(),
            OpcodeKind::Build => self.op_build(),
            OpcodeKind::Inst => self.op_inst(arg),
            OpcodeKind::Obj => self.op_obj(),
            OpcodeKind::NewObj => self.op_new_obj(),
            OpcodeKind::NewObjEx => self.op_new_obj_ex(),
            OpcodeKind::PersID => {
                match arg {
                    Some(text) => {
                        self.push_value(StackObject::String(slice_to_vec(text)));
                    },
                    None => {},
                }
            },
            OpcodeKind::BinPersID => self.op_bin_pers_id(),
            OpcodeKind::Get => self.op_read(Self::read_text_index(arg)),
            OpcodeKind::BinGet => self.op_read(Self::read_index(arg, 1)),
            OpcodeKind::LongBinGet => self.op_read(Self::read_index(arg, 4)),
            OpcodeKind::Put => self.op_write(Self::read_text_index(arg)),
            OpcodeKind::BinPut => self.op_write(Self::read_index(arg, 1)),
            OpcodeKind::LongBinPut => self.op_write(Self::read_index(arg, 4)),
            OpcodeKind::Memoize => self.op_memoize(),
            OpcodeKind::Ext1 | OpcodeKind::Ext2 | OpcodeKind::Ext4 => {
                self.push_global(builtins_bytes(), object_bytes());
            },
            OpcodeKind::NextBuffer => self.push_value(StackObject::Bytes(Vec::new())),
            OpcodeKind::Proto
            | OpcodeKind::ReadOnlyBuffer
            | OpcodeKind::Stop
            | OpcodeKind::Frame => {},
        }
    }
}

impl Generator {
    /// Simulates the instruction `opcode` with the operand `arg_bytes`:
    /// the machine comes into the state after it. The output and the
    /// configuration are not touched.
    pub fn process_stack_ops(&mut self, opcode: OpcodeKind, arg_bytes: Option<&[u8]>)
        requires
            old(self).state@.wf(),
            operand_fits(opcode, operand_view(arg_bytes)),
        ensures
            final(self).state@ == apply(old(self).state@, opcode, operand_view(arg_bytes)),
            final(self).state@.wf(),
            final(self).output@ == old(self).output@,
            final(self).settings() == old(self).settings(),
    {
        self.state.step(opcode, arg_bytes);
    }
}

} // verus!
