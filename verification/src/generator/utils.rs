//! Queries on the simulated stack and the reference table.

use vstd::prelude::*;
use crate::generator::Generator;
use crate::stack::{lemma_mark_below, ObjectView, StackObject, StackObjectRef, StackView};
use crate::state::{memo_get};

verus! {

impl StackView {
    /// Whether the stack holds a marker.
    pub open spec fn has_mark(self) -> bool {
        self.mark_top() >= 0
    }

    /// The number of items above the topmost marker.
    pub open spec fn items_to_mark(self) -> Option<nat> {
        if self.mark_top() >= 0 {
            Some((self.inner.len() - 1 - self.mark_top()) as nat)
        } else {
            None
        }
    }

    /// The value at `depth` below the top, where the stack is that deep.
    pub open spec fn value_at(self, depth: nat) -> Option<ObjectView> {
        if depth < self.inner.len() {
            Some(self.at_depth(depth as int))
        } else {
            None
        }
    }

    /// The value just below the topmost marker.
    pub open spec fn below_mark(self) -> Option<ObjectView> {
        if self.mark_top() >= 1 {
            Some(self.slot(self.mark_top() - 1))
        } else {
            None
        }
    }

    /// The value just above the topmost marker.
    pub open spec fn above_mark(self) -> Option<ObjectView> {
        if self.mark_top() >= 0 && self.mark_top() + 1 < self.inner.len() {
            Some(self.slot(self.mark_top() + 1))
        } else {
            None
        }
    }
}

impl Generator {
    /// The top handle of the stack.
    pub fn peek(&self) -> (r: Option<StackObjectRef>)
        ensures
            self.state@.depth() == 0 ==> r is None,
            self.state@.depth() > 0 ==> r == Some(self.state@.stack.top()),
    {
        self.state.stack.peek()
    }

    /// Puts a new value on top of the stack.
    pub fn push(&mut self, value: StackObject)
        ensures
            final(self).state@ == old(self).state@.push(value@),
            final(self).output@ == old(self).output@,
            final(self).settings() == old(self).settings(),
    {
        self.state.stack.push(value);
    }

    /// Takes the top handle off the stack.
    pub fn pop(&mut self) -> (r: Option<StackObjectRef>)
        ensures
            old(self).state@.depth() == 0 ==> r is None && final(self).state@ == old(self).state@,
            old(self).state@.depth() > 0 ==> r == Some(old(self).state@.stack.top())
                && final(self).state@ == old(self).state@.drop(1),
            final(self).output@ == old(self).output@,
            final(self).settings() == old(self).settings(),
    {
        self.state.stack.pop()
    }

    /// The handle that the reference table holds under `index`.
    pub fn get(&self, index: usize) -> (r: Option<StackObjectRef>)
        ensures
            r == memo_get(self.state@.memo, index),
    {
        self.state.memo.get(index)
    }

    /// Puts `value` into the arena and its handle into the reference table
    /// under `index`.
    pub fn put(&mut self, index: usize, value: StackObject)
        ensures
            final(self).state@ == old(self).state@.put(index, value@),
            final(self).output@ == old(self).output@,
            final(self).settings() == old(self).settings(),
    {
        let r = self.state.stack.allocate(value);
        self.state.memo.insert(index, r);
    }

    /// The slot of the topmost marker.
    pub fn find_mark(&self) -> (r: Option<usize>)
        requires
            self.state@.stack.wf(),
        ensures
            match r {
                Some(i) => i == self.state@.stack.mark_top() && i < self.state@.stack.inner.len(),
                None => self.state@.stack.mark_top() == -1,
            },
    {
        self.state.stack.topmost_mark()
    }

    /// Whether the stack holds a marker.
    pub fn has_mark(&self) -> (b: bool)
        requires
            self.state@.stack.wf(),
        ensures
            b == self.state@.stack.has_mark(),
    {
        self.find_mark().is_some()
    }

    /// The handle at `depth` below the top; the top has depth 0.
    pub fn peek_at(&self, depth: usize) -> (r: Option<StackObjectRef>)
        ensures
            depth < self.state@.depth() ==> r == Some(
                self.state@.stack.inner[self.state@.depth() - 1 - depth],
            ),
            depth >= self.state@.depth() ==> r is None,
    {
        let len: usize = self.state.stack.len();
        if depth < len {
            Some(self.state.stack.inner[len - 1 - depth])
        } else {
            None
        }
    }

    /// Whether the value at `depth` is a list.
    pub fn is_list_at(&self, depth: usize) -> (b: bool)
        requires
            self.state@.stack.wf(),
        ensures
            b == (self.state@.stack.value_at(depth as nat) matches Some(v) && v is List),
    {
        match self.peek_at(depth) {
            Some(r) => match self.state.stack.get(r) {
                StackObject::List(_) => true,
                _ => false,
            },
            None => false,
        }
    }

    /// Whether the value at `depth` is a mapping.
    pub fn is_dict_at(&self, depth: usize) -> (b: bool)
        requires
            self.state@.stack.wf(),
        ensures
            b == (self.state@.stack.value_at(depth as nat) matches Some(v) && v is Dict),
    {
        match self.peek_at(depth) {
            Some(r) => match self.state.stack.get(r) {
                StackObject::Dict(_) => true,
                _ => false,
            },
            None => false,
        }
    }

    /// Whether the value at `depth` can be invoked.
    pub fn is_callable_at(&self, depth: usize) -> (b: bool)
        requires
            self.state@.stack.wf(),
        ensures
            b == (self.state@.stack.value_at(depth as nat) matches Some(v) && v.is_callable()),
    {
        match self.peek_at(depth) {
            Some(r) => match self.state.stack.get(r) {
                StackObject::Callable(_) => true,
                StackObject::Global { module: _, name: _ } => true,
                _ => false,
            },
            None => false,
        }
    }

    /// Whether the value at `depth` is a tuple.
    pub fn is_tuple_at(&self, depth: usize) -> (b: bool)
        requires
            self.state@.stack.wf(),
        ensures
            b == (self.state@.stack.value_at(depth as nat) matches Some(v) && v is Tuple),
    {
        match self.peek_at(depth) {
            Some(r) => match self.state.stack.get(r) {
                StackObject::Tuple(_) => true,
                _ => false,
            },
            None => false,
        }
    }

    /// Whether the value at `depth` is an instance.
    pub fn is_instance_at(&self, depth: usize) -> (b: bool)
        requires
            self.state@.stack.wf(),
        ensures
            b == (self.state@.stack.value_at(depth as nat) matches Some(v) && v is Instance),
    {
        match self.peek_at(depth) {
            Some(r) => match self.state.stack.get(r) {
                StackObject::Instance(_) => true,
                _ => false,
            },
            None => false,
        }
    }

    /// Whether the value at `depth` is a text.
    pub fn is_string_at(&self, depth: usize) -> (b: bool)
        requires
            self.state@.stack.wf(),
        ensures
            b == (self.state@.stack.value_at(depth as nat) matches Some(v) && v is String),
    {
        match self.peek_at(depth) {
            Some(r) => match self.state.stack.get(r) {
                StackObject::String(_) => true,
                _ => false,
            },
            None => false,
        }
    }

    /// Whether the value just below the topmost marker is a list.
    pub fn is_list_at_mark(&self) -> (b: bool)
        requires
            self.state@.stack.wf(),
        ensures
            b == (self.state@.stack.below_mark() matches Some(v) && v is List),
    {
        match self.find_mark() {
            Some(idx) => {
                if idx > 0 {
                    let r = self.state.stack.inner[idx - 1];
                    match self.state.stack.get(r) {
                        StackObject::List(_) => true,
                        _ => false,
                    }
                } else {
                    false
                }
            },
            None => false,
        }
    }

    /// Whether the value just below the topmost marker is a mapping.
    pub fn is_dict_at_mark(&self) -> (b: bool)
        requires
            self.state@.stack.wf(),
        ensures
            b == (self.state@.stack.below_mark() matches Some(v) && v is Dict),
    {
        match self.find_mark() {
            Some(idx) => {
                if idx > 0 {
                    let r = self.state.stack.inner[idx - 1];
                    match self.state.stack.get(r) {
                        StackObject::Dict(_) => true,
                        _ => false,
                    }
                } else {
                    false
                }
            },
            None => false,
        }
    }

    /// Whether the value just below the topmost marker is a mutable set.
    pub fn is_set_at_mark(&self) -> (b: bool)
        requires
            self.state@.stack.wf(),
        ensures
            b == (self.state@.stack.below_mark() matches Some(v) && v is MutableSet),
    {
        match self.find_mark() {
            Some(idx) => {
                if idx > 0 {
                    let r = self.state.stack.inner[idx - 1];
                    match self.state.stack.get(r) {
                        StackObject::MutableSet(_) => true,
                        _ => false,
                    }
                } else {
                    false
                }
            },
            None => false,
        }
    }

    /// The number of items above the topmost marker, where there is one.
    pub fn count_items_to_mark(&self) -> (r: Option<usize>)
        requires
            self.state@.stack.wf(),
        ensures
            match r {
                Some(n) => self.state@.stack.items_to_mark() == Some(n as nat),
                None => self.state@.stack.items_to_mark() is None,
            },
    {
        proof {
            lemma_mark_below(self.state@.stack, self.state@.stack.inner.len() as int);
        }
        match self.find_mark() {
            Some(idx) => Some(self.state.stack.len() - 1 - idx),
            None => None,
        }
    }

    /// Whether the value just above the topmost marker can be invoked.
    pub fn is_callable_above_mark(&self) -> (b: bool)
        requires
            self.state@.stack.wf(),
        ensures
            b == (self.state@.stack.above_mark() matches Some(v) && v.is_callable()),
    {
        match self.find_mark() {
            Some(idx) => {
                let len: usize = self.state.stack.len();
                if idx < len - 1 {
                    let r = self.state.stack.inner[idx + 1];
                    match self.state.stack.get(r) {
                        StackObject::Callable(_) => true,
                        StackObject::Global { module: _, name: _ } => true,
                        _ => false,
                    }
                } else {
                    false
                }
            },
            None => false,
        }
    }
}

} // verus!
