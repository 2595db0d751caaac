//! What each instruction does to the simulated machine, stated over the
//! machine's state as the contracts see it.

use vstd::prelude::*;
use crate::decimal::{parse_i64, parse_index, strip_trailing, trim};
use crate::opcodes::OpcodeKind;
use crate::equality::{dict_put_all, set_put_all};
use crate::stack::{InstanceObject, ObjectView, StackObjectRef, StackView};
use crate::state::{memo_get, StateView};
use crate::wire::{be_value, le_value, signed32, signed64};

verus! {

/// The name of the module of the placeholder behind an extension code.
pub open spec fn builtins_text() -> Seq<u8> {
    seq![98u8, 117u8, 105u8, 108u8, 116u8, 105u8, 110u8, 115u8]
}

/// The attribute name of the placeholder behind an extension code.
pub open spec fn object_text() -> Seq<u8> {
    seq![111u8, 98u8, 106u8, 101u8, 99u8, 116u8]
}

/// The text that stands for a value behind a persistent identifier.
pub open spec fn persistent_text() -> Seq<u8> {
    seq![
        112u8,
        101u8,
        114u8,
        115u8,
        105u8,
        115u8,
        116u8,
        101u8,
        110u8,
        116u8,
        95u8,
        111u8,
        98u8,
        106u8,
        101u8,
        99u8,
        116u8,
    ]
}

/// The place of the first line feed of `s` from `from` on; the length of
/// `s` where there is none.
pub open spec fn line_end(s: Seq<u8>, from: int) -> int
    decreases s.len() - from,
{
    if from < 0 || from >= s.len() {
        s.len() as int
    } else if s[from] == 10u8 {
        from
    } else {
        line_end(s, from + 1)
    }
}

/// Whether `s` holds a line feed, and with it a first and a second line.
pub open spec fn has_two_lines(s: Seq<u8>) -> bool {
    line_end(s, 0) < s.len()
}

/// What stands before the first line feed.
pub open spec fn first_line(s: Seq<u8>) -> Seq<u8> {
    s.take(line_end(s, 0))
}

/// What stands between the first line feed and the second, or the end.
pub open spec fn second_line(s: Seq<u8>) -> Seq<u8> {
    s.subrange(line_end(s, 0) + 1, line_end(s, line_end(s, 0) + 1))
}

/// The integer that the magnitude bytes of a long integer denote: the
/// first eight at most, least significant first, in two's complement.
pub open spec fn long_value(bytes: Seq<u8>) -> i64 {
    let used = if bytes.len() < 8 {
        bytes
    } else {
        bytes.take(8)
    };
    signed64(le_value(used)) as i64
}

/// The bytes of an operand, nothing where there is none.
pub open spec fn operand(arg: Option<Seq<u8>>) -> Seq<u8> {
    match arg {
        Some(bytes) => bytes,
        None => Seq::<u8>::empty(),
    }
}

/// Whether an operand is long enough for its instruction to index it: the
/// short reads and writes of the reference table take one byte, the long
/// ones four.
pub open spec fn operand_fits(op: OpcodeKind, arg: Option<Seq<u8>>) -> bool {
    match op {
        OpcodeKind::BinGet | OpcodeKind::BinPut => arg is Some ==> arg->Some_0.len() >= 1,
        OpcodeKind::LongBinGet | OpcodeKind::LongBinPut => arg is Some ==> arg->Some_0.len() >= 4,
        _ => true,
    }
}

impl StackView {
    /// The handles above the topmost marker, bottom first; the whole stack
    /// where it holds no marker.
    pub open spec fn group(self) -> Seq<StackObjectRef> {
        self.inner.skip(self.mark_top() + 1)
    }

    /// The stack without its topmost marker and what is above it; empty
    /// where it holds no marker.
    pub open spec fn without_group(self) -> StackView {
        self.with_inner(
            if self.mark_top() >= 0 {
                self.inner.take(self.mark_top())
            } else {
                Seq::<StackObjectRef>::empty()
            },
        )
    }

    /// The pairs of key and value that are taken off a stack of the height
    /// `n`, top first: a value and the key below it, until a marker is in
    /// the place of a value or nothing is left for a key.
    pub open spec fn pairs_from(self, n: int) -> Seq<(StackObjectRef, StackObjectRef)>
        decreases n,
    {
        if n <= 1 || self.slot(n - 1) is Mark {
            Seq::<(StackObjectRef, StackObjectRef)>::empty()
        } else {
            seq![(self.inner[n - 2], self.inner[n - 1])] + self.pairs_from(n - 2)
        }
    }

    /// The height that is left of a stack of the height `n` once its pairs
    /// are taken off, and the marker that ended them.
    pub open spec fn height_after_pairs(self, n: int) -> int
        decreases n,
    {
        if n <= 0 {
            0
        } else if self.slot(n - 1) is Mark {
            n - 1
        } else if n == 1 {
            0
        } else {
            self.height_after_pairs(n - 2)
        }
    }

    /// The handle that a callable wraps, or the handle itself where it
    /// names no callable.
    pub open spec fn unwrapped(self, r: StackObjectRef) -> StackObjectRef {
        match self.object(r) {
            ObjectView::Callable(inner) => inner,
            _ => r,
        }
    }
}

impl StateView {
    /// The state with another value in the place of the one that `r` names.
    pub open spec fn store(self, r: StackObjectRef, value: ObjectView) -> StateView {
        self.with_stack(self.stack.store(r, value))
    }

    /// The state with a copy of the value that `r` names on top of the
    /// stack.
    pub open spec fn push_copy(self, r: StackObjectRef) -> StateView {
        self.push(self.stack.object(r))
    }

    /// The state with a module reference in the arena and a callable that
    /// wraps it on top of the stack.
    pub open spec fn push_global(self, module: Seq<u8>, name: Seq<u8>) -> StateView {
        self.with_stack(
            self.stack.allocate(ObjectView::Global { module, name }).push(
                ObjectView::Callable(self.stack.next_ref()),
            ),
        )
    }

    /// The top item goes off the stack, if there is one.
    pub open spec fn effect_pop(self) -> StateView {
        if self.depth() > 0 {
            self.drop(1)
        } else {
            self
        }
    }

    /// A marker is not duplicated.
    pub open spec fn effect_dup(self) -> StateView {
        if self.depth() > 0 && !(self.stack.at_depth(0) is Mark) {
            self.with_stack(self.stack.push_ref(self.stack.top()))
        } else {
            self
        }
    }

    /// The group and its marker go off the stack.
    pub open spec fn effect_pop_mark(self) -> StateView {
        self.with_stack(self.stack.without_group())
    }

    /// The top item goes off the stack, and into the list below it if
    /// there is a list.
    pub open spec fn effect_append(self) -> StateView {
        if self.depth() < 2 {
            self
        } else {
            let item = self.stack.top();
            let cell = self.stack.inner[self.depth() - 2];
            match self.stack.object(cell) {
                ObjectView::List(items) => self.drop(1).store(
                    cell,
                    ObjectView::List(items.push(item)),
                ),
                _ => self.drop(1),
            }
        }
    }

    /// The group goes off the stack, and into the list below it if there
    /// is a list.
    pub open spec fn effect_appends(self) -> StateView {
        let items = self.stack.group();
        let rest = self.with_stack(self.stack.without_group());
        if rest.depth() > 0 {
            match rest.stack.object(rest.stack.top()) {
                ObjectView::List(old) => rest.store(rest.stack.top(), ObjectView::List(old + items)),
                _ => rest,
            }
        } else {
            rest
        }
    }

    /// A list of the group takes the place of the group and its marker.
    pub open spec fn effect_list(self) -> StateView {
        self.with_stack(self.stack.without_group().push(ObjectView::List(self.stack.group())))
    }

    /// A tuple of the group takes the place of the group and its marker.
    pub open spec fn effect_tuple(self) -> StateView {
        self.with_stack(self.stack.without_group().push(ObjectView::Tuple(self.stack.group())))
    }

    /// A tuple of the top item takes its place, if there is one.
    pub open spec fn effect_tuple1(self) -> StateView {
        if self.depth() >= 1 {
            self.drop(1).push(ObjectView::Tuple(self.stack.inner.skip(self.depth() - 1)))
        } else {
            self
        }
    }

    /// A tuple of the top two items takes their place, if there are two.
    pub open spec fn effect_tuple2(self) -> StateView {
        if self.depth() >= 2 {
            self.drop(2).push(ObjectView::Tuple(self.stack.inner.skip(self.depth() - 2)))
        } else {
            self
        }
    }

    /// A tuple of the top three items takes their place, if there are
    /// three.
    pub open spec fn effect_tuple3(self) -> StateView {
        if self.depth() >= 3 {
            self.drop(3).push(ObjectView::Tuple(self.stack.inner.skip(self.depth() - 3)))
        } else {
            self
        }
    }

    /// The state without the pairs on top of the stack and their marker.
    pub open spec fn without_pairs(self) -> StateView {
        self.with_stack(
            self.stack.with_inner(
                self.stack.inner.take(self.stack.height_after_pairs(self.depth() as int)),
            ),
        )
    }

    /// A mapping of the pairs on top of the stack takes the place of the
    /// pairs and their marker. The pairs come into the mapping top first.
    pub open spec fn effect_dict(self) -> StateView {
        self.without_pairs().push(
            ObjectView::Dict(
                dict_put_all(
                    self.stack.objects,
                    Seq::<(StackObjectRef, StackObjectRef)>::empty(),
                    self.stack.pairs_from(self.depth() as int),
                ),
            ),
        )
    }

    /// Value and key go off the stack, and into the mapping below them if
    /// there is a mapping.
    pub open spec fn effect_set_item(self) -> StateView {
        if self.depth() < 3 {
            self
        } else {
            let value = self.stack.inner[self.depth() - 1];
            let key = self.stack.inner[self.depth() - 2];
            let cell = self.stack.inner[self.depth() - 3];
            if self.stack.object(cell) is Dict {
                self.with_stack(self.stack.drop(2).put_pair(cell, key, value))
            } else {
                self.drop(2)
            }
        }
    }

    /// The pairs on top of the stack and their marker go off the stack,
    /// and the pairs into the mapping below them if there is a mapping.
    pub open spec fn effect_set_items(self) -> StateView {
        let pairs = self.stack.pairs_from(self.depth() as int);
        let rest = self.without_pairs();
        if rest.depth() > 0 && rest.stack.object(rest.stack.top()) is Dict {
            rest.with_stack(rest.stack.put_pairs(rest.stack.top(), pairs))
        } else {
            rest
        }
    }

    /// The group goes off the stack, and into the set below it if there is
    /// a set.
    pub open spec fn effect_add_items(self) -> StateView {
        let items = self.stack.group();
        let rest = self.with_stack(self.stack.without_group());
        if rest.depth() > 0 && rest.stack.object(rest.stack.top()) is MutableSet {
            rest.with_stack(rest.stack.put_members(rest.stack.top(), items))
        } else {
            rest
        }
    }

    /// The members come into the set top first.
    pub open spec fn effect_frozen_set(self) -> StateView {
        self.with_stack(
            self.stack.without_group().push(
                ObjectView::FrozenSet(
                    set_put_all(
                        self.stack.objects,
                        Seq::<StackObjectRef>::empty(),
                        self.stack.group().reverse(),
                    ),
                ),
            ),
        )
    }

    /// A text integer; its text is read back, and counts as 0 where it
    /// cannot be read. In the two oldest protocols 0 and 1 are the truth
    /// values.
    pub open spec fn effect_int(self, arg: Option<Seq<u8>>) -> StateView {
        let value = match arg {
            Some(text) => match parse_i64(trim(text)) {
                Some(v) => v,
                None => 0i64,
            },
            None => 0i64,
        };
        if self.version.ordinal() < 2 && (value == 0 || value == 1) {
            self.push(ObjectView::Bool(value == 1))
        } else {
            self.push(ObjectView::Int(value))
        }
    }

    /// An integer of four bytes in two's complement, least significant
    /// first; nothing where the operand is shorter.
    pub open spec fn effect_bin_int(self, arg: Option<Seq<u8>>) -> StateView {
        if arg is Some && arg->Some_0.len() >= 4 {
            self.push(ObjectView::Int(signed32(le_value(arg->Some_0.take(4))) as i64))
        } else {
            self
        }
    }

    /// An integer of one byte; nothing where the operand is empty.
    pub open spec fn effect_bin_int1(self, arg: Option<Seq<u8>>) -> StateView {
        if arg is Some && arg->Some_0.len() >= 1 {
            self.push(ObjectView::Int(arg->Some_0[0] as i64))
        } else {
            self
        }
    }

    /// An unsigned integer of two bytes, least significant first; nothing
    /// where the operand is shorter.
    pub open spec fn effect_bin_int2(self, arg: Option<Seq<u8>>) -> StateView {
        if arg is Some && arg->Some_0.len() >= 2 {
            self.push(ObjectView::Int(le_value(arg->Some_0.take(2)) as i64))
        } else {
            self
        }
    }

    /// A text long integer; its text is read back without the line feeds
    /// and the letters `L` at its end, and counts as 0 where it cannot be
    /// read.
    pub open spec fn effect_long(self, arg: Option<Seq<u8>>) -> StateView {
        let value = match arg {
            Some(text) => match parse_i64(trim(strip_trailing(strip_trailing(text, 10u8), 76u8))) {
                Some(v) => v,
                None => 0i64,
            },
            None => 0i64,
        };
        self.push(ObjectView::Int(value))
    }

    /// A long integer behind a length of one byte.
    pub open spec fn effect_long1(self, arg: Option<Seq<u8>>) -> StateView {
        if arg is Some && arg->Some_0.len() >= 1 && arg->Some_0.len() > arg->Some_0[0] {
            self.push(
                ObjectView::Int(long_value(arg->Some_0.subrange(1, 1 + arg->Some_0[0] as int))),
            )
        } else {
            self
        }
    }

    /// A long integer behind a length of four bytes.
    pub open spec fn effect_long4(self, arg: Option<Seq<u8>>) -> StateView {
        if arg is Some && arg->Some_0.len() >= 4 && arg->Some_0.len() >= 4 + le_value(
            arg->Some_0.take(4),
        ) {
            self.push(
                ObjectView::Int(
                    long_value(
                        arg->Some_0.subrange(4, (4 + le_value(arg->Some_0.take(4))) as int),
                    ),
                ),
            )
        } else {
            self
        }
    }

    /// A binary64 value; the operand of the simulation is its bit pattern,
    /// most significant byte first, and a shorter operand counts as 0.0.
    pub open spec fn effect_float(self, arg: Option<Seq<u8>>) -> StateView {
        if arg is Some && arg->Some_0.len() >= 8 {
            self.push(ObjectView::Float(be_value(arg->Some_0.take(8)) as u64))
        } else {
            self.push(ObjectView::Float(0))
        }
    }

    /// A binary64 value from its bit pattern, most significant byte
    /// first; nothing where the operand is shorter.
    pub open spec fn effect_bin_float(self, arg: Option<Seq<u8>>) -> StateView {
        if arg is Some && arg->Some_0.len() >= 8 {
            self.push(ObjectView::Float(be_value(arg->Some_0.take(8)) as u64))
        } else {
            self
        }
    }

    /// A module reference from the two lines of the operand.
    pub open spec fn effect_global(self, arg: Option<Seq<u8>>) -> StateView {
        if arg is Some && has_two_lines(arg->Some_0) {
            self.push_global(first_line(arg->Some_0), second_line(arg->Some_0))
        } else {
            self
        }
    }

    /// A module reference from the two texts on top of the stack. The two
    /// items go off the stack whatever they are.
    pub open spec fn effect_stack_global(self) -> StateView {
        if self.depth() < 2 {
            self.drop(self.depth() as int)
        } else {
            let name = self.stack.object(self.stack.inner[self.depth() - 1]);
            let module = self.stack.object(self.stack.inner[self.depth() - 2]);
            if module is String && name is String {
                self.drop(2).push_global(module->String_0, name->String_0)
            } else {
                self.drop(2)
            }
        }
    }

    /// The instance that the callable below the top makes of the arguments
    /// on top.
    pub open spec fn effect_reduce(self) -> StateView {
        if self.depth() < 2 {
            self
        } else {
            self.drop(2).push(
                ObjectView::Instance(
                    InstanceObject {
                        callable: self.stack.unwrapped(self.stack.inner[self.depth() - 2]),
                        args: self.stack.top(),
                    },
                ),
            )
        }
    }

    /// The state on top goes into the instance below it, if that is an
    /// instance, and a copy of what is below comes onto the stack.
    pub open spec fn effect_build(self) -> StateView {
        if self.depth() < 2 {
            self
        } else {
            let state = self.stack.top();
            let target = self.stack.inner[self.depth() - 2];
            let stored = match self.stack.object(target) {
                ObjectView::Instance(inst) => self.drop(2).store(
                    target,
                    ObjectView::Instance(InstanceObject { callable: inst.callable, args: state }),
                ),
                _ => self.drop(2),
            };
            stored.push_copy(target)
        }
    }

    /// An instance of the class that the two lines of the operand name,
    /// with the group as its arguments.
    pub open spec fn effect_inst(self, arg: Option<Seq<u8>>) -> StateView {
        if arg is Some && has_two_lines(arg->Some_0) {
            let class = self.stack.next_ref();
            let with_class = self.stack.allocate(
                ObjectView::Global {
                    module: first_line(arg->Some_0),
                    name: second_line(arg->Some_0),
                },
            );
            let args = with_class.next_ref();
            let with_args = with_class.with_inner(self.stack.without_group().inner).allocate(
                ObjectView::Tuple(self.stack.group()),
            );
            self.with_stack(
                with_args.push(ObjectView::Instance(InstanceObject { callable: class, args })),
            )
        } else {
            self
        }
    }

    /// An instance of the class that is the first of the group, with the
    /// rest of the group as its arguments.
    pub open spec fn effect_obj(self) -> StateView {
        let items = self.stack.group();
        let rest = self.stack.without_group();
        if items.len() > 0 {
            self.with_stack(
                rest.allocate(ObjectView::Tuple(items.skip(1))).push(
                    ObjectView::Instance(
                        InstanceObject { callable: items[0], args: rest.next_ref() },
                    ),
                ),
            )
        } else {
            self.with_stack(rest)
        }
    }

    /// As [`StateView::effect_reduce`]; a stack that is not deep enough is
    /// emptied.
    pub open spec fn effect_new_obj(self) -> StateView {
        if self.depth() < 2 {
            self.drop(self.depth() as int)
        } else {
            self.effect_reduce()
        }
    }

    /// The instance that the callable two below the top makes of the
    /// arguments below the top; the keyword arguments on top go off the
    /// stack. A stack that is not deep enough is emptied.
    pub open spec fn effect_new_obj_ex(self) -> StateView {
        if self.depth() < 3 {
            self.drop(self.depth() as int)
        } else {
            self.drop(3).push(
                ObjectView::Instance(
                    InstanceObject {
                        callable: self.stack.unwrapped(self.stack.inner[self.depth() - 3]),
                        args: self.stack.inner[self.depth() - 2],
                    },
                ),
            )
        }
    }

    /// The text of a persistent identifier stands for its value.
    pub open spec fn effect_pers_id(self, arg: Option<Seq<u8>>) -> StateView {
        match arg {
            Some(text) => self.push(ObjectView::String(text)),
            None => self,
        }
    }

    /// A fixed text takes the place of the identifier on top of the
    /// stack, if there is one.
    pub open spec fn effect_bin_pers_id(self) -> StateView {
        if self.depth() >= 1 {
            self.drop(1).push(ObjectView::String(persistent_text()))
        } else {
            self
        }
    }

    /// A copy of the value under `index` comes onto the stack, if the
    /// reference table has one.
    pub open spec fn effect_read(self, index: Option<nat>) -> StateView {
        match index {
            Some(i) => match memo_get(self.memo, i as usize) {
                Some(r) => self.push_copy(r),
                None => self,
            },
            None => self,
        }
    }

    /// A copy of the top value goes into the reference table under
    /// `index`, unless the top is a marker. The stack stays.
    pub open spec fn effect_write(self, index: Option<nat>) -> StateView {
        match index {
            Some(i) => if self.depth() > 0 && !(self.stack.at_depth(0) is Mark) {
                self.put(i as usize, self.stack.at_depth(0))
            } else {
                self
            },
            None => self,
        }
    }

    /// A copy of the top value goes into the reference table under the
    /// table's size, and another copy takes the place of the top.
    pub open spec fn effect_memoize(self) -> StateView {
        if self.depth() >= 1 {
            self.drop(1).put(self.memo.len() as usize, self.stack.at_depth(0)).push(
                self.stack.at_depth(0),
            )
        } else {
            self
        }
    }
}

/// The index that a text operand names.
pub open spec fn text_index(arg: Option<Seq<u8>>) -> Option<nat> {
    match arg {
        Some(text) => parse_index(trim(text), usize::MAX as nat),
        None => None,
    }
}

/// The index that a binary operand of `width` bytes names.
pub open spec fn binary_index(arg: Option<Seq<u8>>, width: int) -> Option<nat> {
    match arg {
        Some(bytes) => Some(le_value(bytes.take(width))),
        None => None,
    }
}

/// The state of the machine after the instruction `op` with the operand
/// `arg`. No instruction touches the version or the header's state.
pub open spec fn apply(s: StateView, op: OpcodeKind, arg: Option<Seq<u8>>) -> StateView {
    StateView {
        version: s.version,
        proto_emitted: s.proto_emitted,
        stack: effect(s, op, arg).stack,
        memo: effect(s, op, arg).memo,
    }
}

/// What the instruction `op` with the operand `arg` makes of the stack,
/// the arena and the reference table.
#[verifier::opaque]
pub open spec fn effect(s: StateView, op: OpcodeKind, arg: Option<Seq<u8>>) -> StateView {
    match op {
        OpcodeKind::Pop => s.effect_pop(),
        OpcodeKind::Dup => s.effect_dup(),
        OpcodeKind::Mark => s.push(ObjectView::Mark),
        OpcodeKind::PopMark => s.effect_pop_mark(),
        OpcodeKind::EmptyList => s.push(ObjectView::List(Seq::empty())),
        OpcodeKind::Append => s.effect_append(),
        OpcodeKind::Appends => s.effect_appends(),
        OpcodeKind::List => s.effect_list(),
        OpcodeKind::EmptyTuple => s.push(ObjectView::Tuple(Seq::empty())),
        OpcodeKind::Tuple => s.effect_tuple(),
        OpcodeKind::Tuple1 => s.effect_tuple1(),
        OpcodeKind::Tuple2 => s.effect_tuple2(),
        OpcodeKind::Tuple3 => s.effect_tuple3(),
        OpcodeKind::EmptyDict => s.push(ObjectView::Dict(Seq::empty())),
        OpcodeKind::Dict => s.effect_dict(),
        OpcodeKind::SetItem => s.effect_set_item(),
        OpcodeKind::SetItems => s.effect_set_items(),
        OpcodeKind::EmptySet => s.push(ObjectView::MutableSet(Seq::empty())),
        OpcodeKind::AddItems => s.effect_add_items(),
        OpcodeKind::FrozenSet => s.effect_frozen_set(),
        OpcodeKind::Int => s.effect_int(arg),
        OpcodeKind::BinInt => s.effect_bin_int(arg),
        OpcodeKind::BinInt1 => s.effect_bin_int1(arg),
        OpcodeKind::BinInt2 => s.effect_bin_int2(arg),
        OpcodeKind::Long => s.effect_long(arg),
        OpcodeKind::Long1 => s.effect_long1(arg),
        OpcodeKind::Long4 => s.effect_long4(arg),
        OpcodeKind::String
        | OpcodeKind::ShortBinUnicode
        | OpcodeKind::Unicode
        | OpcodeKind::BinUnicode
        | OpcodeKind::BinUnicode8 => s.push(ObjectView::String(operand(arg))),
        OpcodeKind::BinString
        | OpcodeKind::ShortBinString
        | OpcodeKind::BinBytes
        | OpcodeKind::ShortBinBytes
        | OpcodeKind::BinBytes8 => s.push(ObjectView::Bytes(operand(arg))),
        OpcodeKind::ByteArray8 => s.push(ObjectView::ByteArray(operand(arg))),
        OpcodeKind::Null => s.push(ObjectView::Null),
        OpcodeKind::NewTrue => s.push(ObjectView::Bool(true)),
        OpcodeKind::NewFalse => s.push(ObjectView::Bool(false)),
        OpcodeKind::Float => s.effect_float(arg),
        OpcodeKind::BinFloat => s.effect_bin_float(arg),
        OpcodeKind::Global => s.effect_global(arg),
        OpcodeKind::StackGlobal => s.effect_stack_global(),
        OpcodeKind::Reduce => s.effect_reduce(),
        OpcodeKind::Build => s.effect_build(),
        OpcodeKind::Inst => s.effect_inst(arg),
        OpcodeKind::Obj => s.effect_obj(),
        OpcodeKind::NewObj => s.effect_new_obj(),
        OpcodeKind::NewObjEx => s.effect_new_obj_ex(),
        OpcodeKind::PersID => s.effect_pers_id(arg),
        OpcodeKind::BinPersID => s.effect_bin_pers_id(),
        OpcodeKind::Get => s.effect_read(text_index(arg)),
        OpcodeKind::BinGet => s.effect_read(binary_index(arg, 1)),
        OpcodeKind::LongBinGet => s.effect_read(binary_index(arg, 4)),
        OpcodeKind::Put => s.effect_write(text_index(arg)),
        OpcodeKind::BinPut => s.effect_write(binary_index(arg, 1)),
        OpcodeKind::LongBinPut => s.effect_write(binary_index(arg, 4)),
        OpcodeKind::Memoize => s.effect_memoize(),
        OpcodeKind::Ext1 | OpcodeKind::Ext2 | OpcodeKind::Ext4 => s.push_global(
            builtins_text(),
            object_text(),
        ),
        OpcodeKind::NextBuffer => s.push(ObjectView::Bytes(Seq::empty())),
        OpcodeKind::Proto | OpcodeKind::ReadOnlyBuffer | OpcodeKind::Stop | OpcodeKind::Frame => s,
    }
}

} // verus!
