//! The legality oracle: which instructions the simulated machine can take
//! next, and the choice among them.

use vstd::prelude::*;
use crate::generator::{Config, Generator};
use crate::opcodes::{pickle_opcodes, version_opcodes, OpcodeKind};
use crate::source::{EntropySource, GenerationSource, SourceView};
use crate::stack::StackObject;
use crate::state::StateView;

verus! {

/// Whether the machine in the state `state` can take the instruction `op`.
/// The terminator and the frame are never legal here: the driver writes
/// them itself.
pub open spec fn legal(config: Config, state: StateView, op: OpcodeKind) -> bool {
    let stack = state.stack;
    let depth = stack.inner.len();
    match op {
        OpcodeKind::Pop => depth >= 1,
        OpcodeKind::Dup => depth >= 1 && !(stack.at_depth(0) is Mark),
        OpcodeKind::Append => depth >= 2 && stack.at_depth(1) is List,
        OpcodeKind::Appends => stack.has_mark() && (stack.below_mark() matches Some(v) && v is List)
            && stack.items_to_mark()->Some_0 > 0,
        OpcodeKind::SetItem => depth >= 3 && stack.at_depth(2) is Dict,
        OpcodeKind::SetItems => stack.has_mark() && (stack.below_mark() matches Some(v) && v
            is Dict) && stack.items_to_mark()->Some_0 > 0 && stack.items_to_mark()->Some_0 % 2
            == 0,
        OpcodeKind::AddItems => stack.has_mark() && (stack.below_mark() matches Some(v) && v
            is MutableSet) && stack.items_to_mark()->Some_0 > 0,
        OpcodeKind::Tuple | OpcodeKind::List | OpcodeKind::FrozenSet => stack.has_mark(),
        OpcodeKind::Dict => stack.has_mark() && stack.items_to_mark()->Some_0 % 2 == 0,
        OpcodeKind::PopMark => stack.has_mark(),
        OpcodeKind::Tuple1 => depth >= 1,
        OpcodeKind::Tuple2 => depth >= 2,
        OpcodeKind::Tuple3 => depth >= 3,
        OpcodeKind::Reduce | OpcodeKind::NewObj => depth >= 2 && stack.at_depth(1).is_callable()
            && stack.at_depth(0) is Tuple,
        OpcodeKind::NewObjEx => depth >= 3 && stack.at_depth(2).is_callable() && stack.at_depth(1)
            is Tuple && stack.at_depth(0) is Dict,
        OpcodeKind::Build => depth >= 2 && stack.at_depth(1) is Instance && (stack.at_depth(0)
            is Tuple || stack.at_depth(0) is Dict),
        OpcodeKind::Inst => stack.has_mark(),
        OpcodeKind::Obj => stack.has_mark() && (stack.above_mark() matches Some(v)
            && v.is_callable()),
        OpcodeKind::Get | OpcodeKind::BinGet | OpcodeKind::LongBinGet => state.memo.len() > 0,
        OpcodeKind::Put | OpcodeKind::BinPut | OpcodeKind::LongBinPut | OpcodeKind::Memoize => depth
            >= 1 && !(stack.at_depth(0) is Mark),
        OpcodeKind::StackGlobal => if config.unsafe_mutations {
            depth >= 2
        } else {
            depth >= 2 && stack.at_depth(0) is String && stack.at_depth(1) is String
        },
        OpcodeKind::BinPersID => depth >= 1,
        OpcodeKind::Proto => !state.proto_emitted,
        OpcodeKind::Stop => false,
        OpcodeKind::Ext1 | OpcodeKind::Ext2 | OpcodeKind::Ext4 => config.allow_ext,
        OpcodeKind::NextBuffer | OpcodeKind::ReadOnlyBuffer => config.allow_buffer,
        OpcodeKind::Frame => false,
        _ => true,
    }
}

/// The legal ones among the first `n` instructions of `table`, in the
/// order of the table.
pub open spec fn legal_among(config: Config, state: StateView, table: Seq<OpcodeKind>, n: int) -> Seq<
    OpcodeKind,
>
    decreases n,
{
    if n <= 0 {
        Seq::<OpcodeKind>::empty()
    } else {
        let front = legal_among(config, state, table, n - 1);
        if legal(config, state, table[n - 1]) {
            front.push(table[n - 1])
        } else {
            front
        }
    }
}

/// The instructions that the protocol version admits and the machine can
/// take, in the order of the table.
pub open spec fn valid_opcodes(config: Config, state: StateView) -> Seq<OpcodeKind> {
    legal_among(
        config,
        state,
        version_opcodes(state.version),
        version_opcodes(state.version).len() as int,
    )
}

/// The choice among `opcodes` that the source makes, and the source after
/// it. Where there is nothing to choose from, the instruction that pushes
/// the null value is chosen and nothing is drawn.
pub open spec fn chosen(opcodes: Seq<OpcodeKind>, s: SourceView) -> (OpcodeKind, SourceView) {
    if opcodes.len() == 0 {
        (OpcodeKind::Null, s)
    } else {
        let d = s.draw_index(opcodes.len() as usize);
        (opcodes[d.0 as int], d.1)
    }
}

/// Whether the instruction takes the topmost group off the stack, and its
/// marker with it.
pub open spec fn takes_group(op: OpcodeKind) -> bool {
    op == OpcodeKind::Tuple || op == OpcodeKind::List || op == OpcodeKind::FrozenSet || op
        == OpcodeKind::Dict || op == OpcodeKind::PopMark || op == OpcodeKind::Inst || op
        == OpcodeKind::Obj || op == OpcodeKind::Appends || op == OpcodeKind::SetItems || op
        == OpcodeKind::AddItems
}

/// No marker is taken off the stack that was not pushed before: an
/// instruction that takes a group is legal only where the stack holds a
/// marker. And no item is taken off an empty stack: the instructions that
/// take the top item are legal only where there is one.
pub proof fn lemma_groups_need_a_marker(config: Config, state: StateView, op: OpcodeKind)
    requires
        legal(config, state, op),
    ensures
        takes_group(op) ==> state.stack.has_mark() && state.stack.marks() >= 1,
        op == OpcodeKind::Pop || op == OpcodeKind::Dup || op == OpcodeKind::Tuple1 || op
            == OpcodeKind::BinPersID ==> state.depth() >= 1,
{
    if takes_group(op) {
        crate::generator::markers::lemma_a_marker_counts(
            state.stack,
            state.stack.inner.len() as int,
        );
    }
}

/// What is legal is of the table, and what is of the table and legal is
/// among the legal.
pub proof fn lemma_legal_among(config: Config, state: StateView, table: Seq<OpcodeKind>, n: int)
    requires
        0 <= n <= table.len(),
    ensures
        forall|op: OpcodeKind| #[trigger]
            legal_among(config, state, table, n).contains(op) <==> table.take(n).contains(op)
                && legal(config, state, op),
        legal_among(config, state, table, n).len() <= n,
    decreases n,
{
    if n > 0 {
        lemma_legal_among(config, state, table, n - 1);
        let front = legal_among(config, state, table, n - 1);
        let all = legal_among(config, state, table, n);
        let last = table[n - 1];
        assert forall|op: OpcodeKind| #[trigger]
            all.contains(op) <==> table.take(n).contains(op) && legal(config, state, op) by {
            if all.contains(op) {
                let i = choose|i: int| 0 <= i < all.len() && #[trigger] all[i] == op;
                if i < front.len() {
                    assert(front[i] == op);
                    assert(front.contains(op));
                    let shorter = table.take(n - 1);
                    let j = choose|j: int| 0 <= j < shorter.len() && #[trigger] shorter[j] == op;
                    assert(table.take(n)[j] == op);
                } else {
                    assert(op == last);
                    assert(table.take(n)[n - 1] == op);
                }
            }
            if table.take(n).contains(op) && legal(config, state, op) {
                let longer = table.take(n);
                let j = choose|j: int| 0 <= j < longer.len() && #[trigger] longer[j] == op;
                if j < n - 1 {
                    assert(table.take(n - 1)[j] == op);
                    assert(table.take(n - 1).contains(op));
                    assert(front.contains(op));
                    let i = choose|i: int| 0 <= i < front.len() && #[trigger] front[i] == op;
                    assert(all[i] == op);
                } else {
                    assert(all[all.len() - 1] == op);
                }
            }
        }
    } else {
        assert(table.take(0) =~= Seq::<OpcodeKind>::empty());
    }
}

/// Every state has a legal instruction: one that pushes an integer is
/// admitted by every version and always legal.
pub proof fn lemma_some_opcode_is_valid(config: Config, state: StateView)
    ensures
        valid_opcodes(config, state).contains(OpcodeKind::Int),
        valid_opcodes(config, state).len() > 0,
        !valid_opcodes(config, state).contains(OpcodeKind::Stop),
        !valid_opcodes(config, state).contains(OpcodeKind::Frame),
        state.version.ordinal() < 2 ==> !valid_opcodes(config, state).contains(OpcodeKind::Proto),
        state.proto_emitted ==> !valid_opcodes(config, state).contains(OpcodeKind::Proto),
{
    let table = version_opcodes(state.version);
    lemma_legal_among(config, state, table, table.len() as int);
    assert(table.take(table.len() as int) =~= table);
    assert(table[0] == OpcodeKind::Int);
    assert(table.contains(OpcodeKind::Int));
    let valid = valid_opcodes(config, state);
    assert(valid.contains(OpcodeKind::Int));
    let at = choose|i: int| 0 <= i < valid.len() && #[trigger] valid[i] == OpcodeKind::Int;
    assert(valid.len() > at);
    if state.version.ordinal() < 2 {
        assert forall|i: int| 0 <= i < table.len() implies table[i] != OpcodeKind::Proto by {}
    }
}

impl Generator {
    /// Whether the machine can take the instruction `opcode` now.
    pub fn can_emit(&self, opcode: OpcodeKind) -> (b: bool)
        requires
            self.state@.wf(),
        ensures
            b == legal(self.config(), self.state@, opcode),
    {
        proof {
            crate::stack::lemma_mark_below(
                self.state@.stack,
                self.state@.stack.inner.len() as int,
            );
        }
        match opcode {
            OpcodeKind::Pop => self.state.stack.len() >= 1,
            OpcodeKind::Dup => {
                if self.state.stack.len() < 1 {
                    return false;
                }
                match self.peek() {
                    Some(top) => match self.state.stack.get(top) {
                        StackObject::Mark => false,
                        _ => true,
                    },
                    None => false,
                }
            },
            OpcodeKind::Append => self.state.stack.len() >= 2 && self.is_list_at(1),
            OpcodeKind::Appends => {
                self.has_mark() && self.is_list_at_mark() && match self.count_items_to_mark() {
                    Some(count) => count > 0,
                    None => false,
                }
            },
            OpcodeKind::SetItem => self.state.stack.len() >= 3 && self.is_dict_at(2),
            OpcodeKind::SetItems => {
                self.has_mark() && self.is_dict_at_mark() && match self.count_items_to_mark() {
                    Some(count) => count > 0 && count % 2 == 0,
                    None => false,
                }
            },
            OpcodeKind::AddItems => {
                self.has_mark() && self.is_set_at_mark() && match self.count_items_to_mark() {
                    Some(count) => count > 0,
                    None => false,
                }
            },
            OpcodeKind::Tuple | OpcodeKind::List | OpcodeKind::FrozenSet => self.has_mark(),
            OpcodeKind::Dict => {
                self.has_mark() && match self.count_items_to_mark() {
                    Some(count) => count % 2 == 0,
                    None => false,
                }
            },
            OpcodeKind::PopMark => self.has_mark(),
            OpcodeKind::Tuple1 => self.state.stack.len() >= 1,
            OpcodeKind::Tuple2 => self.state.stack.len() >= 2,
            OpcodeKind::Tuple3 => self.state.stack.len() >= 3,
            OpcodeKind::Reduce | OpcodeKind::NewObj => {
                self.state.stack.len() >= 2 && self.is_callable_at(1) && self.is_tuple_at(0)
            },
            OpcodeKind::NewObjEx => {
                self.state.stack.len() >= 3 && self.is_callable_at(2) && self.is_tuple_at(1)
                    && self.is_dict_at(0)
            },
            OpcodeKind::Build => {
                self.state.stack.len() >= 2 && self.is_instance_at(1) && (self.is_tuple_at(0)
                    || self.is_dict_at(0))
            },
            OpcodeKind::Inst => self.has_mark(),
            OpcodeKind::Obj => self.has_mark() && self.is_callable_above_mark(),
            OpcodeKind::Get | OpcodeKind::BinGet | OpcodeKind::LongBinGet => {
                !self.state.memo.is_empty()
            },
            OpcodeKind::Put | OpcodeKind::BinPut | OpcodeKind::LongBinPut | OpcodeKind::Memoize => {
                self.state.stack.len() >= 1 && match self.peek() {
                    Some(top) => match self.state.stack.get(top) {
                        StackObject::Mark => false,
                        _ => true,
                    },
                    None => false,
                }
            },
            OpcodeKind::StackGlobal => {
                if self.unsafe_mutations {
                    self.state.stack.len() >= 2
                } else {
                    self.state.stack.len() >= 2 && self.is_string_at(0) && self.is_string_at(1)
                }
            },
            OpcodeKind::BinPersID => self.state.stack.len() >= 1,
            OpcodeKind::Proto => !self.state.proto_emitted,
            OpcodeKind::Stop => false,
            OpcodeKind::Ext1 | OpcodeKind::Ext2 | OpcodeKind::Ext4 => self.allow_ext_opcodes,
            OpcodeKind::NextBuffer | OpcodeKind::ReadOnlyBuffer => self.allow_buffer_opcodes,
            OpcodeKind::Frame => false,
            _ => true,
        }
    }

    /// The instructions that the protocol version admits and the machine
    /// can take now, in the order of the table.
    pub fn get_valid_opcodes(&self) -> (valid: Vec<OpcodeKind>)
        requires
            self.state@.wf(),
        ensures
            valid@ == valid_opcodes(self.config(), self.state@),
            valid@.len() > 0,
    {
        let all_opcodes = pickle_opcodes(self.state.version);
        let mut valid: Vec<OpcodeKind> = Vec::new();
        let mut i: usize = 0;
        while i < all_opcodes.len()
            invariant
                i <= all_opcodes.len(),
                self.state@.wf(),
                all_opcodes@ == version_opcodes(self.state@.version),
                valid@ == legal_among(self.config(), self.state@, all_opcodes@, i as int),
            decreases all_opcodes.len() - i,
        {
            let op = all_opcodes[i];
            if self.can_emit(op) {
                valid.push(op);
            }
            i = i + 1;
        }
        proof {
            lemma_some_opcode_is_valid(self.config(), self.state@);
        }
        valid
    }

    /// A choice among `opcodes` by the source; the instruction that pushes
    /// the null value where there is nothing to choose from.
    pub fn weighted_choice(&self, opcodes: Vec<OpcodeKind>, source: &mut GenerationSource) -> (op:
        OpcodeKind)
        ensures
            op == chosen(opcodes@, old(source)@).0,
            final(source)@ == chosen(opcodes@, old(source)@).1,
            opcodes@.len() > 0 ==> opcodes@.contains(op),
    {
        if opcodes.len() == 0 {
            return OpcodeKind::Null;
        }
        let idx: usize = source.choose_index(opcodes.len());
        opcodes[idx]
    }
}

} // verus!
