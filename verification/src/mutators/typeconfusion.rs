use vstd::prelude::*;
use crate::mutators::{takes_turn, turn};
use crate::mutators::EmissionSnapshot;
use crate::opcodes::OpcodeKind;
use crate::source::{EntropySource, GenerationSource, SourceView};
use crate::wire::{be_bytes, le_bytes, push_be, push_le, to_unsigned32, unsigned32};

verus! {

/// Replaces an instruction that pushes a value, operand and all, by one
/// that pushes a value of another type. What later instructions assume of
/// the stack no longer holds then, so the strategy counts as unsafe
/// whatever its mode, and rewrites nothing unless its mode is unsafe.
#[derive(Debug, Clone, Copy, PartialEq, Eq, Structural)]
pub struct TypeConfusionMutator {
    pub unsafe_mode: bool,
}

/// The types of value that an instruction can push.
#[derive(Debug, Clone, Copy, PartialEq, Eq, Structural)]
pub enum StackType {
    Int,
    Float,
    String,
    Bytes,
    List,
    Dict,
    Tuple,
    Null,
    Bool,
}

/// The type that the instruction with the wire byte `b` pushes, if it is
/// one that pushes a value.
pub open spec fn type_of_byte(b: u8) -> Option<StackType> {
    if b == 0x49 || b == 0x4a || b == 0x4b || b == 0x4d || b == 0x4c || b == 0x8a || b == 0x8b {
        Some(StackType::Int)
    } else if b == 0x46 || b == 0x47 {
        Some(StackType::Float)
    } else if b == 0x53 || b == 0x56 || b == 0x8c || b == 0x58 || b == 0x8d {
        Some(StackType::String)
    } else if b == 0x42 || b == 0x43 || b == 0x8e || b == 0x54 || b == 0x55 {
        Some(StackType::Bytes)
    } else if b == 0x5d || b == 0x6c {
        Some(StackType::List)
    } else if b == 0x29 || b == 0x74 || b == 0x85 || b == 0x86 || b == 0x87 {
        Some(StackType::Tuple)
    } else if b == 0x7d || b == 0x64 {
        Some(StackType::Dict)
    } else if b == 0x4e {
        Some(StackType::Null)
    } else if b == 0x88 || b == 0x89 {
        Some(StackType::Bool)
    } else {
        None
    }
}

/// The types in the order in which a wrong one is chosen among them.
pub open spec fn type_at(i: int) -> StackType {
    if i == 0 {
        StackType::Int
    } else if i == 1 {
        StackType::Float
    } else if i == 2 {
        StackType::String
    } else if i == 3 {
        StackType::Bytes
    } else if i == 4 {
        StackType::List
    } else if i == 5 {
        StackType::Dict
    } else if i == 6 {
        StackType::Tuple
    } else if i == 7 {
        StackType::Null
    } else {
        StackType::Bool
    }
}

/// The place of a type in the order of [`type_at`].
pub open spec fn type_place(t: StackType) -> int {
    match t {
        StackType::Int => 0,
        StackType::Float => 1,
        StackType::String => 2,
        StackType::Bytes => 3,
        StackType::List => 4,
        StackType::Dict => 5,
        StackType::Tuple => 6,
        StackType::Null => 7,
        StackType::Bool => 8,
    }
}

/// The `i`-th of the eight types other than `original`.
pub open spec fn other_type(original: StackType, i: int) -> StackType {
    if i < type_place(original) {
        type_at(i)
    } else {
        type_at(i + 1)
    }
}

/// The text that stands in for a confused text or byte string.
pub open spec fn confused() -> Seq<u8> {
    seq![99u8, 111u8, 110u8, 102u8, 117u8, 115u8, 101u8, 100u8]
}

/// The bytes of an instruction that pushes a value of the type `t`, and
/// the source after the draws for its operand.
pub open spec fn replacement(t: StackType, s: SourceView) -> (Seq<u8>, SourceView) {
    match t {
        StackType::Int => {
            let v = s.draw_i32();
            (seq![0x4au8] + le_bytes(unsigned32(v.0 as int), 4), v.1)
        },
        StackType::Float => {
            let v = s.draw_float();
            (seq![0x47u8] + be_bytes(v.0 as nat, 8), v.1)
        },
        StackType::String => (seq![0x8cu8, 8u8] + confused(), s),
        StackType::Bytes => (seq![0x43u8, 8u8] + confused(), s),
        StackType::List => (seq![0x5du8], s),
        StackType::Dict => (seq![0x7du8], s),
        StackType::Tuple => (seq![0x29u8], s),
        StackType::Null => (seq![0x4eu8], s),
        StackType::Bool => {
            let v = s.draw_bool();
            if v.0 {
                (seq![0x88u8], v.1)
            } else {
                (seq![0x89u8], v.1)
            }
        },
    }
}

fn push_confused(bytes: &mut Vec<u8>)
    ensures
        final(bytes)@ == old(bytes)@ + seq![8u8] + confused(),
{
    bytes.push(8);
    bytes.push(99);
    bytes.push(111);
    bytes.push(110);
    bytes.push(102);
    bytes.push(117);
    bytes.push(115);
    bytes.push(101);
    bytes.push(100);
    assert(bytes@ =~= old(bytes)@ + seq![8u8] + confused());
}

/// `after` is `before` up to `from`, and goes on with an instruction that
/// pushes a value.
pub open spec fn rewritten(before: Seq<u8>, after: Seq<u8>, from: int) -> bool {
    &&& 0 <= from <= before.len()
    &&& after.len() > from
    &&& after.take(from) == before.take(from)
    &&& type_of_byte(after[from]) is Some
}

impl TypeConfusionMutator {
    /// The strategy in the given mode.
    pub fn new(unsafe_mode: bool) -> (mutator: Self)
        ensures
            mutator.unsafe_mode == unsafe_mode,
    {
        TypeConfusionMutator { unsafe_mode }
    }

    /// The type that the instruction with the wire byte `opcode_byte`
    /// pushes, if it is one that pushes a value.
    pub fn opcode_to_type(opcode_byte: u8) -> (r: Option<StackType>)
        ensures
            r == type_of_byte(opcode_byte),
    {
        match opcode_byte {
            0x49 | 0x4a | 0x4b | 0x4d => Some(StackType::Int),
            0x4c | 0x8a | 0x8b => Some(StackType::Int),
            0x46 | 0x47 => Some(StackType::Float),
            0x53 | 0x56 | 0x8c | 0x58 | 0x8d => Some(StackType::String),
            0x42 | 0x43 | 0x8e | 0x54 | 0x55 => Some(StackType::Bytes),
            0x5d | 0x6c => Some(StackType::List),
            0x29 | 0x74 | 0x85 | 0x86 | 0x87 => Some(StackType::Tuple),
            0x7d | 0x64 => Some(StackType::Dict),
            0x4e => Some(StackType::Null),
            0x88 | 0x89 => Some(StackType::Bool),
            _ => None,
        }
    }

    /// A type other than `original`, by a drawn choice among the eight.
    pub fn choose_wrong_type(original: StackType, source: &mut GenerationSource) -> (r: StackType)
        ensures
            r == other_type(original, old(source)@.draw_index(8).0 as int),
            final(source)@ == old(source)@.draw_index(8).1,
            r != original,
    {
        let place: usize = match original {
            StackType::Int => 0,
            StackType::Float => 1,
            StackType::String => 2,
            StackType::Bytes => 3,
            StackType::List => 4,
            StackType::Dict => 5,
            StackType::Tuple => 6,
            StackType::Null => 7,
            StackType::Bool => 8,
        };
        let drawn: usize = source.choose_index(8);
        let i: usize = if drawn < place {
            drawn
        } else {
            drawn + 1
        };
        if i == 0 {
            StackType::Int
        } else if i == 1 {
            StackType::Float
        } else if i == 2 {
            StackType::String
        } else if i == 3 {
            StackType::Bytes
        } else if i == 4 {
            StackType::List
        } else if i == 5 {
            StackType::Dict
        } else if i == 6 {
            StackType::Tuple
        } else if i == 7 {
            StackType::Null
        } else {
            StackType::Bool
        }
    }

    /// The bytes of an instruction that pushes a value of `stack_type`.
    pub fn generate_opcode_for_type(stack_type: StackType, source: &mut GenerationSource) -> (bytes:
        Vec<u8>)
        ensures
            bytes@ == replacement(stack_type, old(source)@).0,
            final(source)@ == replacement(stack_type, old(source)@).1,
            bytes@.len() >= 1,
            type_of_byte(bytes@[0]) == Some(stack_type),
    {
        let mut bytes: Vec<u8> = Vec::new();
        match stack_type {
            StackType::Int => {
                bytes.push(OpcodeKind::BinInt.as_u8());
                let v: i32 = source.gen_i32();
                push_le(&mut bytes, to_unsigned32(v) as u64, 4);
                assert(bytes@ =~= seq![0x4au8] + le_bytes(unsigned32(v as int), 4));
            },
            StackType::Float => {
                bytes.push(OpcodeKind::BinFloat.as_u8());
                let v: u64 = source.gen_f64();
                push_be(&mut bytes, v, 8);
                assert(bytes@ =~= seq![0x47u8] + be_bytes(v as nat, 8));
            },
            StackType::String => {
                bytes.push(OpcodeKind::ShortBinUnicode.as_u8());
                push_confused(&mut bytes);
                assert(bytes@ =~= seq![0x8cu8, 8u8] + confused());
            },
            StackType::Bytes => {
                bytes.push(OpcodeKind::ShortBinBytes.as_u8());
                push_confused(&mut bytes);
                assert(bytes@ =~= seq![0x43u8, 8u8] + confused());
            },
            StackType::List => {
                bytes.push(OpcodeKind::EmptyList.as_u8());
            },
            StackType::Dict => {
                bytes.push(OpcodeKind::EmptyDict.as_u8());
            },
            StackType::Tuple => {
                bytes.push(OpcodeKind::EmptyTuple.as_u8());
            },
            StackType::Null => {
                bytes.push(OpcodeKind::Null.as_u8());
            },
            StackType::Bool => {
                if source.gen_bool() {
                    bytes.push(OpcodeKind::NewTrue.as_u8());
                } else {
                    bytes.push(OpcodeKind::NewFalse.as_u8());
                }
            },
        }
        bytes
    }

    /// What [`TypeConfusionMutator::post_process`] returns, the output that
    /// it leaves, and what it leaves of the source. Nothing changes in safe
    /// mode, where the strategy has no turn, where nothing
    /// was written, or where what was written pushes no value; else the
    /// output is cut back to where the instruction began and gets an
    /// instruction of another type in its place.
    pub open spec fn post_process_spec(
        self,
        output_len: usize,
        delta: Seq<u8>,
        output: Seq<u8>,
        s: SourceView,
        rate: u64,
    ) -> (bool, Seq<u8>, SourceView) {
        if !self.unsafe_mode {
            (false, output, s)
        } else {
            let first = turn(s, rate);
            if !first.0 || delta.len() == 0 || type_of_byte(delta[0]) is None {
                (false, output, first.1)
            } else {
                let original = type_of_byte(delta[0])->Some_0;
                let wrong = first.1.draw_index(8);
                let bytes = replacement(other_type(original, wrong.0 as int), wrong.1);
                let base = if output_len <= output.len() {
                    output.take(output_len as int)
                } else {
                    output
                };
                (true, base + bytes.0, bytes.1)
            }
        }
    }

    /// The name of the strategy.
    pub fn name(&self) -> (name: &'static str)
        ensures
            name@ == "typeconfusion"@,
    {
        "typeconfusion"
    }

    /// Always true: a confused type breaks what later instructions assume.
    pub fn is_unsafe(&self) -> (b: bool)
        ensures
            b,
    {
        true
    }

    /// Rewrites the instruction that was written last; says whether it did.
    pub fn post_process(
        &self,
        snapshot: &EmissionSnapshot,
        output: &mut Vec<u8>,
        source: &mut GenerationSource,
        rate: u64,
    ) -> (changed: bool)
        ensures
            changed == self.post_process_spec(
                snapshot.output_len,
                snapshot.output_delta@,
                old(output)@,
                old(source)@,
                rate,
            ).0,
            final(output)@ == self.post_process_spec(
                snapshot.output_len,
                snapshot.output_delta@,
                old(output)@,
                old(source)@,
                rate,
            ).1,
            final(source)@ == self.post_process_spec(
                snapshot.output_len,
                snapshot.output_delta@,
                old(output)@,
                old(source)@,
                rate,
            ).2,
            !changed ==> final(output)@ == old(output)@,
            changed && snapshot.output_len <= old(output)@.len() ==> rewritten(
                old(output)@,
                final(output)@,
                snapshot.output_len as int,
            ),
    {
        if !self.unsafe_mode || !takes_turn(source, rate) {
            return false;
        }
        if snapshot.output_delta.len() == 0 {
            return false;
        }
        let emitted_opcode: u8 = snapshot.output_delta[0];
        match Self::opcode_to_type(emitted_opcode) {
            Some(original_type) => {
                let wrong_type = Self::choose_wrong_type(original_type, source);
                let replacement_bytes = Self::generate_opcode_for_type(wrong_type, source);
                output.truncate(snapshot.output_len);
                output.extend_from_slice(replacement_bytes.as_slice());
                proof {
                    if snapshot.output_len <= old(output)@.len() {
                        assert(output@.take(snapshot.output_len as int) =~= old(output)@.take(
                            snapshot.output_len as int,
                        ));
                        assert(output@[snapshot.output_len as int] == replacement_bytes@[0]);
                    }
                }
                assert(output@ =~= self.post_process_spec(
                    snapshot.output_len,
                    snapshot.output_delta@,
                    old(output)@,
                    old(source)@,
                    rate,
                ).1);
                true
            },
            None => false,
        }
    }
}

} // verus!
