//! The catalog of instructions, the wire byte of each, and the table that
//! says which of them each protocol version admits.

use vstd::prelude::*;
use crate::protocol::Version;

verus! {

/// One instruction of the format together with its operand.
#[derive(Debug)]
pub enum Opcode {
    Int(i32),
    BinInt(i32),
    BinInt1(u8),
    BinInt2(u16),
    Long(i64),
    Long1(Vec<u8>),
    Long4(Vec<u8>),
    String(Vec<u8>),
    BinString(Vec<u8>),
    ShortBinString(Vec<u8>),
    BinBytes(Vec<u8>),
    ShortBinBytes(Vec<u8>),
    BinBytes8(Vec<u8>),
    ByteArray8(Vec<u8>),
    NextBuffer,
    ReadOnlyBuffer,
    Null,
    NewTrue,
    NewFalse,
    Unicode(Vec<u8>),
    ShortBinUnicode(Vec<u8>),
    BinUnicode(Vec<u8>),
    BinUnicode8(Vec<u8>),
    /// The operand is the bit pattern of a binary64 value.
    Float(u64),
    /// The operand is the bit pattern of a binary64 value.
    BinFloat(u64),
    EmptyList,
    Append,
    Appends,
    List(Vec<Opcode>),
    EmptyTuple,
    Tuple(Vec<Opcode>),
    Tuple1(Box<Opcode>),
    Tuple2(Box<Opcode>, Box<Opcode>),
    Tuple3(Box<Opcode>, Box<Opcode>, Box<Opcode>),
    EmptyDict,
    Dict(Vec<(Opcode, Opcode)>),
    SetItem,
    SetItems,
    EmptySet,
    AddItems,
    FrozenSet(Vec<Opcode>),
    Pop,
    Dup,
    Mark,
    PopMark,
    Get(u32),
    BinGet(u8),
    LongBinGet(u32),
    Put(u32),
    BinPut(u8),
    LongBinPut(u32),
    Memoize,
    Ext1(u8),
    Ext2(u16),
    Ext4(u32),
    Global(Vec<u8>),
    StackGlobal,
    Reduce,
    Build,
    Inst,
    Obj,
    NewObj,
    NewObjEx,
    Proto(u8),
    Stop,
    Frame(u64),
    PersID,
    BinPersID,
}

/// An instruction of the format, without its operand.
#[derive(Debug, Clone, Copy, PartialEq, Eq, Structural, Hash)]
pub enum OpcodeKind {
    Int,
    BinInt,
    BinInt1,
    BinInt2,
    Long,
    Long1,
    Long4,
    String,
    BinString,
    ShortBinString,
    BinBytes,
    ShortBinBytes,
    BinBytes8,
    ByteArray8,
    NextBuffer,
    ReadOnlyBuffer,
    Null,
    NewTrue,
    NewFalse,
    Unicode,
    ShortBinUnicode,
    BinUnicode,
    BinUnicode8,
    Float,
    BinFloat,
    EmptyList,
    Append,
    Appends,
    List,
    EmptyTuple,
    Tuple,
    Tuple1,
    Tuple2,
    Tuple3,
    EmptyDict,
    Dict,
    SetItem,
    SetItems,
    EmptySet,
    AddItems,
    FrozenSet,
    Pop,
    Dup,
    Mark,
    PopMark,
    Get,
    BinGet,
    LongBinGet,
    Put,
    BinPut,
    LongBinPut,
    Memoize,
    Ext1,
    Ext2,
    Ext4,
    Global,
    StackGlobal,
    Reduce,
    Build,
    Inst,
    Obj,
    NewObj,
    NewObjEx,
    Proto,
    Stop,
    Frame,
    PersID,
    BinPersID,
}

impl OpcodeKind {
    /// The byte that stands for this instruction on the wire.
    pub open spec fn byte(self) -> u8 {
        match self {
            OpcodeKind::Int => 0x49,
            OpcodeKind::BinInt => 0x4a,
            OpcodeKind::BinInt1 => 0x4b,
            OpcodeKind::BinInt2 => 0x4d,
            OpcodeKind::Long => 0x4c,
            OpcodeKind::Long1 => 0x8a,
            OpcodeKind::Long4 => 0x8b,
            OpcodeKind::String => 0x53,
            OpcodeKind::BinString => 0x54,
            OpcodeKind::ShortBinString => 0x55,
            OpcodeKind::BinBytes => 0x42,
            OpcodeKind::ShortBinBytes => 0x43,
            OpcodeKind::BinBytes8 => 0x8e,
            OpcodeKind::ByteArray8 => 0x96,
            OpcodeKind::NextBuffer => 0x97,
            OpcodeKind::ReadOnlyBuffer => 0x98,
            OpcodeKind::Null => 0x4e,
            OpcodeKind::NewTrue => 0x88,
            OpcodeKind::NewFalse => 0x89,
            OpcodeKind::Unicode => 0x56,
            OpcodeKind::ShortBinUnicode => 0x8c,
            OpcodeKind::BinUnicode => 0x58,
            OpcodeKind::BinUnicode8 => 0x8d,
            OpcodeKind::Float => 0x46,
            OpcodeKind::BinFloat => 0x47,
            OpcodeKind::EmptyList => 0x5d,
            OpcodeKind::Append => 0x61,
            OpcodeKind::Appends => 0x65,
            OpcodeKind::List => 0x6c,
            OpcodeKind::EmptyTuple => 0x29,
            OpcodeKind::Tuple => 0x74,
            OpcodeKind::Tuple1 => 0x85,
            OpcodeKind::Tuple2 => 0x86,
            OpcodeKind::Tuple3 => 0x87,
            OpcodeKind::EmptyDict => 0x7d,
            OpcodeKind::Dict => 0x64,
            OpcodeKind::SetItem => 0x73,
            OpcodeKind::SetItems => 0x75,
            OpcodeKind::EmptySet => 0x8f,
            OpcodeKind::AddItems => 0x90,
            OpcodeKind::FrozenSet => 0x91,
            OpcodeKind::Pop => 0x30,
            OpcodeKind::Dup => 0x32,
            OpcodeKind::Mark => 0x28,
            OpcodeKind::PopMark => 0x31,
            OpcodeKind::Get => 0x67,
            OpcodeKind::BinGet => 0x68,
            OpcodeKind::LongBinGet => 0x6a,
            OpcodeKind::Put => 0x70,
            OpcodeKind::BinPut => 0x71,
            OpcodeKind::LongBinPut => 0x72,
            OpcodeKind::Memoize => 0x94,
            OpcodeKind::Ext1 => 0x82,
            OpcodeKind::Ext2 => 0x83,
            OpcodeKind::Ext4 => 0x84,
            OpcodeKind::Global => 0x63,
            OpcodeKind::StackGlobal => 0x93,
            OpcodeKind::Reduce => 0x52,
            OpcodeKind::Build => 0x62,
            OpcodeKind::Inst => 0x69,
            OpcodeKind::Obj => 0x6f,
            OpcodeKind::NewObj => 0x81,
            OpcodeKind::NewObjEx => 0x92,
            OpcodeKind::Proto => 0x80,
            OpcodeKind::Stop => 0x2e,
            OpcodeKind::Frame => 0x95,
            OpcodeKind::PersID => 0x50,
            OpcodeKind::BinPersID => 0x51,
        }
    }

    /// The byte that stands for this instruction on the wire.
    pub fn as_u8(self) -> (b: u8)
        ensures
            b == self.byte(),
    {
        match self {
            OpcodeKind::Int => 0x49,
            OpcodeKind::BinInt => 0x4a,
            OpcodeKind::BinInt1 => 0x4b,
            OpcodeKind::BinInt2 => 0x4d,
            OpcodeKind::Long => 0x4c,
            OpcodeKind::Long1 => 0x8a,
            OpcodeKind::Long4 => 0x8b,
            OpcodeKind::String => 0x53,
            OpcodeKind::BinString => 0x54,
            OpcodeKind::ShortBinString => 0x55,
            OpcodeKind::BinBytes => 0x42,
            OpcodeKind::ShortBinBytes => 0x43,
            OpcodeKind::BinBytes8 => 0x8e,
            OpcodeKind::ByteArray8 => 0x96,
            OpcodeKind::NextBuffer => 0x97,
            OpcodeKind::ReadOnlyBuffer => 0x98,
            OpcodeKind::Null => 0x4e,
            OpcodeKind::NewTrue => 0x88,
            OpcodeKind::NewFalse => 0x89,
            OpcodeKind::Unicode => 0x56,
            OpcodeKind::ShortBinUnicode => 0x8c,
            OpcodeKind::BinUnicode => 0x58,
            OpcodeKind::BinUnicode8 => 0x8d,
            OpcodeKind::Float => 0x46,
            OpcodeKind::BinFloat => 0x47,
            OpcodeKind::EmptyList => 0x5d,
            OpcodeKind::Append => 0x61,
            OpcodeKind::Appends => 0x65,
            OpcodeKind::List => 0x6c,
            OpcodeKind::EmptyTuple => 0x29,
            OpcodeKind::Tuple => 0x74,
            OpcodeKind::Tuple1 => 0x85,
            OpcodeKind::Tuple2 => 0x86,
            OpcodeKind::Tuple3 => 0x87,
            OpcodeKind::EmptyDict => 0x7d,
            OpcodeKind::Dict => 0x64,
            OpcodeKind::SetItem => 0x73,
            OpcodeKind::SetItems => 0x75,
            OpcodeKind::EmptySet => 0x8f,
            OpcodeKind::AddItems => 0x90,
            OpcodeKind::FrozenSet => 0x91,
            OpcodeKind::Pop => 0x30,
            OpcodeKind::Dup => 0x32,
            OpcodeKind::Mark => 0x28,
            OpcodeKind::PopMark => 0x31,
            OpcodeKind::Get => 0x67,
            OpcodeKind::BinGet => 0x68,
            OpcodeKind::LongBinGet => 0x6a,
            OpcodeKind::Put => 0x70,
            OpcodeKind::BinPut => 0x71,
            OpcodeKind::LongBinPut => 0x72,
            OpcodeKind::Memoize => 0x94,
            OpcodeKind::Ext1 => 0x82,
            OpcodeKind::Ext2 => 0x83,
            OpcodeKind::Ext4 => 0x84,
            OpcodeKind::Global => 0x63,
            OpcodeKind::StackGlobal => 0x93,
            OpcodeKind::Reduce => 0x52,
            OpcodeKind::Build => 0x62,
            OpcodeKind::Inst => 0x69,
            OpcodeKind::Obj => 0x6f,
            OpcodeKind::NewObj => 0x81,
            OpcodeKind::NewObjEx => 0x92,
            OpcodeKind::Proto => 0x80,
            OpcodeKind::Stop => 0x2e,
            OpcodeKind::Frame => 0x95,
            OpcodeKind::PersID => 0x50,
            OpcodeKind::BinPersID => 0x51,
        }
    }

    /// Whether the instruction pushes an integer and is encoded by the
    /// integer encoder.
    pub open spec fn is_int_like(self) -> bool {
        self == OpcodeKind::Int || self == OpcodeKind::Long || self == OpcodeKind::Long1
            || self == OpcodeKind::Long4 || self == OpcodeKind::BinInt || self
            == OpcodeKind::BinInt1 || self == OpcodeKind::BinInt2
    }

    /// Exec form of [`OpcodeKind::is_int_like`].
    pub fn int_like(self) -> (b: bool)
        ensures
            b == self.is_int_like(),
    {
        match self {
            OpcodeKind::Int
            | OpcodeKind::Long
            | OpcodeKind::Long1
            | OpcodeKind::Long4
            | OpcodeKind::BinInt
            | OpcodeKind::BinInt1
            | OpcodeKind::BinInt2 => true,
            _ => false,
        }
    }
}

/// No two instructions share a wire byte.
pub proof fn lemma_byte_is_injective(a: OpcodeKind, b: OpcodeKind)
    requires
        a.byte() == b.byte(),
    ensures
        a == b,
{
}

/// The instructions that a protocol version adds to those of the version
/// before it, in the order of the table.
pub open spec fn added_in(version: Version) -> Seq<OpcodeKind> {
    match version {
        Version::V0 => seq![
            OpcodeKind::Int,
            OpcodeKind::Long,
            OpcodeKind::String,
            OpcodeKind::Null,
            OpcodeKind::Unicode,
            OpcodeKind::Float,
            OpcodeKind::Append,
            OpcodeKind::List,
            OpcodeKind::Tuple,
            OpcodeKind::Dict,
            OpcodeKind::SetItem,
            OpcodeKind::Pop,
            OpcodeKind::Dup,
            OpcodeKind::Mark,
            OpcodeKind::Get,
            OpcodeKind::Put,
            OpcodeKind::Global,
            OpcodeKind::Reduce,
            OpcodeKind::Build,
            OpcodeKind::Inst,
            OpcodeKind::Stop,
            OpcodeKind::PersID,
        ],
        Version::V1 => seq![
            OpcodeKind::BinInt,
            OpcodeKind::BinInt1,
            OpcodeKind::BinInt2,
            OpcodeKind::BinString,
            OpcodeKind::ShortBinString,
            OpcodeKind::BinUnicode,
            OpcodeKind::BinFloat,
            OpcodeKind::EmptyList,
            OpcodeKind::Appends,
            OpcodeKind::EmptyTuple,
            OpcodeKind::EmptyDict,
            OpcodeKind::SetItems,
            OpcodeKind::PopMark,
            OpcodeKind::BinGet,
            OpcodeKind::LongBinGet,
            OpcodeKind::BinPut,
            OpcodeKind::LongBinPut,
            OpcodeKind::Obj,
            OpcodeKind::BinPersID,
        ],
        Version::V2 => seq![
            OpcodeKind::Long1,
            OpcodeKind::Long4,
            OpcodeKind::NewTrue,
            OpcodeKind::NewFalse,
            OpcodeKind::Tuple1,
            OpcodeKind::Tuple2,
            OpcodeKind::Tuple3,
            OpcodeKind::Ext1,
            OpcodeKind::Ext2,
            OpcodeKind::Ext4,
            OpcodeKind::NewObj,
            OpcodeKind::Proto,
        ],
        Version::V3 => seq![
            OpcodeKind::BinBytes,
            OpcodeKind::ShortBinBytes,
        ],
        Version::V4 => seq![
            OpcodeKind::BinBytes8,
            OpcodeKind::ShortBinUnicode,
            OpcodeKind::BinUnicode8,
            OpcodeKind::EmptySet,
            OpcodeKind::AddItems,
            OpcodeKind::FrozenSet,
            OpcodeKind::Memoize,
            OpcodeKind::StackGlobal,
            OpcodeKind::NewObjEx,
            OpcodeKind::Frame,
        ],
        Version::V5 => seq![
            OpcodeKind::ByteArray8,
            OpcodeKind::NextBuffer,
            OpcodeKind::ReadOnlyBuffer,
        ],
    }
}

/// The instructions that a protocol version admits, in the order of the
/// table: those of every earlier version, then its own.
pub open spec fn version_opcodes(version: Version) -> Seq<OpcodeKind> {
    let v0 = added_in(Version::V0);
    let v1 = v0 + added_in(Version::V1);
    let v2 = v1 + added_in(Version::V2);
    let v3 = v2 + added_in(Version::V3);
    let v4 = v3 + added_in(Version::V4);
    let v5 = v4 + added_in(Version::V5);
    match version {
        Version::V0 => v0,
        Version::V1 => v1,
        Version::V2 => v2,
        Version::V3 => v3,
        Version::V4 => v4,
        Version::V5 => v5,
    }
}

/// Each version admits what the versions before it admit, at the same
/// places of the table.
pub proof fn lemma_versions_are_cumulative(lower: Version, higher: Version)
    requires
        lower.ordinal() <= higher.ordinal(),
    ensures
        version_opcodes(lower).len() <= version_opcodes(higher).len(),
        version_opcodes(higher).take(version_opcodes(lower).len() as int) == version_opcodes(
            lower,
        ),
{
    let short = version_opcodes(lower);
    let long = version_opcodes(higher);
    assert(long.take(short.len() as int) =~= short);
}

/// The header instruction is admitted from the third version on, and the
/// terminator by every version.
pub proof fn lemma_header_and_terminator(version: Version)
    ensures
        version_opcodes(version).contains(OpcodeKind::Stop),
        version_opcodes(version).contains(OpcodeKind::Proto) <==> version.ordinal() >= 2,
        version_opcodes(version).contains(OpcodeKind::Frame) <==> version.ordinal() >= 4,
{
    let table = version_opcodes(version);
    assert(table[20] == OpcodeKind::Stop);
    if version.ordinal() >= 2 {
        assert(table[52] == OpcodeKind::Proto);
    }
    if version.ordinal() >= 4 {
        assert(table[64] == OpcodeKind::Frame);
    }
}

fn push_added_v0(out: &mut Vec<OpcodeKind>)
    ensures
        final(out)@ == old(out)@ + added_in(Version::V0),
{
    out.push(OpcodeKind::Int);
    out.push(OpcodeKind::Long);
    out.push(OpcodeKind::String);
    out.push(OpcodeKind::Null);
    out.push(OpcodeKind::Unicode);
    out.push(OpcodeKind::Float);
    out.push(OpcodeKind::Append);
    out.push(OpcodeKind::List);
    out.push(OpcodeKind::Tuple);
    out.push(OpcodeKind::Dict);
    out.push(OpcodeKind::SetItem);
    out.push(OpcodeKind::Pop);
    out.push(OpcodeKind::Dup);
    out.push(OpcodeKind::Mark);
    out.push(OpcodeKind::Get);
    out.push(OpcodeKind::Put);
    out.push(OpcodeKind::Global);
    out.push(OpcodeKind::Reduce);
    out.push(OpcodeKind::Build);
    out.push(OpcodeKind::Inst);
    out.push(OpcodeKind::Stop);
    out.push(OpcodeKind::PersID);
    assert(out@ =~= old(out)@ + added_in(Version::V0));
}

fn push_added_v1(out: &mut Vec<OpcodeKind>)
    ensures
        final(out)@ == old(out)@ + added_in(Version::V1),
{
    out.push(OpcodeKind::BinInt);
    out.push(OpcodeKind::BinInt1);
    out.push(OpcodeKind::BinInt2);
    out.push(OpcodeKind::BinString);
    out.push(OpcodeKind::ShortBinString);
    out.push(OpcodeKind::BinUnicode);
    out.push(OpcodeKind::BinFloat);
    out.push(OpcodeKind::EmptyList);
    out.push(OpcodeKind::Appends);
    out.push(OpcodeKind::EmptyTuple);
    out.push(OpcodeKind::EmptyDict);
    out.push(OpcodeKind::SetItems);
    out.push(OpcodeKind::PopMark);
    out.push(OpcodeKind::BinGet);
    out.push(OpcodeKind::LongBinGet);
    out.push(OpcodeKind::BinPut);
    out.push(OpcodeKind::LongBinPut);
    out.push(OpcodeKind::Obj);
    out.push(OpcodeKind::BinPersID);
    assert(out@ =~= old(out)@ + added_in(Version::V1));
}

fn push_added_v2(out: &mut Vec<OpcodeKind>)
    ensures
        final(out)@ == old(out)@ + added_in(Version::V2),
{
    out.push(OpcodeKind::Long1);
    out.push(OpcodeKind::Long4);
    out.push(OpcodeKind::NewTrue);
    out.push(OpcodeKind::NewFalse);
    out.push(OpcodeKind::Tuple1);
    out.push(OpcodeKind::Tuple2);
    out.push(OpcodeKind::Tuple3);
    out.push(OpcodeKind::Ext1);
    out.push(OpcodeKind::Ext2);
    out.push(OpcodeKind::Ext4);
    out.push(OpcodeKind::NewObj);
    out.push(OpcodeKind::Proto);
    assert(out@ =~= old(out)@ + added_in(Version::V2));
}

fn push_added_v3(out: &mut Vec<OpcodeKind>)
    ensures
        final(out)@ == old(out)@ + added_in(Version::V3),
{
    out.push(OpcodeKind::BinBytes);
    out.push(OpcodeKind::ShortBinBytes);
    assert(out@ =~= old(out)@ + added_in(Version::V3));
}

fn push_added_v4(out: &mut Vec<OpcodeKind>)
    ensures
        final(out)@ == old(out)@ + added_in(Version::V4),
{
    out.push(OpcodeKind::BinBytes8);
    out.push(OpcodeKind::ShortBinUnicode);
    out.push(OpcodeKind::BinUnicode8);
    out.push(OpcodeKind::EmptySet);
    out.push(OpcodeKind::AddItems);
    out.push(OpcodeKind::FrozenSet);
    out.push(OpcodeKind::Memoize);
    out.push(OpcodeKind::StackGlobal);
    out.push(OpcodeKind::NewObjEx);
    out.push(OpcodeKind::Frame);
    assert(out@ =~= old(out)@ + added_in(Version::V4));
}

fn push_added_v5(out: &mut Vec<OpcodeKind>)
    ensures
        final(out)@ == old(out)@ + added_in(Version::V5),
{
    out.push(OpcodeKind::ByteArray8);
    out.push(OpcodeKind::NextBuffer);
    out.push(OpcodeKind::ReadOnlyBuffer);
    assert(out@ =~= old(out)@ + added_in(Version::V5));
}

/// The table entry of `version`: the instructions that it admits.
pub fn pickle_opcodes(version: Version) -> (table: Vec<OpcodeKind>)
    ensures
        table@ == version_opcodes(version),
{
    let level: u8 = version.as_u8();
    let mut table: Vec<OpcodeKind> = Vec::new();
    push_added_v0(&mut table);
    assert(table@ =~= version_opcodes(Version::V0));
    if level >= 1 {
        push_added_v1(&mut table);
    }
    if level >= 2 {
        push_added_v2(&mut table);
    }
    if level >= 3 {
        push_added_v3(&mut table);
    }
    if level >= 4 {
        push_added_v4(&mut table);
    }
    if level >= 5 {
        push_added_v5(&mut table);
    }
    table
}

} // verus!
