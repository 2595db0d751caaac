//! The emission engine: for a chosen instruction it writes the wire byte
//! and the operand in the encoding of the protocol, simulates the
//! instruction, and lets the mutation strategies rewrite what was written.

use vstd::prelude::*;
use crate::binary64::{texts, FloatText};
use crate::decimal::{decimal_int, decimal_nat, push_decimal_i64, push_decimal_u64};
use crate::generator::effects::{apply, operand_fits};
use crate::generator::markers::stepped;
use crate::generator::mutation::{
    kept, lemma_nothing_to_rewrite, mutated_bytes, mutated_float, mutated_int, mutated_memo_index, mutated_string,
    post_processed,
};
use crate::generator::stack_ops::operand_view;
use crate::generator::words::{get_random_module, random_module};
use crate::generator::{Config, Generator, Machine};
use crate::mutators::stringlen::draw_raw;
use crate::opcodes::OpcodeKind;
use crate::protocol::Version;
use crate::source::{EntropySource, GenerationSource, SourceView};
use crate::state::{memo_place, StateView};
use crate::wire::{be_bytes, le_bytes, push_all, push_be, push_le, to_unsigned32, unsigned32};

verus! {

/// Whether a byte can open an instruction of the body: it is neither the
/// header's byte nor the frame's.
pub open spec fn body_byte(b: u8) -> bool {
    b != 0x80 && b != 0x95
}

/// `after` is `before` with nothing or with more behind it, and what is
/// behind it opens with a byte of the body.
pub open spec fn appended(before: Seq<u8>, after: Seq<u8>) -> bool {
    &&& before.len() <= after.len()
    &&& after.take(before.len() as int) == before
    &&& after.len() > before.len() ==> body_byte(after[before.len() as int])
}

impl Machine {
    /// The machine after the instruction `op` was written with the bytes
    /// `written` behind its wire byte and simulated with the operand `arg`.
    pub open spec fn emit(self, op: OpcodeKind, written: Seq<u8>, arg: Option<Seq<u8>>) -> Machine {
        Machine {
            state: apply(self.state, op, arg),
            output: self.output + seq![op.byte()] + written,
        }
    }
}

/// An instruction of the body is appended to the output.
pub proof fn lemma_emit_appends(m: Machine, op: OpcodeKind, written: Seq<u8>, arg: Option<Seq<u8>>)
    requires
        op != OpcodeKind::Proto,
        op != OpcodeKind::Frame,
    ensures
        appended(m.output, m.emit(op, written, arg).output),
        appended(m.output, m.output),
{
    let after = m.emit(op, written, arg).output;
    assert(after.take(m.output.len() as int) =~= m.output);
    assert(after[m.output.len() as int] == op.byte());
    assert(m.output.take(m.output.len() as int) =~= m.output);
}

/// What is kept after a rewrite is still appended.
pub proof fn lemma_kept_appends(before: Seq<u8>, written: Seq<u8>, after: Seq<u8>)
    requires
        appended(before, written),
        kept(written, after, before.len() as int),
    ensures
        appended(before, after),
{
    assert(after.take(before.len() as int) =~= before) by {
        assert(written.take(before.len() as int) == before);
    }
}

/// Appending to what was appended is appending.
pub proof fn lemma_appended_twice(a: Seq<u8>, b: Seq<u8>, c: Seq<u8>)
    requires
        appended(a, b),
        appended(b, c),
    ensures
        appended(a, c),
{
    assert(c.take(a.len() as int) =~= a) by {
        assert(c.take(b.len() as int) == b);
        assert(b.take(a.len() as int) == a);
    }
    if c.len() > a.len() {
        if b.len() > a.len() {
            assert(c.take(b.len() as int)[a.len() as int] == c[a.len() as int]);
        }
    }
}

/// The instructions that push an integer, as far as the protocol version
/// admits them, in the order of the table.
pub open spec fn int_like_opcodes(version: Version) -> Seq<OpcodeKind> {
    if version.ordinal() == 0 {
        seq![OpcodeKind::Int, OpcodeKind::Long]
    } else if version.ordinal() == 1 {
        seq![
            OpcodeKind::Int,
            OpcodeKind::Long,
            OpcodeKind::BinInt,
            OpcodeKind::BinInt1,
            OpcodeKind::BinInt2,
        ]
    } else {
        seq![
            OpcodeKind::Int,
            OpcodeKind::Long,
            OpcodeKind::BinInt,
            OpcodeKind::BinInt1,
            OpcodeKind::BinInt2,
            OpcodeKind::Long1,
            OpcodeKind::Long4,
        ]
    }
}

/// The operand of an integer instruction for the value `value`: decimal
/// text and a line feed, with the letter `L` between them for the long
/// form; or the two's complement of the value in one, two or four bytes,
/// least significant first, behind a length of one or four bytes for the
/// long binary forms.
pub open spec fn int_operand(op: OpcodeKind, value: i32) -> Seq<u8> {
    match op {
        OpcodeKind::Int => decimal_int(value as int) + seq![10u8],
        OpcodeKind::Long => decimal_int(value as int) + seq![76u8, 10u8],
        OpcodeKind::Long1 => seq![4u8] + le_bytes(unsigned32(value as int), 4),
        OpcodeKind::Long4 => le_bytes(4, 4) + le_bytes(unsigned32(value as int), 4),
        OpcodeKind::BinInt => le_bytes(unsigned32(value as int), 4),
        OpcodeKind::BinInt1 => le_bytes(unsigned32(value as int), 1),
        _ => le_bytes(unsigned32(value as int), 2),
    }
}

/// An integer instruction: the form is drawn among those of the version,
/// the value is drawn and mutated.
pub open spec fn int_emission(config: Config, m: Machine, s: SourceView) -> (Machine, SourceView) {
    let kinds = int_like_opcodes(m.state.version);
    let pick = s.draw_index(kinds.len() as usize);
    let op = kinds[pick.0 as int];
    let raw = pick.1.draw_i32();
    let value = mutated_int(config.mutators, 0, raw.0, raw.1, config.rate);
    (m.emit(op, int_operand(op, value.0), Some(int_operand(op, value.0))), value.1)
}

/// `n` printable characters, and the source after them.
pub open spec fn draw_text(s: SourceView, n: nat) -> (Seq<u8>, SourceView)
    decreases n,
{
    if n == 0 {
        (Seq::<u8>::empty(), s)
    } else {
        let front = draw_text(s, (n - 1) as nat);
        let c = front.1.draw_ascii_char();
        (front.0.push(c.0), c.1)
    }
}

/// A text instruction for the text `text`: quoted and ended by a line feed
/// in the legacy quoted form, ended by a line feed in the legacy raw form,
/// behind its length in one, four or eight bytes in the binary forms. The
/// form with a length of one byte writes nothing for a text of 256 bytes
/// or more.
pub open spec fn string_written(m: Machine, op: OpcodeKind, text: Seq<u8>) -> Machine {
    match op {
        OpcodeKind::String => m.emit(
            op,
            seq![39u8] + text + seq![39u8, 10u8],
            Some(seq![39u8] + text + seq![39u8, 10u8]),
        ),
        OpcodeKind::Unicode => m.emit(op, text + seq![10u8], Some(text + seq![10u8])),
        OpcodeKind::ShortBinUnicode => if text.len() < 256 {
            m.emit(op, seq![text.len() as u8] + text, Some(text))
        } else {
            m
        },
        OpcodeKind::BinUnicode => m.emit(op, le_bytes(text.len(), 4) + text, Some(text)),
        OpcodeKind::BinUnicode8 => m.emit(op, le_bytes(text.len(), 8) + text, Some(text)),
        _ => m,
    }
}

/// A text instruction: up to 31 printable characters are drawn and
/// mutated.
pub open spec fn string_emission(config: Config, m: Machine, s: SourceView, op: OpcodeKind) -> (
    Machine,
    SourceView,
) {
    let len = s.draw_u8();
    let raw = draw_text(len.1, (len.0 % 32) as nat);
    let text = mutated_string(config.mutators, 0, raw.0, raw.1, config.rate);
    (string_written(m, op, text.0), text.1)
}

/// A byte string instruction for the bytes `bytes`, behind their length in
/// one, four or eight bytes. The forms with a length of one byte write
/// nothing for 256 bytes or more.
pub open spec fn bytes_written(m: Machine, op: OpcodeKind, bytes: Seq<u8>) -> Machine {
    match op {
        OpcodeKind::BinString | OpcodeKind::BinBytes => m.emit(
            op,
            le_bytes(bytes.len(), 4) + bytes,
            Some(bytes),
        ),
        OpcodeKind::ShortBinString | OpcodeKind::ShortBinBytes => if bytes.len() < 256 {
            m.emit(op, seq![bytes.len() as u8] + bytes, Some(bytes))
        } else {
            m
        },
        OpcodeKind::BinBytes8 | OpcodeKind::ByteArray8 => m.emit(
            op,
            le_bytes(bytes.len(), 8) + bytes,
            Some(bytes),
        ),
        _ => m,
    }
}

/// A byte string instruction: up to 31 bytes are drawn and mutated.
pub open spec fn bytes_emission(config: Config, m: Machine, s: SourceView, op: OpcodeKind) -> (
    Machine,
    SourceView,
) {
    let len = s.draw_u8();
    let raw = draw_raw(len.1, (len.0 % 32) as nat);
    let bytes = mutated_bytes(config.mutators, 0, raw.0, raw.1, config.rate);
    (bytes_written(m, op, bytes.0), bytes.1)
}

/// An instruction whose operand names a drawn module and attribute.
pub open spec fn module_emission(m: Machine, s: SourceView, op: OpcodeKind) -> (Machine, SourceView) {
    let module = random_module(s);
    (m.emit(op, module.0, Some(module.0)), module.1)
}

/// The header: for the third protocol and later ones, and once only, the
/// header's byte and the version.
pub open spec fn proto_emission(m: Machine) -> Machine {
    if m.state.version.ordinal() < 2 || m.state.proto_emitted {
        m
    } else {
        Machine {
            state: StateView { proto_emitted: true, ..m.state },
            output: m.output + seq![0x80u8, m.state.version.ordinal() as u8],
        }
    }
}

/// A text float: the value is drawn and mutated; `text` gives its decimal
/// text, and the simulation gets its bit pattern.
pub open spec fn float_emission(
    config: Config,
    m: Machine,
    s: SourceView,
    text: spec_fn(u64) -> Seq<u8>,
) -> (Machine, SourceView) {
    let raw = s.draw_float();
    let value = mutated_float(config.mutators, 0, raw.0, raw.1, config.rate);
    (
        m.emit(OpcodeKind::Float, text(value.0) + seq![10u8], Some(be_bytes(value.0 as nat, 8))),
        value.1,
    )
}

/// A binary float: the value is drawn and mutated, and written as its bit
/// pattern, most significant byte first.
pub open spec fn bin_float_emission(config: Config, m: Machine, s: SourceView) -> (
    Machine,
    SourceView,
) {
    let raw = s.draw_float();
    let value = mutated_float(config.mutators, 0, raw.0, raw.1, config.rate);
    (
        m.emit(OpcodeKind::BinFloat, be_bytes(value.0 as nat, 8), Some(be_bytes(value.0 as nat, 8))),
        value.1,
    )
}

/// The operand of a write to the reference table: the index is the
/// table's size, as decimal text and a line feed, as its lowest byte, or
/// as its four lowest bytes.
pub open spec fn put_operand(op: OpcodeKind, size: nat) -> Seq<u8> {
    match op {
        OpcodeKind::Put => decimal_nat(size) + seq![10u8],
        OpcodeKind::BinPut => le_bytes(size, 1),
        _ => le_bytes(size, 4),
    }
}

/// A write to the reference table. The top of the stack is read, not
/// taken.
pub open spec fn put_emission(m: Machine, op: OpcodeKind) -> Machine {
    m.emit(op, put_operand(op, m.state.memo.len()), Some(put_operand(op, m.state.memo.len())))
}

/// The operand of a read of the reference table: the index as decimal
/// text and a line feed, as one byte that stands for 255 where the index
/// is greater, or as its four lowest bytes.
pub open spec fn get_operand(op: OpcodeKind, index: usize) -> Seq<u8> {
    match op {
        OpcodeKind::Get => decimal_nat(index as nat) + seq![10u8],
        OpcodeKind::BinGet => seq![
            if index < 255 {
                index as u8
            } else {
                255u8
            },
        ],
        _ => le_bytes(index as nat, 4),
    }
}

/// A read of the reference table: an index is drawn among those of the
/// table, in their order, and mutated. The short form draws among the
/// indices below 256 only. Where there is nothing to draw from, nothing is
/// written.
pub open spec fn get_emission(config: Config, m: Machine, s: SourceView, op: OpcodeKind) -> (
    Machine,
    SourceView,
) {
    let count = if op == OpcodeKind::BinGet {
        memo_place(m.state.memo, 256, 0)
    } else {
        m.state.memo.len() as int
    };
    if count <= 0 {
        (m, s)
    } else {
        let pick = s.draw_range(0, count as usize);
        let index = mutated_memo_index(
            config.mutators,
            0,
            m.state.memo[pick.0 as int].0,
            pick.1,
            config.rate,
        );
        (m.emit(op, get_operand(op, index.0), Some(get_operand(op, index.0))), index.1)
    }
}

/// One more than `v`, staying at `max`.
pub open spec fn code_above(v: nat, max: nat) -> nat {
    if v >= max {
        max
    } else {
        v + 1
    }
}

/// An extension code: unsigned, in one, two or four bytes, and never zero.
pub open spec fn ext_emission(m: Machine, s: SourceView, op: OpcodeKind) -> (Machine, SourceView) {
    match op {
        OpcodeKind::Ext1 => {
            let v = s.draw_u8();
            let code = le_bytes(code_above(v.0 as nat, 0xff), 1);
            (m.emit(op, code, Some(code)), v.1)
        },
        OpcodeKind::Ext2 => {
            let v = s.draw_u16();
            let code = le_bytes(code_above(v.0 as nat, 0xffff), 2);
            (m.emit(op, code, Some(code)), v.1)
        },
        _ => {
            let v = s.draw_u32();
            let code = le_bytes(code_above(v.0 as nat, 0xffff_ffff), 4);
            (m.emit(op, code, Some(code)), v.1)
        },
    }
}

/// The text `pid_`.
pub open spec fn pid_prefix() -> Seq<u8> {
    seq![112u8, 105u8, 100u8, 95u8]
}

/// A persistent identifier: `pid_`, a drawn number, and a line feed.
pub open spec fn pers_id_emission(m: Machine, s: SourceView) -> (Machine, SourceView) {
    let v = s.draw_u32();
    let text = pid_prefix() + decimal_nat(v.0 as nat) + seq![10u8];
    (m.emit(OpcodeKind::PersID, text, Some(text)), v.1)
}

/// The machine and the source after the instruction `op` was written and
/// simulated, before the strategies rewrite anything. `float_text` gives
/// the decimal text of the value of a text float.
pub open spec fn emission(
    config: Config,
    m: Machine,
    s: SourceView,
    op: OpcodeKind,
    float_text: spec_fn(u64) -> Seq<u8>,
) -> (Machine, SourceView) {
    match op {
        OpcodeKind::Int
        | OpcodeKind::Long
        | OpcodeKind::Long1
        | OpcodeKind::Long4
        | OpcodeKind::BinInt
        | OpcodeKind::BinInt1
        | OpcodeKind::BinInt2 => int_emission(config, m, s),
        OpcodeKind::Float => float_emission(config, m, s, float_text),
        OpcodeKind::BinFloat => bin_float_emission(config, m, s),
        OpcodeKind::String
        | OpcodeKind::Unicode
        | OpcodeKind::ShortBinUnicode
        | OpcodeKind::BinUnicode
        | OpcodeKind::BinUnicode8 => string_emission(config, m, s, op),
        OpcodeKind::BinString
        | OpcodeKind::ShortBinString
        | OpcodeKind::ShortBinBytes
        | OpcodeKind::BinBytes
        | OpcodeKind::BinBytes8
        | OpcodeKind::ByteArray8 => bytes_emission(config, m, s, op),
        OpcodeKind::Global | OpcodeKind::Inst => module_emission(m, s, op),
        OpcodeKind::Put | OpcodeKind::BinPut | OpcodeKind::LongBinPut => (put_emission(m, op), s),
        OpcodeKind::Get | OpcodeKind::BinGet | OpcodeKind::LongBinGet => get_emission(
            config,
            m,
            s,
            op,
        ),
        OpcodeKind::Ext1 | OpcodeKind::Ext2 | OpcodeKind::Ext4 => ext_emission(m, s, op),
        OpcodeKind::PersID => pers_id_emission(m, s),
        _ => (m.emit(op, Seq::<u8>::empty(), None), s),
    }
}

/// The machine and the source after the instruction `op` was written,
/// simulated, and left to every strategy for rewriting.
pub open spec fn emission_processed(
    config: Config,
    m: Machine,
    s: SourceView,
    op: OpcodeKind,
    float_text: spec_fn(u64) -> Seq<u8>,
) -> (Machine, SourceView) {
    let e = emission(config, m, s, op, float_text);
    let p = post_processed(
        config.mutators,
        0,
        m.output.len() as usize,
        e.0.output.skip(m.output.len() as int),
        e.0.output,
        e.1,
        config.rate,
    );
    (Machine { state: e.0.state, output: p.0 }, p.1)
}

fn int_kinds(version: Version) -> (kinds: Vec<OpcodeKind>)
    ensures
        kinds@ == int_like_opcodes(version),
        kinds@.len() >= 2,
        forall|i: int| 0 <= i < kinds@.len() ==> (#[trigger] kinds@[i]).is_int_like(),
{
    let mut kinds: Vec<OpcodeKind> = Vec::new();
    kinds.push(OpcodeKind::Int);
    kinds.push(OpcodeKind::Long);
    if version.as_u8() >= 1 {
        kinds.push(OpcodeKind::BinInt);
        kinds.push(OpcodeKind::BinInt1);
        kinds.push(OpcodeKind::BinInt2);
    }
    if version.as_u8() >= 2 {
        kinds.push(OpcodeKind::Long1);
        kinds.push(OpcodeKind::Long4);
    }
    assert(kinds@ =~= int_like_opcodes(version));
    kinds
}

fn int_operand_bytes(op: OpcodeKind, value: i32) -> (bytes: Vec<u8>)
    requires
        op.is_int_like(),
    ensures
        bytes@ == int_operand(op, value),
{
    let mut bytes: Vec<u8> = Vec::new();
    match op {
        OpcodeKind::Int => {
            push_decimal_i64(&mut bytes, value as i64);
            bytes.push(10);
        },
        OpcodeKind::Long => {
            push_decimal_i64(&mut bytes, value as i64);
            bytes.push(76);
            bytes.push(10);
        },
        OpcodeKind::Long1 => {
            bytes.push(4);
            push_le(&mut bytes, to_unsigned32(value) as u64, 4);
        },
        OpcodeKind::Long4 => {
            push_le(&mut bytes, 4, 4);
            push_le(&mut bytes, to_unsigned32(value) as u64, 4);
        },
        OpcodeKind::BinInt => {
            push_le(&mut bytes, to_unsigned32(value) as u64, 4);
        },
        OpcodeKind::BinInt1 => {
            push_le(&mut bytes, to_unsigned32(value) as u64, 1);
        },
        _ => {
            push_le(&mut bytes, to_unsigned32(value) as u64, 2);
        },
    }
    assert(bytes@ =~= int_operand(op, value));
    bytes
}

impl Generator {
    /// Writes the wire byte of `opcode` and the bytes `written`, and
    /// simulates the instruction with the operand `arg`.
    pub fn write_and_simulate(&mut self, opcode: OpcodeKind, written: &[u8], arg: Option<&[u8]>)
        requires
            old(self).state@.wf(),
            operand_fits(opcode, operand_view(arg)),
        ensures
            final(self).machine() == old(self).machine().emit(opcode, written@, operand_view(arg)),
            final(self).state@.wf(),
            final(self).settings() == old(self).settings(),
            stepped(old(self).state@, final(self).state@, opcode),
    {
        self.output.push(opcode.as_u8());
        push_all(&mut self.output, written);
        self.process_stack_ops(opcode, arg);
        assert(self.output@ =~= old(self).output@ + seq![opcode.byte()] + written@);
    }

    /// Writes an instruction that has no operand, and simulates it.
    pub fn emit_opcode(&mut self, opcode: OpcodeKind)
        requires
            old(self).state@.wf(),
        ensures
            final(self).machine() == old(self).machine().emit(opcode, Seq::<u8>::empty(), None),
            final(self).state@.wf(),
            final(self).settings() == old(self).settings(),
            stepped(old(self).state@, final(self).state@, opcode),
    {
        self.output.push(opcode.as_u8());
        self.process_stack_ops(opcode, None);
        assert(self.output@ =~= old(self).output@ + seq![opcode.byte()] + Seq::<u8>::empty());
    }

    /// Writes the header, if the protocol has one and it is not written
    /// yet.
    pub fn emit_proto(&mut self, _source: &mut GenerationSource)
        ensures
            final(self).machine() == proto_emission(old(self).machine()),
            final(self).settings() == old(self).settings(),
            final(_source)@ == old(_source)@,
    {
        if !self.state.version.at_least(Version::V2) {
            return ;
        }
        if self.state.proto_emitted {
            return ;
        }
        self.output.push(OpcodeKind::Proto.as_u8());
        self.output.push(self.state.version.as_u8());
        self.state.proto_emitted = true;
        assert(self.output@ =~= old(self).output@ + seq![
            0x80u8,
            old(self).state@.version.ordinal() as u8,
        ]);
    }

    /// Writes an instruction that names a drawn module and attribute.
    pub fn emit_global(&mut self, source: &mut GenerationSource)
        requires
            old(self).state@.wf(),
        ensures
            (final(self).machine(), final(source)@) == module_emission(
                old(self).machine(),
                old(source)@,
                OpcodeKind::Global,
            ),
            final(self).state@.wf(),
            final(self).settings() == old(self).settings(),
            stepped(old(self).state@, final(self).state@, OpcodeKind::Global),
    {
        let module = get_random_module(source);
        self.write_and_simulate(OpcodeKind::Global, module.as_slice(), Some(module.as_slice()));
    }

    /// Writes an integer instruction of a drawn form with a drawn value.
    pub fn emit_int(&mut self, source: &mut GenerationSource)
        requires
            old(self).state@.wf(),
        ensures
            (final(self).machine(), final(source)@) == int_emission(
                old(self).config(),
                old(self).machine(),
                old(source)@,
            ),
            final(self).state@.wf(),
            final(self).settings() == old(self).settings(),
            stepped(old(self).state@, final(self).state@, OpcodeKind::Int),
            appended(old(self).output@, final(self).output@),
    {
        let int_like = int_kinds(self.state.version);
        let idx: usize = source.choose_index(int_like.len());
        let chosen = int_like[idx];
        let raw: i32 = source.gen_i32();
        let value: i32 = self.mutate_int(raw, source);
        let arg = int_operand_bytes(chosen, value);
        proof {
            lemma_emit_appends(
                old(self).machine(),
                chosen,
                int_operand(chosen, value),
                Some(int_operand(chosen, value)),
            );
        }
        self.write_and_simulate(chosen, arg.as_slice(), Some(arg.as_slice()));
    }

    /// Writes a text instruction with a drawn text.
    pub fn emit_string(&mut self, opcode: OpcodeKind, source: &mut GenerationSource)
        requires
            old(self).state@.wf(),
        ensures
            (final(self).machine(), final(source)@) == string_emission(
                old(self).config(),
                old(self).machine(),
                old(source)@,
                opcode,
            ),
            final(self).state@.wf(),
            final(self).settings() == old(self).settings(),
            stepped(old(self).state@, final(self).state@, opcode),
            opcode != OpcodeKind::Proto && opcode != OpcodeKind::Frame ==> appended(
                old(self).output@,
                final(self).output@,
            ),
    {
        let len: usize = (source.gen_u8() % 32) as usize;
        let ghost start = source@;
        let mut text: Vec<u8> = Vec::new();
        let mut i: usize = 0;
        while i < len
            invariant
                i <= len,
                text@ == draw_text(start, i as nat).0,
                source@ == draw_text(start, i as nat).1,
            decreases len - i,
        {
            let c: u8 = source.gen_ascii_char();
            text.push(c);
            i = i + 1;
        }
        let text = self.mutate_string(text, source);
        proof {
            if opcode != OpcodeKind::Proto && opcode != OpcodeKind::Frame {
                lemma_emit_appends(old(self).machine(), opcode, Seq::empty(), None);
                lemma_emit_appends(
                    old(self).machine(),
                    opcode,
                    seq![39u8] + text@ + seq![39u8, 10u8],
                    Some(seq![39u8] + text@ + seq![39u8, 10u8]),
                );
                lemma_emit_appends(
                    old(self).machine(),
                    opcode,
                    text@ + seq![10u8],
                    Some(text@ + seq![10u8]),
                );
                lemma_emit_appends(
                    old(self).machine(),
                    opcode,
                    seq![text@.len() as u8] + text@,
                    Some(text@),
                );
                lemma_emit_appends(
                    old(self).machine(),
                    opcode,
                    le_bytes(text@.len(), 4) + text@,
                    Some(text@),
                );
                lemma_emit_appends(
                    old(self).machine(),
                    opcode,
                    le_bytes(text@.len(), 8) + text@,
                    Some(text@),
                );
            }
        }
        match opcode {
            OpcodeKind::String => {
                let mut quoted: Vec<u8> = Vec::new();
                quoted.push(39);
                push_all(&mut quoted, text.as_slice());
                quoted.push(39);
                quoted.push(10);
                assert(quoted@ =~= seq![39u8] + text@ + seq![39u8, 10u8]);
                self.write_and_simulate(opcode, quoted.as_slice(), Some(quoted.as_slice()));
            },
            OpcodeKind::Unicode => {
                let mut line: Vec<u8> = Vec::new();
                push_all(&mut line, text.as_slice());
                line.push(10);
                assert(line@ =~= text@ + seq![10u8]);
                self.write_and_simulate(opcode, line.as_slice(), Some(line.as_slice()));
            },
            OpcodeKind::ShortBinUnicode => {
                if text.len() < 256 {
                    let mut written: Vec<u8> = Vec::new();
                    written.push(text.len() as u8);
                    push_all(&mut written, text.as_slice());
                    assert(written@ =~= seq![text@.len() as u8] + text@);
                    self.write_and_simulate(opcode, written.as_slice(), Some(text.as_slice()));
                }
            },
            OpcodeKind::BinUnicode => {
                let mut written: Vec<u8> = Vec::new();
                push_le(&mut written, text.len() as u64, 4);
                push_all(&mut written, text.as_slice());
                assert(written@ =~= le_bytes(text@.len(), 4) + text@);
                self.write_and_simulate(opcode, written.as_slice(), Some(text.as_slice()));
            },
            OpcodeKind::BinUnicode8 => {
                let mut written: Vec<u8> = Vec::new();
                push_le(&mut written, text.len() as u64, 8);
                push_all(&mut written, text.as_slice());
                assert(written@ =~= le_bytes(text@.len(), 8) + text@);
                self.write_and_simulate(opcode, written.as_slice(), Some(text.as_slice()));
            },
            _ => {},
        }
    }

    /// Writes a byte string instruction with drawn bytes.
    pub fn emit_bytes(&mut self, opcode: OpcodeKind, source: &mut GenerationSource)
        requires
            old(self).state@.wf(),
        ensures
            (final(self).machine(), final(source)@) == bytes_emission(
                old(self).config(),
                old(self).machine(),
                old(source)@,
                opcode,
            ),
            final(self).state@.wf(),
            final(self).settings() == old(self).settings(),
            stepped(old(self).state@, final(self).state@, opcode),
            opcode != OpcodeKind::Proto && opcode != OpcodeKind::Frame ==> appended(
                old(self).output@,
                final(self).output@,
            ),
    {
        let len: usize = (source.gen_u8() % 32) as usize;
        let ghost start = source@;
        let mut bytes: Vec<u8> = Vec::new();
        let mut i: usize = 0;
        while i < len
            invariant
                i <= len,
                bytes@ == draw_raw(start, i as nat).0,
                source@ == draw_raw(start, i as nat).1,
            decreases len - i,
        {
            let b: u8 = source.gen_u8();
            bytes.push(b);
            i = i + 1;
        }
        let bytes = self.mutate_bytes(bytes, source);
        proof {
            if opcode != OpcodeKind::Proto && opcode != OpcodeKind::Frame {
                lemma_emit_appends(old(self).machine(), opcode, Seq::empty(), None);
                lemma_emit_appends(
                    old(self).machine(),
                    opcode,
                    seq![bytes@.len() as u8] + bytes@,
                    Some(bytes@),
                );
                lemma_emit_appends(
                    old(self).machine(),
                    opcode,
                    le_bytes(bytes@.len(), 4) + bytes@,
                    Some(bytes@),
                );
                lemma_emit_appends(
                    old(self).machine(),
                    opcode,
                    le_bytes(bytes@.len(), 8) + bytes@,
                    Some(bytes@),
                );
            }
        }
        match opcode {
            OpcodeKind::BinString | OpcodeKind::BinBytes => {
                let mut written: Vec<u8> = Vec::new();
                push_le(&mut written, bytes.len() as u64, 4);
                push_all(&mut written, bytes.as_slice());
                assert(written@ =~= le_bytes(bytes@.len(), 4) + bytes@);
                self.write_and_simulate(opcode, written.as_slice(), Some(bytes.as_slice()));
            },
            OpcodeKind::ShortBinString | OpcodeKind::ShortBinBytes => {
                if bytes.len() < 256 {
                    let mut written: Vec<u8> = Vec::new();
                    written.push(bytes.len() as u8);
                    push_all(&mut written, bytes.as_slice());
                    assert(written@ =~= seq![bytes@.len() as u8] + bytes@);
                    self.write_and_simulate(opcode, written.as_slice(), Some(bytes.as_slice()));
                }
            },
            OpcodeKind::BinBytes8 | OpcodeKind::ByteArray8 => {
                let mut written: Vec<u8> = Vec::new();
                push_le(&mut written, bytes.len() as u64, 8);
                push_all(&mut written, bytes.as_slice());
                assert(written@ =~= le_bytes(bytes@.len(), 8) + bytes@);
                self.write_and_simulate(opcode, written.as_slice(), Some(bytes.as_slice()));
            },
            _ => {},
        }
    }

    /// Writes a text float with a drawn value; the decimal text comes from
    /// `F`.
    fn emit_float<F: FloatText>(&mut self, source: &mut GenerationSource)
        requires
            old(self).state@.wf(),
        ensures
            (final(self).machine(), final(source)@) == float_emission(
                old(self).config(),
                old(self).machine(),
                old(source)@,
                texts::<F>(),
            ),
            final(self).state@.wf(),
            final(self).settings() == old(self).settings(),
            stepped(old(self).state@, final(self).state@, OpcodeKind::Float),
    {
        let raw: u64 = source.gen_f64();
        let value: u64 = self.mutate_float(raw, source);
        let text: Vec<u8> = F::decimal(value);
        let mut line: Vec<u8> = Vec::new();
        push_all(&mut line, text.as_slice());
        line.push(10);
        assert(line@ =~= text@ + seq![10u8]);
        let mut operand: Vec<u8> = Vec::new();
        push_be(&mut operand, value, 8);
        assert(operand@ =~= be_bytes(value as nat, 8));
        self.write_and_simulate(OpcodeKind::Float, line.as_slice(), Some(operand.as_slice()));
    }

    /// Writes a binary float with a drawn value.
    fn emit_bin_float(&mut self, source: &mut GenerationSource)
        requires
            old(self).state@.wf(),
        ensures
            (final(self).machine(), final(source)@) == bin_float_emission(
                old(self).config(),
                old(self).machine(),
                old(source)@,
            ),
            final(self).state@.wf(),
            final(self).settings() == old(self).settings(),
            stepped(old(self).state@, final(self).state@, OpcodeKind::BinFloat),
    {
        let raw: u64 = source.gen_f64();
        let value: u64 = self.mutate_float(raw, source);
        let mut operand: Vec<u8> = Vec::new();
        push_be(&mut operand, value, 8);
        assert(operand@ =~= be_bytes(value as nat, 8));
        self.write_and_simulate(OpcodeKind::BinFloat, operand.as_slice(), Some(operand.as_slice()));
    }

    /// Writes a write to the reference table under the table's size.
    fn emit_put(&mut self, opcode: OpcodeKind)
        requires
            old(self).state@.wf(),
            opcode == OpcodeKind::Put || opcode == OpcodeKind::BinPut || opcode
                == OpcodeKind::LongBinPut,
        ensures
            final(self).machine() == put_emission(old(self).machine(), opcode),
            final(self).state@.wf(),
            final(self).settings() == old(self).settings(),
            stepped(old(self).state@, final(self).state@, opcode),
    {
        let size: usize = self.state.memo.len();
        let mut operand: Vec<u8> = Vec::new();
        match opcode {
            OpcodeKind::Put => {
                push_decimal_u64(&mut operand, size as u64);
                operand.push(10);
            },
            OpcodeKind::BinPut => {
                push_le(&mut operand, size as u64, 1);
            },
            _ => {
                push_le(&mut operand, size as u64, 4);
            },
        }
        assert(operand@ =~= put_operand(opcode, size as nat));
        proof {
            reveal_with_fuel(le_bytes, 5);
        }
        self.write_and_simulate(opcode, operand.as_slice(), Some(operand.as_slice()));
    }

    /// Writes a read of the reference table at a drawn index.
    fn emit_get(&mut self, opcode: OpcodeKind, source: &mut GenerationSource)
        requires
            old(self).state@.wf(),
            opcode == OpcodeKind::Get || opcode == OpcodeKind::BinGet || opcode
                == OpcodeKind::LongBinGet,
        ensures
            (final(self).machine(), final(source)@) == get_emission(
                old(self).config(),
                old(self).machine(),
                old(source)@,
                opcode,
            ),
            final(self).state@.wf(),
            final(self).settings() == old(self).settings(),
            stepped(old(self).state@, final(self).state@, opcode),
    {
        let count: usize = match opcode {
            OpcodeKind::BinGet => self.state.memo.place(256),
            _ => self.state.memo.len(),
        };
        if count == 0 {
            return ;
        }
        let pick: usize = source.gen_range(0, count);
        let index: usize = self.state.memo.key_at(pick);
        let index: usize = self.mutate_memo_index(index, source);
        let mut operand: Vec<u8> = Vec::new();
        match opcode {
            OpcodeKind::Get => {
                push_decimal_u64(&mut operand, index as u64);
                operand.push(10);
            },
            OpcodeKind::BinGet => {
                if index < 255 {
                    operand.push(index as u8);
                } else {
                    operand.push(255);
                }
            },
            _ => {
                push_le(&mut operand, index as u64, 4);
            },
        }
        assert(operand@ =~= get_operand(opcode, index));
        proof {
            reveal_with_fuel(le_bytes, 5);
        }
        self.write_and_simulate(opcode, operand.as_slice(), Some(operand.as_slice()));
    }

    /// Writes an extension code that is not zero.
    fn emit_ext(&mut self, opcode: OpcodeKind, source: &mut GenerationSource)
        requires
            old(self).state@.wf(),
            opcode == OpcodeKind::Ext1 || opcode == OpcodeKind::Ext2 || opcode == OpcodeKind::Ext4,
        ensures
            (final(self).machine(), final(source)@) == ext_emission(
                old(self).machine(),
                old(source)@,
                opcode,
            ),
            final(self).state@.wf(),
            final(self).settings() == old(self).settings(),
            stepped(old(self).state@, final(self).state@, opcode),
    {
        let mut operand: Vec<u8> = Vec::new();
        match opcode {
            OpcodeKind::Ext1 => {
                let v: u8 = source.gen_u8();
                let code: u8 = if v == 0xff {
                    v
                } else {
                    v + 1
                };
                push_le(&mut operand, code as u64, 1);
            },
            OpcodeKind::Ext2 => {
                let v: u16 = source.gen_u16();
                let code: u16 = if v == 0xffff {
                    v
                } else {
                    v + 1
                };
                push_le(&mut operand, code as u64, 2);
            },
            _ => {
                let v: u32 = source.gen_u32();
                let code: u32 = if v == 0xffff_ffff {
                    v
                } else {
                    v + 1
                };
                push_le(&mut operand, code as u64, 4);
            },
        }
        self.write_and_simulate(opcode, operand.as_slice(), Some(operand.as_slice()));
    }

    /// Writes a persistent identifier with a drawn number.
    fn emit_pers_id(&mut self, source: &mut GenerationSource)
        requires
            old(self).state@.wf(),
        ensures
            (final(self).machine(), final(source)@) == pers_id_emission(
                old(self).machine(),
                old(source)@,
            ),
            final(self).state@.wf(),
            final(self).settings() == old(self).settings(),
            stepped(old(self).state@, final(self).state@, OpcodeKind::PersID),
    {
        let v: u32 = source.gen_u32();
        let mut text: Vec<u8> = Vec::new();
        text.push(112);
        text.push(105);
        text.push(100);
        text.push(95);
        push_decimal_u64(&mut text, v as u64);
        text.push(10);
        assert(text@ =~= pid_prefix() + decimal_nat(v as nat) + seq![10u8]);
        self.write_and_simulate(OpcodeKind::PersID, text.as_slice(), Some(text.as_slice()));
    }

    /// Writes an instance instruction that names a drawn module and class.
    fn emit_inst(&mut self, source: &mut GenerationSource)
        requires
            old(self).state@.wf(),
        ensures
            (final(self).machine(), final(source)@) == module_emission(
                old(self).machine(),
                old(source)@,
                OpcodeKind::Inst,
            ),
            final(self).state@.wf(),
            final(self).settings() == old(self).settings(),
            stepped(old(self).state@, final(self).state@, OpcodeKind::Inst),
    {
        let module = get_random_module(source);
        self.write_and_simulate(OpcodeKind::Inst, module.as_slice(), Some(module.as_slice()));
    }

    /// Writes the instruction `opcode` with an operand of its kind and
    /// simulates it; nothing is rewritten yet.
    fn emit_only<F: FloatText>(&mut self, opcode: OpcodeKind, source: &mut GenerationSource)
        requires
            old(self).state@.wf(),
            opcode != OpcodeKind::Frame,
        ensures
            (final(self).machine(), final(source)@) == emission(
                old(self).config(),
                old(self).machine(),
                old(source)@,
                opcode,
                texts::<F>(),
            ),
            final(self).state@.wf(),
            final(self).state@.version == old(self).state@.version,
            final(self).state@.proto_emitted == old(self).state@.proto_emitted,
            final(self).output@.len() >= old(self).output@.len(),
            final(self).output@.len() > old(self).output@.len() || final(self).machine() == old(
                self,
            ).machine(),
            final(self).settings() == old(self).settings(),
            stepped(old(self).state@, final(self).state@, opcode),
            opcode != OpcodeKind::Proto ==> appended(old(self).output@, final(self).output@),
    {
        let ghost m = self.machine();
        let ghost s = source@;
        let ghost config = self.config();
        match opcode {
            OpcodeKind::Int
            | OpcodeKind::Long
            | OpcodeKind::Long1
            | OpcodeKind::Long4
            | OpcodeKind::BinInt
            | OpcodeKind::BinInt1
            | OpcodeKind::BinInt2 => {
                self.emit_int(source);
            },
            OpcodeKind::Float => {
                self.emit_float::<F>(source);
                proof {
                    let raw = s.draw_float();
                    let value = mutated_float(config.mutators, 0, raw.0, raw.1, config.rate);
                    lemma_emit_appends(
                        m,
                        opcode,
                        texts::<F>()(value.0) + seq![10u8],
                        Some(be_bytes(value.0 as nat, 8)),
                    );
                }
            },
            OpcodeKind::BinFloat => {
                self.emit_bin_float(source);
                proof {
                    let raw = s.draw_float();
                    let value = mutated_float(config.mutators, 0, raw.0, raw.1, config.rate);
                    lemma_emit_appends(
                        m,
                        opcode,
                        be_bytes(value.0 as nat, 8),
                        Some(be_bytes(value.0 as nat, 8)),
                    );
                }
            },
            OpcodeKind::String
            | OpcodeKind::Unicode
            | OpcodeKind::ShortBinUnicode
            | OpcodeKind::BinUnicode
            | OpcodeKind::BinUnicode8 => {
                self.emit_string(opcode, source);
            },
            OpcodeKind::BinString
            | OpcodeKind::ShortBinString
            | OpcodeKind::ShortBinBytes
            | OpcodeKind::BinBytes
            | OpcodeKind::BinBytes8
            | OpcodeKind::ByteArray8 => {
                self.emit_bytes(opcode, source);
            },
            OpcodeKind::Global => {
                self.emit_global(source);
                proof {
                    let module = random_module(s);
                    lemma_emit_appends(m, opcode, module.0, Some(module.0));
                }
            },
            OpcodeKind::Put | OpcodeKind::BinPut | OpcodeKind::LongBinPut => {
                self.emit_put(opcode);
                proof {
                    let operand = put_operand(opcode, m.state.memo.len());
                    lemma_emit_appends(m, opcode, operand, Some(operand));
                }
            },
            OpcodeKind::Get | OpcodeKind::BinGet | OpcodeKind::LongBinGet => {
                self.emit_get(opcode, source);
                proof {
                    let count = if opcode == OpcodeKind::BinGet {
                        memo_place(m.state.memo, 256, 0)
                    } else {
                        m.state.memo.len() as int
                    };
                    if count > 0 {
                        let pick = s.draw_range(0, count as usize);
                        let index = mutated_memo_index(
                            config.mutators,
                            0,
                            m.state.memo[pick.0 as int].0,
                            pick.1,
                            config.rate,
                        );
                        let operand = get_operand(opcode, index.0);
                        lemma_emit_appends(m, opcode, operand, Some(operand));
                    } else {
                        lemma_emit_appends(m, opcode, Seq::empty(), None);
                    }
                }
            },
            OpcodeKind::Ext1 | OpcodeKind::Ext2 | OpcodeKind::Ext4 => {
                self.emit_ext(opcode, source);
                proof {
                    let e = ext_emission(m, s, opcode);
                    assert(appended(m.output, e.0.output)) by {
                        lemma_emit_appends(
                            m,
                            opcode,
                            le_bytes(code_above(s.draw_u8().0 as nat, 0xff), 1),
                            Some(le_bytes(code_above(s.draw_u8().0 as nat, 0xff), 1)),
                        );
                        lemma_emit_appends(
                            m,
                            opcode,
                            le_bytes(code_above(s.draw_u16().0 as nat, 0xffff), 2),
                            Some(le_bytes(code_above(s.draw_u16().0 as nat, 0xffff), 2)),
                        );
                        lemma_emit_appends(
                            m,
                            opcode,
                            le_bytes(code_above(s.draw_u32().0 as nat, 0xffff_ffff), 4),
                            Some(le_bytes(code_above(s.draw_u32().0 as nat, 0xffff_ffff), 4)),
                        );
                    }
                }
            },
            OpcodeKind::PersID => {
                self.emit_pers_id(source);
                proof {
                    let v = s.draw_u32();
                    let operand = pid_prefix() + decimal_nat(v.0 as nat) + seq![10u8];
                    lemma_emit_appends(m, opcode, operand, Some(operand));
                }
            },
            OpcodeKind::Inst => {
                self.emit_inst(source);
                proof {
                    let module = random_module(s);
                    lemma_emit_appends(m, opcode, module.0, Some(module.0));
                }
            },
            _ => {
                self.emit_opcode(opcode);
                proof {
                    if opcode != OpcodeKind::Proto {
                        lemma_emit_appends(m, opcode, Seq::empty(), None);
                    }
                }
            },
        }
    }

    /// Writes the instruction `opcode` with an operand of its kind,
    /// simulates it, and lets every strategy rewrite what was written. The
    /// frame is not written here: the driver writes it.
    pub fn emit_and_process<F: FloatText>(
        &mut self,
        opcode: OpcodeKind,
        source: &mut GenerationSource,
    )
        requires
            old(self).state@.wf(),
            opcode != OpcodeKind::Frame,
        ensures
            (final(self).machine(), final(source)@) == emission_processed(
                old(self).config(),
                old(self).machine(),
                old(source)@,
                opcode,
                texts::<F>(),
            ),
            final(self).state@.wf(),
            final(self).state@.version == old(self).state@.version,
            final(self).state@.proto_emitted == old(self).state@.proto_emitted,
            final(self).settings() == old(self).settings(),
            stepped(old(self).state@, final(self).state@, opcode),
            opcode != OpcodeKind::Proto ==> appended(old(self).output@, final(self).output@),
            final(self).output@.len() > old(self).output@.len() || final(self).machine() == old(
                self,
            ).machine(),
    {
        let snapshot = self.create_snapshot();
        self.emit_only::<F>(opcode, source);
        let ghost written = self.output@;
        let ghost drawn = source@;
        self.post_process_emission(snapshot, source);
        proof {
            if opcode != OpcodeKind::Proto {
                lemma_kept_appends(old(self).output@, written, self.output@);
            }
            if written.len() == old(self).output@.len() {
                assert(written.skip(old(self).output@.len() as int) =~= Seq::<u8>::empty());
                lemma_nothing_to_rewrite(
                    old(self).mutators@,
                    0,
                    old(self).output@.len() as usize,
                    written,
                    drawn,
                    old(self).mutation_rate,
                );
            }
        }
    }
}

} // verus!
