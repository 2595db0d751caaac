use pickle_fuzzer::generator::words::{get_random_module, load_stdlib_complete, module_operand_bytes};
use pickle_fuzzer::mutators::{BoundaryMutator, TypeConfusionMutator};
use pickle_fuzzer::opcodes::OpcodeKind;
use pickle_fuzzer::source::{EntropySource, GenerationSource};
use pickle_fuzzer::stack::StackObject;
use pickle_fuzzer::{FloatText, Generator, Mutator, Version};

struct Decimal;

impl FloatText for Decimal {
    fn text_of(bits: u64) -> Vec<u8> {
        format!("{}", f64::from_bits(bits)).into_bytes()
    }

    fn decimal(bits: u64) -> Vec<u8> {
        Self::text_of(bits)
    }
}

fn emitted(version: Version, op: OpcodeKind, entropy: &[u8]) -> (Generator, Vec<u8>) {
    let mut gen = Generator::new(version);
    let mut source = GenerationSource::from_bytes(entropy);
    gen.emit_and_process::<Decimal>(op, &mut source);
    let out = gen.output.clone();
    (gen, out)
}

fn top(gen: &Generator) -> &StackObject {
    gen.state.stack.get(gen.peek().unwrap())
}

#[test]
fn integers_are_written_in_the_form_that_is_drawn() {
    let value = 0x1234_5678i32.to_le_bytes();
    let entropy = |form: u8| {
        let mut e = vec![form];
        e.extend_from_slice(&value);
        e
    };
    let (gen, out) = emitted(Version::V0, OpcodeKind::BinInt, &entropy(0));
    assert_eq!(out, b"I305419896\n".to_vec());
    assert!(matches!(top(&gen), StackObject::Int(305419896)));
    let (_, out) = emitted(Version::V0, OpcodeKind::Int, &entropy(1));
    assert_eq!(out, b"L305419896L\n".to_vec());
    let (_, out) = emitted(Version::V1, OpcodeKind::Int, &entropy(2));
    assert_eq!(out, vec![0x4a, 0x78, 0x56, 0x34, 0x12]);
    let (gen, out) = emitted(Version::V1, OpcodeKind::Int, &entropy(3));
    assert_eq!(out, vec![0x4b, 0x78]);
    assert!(matches!(top(&gen), StackObject::Int(0x78)));
    let (gen, out) = emitted(Version::V1, OpcodeKind::Int, &entropy(4));
    assert_eq!(out, vec![0x4d, 0x78, 0x56]);
    assert!(matches!(top(&gen), StackObject::Int(0x5678)));
    let (_, out) = emitted(Version::V2, OpcodeKind::Int, &entropy(5));
    assert_eq!(out, vec![0x8a, 4, 0x78, 0x56, 0x34, 0x12]);
    let (gen, out) = emitted(Version::V2, OpcodeKind::Int, &entropy(6));
    assert_eq!(out, vec![0x8b, 4, 0, 0, 0, 0x78, 0x56, 0x34, 0x12]);
    assert!(matches!(top(&gen), StackObject::Int(0x12345678)));
}

#[test]
fn negative_integers_are_written_in_two_s_complement() {
    let minus_two = (-2i32).to_le_bytes();
    let entropy = |form: u8| {
        let mut e = vec![form];
        e.extend_from_slice(&minus_two);
        e
    };
    let (gen, out) = emitted(Version::V2, OpcodeKind::Int, &entropy(0));
    assert_eq!(out, b"I-2\n".to_vec());
    assert!(matches!(top(&gen), StackObject::Int(-2)));
    let (gen, out) = emitted(Version::V2, OpcodeKind::Int, &entropy(2));
    assert_eq!(out, vec![0x4a, 0xfe, 0xff, 0xff, 0xff]);
    assert!(matches!(top(&gen), StackObject::Int(-2)));
    let (_, out) = emitted(Version::V2, OpcodeKind::Int, &entropy(3));
    assert_eq!(out, vec![0x4b, 0xfe]);
    let (_, out) = emitted(Version::V2, OpcodeKind::Int, &entropy(4));
    assert_eq!(out, vec![0x4d, 0xfe, 0xff]);
    let (gen, out) = emitted(Version::V2, OpcodeKind::Int, &entropy(5));
    assert_eq!(out, vec![0x8a, 4, 0xfe, 0xff, 0xff, 0xff]);
    assert!(matches!(top(&gen), StackObject::Int(0xffff_fffe)));
}

#[test]
fn floats_are_written_as_text_and_as_patterns() {
    let entropy = 1.5f64.to_bits().to_le_bytes();
    let (gen, out) = emitted(Version::V0, OpcodeKind::Float, &entropy);
    assert_eq!(out, b"F1.5\n".to_vec());
    assert!(matches!(top(&gen), StackObject::Float(b) if *b == 1.5f64.to_bits()));
    let (gen, out) = emitted(Version::V1, OpcodeKind::BinFloat, &entropy);
    let mut expected = vec![0x47];
    expected.extend_from_slice(&1.5f64.to_be_bytes());
    assert_eq!(out, expected);
    assert!(matches!(top(&gen), StackObject::Float(b) if *b == 1.5f64.to_bits()));
    let (_, out) = emitted(Version::V0, OpcodeKind::Float, &f64::NAN.to_bits().to_le_bytes());
    assert_eq!(out, b"FNaN\n".to_vec());
    let (_, out) = emitted(Version::V0, OpcodeKind::Float, &[]);
    assert_eq!(out, b"F0\n".to_vec());
}

#[test]
fn texts_are_written_in_each_form() {
    let entropy = [3u8, 0, 26, 52, 99, 99];
    let (gen, out) = emitted(Version::V0, OpcodeKind::String, &entropy);
    assert_eq!(out, b"S'aA0'\n".to_vec());
    assert!(matches!(top(&gen), StackObject::String(s) if s == b"'aA0'\n"));
    let (gen, out) = emitted(Version::V0, OpcodeKind::Unicode, &entropy);
    assert_eq!(out, b"VaA0\n".to_vec());
    assert!(matches!(top(&gen), StackObject::String(s) if s == b"aA0\n"));
    let (gen, out) = emitted(Version::V4, OpcodeKind::ShortBinUnicode, &entropy);
    assert_eq!(out, b"\x8c\x03aA0".to_vec());
    assert!(matches!(top(&gen), StackObject::String(s) if s == b"aA0"));
    let (_, out) = emitted(Version::V1, OpcodeKind::BinUnicode, &entropy);
    assert_eq!(out, b"X\x03\x00\x00\x00aA0".to_vec());
    let (_, out) = emitted(Version::V4, OpcodeKind::BinUnicode8, &entropy);
    assert_eq!(out, b"\x8d\x03\x00\x00\x00\x00\x00\x00\x00aA0".to_vec());
    let (_, out) = emitted(Version::V4, OpcodeKind::BinUnicode, &[32]);
    assert_eq!(out, b"X\x00\x00\x00\x00".to_vec());
    let (_, out) = emitted(Version::V4, OpcodeKind::ShortBinUnicode, &[63, 94]);
    assert_eq!(out.len(), 2 + 31);
    assert_eq!(out[..3], [0x8c, 31, b'~']);
    assert!(out[3..].iter().all(|b| *b == b'a'));
}

#[test]
fn byte_strings_are_written_in_each_form() {
    let entropy = [2u8, 0xff, 0x00, 9];
    let (gen, out) = emitted(Version::V1, OpcodeKind::BinString, &entropy);
    assert_eq!(out, vec![0x54, 2, 0, 0, 0, 0xff, 0]);
    assert!(matches!(top(&gen), StackObject::Bytes(s) if s == &[0xff, 0]));
    let (_, out) = emitted(Version::V1, OpcodeKind::ShortBinString, &entropy);
    assert_eq!(out, vec![0x55, 2, 0xff, 0]);
    let (_, out) = emitted(Version::V3, OpcodeKind::ShortBinBytes, &entropy);
    assert_eq!(out, vec![0x43, 2, 0xff, 0]);
    let (_, out) = emitted(Version::V3, OpcodeKind::BinBytes, &entropy);
    assert_eq!(out, vec![0x42, 2, 0, 0, 0, 0xff, 0]);
    let (_, out) = emitted(Version::V4, OpcodeKind::BinBytes8, &entropy);
    assert_eq!(out, vec![0x8e, 2, 0, 0, 0, 0, 0, 0, 0, 0xff, 0]);
    let (gen, out) = emitted(Version::V5, OpcodeKind::ByteArray8, &entropy);
    assert_eq!(out, vec![0x96, 2, 0, 0, 0, 0, 0, 0, 0, 0xff, 0]);
    assert!(matches!(top(&gen), StackObject::ByteArray(s) if s == &[0xff, 0]));
}

#[test]
fn module_references_are_drawn_from_the_list() {
    let lines = load_stdlib_complete();
    assert_eq!(lines[0], "builtins.object");
    assert!(lines.contains(&"os.path.join"));
    assert!(lines.iter().all(|line| line.is_ascii() && !line.is_empty()));
    let (gen, out) = emitted(Version::V0, OpcodeKind::Global, &[0]);
    assert_eq!(out, b"cbuiltins\nobject\n".to_vec());
    assert_eq!(
        gen.peek().unwrap().as_global(&gen.state.stack),
        Some((b"builtins".to_vec(), b"object".to_vec()))
    );
    let place = lines.iter().position(|l| *l == "os.path.join").unwrap() as u8;
    let mut source = GenerationSource::from_bytes(&[place]);
    assert_eq!(get_random_module(&mut source), b"os\npath.join\n".to_vec());
    assert_eq!(module_operand_bytes(b"nodot"), b"nodot\nobject\n".to_vec());
    assert_eq!(module_operand_bytes(b""), b"\nobject\n".to_vec());
    assert_eq!(module_operand_bytes(b".x"), b"\nx\n".to_vec());
    assert_eq!(module_operand_bytes(b"x."), b"x\n\n".to_vec());
    let mut gen = Generator::new(Version::V0);
    gen.process_stack_ops(OpcodeKind::Mark, None);
    gen.process_stack_ops(OpcodeKind::Null, None);
    let mut source = GenerationSource::from_bytes(&[1]);
    gen.emit_and_process::<Decimal>(OpcodeKind::Inst, &mut source);
    assert_eq!(gen.output, b"ibuiltins\ndict\n".to_vec());
    assert_eq!(gen.state.stack.len(), 1);
}

#[test]
fn writes_name_the_size_of_the_table() {
    let mut gen = Generator::new(Version::V2);
    let mut source = GenerationSource::from_bytes(&[]);
    gen.process_stack_ops(OpcodeKind::NewTrue, None);
    gen.emit_and_process::<Decimal>(OpcodeKind::Put, &mut source);
    gen.emit_and_process::<Decimal>(OpcodeKind::BinPut, &mut source);
    gen.emit_and_process::<Decimal>(OpcodeKind::LongBinPut, &mut source);
    gen.emit_and_process::<Decimal>(OpcodeKind::Memoize, &mut source);
    assert_eq!(
        gen.output,
        vec![b'p', b'0', b'\n', b'q', 1, b'r', 2, 0, 0, 0, 0x94]
    );
    assert_eq!(gen.state.memo.len(), 4);
    assert_eq!(gen.state.stack.len(), 1);
    for i in 0..300usize {
        gen.put(4 + i, StackObject::Null);
    }
    gen.output.clear();
    gen.emit_and_process::<Decimal>(OpcodeKind::BinPut, &mut source);
    gen.emit_and_process::<Decimal>(OpcodeKind::LongBinPut, &mut source);
    gen.emit_and_process::<Decimal>(OpcodeKind::Put, &mut source);
    assert_eq!(
        gen.output,
        vec![b'q', 48, b'r', 0x30, 0x01, 0, 0, b'p', b'3', b'0', b'5', b'\n']
    );
    assert_eq!(gen.state.memo.len(), 306);
}

#[test]
fn reads_name_a_drawn_index_of_the_table() {
    let mut gen = Generator::new(Version::V2);
    gen.process_stack_ops(OpcodeKind::NewTrue, None);
    for index in [3usize, 7, 300, 70000] {
        gen.put(index, StackObject::Int(index as i64));
    }
    let mut source = GenerationSource::from_bytes(&[1, 2, 3, 1, 5]);
    gen.emit_and_process::<Decimal>(OpcodeKind::Get, &mut source);
    gen.emit_and_process::<Decimal>(OpcodeKind::Get, &mut source);
    gen.emit_and_process::<Decimal>(OpcodeKind::LongBinGet, &mut source);
    gen.emit_and_process::<Decimal>(OpcodeKind::BinGet, &mut source);
    gen.emit_and_process::<Decimal>(OpcodeKind::BinGet, &mut source);
    assert_eq!(
        gen.output,
        vec![
            b'g', b'7', b'\n', b'g', b'3', b'0', b'0', b'\n', b'j', 0x70, 0x11, 0x01, 0x00, b'h',
            7, b'h', 7
        ]
    );
    assert_eq!(gen.state.stack.len(), 6);
    assert!(matches!(top(&gen), StackObject::Int(7)));
    let mut empty = Generator::new(Version::V2);
    empty.emit_and_process::<Decimal>(OpcodeKind::Get, &mut source);
    empty.put(256, StackObject::Null);
    empty.emit_and_process::<Decimal>(OpcodeKind::BinGet, &mut source);
    assert!(empty.output.is_empty());
    assert_eq!(empty.state.stack.len(), 0);
}

#[test]
fn extension_codes_are_never_zero() {
    let (_, out) = emitted(Version::V2, OpcodeKind::Ext1, &[0]);
    assert_eq!(out, vec![0x82, 1]);
    let (_, out) = emitted(Version::V2, OpcodeKind::Ext1, &[0xff]);
    assert_eq!(out, vec![0x82, 0xff]);
    let (_, out) = emitted(Version::V2, OpcodeKind::Ext2, &[0xff, 0xff]);
    assert_eq!(out, vec![0x83, 0xff, 0xff]);
    let (_, out) = emitted(Version::V2, OpcodeKind::Ext2, &[0xff, 0x00]);
    assert_eq!(out, vec![0x83, 0x00, 0x01]);
    let (_, out) = emitted(Version::V2, OpcodeKind::Ext4, &[]);
    assert_eq!(out, vec![0x84, 1, 0, 0, 0]);
    let (_, out) = emitted(Version::V2, OpcodeKind::Ext4, &[0xff, 0xff, 0xff, 0xff]);
    assert_eq!(out, vec![0x84, 0xff, 0xff, 0xff, 0xff]);
}

#[test]
fn persistent_identifiers_carry_a_drawn_number() {
    let (gen, out) = emitted(Version::V0, OpcodeKind::PersID, &[0x39, 0x30]);
    assert_eq!(out, b"Ppid_12345\n".to_vec());
    assert!(matches!(top(&gen), StackObject::String(s) if s == b"pid_12345\n"));
}

#[test]
fn instructions_without_operand_are_one_byte() {
    for op in [
        OpcodeKind::Null,
        OpcodeKind::Mark,
        OpcodeKind::EmptyList,
        OpcodeKind::Pop,
        OpcodeKind::Stop,
        OpcodeKind::NewTrue,
        OpcodeKind::ReadOnlyBuffer,
    ] {
        let (_, out) = emitted(Version::V5, op, &[1, 2, 3]);
        assert_eq!(out, vec![op.as_u8()]);
    }
    let mut gen = Generator::new(Version::V5);
    gen.emit_opcode(OpcodeKind::EmptyTuple);
    gen.write_and_simulate(OpcodeKind::BinInt1, &[9], Some(&[9]));
    assert_eq!(gen.output, vec![0x29, 0x4b, 9]);
    assert_eq!(gen.state.stack.len(), 2);
}

#[test]
fn the_header_is_written_once_and_only_where_there_is_one() {
    let mut source = GenerationSource::from_bytes(&[]);
    for v in 0..2 {
        let mut gen = Generator::new(Version::try_from(v).unwrap());
        gen.emit_proto(&mut source);
        assert!(gen.output.is_empty());
        assert!(!gen.state.proto_emitted);
    }
    for v in 2..6usize {
        let mut gen = Generator::new(Version::try_from(v).unwrap());
        gen.emit_proto(&mut source);
        gen.emit_proto(&mut source);
        assert_eq!(gen.output, vec![0x80, v as u8]);
        assert!(gen.state.proto_emitted);
    }
}

#[test]
fn a_strategy_changes_the_value_that_is_written() {
    let mut gen = Generator::new(Version::V1)
        .with_mutator(Mutator::Boundary(BoundaryMutator))
        .with_mutation_rate(1.0f64.to_bits());
    let mut entropy = vec![2u8, 1, 2, 3, 4];
    entropy.extend_from_slice(&0.5f64.to_bits().to_le_bytes());
    entropy.push(3);
    let mut source = GenerationSource::from_bytes(&entropy);
    gen.emit_and_process::<Decimal>(OpcodeKind::Int, &mut source);
    assert_eq!(gen.output, vec![0x4a, 0xff, 0xff, 0xff, 0x7f]);
    let mut gen = Generator::new(Version::V1)
        .with_mutator(Mutator::Boundary(BoundaryMutator))
        .with_mutation_rate(0.25f64.to_bits());
    let mut source = GenerationSource::from_bytes(&entropy);
    gen.emit_and_process::<Decimal>(OpcodeKind::Int, &mut source);
    assert_eq!(gen.output, vec![0x4a, 1, 2, 3, 4]);
}

#[test]
fn the_first_strategy_that_changes_a_value_wins() {
    let gen = Generator::new(Version::V1)
        .with_mutators(vec![
            Mutator::Typeconfusion(TypeConfusionMutator::new(true)),
            Mutator::Boundary(BoundaryMutator),
            Mutator::Boundary(BoundaryMutator),
        ])
        .with_mutation_rate(0.75f64.to_bits());
    let mut entropy = Vec::new();
    entropy.extend_from_slice(&2.0f64.to_bits().to_le_bytes());
    entropy.extend_from_slice(&0.5f64.to_bits().to_le_bytes());
    entropy.push(1);
    entropy.push(0x77);
    let mut source = GenerationSource::from_bytes(&entropy);
    assert_eq!(gen.mutate_int(5, &mut source), -1);
    use_rest(&mut source, 0x77);
    let mut source = GenerationSource::from_bytes(&entropy);
    assert_eq!(gen.mutate_long(5, &mut source), -1);
    assert_eq!(gen.mutate_memo_index(5, &mut source), 5);
    assert_eq!(gen.mutate_string(b"ab".to_vec(), &mut source), b"ab".to_vec());
    assert_eq!(gen.mutate_bytes(b"ab".to_vec(), &mut source), b"ab".to_vec());
    use_rest(&mut source, 0x77);
    let silent = Generator::new(Version::V1);
    assert_eq!(silent.mutate_float(9, &mut source), 9);
}

fn use_rest(source: &mut GenerationSource, expected: u8) {
    assert_eq!(source.gen_u8(), expected);
}

#[test]
fn a_confused_type_takes_the_place_of_the_instruction() {
    let mut gen = Generator::new(Version::V2)
        .with_mutator(Mutator::Typeconfusion(TypeConfusionMutator::new(true)))
        .with_mutation_rate(1.0f64.to_bits())
        .with_unsafe_mutations(true);
    gen.output.push(0x80);
    gen.output.push(2);
    let mut entropy = Vec::new();
    entropy.extend_from_slice(&0.5f64.to_bits().to_le_bytes());
    entropy.push(6);
    let mut source = GenerationSource::from_bytes(&entropy);
    gen.emit_and_process::<Decimal>(OpcodeKind::EmptyList, &mut source);
    assert_eq!(gen.output, vec![0x80, 2, 0x4e]);
    assert!(matches!(top(&gen), StackObject::List(_)));
    let mut source = GenerationSource::from_bytes(&entropy);
    gen.emit_and_process::<Decimal>(OpcodeKind::Mark, &mut source);
    assert_eq!(gen.output, vec![0x80, 2, 0x4e, 0x28]);
}

#[test]
fn a_snapshot_holds_the_sizes_before_the_instruction() {
    let mut gen = Generator::new(Version::V2);
    gen.emit_opcode(OpcodeKind::Null);
    gen.emit_opcode(OpcodeKind::NewTrue);
    gen.put(0, StackObject::Null);
    let snapshot = gen.create_snapshot();
    assert_eq!(snapshot.stack_depth, 2);
    assert_eq!(snapshot.output_len, 2);
    assert_eq!(snapshot.memo_size, 1);
    assert!(snapshot.stack_delta.is_empty());
    assert!(snapshot.output_delta.is_empty());
    assert!(snapshot.memo_delta.is_empty());
}
