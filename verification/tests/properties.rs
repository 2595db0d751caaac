use pickle_fuzzer::mutators::{BitFlipMutator, TypeConfusionMutator};
use pickle_fuzzer::opcodes::{pickle_opcodes, OpcodeKind};
use pickle_fuzzer::source::{EntropySource, GenerationSource};
use pickle_fuzzer::{FloatText, GenerateError, Generator, Mutator, MutatorKind, Version};

struct Decimal;

impl FloatText for Decimal {
    fn text_of(bits: u64) -> Vec<u8> {
        format!("{}", f64::from_bits(bits)).into_bytes()
    }

    fn decimal(bits: u64) -> Vec<u8> {
        Self::text_of(bits)
    }
}

fn versions() -> Vec<Version> {
    (0..6).map(|v| Version::try_from(v).unwrap()).collect()
}

fn all_strategies(unsafe_mode: bool) -> Vec<Mutator> {
    MutatorKind::all_mutators(unsafe_mode)
        .iter()
        .map(|kind| kind.create(unsafe_mode))
        .collect()
}

fn check_output(version: Version, out: &[u8]) {
    assert!(!out.is_empty());
    assert_eq!(*out.last().unwrap(), 0x2e);
    let ordinal = version.as_u8();
    if ordinal >= 2 {
        assert_eq!(out[0], 0x80);
        assert_eq!(out[1], ordinal);
        if out[2] == 0x95 {
            assert!(ordinal >= 4);
            let mut field = [0u8; 8];
            field.copy_from_slice(&out[3..11]);
            assert_eq!(u64::from_le_bytes(field) as usize, out.len() - 11);
        }
    } else {
        assert_ne!(out[0], 0x80);
    }
}

#[test]
fn every_pass_gives_a_terminated_output_with_its_header() {
    for version in versions() {
        for seed in 0..40u64 {
            let mut gen = Generator::new(version)
                .with_seed(seed)
                .with_opcode_range(0, 80);
            let out = gen.generate::<Decimal>().unwrap();
            check_output(version, &out);
            assert_eq!(out, gen.output);
        }
    }
}

#[test]
fn every_pass_with_unsafe_strategies_gives_a_terminated_output() {
    for version in versions() {
        for seed in 0..30u64 {
            let mut gen = Generator::new(version)
                .with_seed(seed)
                .with_opcode_range(20, 120)
                .with_mutators(all_strategies(true))
                .with_mutation_rate(0.5f64.to_bits())
                .with_unsafe_mutations(true)
                .with_ext_opcodes(true)
                .with_buffer_opcodes(true);
            let out = gen.generate::<Decimal>().unwrap();
            check_output(version, &out);
        }
    }
}

#[test]
fn every_pass_from_bytes_gives_a_terminated_output() {
    for version in versions() {
        for len in 0..60usize {
            let data: Vec<u8> = (0..len).map(|i| (i * 89 + len * 31) as u8).collect();
            let mut gen = Generator::new(version).with_opcode_range(5, 40);
            let out = gen.generate_from_arbitrary::<Decimal>(&data).unwrap();
            check_output(version, &out);
            let mut again = Generator::new(version).with_opcode_range(5, 40);
            assert_eq!(again.generate_from_arbitrary::<Decimal>(&data).unwrap(), out);
        }
    }
}

#[test]
fn both_frame_decisions_occur_and_frames_are_exact() {
    for version in [Version::V4, Version::V5] {
        let mut framed = 0;
        let mut plain = 0;
        for seed in 0..60u64 {
            let mut gen = Generator::new(version).with_seed(seed).with_opcode_range(10, 30);
            let out = gen.generate::<Decimal>().unwrap();
            check_output(version, &out);
            if out[2] == 0x95 {
                framed += 1;
            } else {
                plain += 1;
            }
        }
        assert!(framed > 5 && plain > 5);
    }
    for version in [Version::V2, Version::V3] {
        for seed in 0..60u64 {
            let mut gen = Generator::new(version).with_seed(seed).with_opcode_range(10, 30);
            let out = gen.generate::<Decimal>().unwrap();
            assert_ne!(out[2], 0x95);
        }
    }
}

#[test]
fn an_empty_body_gives_the_null_value_and_the_terminator() {
    let expected: Vec<(Version, &[u8], Vec<u8>)> = vec![
        (Version::V0, &[], vec![0x4e, 0x2e]),
        (Version::V1, &[1], vec![0x4e, 0x2e]),
        (Version::V2, &[1], vec![0x80, 2, 0x4e, 0x2e]),
        (Version::V3, &[], vec![0x80, 3, 0x4e, 0x2e]),
        (Version::V4, &[0], vec![0x80, 4, 0x4e, 0x2e]),
        (Version::V4, &[], vec![0x80, 4, 0x4e, 0x2e]),
        (
            Version::V4,
            &[1],
            vec![0x80, 4, 0x95, 2, 0, 0, 0, 0, 0, 0, 0, 0x4e, 0x2e],
        ),
        (
            Version::V5,
            &[3],
            vec![0x80, 5, 0x95, 2, 0, 0, 0, 0, 0, 0, 0, 0x4e, 0x2e],
        ),
    ];
    for (version, data, out) in expected {
        let mut gen = Generator::new(version).with_opcode_range(0, 0);
        assert_eq!(gen.generate_from_arbitrary::<Decimal>(data).unwrap(), out);
        assert_eq!(gen.state.stack.len(), 1);
    }
}

#[test]
fn the_number_of_instructions_lies_between_the_bounds() {
    let mut gen = Generator::new(Version::V0).with_opcode_range(3, 3);
    let out = gen.generate_from_arbitrary::<Decimal>(&[]).unwrap();
    assert_eq!(out, b"I0\nI0\nI0\n\x87.".to_vec());
    let mut gen = Generator::new(Version::V0).with_opcode_range(3, 1);
    let out = gen.generate_from_arbitrary::<Decimal>(&[]).unwrap();
    assert_eq!(out, b"I0\nI0\nI0\n\x87.".to_vec());
    let mut gen = Generator::new(Version::V0).with_opcode_range(1, 4);
    let out = gen.generate_from_arbitrary::<Decimal>(&[2]).unwrap();
    assert_eq!(out, b"I0\nI0\nI0\n\x87.".to_vec());
    let mut gen = Generator::new(Version::V0).with_opcode_range(1, 2);
    let out = gen.generate_from_arbitrary::<Decimal>(&[1]).unwrap();
    assert_eq!(out, b"I0\nI0\n\x86.".to_vec());
    let mut gen = Generator::new(Version::V0).with_opcode_range(1, 2);
    let out = gen.generate_from_arbitrary::<Decimal>(&[0]).unwrap();
    assert_eq!(out, b"I0\n.".to_vec());
    let mut gen = Generator::new(Version::V0).with_min_opcodes(2).with_max_opcodes(2);
    let out = gen.generate_from_arbitrary::<Decimal>(&[]).unwrap();
    assert_eq!(out, b"I0\nI0\n\x86.".to_vec());
}

#[test]
fn the_cleanup_closes_groups_and_pairs_items() {
    let mut gen = Generator::new(Version::V1);
    for op in [
        OpcodeKind::Null,
        OpcodeKind::Mark,
        OpcodeKind::Null,
        OpcodeKind::Mark,
        OpcodeKind::Mark,
        OpcodeKind::Null,
        OpcodeKind::Null,
    ] {
        gen.process_stack_ops(op, None);
    }
    gen.cleanup_for_stop();
    assert_eq!(gen.output, vec![0x74, 0x74, 0x74, 0x86]);
    assert_eq!(gen.state.stack.len(), 1);
    assert!(!gen.has_mark());
    gen.cleanup_for_stop();
    assert_eq!(gen.output.len(), 4);
    let mut wide = Generator::new(Version::V1);
    for _ in 0..6 {
        wide.process_stack_ops(OpcodeKind::Null, None);
    }
    wide.cleanup_for_stop();
    assert_eq!(wide.output, vec![0x87, 0x87, 0x86]);
    let mut empty = Generator::new(Version::V1);
    empty.cleanup_for_stop();
    assert_eq!(empty.output, vec![0x4e]);
    assert_eq!(empty.state.stack.len(), 1);
}

#[test]
fn the_cleanup_gives_up_after_its_budget() {
    let mut gen = Generator::new(Version::V1);
    for _ in 0..20005 {
        gen.process_stack_ops(OpcodeKind::Null, None);
    }
    gen.cleanup_for_stop();
    assert_eq!(gen.output.len(), 10000);
    assert!(gen.output.iter().all(|b| *b == 0x87));
    assert_eq!(gen.state.stack.len(), 5);
    let mut gen = Generator::new(Version::V1);
    for _ in 0..20001 {
        gen.process_stack_ops(OpcodeKind::Null, None);
    }
    gen.cleanup_for_stop();
    assert_eq!(gen.output.len(), 10000);
    assert_eq!(gen.state.stack.len(), 1);
}

#[test]
fn the_same_seed_gives_the_same_output() {
    for version in versions() {
        for seed in [0u64, 42, 12345] {
            let make = || {
                Generator::new(version)
                    .with_seed(seed)
                    .with_mutators(all_strategies(true))
                    .with_mutation_rate(0.3f64.to_bits())
                    .with_unsafe_mutations(true)
            };
            let first = make().generate::<Decimal>().unwrap();
            let second = make().generate::<Decimal>().unwrap();
            assert_eq!(first, second);
        }
    }
    let mut a = Generator::new(Version::V4).with_seed(42).with_opcode_range(10, 10);
    let mut b = Generator::new(Version::V4).with_seed(42).with_opcode_range(10, 10);
    assert_eq!(
        a.generate::<Decimal>().unwrap(),
        b.generate::<Decimal>().unwrap()
    );
}

#[test]
fn different_seeds_give_different_outputs() {
    let mut collisions = 0;
    for trial in 0..100u64 {
        let mut a = Generator::new(Version::V3).with_seed(2 * trial);
        let mut b = Generator::new(Version::V3).with_seed(2 * trial + 1);
        if a.generate::<Decimal>().unwrap() == b.generate::<Decimal>().unwrap() {
            collisions += 1;
        }
    }
    assert_eq!(collisions, 0);
}

#[test]
fn without_a_seed_passes_differ() {
    let mut a = Generator::new(Version::V3);
    let mut b = Generator::new(Version::V3);
    let first: Result<Vec<u8>, GenerateError> = a.generate::<Decimal>();
    assert_ne!(first.unwrap(), b.generate::<Decimal>().unwrap());
}

#[test]
fn strategies_that_draw_nothing_are_as_good_as_none() {
    for version in versions() {
        for seed in 0..10u64 {
            let mut plain = Generator::new(version).with_seed(seed);
            let mut quiet = Generator::new(version)
                .with_seed(seed)
                .with_mutators(vec![
                    Mutator::Typeconfusion(TypeConfusionMutator::new(false)),
                    Mutator::Typeconfusion(TypeConfusionMutator::new(false)),
                ])
                .with_mutation_rate(0.0f64.to_bits());
            assert_eq!(
                plain.generate::<Decimal>().unwrap(),
                quiet.generate::<Decimal>().unwrap()
            );
        }
    }
}

#[test]
fn at_rate_zero_the_strategies_are_as_good_as_none() {
    for version in versions() {
        for seed in 0..10u64 {
            let mut plain = Generator::new(version)
                .with_seed(seed)
                .with_unsafe_mutations(true);
            let mut idle = Generator::new(version)
                .with_seed(seed)
                .with_mutators(all_strategies(true))
                .with_unsafe_mutations(true)
                .with_mutation_rate(0.0f64.to_bits());
            assert_eq!(
                plain.generate::<Decimal>().unwrap(),
                idle.generate::<Decimal>().unwrap()
            );
            let bytes: Vec<u8> = (0..200u64).map(|i| (i * 37 + seed) as u8).collect();
            let mut plain = Generator::new(version);
            let mut idle = Generator::new(version)
                .with_mutator(Mutator::Bitflip(BitFlipMutator))
                .with_mutation_rate(0.0f64.to_bits());
            assert_eq!(
                plain.generate_from_arbitrary::<Decimal>(&bytes).unwrap(),
                idle.generate_from_arbitrary::<Decimal>(&bytes).unwrap()
            );
        }
    }
}

#[test]
fn at_rate_zero_no_strategy_draws_or_changes_anything() {
    for data in [vec![], vec![0u8; 16], vec![0xffu8; 16]] {
        for mutator in all_strategies(true) {
            let mut source = GenerationSource::from_bytes(&data);
            let rate = 0.0f64.to_bits();
            assert_eq!(mutator.mutate_int(77, &mut source, rate), None);
            assert_eq!(mutator.mutate_long(77, &mut source, rate), None);
            assert_eq!(mutator.mutate_float(77, &mut source, rate), None);
            assert_eq!(mutator.mutate_string(b"abc".to_vec(), &mut source, rate), None);
            assert_eq!(mutator.mutate_bytes(b"abc".to_vec(), &mut source, rate), None);
            assert_eq!(mutator.mutate_memo_index(3, &mut source, rate), None);
            let mut untouched = GenerationSource::from_bytes(&data);
            assert_eq!(source.gen_bytes(data.len()), untouched.gen_bytes(data.len()));
        }
    }
}

#[test]
fn at_rate_one_a_bit_is_flipped_whatever_the_source_holds() {
    let mutator = BitFlipMutator;
    let buffers: Vec<Vec<u8>> = vec![
        vec![],
        vec![0u8; 16],
        7.5f64.to_bits().to_le_bytes().to_vec(),
        f64::NAN.to_bits().to_le_bytes().to_vec(),
        f64::INFINITY.to_bits().to_le_bytes().to_vec(),
        (-3.0f64).to_bits().to_le_bytes().to_vec(),
        vec![0xffu8; 24],
    ];
    for data in buffers {
        let mut source = GenerationSource::from_bytes(&data);
        let flipped = mutator.mutate_int(0x1234, &mut source, 1.0f64.to_bits()).unwrap();
        assert_eq!((flipped ^ 0x1234).count_ones(), 1);
        let mut source = GenerationSource::from_bytes(&data);
        let flipped = mutator.mutate_long(-5, &mut source, 1.0f64.to_bits()).unwrap();
        assert_eq!((flipped ^ -5).count_ones(), 1);
    }
}

#[test]
fn between_the_rates_the_drawn_value_decides() {
    let mutator = BitFlipMutator;
    let half = 0.5f64.to_bits();
    let mut low = GenerationSource::from_bytes(&0.25f64.to_bits().to_le_bytes());
    assert!(mutator.mutate_int(1, &mut low, half).is_some());
    let mut equal = GenerationSource::from_bytes(&0.5f64.to_bits().to_le_bytes());
    assert!(mutator.mutate_int(1, &mut equal, half).is_some());
    let mut high = GenerationSource::from_bytes(&0.75f64.to_bits().to_le_bytes());
    assert_eq!(mutator.mutate_int(1, &mut high, half), None);
    let mut above = GenerationSource::from_bytes(&9.0f64.to_bits().to_le_bytes());
    assert_eq!(mutator.mutate_int(1, &mut above, half), None);
}

#[test]
fn a_flipped_integer_differs_in_one_bit_and_rate_zero_keeps_it() {
    let mutator = BitFlipMutator;
    for seed in 0..50u64 {
        let original = (seed as i32).wrapping_mul(0x5bd1e995) ^ 0x1234;
        let mut source = GenerationSource::from_seed(seed);
        let flipped = mutator
            .mutate_int(original, &mut source, 1.0f64.to_bits())
            .unwrap();
        assert_eq!((flipped ^ original).count_ones(), 1);
        let mut source = GenerationSource::from_seed(seed);
        assert_eq!(mutator.mutate_int(original, &mut source, 0.0f64.to_bits()), None);
        let gen = Generator::new(Version::V2)
            .with_mutator(Mutator::Bitflip(BitFlipMutator))
            .with_mutation_rate(0.0f64.to_bits());
        let mut source = GenerationSource::from_seed(seed);
        assert_eq!(gen.mutate_int(original, &mut source), original);
        let gen = gen.with_mutation_rate(1.0f64.to_bits());
        let mut source = GenerationSource::from_seed(seed);
        assert_eq!(
            (gen.mutate_int(original, &mut source) ^ original).count_ones(),
            1
        );
    }
}

#[test]
fn the_rate_is_held_to_the_unit_interval() {
    let gen = Generator::new(Version::V2);
    assert_eq!(gen.mutation_rate, 0.1f64.to_bits());
    assert_eq!(
        gen.with_mutation_rate(7.5f64.to_bits()).mutation_rate,
        1.0f64.to_bits()
    );
    let gen = Generator::new(Version::V2);
    assert_eq!(
        gen.with_mutation_rate((-0.5f64).to_bits()).mutation_rate,
        0.0f64.to_bits()
    );
    let gen = Generator::new(Version::V2);
    assert_eq!(
        gen.with_mutation_rate(0.75f64.to_bits()).mutation_rate,
        0.75f64.to_bits()
    );
    let gen = Generator::new(Version::V2);
    assert!(f64::from_bits(gen.with_mutation_rate(f64::NAN.to_bits()).mutation_rate).is_nan());
}

#[test]
fn a_reset_empties_the_pass_and_keeps_the_configuration() {
    let mut gen = Generator::new(Version::V3)
        .with_seed(7)
        .with_buffer_size(4096)
        .with_opcode_range(5, 9)
        .with_mutator(Mutator::Bitflip(BitFlipMutator))
        .with_unsafe_mutations(true)
        .with_ext_opcodes(true)
        .with_buffer_opcodes(true);
    let first = gen.generate::<Decimal>().unwrap();
    assert!(gen.state.proto_emitted);
    gen.process_stack_ops(OpcodeKind::BinPut, Some(&[0]));
    assert!(gen.state.memo.len() > 0);
    gen.reset();
    assert_eq!(gen.output.len(), 0);
    assert_eq!(gen.state.memo.len(), 0);
    assert_eq!(gen.state.stack.len(), 0);
    assert!(gen.state.stack.objects.is_empty());
    assert!(!gen.state.proto_emitted);
    assert_eq!(gen.state.version, Version::V3);
    assert_eq!(gen.seed, Some(7));
    assert_eq!(gen.bufsize, Some(4096));
    assert_eq!((gen.min_opcodes, gen.max_opcodes), (5, 9));
    assert_eq!(gen.mutators, vec![Mutator::Bitflip(BitFlipMutator)]);
    assert!(gen.unsafe_mutations && gen.allow_ext_opcodes && gen.allow_buffer_opcodes);
    let second = gen.generate::<Decimal>().unwrap();
    check_output(Version::V3, &second);
    assert_eq!(first, second);
}

#[test]
fn a_second_pass_begins_afresh() {
    for version in versions() {
        let mut gen = Generator::new(version).with_seed(3).with_opcode_range(4, 8);
        let first = gen.generate::<Decimal>().unwrap();
        let second = gen.generate::<Decimal>().unwrap();
        assert_eq!(second, first);
        assert_eq!(gen.output, first);
        check_output(version, &second);
        let mut used = Generator::new(version).with_opcode_range(4, 8);
        used.process_stack_ops(OpcodeKind::Mark, None);
        used.process_stack_ops(OpcodeKind::Null, None);
        used.process_stack_ops(OpcodeKind::BinPut, Some(&[9]));
        used.output.push(0x80);
        let mut unused = Generator::new(version).with_opcode_range(4, 8);
        let bytes: Vec<u8> = (0..120u8).collect();
        assert_eq!(
            used.generate_from_arbitrary::<Decimal>(&bytes).unwrap(),
            unused.generate_from_arbitrary::<Decimal>(&bytes).unwrap()
        );
    }
}

#[test]
fn a_new_generator_has_the_default_configuration() {
    let gen = Generator::new(Version::V1);
    assert_eq!(gen.state.version, Version::V1);
    assert_eq!(gen.seed, None);
    assert_eq!(gen.bufsize, None);
    assert_eq!((gen.min_opcodes, gen.max_opcodes), (60, 300));
    assert!(gen.mutators.is_empty());
    assert!(!gen.unsafe_mutations && !gen.allow_ext_opcodes && !gen.allow_buffer_opcodes);
    assert!(gen.output.is_empty());
    assert_eq!(Version::default(), Version::V2);
}

#[test]
fn a_version_comes_from_its_ordinal() {
    for v in 0..6usize {
        let version = Version::try_from(v).unwrap();
        assert_eq!(version.as_u8() as usize, v);
        assert!(version.at_least(Version::V0));
        assert_eq!(version.at_least(Version::V4), v >= 4);
    }
    for v in [6usize, 7, 100, usize::MAX] {
        let refused = Version::try_from(v).unwrap_err();
        assert_eq!(refused.value, v);
        assert_eq!(refused.message(), "protocol version must be 0-5");
    }
    assert!(Version::V0 < Version::V5);
}

fn line_end(bytes: &[u8], from: usize) -> Option<usize> {
    bytes[from..].iter().position(|b| *b == b'\n').map(|i| from + i + 1)
}

fn counted(bytes: &[u8], from: usize, width: usize) -> Option<usize> {
    if from + width > bytes.len() {
        return None;
    }
    let mut len = 0usize;
    for i in (0..width).rev() {
        len = len.checked_mul(256)?.checked_add(bytes[from + i] as usize)?;
    }
    let end = (from + width).checked_add(len)?;
    if end <= bytes.len() {
        Some(end)
    } else {
        None
    }
}

/// Walks the instructions of a stream: every wire byte is an instruction of
/// the version, every operand is complete, and the terminator is the last
/// instruction and the last byte. Gives the instructions that it found.
fn disassemble(version: Version, bytes: &[u8]) -> Option<Vec<OpcodeKind>> {
    let table = pickle_opcodes(version);
    let mut found = Vec::new();
    let mut at = 0usize;
    while at < bytes.len() {
        let op = *table.iter().find(|op| op.as_u8() == bytes[at])?;
        let next = at + 1;
        let end = match op {
            OpcodeKind::Int
            | OpcodeKind::Long
            | OpcodeKind::String
            | OpcodeKind::Unicode
            | OpcodeKind::Float
            | OpcodeKind::Get
            | OpcodeKind::Put
            | OpcodeKind::PersID => line_end(bytes, next)?,
            OpcodeKind::Global | OpcodeKind::Inst => line_end(bytes, line_end(bytes, next)?)?,
            OpcodeKind::BinInt1
            | OpcodeKind::BinGet
            | OpcodeKind::BinPut
            | OpcodeKind::Ext1
            | OpcodeKind::Proto => next + 1,
            OpcodeKind::BinInt2 | OpcodeKind::Ext2 => next + 2,
            OpcodeKind::BinInt
            | OpcodeKind::LongBinGet
            | OpcodeKind::LongBinPut
            | OpcodeKind::Ext4 => next + 4,
            OpcodeKind::BinFloat | OpcodeKind::Frame => next + 8,
            OpcodeKind::Long1
            | OpcodeKind::ShortBinString
            | OpcodeKind::ShortBinBytes
            | OpcodeKind::ShortBinUnicode => counted(bytes, next, 1)?,
            OpcodeKind::Long4
            | OpcodeKind::BinString
            | OpcodeKind::BinBytes
            | OpcodeKind::BinUnicode => counted(bytes, next, 4)?,
            OpcodeKind::BinBytes8 | OpcodeKind::ByteArray8 | OpcodeKind::BinUnicode8 => {
                counted(bytes, next, 8)?
            }
            _ => next,
        };
        if end > bytes.len() {
            return None;
        }
        found.push(op);
        if op == OpcodeKind::Stop && end != bytes.len() {
            return None;
        }
        at = end;
    }
    if found.last() == Some(&OpcodeKind::Stop) {
        Some(found)
    } else {
        None
    }
}

#[test]
fn an_output_without_strategies_is_a_stream_of_whole_instructions() {
    for seed in 0..25u64 {
        let mut gen = Generator::new(Version::V3)
            .with_seed(seed)
            .with_opcode_range(60, 300);
        let out = gen.generate::<Decimal>().unwrap();
        let found = disassemble(Version::V3, &out).expect("the stream does not parse");
        assert_eq!(found[0], OpcodeKind::Proto);
        assert!(found.len() >= 62);
        assert_eq!(
            found.iter().filter(|op| **op == OpcodeKind::Stop).count(),
            1
        );
        assert_eq!(
            found.iter().filter(|op| **op == OpcodeKind::Proto).count(),
            1
        );
    }
    for version in versions() {
        if version.as_u8() < 2 {
            continue;
        }
        for seed in 0..10u64 {
            let mut gen = Generator::new(version).with_seed(100 + seed);
            let out = gen.generate::<Decimal>().unwrap();
            assert!(disassemble(version, &out).is_some());
        }
    }
    assert!(disassemble(Version::V3, &[0x80, 3, 0x4a, 1, 2, 0x2e]).is_none());
    assert!(disassemble(Version::V3, &[0x80, 3, 0x4e, 0x2e, 0x4e]).is_none());
    assert!(disassemble(Version::V3, &[0x80, 3, 0x4e]).is_none());
}
