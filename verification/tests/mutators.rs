use pickle_fuzzer::mutators::typeconfusion::StackType;
use pickle_fuzzer::mutators::{
    BitFlipMutator, BoundaryMutator, CharacterMutator, MemoIndexMutator, OffByOneMutator,
    StringLengthMutator, TypeConfusionMutator,
};
use pickle_fuzzer::opcodes::OpcodeKind;
use pickle_fuzzer::source::{EntropySource, GenerationSource};
use pickle_fuzzer::{EmissionSnapshot, Mutator, MutatorKind};

fn rate(value: f64) -> u64 {
    value.to_bits()
}

#[test]
fn test_bitflip_name() {
    let mutator = BitFlipMutator;
    assert_eq!(mutator.name(), "bitflip");
}

#[test]
fn test_bitflip_int_always_mutates_at_rate_1() {
    let mutator = BitFlipMutator;
    let mut source = GenerationSource::from_seed(42);

    let original = 0b1010_1010;
    let result = mutator.mutate_int(original, &mut source, rate(1.0));

    assert!(result.is_some());
    let mutated = result.unwrap();
    assert_ne!(mutated, original);

    let diff = original ^ mutated;
    assert_eq!(diff.count_ones(), 1);
}

#[test]
fn test_bitflip_int_never_mutates_at_rate_0() {
    let mutator = BitFlipMutator;
    let mut source = GenerationSource::from_seed(42);

    let result = mutator.mutate_int(100, &mut source, rate(0.0));
    assert!(result.is_none());
}

#[test]
fn test_bitflip_long_always_mutates_at_rate_1() {
    let mutator = BitFlipMutator;
    let mut source = GenerationSource::from_seed(42);

    let original = 0x1234_5678_9ABC_DEF0_i64;
    let result = mutator.mutate_long(original, &mut source, rate(1.0));

    assert!(result.is_some());
    let mutated = result.unwrap();
    assert_ne!(mutated, original);

    let diff = original ^ mutated;
    assert_eq!(diff.count_ones(), 1);
}

#[test]
fn test_bitflip_long_never_mutates_at_rate_0() {
    let mutator = BitFlipMutator;
    let mut source = GenerationSource::from_seed(42);

    let result = mutator.mutate_long(1000, &mut source, rate(0.0));
    assert!(result.is_none());
}

#[test]
fn test_bitflip_int_zero() {
    let mutator = BitFlipMutator;
    let mut source = GenerationSource::from_seed(42);

    let result = mutator.mutate_int(0, &mut source, rate(1.0));
    assert!(result.is_some());

    let mutated = result.unwrap();
    assert_ne!(mutated, 0);
    assert_eq!(mutated.count_ones(), 1);
}

#[test]
fn test_bitflip_produces_different_results() {
    let mutator = BitFlipMutator;
    let mut source = GenerationSource::from_seed(42);

    let value = 0xFF00;
    let mut results = std::collections::HashSet::new();

    for _ in 0..20 {
        if let Some(mutated) = mutator.mutate_int(value, &mut source, rate(1.0)) {
            results.insert(mutated);
        }
    }

    assert!(results.len() > 1);
}

#[test]
fn test_boundary_name() {
    let mutator = BoundaryMutator;
    assert_eq!(mutator.name(), "boundary");
}

#[test]
fn test_boundary_int_returns_boundary_values() {
    let mutator = BoundaryMutator;
    let mut source = GenerationSource::from_seed(42);

    let boundaries = [0, -1, 1, i32::MAX, i32::MIN];

    for _ in 0..20 {
        if let Some(result) = mutator.mutate_int(100, &mut source, rate(1.0)) {
            assert!(boundaries.contains(&result));
        }
    }
}

#[test]
fn test_boundary_int_never_mutates_at_rate_0() {
    let mutator = BoundaryMutator;
    let mut source = GenerationSource::from_seed(42);

    let result = mutator.mutate_int(100, &mut source, rate(0.0));
    assert!(result.is_none());
}

#[test]
fn test_boundary_long_returns_boundary_values() {
    let mutator = BoundaryMutator;
    let mut source = GenerationSource::from_seed(42);

    let boundaries = [0, -1, 1, i64::MAX, i64::MIN];

    for _ in 0..20 {
        if let Some(result) = mutator.mutate_long(1000, &mut source, rate(1.0)) {
            assert!(boundaries.contains(&result));
        }
    }
}

#[test]
fn test_boundary_float_returns_boundary_values() {
    let mutator = BoundaryMutator;
    let mut source = GenerationSource::from_seed(42);

    for _ in 0..20 {
        if let Some(bits) = mutator.mutate_float(rate(1.5), &mut source, rate(1.0)) {
            let result = f64::from_bits(bits);
            assert!(
                result == 0.0
                    || result == -1.0
                    || result == 1.0
                    || result == f64::MAX
                    || result == f64::MIN
                    || result.is_infinite()
                    || result.is_nan()
            );
        }
    }
}

#[test]
fn boundary_float_reaches_every_boundary() {
    let mutator = BoundaryMutator;
    let mut source = GenerationSource::from_seed(7);
    let mut seen = std::collections::HashSet::new();
    for _ in 0..400 {
        seen.insert(mutator.mutate_float(0, &mut source, rate(1.0)).unwrap());
    }
    let expected: std::collections::HashSet<u64> = [
        0.0f64,
        -1.0,
        1.0,
        f64::MAX,
        f64::MIN,
        f64::INFINITY,
        f64::NEG_INFINITY,
        f64::NAN,
    ]
    .iter()
    .map(|v| v.to_bits())
    .collect();
    assert_eq!(seen, expected);
}

#[test]
fn test_character_name() {
    let mutator = CharacterMutator;
    assert_eq!(mutator.name(), "character");
}

#[test]
fn test_character_mutate_string() {
    let mutator = CharacterMutator;
    let mut source = GenerationSource::from_seed(42);

    let original = "hello".to_string();
    let result = mutator.mutate_string(original.clone().into_bytes(), &mut source, rate(1.0));

    assert!(result.is_some());
    let mutated = String::from_utf8(result.unwrap()).unwrap();
    assert_eq!(mutated.len(), original.len());
    assert_ne!(mutated, original);
}

#[test]
fn test_character_mutate_string_empty() {
    let mutator = CharacterMutator;
    let mut source = GenerationSource::from_seed(42);

    let result = mutator.mutate_string(Vec::new(), &mut source, rate(1.0));
    assert!(result.is_none());
}

#[test]
fn test_character_mutate_bytes() {
    let mutator = CharacterMutator;
    let mut source = GenerationSource::from_seed(42);

    let original = vec![1, 2, 3, 4, 5];
    let result = mutator.mutate_bytes(original.clone(), &mut source, rate(1.0));

    assert!(result.is_some());
    let mutated = result.unwrap();
    assert_eq!(mutated.len(), original.len());
    assert_ne!(mutated, original);
}

#[test]
fn test_character_mutate_bytes_empty() {
    let mutator = CharacterMutator;
    let mut source = GenerationSource::from_seed(42);

    let result = mutator.mutate_bytes(vec![], &mut source, rate(1.0));
    assert!(result.is_none());
}

#[test]
fn test_character_never_mutates_at_rate_0() {
    let mutator = CharacterMutator;
    let mut source = GenerationSource::from_seed(42);

    assert!(mutator
        .mutate_string("test".to_string().into_bytes(), &mut source, rate(0.0))
        .is_none());
    assert!(mutator
        .mutate_bytes(vec![1, 2, 3], &mut source, rate(0.0))
        .is_none());
}

#[test]
fn character_replaces_one_place_with_a_printable_sign() {
    let mutator = CharacterMutator;
    let mut source = GenerationSource::from_seed(3);
    for _ in 0..50 {
        let original = b"0123456789".to_vec();
        let mutated = mutator
            .mutate_string(original.clone(), &mut source, rate(1.0))
            .unwrap();
        let changed: Vec<usize> = (0..10).filter(|&i| mutated[i] != original[i]).collect();
        assert!(changed.len() <= 1);
        for i in changed {
            assert!(33 <= mutated[i] && mutated[i] <= 126);
        }
    }
}

#[test]
fn test_memoindex_name() {
    let mutator = MemoIndexMutator::new(false);
    assert_eq!(mutator.name(), "memoindex");
}

#[test]
fn test_memoindex_safe_mode_small_perturbations() {
    let mutator = MemoIndexMutator::new(false);
    let mut source = GenerationSource::from_seed(42);

    let index = 10;
    for _ in 0..20 {
        if let Some(result) = mutator.mutate_memo_index(index, &mut source, rate(1.0)) {
            assert!(result == index || result == index + 1 || result == index - 1);
        }
    }
}

#[test]
fn test_memoindex_unsafe_mode_any_value() {
    let mutator = MemoIndexMutator::new(true);
    let mut source = GenerationSource::from_seed(42);

    let index: usize = 10;
    let mut found_far_value = false;

    for _ in 0..20 {
        if let Some(result) = mutator.mutate_memo_index(index, &mut source, rate(1.0)) {
            assert!(result < 1000);
            if result > index + 10 || result < index.saturating_sub(10) {
                found_far_value = true;
            }
        }
    }

    assert!(
        found_far_value,
        "unsafe mode should produce values far from original"
    );
}

#[test]
fn test_memoindex_never_mutates_at_rate_0() {
    let mutator = MemoIndexMutator::new(false);
    let mut source = GenerationSource::from_seed(42);

    assert!(mutator
        .mutate_memo_index(5, &mut source, rate(0.0))
        .is_none());
}

#[test]
fn test_memoindex_is_unsafe() {
    let safe_mutator = MemoIndexMutator::new(false);
    let unsafe_mutator = MemoIndexMutator::new(true);

    assert!(!safe_mutator.is_unsafe());
    assert!(unsafe_mutator.is_unsafe());
}

#[test]
fn test_offbyone_name() {
    let mutator = OffByOneMutator;
    assert_eq!(mutator.name(), "offbyone");
}

#[test]
fn test_offbyone_int_adds_or_subtracts_one() {
    let mutator = OffByOneMutator;
    let mut source = GenerationSource::from_seed(42);

    let value = 100;
    for _ in 0..10 {
        if let Some(result) = mutator.mutate_int(value, &mut source, rate(1.0)) {
            assert!(result == value + 1 || result == value - 1);
        }
    }
}

#[test]
fn test_offbyone_int_wrapping() {
    let mutator = OffByOneMutator;
    let mut source = GenerationSource::from_seed(42);

    if let Some(result) = mutator.mutate_int(i32::MAX, &mut source, rate(1.0)) {
        assert!(result == i32::MIN || result == i32::MAX - 1);
    }
}

#[test]
fn offbyone_wraps_at_both_ends() {
    let mutator = OffByOneMutator;
    let mut source = GenerationSource::from_seed(5);
    let mut at_max = std::collections::HashSet::new();
    let mut at_min = std::collections::HashSet::new();
    let mut long_max = std::collections::HashSet::new();
    let mut long_min = std::collections::HashSet::new();
    for _ in 0..40 {
        at_max.insert(mutator.mutate_int(i32::MAX, &mut source, rate(1.0)).unwrap());
        at_min.insert(mutator.mutate_int(i32::MIN, &mut source, rate(1.0)).unwrap());
        long_max.insert(mutator.mutate_long(i64::MAX, &mut source, rate(1.0)).unwrap());
        long_min.insert(mutator.mutate_long(i64::MIN, &mut source, rate(1.0)).unwrap());
    }
    assert_eq!(at_max, [i32::MIN, i32::MAX - 1].into_iter().collect());
    assert_eq!(at_min, [i32::MAX, i32::MIN + 1].into_iter().collect());
    assert_eq!(long_max, [i64::MIN, i64::MAX - 1].into_iter().collect());
    assert_eq!(long_min, [i64::MAX, i64::MIN + 1].into_iter().collect());
}

#[test]
fn test_offbyone_long_adds_or_subtracts_one() {
    let mutator = OffByOneMutator;
    let mut source = GenerationSource::from_seed(42);

    let value = 1000_i64;
    for _ in 0..10 {
        if let Some(result) = mutator.mutate_long(value, &mut source, rate(1.0)) {
            assert!(result == value + 1 || result == value - 1);
        }
    }
}

#[test]
fn test_offbyone_memo_index() {
    let mutator = OffByOneMutator;
    let mut source = GenerationSource::from_seed(42);

    let index = 5;
    for _ in 0..10 {
        if let Some(result) = mutator.mutate_memo_index(index, &mut source, rate(1.0)) {
            assert!(result == index + 1 || result == index - 1);
        }
    }
}

#[test]
fn test_offbyone_memo_index_saturating_at_zero() {
    let mutator = OffByOneMutator;
    let mut source = GenerationSource::from_seed(42);

    for _ in 0..10 {
        if let Some(result) = mutator.mutate_memo_index(0, &mut source, rate(1.0)) {
            assert!(result == 0 || result == 1);
        }
    }
}

#[test]
fn offbyone_memo_index_stays_at_the_largest() {
    let mutator = OffByOneMutator;
    let mut source = GenerationSource::from_seed(42);
    for _ in 0..10 {
        let result = mutator
            .mutate_memo_index(usize::MAX, &mut source, rate(1.0))
            .unwrap();
        assert!(result == usize::MAX || result == usize::MAX - 1);
    }
}

#[test]
fn test_offbyone_never_mutates_at_rate_0() {
    let mutator = OffByOneMutator;
    let mut source = GenerationSource::from_seed(42);

    assert!(mutator.mutate_int(100, &mut source, rate(0.0)).is_none());
    assert!(mutator.mutate_long(100, &mut source, rate(0.0)).is_none());
    assert!(mutator
        .mutate_memo_index(5, &mut source, rate(0.0))
        .is_none());
}

#[test]
fn test_stringlen_name() {
    let mutator = StringLengthMutator;
    assert_eq!(mutator.name(), "stringlen");
}

#[test]
fn test_stringlen_mutate_string_changes_length() {
    let mutator = StringLengthMutator;
    let mut source = GenerationSource::from_seed(42);

    let original = "hello".to_string();
    let mut found_shorter = false;
    let mut found_longer = false;

    for _ in 0..30 {
        if let Some(result) =
            mutator.mutate_string(original.clone().into_bytes(), &mut source, rate(1.0))
        {
            if result.len() < original.len() {
                found_shorter = true;
            }
            if result.len() > original.len() {
                found_longer = true;
            }
        }
    }

    assert!(found_shorter || found_longer, "should change length");
}

#[test]
fn test_stringlen_mutate_string_empty() {
    let mutator = StringLengthMutator;
    let mut source = GenerationSource::from_seed(42);

    for _ in 0..10 {
        if let Some(result) = mutator.mutate_string(Vec::new(), &mut source, rate(1.0)) {
            assert!(result.is_empty() || !result.is_empty());
        }
    }
}

#[test]
fn test_stringlen_mutate_bytes_changes_length() {
    let mutator = StringLengthMutator;
    let mut source = GenerationSource::from_seed(42);

    let original = vec![1, 2, 3, 4, 5];
    let mut found_shorter = false;
    let mut found_longer = false;

    for _ in 0..30 {
        if let Some(result) = mutator.mutate_bytes(original.clone(), &mut source, rate(1.0)) {
            if result.len() < original.len() {
                found_shorter = true;
            }
            if result.len() > original.len() {
                found_longer = true;
            }
        }
    }

    assert!(found_shorter || found_longer, "should change length");
}

#[test]
fn test_stringlen_mutate_bytes_empty() {
    let mutator = StringLengthMutator;
    let mut source = GenerationSource::from_seed(42);

    for _ in 0..10 {
        if let Some(result) = mutator.mutate_bytes(vec![], &mut source, rate(1.0)) {
            assert!(result.is_empty() || !result.is_empty());
        }
    }
}

#[test]
fn test_stringlen_never_mutates_at_rate_0() {
    let mutator = StringLengthMutator;
    let mut source = GenerationSource::from_seed(42);

    assert!(mutator
        .mutate_string("test".to_string().into_bytes(), &mut source, rate(0.0))
        .is_none());
    assert!(mutator
        .mutate_bytes(vec![1, 2, 3], &mut source, rate(0.0))
        .is_none());
}

#[test]
fn stringlen_cuts_extends_or_doubles() {
    let mutator = StringLengthMutator;
    let mut source = GenerationSource::from_seed(11);
    let original = b"hello".to_vec();
    let mut cut = false;
    let mut extended = false;
    let mut doubled = false;
    for _ in 0..200 {
        let result = mutator
            .mutate_string(original.clone(), &mut source, rate(1.0))
            .unwrap();
        if result.len() < 5 {
            assert_eq!(result[..], original[..result.len()]);
            cut = true;
        } else if result == b"hellohello" {
            doubled = true;
        } else {
            assert!(6 <= result.len() && result.len() <= 14);
            assert_eq!(result[..5], original[..]);
            assert!(result[5..].iter().all(|b| b.is_ascii_lowercase()));
            extended = true;
        }
    }
    assert!(cut && extended && doubled);
}

#[test]
fn test_typeconfusion_name() {
    let mutator = TypeConfusionMutator::new(true);
    assert_eq!(mutator.name(), "typeconfusion");
}

#[test]
fn test_typeconfusion_is_always_unsafe() {
    let mutator = TypeConfusionMutator::new(true);
    assert!(mutator.is_unsafe());

    let mutator_false = TypeConfusionMutator::new(false);
    assert!(mutator_false.is_unsafe());
}

#[test]
fn test_typeconfusion_opcode_to_type() {
    assert_eq!(
        TypeConfusionMutator::opcode_to_type(0x4a),
        Some(StackType::Int)
    );
    assert_eq!(
        TypeConfusionMutator::opcode_to_type(0x47),
        Some(StackType::Float)
    );
    assert_eq!(
        TypeConfusionMutator::opcode_to_type(0x8c),
        Some(StackType::String)
    );
    assert_eq!(
        TypeConfusionMutator::opcode_to_type(0x43),
        Some(StackType::Bytes)
    );
    assert_eq!(
        TypeConfusionMutator::opcode_to_type(0x5d),
        Some(StackType::List)
    );
    assert_eq!(
        TypeConfusionMutator::opcode_to_type(0x7d),
        Some(StackType::Dict)
    );
    assert_eq!(
        TypeConfusionMutator::opcode_to_type(0x29),
        Some(StackType::Tuple)
    );
    assert_eq!(
        TypeConfusionMutator::opcode_to_type(0x4e),
        Some(StackType::Null)
    );
    assert_eq!(
        TypeConfusionMutator::opcode_to_type(0x88),
        Some(StackType::Bool)
    );
    assert_eq!(TypeConfusionMutator::opcode_to_type(0xFF), None);
}

#[test]
fn test_typeconfusion_choose_wrong_type() {
    let mut source = GenerationSource::from_seed(42);

    let original = StackType::Int;
    for _ in 0..10 {
        let wrong = TypeConfusionMutator::choose_wrong_type(original, &mut source);
        assert_ne!(wrong, original, "should choose different type");
    }
}

#[test]
fn typeconfusion_chooses_each_other_type() {
    let mut source = GenerationSource::from_seed(1);
    let mut seen = Vec::new();
    for _ in 0..300 {
        let wrong = TypeConfusionMutator::choose_wrong_type(StackType::List, &mut source);
        assert_ne!(wrong, StackType::List);
        if !seen.contains(&wrong) {
            seen.push(wrong);
        }
    }
    assert_eq!(seen.len(), 8);
}

#[test]
fn test_typeconfusion_generate_opcode_for_type() {
    let mut source = GenerationSource::from_seed(42);

    let int_bytes = TypeConfusionMutator::generate_opcode_for_type(StackType::Int, &mut source);
    assert_eq!(int_bytes[0], OpcodeKind::BinInt.as_u8());
    assert_eq!(int_bytes.len(), 5);

    let float_bytes =
        TypeConfusionMutator::generate_opcode_for_type(StackType::Float, &mut source);
    assert_eq!(float_bytes[0], OpcodeKind::BinFloat.as_u8());
    assert_eq!(float_bytes.len(), 9);

    let string_bytes =
        TypeConfusionMutator::generate_opcode_for_type(StackType::String, &mut source);
    assert_eq!(string_bytes[0], OpcodeKind::ShortBinUnicode.as_u8());

    let list_bytes = TypeConfusionMutator::generate_opcode_for_type(StackType::List, &mut source);
    assert_eq!(list_bytes[0], OpcodeKind::EmptyList.as_u8());
    assert_eq!(list_bytes.len(), 1);

    let none_bytes = TypeConfusionMutator::generate_opcode_for_type(StackType::Null, &mut source);
    assert_eq!(none_bytes[0], OpcodeKind::Null.as_u8());
    assert_eq!(none_bytes.len(), 1);
}

#[test]
fn typeconfusion_replacements_are_exact() {
    let mut source = GenerationSource::from_bytes(&[0x78, 0x56, 0x34, 0x12, 1, 2, 3, 4, 5, 6, 7, 8, 1, 0]);
    assert_eq!(
        TypeConfusionMutator::generate_opcode_for_type(StackType::Int, &mut source),
        vec![0x4a, 0x78, 0x56, 0x34, 0x12]
    );
    assert_eq!(
        TypeConfusionMutator::generate_opcode_for_type(StackType::Float, &mut source),
        vec![0x47, 8, 7, 6, 5, 4, 3, 2, 1]
    );
    assert_eq!(
        TypeConfusionMutator::generate_opcode_for_type(StackType::String, &mut source),
        b"\x8c\x08confused".to_vec()
    );
    assert_eq!(
        TypeConfusionMutator::generate_opcode_for_type(StackType::Bytes, &mut source),
        b"C\x08confused".to_vec()
    );
    assert_eq!(
        TypeConfusionMutator::generate_opcode_for_type(StackType::Dict, &mut source),
        vec![0x7d]
    );
    assert_eq!(
        TypeConfusionMutator::generate_opcode_for_type(StackType::Tuple, &mut source),
        vec![0x29]
    );
    assert_eq!(
        TypeConfusionMutator::generate_opcode_for_type(StackType::Bool, &mut source),
        vec![0x88]
    );
    assert_eq!(
        TypeConfusionMutator::generate_opcode_for_type(StackType::Bool, &mut source),
        vec![0x89]
    );
}

#[test]
fn test_typeconfusion_post_process_disabled_in_safe_mode() {
    let mutator = TypeConfusionMutator::new(false);
    let mut source = GenerationSource::from_seed(42);

    let snapshot = EmissionSnapshot {
        stack_depth: 0,
        output_len: 0,
        memo_size: 0,
        stack_delta: vec![],
        output_delta: vec![0x4a, 0x01, 0x00, 0x00, 0x00],
        memo_delta: vec![],
    };

    let mut output = vec![0x4a, 0x01, 0x00, 0x00, 0x00];
    let result = mutator.post_process(&snapshot, &mut output, &mut source, rate(1.0));

    assert!(!result, "should not mutate in safe mode");
}

#[test]
fn test_typeconfusion_post_process_replaces_opcode() {
    let mutator = TypeConfusionMutator::new(true);
    let mut source = GenerationSource::from_seed(42);

    let snapshot = EmissionSnapshot {
        stack_depth: 0,
        output_len: 0,
        memo_size: 0,
        stack_delta: vec![],
        output_delta: vec![0x4a, 0x01, 0x00, 0x00, 0x00],
        memo_delta: vec![],
    };

    let output = vec![0x4a, 0x01, 0x00, 0x00, 0x00];

    let mut mutated = false;
    for _ in 0..20 {
        let mut test_output = output.clone();
        if mutator.post_process(&snapshot, &mut test_output, &mut source, rate(1.0)) {
            mutated = true;
            assert_ne!(
                test_output[0], 0x4a,
                "should replace BinInt with different opcode"
            );
            break;
        }
    }

    assert!(mutated, "should eventually mutate at rate 1.0");
}

#[test]
fn typeconfusion_keeps_what_stands_before_the_instruction() {
    let mutator = TypeConfusionMutator::new(true);
    let mut source = GenerationSource::from_seed(9);
    let snapshot = EmissionSnapshot {
        stack_depth: 0,
        output_len: 2,
        memo_size: 0,
        stack_delta: vec![],
        output_delta: vec![0x4e],
        memo_delta: vec![],
    };
    let mut output = vec![0x80, 0x04, 0x4e];
    assert!(mutator.post_process(&snapshot, &mut output, &mut source, rate(1.0)));
    assert_eq!(output[..2], [0x80, 0x04]);
    assert!(output.len() > 2);
    assert_ne!(output[2], 0x4e);
    assert!(TypeConfusionMutator::opcode_to_type(output[2]).is_some());

    let marker = EmissionSnapshot {
        stack_depth: 0,
        output_len: 2,
        memo_size: 0,
        stack_delta: vec![],
        output_delta: vec![0x28],
        memo_delta: vec![],
    };
    let mut output = vec![0x80, 0x04, 0x28];
    assert!(!mutator.post_process(&marker, &mut output, &mut source, rate(1.0)));
    assert_eq!(output, vec![0x80, 0x04, 0x28]);
}

#[test]
fn all_mutators_holds_the_unsafe_strategies_only_when_unsafe() {
    assert_eq!(
        MutatorKind::all_mutators(false),
        vec![
            MutatorKind::Bitflip,
            MutatorKind::Boundary,
            MutatorKind::Offbyone,
            MutatorKind::Stringlen,
            MutatorKind::Character,
        ]
    );
    for kind in MutatorKind::all_mutators(false) {
        assert!(!kind.create(false).is_unsafe());
    }
    assert_eq!(
        MutatorKind::all_mutators(true),
        vec![
            MutatorKind::Bitflip,
            MutatorKind::Boundary,
            MutatorKind::Offbyone,
            MutatorKind::Stringlen,
            MutatorKind::Character,
            MutatorKind::Typeconfusion,
            MutatorKind::Memoindex,
        ]
    );
}

#[test]
fn create_gives_each_strategy_by_its_name() {
    let names: Vec<&str> = MutatorKind::all_mutators(true)
        .iter()
        .map(|kind| kind.create(true).name())
        .collect();
    assert_eq!(
        names,
        vec![
            "bitflip",
            "boundary",
            "offbyone",
            "stringlen",
            "character",
            "typeconfusion",
            "memoindex"
        ]
    );
    assert_eq!(
        MutatorKind::Memoindex.create(true),
        Mutator::Memoindex(MemoIndexMutator::new(true))
    );
    assert!(!MutatorKind::Memoindex.create(false).is_unsafe());
    assert!(MutatorKind::Typeconfusion.create(false).is_unsafe());
    assert!(!MutatorKind::Bitflip.create(true).is_unsafe());
}

#[test]
fn a_strategy_leaves_other_kinds_of_value_alone() {
    let mut source = GenerationSource::from_bytes(&[1, 2, 3]);
    let bitflip = Mutator::Bitflip(BitFlipMutator);
    assert!(bitflip.mutate_float(0, &mut source, rate(1.0)).is_none());
    assert!(bitflip
        .mutate_string(b"abc".to_vec(), &mut source, rate(1.0))
        .is_none());
    assert!(bitflip
        .mutate_bytes(b"abc".to_vec(), &mut source, rate(1.0))
        .is_none());
    assert!(bitflip.mutate_memo_index(3, &mut source, rate(1.0)).is_none());
    let character = Mutator::Character(CharacterMutator);
    assert!(character.mutate_int(3, &mut source, rate(1.0)).is_none());
    assert!(character.mutate_long(3, &mut source, rate(1.0)).is_none());
    assert_eq!(source.gen_u8(), 1);
}
