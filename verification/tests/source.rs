use arbitrary::Unstructured;
use pickle_fuzzer::source::{alphabet_char, EntropySource, GenerationSource};
use rand::{Rng, SeedableRng, TryRngCore};
use rand_chacha::ChaCha8Rng;

const ASCII_CHARS: &[u8] = b"abcdefghijklmnopqrstuvwxyzABCDEFGHIJKLMNOPQRSTUVWXYZ0123456789 !\"#$%&'()*+,-./:;<=>?@[\\]^_`{|}~";

#[test]
fn a_seeded_source_draws_what_one_generator_draws() {
    for seed in [0u64, 1, 42, 999, u64::MAX] {
        let mut rng = ChaCha8Rng::seed_from_u64(seed);
        let mut source = GenerationSource::from_seed(seed);
        for round in 0..40usize {
            assert_eq!(source.gen_u8(), rng.random::<u8>());
            assert_eq!(source.gen_bool(), rng.random::<bool>());
            assert_eq!(source.gen_u16(), rng.random::<u16>());
            assert_eq!(source.gen_f64(), rng.random::<f64>().to_bits());
            assert_eq!(source.gen_u32(), rng.random::<u32>());
            assert_eq!(source.gen_i32(), rng.random::<i32>());
            assert_eq!(source.gen_i64(), rng.random::<i64>());
            assert_eq!(source.choose_index(round + 1), rng.random_range(0..round + 1));
            assert_eq!(source.gen_range(3, 1000), rng.random_range(3..1000));
            let mut bytes = vec![0u8; round];
            rng.try_fill_bytes(&mut bytes).unwrap();
            assert_eq!(source.gen_bytes(round), bytes);
            assert_eq!(
                source.gen_ascii_char(),
                ASCII_CHARS[rng.random_range(0..ASCII_CHARS.len())]
            );
        }
    }
}

#[test]
fn a_source_from_a_key_draws_what_the_keyed_generator_draws() {
    let key = [7u8; 32];
    let mut rng = ChaCha8Rng::from_seed(key);
    let mut source = GenerationSource::from_key(key);
    for _ in 0..100 {
        assert_eq!(source.gen_u32(), rng.random::<u32>());
        assert_eq!(source.gen_f64(), rng.random::<f64>().to_bits());
    }
}

#[test]
fn a_seeded_source_is_reproducible_and_seeds_differ() {
    let draws = |seed: u64| -> Vec<u32> {
        let mut source = GenerationSource::from_seed(seed);
        (0..16).map(|_| source.gen_u32()).collect()
    };
    assert_eq!(draws(42), draws(42));
    assert_ne!(draws(42), draws(43));
}

#[test]
fn the_operating_system_gives_different_keys() {
    let mut a = GenerationSource::from_os_entropy().unwrap();
    let mut b = GenerationSource::from_os_entropy().unwrap();
    let first: Vec<u64> = (0..4).map(|_| a.gen_f64()).collect();
    let second: Vec<u64> = (0..4).map(|_| b.gen_f64()).collect();
    assert_ne!(first, second);
}

#[test]
fn a_byte_source_draws_what_one_cursor_draws() {
    let data: Vec<u8> = (0..=255u8).cycle().take(700).map(|b| b.wrapping_mul(37).wrapping_add(11)).collect();
    let mut u = Unstructured::new(&data);
    let mut source = GenerationSource::from_bytes(&data);
    for round in 0..30usize {
        assert_eq!(source.gen_u8(), u.arbitrary::<u8>().unwrap_or(0));
        assert_eq!(source.gen_bool(), u.arbitrary::<bool>().unwrap_or(false));
        assert_eq!(source.gen_u16(), u.arbitrary::<u16>().unwrap_or(0));
        assert_eq!(
            source.gen_f64(),
            u.arbitrary::<f64>().unwrap_or(0.0).to_bits()
        );
        assert_eq!(source.gen_u32(), u.arbitrary::<u32>().unwrap_or(0));
        assert_eq!(source.gen_i32(), u.arbitrary::<i32>().unwrap_or(0));
        assert_eq!(source.gen_i64(), u.arbitrary::<i64>().unwrap_or(0));
        assert_eq!(
            source.choose_index(round + 1),
            u.choose_index(round + 1).unwrap_or(0)
        );
        assert_eq!(
            source.gen_range(3, 70000),
            u.int_in_range(3..=69999usize).unwrap_or(3)
        );
        let expected = u.bytes(round).unwrap_or(&[]).to_vec();
        assert_eq!(source.gen_bytes(round), expected);
        assert_eq!(
            source.gen_ascii_char(),
            ASCII_CHARS[u.choose_index(ASCII_CHARS.len()).unwrap_or(0)]
        );
    }
}

#[test]
fn a_byte_source_reads_numbers_least_significant_byte_first() {
    let mut source = GenerationSource::from_bytes(&[
        0x01, 0x02, 0x03, 0x04, 0x05, 0x06, 0x07, 0xff, 0xff, 0xff, 0xff, 0x80, 0, 0, 0, 0, 0, 0, 0x80,
        0x03,
    ]);
    assert_eq!(source.gen_u8(), 0x01);
    assert_eq!(source.gen_u16(), 0x0302);
    assert_eq!(source.gen_u32(), 0x07060504);
    assert_eq!(source.gen_i32(), -1);
    assert_eq!(source.gen_i64(), i64::MIN + 0x80);
    assert!(source.gen_bool());
}

#[test]
fn an_exhausted_byte_source_answers_with_defaults() {
    let mut source = GenerationSource::from_bytes(&[0xab]);
    assert_eq!(source.gen_u32(), 0xab);
    assert!(!source.gen_bool());
    assert_eq!(source.gen_u8(), 0);
    assert_eq!(source.gen_u16(), 0);
    assert_eq!(source.gen_u32(), 0);
    assert_eq!(source.gen_i32(), 0);
    assert_eq!(source.gen_i64(), 0);
    assert_eq!(source.gen_f64(), 0.0f64.to_bits());
    assert_eq!(source.choose_index(17), 0);
    assert_eq!(source.gen_range(5, 9), 5);
    assert_eq!(source.gen_bytes(3), Vec::<u8>::new());
    assert_eq!(source.gen_bytes(0), Vec::<u8>::new());
    assert_eq!(source.gen_ascii_char(), b'a');
}

#[test]
fn a_byte_source_keeps_its_bytes_when_too_few_are_left() {
    let mut source = GenerationSource::from_bytes(&[1, 2, 3]);
    assert_eq!(source.gen_bytes(4), Vec::<u8>::new());
    assert_eq!(source.gen_bytes(2), vec![1, 2]);
    assert_eq!(source.gen_u8(), 3);
}

#[test]
fn a_choice_among_nothing_draws_nothing() {
    for mut source in [
        GenerationSource::from_seed(5),
        GenerationSource::from_bytes(&[9, 8, 7]),
    ] {
        let mut untouched = match &source {
            GenerationSource::Rand(_) => GenerationSource::from_seed(5),
            GenerationSource::Arbitrary(_) => GenerationSource::from_bytes(&[9, 8, 7]),
        };
        assert_eq!(source.choose_index(0), 0);
        assert_eq!(source.gen_range(7, 7), 7);
        assert_eq!(source.gen_range(9, 2), 9);
        assert_eq!(source.gen_u32(), untouched.gen_u32());
    }
}

#[test]
fn drawn_numbers_are_of_their_range() {
    let mut source = GenerationSource::from_seed(77);
    for max in 1..200usize {
        assert!(source.choose_index(max) < max);
        let v = source.gen_range(max, 2 * max);
        assert!(max <= v && v < 2 * max);
    }
}

#[test]
fn the_alphabet_is_the_printable_characters_in_their_order() {
    for (i, expected) in ASCII_CHARS.iter().enumerate() {
        assert_eq!(alphabet_char(i), *expected);
    }
    assert_eq!(ASCII_CHARS.len(), 95);
}

#[test]
fn a_key_from_the_system_starts_the_stream_of_that_key() {
    let key = [7u8; 32];
    let mut given = GenerationSource::from_entropy(Some(key)).unwrap();
    let mut direct = GenerationSource::from_key(key);
    for _ in 0..16 {
        assert_eq!(given.gen_u32(), direct.gen_u32());
    }
}

#[test]
fn no_key_from_the_system_gives_no_source() {
    assert!(GenerationSource::from_entropy(None).is_none());
}

#[test]
fn a_byte_source_reads_a_range_from_as_many_bytes_as_its_size_has() {
    let mut source = GenerationSource::from_bytes(&[0x01, 0x02, 0x03]);
    assert_eq!(source.gen_range(10, 1000), 10 + 0x0102 % 990);
    assert_eq!(source.gen_u8(), 0x03);
    let mut source = GenerationSource::from_bytes(&[7, 9]);
    assert_eq!(source.choose_index(5), 7 % 5);
    assert_eq!(source.gen_u8(), 9);
    let mut source = GenerationSource::from_bytes(&[0xff]);
    assert_eq!(source.gen_range(10, 1000), 10 + 0xff);
    assert_eq!(source.gen_range(10, 1000), 10);
    let mut source = GenerationSource::from_bytes(&[1, 2, 3, 4, 5, 6, 7, 8, 9]);
    assert_eq!(source.gen_range(0, usize::MAX), 0x0102030405060708 % usize::MAX);
    assert_eq!(source.gen_u8(), 9);
    let mut source = GenerationSource::from_bytes(&[4, 5]);
    assert_eq!(source.gen_range(3, 4), 3);
    assert_eq!(source.choose_index(1), 0);
    assert_eq!(source.gen_u8(), 4);
    let mut source = GenerationSource::from_bytes(&[]);
    assert_eq!(source.choose_index(usize::MAX), 0);
    assert_eq!(source.gen_range(5, 6), 5);
}
