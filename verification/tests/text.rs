use pickle_fuzzer::decimal;
use pickle_fuzzer::wire;

fn text_of(v: i64) -> Vec<u8> {
    decimal::decimal_text(v)
}

#[test]
fn decimal_text_is_the_usual_text() {
    for v in [
        0i64,
        1,
        -1,
        9,
        10,
        -10,
        12345,
        -987654321,
        i32::MAX as i64,
        i32::MIN as i64,
        i64::MAX,
        i64::MIN,
    ] {
        assert_eq!(text_of(v), v.to_string().into_bytes());
    }
    let mut out = b"x".to_vec();
    decimal::push_decimal_u64(&mut out, u64::MAX);
    assert_eq!(out, b"x18446744073709551615".to_vec());
}

#[test]
fn signed_text_is_read_back() {
    assert_eq!(decimal::parse_decimal_i64(b"42"), Some(42));
    assert_eq!(decimal::parse_decimal_i64(b" 42\n"), Some(42));
    assert_eq!(decimal::parse_decimal_i64(b"\t-17 \r\n"), Some(-17));
    assert_eq!(decimal::parse_decimal_i64(b"+7"), Some(7));
    assert_eq!(decimal::parse_decimal_i64(b"-0"), Some(0));
    assert_eq!(decimal::parse_decimal_i64(b"007"), Some(7));
    assert_eq!(
        decimal::parse_decimal_i64(b"9223372036854775807"),
        Some(i64::MAX)
    );
    assert_eq!(
        decimal::parse_decimal_i64(b"-9223372036854775808"),
        Some(i64::MIN)
    );
    assert_eq!(decimal::parse_decimal_i64(b"9223372036854775808"), None);
    assert_eq!(decimal::parse_decimal_i64(b"-9223372036854775809"), None);
    assert_eq!(decimal::parse_decimal_i64(b"99999999999999999999999"), None);
    assert_eq!(decimal::parse_decimal_i64(b""), None);
    assert_eq!(decimal::parse_decimal_i64(b"   "), None);
    assert_eq!(decimal::parse_decimal_i64(b"-"), None);
    assert_eq!(decimal::parse_decimal_i64(b"+"), None);
    assert_eq!(decimal::parse_decimal_i64(b"+-1"), None);
    assert_eq!(decimal::parse_decimal_i64(b"1 2"), None);
    assert_eq!(decimal::parse_decimal_i64(b"12a"), None);
    assert_eq!(decimal::parse_decimal_i64(b"1.5"), None);
    assert_eq!(decimal::parse_decimal_i64(b"12L"), None);
    assert_eq!(decimal::parse_decimal_i64_before(b"12L\n", 2), Some(12));
}

#[test]
fn text_is_read_back_for_every_integer_written() {
    for v in [0i64, 5, -5, 1 << 40, -(1 << 40), i64::MAX, i64::MIN] {
        let mut line = text_of(v);
        line.push(b'\n');
        assert_eq!(decimal::parse_decimal_i64(&line), Some(v));
    }
}

#[test]
fn index_text_is_read_back() {
    assert_eq!(decimal::parse_decimal_index(b"0\n"), Some(0));
    assert_eq!(decimal::parse_decimal_index(b" 300 "), Some(300));
    assert_eq!(decimal::parse_decimal_index(b"+3"), Some(3));
    assert_eq!(decimal::parse_decimal_index(b"-3"), None);
    assert_eq!(decimal::parse_decimal_index(b"-0"), None);
    assert_eq!(decimal::parse_decimal_index(b""), None);
    assert_eq!(decimal::parse_decimal_index(b"3x"), None);
    assert_eq!(
        decimal::parse_decimal_index(usize::MAX.to_string().as_bytes()),
        Some(usize::MAX)
    );
    assert_eq!(
        decimal::parse_decimal_index(b"340282366920938463463374607431768211456"),
        None
    );
    assert_eq!(decimal::parse_index_range(b"ab12cd", 2, 4), Some(12));
    assert_eq!(decimal::parse_index_range(b"ab12cd", 2, 5), None);
    assert_eq!(decimal::parse_index_range(b"ab12cd", 2, 2), None);
}

#[test]
fn trimming_finds_the_text_between_the_white_space() {
    assert_eq!(decimal::trim_bounds(b"  ab \n", 0, 6), (2, 4));
    assert_eq!(decimal::trim_bounds(b"\x0b\x0cab", 0, 4), (2, 4));
    assert_eq!(decimal::trim_bounds(b"    ", 0, 4), (4, 4));
    assert_eq!(decimal::trim_bounds(b"a b", 0, 3), (0, 3));
    assert_eq!(decimal::trim_bounds(b" a b ", 1, 4), (1, 4));
    assert_eq!(decimal::strip_trailing_bound(b"12LL\n\n", 6, b'\n'), 4);
    assert_eq!(decimal::strip_trailing_bound(b"12LL\n\n", 4, b'L'), 2);
    assert_eq!(decimal::strip_trailing_bound(b"LLL", 3, b'L'), 0);
}

#[test]
fn numbers_are_written_in_both_byte_orders() {
    let mut out = vec![0xee];
    wire::push_le(&mut out, 0x0102030405060708, 8);
    wire::push_le(&mut out, 0x0102030405060708, 4);
    wire::push_le(&mut out, 0x0102030405060708, 2);
    wire::push_le(&mut out, 0x0102030405060708, 1);
    wire::push_le(&mut out, 0x0102030405060708, 0);
    assert_eq!(
        out,
        vec![0xee, 8, 7, 6, 5, 4, 3, 2, 1, 8, 7, 6, 5, 8, 7, 8]
    );
    let mut out = Vec::new();
    wire::push_be(&mut out, 1.5f64.to_bits(), 8);
    assert_eq!(out, 1.5f64.to_be_bytes().to_vec());
    wire::push_all(&mut out, b"xy");
    assert_eq!(out[8..], b"xy"[..]);
}

#[test]
fn numbers_are_read_in_both_byte_orders() {
    let bytes = [0xaa, 1, 2, 3, 4, 5, 6, 7, 8, 0xbb];
    assert_eq!(wire::read_le(&bytes, 1, 8), 0x0807060504030201);
    assert_eq!(wire::read_le(&bytes, 1, 2), 0x0201);
    assert_eq!(wire::read_le(&bytes, 9, 1), 0xbb);
    assert_eq!(wire::read_le(&bytes, 3, 0), 0);
    assert_eq!(wire::read_be(&bytes, 1, 8), 0x0102030405060708);
    assert_eq!(wire::read_be(&bytes, 0, 2), 0xaa01);
}

#[test]
fn signed_numbers_go_to_two_s_complement_and_back() {
    assert_eq!(wire::to_unsigned32(-1), u32::MAX);
    assert_eq!(wire::to_unsigned32(i32::MIN), 0x8000_0000);
    assert_eq!(wire::to_unsigned32(7), 7);
    assert_eq!(wire::to_signed32(u32::MAX), -1);
    assert_eq!(wire::to_signed32(0x8000_0000), i32::MIN);
    assert_eq!(wire::to_signed32(0x7fff_ffff), i32::MAX);
    assert_eq!(wire::to_signed64(u64::MAX), -1);
    assert_eq!(wire::to_signed64(1 << 63), i64::MIN);
    assert_eq!(wire::to_signed64(12), 12);
    for v in [0i32, 1, -1, 12345, -12345, i32::MAX, i32::MIN] {
        assert_eq!(wire::to_unsigned32(v), v as u32);
        assert_eq!(wire::to_signed32(v as u32), v);
    }
}

#[test]
fn every_white_space_character_is_trimmed() {
    let mut count = 0;
    for code in 0..=0x10FFFFu32 {
        if let Some(c) = char::from_u32(code) {
            if c.is_whitespace() {
                count += 1;
                let text = format!("{c}{c}-12{c}\n{c}");
                assert_eq!(decimal::parse_decimal_i64(text.as_bytes()), Some(-12));
                assert_eq!(decimal::parse_decimal_index(format!("{c}7{c}").as_bytes()), Some(7));
                let inner = format!("1{c}2");
                assert_eq!(decimal::parse_decimal_i64(inner.as_bytes()), None);
            } else if code < 0x3100 {
                let text = format!("{c}12");
                assert_eq!(
                    decimal::parse_decimal_i64(text.as_bytes()),
                    text.trim().parse::<i64>().ok()
                );
                let text = format!("12{c}");
                assert_eq!(
                    decimal::parse_decimal_i64(text.as_bytes()),
                    text.trim().parse::<i64>().ok()
                );
            }
        }
    }
    assert_eq!(count, 25);
}

#[test]
fn text_that_is_no_text_is_not_read() {
    for bytes in [
        &b"12\xff"[..],
        &b"\xff12"[..],
        &b"\xc2 12"[..],
        &b"12 \xc2"[..],
        &b"12\xe2\x80"[..],
        &b"\x80\x8012"[..],
        &b"\xe2\x80\x8012"[..],
    ] {
        let expected = std::str::from_utf8(bytes)
            .ok()
            .and_then(|s| s.trim().parse::<i64>().ok());
        assert_eq!(decimal::parse_decimal_i64(bytes), expected);
    }
    assert_eq!(decimal::parse_decimal_i64(b"\xe2\x80\x8012"), Some(12));
}
