//! Decimal ASCII text of integers, as the text operands of the format carry
//! them, and the reading of such operands back into integers.

use vstd::prelude::*;

verus! {

/// The ASCII minus sign.
pub const MINUS: u8 = 45;

/// The ASCII plus sign.
pub const PLUS: u8 = 43;

/// The ASCII digit zero.
pub const ZERO: u8 = 48;

/// The ASCII line feed that ends every text operand.
pub const NEWLINE: u8 = 10;

/// Decimal digits of `n`, most significant first, without leading zeros.
pub open spec fn decimal_nat(n: nat) -> Seq<u8>
    decreases n,
{
    if n < 10 {
        seq![(48 + n) as u8]
    } else {
        decimal_nat(n / 10).push((48 + n % 10) as u8)
    }
}

/// Decimal text of `i`: a minus sign for a negative number, then its digits.
pub open spec fn decimal_int(i: int) -> Seq<u8> {
    if i < 0 {
        seq![45u8] + decimal_nat((-i) as nat)
    } else {
        decimal_nat(i as nat)
    }
}

/// Whether a byte is an ASCII digit.
pub open spec fn is_digit(b: u8) -> bool {
    48 <= b <= 57
}

/// Whether every byte of `s` is an ASCII digit.
pub open spec fn all_digits(s: Seq<u8>) -> bool {
    forall|i: int| 0 <= i < s.len() ==> is_digit(#[trigger] s[i])
}

/// The number that a string of digits denotes; zero for the empty string.
pub open spec fn digits_value(s: Seq<u8>) -> nat
    decreases s.len(),
{
    if s.len() == 0 {
        0
    } else {
        (digits_value(s.drop_last()) * 10 + (s.last() - 48)) as nat
    }
}

/// Whether a byte is a white space character by itself: tab, line feed,
/// vertical tab, form feed, carriage return and space.
pub open spec fn is_space(b: u8) -> bool {
    (9 <= b <= 13) || b == 32
}

/// Whether two bytes are the UTF-8 form of a white space character: the
/// next-line control or the no-break space.
pub open spec fn is_space2(b0: u8, b1: u8) -> bool {
    b0 == 0xC2 && (b1 == 0x85 || b1 == 0xA0)
}

/// Whether three bytes are the UTF-8 form of a white space character: the
/// ogham space mark, a space of the general punctuation, a line or
/// paragraph separator, the narrow no-break space, the medium mathematical
/// space, or the ideographic space.
pub open spec fn is_space3(b0: u8, b1: u8, b2: u8) -> bool {
    ||| b0 == 0xE1 && b1 == 0x9A && b2 == 0x80
    ||| b0 == 0xE2 && b1 == 0x80 && (0x80 <= b2 <= 0x8A || b2 == 0xA8 || b2 == 0xA9 || b2 == 0xAF)
    ||| b0 == 0xE2 && b1 == 0x81 && b2 == 0x9F
    ||| b0 == 0xE3 && b1 == 0x80 && b2 == 0x80
}

/// The number of bytes of the white space character that `s` begins with;
/// 0 where it begins with none.
pub open spec fn space_at_start(s: Seq<u8>) -> nat {
    if s.len() >= 1 && is_space(s[0]) {
        1
    } else if s.len() >= 2 && is_space2(s[0], s[1]) {
        2
    } else if s.len() >= 3 && is_space3(s[0], s[1], s[2]) {
        3
    } else {
        0
    }
}

/// The number of bytes of the white space character that `s` ends with; 0
/// where it ends with none.
pub open spec fn space_at_end(s: Seq<u8>) -> nat {
    if s.len() >= 1 && is_space(s[s.len() - 1]) {
        1
    } else if s.len() >= 2 && is_space2(s[s.len() - 2], s[s.len() - 1]) {
        2
    } else if s.len() >= 3 && is_space3(s[s.len() - 3], s[s.len() - 2], s[s.len() - 1]) {
        3
    } else {
        0
    }
}

/// `s` without the white space characters at its start.
pub open spec fn trim_start(s: Seq<u8>) -> Seq<u8>
    decreases s.len(),
{
    if space_at_start(s) > 0 {
        trim_start(s.skip(space_at_start(s) as int))
    } else {
        s
    }
}

/// `s` without the white space characters at its end.
pub open spec fn trim_end(s: Seq<u8>) -> Seq<u8>
    decreases s.len(),
{
    if space_at_end(s) > 0 {
        trim_end(s.take(s.len() - space_at_end(s)))
    } else {
        s
    }
}

/// `s` without the white space characters at either end.
pub open spec fn trim(s: Seq<u8>) -> Seq<u8> {
    trim_end(trim_start(s))
}

/// `s` without any run of the byte `b` at its end.
pub open spec fn strip_trailing(s: Seq<u8>, b: u8) -> Seq<u8>
    decreases s.len(),
{
    if s.len() > 0 && s.last() == b {
        strip_trailing(s.drop_last(), b)
    } else {
        s
    }
}

/// The digits of a signed decimal: `s` without one leading sign.
pub open spec fn unsigned_part(s: Seq<u8>) -> Seq<u8> {
    if s.len() > 0 && (s[0] == 45u8 || s[0] == 43u8) {
        s.skip(1)
    } else {
        s
    }
}

/// The integer that `s` denotes: an optional sign and at least one digit,
/// nothing else, with a value that fits 64 signed bits.
pub open spec fn parse_i64(s: Seq<u8>) -> Option<i64> {
    let body = unsigned_part(s);
    let negative = s.len() > 0 && s[0] == 45u8;
    let value = if negative {
        -(digits_value(body) as int)
    } else {
        digits_value(body) as int
    };
    if body.len() == 0 || !all_digits(body) || value < i64::MIN || value > i64::MAX {
        None
    } else {
        Some(value as i64)
    }
}

/// The index that `s` denotes: an optional plus sign and at least one digit,
/// nothing else, with a value no greater than `limit`.
pub open spec fn parse_index(s: Seq<u8>, limit: nat) -> Option<nat> {
    let body = if s.len() > 0 && s[0] == 43u8 {
        s.skip(1)
    } else {
        s
    };
    if body.len() == 0 || !all_digits(body) || digits_value(body) > limit {
        None
    } else {
        Some(digits_value(body))
    }
}

/// A longer string of digits denotes no smaller a number than its prefix.
pub proof fn lemma_digits_value_grows(s: Seq<u8>, n: int)
    requires
        all_digits(s),
        0 <= n <= s.len(),
    ensures
        digits_value(s.take(n)) <= digits_value(s),
    decreases s.len(),
{
    if n == s.len() {
        assert(s.take(n) =~= s);
    } else {
        let front = s.drop_last();
        assert(front.take(n) =~= s.take(n));
        assert(is_digit(s.last()));
        assert(all_digits(front)) by {
            assert forall|i: int| 0 <= i < front.len() implies is_digit(#[trigger] front[i]) by {
                assert(front[i] == s[i]);
            }
        }
        lemma_digits_value_grows(front, n);
    }
}

/// The digits of a number are digits, and denote that number.
pub proof fn lemma_decimal_nat_denotes(n: nat)
    ensures
        decimal_nat(n).len() >= 1,
        all_digits(decimal_nat(n)),
        digits_value(decimal_nat(n)) == n,
    decreases n,
{
    if n < 10 {
        let s = decimal_nat(n);
        assert(s.drop_last() =~= Seq::<u8>::empty());
        assert(digits_value(s.drop_last()) == 0);
    } else {
        lemma_decimal_nat_denotes(n / 10);
        let front = decimal_nat(n / 10);
        let s = decimal_nat(n);
        assert(s.drop_last() =~= front);
        assert(s.last() == (48 + n % 10) as u8);
        assert forall|i: int| 0 <= i < s.len() implies is_digit(#[trigger] s[i]) by {
            if i < front.len() {
                assert(s[i] == front[i]);
            }
        }
    }
}

/// Text that begins and ends with a digit or a sign is its own trimmed
/// form.
pub proof fn lemma_trim_of_digits(s: Seq<u8>)
    requires
        s.len() > 0,
        s[0] < 0x80 && !is_space(s[0]),
        s.last() < 0x80 && !is_space(s.last()),
    ensures
        trim(s) == s,
{
}

/// One line feed behind text that begins and ends with a digit or a sign
/// is trimmed away.
pub proof fn lemma_trim_line(s: Seq<u8>)
    requires
        s.len() > 0,
        s[0] < 0x80 && !is_space(s[0]),
        s.last() < 0x80 && !is_space(s.last()),
    ensures
        trim(s.push(10u8)) == s,
{
    let line = s.push(10u8);
    assert(line[0] == s[0]);
    assert(trim_start(line) == line);
    assert(space_at_end(line) == 1);
    assert(line.take(line.len() - 1) =~= s);
    assert(trim_end(line) == trim_end(s));
}

/// Reading back the decimal text of an index, with or without its line
/// feed, gives the index.
pub proof fn lemma_index_round_trip(n: nat, limit: nat)
    requires
        n <= limit,
    ensures
        parse_index(trim(decimal_nat(n).push(10u8)), limit) == Some(n),
        parse_index(trim(decimal_nat(n)), limit) == Some(n),
{
    lemma_decimal_nat_denotes(n);
    let s = decimal_nat(n);
    assert(is_digit(s[0]));
    assert(is_digit(s.last()));
    lemma_trim_line(s);
    lemma_trim_of_digits(s);
}

/// Reading back the decimal text of a signed integer and its line feed
/// gives the integer.
pub proof fn lemma_int_round_trip(v: i64)
    ensures
        parse_i64(trim(decimal_int(v as int).push(10u8))) == Some(v),
{
    let s = decimal_int(v as int);
    if v < 0 {
        let digits = decimal_nat((-v) as nat);
        lemma_decimal_nat_denotes((-v) as nat);
        assert(s[0] == 45u8);
        assert(s.last() == digits.last());
        assert(is_digit(digits.last()));
        assert(s.skip(1) =~= digits);
        lemma_trim_line(s);
    } else {
        lemma_decimal_nat_denotes(v as nat);
        assert(is_digit(s[0]));
        assert(is_digit(s.last()));
        lemma_trim_line(s);
    }
}

/// Appends the decimal digits of `v` to `out`.
pub fn push_decimal_u64(out: &mut Vec<u8>, v: u64)
    ensures
        final(out)@ == old(out)@ + decimal_nat(v as nat),
    decreases v,
{
    if v >= 10 {
        push_decimal_u64(out, v / 10);
        out.push(ZERO + (v % 10) as u8);
        assert(out@ =~= old(out)@ + decimal_nat(v as nat));
    } else {
        out.push(ZERO + v as u8);
        assert(out@ =~= old(out)@ + decimal_nat(v as nat));
    }
}

/// Appends the decimal text of `v` to `out`.
pub fn push_decimal_i64(out: &mut Vec<u8>, v: i64)
    ensures
        final(out)@ == old(out)@ + decimal_int(v as int),
{
    if v < 0 {
        out.push(MINUS);
        let magnitude: u64 = if v == i64::MIN {
            0x8000_0000_0000_0000u64
        } else {
            (-v) as u64
        };
        push_decimal_u64(out, magnitude);
        assert(out@ =~= old(out)@ + decimal_int(v as int));
    } else {
        push_decimal_u64(out, v as u64);
    }
}

/// The decimal text of `v` as a vector of its own.
pub fn decimal_text(v: i64) -> (text: Vec<u8>)
    ensures
        text@ == decimal_int(v as int),
{
    let mut text: Vec<u8> = Vec::new();
    push_decimal_i64(&mut text, v);
    assert(text@ =~= decimal_int(v as int));
    text
}

fn byte_is_space(b: u8) -> (r: bool)
    ensures
        r == is_space(b),
{
    (9 <= b && b <= 13) || b == 32
}

fn bytes_are_space2(b0: u8, b1: u8) -> (r: bool)
    ensures
        r == is_space2(b0, b1),
{
    b0 == 0xC2 && (b1 == 0x85 || b1 == 0xA0)
}

fn bytes_are_space3(b0: u8, b1: u8, b2: u8) -> (r: bool)
    ensures
        r == is_space3(b0, b1, b2),
{
    (b0 == 0xE1 && b1 == 0x9A && b2 == 0x80) || (b0 == 0xE2 && b1 == 0x80 && ((0x80 <= b2 && b2
        <= 0x8A) || b2 == 0xA8 || b2 == 0xA9 || b2 == 0xAF)) || (b0 == 0xE2 && b1 == 0x81 && b2
        == 0x9F) || (b0 == 0xE3 && b1 == 0x80 && b2 == 0x80)
}

/// The number of bytes of the white space character that `text[lo..hi]`
/// begins with.
fn leading_space(text: &[u8], lo: usize, hi: usize) -> (n: usize)
    requires
        lo <= hi <= text.len(),
    ensures
        n == space_at_start(text@.subrange(lo as int, hi as int)),
        n <= hi - lo,
{
    let len: usize = hi - lo;
    if len >= 1 && byte_is_space(text[lo]) {
        1
    } else if len >= 2 && bytes_are_space2(text[lo], text[lo + 1]) {
        2
    } else if len >= 3 && bytes_are_space3(text[lo], text[lo + 1], text[lo + 2]) {
        3
    } else {
        0
    }
}

/// The number of bytes of the white space character that `text[lo..hi]`
/// ends with.
fn trailing_space(text: &[u8], lo: usize, hi: usize) -> (n: usize)
    requires
        lo <= hi <= text.len(),
    ensures
        n == space_at_end(text@.subrange(lo as int, hi as int)),
        n <= hi - lo,
{
    let len: usize = hi - lo;
    if len >= 1 && byte_is_space(text[hi - 1]) {
        1
    } else if len >= 2 && bytes_are_space2(text[hi - 2], text[hi - 1]) {
        2
    } else if len >= 3 && bytes_are_space3(text[hi - 3], text[hi - 2], text[hi - 1]) {
        3
    } else {
        0
    }
}

/// Bounds of the trimmed form of `text[lo..hi]`.
pub fn trim_bounds(text: &[u8], lo: usize, hi: usize) -> (r: (usize, usize))
    requires
        lo <= hi <= text.len(),
    ensures
        lo <= r.0 <= r.1 <= hi,
        text@.subrange(r.0 as int, r.1 as int) == trim(text@.subrange(lo as int, hi as int)),
{
    let mut start: usize = lo;
    let mut n: usize = leading_space(text, start, hi);
    while n > 0
        invariant
            lo <= start <= hi <= text.len(),
            n == space_at_start(text@.subrange(start as int, hi as int)),
            n <= hi - start,
            trim_start(text@.subrange(lo as int, hi as int)) == trim_start(
                text@.subrange(start as int, hi as int),
            ),
        decreases hi - start,
    {
        assert(text@.subrange(start as int, hi as int).skip(n as int) =~= text@.subrange(
            start + n,
            hi as int,
        ));
        start = start + n;
        n = leading_space(text, start, hi);
    }
    let mut end: usize = hi;
    let mut m: usize = trailing_space(text, start, end);
    while m > 0
        invariant
            start <= end <= hi <= text.len(),
            m == space_at_end(text@.subrange(start as int, end as int)),
            m <= end - start,
            trim_end(text@.subrange(start as int, hi as int)) == trim_end(
                text@.subrange(start as int, end as int),
            ),
        decreases end - start,
    {
        assert(text@.subrange(start as int, end as int).take(end - start - m) =~= text@.subrange(
            start as int,
            end - m,
        ));
        end = end - m;
        m = trailing_space(text, start, end);
    }
    (start, end)
}

/// End of `text[..end]` without any run of the byte `b` at its end.
pub fn strip_trailing_bound(text: &[u8], end: usize, b: u8) -> (r: usize)
    requires
        end <= text.len(),
    ensures
        r <= end,
        text@.take(r as int) == strip_trailing(text@.take(end as int), b),
{
    let mut stop: usize = end;
    while stop > 0 && text[stop - 1] == b
        invariant
            stop <= end <= text.len(),
            strip_trailing(text@.take(end as int), b) == strip_trailing(text@.take(stop as int), b),
        decreases stop,
    {
        assert(text@.take(stop as int).drop_last() =~= text@.take(stop as int - 1));
        stop = stop - 1;
    }
    stop
}

/// Reads the digits `text[lo..hi]` as a number no greater than `limit`.
fn read_digits(text: &[u8], lo: usize, hi: usize, limit: u64) -> (r: Option<u64>)
    requires
        lo <= hi <= text.len(),
    ensures
        r == (if hi == lo || !all_digits(text@.subrange(lo as int, hi as int))
            || digits_value(text@.subrange(lo as int, hi as int)) > limit {
            None
        } else {
            Some(digits_value(text@.subrange(lo as int, hi as int)) as u64)
        }),
{
    let ghost body = text@.subrange(lo as int, hi as int);
    if lo == hi {
        return None;
    }
    let mut acc: u64 = 0;
    let mut i: usize = lo;
    while i < hi
        invariant
            lo <= i <= hi <= text.len(),
            body == text@.subrange(lo as int, hi as int),
            all_digits(body.take(i - lo)),
            acc == digits_value(body.take(i - lo)),
            acc <= limit,
        decreases hi - i,
    {
        let b: u8 = text[i];
        let ghost next = body.take(i - lo + 1);
        assert(next.drop_last() =~= body.take(i - lo));
        assert(next.last() == b);
        if b < 48 || b > 57 {
            assert(!is_digit(body[i - lo]));
            return None;
        }
        assert(all_digits(next)) by {
            assert forall|k: int| 0 <= k < next.len() implies is_digit(#[trigger] next[k]) by {
                if k < i - lo {
                    assert(next[k] == body.take(i - lo)[k]);
                }
            }
        }
        let d: u64 = (b - 48) as u64;
        if d > limit || acc > (limit - d) / 10 {
            proof {
                assert(acc * 10 + d > limit) by (nonlinear_arith)
                    requires
                        d > limit || (d <= limit && acc > (limit - d) / 10),
                        0 <= acc,
                ;
                if all_digits(body) {
                    lemma_digits_value_grows(body, i - lo + 1);
                }
            }
            return None;
        }
        assert(acc * 10 + d <= limit) by (nonlinear_arith)
            requires
                acc <= (limit - d) / 10,
                d <= limit,
        ;
        acc = acc * 10 + d;
        i = i + 1;
    }
    assert(body.take(hi - lo) =~= body);
    Some(acc)
}

/// Reads the trimmed form of `text[..end]` as a signed integer.
pub fn parse_decimal_i64_before(text: &[u8], end: usize) -> (r: Option<i64>)
    requires
        end <= text.len(),
    ensures
        r == parse_i64(trim(text@.take(end as int))),
{
    let (lo, hi) = trim_bounds(text, 0, end);
    assert(text@.subrange(0, end as int) =~= text@.take(end as int));
    let ghost s = text@.subrange(lo as int, hi as int);
    if lo == hi {
        return None;
    }
    let first: u8 = text[lo];
    assert(s[0] == first);
    let negative: bool = first == MINUS;
    let body_start: usize = if first == MINUS || first == PLUS {
        lo + 1
    } else {
        lo
    };
    assert(unsigned_part(s) =~= text@.subrange(body_start as int, hi as int));
    let limit: u64 = if negative {
        0x8000_0000_0000_0000u64
    } else {
        0x7FFF_FFFF_FFFF_FFFFu64
    };
    match read_digits(text, body_start, hi, limit) {
        None => None,
        Some(magnitude) => {
            if negative {
                if magnitude == 0x8000_0000_0000_0000u64 {
                    Some(i64::MIN)
                } else {
                    Some(-(magnitude as i64))
                }
            } else {
                Some(magnitude as i64)
            }
        },
    }
}

/// Reads trimmed decimal text as a signed integer.
pub fn parse_decimal_i64(text: &[u8]) -> (r: Option<i64>)
    ensures
        r == parse_i64(trim(text@)),
{
    assert(text@.take(text.len() as int) =~= text@);
    parse_decimal_i64_before(text, text.len())
}

/// Reads `text[lo..hi]` as an index.
pub fn parse_index_range(text: &[u8], lo: usize, hi: usize) -> (r: Option<usize>)
    requires
        lo <= hi <= text.len(),
    ensures
        match r {
            Some(v) => parse_index(text@.subrange(lo as int, hi as int), usize::MAX as nat)
                == Some(v as nat),
            None => parse_index(text@.subrange(lo as int, hi as int), usize::MAX as nat) is None,
        },
{
    let ghost s = text@.subrange(lo as int, hi as int);
    if lo == hi {
        return None;
    }
    let first: u8 = text[lo];
    assert(s[0] == first);
    let body_start: usize = if first == PLUS {
        lo + 1
    } else {
        lo
    };
    assert((if s[0] == 43u8 {
        s.skip(1)
    } else {
        s
    }) =~= text@.subrange(body_start as int, hi as int));
    match read_digits(text, body_start, hi, usize::MAX as u64) {
        None => None,
        Some(v) => Some(v as usize),
    }
}

/// Reads trimmed decimal text as an index.
pub fn parse_decimal_index(text: &[u8]) -> (r: Option<usize>)
    ensures
        match r {
            Some(v) => parse_index(trim(text@), usize::MAX as nat) == Some(v as nat),
            None => parse_index(trim(text@), usize::MAX as nat) is None,
        },
{
    let (lo, hi) = trim_bounds(text, 0, text.len());
    assert(text@.subrange(0, text.len() as int) =~= text@);
    parse_index_range(text, lo, hi)
}

} // verus!
