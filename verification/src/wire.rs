//! Fixed-width binary operands: little-endian and big-endian byte strings
//! of unsigned numbers, and the two's complement form of signed ones.

use vstd::prelude::*;

verus! {

/// The `width` low bytes of `v`, least significant first.
pub open spec fn le_bytes(v: nat, width: nat) -> Seq<u8>
    decreases width,
{
    if width == 0 {
        Seq::<u8>::empty()
    } else {
        seq![(v % 256) as u8] + le_bytes(v / 256, (width - 1) as nat)
    }
}

/// The `width` low bytes of `v`, most significant first.
pub open spec fn be_bytes(v: nat, width: nat) -> Seq<u8>
    decreases width,
{
    if width == 0 {
        Seq::<u8>::empty()
    } else {
        be_bytes(v / 256, (width - 1) as nat).push((v % 256) as u8)
    }
}

/// The number whose little-endian bytes are `s`.
pub open spec fn le_value(s: Seq<u8>) -> nat
    decreases s.len(),
{
    if s.len() == 0 {
        0
    } else {
        (le_value(s.drop_last()) + s.last() as nat * pow256((s.len() - 1) as nat)) as nat
    }
}

/// Zero bytes denote zero.
pub proof fn lemma_le_value_of_zeros(s: Seq<u8>)
    requires
        forall|i: int| 0 <= i < s.len() ==> s[i] == 0,
    ensures
        le_value(s) == 0,
    decreases s.len(),
{
    if s.len() > 0 {
        lemma_le_value_of_zeros(s.drop_last());
    }
}

/// The number whose big-endian bytes are `s`.
pub open spec fn be_value(s: Seq<u8>) -> nat
    decreases s.len(),
{
    if s.len() == 0 {
        0
    } else {
        be_value(s.drop_last()) * 256 + s.last() as nat
    }
}

/// 256 to the power `n`.
pub open spec fn pow256(n: nat) -> nat
    decreases n,
{
    if n == 0 {
        1
    } else {
        256 * pow256((n - 1) as nat)
    }
}

/// The first `n` bytes of `data`, with zeros where `data` has run out.
pub open spec fn take_padded(data: Seq<u8>, n: nat) -> Seq<u8> {
    Seq::new(
        n,
        |i: int|
            if i < data.len() {
                data[i]
            } else {
                0u8
            },
    )
}

/// The unsigned number that stands for `v` in 32-bit two's complement.
pub open spec fn unsigned32(v: int) -> nat {
    if v < 0 {
        (v + 0x1_0000_0000) as nat
    } else {
        v as nat
    }
}

/// The signed number that `n` stands for in 32-bit two's complement.
pub open spec fn signed32(n: nat) -> int {
    if n >= 0x8000_0000 {
        n - 0x1_0000_0000
    } else {
        n as int
    }
}

/// The signed number that `n` stands for in 64-bit two's complement.
pub open spec fn signed64(n: nat) -> int {
    if n >= 0x8000_0000_0000_0000 {
        n - 0x1_0000_0000_0000_0000
    } else {
        n as int
    }
}

/// The powers of 256 up to the eighth.
pub proof fn lemma_pow256_values()
    ensures
        pow256(0) == 1,
        pow256(1) == 0x100,
        pow256(2) == 0x1_0000,
        pow256(3) == 0x100_0000,
        pow256(4) == 0x1_0000_0000,
        pow256(5) == 0x100_0000_0000,
        pow256(6) == 0x1_0000_0000_0000,
        pow256(7) == 0x100_0000_0000_0000,
        pow256(8) == 0x1_0000_0000_0000_0000,
{
    reveal_with_fuel(pow256, 10);
}

/// A little-endian string of at most eight bytes denotes less than 2^64.
pub proof fn lemma_le_value_bound(s: Seq<u8>)
    requires
        s.len() <= 8,
    ensures
        le_value(s) < pow256(s.len()),
    decreases s.len(),
{
    lemma_pow256_values();
    if s.len() > 0 {
        lemma_le_value_bound(s.drop_last());
        let n = (s.len() - 1) as nat;
        assert(le_value(s.drop_last()) < pow256(n));
        assert(s.last() as nat * pow256(n) <= 255 * pow256(n)) by (nonlinear_arith)
            requires
                s.last() as nat <= 255,
        ;
        assert(pow256(s.len()) == 256 * pow256(n));
    }
}

/// 256 to any power is positive.
pub proof fn lemma_pow256_positive(n: nat)
    ensures
        pow256(n) > 0,
    decreases n,
{
    if n > 0 {
        lemma_pow256_positive((n - 1) as nat);
    }
}

/// A byte before a little-endian string counts once, and the string 256
/// times.
pub proof fn lemma_le_value_front(b: u8, rest: Seq<u8>)
    ensures
        le_value(seq![b] + rest) == b as nat + 256 * le_value(rest),
    decreases rest.len(),
{
    let all = seq![b] + rest;
    if rest.len() == 0 {
        assert(all.drop_last() =~= Seq::<u8>::empty());
        assert(le_value(all.drop_last()) == 0);
        assert(all.last() == b);
        assert(pow256(0) == 1);
        assert(rest =~= Seq::<u8>::empty());
    } else {
        let shorter = rest.drop_last();
        lemma_le_value_front(b, shorter);
        assert(all.drop_last() =~= seq![b] + shorter);
        assert(all.last() == rest.last());
        let p = pow256((rest.len() - 1) as nat);
        assert(pow256(rest.len()) == 256 * p);
        assert(le_value(all) == le_value(seq![b] + shorter) + rest.last() as nat * pow256(
            rest.len(),
        ));
        assert(le_value(rest) == le_value(shorter) + rest.last() as nat * p);
        assert(b as nat + 256 * le_value(shorter) + rest.last() as nat * (256 * p) == b as nat
            + 256 * (le_value(shorter) + rest.last() as nat * p)) by (nonlinear_arith);
    }
}

/// The little-endian bytes of a number denote the number, as far as the
/// bytes reach.
pub proof fn lemma_le_round_trip(v: nat, width: nat)
    ensures
        le_bytes(v, width).len() == width,
        le_value(le_bytes(v, width)) == v % pow256(width),
    decreases width,
{
    lemma_pow256_positive(width);
    if width == 0 {
        assert(pow256(0) == 1);
    } else {
        let rest = le_bytes(v / 256, (width - 1) as nat);
        lemma_le_round_trip(v / 256, (width - 1) as nat);
        lemma_le_value_front((v % 256) as u8, rest);
        lemma_pow256_positive((width - 1) as nat);
        vstd::arithmetic::div_mod::lemma_mod_breakdown(
            v as int,
            256,
            pow256((width - 1) as nat) as int,
        );
        assert(pow256(width) == 256 * pow256((width - 1) as nat));
    }
}

/// The two's complement form of a 32-bit signed integer.
pub fn to_unsigned32(v: i32) -> (n: u32)
    ensures
        n == unsigned32(v as int),
{
    if v < 0 {
        (v as i64 + 0x1_0000_0000i64) as u32
    } else {
        v as u32
    }
}

/// The 32-bit signed integer with the two's complement form `n`.
pub fn to_signed32(n: u32) -> (v: i32)
    ensures
        v == signed32(n as nat),
{
    if n >= 0x8000_0000u32 {
        (n as i64 - 0x1_0000_0000i64) as i32
    } else {
        n as i32
    }
}

/// The 64-bit signed integer with the two's complement form `n`.
pub fn to_signed64(n: u64) -> (v: i64)
    ensures
        v == signed64(n as nat),
{
    if n >= 0x8000_0000_0000_0000u64 {
        (n as i128 - 0x1_0000_0000_0000_0000i128) as i64
    } else {
        n as i64
    }
}

/// Appends the `width` low bytes of `v`, least significant first.
pub fn push_le(out: &mut Vec<u8>, v: u64, width: usize)
    ensures
        final(out)@ == old(out)@ + le_bytes(v as nat, width as nat),
    decreases width,
{
    if width > 0 {
        out.push((v % 256) as u8);
        let ghost mid = out@;
        push_le(out, v / 256, width - 1);
        assert(out@ =~= old(out)@ + le_bytes(v as nat, width as nat));
    } else {
        assert(out@ =~= old(out)@ + le_bytes(v as nat, width as nat));
    }
}

/// Appends the `width` low bytes of `v`, most significant first.
pub fn push_be(out: &mut Vec<u8>, v: u64, width: usize)
    ensures
        final(out)@ == old(out)@ + be_bytes(v as nat, width as nat),
    decreases width,
{
    if width > 0 {
        push_be(out, v / 256, width - 1);
        out.push((v % 256) as u8);
        assert(out@ =~= old(out)@ + be_bytes(v as nat, width as nat));
    } else {
        assert(out@ =~= old(out)@ + be_bytes(v as nat, width as nat));
    }
}

/// Appends all of `bytes`.
pub fn push_all(out: &mut Vec<u8>, bytes: &[u8])
    ensures
        final(out)@ == old(out)@ + bytes@,
{
    out.extend_from_slice(bytes);
    assert(out@ =~= old(out)@ + bytes@);
}

/// Reads the `n` bytes of `bytes` from `lo` on as a little-endian number.
pub fn read_le(bytes: &[u8], lo: usize, n: usize) -> (v: u64)
    requires
        n <= 8,
        lo + n <= bytes.len(),
    ensures
        v == le_value(bytes@.subrange(lo as int, lo + n)),
{
    let ghost all = bytes@.subrange(lo as int, lo + n);
    let mut acc: u64 = 0;
    let mut scale: u64 = 1;
    let mut i: usize = 0;
    proof {
        lemma_pow256_values();
        assert(all.take(0) =~= Seq::<u8>::empty());
    }
    while i < n
        invariant
            i <= n <= 8,
            lo + n <= bytes.len(),
            all == bytes@.subrange(lo as int, lo + n),
            acc == le_value(all.take(i as int)),
            i < 8 ==> scale == pow256(i as nat),
            acc < pow256(i as nat),
        decreases n - i,
    {
        let b: u8 = bytes[lo + i];
        proof {
            lemma_pow256_values();
            let next = all.take(i + 1);
            assert(next.drop_last() =~= all.take(i as int));
            assert(next.last() == b);
            lemma_le_value_bound(next);
            assert(b as nat * pow256(i as nat) <= 255 * pow256(i as nat)) by (nonlinear_arith)
                requires
                    b as nat <= 255,
            ;
            assert(pow256((i + 1) as nat) == 256 * pow256(i as nat));
        }
        acc = acc + (b as u64) * scale;
        i = i + 1;
        if i < 8 {
            scale = scale * 256;
        }
    }
    assert(all.take(n as int) =~= all);
    acc
}

/// A big-endian string of `n` bytes denotes less than 256 to the `n`.
pub proof fn lemma_be_value_bound(s: Seq<u8>)
    ensures
        be_value(s) < pow256(s.len()),
    decreases s.len(),
{
    if s.len() > 0 {
        lemma_be_value_bound(s.drop_last());
        let n = (s.len() - 1) as nat;
        assert(pow256(s.len()) == 256 * pow256(n));
    }
}

/// Reads the `n` bytes of `bytes` from `lo` on as a big-endian number.
pub fn read_be(bytes: &[u8], lo: usize, n: usize) -> (v: u64)
    requires
        n <= 8,
        lo + n <= bytes.len(),
    ensures
        v == be_value(bytes@.subrange(lo as int, lo + n)),
{
    let ghost all = bytes@.subrange(lo as int, lo + n);
    let mut acc: u64 = 0;
    let mut i: usize = 0;
    proof {
        lemma_pow256_values();
        assert(all.take(0) =~= Seq::<u8>::empty());
    }
    while i < n
        invariant
            i <= n <= 8,
            lo + n <= bytes.len(),
            all == bytes@.subrange(lo as int, lo + n),
            acc == be_value(all.take(i as int)),
            acc < pow256(i as nat),
        decreases n - i,
    {
        let b: u8 = bytes[lo + i];
        proof {
            lemma_pow256_values();
            let next = all.take(i + 1);
            assert(next.drop_last() =~= all.take(i as int));
            assert(next.last() == b);
            lemma_be_value_bound(next);
            assert(pow256((i + 1) as nat) == 256 * pow256(i as nat));
        }
        acc = acc * 256 + (b as u64);
        i = i + 1;
    }
    assert(all.take(n as int) =~= all);
    acc
}

} // verus!
