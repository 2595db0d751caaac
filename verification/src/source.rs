//! Entropy sources. Generation draws every decision from one of two
//! sources: a ChaCha8 generator that a seed determines, or a finite buffer
//! of bytes that is consumed from the front and answers with fixed defaults
//! once it has run out. Both are held as plain values, so that every draw
//! is a function of the source's state.

use vstd::prelude::*;
use vstd::slice::slice_subrange;
use rand::Rng;
use rand::SeedableRng;
use rand::TryRngCore;
use crate::binary64::{unit_fraction, unit_fraction_bits};
use crate::wire::{
    be_value, le_value, lemma_le_value_of_zeros, signed32, signed64, take_padded,
};

verus! {

/// The key that `rand_chacha::ChaCha8Rng::seed_from_u64` derives from `seed`.
pub uninterp spec fn chacha_key(seed: u64) -> Seq<u8>;

/// What `rand::Rng::random::<bool>` draws from a ChaCha8 generator with the
/// key `key` at the word position `pos`, and the position after the draw.
pub uninterp spec fn chacha_bool(key: Seq<u8>, pos: u128) -> (bool, u128);

/// What `rand::Rng::random::<u8>` draws from a ChaCha8 generator with the
/// key `key` at the word position `pos`, and the position after the draw.
pub uninterp spec fn chacha_u8(key: Seq<u8>, pos: u128) -> (u8, u128);

/// What `rand::Rng::random::<u16>` draws from a ChaCha8 generator with the
/// key `key` at the word position `pos`, and the position after the draw.
pub uninterp spec fn chacha_u16(key: Seq<u8>, pos: u128) -> (u16, u128);

/// What `rand::Rng::random::<u32>` draws from a ChaCha8 generator with the
/// key `key` at the word position `pos`, and the position after the draw.
pub uninterp spec fn chacha_u32(key: Seq<u8>, pos: u128) -> (u32, u128);

/// What `rand::Rng::random::<u64>` draws from a ChaCha8 generator with the
/// key `key` at the word position `pos`, and the position after the draw.
pub uninterp spec fn chacha_u64(key: Seq<u8>, pos: u128) -> (u64, u128);

/// What `rand::Rng::random::<i32>` draws from a ChaCha8 generator with the
/// key `key` at the word position `pos`, and the position after the draw.
pub uninterp spec fn chacha_i32(key: Seq<u8>, pos: u128) -> (i32, u128);

/// What `rand::Rng::random::<i64>` draws from a ChaCha8 generator with the
/// key `key` at the word position `pos`, and the position after the draw.
pub uninterp spec fn chacha_i64(key: Seq<u8>, pos: u128) -> (i64, u128);

/// What `rand::Rng::random_range(low..high)` draws from a ChaCha8 generator
/// with the key `key` at the word position `pos`, and the position after
/// the draw.
pub uninterp spec fn chacha_range(key: Seq<u8>, pos: u128, low: usize, high: usize) -> (
    usize,
    u128,
);

/// The `len` bytes that `rand::TryRngCore::try_fill_bytes` draws from a
/// ChaCha8 generator with the key `key` at the word position `pos`, and the
/// position after the draw.
pub uninterp spec fn chacha_bytes(key: Seq<u8>, pos: u128, len: usize) -> (Seq<u8>, u128);

/// The number of bytes of a machine word.
pub open spec fn word_bytes() -> nat {
    if usize::MAX == 0xFFFF_FFFF {
        4
    } else {
        8
    }
}

/// How many bytes a buffer is asked for a number from 0 to `delta`: as
/// many as `delta` has, and `width` at most.
pub open spec fn bytes_asked(delta: nat, width: nat) -> nat
    decreases width,
{
    if width == 0 || delta == 0 {
        0
    } else {
        1 + bytes_asked(delta / 256, (width - 1) as nat)
    }
}

/// The number from `low` to `high` that the bytes `data` give, and how
/// many of them are left. The buffer gives as many bytes as are asked, or
/// all that it holds; they are read as a number, most significant byte
/// first, and what is left of it after division by the size of the range
/// is counted from `low`. A buffer that holds nothing gives `low`.
pub open spec fn buffer_range(data: Seq<u8>, low: usize, high: usize) -> (usize, usize) {
    let delta = (high - low) as nat;
    let asked = bytes_asked(delta, word_bytes());
    let taken = if asked <= data.len() {
        asked
    } else {
        data.len()
    };
    (
        (low + be_value(data.take(taken as int)) % (delta + 1)) as usize,
        (data.len() - taken) as usize,
    )
}

/// `rand_chacha::ChaCha8Rng::seed_from_u64` followed by `get_seed`: the key
/// of the generator that the seed gives.
#[verifier::external_body]
fn key_from_seed(seed: u64) -> (key: [u8; 32])
    ensures
        key@ == chacha_key(seed),
{
    rand_chacha::ChaCha8Rng::seed_from_u64(seed).get_seed()
}

/// `rand_chacha::ChaCha8Rng::try_from_os_rng` followed by `get_seed`: a key
/// from the operating system's entropy, or nothing where that fails.
/// Nothing is known of the key.
#[verifier::external_body]
fn key_from_os() -> (key: Option<[u8; 32]>)
{
    match rand_chacha::ChaCha8Rng::try_from_os_rng() {
        Ok(rng) => Some(rng.get_seed()),
        Err(_) => None,
    }
}

/// `rand::Rng::random::<bool>` on the ChaCha8 generator with the key `key`,
/// set to the word position `pos`; the second component is the position
/// after the draw.
#[verifier::external_body]
fn rng_bool(key: &[u8; 32], pos: u128) -> (r: (bool, u128))
    ensures
        r == chacha_bool(key@, pos),
{
    let mut rng = rand_chacha::ChaCha8Rng::from_seed(*key);
    rng.set_word_pos(pos);
    let v: bool = rng.random();
    (v, rng.get_word_pos())
}

/// `rand::Rng::random::<u8>` on the ChaCha8 generator with the key `key`,
/// set to the word position `pos`; the second component is the position
/// after the draw.
#[verifier::external_body]
fn rng_u8(key: &[u8; 32], pos: u128) -> (r: (u8, u128))
    ensures
        r == chacha_u8(key@, pos),
{
    let mut rng = rand_chacha::ChaCha8Rng::from_seed(*key);
    rng.set_word_pos(pos);
    let v: u8 = rng.random();
    (v, rng.get_word_pos())
}

/// `rand::Rng::random::<u16>` on the ChaCha8 generator with the key `key`,
/// set to the word position `pos`; the second component is the position
/// after the draw.
#[verifier::external_body]
fn rng_u16(key: &[u8; 32], pos: u128) -> (r: (u16, u128))
    ensures
        r == chacha_u16(key@, pos),
{
    let mut rng = rand_chacha::ChaCha8Rng::from_seed(*key);
    rng.set_word_pos(pos);
    let v: u16 = rng.random();
    (v, rng.get_word_pos())
}

/// `rand::Rng::random::<u32>` on the ChaCha8 generator with the key `key`,
/// set to the word position `pos`; the second component is the position
/// after the draw.
#[verifier::external_body]
fn rng_u32(key: &[u8; 32], pos: u128) -> (r: (u32, u128))
    ensures
        r == chacha_u32(key@, pos),
{
    let mut rng = rand_chacha::ChaCha8Rng::from_seed(*key);
    rng.set_word_pos(pos);
    let v: u32 = rng.random();
    (v, rng.get_word_pos())
}

/// `rand::Rng::random::<u64>` on the ChaCha8 generator with the key `key`,
/// set to the word position `pos`; the second component is the position
/// after the draw.
#[verifier::external_body]
fn rng_u64(key: &[u8; 32], pos: u128) -> (r: (u64, u128))
    ensures
        r == chacha_u64(key@, pos),
{
    let mut rng = rand_chacha::ChaCha8Rng::from_seed(*key);
    rng.set_word_pos(pos);
    let v: u64 = rng.random();
    (v, rng.get_word_pos())
}

/// `rand::Rng::random::<i32>` on the ChaCha8 generator with the key `key`,
/// set to the word position `pos`; the second component is the position
/// after the draw.
#[verifier::external_body]
fn rng_i32(key: &[u8; 32], pos: u128) -> (r: (i32, u128))
    ensures
        r == chacha_i32(key@, pos),
{
    let mut rng = rand_chacha::ChaCha8Rng::from_seed(*key);
    rng.set_word_pos(pos);
    let v: i32 = rng.random();
    (v, rng.get_word_pos())
}

/// `rand::Rng::random::<i64>` on the ChaCha8 generator with the key `key`,
/// set to the word position `pos`; the second component is the position
/// after the draw.
#[verifier::external_body]
fn rng_i64(key: &[u8; 32], pos: u128) -> (r: (i64, u128))
    ensures
        r == chacha_i64(key@, pos),
{
    let mut rng = rand_chacha::ChaCha8Rng::from_seed(*key);
    rng.set_word_pos(pos);
    let v: i64 = rng.random();
    (v, rng.get_word_pos())
}

/// `rand::Rng::random_range(low..high)` on the ChaCha8 generator with the
/// key `key`, set to the word position `pos`: a number of the range, and
/// the position after the draw. An empty range is left out: the call
/// panics on it.
#[verifier::external_body]
fn rng_range(key: &[u8; 32], pos: u128, low: usize, high: usize) -> (r: (usize, u128))
    requires
        low < high,
    ensures
        r == chacha_range(key@, pos, low, high),
        low <= r.0 < high,
{
    let mut rng = rand_chacha::ChaCha8Rng::from_seed(*key);
    rng.set_word_pos(pos);
    let v: usize = rng.random_range(low..high);
    (v, rng.get_word_pos())
}

/// `rand::TryRngCore::try_fill_bytes` on the ChaCha8 generator with the key
/// `key`, set to the word position `pos`, for a buffer of `len` zeros: the
/// buffer afterwards, and the position after the draw.
#[verifier::external_body]
fn rng_bytes(key: &[u8; 32], pos: u128, len: usize) -> (r: (Vec<u8>, u128))
    ensures
        r.0@ == chacha_bytes(key@, pos, len).0,
        r.1 == chacha_bytes(key@, pos, len).1,
        r.0@.len() == len,
{
    let mut rng = rand_chacha::ChaCha8Rng::from_seed(*key);
    rng.set_word_pos(pos);
    let mut bytes = vec![0u8; len];
    rng.try_fill_bytes(&mut bytes).unwrap_or(());
    (bytes, rng.get_word_pos())
}

/// How many of `n` wanted bytes a buffer of `available` bytes can give.
pub open spec fn consumed(available: nat, n: nat) -> nat {
    if available < n {
        available
    } else {
        n
    }
}

/// `arbitrary::Unstructured::arbitrary::<bool>` on a cursor over `data`,
/// and `len` on the cursor afterwards: the lowest bit of the first byte, a
/// missing byte counting as zero, and the number of bytes that are left.
/// The call does not fail.
#[verifier::external_body]
fn cursor_bool(data: &[u8]) -> (r: (Option<bool>, usize))
    ensures
        r.0 == Some(le_value(take_padded(data@, 1)) % 2 == 1),
        r.1 == data@.len() - consumed(data@.len(), 1),
{
    let mut u = arbitrary::Unstructured::new(data);
    let v: Option<bool> = u.arbitrary().ok();
    (v, u.len())
}

/// `arbitrary::Unstructured::arbitrary::<u8>` on a cursor over `data`,
/// and `len` on the cursor afterwards: the first byte, missing
/// bytes counting as zero, and the number of bytes that are left. The call
/// does not fail.
#[verifier::external_body]
fn cursor_u8(data: &[u8]) -> (r: (Option<u8>, usize))
    ensures
        r.0 == Some(le_value(take_padded(data@, 1)) as u8),
        r.1 == data@.len() - consumed(data@.len(), 1),
{
    let mut u = arbitrary::Unstructured::new(data);
    let v: Option<u8> = u.arbitrary().ok();
    (v, u.len())
}

/// `arbitrary::Unstructured::arbitrary::<u16>` on a cursor over `data`,
/// and `len` on the cursor afterwards: the little-endian number of the first 2 bytes, missing
/// bytes counting as zero, and the number of bytes that are left. The call
/// does not fail.
#[verifier::external_body]
fn cursor_u16(data: &[u8]) -> (r: (Option<u16>, usize))
    ensures
        r.0 == Some(le_value(take_padded(data@, 2)) as u16),
        r.1 == data@.len() - consumed(data@.len(), 2),
{
    let mut u = arbitrary::Unstructured::new(data);
    let v: Option<u16> = u.arbitrary().ok();
    (v, u.len())
}

/// `arbitrary::Unstructured::arbitrary::<u32>` on a cursor over `data`,
/// and `len` on the cursor afterwards: the little-endian number of the first 4 bytes, missing
/// bytes counting as zero, and the number of bytes that are left. The call
/// does not fail.
#[verifier::external_body]
fn cursor_u32(data: &[u8]) -> (r: (Option<u32>, usize))
    ensures
        r.0 == Some(le_value(take_padded(data@, 4)) as u32),
        r.1 == data@.len() - consumed(data@.len(), 4),
{
    let mut u = arbitrary::Unstructured::new(data);
    let v: Option<u32> = u.arbitrary().ok();
    (v, u.len())
}

/// `arbitrary::Unstructured::arbitrary::<u64>` on a cursor over `data`,
/// and `len` on the cursor afterwards: the little-endian number of the first 8 bytes, missing
/// bytes counting as zero, and the number of bytes that are left. The call
/// does not fail.
#[verifier::external_body]
fn cursor_u64(data: &[u8]) -> (r: (Option<u64>, usize))
    ensures
        r.0 == Some(le_value(take_padded(data@, 8)) as u64),
        r.1 == data@.len() - consumed(data@.len(), 8),
{
    let mut u = arbitrary::Unstructured::new(data);
    let v: Option<u64> = u.arbitrary().ok();
    (v, u.len())
}

/// `arbitrary::Unstructured::arbitrary::<i32>` on a cursor over `data`,
/// and `len` on the cursor afterwards: the two's complement number of the first 4 bytes, least
/// significant first, missing
/// bytes counting as zero, and the number of bytes that are left. The call
/// does not fail.
#[verifier::external_body]
fn cursor_i32(data: &[u8]) -> (r: (Option<i32>, usize))
    ensures
        r.0 == Some(signed32(le_value(take_padded(data@, 4))) as i32),
        r.1 == data@.len() - consumed(data@.len(), 4),
{
    let mut u = arbitrary::Unstructured::new(data);
    let v: Option<i32> = u.arbitrary().ok();
    (v, u.len())
}

/// `arbitrary::Unstructured::arbitrary::<i64>` on a cursor over `data`,
/// and `len` on the cursor afterwards: the two's complement number of the first 8 bytes, least
/// significant first, missing
/// bytes counting as zero, and the number of bytes that are left. The call
/// does not fail.
#[verifier::external_body]
fn cursor_i64(data: &[u8]) -> (r: (Option<i64>, usize))
    ensures
        r.0 == Some(signed64(le_value(take_padded(data@, 8))) as i64),
        r.1 == data@.len() - consumed(data@.len(), 8),
{
    let mut u = arbitrary::Unstructured::new(data);
    let v: Option<i64> = u.arbitrary().ok();
    (v, u.len())
}

/// `arbitrary::Unstructured::int_in_range(low..=high)` on a cursor over
/// `data`, and `len` on the cursor afterwards. The call takes from the
/// buffer as many bytes as the size of the range has, a word's at most and
/// no more than the buffer holds, reads them as a number, most significant
/// byte first, and adds to `low` what is left of it after division by the
/// size of the range. It does not fail; an empty range is left out: the
/// call panics on it.
#[verifier::external_body]
fn cursor_range(data: &[u8], low: usize, high: usize) -> (r: (Option<usize>, usize))
    requires
        low <= high,
    ensures
        r.0 == Some(buffer_range(data@, low, high).0),
        r.1 == buffer_range(data@, low, high).1,
{
    let mut u = arbitrary::Unstructured::new(data);
    let v: Option<usize> = u.int_in_range(low..=high).ok();
    (v, u.len())
}

/// `arbitrary::Unstructured::choose_index(len)` on a cursor over `data`,
/// and `len` on the cursor afterwards: what `int_in_range` gives for the
/// range from 0 to `len - 1`. The call fails for a length of zero only,
/// which is left out.
#[verifier::external_body]
fn cursor_index(data: &[u8], len: usize) -> (r: (Option<usize>, usize))
    requires
        len > 0,
    ensures
        r.0 == Some(buffer_range(data@, 0, (len - 1) as usize).0),
        r.1 == buffer_range(data@, 0, (len - 1) as usize).1,
{
    let mut u = arbitrary::Unstructured::new(data);
    let v: Option<usize> = u.choose_index(len).ok();
    (v, u.len())
}

/// `arbitrary::Unstructured::bytes(len)` on a cursor over `data`: the first
/// `len` bytes where there are as many, else nothing.
#[verifier::external_body]
fn cursor_bytes(data: &[u8], len: usize) -> (r: Option<Vec<u8>>)
    ensures
        len <= data@.len() ==> r is Some && r->Some_0@ == data@.take(len as int),
        len > data@.len() ==> r is None,
{
    let mut u = arbitrary::Unstructured::new(data);
    match u.bytes(len) {
        Ok(bytes) => Some(bytes.to_vec()),
        Err(_) => None,
    }
}

/// The printable ASCII characters in the order in which text is drawn from
/// them: lower case, upper case, digits, then the space and the signs.
pub open spec fn ascii_alphabet(i: int) -> u8 {
    if i < 26 {
        (97 + i) as u8
    } else if i < 52 {
        (65 + (i - 26)) as u8
    } else if i < 62 {
        (48 + (i - 52)) as u8
    } else if i < 78 {
        (32 + (i - 62)) as u8
    } else if i < 85 {
        (58 + (i - 78)) as u8
    } else if i < 91 {
        (91 + (i - 85)) as u8
    } else {
        (123 + (i - 91)) as u8
    }
}

/// The number of characters in [`ascii_alphabet`].
pub const ALPHABET_LEN: usize = 95;

/// Exec form of [`ascii_alphabet`].
pub fn alphabet_char(i: usize) -> (c: u8)
    requires
        i < ALPHABET_LEN,
    ensures
        c == ascii_alphabet(i as int),
        32 <= c <= 126,
{
    if i < 26 {
        97 + i as u8
    } else if i < 52 {
        65 + (i - 26) as u8
    } else if i < 62 {
        48 + (i - 52) as u8
    } else if i < 78 {
        32 + (i - 62) as u8
    } else if i < 85 {
        58 + (i - 78) as u8
    } else if i < 91 {
        91 + (i - 85) as u8
    } else {
        123 + (i - 91) as u8
    }
}

/// A ChaCha8 generator as its key and its position in the key's stream,
/// counted in 32-bit words.
pub struct SeededRng {
    pub key: [u8; 32],
    pub pos: u128,
}

/// A finite buffer of bytes and how many of them have been consumed.
pub struct ByteCursor {
    pub data: Vec<u8>,
    pub pos: usize,
}

impl ByteCursor {
    /// The bytes that have not been consumed.
    pub open spec fn remaining(&self) -> Seq<u8> {
        if self.pos <= self.data.len() {
            self.data@.skip(self.pos as int)
        } else {
            Seq::<u8>::empty()
        }
    }

    fn rest(&self) -> (s: &[u8])
        ensures
            s@ == self.remaining(),
    {
        let all = self.data.as_slice();
        if self.pos <= all.len() {
            let s = slice_subrange(all, self.pos, all.len());
            assert(s@ =~= self.remaining());
            s
        } else {
            let s = slice_subrange(all, 0, 0);
            assert(s@ =~= self.remaining());
            s
        }
    }

    /// Consumes all but the last `left` of the remaining bytes.
    fn leave(&mut self, left: usize)
        requires
            left <= old(self).remaining().len(),
        ensures
            final(self).remaining() == old(self).remaining().skip(
                old(self).remaining().len() - left,
            ),
    {
        if self.pos <= self.data.len() {
            self.pos = self.data.len() - left;
        }
        assert(self.remaining() =~= old(self).remaining().skip(
            old(self).remaining().len() - left,
        ));
    }

    fn advance(&mut self, n: usize)
        requires
            n <= old(self).remaining().len(),
        ensures
            final(self).remaining() == old(self).remaining().skip(n as int),
    {
        if self.pos <= self.data.len() {
            self.pos = self.pos + n;
        }
        assert(self.remaining() =~= old(self).remaining().skip(n as int));
    }
}

/// Where the decisions of a generation pass come from.
pub enum GenerationSource {
    /// A ChaCha8 generator: entropy without end, determined by its key.
    Rand(SeededRng),
    /// A finite buffer of bytes, determined by its contents.
    Arbitrary(ByteCursor),
}

/// What a source is to the contracts: the key and position of a generator,
/// or the bytes that a buffer has left.
pub enum SourceView {
    Rand { key: Seq<u8>, pos: u128 },
    Arbitrary { rest: Seq<u8> },
}

impl View for GenerationSource {
    type V = SourceView;

    open spec fn view(&self) -> SourceView {
        match self {
            GenerationSource::Rand(rng) => SourceView::Rand { key: rng.key@, pos: rng.pos },
            GenerationSource::Arbitrary(cursor) => SourceView::Arbitrary {
                rest: cursor.remaining(),
            },
        }
    }
}

/// `v` where it lies from `min` up to but without `max`, else `min`. Every
/// draw of a generator from a range lies in the range, so this is the draw
/// itself.
pub open spec fn within(v: usize, min: usize, max: usize) -> usize {
    if min <= v < max {
        v
    } else {
        min
    }
}

impl SourceView {
    /// A choice of an index below `max`, and the source after it. A choice
    /// among nothing is 0 and draws nothing.
    pub open spec fn draw_index(self, max: usize) -> (usize, SourceView) {
        if max == 0 {
            (0usize, self)
        } else {
            match self {
                SourceView::Rand { key, pos } => {
                    let d = chacha_range(key, pos, 0, max);
                    (within(d.0, 0, max), SourceView::Rand { key, pos: d.1 })
                },
                SourceView::Arbitrary { rest } => {
                    let d = buffer_range(rest, 0, (max - 1) as usize);
                    (d.0, SourceView::Arbitrary { rest: rest.skip(rest.len() - d.1) })
                },
            }
        }
    }

    /// A number from `min` up to but without `max`, and the source after
    /// it. An empty range gives `min` and draws nothing.
    pub open spec fn draw_range(self, min: usize, max: usize) -> (usize, SourceView) {
        if min >= max {
            (min, self)
        } else {
            match self {
                SourceView::Rand { key, pos } => {
                    let d = chacha_range(key, pos, min, max);
                    (within(d.0, min, max), SourceView::Rand { key, pos: d.1 })
                },
                SourceView::Arbitrary { rest } => {
                    let d = buffer_range(rest, min, (max - 1) as usize);
                    (d.0, SourceView::Arbitrary { rest: rest.skip(rest.len() - d.1) })
                },
            }
        }
    }

    /// A truth value, and the source after it.
    pub open spec fn draw_bool(self) -> (bool, SourceView) {
        match self {
            SourceView::Rand { key, pos } => {
                let d = chacha_bool(key, pos);
                (d.0, SourceView::Rand { key, pos: d.1 })
            },
            SourceView::Arbitrary { rest } => (
                le_value(take_padded(rest, 1)) % 2 == 1,
                SourceView::Arbitrary { rest: rest.skip(consumed(rest.len(), 1) as int) },
            ),
        }
    }

    /// A byte, and the source after it.
    pub open spec fn draw_u8(self) -> (u8, SourceView) {
        match self {
            SourceView::Rand { key, pos } => {
                let d = chacha_u8(key, pos);
                (d.0, SourceView::Rand { key, pos: d.1 })
            },
            SourceView::Arbitrary { rest } => (
                le_value(take_padded(rest, 1)) as u8,
                SourceView::Arbitrary { rest: rest.skip(consumed(rest.len(), 1) as int) },
            ),
        }
    }

    /// An unsigned number of 16 bits, and the source after it.
    pub open spec fn draw_u16(self) -> (u16, SourceView) {
        match self {
            SourceView::Rand { key, pos } => {
                let d = chacha_u16(key, pos);
                (d.0, SourceView::Rand { key, pos: d.1 })
            },
            SourceView::Arbitrary { rest } => (
                le_value(take_padded(rest, 2)) as u16,
                SourceView::Arbitrary { rest: rest.skip(consumed(rest.len(), 2) as int) },
            ),
        }
    }

    /// An unsigned number of 32 bits, and the source after it.
    pub open spec fn draw_u32(self) -> (u32, SourceView) {
        match self {
            SourceView::Rand { key, pos } => {
                let d = chacha_u32(key, pos);
                (d.0, SourceView::Rand { key, pos: d.1 })
            },
            SourceView::Arbitrary { rest } => (
                le_value(take_padded(rest, 4)) as u32,
                SourceView::Arbitrary { rest: rest.skip(consumed(rest.len(), 4) as int) },
            ),
        }
    }

    /// A signed number of 32 bits, and the source after it.
    pub open spec fn draw_i32(self) -> (i32, SourceView) {
        match self {
            SourceView::Rand { key, pos } => {
                let d = chacha_i32(key, pos);
                (d.0, SourceView::Rand { key, pos: d.1 })
            },
            SourceView::Arbitrary { rest } => (
                signed32(le_value(take_padded(rest, 4))) as i32,
                SourceView::Arbitrary { rest: rest.skip(consumed(rest.len(), 4) as int) },
            ),
        }
    }

    /// A signed number of 64 bits, and the source after it.
    pub open spec fn draw_i64(self) -> (i64, SourceView) {
        match self {
            SourceView::Rand { key, pos } => {
                let d = chacha_i64(key, pos);
                (d.0, SourceView::Rand { key, pos: d.1 })
            },
            SourceView::Arbitrary { rest } => (
                signed64(le_value(take_padded(rest, 8))) as i64,
                SourceView::Arbitrary { rest: rest.skip(consumed(rest.len(), 8) as int) },
            ),
        }
    }

    /// The bit pattern of a binary64 value, and the source after it. A
    /// generator gives the top 53 bits of a 64-bit draw as the numerator of
    /// a fraction of `2^53`, a value from 0.0 up to but without 1.0; a
    /// buffer gives its next eight bytes as the pattern itself.
    pub open spec fn draw_float(self) -> (u64, SourceView) {
        match self {
            SourceView::Rand { key, pos } => {
                let d = chacha_u64(key, pos);
                (unit_fraction((d.0 / 2048) as nat) as u64, SourceView::Rand { key, pos: d.1 })
            },
            SourceView::Arbitrary { rest } => (
                le_value(take_padded(rest, 8)) as u64,
                SourceView::Arbitrary { rest: rest.skip(consumed(rest.len(), 8) as int) },
            ),
        }
    }

    /// `len` bytes, and the source after them. A buffer that holds fewer
    /// gives none, and keeps what it holds.
    pub open spec fn draw_bytes(self, len: usize) -> (Seq<u8>, SourceView) {
        match self {
            SourceView::Rand { key, pos } => {
                let d = chacha_bytes(key, pos, len);
                (d.0, SourceView::Rand { key, pos: d.1 })
            },
            SourceView::Arbitrary { rest } => if len <= rest.len() {
                (rest.take(len as int), SourceView::Arbitrary { rest: rest.skip(len as int) })
            } else {
                (Seq::<u8>::empty(), self)
            },
        }
    }

    /// A printable ASCII character, and the source after it.
    pub open spec fn draw_ascii_char(self) -> (u8, SourceView) {
        let d = self.draw_index(ALPHABET_LEN);
        (ascii_alphabet(d.0 as int), d.1)
    }
}

/// A number drawn from a range is of the range, and an index drawn below
/// a bound is below it.
pub proof fn lemma_draw_range(s: SourceView, min: usize, max: usize)
    requires
        min < max,
    ensures
        min <= s.draw_range(min, max).0 < max,
        s.draw_index(max).0 < max,
{
    if let SourceView::Arbitrary { rest } = s {
        lemma_buffer_range(rest, min, (max - 1) as usize);
        lemma_buffer_range(rest, 0, (max - 1) as usize);
    }
}

/// A number that a buffer gives for a range is of the range, and the
/// buffer does not grow.
pub proof fn lemma_buffer_range(data: Seq<u8>, low: usize, high: usize)
    requires
        low <= high,
    ensures
        low <= buffer_range(data, low, high).0 <= high,
        buffer_range(data, low, high).1 <= data.len(),
{
    let delta = (high - low) as nat;
    let asked = bytes_asked(delta, word_bytes());
    let taken = if asked <= data.len() {
        asked
    } else {
        data.len()
    };
    vstd::arithmetic::div_mod::lemma_mod_bound(
        be_value(data.take(taken as int)) as int,
        (delta + 1) as int,
    );
}

/// A buffer that holds nothing answers every query with the default: the
/// index 0, the lower bound of a range, false, the number 0, the pattern
/// of 0.0, and no bytes. It stays as it is.
pub proof fn lemma_exhausted_buffer(min: usize, max: usize, len: usize)
    ensures
        ({
            let s = SourceView::Arbitrary { rest: Seq::<u8>::empty() };
            &&& s.draw_index(max) == (0usize, s)
            &&& s.draw_range(min, max) == (min, s)
            &&& s.draw_bool() == (false, s)
            &&& s.draw_u8() == (0u8, s)
            &&& s.draw_u16() == (0u16, s)
            &&& s.draw_u32() == (0u32, s)
            &&& s.draw_i32() == (0i32, s)
            &&& s.draw_i64() == (0i64, s)
            &&& s.draw_float() == (0u64, s)
            &&& s.draw_bytes(len).0 == Seq::<u8>::empty()
            &&& s.draw_bytes(len).1 == s
        }),
{
    let e = Seq::<u8>::empty();
    let s = SourceView::Arbitrary { rest: e };
    assert(e.take(0) =~= e);
    assert(e.skip(0) =~= e);
    reveal_with_fuel(be_value, 1);
    if max > 0 {
        assert(0nat % ((max - 1 + 1) as nat) == 0) by (nonlinear_arith)
            requires
                max > 0,
        ;
    }
    if min < max {
        assert(0nat % ((max - 1 - min + 1) as nat) == 0) by (nonlinear_arith)
            requires
                min < max,
        ;
    }
    lemma_le_value_of_zeros(take_padded(e, 1));
    lemma_le_value_of_zeros(take_padded(e, 2));
    lemma_le_value_of_zeros(take_padded(e, 4));
    lemma_le_value_of_zeros(take_padded(e, 8));
    assert(s.draw_bytes(len).0 =~= e);
}

/// The queries that generation puts to an entropy source. None of them
/// fails: a source that has run out answers with a fixed default.
pub trait EntropySource {
    /// An index below `max`; 0 where `max` is 0.
    fn choose_index(&mut self, max: usize) -> usize;

    fn gen_bool(&mut self) -> bool;

    fn gen_u8(&mut self) -> u8;

    fn gen_u16(&mut self) -> u16;

    fn gen_u32(&mut self) -> u32;

    fn gen_i32(&mut self) -> i32;

    fn gen_i64(&mut self) -> i64;

    /// The bit pattern of a binary64 value.
    fn gen_f64(&mut self) -> u64;

    /// A number from `min` up to but without `max`; `min` where there is
    /// none.
    fn gen_range(&mut self, min: usize, max: usize) -> usize;

    /// `len` bytes; none where the source cannot give as many.
    fn gen_bytes(&mut self, len: usize) -> Vec<u8>;

    /// A printable ASCII character.
    fn gen_ascii_char(&mut self) -> u8;
}

impl GenerationSource {
    /// The generator that `seed` determines, at the start of its stream.
    pub fn from_seed(seed: u64) -> (source: Self)
        ensures
            source@ == (SourceView::Rand { key: chacha_key(seed), pos: 0 }),
    {
        GenerationSource::Rand(SeededRng { key: key_from_seed(seed), pos: 0 })
    }

    /// The generator with the key `key`, at the start of its stream.
    pub fn from_key(key: [u8; 32]) -> (source: Self)
        ensures
            source@ == (SourceView::Rand { key: key@, pos: 0 }),
    {
        GenerationSource::Rand(SeededRng { key, pos: 0 })
    }

    /// A generator keyed from the operating system's entropy, at the start
    /// of its stream; nothing where the system gives none.
    pub fn from_os_entropy() -> (source: Option<Self>)
        ensures
            source is Some ==> source->Some_0@ is Rand && source->Some_0@->pos == 0,
    {
        Self::from_entropy(key_from_os())
    }

    /// The generator for what the operating system answered: with the key
    /// it gave, at the start of its stream, or nothing where it gave none.
    pub fn from_entropy(key: Option<[u8; 32]>) -> (source: Option<Self>)
        ensures
            match key {
                Some(k) => source is Some && source->Some_0@ == (SourceView::Rand {
                    key: k@,
                    pos: 0,
                }),
                None => source is None,
            },
    {
        match key {
            Some(k) => Some(Self::from_key(k)),
            None => None,
        }
    }

    /// A buffer that holds `data`, none of it consumed.
    pub fn from_bytes(data: &[u8]) -> (source: Self)
        ensures
            source@ == (SourceView::Arbitrary { rest: data@ }),
    {
        let mut copy: Vec<u8> = Vec::new();
        copy.extend_from_slice(data);
        assert(copy@ =~= data@);
        let cursor = ByteCursor { data: copy, pos: 0 };
        assert(cursor.remaining() =~= data@);
        GenerationSource::Arbitrary(cursor)
    }
}

impl EntropySource for GenerationSource {
    fn choose_index(&mut self, max: usize) -> (r: usize)
        ensures
            r == old(self)@.draw_index(max).0,
            final(self)@ == old(self)@.draw_index(max).1,
            max > 0 ==> r < max,
            max == 0 ==> r == 0,
    {
        if max == 0 {
            return 0;
        }
        match self {
            GenerationSource::Rand(rng) => {
                let (v, pos) = rng_range(&rng.key, rng.pos, 0, max);
                rng.pos = pos;
                v
            },
            GenerationSource::Arbitrary(cursor) => {
                let (v, left) = cursor_index(cursor.rest(), max);
                cursor.leave(left);
                match v {
                    Some(index) => index,
                    None => 0,
                }
            },
        }
    }

    fn gen_range(&mut self, min: usize, max: usize) -> (r: usize)
        ensures
            r == old(self)@.draw_range(min, max).0,
            final(self)@ == old(self)@.draw_range(min, max).1,
            min < max ==> min <= r < max,
            min >= max ==> r == min,
    {
        if min >= max {
            return min;
        }
        match self {
            GenerationSource::Rand(rng) => {
                let (v, pos) = rng_range(&rng.key, rng.pos, min, max);
                rng.pos = pos;
                v
            },
            GenerationSource::Arbitrary(cursor) => {
                let (v, left) = cursor_range(cursor.rest(), min, max - 1);
                cursor.leave(left);
                match v {
                    Some(number) => number,
                    None => min,
                }
            },
        }
    }

    fn gen_bool(&mut self) -> (r: bool)
        ensures
            r == old(self)@.draw_bool().0,
            final(self)@ == old(self)@.draw_bool().1,
    {
        match self {
            GenerationSource::Rand(rng) => {
                let (v, pos) = rng_bool(&rng.key, rng.pos);
                rng.pos = pos;
                v
            },
            GenerationSource::Arbitrary(cursor) => {
                let (v, left) = cursor_bool(cursor.rest());
                cursor.leave(left);
                match v {
                    Some(b) => b,
                    None => false,
                }
            },
        }
    }

    fn gen_u8(&mut self) -> (r: u8)
        ensures
            r == old(self)@.draw_u8().0,
            final(self)@ == old(self)@.draw_u8().1,
    {
        match self {
            GenerationSource::Rand(rng) => {
                let (v, pos) = rng_u8(&rng.key, rng.pos);
                rng.pos = pos;
                v
            },
            GenerationSource::Arbitrary(cursor) => {
                let (v, left) = cursor_u8(cursor.rest());
                cursor.leave(left);
                match v {
                    Some(number) => number,
                    None => 0,
                }
            },
        }
    }

    fn gen_u16(&mut self) -> (r: u16)
        ensures
            r == old(self)@.draw_u16().0,
            final(self)@ == old(self)@.draw_u16().1,
    {
        match self {
            GenerationSource::Rand(rng) => {
                let (v, pos) = rng_u16(&rng.key, rng.pos);
                rng.pos = pos;
                v
            },
            GenerationSource::Arbitrary(cursor) => {
                let (v, left) = cursor_u16(cursor.rest());
                cursor.leave(left);
                match v {
                    Some(number) => number,
                    None => 0,
                }
            },
        }
    }

    fn gen_u32(&mut self) -> (r: u32)
        ensures
            r == old(self)@.draw_u32().0,
            final(self)@ == old(self)@.draw_u32().1,
    {
        match self {
            GenerationSource::Rand(rng) => {
                let (v, pos) = rng_u32(&rng.key, rng.pos);
                rng.pos = pos;
                v
            },
            GenerationSource::Arbitrary(cursor) => {
                let (v, left) = cursor_u32(cursor.rest());
                cursor.leave(left);
                match v {
                    Some(number) => number,
                    None => 0,
                }
            },
        }
    }

    fn gen_i32(&mut self) -> (r: i32)
        ensures
            r == old(self)@.draw_i32().0,
            final(self)@ == old(self)@.draw_i32().1,
    {
        match self {
            GenerationSource::Rand(rng) => {
                let (v, pos) = rng_i32(&rng.key, rng.pos);
                rng.pos = pos;
                v
            },
            GenerationSource::Arbitrary(cursor) => {
                let (v, left) = cursor_i32(cursor.rest());
                cursor.leave(left);
                match v {
                    Some(number) => number,
                    None => 0,
                }
            },
        }
    }

    fn gen_i64(&mut self) -> (r: i64)
        ensures
            r == old(self)@.draw_i64().0,
            final(self)@ == old(self)@.draw_i64().1,
    {
        match self {
            GenerationSource::Rand(rng) => {
                let (v, pos) = rng_i64(&rng.key, rng.pos);
                rng.pos = pos;
                v
            },
            GenerationSource::Arbitrary(cursor) => {
                let (v, left) = cursor_i64(cursor.rest());
                cursor.leave(left);
                match v {
                    Some(number) => number,
                    None => 0,
                }
            },
        }
    }

    fn gen_f64(&mut self) -> (r: u64)
        ensures
            r == old(self)@.draw_float().0,
            final(self)@ == old(self)@.draw_float().1,
    {
        match self {
            GenerationSource::Rand(rng) => {
                let (v, pos) = rng_u64(&rng.key, rng.pos);
                rng.pos = pos;
                unit_fraction_bits(v / 2048)
            },
            GenerationSource::Arbitrary(cursor) => {
                let (v, left) = cursor_u64(cursor.rest());
                cursor.leave(left);
                match v {
                    Some(number) => number,
                    None => 0,
                }
            },
        }
    }

    fn gen_bytes(&mut self, len: usize) -> (r: Vec<u8>)
        ensures
            r@ == old(self)@.draw_bytes(len).0,
            final(self)@ == old(self)@.draw_bytes(len).1,
            r@.len() == len || r@.len() == 0,
    {
        match self {
            GenerationSource::Rand(rng) => {
                let (v, pos) = rng_bytes(&rng.key, rng.pos, len);
                rng.pos = pos;
                v
            },
            GenerationSource::Arbitrary(cursor) => {
                match cursor_bytes(cursor.rest(), len) {
                    Some(bytes) => {
                        cursor.advance(len);
                        bytes
                    },
                    None => {
                        let none: Vec<u8> = Vec::new();
                        assert(none@ =~= Seq::<u8>::empty());
                        none
                    },
                }
            },
        }
    }

    fn gen_ascii_char(&mut self) -> (r: u8)
        ensures
            r == old(self)@.draw_ascii_char().0,
            final(self)@ == old(self)@.draw_ascii_char().1,
            32 <= r <= 126,
    {
        let i: usize = self.choose_index(ALPHABET_LEN);
        alphabet_char(i)
    }
}

} // verus!
