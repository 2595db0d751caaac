//! The mutation strategies. Each perturbs a value before it is encoded, or
//! rewrites the bytes of an instruction after it was written, to bring
//! edge cases and deliberately ill-formed input into the output.

use vstd::prelude::*;
use crate::binary64;
use crate::binary64::{bits_clamp_unit, bits_greater_than, clamp_unit, greater_than, pack, unit_fraction};
use crate::source::{EntropySource, GenerationSource, SourceView};
use crate::stack::StackObjectRef;
use vstd::arithmetic::power2::{pow2, lemma2_to64, lemma2_to64_rest, lemma_pow2_strictly_increases, lemma_pow2_unfold};

pub mod bitflip;
pub mod boundary;
pub mod character;
pub mod memoindex;
pub mod offbyone;
pub mod stringlen;
pub mod typeconfusion;

pub use bitflip::BitFlipMutator;
pub use boundary::BoundaryMutator;
pub use character::CharacterMutator;
pub use memoindex::MemoIndexMutator;
pub use offbyone::OffByOneMutator;
pub use stringlen::StringLengthMutator;
pub use typeconfusion::TypeConfusionMutator;

verus! {

/// The state of a generator just before an instruction is written, and,
/// once the instruction has been written and simulated, what it added.
#[derive(Debug)]
pub struct EmissionSnapshot {
    /// The depth of the stack before the instruction.
    pub stack_depth: usize,
    /// The length of the output before the instruction.
    pub output_len: usize,
    /// The size of the reference table before the instruction.
    pub memo_size: usize,
    /// The handles that the instruction left on the stack above the old
    /// depth.
    pub stack_delta: Vec<StackObjectRef>,
    /// The bytes that the instruction added to the output.
    pub output_delta: Vec<u8>,
    /// The places of the reference table beyond its old size.
    pub memo_delta: Vec<usize>,
}

/// The names by which the strategies are chosen.
#[derive(Debug, Clone, Copy, PartialEq, Eq, Structural)]
pub enum MutatorKind {
    /// Every strategy.
    All,
    /// Flip one bit of an integer.
    Bitflip,
    /// Put a boundary value in the place of a number.
    Boundary,
    /// Move a number by one.
    Offbyone,
    /// Change the length of a text or a byte string.
    Stringlen,
    /// Replace one character or byte.
    Character,
    /// Make a read of the reference table name another index.
    Memoindex,
    /// Replace a value by one of another type.
    Typeconfusion,
}

/// A mutation strategy, ready for use.
#[derive(Debug, Clone, Copy, PartialEq, Eq, Structural)]
pub enum Mutator {
    Bitflip(BitFlipMutator),
    Boundary(BoundaryMutator),
    Offbyone(OffByOneMutator),
    Stringlen(StringLengthMutator),
    Character(CharacterMutator),
    Memoindex(MemoIndexMutator),
    Typeconfusion(TypeConfusionMutator),
}

/// The single strategies in the order in which "all" stands for them. The
/// two that can make the output ill-formed, the one that replaces a value
/// by one of another type and the one for reference indices, are among
/// them only with unsafe mutations.
pub open spec fn all_kinds(unsafe_mutations: bool) -> Seq<MutatorKind> {
    let always = seq![
        MutatorKind::Bitflip,
        MutatorKind::Boundary,
        MutatorKind::Offbyone,
        MutatorKind::Stringlen,
        MutatorKind::Character,
    ];
    if unsafe_mutations {
        always.push(MutatorKind::Typeconfusion).push(MutatorKind::Memoindex)
    } else {
        always
    }
}

/// The strategy that a name other than "all" stands for.
pub open spec fn created(kind: MutatorKind, unsafe_mode: bool) -> Mutator {
    match kind {
        MutatorKind::All | MutatorKind::Bitflip => Mutator::Bitflip(BitFlipMutator),
        MutatorKind::Boundary => Mutator::Boundary(BoundaryMutator),
        MutatorKind::Offbyone => Mutator::Offbyone(OffByOneMutator),
        MutatorKind::Stringlen => Mutator::Stringlen(StringLengthMutator),
        MutatorKind::Character => Mutator::Character(CharacterMutator),
        MutatorKind::Memoindex => Mutator::Memoindex(MemoIndexMutator { unsafe_mode }),
        MutatorKind::Typeconfusion => Mutator::Typeconfusion(TypeConfusionMutator { unsafe_mode }),
    }
}

impl MutatorKind {
    /// The single strategies that "all" stands for.
    pub fn all_mutators(unsafe_mutations: bool) -> (kinds: Vec<MutatorKind>)
        ensures
            kinds@ == all_kinds(unsafe_mutations),
            forall|i: int|
                0 <= i < kinds@.len() ==> kinds@[i] != MutatorKind::All && (unsafe_mutations
                    || !created(#[trigger] kinds@[i], false).unsafe_spec()),
    {
        let mut mutators: Vec<MutatorKind> = Vec::new();
        mutators.push(MutatorKind::Bitflip);
        mutators.push(MutatorKind::Boundary);
        mutators.push(MutatorKind::Offbyone);
        mutators.push(MutatorKind::Stringlen);
        mutators.push(MutatorKind::Character);
        if unsafe_mutations {
            mutators.push(MutatorKind::Typeconfusion);
            mutators.push(MutatorKind::Memoindex);
        }
        assert(mutators@ =~= all_kinds(unsafe_mutations));
        mutators
    }

    /// The strategy that the name stands for. "All" stands for no single
    /// strategy and is to be expanded before.
    pub fn create(&self, unsafe_mode: bool) -> (mutator: Mutator)
        requires
            *self != MutatorKind::All,
        ensures
            mutator == created(*self, unsafe_mode),
    {
        match self {
            MutatorKind::All | MutatorKind::Bitflip => Mutator::Bitflip(BitFlipMutator),
            MutatorKind::Boundary => Mutator::Boundary(BoundaryMutator),
            MutatorKind::Offbyone => Mutator::Offbyone(OffByOneMutator),
            MutatorKind::Stringlen => Mutator::Stringlen(StringLengthMutator),
            MutatorKind::Character => Mutator::Character(CharacterMutator),
            MutatorKind::Memoindex => Mutator::Memoindex(MemoIndexMutator::new(unsafe_mode)),
            MutatorKind::Typeconfusion => Mutator::Typeconfusion(
                TypeConfusionMutator::new(unsafe_mode),
            ),
        }
    }
}

impl Mutator {
    /// What the strategy makes of an integer, and what it leaves of the
    /// source. A strategy that has nothing to do with integers makes no
    /// change and draws nothing.
    pub open spec fn int_spec(self, value: i32, s: SourceView, rate: u64) -> (
        Option<i32>,
        SourceView,
    ) {
        match self {
            Mutator::Bitflip(_) => BitFlipMutator::int_spec(value, s, rate),
            Mutator::Boundary(_) => BoundaryMutator::int_spec(value, s, rate),
            Mutator::Offbyone(_) => OffByOneMutator::int_spec(value, s, rate),
            _ => (None, s),
        }
    }

    /// What the strategy makes of a long integer, and what it leaves of the
    /// source: no change where the strategy has no turn.
    pub open spec fn long_spec(self, value: i64, s: SourceView, rate: u64) -> (
        Option<i64>,
        SourceView,
    ) {
        match self {
            Mutator::Bitflip(_) => BitFlipMutator::long_spec(value, s, rate),
            Mutator::Boundary(_) => BoundaryMutator::long_spec(value, s, rate),
            Mutator::Offbyone(_) => OffByOneMutator::long_spec(value, s, rate),
            _ => (None, s),
        }
    }

    /// What the strategy makes of a binary64 value, and what it leaves of
    /// the source: no change where the strategy has no turn.
    pub open spec fn float_spec(self, value: u64, s: SourceView, rate: u64) -> (
        Option<u64>,
        SourceView,
    ) {
        match self {
            Mutator::Boundary(_) => BoundaryMutator::float_spec(value, s, rate),
            _ => (None, s),
        }
    }

    /// What the strategy makes of a text, and what it leaves of the source.
    pub open spec fn string_spec(self, value: Seq<u8>, s: SourceView, rate: u64) -> (
        Option<Seq<u8>>,
        SourceView,
    ) {
        match self {
            Mutator::Stringlen(_) => StringLengthMutator::string_spec(value, s, rate),
            Mutator::Character(_) => CharacterMutator::string_spec(value, s, rate),
            _ => (None, s),
        }
    }

    /// What the strategy makes of a byte string, and what it leaves of the
    /// source.
    pub open spec fn bytes_spec(self, value: Seq<u8>, s: SourceView, rate: u64) -> (
        Option<Seq<u8>>,
        SourceView,
    ) {
        match self {
            Mutator::Stringlen(_) => StringLengthMutator::bytes_spec(value, s, rate),
            Mutator::Character(_) => CharacterMutator::bytes_spec(value, s, rate),
            _ => (None, s),
        }
    }

    /// What the strategy makes of an index of the reference table, and what
    /// it leaves of the source: no change where the strategy has no turn.
    pub open spec fn memo_index_spec(self, index: usize, s: SourceView, rate: u64) -> (
        Option<usize>,
        SourceView,
    ) {
        match self {
            Mutator::Offbyone(_) => OffByOneMutator::memo_index_spec(index, s, rate),
            Mutator::Memoindex(m) => m.memo_index_spec(index, s, rate),
            _ => (None, s),
        }
    }

    /// Whether the strategy can make the output ill-formed.
    pub open spec fn unsafe_spec(self) -> bool {
        match self {
            Mutator::Memoindex(m) => m.unsafe_mode,
            Mutator::Typeconfusion(_) => true,
            _ => false,
        }
    }

    /// What the strategy makes of the output after an instruction that
    /// began at `output_len` and wrote `delta`: whether it rewrote it, the
    /// output, and what it leaves of the source.
    pub open spec fn post_process_spec(
        self,
        output_len: usize,
        delta: Seq<u8>,
        output: Seq<u8>,
        s: SourceView,
        rate: u64,
    ) -> (bool, Seq<u8>, SourceView) {
        match self {
            Mutator::Typeconfusion(m) => m.post_process_spec(output_len, delta, output, s, rate),
            _ => (false, output, s),
        }
    }

    /// The name of the strategy.
    pub fn name(&self) -> (name: &'static str)
        ensures
            name@ == (match *self {
                Mutator::Bitflip(_) => "bitflip"@,
                Mutator::Boundary(_) => "boundary"@,
                Mutator::Offbyone(_) => "offbyone"@,
                Mutator::Stringlen(_) => "stringlen"@,
                Mutator::Character(_) => "character"@,
                Mutator::Memoindex(_) => "memoindex"@,
                Mutator::Typeconfusion(_) => "typeconfusion"@,
            }),
    {
        match self {
            Mutator::Bitflip(m) => m.name(),
            Mutator::Boundary(m) => m.name(),
            Mutator::Offbyone(m) => m.name(),
            Mutator::Stringlen(m) => m.name(),
            Mutator::Character(m) => m.name(),
            Mutator::Memoindex(m) => m.name(),
            Mutator::Typeconfusion(m) => m.name(),
        }
    }

    /// The integer after the strategy had its turn, or nothing where it makes
    /// no change.
    pub fn mutate_int(&self, value: i32, source: &mut GenerationSource, rate: u64) -> (r: Option<
        i32,
    >)
        ensures
            r == self.int_spec(value, old(source)@, rate).0,
            final(source)@ == self.int_spec(value, old(source)@, rate).1,
    {
        match self {
            Mutator::Bitflip(m) => m.mutate_int(value, source, rate),
            Mutator::Boundary(m) => m.mutate_int(value, source, rate),
            Mutator::Offbyone(m) => m.mutate_int(value, source, rate),
            _ => None,
        }
    }

    /// The long integer after the strategy had its turn, or nothing where it
    /// makes no change.
    pub fn mutate_long(&self, value: i64, source: &mut GenerationSource, rate: u64) -> (r: Option<
        i64,
    >)
        ensures
            r == self.long_spec(value, old(source)@, rate).0,
            final(source)@ == self.long_spec(value, old(source)@, rate).1,
    {
        match self {
            Mutator::Bitflip(m) => m.mutate_long(value, source, rate),
            Mutator::Boundary(m) => m.mutate_long(value, source, rate),
            Mutator::Offbyone(m) => m.mutate_long(value, source, rate),
            _ => None,
        }
    }

    /// `value` and the result are bit patterns of binary64 values.
    pub fn mutate_float(&self, value: u64, source: &mut GenerationSource, rate: u64) -> (r: Option<
        u64,
    >)
        ensures
            r == self.float_spec(value, old(source)@, rate).0,
            final(source)@ == self.float_spec(value, old(source)@, rate).1,
    {
        match self {
            Mutator::Boundary(m) => m.mutate_float(value, source, rate),
            _ => None,
        }
    }

    /// The text after the strategy had its turn, or nothing where it makes no
    /// change.
    pub fn mutate_string(&self, value: Vec<u8>, source: &mut GenerationSource, rate: u64) -> (r:
        Option<Vec<u8>>)
        ensures
            match self.string_spec(value@, old(source)@, rate).0 {
                Some(text) => r is Some && r->Some_0@ == text,
                None => r is None,
            },
            final(source)@ == self.string_spec(value@, old(source)@, rate).1,
    {
        match self {
            Mutator::Stringlen(m) => m.mutate_string(value, source, rate),
            Mutator::Character(m) => m.mutate_string(value, source, rate),
            _ => None,
        }
    }

    /// The byte string after the strategy had its turn, or nothing where it
    /// makes no change.
    pub fn mutate_bytes(&self, value: Vec<u8>, source: &mut GenerationSource, rate: u64) -> (r:
        Option<Vec<u8>>)
        ensures
            match self.bytes_spec(value@, old(source)@, rate).0 {
                Some(bytes) => r is Some && r->Some_0@ == bytes,
                None => r is None,
            },
            final(source)@ == self.bytes_spec(value@, old(source)@, rate).1,
    {
        match self {
            Mutator::Stringlen(m) => m.mutate_bytes(value, source, rate),
            Mutator::Character(m) => m.mutate_bytes(value, source, rate),
            _ => None,
        }
    }

    /// The index after the strategy had its turn, or nothing where it makes
    /// no change.
    pub fn mutate_memo_index(&self, index: usize, source: &mut GenerationSource, rate: u64) -> (r:
        Option<usize>)
        ensures
            r == self.memo_index_spec(index, old(source)@, rate).0,
            final(source)@ == self.memo_index_spec(index, old(source)@, rate).1,
    {
        match self {
            Mutator::Offbyone(m) => m.mutate_memo_index(index, source, rate),
            Mutator::Memoindex(m) => m.mutate_memo_index(index, source, rate),
            _ => None,
        }
    }

    /// Whether the strategy can make the output ill-formed.
    pub fn is_unsafe(&self) -> (b: bool)
        ensures
            b == self.unsafe_spec(),
    {
        match self {
            Mutator::Memoindex(m) => m.is_unsafe(),
            Mutator::Typeconfusion(m) => m.is_unsafe(),
            _ => false,
        }
    }

    /// Lets the strategy rewrite the instruction that was written last;
    /// says whether it did.
    pub fn post_process(
        &self,
        snapshot: &EmissionSnapshot,
        output: &mut Vec<u8>,
        source: &mut GenerationSource,
        rate: u64,
    ) -> (changed: bool)
        ensures
            changed == self.post_process_spec(
                snapshot.output_len,
                snapshot.output_delta@,
                old(output)@,
                old(source)@,
                rate,
            ).0,
            final(output)@ == self.post_process_spec(
                snapshot.output_len,
                snapshot.output_delta@,
                old(output)@,
                old(source)@,
                rate,
            ).1,
            final(source)@ == self.post_process_spec(
                snapshot.output_len,
                snapshot.output_delta@,
                old(output)@,
                old(source)@,
                rate,
            ).2,
            !changed ==> final(output)@ == old(output)@,
            changed && snapshot.output_len <= old(output)@.len() ==> typeconfusion::rewritten(
                old(output)@,
                final(output)@,
                snapshot.output_len as int,
            ),
    {
        match self {
            Mutator::Typeconfusion(m) => m.post_process(snapshot, output, source, rate),
            _ => false,
        }
    }
}

/// Whether a strategy has its turn, and what the decision leaves of the
/// source. At a rate that is not above 0.0 no strategy has a turn, and
/// nothing is drawn. At any other rate a binary64 value is drawn and held
/// to the interval from 0.0 to 1.0: the strategy has its turn unless that
/// value is greater than the rate.
pub open spec fn turn(s: SourceView, rate: u64) -> (bool, SourceView) {
    if greater_than(rate, binary64::ZERO) {
        let drawn = s.draw_float();
        (!greater_than(clamp_unit(drawn.0), rate), drawn.1)
    } else {
        (false, s)
    }
}

/// Exec form of [`turn`].
pub fn takes_turn(source: &mut GenerationSource, rate: u64) -> (r: bool)
    ensures
        r == turn(old(source)@, rate).0,
        final(source)@ == turn(old(source)@, rate).1,
{
    if bits_greater_than(rate, binary64::ZERO) {
        let drawn: u64 = source.gen_f64();
        !bits_greater_than(bits_clamp_unit(drawn), rate)
    } else {
        false
    }
}

/// Where a strategy has no turn, it changes no value of any kind, nor the
/// output.
pub proof fn lemma_no_mutation_without_turn(
    m: Mutator,
    s: SourceView,
    rate: u64,
    number: i32,
    long: i64,
    float: u64,
    text: Seq<u8>,
    index: usize,
    output_len: usize,
    output: Seq<u8>,
)
    requires
        !turn(s, rate).0,
    ensures
        m.int_spec(number, s, rate).0 is None,
        m.long_spec(long, s, rate).0 is None,
        m.float_spec(float, s, rate).0 is None,
        m.string_spec(text, s, rate).0 is None,
        m.bytes_spec(text, s, rate).0 is None,
        m.memo_index_spec(index, s, rate).0 is None,
        !m.post_process_spec(output_len, text, output, s, rate).0,
        m.post_process_spec(output_len, text, output, s, rate).1 == output,
{
}

/// At the rate 0.0 no strategy has a turn, whatever the source holds, and
/// the source stays as it is.
pub proof fn lemma_no_turn_at_rate_zero(s: SourceView)
    ensures
        turn(s, binary64::ZERO) == (false, s),
{
}

/// At the rate 0.0 no strategy changes a value of any kind, nor the
/// output, and none draws from the source.
pub proof fn lemma_nothing_at_rate_zero(
    m: Mutator,
    s: SourceView,
    number: i32,
    long: i64,
    float: u64,
    text: Seq<u8>,
    index: usize,
    output_len: usize,
    output: Seq<u8>,
)
    ensures
        m.int_spec(number, s, binary64::ZERO) == (None::<i32>, s),
        m.long_spec(long, s, binary64::ZERO) == (None::<i64>, s),
        m.float_spec(float, s, binary64::ZERO) == (None::<u64>, s),
        m.string_spec(text, s, binary64::ZERO) == (None::<Seq<u8>>, s),
        m.bytes_spec(text, s, binary64::ZERO) == (None::<Seq<u8>>, s),
        m.memo_index_spec(index, s, binary64::ZERO) == (None::<usize>, s),
        m.post_process_spec(output_len, text, output, s, binary64::ZERO) == (false, output, s),
{
}

/// At the rate 1.0 every strategy has its turn, whatever the source
/// holds: a value held to the interval from 0.0 to 1.0 is not greater than
/// 1.0.
pub proof fn lemma_turn_at_rate_one(s: SourceView)
    ensures
        turn(s, binary64::ONE).0,
        turn(s, binary64::ONE).1 == s.draw_float().1,
{
}

/// A fraction of `2^53` with a numerator below `2^53` is a number from 0.0
/// up to but without 1.0.
pub proof fn lemma_unit_fraction_is_below_one(k: nat)
    requires
        k < 0x20_0000_0000_0000,
    ensures
        0 <= unit_fraction(k) < binary64::ONE,
{
    if k > 0 {
        lemma2_to64();
        lemma_pack_is_below_one(k, 1022, 0);
    }
}

proof fn lemma_pack_is_below_one(m: nat, exponent: int, doublings: nat)
    requires
        0 < m < 0x20_0000_0000_0000,
        exponent + doublings == 1022,
        doublings <= 52,
        m >= pow2(doublings),
    ensures
        0 <= pack(m, exponent) < binary64::ONE,
    decreases 0x20_0000_0000_0000 - m,
{
    lemma2_to64_rest();
    if m < 0x10_0000_0000_0000 {
        if doublings >= 52 {
            if doublings > 52 {
                lemma_pow2_strictly_increases(52, doublings);
            }
            assert(false);
        }
        lemma_pow2_unfold(doublings + 1);
        lemma_pack_is_below_one(2 * m, exponent - 1, doublings + 1);
    } else {
        assert(exponent * 0x10_0000_0000_0000 <= 1022 * 0x10_0000_0000_0000) by (nonlinear_arith)
            requires
                exponent <= 1022,
        ;
        assert(exponent * 0x10_0000_0000_0000 >= 0) by (nonlinear_arith)
            requires
                exponent >= 0,
        ;
    }
}

/// A generator draws values from 0.0 up to but without 1.0: holding them
/// to that interval changes none.
pub proof fn lemma_generator_draws_unit_values(key: Seq<u8>, pos: u128)
    ensures
        ({
            let drawn = (SourceView::Rand { key, pos }).draw_float().0;
            clamp_unit(drawn) == drawn && !greater_than(drawn, binary64::ONE)
        }),
{
    let drawn = crate::source::chacha_u64(key, pos).0;
    lemma_unit_fraction_is_below_one((drawn / 2048) as nat);
}

/// At the rate 1.0, flipping a bit of an integer gives, with any source,
/// an integer that differs from the one that was given in exactly one bit.
pub proof fn lemma_bitflip_at_rate_one(value: i32, s: SourceView)
    ensures
        ({
            let r = BitFlipMutator::int_spec(value, s, binary64::ONE).0;
            r is Some && r->Some_0 != value && exists|place: u32|
                place < 32 && #[trigger] (1i32 << place) == r->Some_0 ^ value
        }),
{
    lemma_turn_at_rate_one(s);
    let first = turn(s, binary64::ONE);
    let place = first.1.draw_range(0, 32);
    crate::source::lemma_draw_range(first.1, 0, 32);
    let p = place.0 as u32;
    bitflip::lemma_flip_changes_one_bit(value, p);
    assert((1i32 << p) == (value ^ (1i32 << p)) ^ value);
}

/// As [`lemma_bitflip_at_rate_one`], over 64 bits.
pub proof fn lemma_bitflip_long_at_rate_one(value: i64, s: SourceView)
    ensures
        ({
            let r = BitFlipMutator::long_spec(value, s, binary64::ONE).0;
            r is Some && r->Some_0 != value && exists|place: u32|
                place < 64 && #[trigger] (1i64 << place) == r->Some_0 ^ value
        }),
{
    lemma_turn_at_rate_one(s);
    let first = turn(s, binary64::ONE);
    let place = first.1.draw_range(0, 64);
    crate::source::lemma_draw_range(first.1, 0, 64);
    let p = place.0 as u32;
    bitflip::lemma_flip_changes_one_bit_long(value, p);
    assert((1i64 << p) == (value ^ (1i64 << p)) ^ value);
}

} // verus!
