//! What holds of every pass, beyond what the contracts of the single
//! functions say.

use vstd::prelude::*;
use crate::generator::driver::{
    body_after, frame_chosen, pass, pass_from, target_count, well_framed,
};
use crate::protocol::Version;
use crate::generator::emission::{emission, emission_processed};
use crate::generator::mutation::{
    mutated_bytes, mutated_float, mutated_int, mutated_long, mutated_memo_index, mutated_string,
    post_processed,
};
use crate::binary64::{greater_than, ZERO};
use crate::generator::validation::{legal, legal_among, valid_opcodes};
use crate::generator::{Config, Machine};
use crate::mutators::Mutator;
use crate::opcodes::OpcodeKind;
use crate::source::SourceView;
use crate::state::StateView;
use crate::wire::{le_value, lemma_le_round_trip, lemma_pow256_values};

verus! {

/// Passes are reproducible: two passes with the same configuration, for
/// the same protocol, with the same source and the same decimal texts
/// leave the same machine, the same output, and the same source.
pub proof fn lemma_pass_is_determined(
    config: Config,
    version: Version,
    s: SourceView,
    text: spec_fn(u64) -> Seq<u8>,
    first: (Machine, SourceView),
    second: (Machine, SourceView),
)
    requires
        first == pass(config, version, s, text),
        second == pass(config, version, s, text),
    ensures
        first.0.output == second.0.output,
        first == second,
{
}

/// A pass does not depend on what an earlier pass left: the machine and
/// the output that it leaves are those of a pass of a generator that was
/// never used.
pub proof fn lemma_pass_starts_afresh(
    config: Config,
    left: Machine,
    s: SourceView,
    text: spec_fn(u64) -> Seq<u8>,
)
    ensures
        pass(config, left.state.version, s, text) == pass_from(
            config,
            Machine::fresh(left.state.version),
            s,
            text,
        ),
        Machine::fresh(left.state.version).output.len() == 0,
        Machine::fresh(left.state.version).state.depth() == 0,
        Machine::fresh(left.state.version).state.memo.len() == 0,
        !Machine::fresh(left.state.version).state.proto_emitted,
{
}

/// The length field of a frame, read as a number, is the number of bytes
/// that follow the frame's nine bytes.
pub proof fn lemma_frame_length(output: Seq<u8>, pos: int)
    requires
        well_framed(output, pos),
        output.len() - pos - 9 < 0x1_0000_0000_0000_0000,
    ensures
        le_value(output.subrange(pos + 1, pos + 9)) == output.len() - pos - 9,
{
    lemma_le_round_trip((output.len() - pos - 9) as nat, 8);
    lemma_pow256_values();
}

/// Whether a strategy draws nothing from the source and changes nothing
/// at the rate `rate`: such is every strategy at a rate that is not above
/// 0.0, and at any rate the strategy that confuses types, in safe mode.
pub open spec fn draws_nothing(m: Mutator, rate: u64) -> bool {
    !greater_than(rate, ZERO) || (m matches Mutator::Typeconfusion(t) && !t.unsafe_mode)
}

/// Whether every strategy of the list draws nothing at the rate `rate`.
pub open spec fn all_quiet(mutators: Seq<Mutator>, rate: u64) -> bool {
    forall|i: int| 0 <= i < mutators.len() ==> draws_nothing(#[trigger] mutators[i], rate)
}

/// The configuration without its strategies.
pub open spec fn without_mutators(config: Config) -> Config {
    Config { mutators: Seq::<Mutator>::empty(), ..config }
}

/// Strategies that draw nothing leave every value, the output and the
/// source as they are.
pub proof fn lemma_quiet_strategies(
    mutators: Seq<Mutator>,
    from: int,
    number: i32,
    long: i64,
    float: u64,
    text: Seq<u8>,
    index: usize,
    output_len: usize,
    delta: Seq<u8>,
    output: Seq<u8>,
    s: SourceView,
    rate: u64,
)
    requires
        all_quiet(mutators, rate),
        0 <= from,
    ensures
        mutated_int(mutators, from, number, s, rate) == (number, s),
        mutated_long(mutators, from, long, s, rate) == (long, s),
        mutated_float(mutators, from, float, s, rate) == (float, s),
        mutated_string(mutators, from, text, s, rate) == (text, s),
        mutated_bytes(mutators, from, text, s, rate) == (text, s),
        mutated_memo_index(mutators, from, index, s, rate) == (index, s),
        post_processed(mutators, from, output_len, delta, output, s, rate) == (output, s),
    decreases mutators.len() - from,
{
    if from < mutators.len() {
        assert(draws_nothing(mutators[from], rate));
        lemma_quiet_strategies(
            mutators,
            from + 1,
            number,
            long,
            float,
            text,
            index,
            output_len,
            delta,
            output,
            s,
            rate,
        );
    }
}

/// Strategies that draw nothing leave every value and the source as they
/// are.
pub proof fn lemma_values_stay(mutators: Seq<Mutator>, rate: u64)
    requires
        all_quiet(mutators, rate),
    ensures
        forall|number: i32, t: SourceView| #[trigger]
            mutated_int(mutators, 0, number, t, rate) == (number, t),
        forall|float: u64, t: SourceView| #[trigger]
            mutated_float(mutators, 0, float, t, rate) == (float, t),
        forall|value: Seq<u8>, t: SourceView| #[trigger]
            mutated_string(mutators, 0, value, t, rate) == (value, t),
        forall|value: Seq<u8>, t: SourceView| #[trigger]
            mutated_bytes(mutators, 0, value, t, rate) == (value, t),
        forall|index: usize, t: SourceView| #[trigger]
            mutated_memo_index(mutators, 0, index, t, rate) == (index, t),
{
    let e = Seq::<u8>::empty();
    assert forall|number: i32, t: SourceView| #[trigger]
        mutated_int(mutators, 0, number, t, rate) == (number, t) by {
        lemma_quiet_strategies(mutators, 0, number, 0, 0, e, 0, 0, e, e, t, rate);
    }
    assert forall|float: u64, t: SourceView| #[trigger]
        mutated_float(mutators, 0, float, t, rate) == (float, t) by {
        lemma_quiet_strategies(mutators, 0, 0, 0, float, e, 0, 0, e, e, t, rate);
    }
    assert forall|value: Seq<u8>, t: SourceView| #[trigger]
        mutated_string(mutators, 0, value, t, rate) == (value, t) by {
        lemma_quiet_strategies(mutators, 0, 0, 0, 0, value, 0, 0, e, e, t, rate);
    }
    assert forall|value: Seq<u8>, t: SourceView| #[trigger]
        mutated_bytes(mutators, 0, value, t, rate) == (value, t) by {
        lemma_quiet_strategies(mutators, 0, 0, 0, 0, value, 0, 0, e, e, t, rate);
    }
    assert forall|index: usize, t: SourceView| #[trigger]
        mutated_memo_index(mutators, 0, index, t, rate) == (index, t) by {
        lemma_quiet_strategies(mutators, 0, 0, 0, 0, e, index, 0, e, e, t, rate);
    }
}

/// What is legal does not depend on the strategies.
pub proof fn lemma_legal_without_mutators(config: Config, state: StateView, table: Seq<OpcodeKind>, n: int)
    ensures
        legal_among(config, state, table, n) == legal_among(
            without_mutators(config),
            state,
            table,
            n,
        ),
    decreases n,
{
    if n > 0 {
        lemma_legal_without_mutators(config, state, table, n - 1);
        assert(legal(config, state, table[n - 1]) == legal(
            without_mutators(config),
            state,
            table[n - 1],
        ));
    }
}

/// With strategies that draw nothing, an instruction is written and
/// simulated as without strategies.
pub proof fn lemma_quiet_emission(
    config: Config,
    m: Machine,
    s: SourceView,
    op: OpcodeKind,
    text: spec_fn(u64) -> Seq<u8>,
)
    requires
        all_quiet(config.mutators, config.rate),
    ensures
        emission_processed(config, m, s, op, text) == emission_processed(
            without_mutators(config),
            m,
            s,
            op,
            text,
        ),
{
    let none = without_mutators(config);
    assert(all_quiet(none.mutators, config.rate));
    lemma_values_stay(config.mutators, config.rate);
    lemma_values_stay(none.mutators, config.rate);
    match op {
        OpcodeKind::Int
        | OpcodeKind::Long
        | OpcodeKind::Long1
        | OpcodeKind::Long4
        | OpcodeKind::BinInt
        | OpcodeKind::BinInt1
        | OpcodeKind::BinInt2 => {
            assert(crate::generator::emission::int_emission(config, m, s)
                == crate::generator::emission::int_emission(none, m, s));
        },
        OpcodeKind::Float => {
            assert(crate::generator::emission::float_emission(config, m, s, text)
                == crate::generator::emission::float_emission(none, m, s, text));
        },
        OpcodeKind::BinFloat => {
            assert(crate::generator::emission::bin_float_emission(config, m, s)
                == crate::generator::emission::bin_float_emission(none, m, s));
        },
        OpcodeKind::String
        | OpcodeKind::Unicode
        | OpcodeKind::ShortBinUnicode
        | OpcodeKind::BinUnicode
        | OpcodeKind::BinUnicode8 => {
            assert(crate::generator::emission::string_emission(config, m, s, op)
                == crate::generator::emission::string_emission(none, m, s, op));
        },
        OpcodeKind::BinString
        | OpcodeKind::ShortBinString
        | OpcodeKind::ShortBinBytes
        | OpcodeKind::BinBytes
        | OpcodeKind::BinBytes8
        | OpcodeKind::ByteArray8 => {
            assert(crate::generator::emission::bytes_emission(config, m, s, op)
                == crate::generator::emission::bytes_emission(none, m, s, op));
        },
        OpcodeKind::Get | OpcodeKind::BinGet | OpcodeKind::LongBinGet => {
            assert(crate::generator::emission::get_emission(config, m, s, op)
                == crate::generator::emission::get_emission(none, m, s, op));
        },
        _ => {},
    }
    assert(emission(config, m, s, op, text) == emission(none, m, s, op, text));
    let e = emission(config, m, s, op, text);
    lemma_quiet_strategies(
        config.mutators,
        0,
        0,
        0,
        0,
        Seq::<u8>::empty(),
        0,
        m.output.len() as usize,
        e.0.output.skip(m.output.len() as int),
        e.0.output,
        e.1,
        config.rate,
    );
    lemma_quiet_strategies(
        none.mutators,
        0,
        0,
        0,
        0,
        Seq::<u8>::empty(),
        0,
        m.output.len() as usize,
        e.0.output.skip(m.output.len() as int),
        e.0.output,
        e.1,
        config.rate,
    );
}

/// With strategies that draw nothing, the body is written as without
/// strategies.
pub proof fn lemma_quiet_body(
    config: Config,
    m: Machine,
    s: SourceView,
    steps: nat,
    text: spec_fn(u64) -> Seq<u8>,
)
    requires
        all_quiet(config.mutators, config.rate),
    ensures
        body_after(config, m, s, steps, text) == body_after(
            without_mutators(config),
            m,
            s,
            steps,
            text,
        ),
    decreases steps,
{
    if steps > 0 {
        lemma_quiet_body(config, m, s, (steps - 1) as nat, text);
        let before = body_after(config, m, s, (steps - 1) as nat, text);
        let table = crate::opcodes::version_opcodes(before.0.state.version);
        lemma_legal_without_mutators(config, before.0.state, table, table.len() as int);
        let valid = valid_opcodes(config, before.0.state);
        if valid.len() > 0 {
            let pick = crate::generator::validation::chosen(valid, before.1);
            lemma_quiet_emission(config, before.0, pick.1, pick.0, text);
        }
    }
}

/// Strategies that draw nothing are as good as none: with a list of such
/// strategies a pass leaves the machine, the output and the source that
/// it leaves without strategies.
pub proof fn lemma_quiet_pass(
    config: Config,
    version: Version,
    s: SourceView,
    text: spec_fn(u64) -> Seq<u8>,
)
    requires
        all_quiet(config.mutators, config.rate),
    ensures
        pass(config, version, s, text) == pass(without_mutators(config), version, s, text),
{
    let none = without_mutators(config);
    let m = Machine::fresh(version);
    let frame = frame_chosen(m, s);
    let headed = crate::generator::emission::proto_emission(m);
    let reserved = if frame.0 {
        headed.write(crate::generator::driver::zeros(9))
    } else {
        headed
    };
    let target = target_count(config, frame.1);
    assert(target == target_count(none, frame.1));
    lemma_quiet_body(config, reserved, target.1, target.0 as nat, text);
}

/// At the mutation rate 0.0 the strategies are as good as none: whatever
/// the list of strategies holds, a pass leaves the machine, the output and
/// the source that it leaves without strategies.
pub proof fn lemma_rate_zero_pass(
    config: Config,
    version: Version,
    s: SourceView,
    text: spec_fn(u64) -> Seq<u8>,
)
    requires
        config.rate == ZERO,
    ensures
        pass(config, version, s, text) == pass(without_mutators(config), version, s, text),
        pass(config, version, s, text).0.output == pass(
            without_mutators(config),
            version,
            s,
            text,
        ).0.output,
{
    lemma_quiet_pass(config, version, s, text);
}

} // verus!
