//! The generator: its configuration, the simulated machine that it drives,
//! and the output that it writes.

use vstd::prelude::*;
use crate::binary64::{bits_clamp_unit, clamp_unit};
use crate::mutators::Mutator;
use crate::protocol::Version;
use crate::state::{State, StateView};

pub mod driver;
pub mod effects;
pub mod emission;
pub mod laws;
pub mod markers;
pub mod mutation;
pub mod stack_ops;
pub mod utils;
pub mod validation;
pub mod words;

verus! {

/// The bit pattern of 0.1, the mutation rate of a new generator.
pub const DEFAULT_MUTATION_RATE: u64 = 0x3FB9_9999_9999_999A;

/// What a generator is configured with, as the contracts see it.
pub struct Config {
    pub mutators: Seq<Mutator>,
    /// The mutation rate as the bit pattern of a binary64 value.
    pub rate: u64,
    pub unsafe_mutations: bool,
    pub allow_ext: bool,
    pub allow_buffer: bool,
    pub min_opcodes: usize,
    pub max_opcodes: usize,
}

/// What a pass leaves as it is: the configuration, the seed and the hint
/// of the output's size.
pub struct Settings {
    pub config: Config,
    pub seed: Option<u64>,
    pub bufsize: Option<usize>,
}

/// What a pass changes: the simulated machine and the output.
pub struct Machine {
    pub state: StateView,
    pub output: Seq<u8>,
}

impl Machine {
    /// The machine at the start of a pass for the protocol `version`:
    /// nothing on the stack, nothing in the reference table, nothing
    /// written.
    pub open spec fn fresh(version: Version) -> Machine {
        Machine { state: StateView::fresh(version), output: Seq::empty() }
    }

    /// The machine is well formed, its reference table names no marker,
    /// and the output agrees with it about the header: a header that
    /// counts as written stands at the start of the output with the
    /// version behind it, a header that is still to be written finds the
    /// output empty, and without a header the output does not begin with
    /// the header's byte.
    pub open spec fn wf(self) -> bool {
        &&& self.state.wf()
        &&& markers::memo_clean(self.state)
        &&& self.state.proto_emitted ==> self.state.version.ordinal() >= 2 && self.output.len() >= 2
            && self.output[0] == 0x80 && self.output[1] == self.state.version.ordinal()
        &&& !self.state.proto_emitted && self.state.version.ordinal() >= 2 ==> self.output.len()
            == 0
        &&& self.state.version.ordinal() < 2 && self.output.len() > 0 ==> self.output[0] != 0x80
    }

    /// The machine with another state.
    pub open spec fn with_state(self, state: StateView) -> Machine {
        Machine { state, output: self.output }
    }

    /// The machine with another output.
    pub open spec fn with_output(self, output: Seq<u8>) -> Machine {
        Machine { state: self.state, output }
    }

    /// The machine with `bytes` behind its output.
    pub open spec fn write(self, bytes: Seq<u8>) -> Machine {
        Machine { state: self.state, output: self.output + bytes }
    }
}

/// A generator of instruction streams. It holds the simulated machine, the
/// output written so far, and the configuration of the passes.
#[derive(Debug)]
pub struct Generator {
    /// The simulated machine.
    pub state: State,
    /// The bytes written so far.
    pub output: Vec<u8>,
    /// The seed of the entropy; without one, the operating system gives it.
    pub seed: Option<u64>,
    /// A hint of the size of the output.
    pub bufsize: Option<usize>,
    /// The smallest number of instructions in the body of a pass.
    pub min_opcodes: usize,
    /// The largest number of instructions in the body of a pass.
    pub max_opcodes: usize,
    /// The active mutation strategies, in the order of their registration.
    pub mutators: Vec<Mutator>,
    /// The mutation rate as the bit pattern of a binary64 value from 0.0
    /// to 1.0.
    pub mutation_rate: u64,
    /// Whether mutations may make the output ill-formed.
    pub unsafe_mutations: bool,
    /// Whether the instructions of the extension registry are admitted.
    pub allow_ext_opcodes: bool,
    /// Whether the instructions of out-of-band buffers are admitted.
    pub allow_buffer_opcodes: bool,
}

impl Default for Generator {
    /// A generator for the default protocol version; see [`Generator::new`].
    fn default() -> (generator: Self)
        ensures
            generator.wf(),
            generator.state@.version == Version::V2,
            !generator.state@.proto_emitted,
            generator.state@.stack.inner.len() == 0,
            generator.state@.memo.len() == 0,
            generator.output@.len() == 0,
            generator.seed is None,
            generator.bufsize is None,
            generator.config() == (Config {
                mutators: Seq::<Mutator>::empty(),
                rate: DEFAULT_MUTATION_RATE,
                unsafe_mutations: false,
                allow_ext: false,
                allow_buffer: false,
                min_opcodes: 60,
                max_opcodes: 300,
            }),
    {
        Generator::new(Version::V2)
    }
}

impl Generator {
    /// The configuration as the contracts see it.
    pub open spec fn config(&self) -> Config {
        Config {
            mutators: self.mutators@,
            rate: self.mutation_rate,
            unsafe_mutations: self.unsafe_mutations,
            allow_ext: self.allow_ext_opcodes,
            allow_buffer: self.allow_buffer_opcodes,
            min_opcodes: self.min_opcodes,
            max_opcodes: self.max_opcodes,
        }
    }

    /// What a pass leaves as it is.
    pub open spec fn settings(&self) -> Settings {
        Settings { config: self.config(), seed: self.seed, bufsize: self.bufsize }
    }

    /// What a pass changes.
    pub open spec fn machine(&self) -> Machine {
        Machine { state: self.state@, output: self.output@ }
    }

    /// See [`Machine::wf`].
    pub open spec fn wf(&self) -> bool {
        self.machine().wf()
    }

    /// A generator for the protocol `version`, at the start of a pass: 60
    /// to 300 instructions, no seed, no mutation strategy, a mutation rate
    /// of 0.1, and neither unsafe mutations nor the instructions of the
    /// extension registry or of out-of-band buffers.
    pub fn new(version: Version) -> (generator: Self)
        ensures
            generator.wf(),
            generator.state@.version == version,
            !generator.state@.proto_emitted,
            generator.state@.stack.inner.len() == 0,
            generator.state@.memo.len() == 0,
            generator.output@.len() == 0,
            generator.seed is None,
            generator.bufsize is None,
            generator.config() == (Config {
                mutators: Seq::<Mutator>::empty(),
                rate: DEFAULT_MUTATION_RATE,
                unsafe_mutations: false,
                allow_ext: false,
                allow_buffer: false,
                min_opcodes: 60,
                max_opcodes: 300,
            }),
    {
        let generator = Generator {
            state: State::new(version),
            output: Vec::new(),
            seed: None,
            bufsize: None,
            min_opcodes: 60,
            max_opcodes: 300,
            mutators: Vec::new(),
            mutation_rate: DEFAULT_MUTATION_RATE,
            unsafe_mutations: false,
            allow_ext_opcodes: false,
            allow_buffer_opcodes: false,
        };
        assert(generator.mutators@ =~= Seq::<Mutator>::empty());
        generator
    }

    /// Back to the start of a pass: the stack, the reference table and the
    /// output are emptied and the header counts as not written. The
    /// configuration stays, the version too.
    pub fn reset(&mut self)
        ensures
            final(self).machine() == Machine::fresh(old(self).state@.version),
            final(self).wf(),
            final(self).settings() == old(self).settings(),
    {
        self.state.reset();
        self.output.clear();
        assert(self.output@ =~= Seq::empty());
    }

    /// The generator with `seed` as its seed: passes are then reproducible.
    pub fn with_seed(self, seed: u64) -> (generator: Self)
        ensures
            generator.seed == Some(seed),
            generator.machine() == self.machine(),
            generator.config() == self.config(),
            generator.bufsize == self.bufsize,
    {
        let mut generator = self;
        generator.seed = Some(seed);
        generator
    }

    /// The generator with `size` as the hint of its output's size.
    pub fn with_buffer_size(self, size: usize) -> (generator: Self)
        ensures
            generator.bufsize == Some(size),
            generator.machine() == self.machine(),
            generator.config() == self.config(),
            generator.seed == self.seed,
    {
        let mut generator = self;
        generator.bufsize = Some(size);
        generator
    }

    /// The generator with `min` as its smallest number of instructions.
    pub fn with_min_opcodes(self, min: usize) -> (generator: Self)
        ensures
            generator.config() == (Config { min_opcodes: min, ..self.config() }),
            generator.machine() == self.machine(),
            generator.seed == self.seed,
            generator.bufsize == self.bufsize,
    {
        let mut generator = self;
        generator.min_opcodes = min;
        generator
    }

    /// The generator with `max` as its largest number of instructions.
    pub fn with_max_opcodes(self, max: usize) -> (generator: Self)
        ensures
            generator.config() == (Config { max_opcodes: max, ..self.config() }),
            generator.machine() == self.machine(),
            generator.seed == self.seed,
            generator.bufsize == self.bufsize,
    {
        let mut generator = self;
        generator.max_opcodes = max;
        generator
    }

    /// The generator with both bounds of its number of instructions.
    pub fn with_opcode_range(self, min: usize, max: usize) -> (generator: Self)
        ensures
            generator.config() == (Config { min_opcodes: min, max_opcodes: max, ..self.config() }),
            generator.machine() == self.machine(),
            generator.seed == self.seed,
            generator.bufsize == self.bufsize,
    {
        let mut generator = self;
        generator.min_opcodes = min;
        generator.max_opcodes = max;
        generator
    }

    /// The generator with `mutators` as its strategies, in their order.
    pub fn with_mutators(self, mutators: Vec<Mutator>) -> (generator: Self)
        ensures
            generator.config() == (Config { mutators: mutators@, ..self.config() }),
            generator.machine() == self.machine(),
            generator.seed == self.seed,
            generator.bufsize == self.bufsize,
    {
        let mut generator = self;
        generator.mutators = mutators;
        generator
    }

    /// The generator with `mutator` behind its other strategies.
    pub fn with_mutator(self, mutator: Mutator) -> (generator: Self)
        ensures
            generator.config() == (Config {
                mutators: self.config().mutators.push(mutator),
                ..self.config()
            }),
            generator.machine() == self.machine(),
            generator.seed == self.seed,
            generator.bufsize == self.bufsize,
    {
        let mut generator = self;
        generator.mutators.push(mutator);
        generator
    }

    /// The generator with the mutation rate `rate`, the bit pattern of a
    /// binary64 value, held to the interval from 0.0 to 1.0.
    pub fn with_mutation_rate(self, rate: u64) -> (generator: Self)
        ensures
            generator.config() == (Config { rate: clamp_unit(rate), ..self.config() }),
            generator.machine() == self.machine(),
            generator.seed == self.seed,
            generator.bufsize == self.bufsize,
    {
        let mut generator = self;
        generator.mutation_rate = bits_clamp_unit(rate);
        generator
    }

    /// The generator with unsafe mutations admitted or not.
    pub fn with_unsafe_mutations(self, unsafe_mutations: bool) -> (generator: Self)
        ensures
            generator.config() == (Config { unsafe_mutations, ..self.config() }),
            generator.machine() == self.machine(),
            generator.seed == self.seed,
            generator.bufsize == self.bufsize,
    {
        let mut generator = self;
        generator.unsafe_mutations = unsafe_mutations;
        generator
    }

    /// The generator with the instructions of the extension registry
    /// admitted or not.
    pub fn with_ext_opcodes(self, allow: bool) -> (generator: Self)
        ensures
            generator.config() == (Config { allow_ext: allow, ..self.config() }),
            generator.machine() == self.machine(),
            generator.seed == self.seed,
            generator.bufsize == self.bufsize,
    {
        let mut generator = self;
        generator.allow_ext_opcodes = allow;
        generator
    }

    /// The generator with the instructions of out-of-band buffers admitted
    /// or not.
    pub fn with_buffer_opcodes(self, allow: bool) -> (generator: Self)
        ensures
            generator.config() == (Config { allow_buffer: allow, ..self.config() }),
            generator.machine() == self.machine(),
            generator.seed == self.seed,
            generator.bufsize == self.bufsize,
    {
        let mut generator = self;
        generator.allow_buffer_opcodes = allow;
        generator
    }
}

} // verus!
