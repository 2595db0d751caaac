//! A structure-aware generator of serialized object-graph bytecode, for
//! testing the programs that read it. The generator simulates the stack and
//! the reference table of the machine that reads the format, and writes only
//! instructions that are legal in the simulated state; mutation strategies
//! then perturb values and bytes on purpose.
//!
//! - [`protocol`], [`opcodes`]: the protocol versions, the instructions and
//!   the table of what each version admits.
//! - [`source`]: the two entropy sources, a seeded generator and a finite
//!   buffer of bytes.
//! - [`stack`], [`equality`], [`state`]: the simulated machine.
//! - [`mutators`]: the mutation strategies.
//! - [`generator`]: the legality oracle, the emission engine and the driver
//!   of a pass.
//! - [`binary64`], [`decimal`], [`wire`]: the encodings of numbers.
//! - [`cli`]: reading a protocol version from a command line.
//!
//! Binary64 values are handled as bit patterns throughout. Their decimal
//! text, which one instruction of the format carries, is asked of the
//! caller through [`FloatText`].

pub mod binary64;
pub mod cli;
pub mod decimal;
pub mod equality;
pub mod generator;
pub mod mutators;
pub mod opcodes;
pub mod protocol;
pub mod source;
pub mod stack;
pub mod state;
pub mod wire;

pub use binary64::FloatText;
pub use generator::driver::GenerateError;
pub use generator::Generator;
pub use mutators::{EmissionSnapshot, Mutator, MutatorKind};
pub use protocol::Version;
