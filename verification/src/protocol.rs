//! The protocol versions of the format.

use vstd::prelude::*;

verus! {

/// A protocol version of the format. Each version admits the instructions
/// of the versions before it and adds its own.
#[derive(Debug, Clone, Copy, Hash, PartialEq, Eq, Structural, PartialOrd, Ord)]
pub enum Version {
    /// Protocol 0: the text protocol.
    V0,
    /// Protocol 1: the first binary protocol.
    V1,
    /// Protocol 2: new-style objects; the first to carry a header.
    V2,
    /// Protocol 3: byte strings.
    V3,
    /// Protocol 4: frames and long data.
    V4,
    /// Protocol 5: out-of-band buffers.
    V5,
}

/// The number that was refused as a protocol version.
#[derive(Debug, Clone, Copy, PartialEq, Eq, Structural)]
pub struct InvalidVersion {
    pub value: usize,
}

impl InvalidVersion {
    /// What went wrong, in words.
    pub fn message(&self) -> (text: &'static str)
        ensures
            text@ == "protocol version must be 0-5"@,
    {
        "protocol version must be 0-5"
    }
}

impl Default for Version {
    fn default() -> (version: Self)
        ensures
            version == Version::V2,
    {
        Version::V2
    }
}

impl Version {
    /// The ordinal of the version, 0 to 5.
    pub open spec fn ordinal(self) -> nat {
        match self {
            Version::V0 => 0,
            Version::V1 => 1,
            Version::V2 => 2,
            Version::V3 => 3,
            Version::V4 => 4,
            Version::V5 => 5,
        }
    }

    /// The ordinal of the version as the byte that follows the header
    /// instruction.
    pub fn as_u8(self) -> (b: u8)
        ensures
            b == self.ordinal(),
    {
        match self {
            Version::V0 => 0,
            Version::V1 => 1,
            Version::V2 => 2,
            Version::V3 => 3,
            Version::V4 => 4,
            Version::V5 => 5,
        }
    }

    /// The version with the ordinal `value`; an ordinal above 5 is refused.
    pub fn try_from(value: usize) -> (r: Result<Version, InvalidVersion>)
        ensures
            value <= 5 ==> r is Ok && r->Ok_0.ordinal() == value,
            value > 5 ==> r == Err::<Version, InvalidVersion>(InvalidVersion { value }),
    {
        if value == 0 {
            Ok(Version::V0)
        } else if value == 1 {
            Ok(Version::V1)
        } else if value == 2 {
            Ok(Version::V2)
        } else if value == 3 {
            Ok(Version::V3)
        } else if value == 4 {
            Ok(Version::V4)
        } else if value == 5 {
            Ok(Version::V5)
        } else {
            Err(InvalidVersion { value })
        }
    }

    /// Whether this version is `other` or a later one.
    pub fn at_least(self, other: Version) -> (b: bool)
        ensures
            b == (self.ordinal() >= other.ordinal()),
    {
        self.as_u8() >= other.as_u8()
    }
}

/// Versions with the same ordinal are the same version.
pub proof fn lemma_ordinal_is_injective(a: Version, b: Version)
    requires
        a.ordinal() == b.ordinal(),
    ensures
        a == b,
{
}

} // verus!
