//! A semantic version packed into one 4-byte integer: major, minor and patch
//! each occupy one of the three least significant bytes.

use vstd::prelude::*;

verus! {

/// Error of the version utilities: a component was outside `0..=255`. The
/// offending value is carried along.
#[derive(Clone, Copy, Debug, PartialEq, Eq, Structural)]
pub enum AgronaError {
    ArgumentOutOfBounds(i32),
}

/// The packed value of three in-range components.
pub open spec fn spec_compose(major: i32, minor: i32, patch: i32) -> i32
    recommends
        0 <= major <= 255,
        0 <= minor <= 255,
        0 <= patch <= 255,
{
    (major * 0x10000 + minor * 0x100 + patch) as i32
}

#[derive(Clone, Copy, Debug, PartialEq, Eq, Structural)]
pub struct SemanticVersion {
    version: i32,
}

impl SemanticVersion {
    /// The packed 4-byte value.
    pub closed spec fn spec_version(&self) -> i32 {
        self.version
    }

    /// Packs major, minor and patch into the least significant 3 bytes of a
    /// 4-byte integer. Each component must be in `0..=255`; the first one
    /// out of bounds is reported.
    pub fn compose(major: i32, minor: i32, patch: i32) -> (r: Result<
        SemanticVersion,
        AgronaError,
    >)
        ensures
            (0 <= major <= 255 && 0 <= minor <= 255 && 0 <= patch <= 255) <==> r is Ok,
            r matches Ok(sv) ==> sv.spec_version() == spec_compose(major, minor, patch),
            !(0 <= major <= 255) ==> r == Err::<SemanticVersion, AgronaError>(
                AgronaError::ArgumentOutOfBounds(major),
            ),
            (0 <= major <= 255 && !(0 <= minor <= 255)) ==> r == Err::<
                SemanticVersion,
                AgronaError,
            >(AgronaError::ArgumentOutOfBounds(minor)),
            (0 <= major <= 255 && 0 <= minor <= 255 && !(0 <= patch <= 255)) ==> r == Err::<
                SemanticVersion,
                AgronaError,
            >(AgronaError::ArgumentOutOfBounds(patch)),
    {
        if major < 0 || major > 255 {
            return Err(AgronaError::ArgumentOutOfBounds(major));
        }
        if minor < 0 || minor > 255 {
            return Err(AgronaError::ArgumentOutOfBounds(minor));
        }
        if patch < 0 || patch > 255 {
            return Err(AgronaError::ArgumentOutOfBounds(patch));
        }
        let version = major * 0x10000 + minor * 0x100 + patch;
        Ok(SemanticVersion { version })
    }

    pub fn major(&self) -> (r: i32)
        ensures
            r == (self.spec_version() >> 16) & 0xFF,
    {
        (self.version >> 16) & 0xFF
    }

    pub fn minor(&self) -> (r: i32)
        ensures
            r == (self.spec_version() >> 8) & 0xFF,
    {
        (self.version >> 8) & 0xFF
    }

    pub fn patch(&self) -> (r: i32)
        ensures
            r == self.spec_version() & 0xFF,
    {
        self.version & 0xFF
    }

    pub fn version(&self) -> (r: i32)
        ensures
            r == self.spec_version(),
    {
        self.version
    }
}

/// Composing in-range components and reading them back returns each
/// component unchanged.
pub proof fn lemma_semantic_version_round_trip(major: i32, minor: i32, patch: i32)
    requires
        0 <= major <= 255,
        0 <= minor <= 255,
        0 <= patch <= 255,
    ensures
        (spec_compose(major, minor, patch) >> 16) & 0xFF == major,
        (spec_compose(major, minor, patch) >> 8) & 0xFF == minor,
        spec_compose(major, minor, patch) & 0xFF == patch,
{
    let v = spec_compose(major, minor, patch);
    assert(v == major * 0x10000 + minor * 0x100 + patch);
    assert((0 <= major <= 255 && 0 <= minor <= 255 && 0 <= patch <= 255 && v == major * 0x10000
        + minor * 0x100 + patch) ==> ((v >> 16) & 0xFF == major && (v >> 8) & 0xFF == minor && v
        & 0xFF == patch)) by (bit_vector);
}

} // verus!
