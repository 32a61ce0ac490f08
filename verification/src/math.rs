//! Plain 2-component vectors for pointer positions and displacements.
//!
//! The tool never does arithmetic on coordinates: it only stores them,
//! compares them against the zero sentinel, and hands them back out. Each
//! component is therefore kept as the 64-bit encoding of the host's
//! double-precision coordinate, which the host produces and consumes
//! unchanged. Equality on components is exact, with the one twist of the
//! encoding: the host's comparison treats the two encodings of zero (positive
//! and negative) alike, so the zero test here accepts both.

use vstd::prelude::*;

verus! {

/// The 64-bit encoding of a negated zero coordinate (sign bit set, all other
/// bits clear). It denotes the same coordinate as the all-zero encoding.
pub const NEGATIVE_ZERO_BITS: u64 = 0x8000_0000_0000_0000;

/// A point or displacement: two coordinates, each held as its 64-bit encoding.
#[derive(Clone, Copy, Debug, PartialEq, Eq, Structural)]
pub struct Vec2D {
    pub x: u64,
    pub y: u64,
}

impl Vec2D {
    /// True when the component encoding denotes the zero coordinate.
    pub open spec fn spec_coord_is_zero(c: u64) -> bool {
        c == 0 || c == NEGATIVE_ZERO_BITS
    }

    /// True when both components are zero: the sentinel the tool uses for
    /// "no meaningful position".
    pub open spec fn spec_is_zero(self) -> bool {
        Self::spec_coord_is_zero(self.x) && Self::spec_coord_is_zero(self.y)
    }

    /// The canonical zero vector.
    pub fn zero() -> (v: Self)
        ensures
            v == (Vec2D { x: 0u64, y: 0u64 }),
            v.spec_is_zero(),
    {
        Vec2D { x: 0, y: 0 }
    }

    /// Compares this vector against the zero sentinel.
    #[verifier::when_used_as_spec(spec_is_zero)]
    pub fn is_zero(self) -> (b: bool)
        ensures
            b == self.spec_is_zero(),
    {
        (self.x == 0 || self.x == NEGATIVE_ZERO_BITS)
            && (self.y == 0 || self.y == NEGATIVE_ZERO_BITS)
    }
}

} // verus!
