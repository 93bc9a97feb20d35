//! Packed client versions.
//!
//! A client version has four 8-bit components (major, minor, patch, build).
//! They are packed into one 32-bit integer, major in the highest byte, so
//! that comparing packed values agrees with comparing the quadruples
//! lexicographically.
use vstd::prelude::*;

verus! {

/// The packed form of a four-component client version.
pub open spec fn packed_version(major: u8, minor: u8, patch: u8, build: u8) -> int {
    (major as int) * 0x1000000 + (minor as int) * 0x10000 + (patch as int) * 0x100
        + (build as int)
}

/// Lexicographic order on version quadruples.
pub open spec fn version_le(
    a1: u8, b1: u8, c1: u8, d1: u8,
    a2: u8, b2: u8, c2: u8, d2: u8,
) -> bool {
    if a1 != a2 {
        a1 < a2
    } else if b1 != b2 {
        b1 < b2
    } else if c1 != c2 {
        c1 < c2
    } else {
        d1 <= d2
    }
}

/// Packs a four-component client version into one ordered 32-bit integer.
pub fn create_version(major: u8, minor: u8, patch: u8, build: u8) -> (v: u32)
    ensures
        v == packed_version(major, minor, patch, build),
{
    (major as u32) * 0x1000000 + (minor as u32) * 0x10000 + (patch as u32) * 0x100
        + (build as u32)
}

/// Packing is injective: equal packed forms come from equal quadruples.
pub proof fn lemma_packed_version_injective(
    a1: u8, b1: u8, c1: u8, d1: u8,
    a2: u8, b2: u8, c2: u8, d2: u8,
)
    requires
        packed_version(a1, b1, c1, d1) == packed_version(a2, b2, c2, d2),
    ensures
        a1 == a2 && b1 == b2 && c1 == c2 && d1 == d2,
{
}

/// Comparing packed versions agrees with comparing the quadruples
/// lexicographically, so the packed form orders versions correctly.
pub proof fn lemma_packed_version_order(
    a1: u8, b1: u8, c1: u8, d1: u8,
    a2: u8, b2: u8, c2: u8, d2: u8,
)
    ensures
        packed_version(a1, b1, c1, d1) <= packed_version(a2, b2, c2, d2)
            <==> version_le(a1, b1, c1, d1, a2, b2, c2, d2),
{
}

} // verus!
