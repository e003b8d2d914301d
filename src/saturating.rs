//! Saturating arithmetic on the integer types of the protocol.

use vstd::prelude::*;

verus! {

/// The mathematical value `x`, clamped to the largest `u32`.
pub open spec fn clamp_u32(x: nat) -> u32 {
    if x > u32::MAX {
        u32::MAX
    } else {
        x as u32
    }
}

/// The mathematical value `x`, clamped to the largest `u64`.
pub open spec fn clamp_u64(x: nat) -> u64 {
    if x > u64::MAX {
        u64::MAX
    } else {
        x as u64
    }
}

/// Multiplies two `u32`, clamping the product to `u32::MAX` instead of
/// overflowing.
pub fn saturating_mul_u32(a: u32, b: u32) -> (r: u32)
    ensures
        r == clamp_u32(a as nat * b as nat),
{
    match a.checked_mul(b) {
        Some(p) => p,
        None => u32::MAX,
    }
}

/// Multiplying after clamping one side gives the same result as clamping the
/// product.
pub proof fn lemma_clamp_u32_mul(x: nat, y: nat)
    ensures
        clamp_u32(clamp_u32(x) as nat * y) == clamp_u32(x * y),
        clamp_u32(y * clamp_u32(x) as nat) == clamp_u32(y * x),
{
    if x > u32::MAX && y >= 1 {
        assert(x * y >= x) by (nonlinear_arith)
            requires
                y >= 1,
        ;
        assert(u32::MAX as nat * y >= u32::MAX) by (nonlinear_arith)
            requires
                y >= 1,
        ;
    }
    assert(y * clamp_u32(x) as nat == clamp_u32(x) as nat * y) by (nonlinear_arith);
    assert(y * x == x * y) by (nonlinear_arith);
}

} // verus!
