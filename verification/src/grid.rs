//! Sizes of the square grid and of the device buffers that hold it.

use vstd::prelude::*;

verus! {

/// Bytes taken by one cell of a field: a complex number of two 32-bit parts.
pub const CELL_BYTES: u64 = 8;

/// `r` is the truncated square root of `x`.
pub open spec fn is_floor_sqrt(x: int, r: int) -> bool {
    0 <= r && r * r <= x && x < (r + 1) * (r + 1)
}

/// At most one number is the truncated square root of `x`.
pub proof fn lemma_floor_sqrt_unique(x: int, r: int, s: int)
    requires
        is_floor_sqrt(x, r),
        is_floor_sqrt(x, s),
    ensures
        r == s,
{
    if r < s {
        assert((r + 1) * (r + 1) <= s * s) by (nonlinear_arith)
            requires
                0 <= r,
                r + 1 <= s,
        ;
    }
    if s < r {
        assert((s + 1) * (s + 1) <= r * r) by (nonlinear_arith)
            requires
                0 <= s,
                s + 1 <= r,
        ;
    }
}

/// Calls `num::integer::Roots::sqrt` on a `usize`. Its documentation gives the
/// result `r` as the root rounded toward zero, with `r² ≤ x < (r+1)²`; the
/// unsigned implementation has no panicking path.
#[verifier::external_body]
fn floor_sqrt(x: usize) -> (r: usize)
    ensures
        is_floor_sqrt(x as int, r as int),
{
    num::integer::Roots::sqrt(&x)
}

/// Number of cells of a square field with `side` cells along each axis.
pub fn buffer_len(side: usize) -> (len: usize)
    requires
        side * side <= usize::MAX,
    ensures
        len == side * side,
{
    side * side
}

/// Size in bytes of the device buffer that holds a square field of complex
/// cells, as the transform is told it.
pub fn buffer_bytes(side: usize) -> (bytes: u64)
    requires
        CELL_BYTES * (side * side) <= u64::MAX,
    ensures
        bytes == CELL_BYTES * (side * side),
{
    assert(side * side <= CELL_BYTES * (side * side)) by (nonlinear_arith)
        requires
            0 <= side * side,
    ;
    let wide: u64 = side as u64;
    CELL_BYTES * (wide * wide)
}

/// The largest square that a buffer of `len` cells can fill: its side and its
/// number of cells. A read-back of a field takes exactly `cells` elements, so
/// it never runs past the buffer.
pub fn square_within(len: usize) -> (sq: (usize, usize))
    ensures
        is_floor_sqrt(len as int, sq.0 as int),
        sq.1 == sq.0 * sq.0,
        sq.1 <= len,
{
    let side: usize = floor_sqrt(len);
    (side, side * side)
}

/// A buffer made for a field of a given side is read back as a field of that
/// same side, whole: the square within `side * side` cells has `side` cells
/// along each axis.
pub proof fn lemma_square_round_trip(side: int, r: int)
    requires
        0 <= side,
        is_floor_sqrt(side * side, r),
    ensures
        r == side,
{
    assert(is_floor_sqrt(side * side, side)) by (nonlinear_arith)
        requires
            0 <= side,
    ;
    lemma_floor_sqrt_unique(side * side, r, side);
}

} // verus!
