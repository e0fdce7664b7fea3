//! Rectangles kept row by row: where an entry lies, and that no two lie in
//! one place.
use vstd::prelude::*;

verus! {

/// The place of the entry in row `y`, column `x`, of a rectangle that is
/// `width` wide.
pub open spec fn offset(width: nat, x: int, y: int) -> int {
    y * width + x
}

/// Inside a rectangle every entry has a place of its own, below the number of
/// entries, and row and column can be read back from the place.
pub proof fn lemma_offset(width: nat, height: nat, x: int, y: int)
    requires
        0 <= x < width,
        0 <= y < height,
    ensures
        0 <= offset(width, x, y) < width * height,
        offset(width, x, y) / (width as int) == y,
        offset(width, x, y) % (width as int) == x,
{
    let w = width as int;
    assert(y * w + x < (y + 1) * w) by (nonlinear_arith)
        requires
            0 <= x < w,
    ;
    assert((y + 1) * w <= height * w) by (nonlinear_arith)
        requires
            0 <= y < height,
            0 < w,
    ;
    assert(0 <= y * w) by (nonlinear_arith)
        requires
            0 <= y,
            0 < w,
    ;
    assert(height * w == width * height) by (nonlinear_arith)
        requires
            w == width,
    ;
    vstd::arithmetic::div_mod::lemma_fundamental_div_mod_converse(y * w + x, w, y, x);
}

/// Every place below the number of entries is that of one row and column.
pub proof fn lemma_place(width: nat, height: nat, k: int)
    requires
        0 <= k < width * height,
    ensures
        0 < width,
        0 <= k % (width as int) < width,
        0 <= k / (width as int) < height,
        offset(width, k % (width as int), k / (width as int)) == k,
{
    let w = width as int;
    assert(0 < width) by (nonlinear_arith)
        requires
            0 <= k < width * height,
    ;
    vstd::arithmetic::div_mod::lemma_fundamental_div_mod(k, w);
    vstd::arithmetic::div_mod::lemma_mod_bound(k, w);
    let q = k / w;
    assert(0 <= q) by {
        vstd::arithmetic::div_mod::lemma_div_pos_is_pos(k, w);
    }
    assert(q < height) by (nonlinear_arith)
        requires
            k == w * q + k % w,
            0 <= k % w,
            k < w * height,
            0 < w,
    ;
    assert(w * q == q * w) by (nonlinear_arith);
}

} // verus!
