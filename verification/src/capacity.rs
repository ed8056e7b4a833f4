//! Heuristic sizing of the record buffer.
//!
//! The kernel gives no exact way to size a buffer that holds a whole
//! directory listing in one batch-read call. The heuristic used here takes
//! the directory's storage size as a reference, rounds it up to the next
//! multiple of a reference block size, and clamps the result between that
//! block size and an upper bound of 1 MiB.

use vstd::prelude::*;
use vstd::arithmetic::div_mod::{lemma_fundamental_div_mod, lemma_mod_division_less_than_divisor};

verus! {

/// Upper bound on the record buffer capacity: 1 MiB.
pub const MAX_CAPACITY: usize = 0x100000;

/// The least multiple of `block` that is at least `size`.
pub open spec fn round_up(size: int, block: int) -> int
    recommends
        block >= 1,
        size >= 0,
{
    ((size + block - 1) / block) * block
}

/// `v` forced into the interval `[lo, hi]`.
pub open spec fn clamp(v: int, lo: int, hi: int) -> int
    recommends
        lo <= hi,
{
    if v < lo {
        lo
    } else if v > hi {
        hi
    } else {
        v
    }
}

/// The capacity the heuristic chooses for a directory of storage size
/// `size` and a reference block size `block`.
pub open spec fn chosen_capacity(size: int, block: int) -> int
    recommends
        1 <= block <= MAX_CAPACITY,
        size >= 0,
{
    clamp(round_up(size, block), block as int, MAX_CAPACITY as int)
}

/// `round_up(x, b)` lies in `[x, x + b - 1]` and nowhere else.
proof fn lemma_round_up_bounds(x: int, b: int)
    requires
        b >= 1,
        x >= 0,
    ensures
        x <= round_up(x, b) <= x + b - 1,
{
    let y = x + b - 1;
    lemma_fundamental_div_mod(y, b);
    lemma_mod_division_less_than_divisor(y, b);
    assert(y == b * (y / b) + y % b);
    assert(b * (y / b) == (y / b) * b) by (nonlinear_arith);
    assert(round_up(x, b) == y - y % b);
}

/// Compute the buffer capacity for one directory: its storage size rounded
/// up to the next multiple of `block`, clamped between `block` and 1 MiB.
pub fn buffer_capacity(dir_size: u64, block: usize) -> (r: usize)
    requires
        1 <= block <= MAX_CAPACITY,
    ensures
        r as int == chosen_capacity(dir_size as int, block as int),
        block <= r <= MAX_CAPACITY,
{
    proof {
        lemma_round_up_bounds(dir_size as int, block as int);
    }
    if dir_size >= MAX_CAPACITY as u64 {
        MAX_CAPACITY
    } else {
        let size = dir_size as usize;
        let rounded = ((size + block - 1) / block) * block;
        if rounded < block {
            block
        } else if rounded > MAX_CAPACITY {
            MAX_CAPACITY
        } else {
            rounded
        }
    }
}

} // verus!
