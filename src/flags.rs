use vstd::prelude::*;

verus! {

/// Queue capability: graphics operations.
pub const QUEUE_GRAPHICS: u32 = 0x1;

/// Queue capability: compute operations.
pub const QUEUE_COMPUTE: u32 = 0x2;

/// Queue capability: transfer operations.
pub const QUEUE_TRANSFER: u32 = 0x4;

/// Queue capability: sparse memory management.
pub const QUEUE_SPARSE_BINDING: u32 = 0x8;

/// Queue capability: protected memory.
pub const QUEUE_PROTECTED: u32 = 0x10;

/// Queue capability: video decoding.
pub const QUEUE_VIDEO_DECODE: u32 = 0x20;

/// Queue capability: video encoding.
pub const QUEUE_VIDEO_ENCODE: u32 = 0x40;

/// Queue capability: optical flow.
pub const QUEUE_OPTICAL_FLOW: u32 = 0x100;

/// Every capability bit that a queue family can report.
pub const QUEUE_FLAGS_ALL: u32 = 0x17f;

/// `a` holds every bit of `b`.
pub open spec fn flags_contain(a: u32, b: u32) -> bool {
    a & b == b
}

/// `a` and `b` share at least one bit.
pub open spec fn flags_intersect(a: u32, b: u32) -> bool {
    a & b != 0
}

/// Number of set bits among the lowest `n` bits of `x`.
pub open spec fn popcount_below(x: u32, n: nat) -> nat
    decreases n,
{
    if n == 0 {
        0
    } else {
        popcount_below(x, (n - 1) as nat) + if (x >> ((n - 1) as u32)) & 1u32 == 1u32 {
            1nat
        } else {
            0nat
        }
    }
}

/// Number of set bits of `x`.
pub open spec fn popcount(x: u32) -> nat {
    popcount_below(x, 32)
}

/// Counts the set bits of `x`.
pub fn count_ones(x: u32) -> (r: u32)
    ensures
        r == popcount(x),
        r <= 32,
{
    let mut c: u32 = 0;
    let mut i: u32 = 0;
    while i < 32
        invariant
            i <= 32,
            c <= i,
            c == popcount_below(x, i as nat),
        decreases 32 - i,
    {
        if (x >> i) & 1u32 == 1u32 {
            c = c + 1;
        }
        i = i + 1;
    }
    c
}

/// Whether `a` holds every bit of `b`.
pub fn contains(a: u32, b: u32) -> (r: bool)
    ensures
        r == flags_contain(a, b),
{
    a & b == b
}

/// Whether `a` and `b` share a bit.
pub fn intersects(a: u32, b: u32) -> (r: bool)
    ensures
        r == flags_intersect(a, b),
{
    a & b != 0
}

} // verus!
