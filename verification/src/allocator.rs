//! Arithmetic the kernel's size-class allocator bins blocks with.
use vstd::prelude::*;

verus! {

/// Whether `n` is a power of two.
pub open spec fn is_power_of_two(n: int) -> bool
    decreases n,
{
    if n <= 0 {
        false
    } else if n == 1 {
        true
    } else {
        n % 2 == 0 && is_power_of_two(n / 2)
    }
}

/// The largest power of two that is at most `num`: the size class a free
/// region of `num` bytes falls in.
pub fn prev_power_of_two(num: usize) -> (r: usize)
    requires
        num >= 1,
    ensures
        is_power_of_two(r as int),
        r <= num < 2 * r,
{
    let mut p: usize = 1;
    while p <= num / 2
        invariant
            1 <= p <= num,
            is_power_of_two(p as int),
        decreases num - p,
    {
        p = p * 2;
    }
    p
}

} // verus!
