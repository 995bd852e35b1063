use vstd::prelude::*;

verus! {

/// The top of a stack carved out of `size` bytes at `bottom`: its end,
/// rounded down to a multiple of eight as the processor's calling
/// convention wants.
pub fn aligned_stack_top(bottom: usize, size: usize) -> (top: usize)
    requires
        bottom + size <= usize::MAX,
    ensures
        top % 8 == 0,
        top <= bottom + size,
        bottom + size - top < 8,
{
    let end = bottom + size;
    let top = end & !7usize;
    assert(top % 8 == 0 && top <= end && end - top < 8) by (bit_vector)
        requires
            top == end & !7usize,
    ;
    top
}

/// Whether a function runs where it is, without switching stacks: when no
/// stack was set up (its top is zero), or when the stack pointer `sp` is
/// already inside it.
pub fn runs_in_place(top: usize, bottom: usize, sp: usize) -> (res: bool)
    ensures
        res == (top == 0 || (bottom <= sp && sp <= top)),
{
    top == 0 || (sp >= bottom && sp <= top)
}

} // verus!
