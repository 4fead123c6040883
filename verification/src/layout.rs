//! Size and alignment descriptors, and what it means for a value to fit.

use vstd::arithmetic::power2::is_pow2;
use vstd::layout::{align_of, size_of};
use vstd::prelude::*;

verus! {

/// The size and alignment, in bytes, of a value in memory.
#[derive(Clone, Copy, PartialEq, Eq, Structural, Debug)]
pub struct Layout {
    pub size: usize,
    pub align: usize,
}

/// The layout of the type `T`.
pub open spec fn layout_of<T>() -> Layout {
    Layout { size: size_of::<T>() as usize, align: align_of::<T>() as usize }
}

impl Layout {
    /// A layout is valid when its alignment is a power of two and its size,
    /// rounded up to that alignment, does not exceed `isize::MAX`.
    pub open spec fn valid(self) -> bool {
        vstd::layout::valid_layout(self.size, self.align)
    }

    /// Whether a value of this layout fits a buffer of `size` bytes aligned to
    /// `align`.
    pub open spec fn fits(self, size: usize, align: usize) -> bool {
        self.size <= size && self.align <= align
    }

    /// The layout of `T`, as the compiler lays it out.
    pub fn new<T>() -> (layout: Layout)
        ensures
            layout == layout_of::<T>(),
            layout.size == size_of::<T>(),
            layout.align == align_of::<T>(),
            layout.valid(),
            layout.size % layout.align == 0,
    {
        vstd::layout::layout_for_type_is_valid::<T>();
        Layout { size: core::mem::size_of::<T>(), align: core::mem::align_of::<T>() }
    }

    /// The size in bytes.
    pub fn size(&self) -> (size: usize)
        ensures
            size == self.size,
    {
        self.size
    }

    /// The alignment in bytes.
    pub fn align(&self) -> (align: usize)
        ensures
            align == self.align,
    {
        self.align
    }

    /// Decides `fits`.
    pub fn fits_in(&self, size: usize, align: usize) -> (fits: bool)
        ensures
            fits == self.fits(size, align),
    {
        self.size <= size && self.align <= align
    }
}

/// A power of two divides every power of two that is not smaller.
pub proof fn lemma_pow2_divides(small: int, big: int)
    requires
        is_pow2(small),
        is_pow2(big),
        small <= big,
    ensures
        big % small == 0,
    decreases big,
{
    reveal(is_pow2);
    if small == 1 {
    } else {
        // both are even, and their halves are powers of two in the same order
        lemma_pow2_divides(small / 2, big / 2);
        let s = small / 2;
        let b = big / 2;
        let q = b / s;
        vstd::arithmetic::div_mod::lemma_fundamental_div_mod(b, s);
        assert(big == q * small) by (nonlinear_arith)
            requires
                b == s * q,
                big == 2 * b,
                small == 2 * s,
        ;
        vstd::arithmetic::div_mod::lemma_mod_multiples_basic(q, small);
    }
}

/// An address aligned for a storage is aligned for every value that fits it:
/// if `addr` is a multiple of the alignment `align`, it is a multiple of the
/// alignment of each layout that is valid and fits `align`.
pub proof fn lemma_aligned_for_fitting(addr: nat, layout: Layout, size: usize, align: usize)
    requires
        layout.valid(),
        layout.fits(size, align),
        is_pow2(align as int),
        addr % (align as nat) == 0,
    ensures
        addr % (layout.align as nat) == 0,
{
    let a = layout.align as int;
    let b = align as int;
    lemma_pow2_divides(a, b);
    assert(a > 0) by {
        reveal(is_pow2);
    }
    let k = b / a;
    let m = (addr as int) / b;
    vstd::arithmetic::div_mod::lemma_fundamental_div_mod(b, a);
    vstd::arithmetic::div_mod::lemma_fundamental_div_mod(addr as int, b);
    assert(addr as int == (m * k) * a) by (nonlinear_arith)
        requires
            b == a * k,
            addr as int == b * m,
    ;
    vstd::arithmetic::div_mod::lemma_mod_multiples_basic(m * k, a);
}

} // verus!
