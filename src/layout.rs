//! Size and alignment of a block of memory, and the arithmetic that places
//! fields one after another in it.

use vstd::prelude::*;
use vstd::arithmetic::power2::is_pow2;
use vstd::layout::{align_of, size_of, valid_layout};

verus! {

/// The largest size, before rounding up to the alignment, that a block may have.
pub open spec fn fits(size: int, align: int) -> bool
    recommends
        align > 0,
{
    size <= (isize::MAX as int) - (isize::MAX as int) % align
}

/// The smallest multiple of `align` that is at least `offset`.
pub open spec fn padded(offset: int, align: int) -> int
    recommends
        align > 0,
{
    if offset % align == 0 {
        offset
    } else {
        offset + (align - offset % align)
    }
}

/// A size in bytes and a power-of-two alignment.
#[derive(Copy, Clone, Debug, PartialEq, Eq)]
pub struct Layout {
    pub size: usize,
    pub align: usize,
}

impl Layout {
    /// The alignment is a power of two and the size, rounded up to it, fits
    /// the address space.
    pub open spec fn valid(&self) -> bool {
        &&& self.align > 0
        &&& is_pow2(self.align as int)
        &&& fits(self.size as int, self.align as int)
    }

    /// The layout of one value of `X`.
    pub open spec fn of_spec<X>() -> Layout {
        Layout { size: size_of::<X>() as usize, align: align_of::<X>() as usize }
    }

    /// The layout of `n` values of `X` in a row, where it fits.
    pub open spec fn array_spec<X>(n: usize) -> Option<Layout> {
        if fits(size_of::<X>() * n, align_of::<X>() as int) {
            Some(Layout { size: (size_of::<X>() * n) as usize, align: align_of::<X>() as usize })
        } else {
            None
        }
    }

    /// This layout followed by `next`: the whole, and the offset of `next`
    /// in it, where the whole fits.
    pub open spec fn extend_spec(self, next: Layout) -> Option<(Layout, usize)> {
        let off = padded(self.size as int, next.align as int);
        let align = if self.align >= next.align {
            self.align
        } else {
            next.align
        };
        if fits(off + next.size, align as int) {
            Some((Layout { size: (off + next.size) as usize, align }, off as usize))
        } else {
            None
        }
    }

    /// The layout of one value of `X`.
    pub fn of<X>() -> (r: Layout)
        ensures
            r == Self::of_spec::<X>(),
            r.valid(),
            r.size as nat == size_of::<X>(),
            r.align as nat == align_of::<X>(),
    {
        vstd::layout::layout_for_type_is_valid::<X>();
        let r = Layout { size: core::mem::size_of::<X>(), align: core::mem::align_of::<X>() };
        proof {
            assert(valid_layout(r.size, r.align));
        }
        r
    }

    /// The layout of `n` values of `X` in a row, or `None` where it does not
    /// fit the address space.
    pub fn array<X>(n: usize) -> (r: Option<Layout>)
        ensures
            r == Self::array_spec::<X>(n),
            r matches Some(l) ==> l.valid(),
    {
        let elem = Self::of::<X>();
        match elem.size.checked_mul(n) {
            None => {
                proof {
                    assert(size_of::<X>() * n > usize::MAX) by (nonlinear_arith)
                        requires
                            elem.size * n > usize::MAX,
                            elem.size as nat == size_of::<X>(),
                    ;
                }
                None
            },
            Some(size) => {
                let limit = (isize::MAX as usize) - (isize::MAX as usize) % elem.align;
                if size <= limit {
                    Some(Layout { size, align: elem.align })
                } else {
                    None
                }
            },
        }
    }

    /// This layout followed by `next`: the whole, and the offset at which
    /// `next` starts, or `None` where the whole does not fit the address space.
    pub fn extend(&self, next: Layout) -> (r: Option<(Layout, usize)>)
        requires
            self.valid(),
            next.valid(),
        ensures
            r == self.extend_spec(next),
            r matches Some((l, _)) ==> l.valid(),
    {
        let rem = self.size % next.align;
        let off = if rem == 0 {
            Some(self.size)
        } else {
            self.size.checked_add(next.align - rem)
        };
        let align = if self.align >= next.align {
            self.align
        } else {
            next.align
        };
        match off {
            None => None,
            Some(off) => match off.checked_add(next.size) {
                None => None,
                Some(size) => {
                    let limit = (isize::MAX as usize) - (isize::MAX as usize) % align;
                    if size <= limit {
                        Some((Layout { size, align }, off))
                    } else {
                        None
                    }
                },
            },
        }
    }
}

} // verus!
