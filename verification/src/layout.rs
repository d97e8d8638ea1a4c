use vstd::prelude::*;
use vstd::layout::{align_of, layout_for_type_is_valid, size_of, valid_layout};

verus! {

/// The size and alignment that a block of storage is reserved with.
#[derive(Clone, Copy, Debug, PartialEq, Eq, Structural)]
pub struct Layout {
    size: usize,
    align: usize,
}

impl Layout {
    /// The number of bytes in a block of this layout.
    pub closed spec fn spec_size(&self) -> usize {
        self.size
    }

    /// The alignment, in bytes, of a block of this layout.
    pub closed spec fn spec_align(&self) -> usize {
        self.align
    }

    /// What an allocator accepts: the alignment is a power of two, and the
    /// size, rounded up to the alignment, fits in `isize`. True of every
    /// layout.
    #[verifier::type_invariant]
    pub open spec fn wf(&self) -> bool {
        valid_layout(self.spec_size(), self.spec_align())
    }

    /// Whether this is the layout of a value of type `T`: `T`'s size and
    /// `T`'s alignment.
    pub open spec fn is_for<T>(&self) -> bool {
        &&& self.spec_size() as nat == size_of::<T>()
        &&& self.spec_align() as nat == align_of::<T>()
    }

    /// The layout of a value of type `T`.
    pub fn new<T>() -> (layout: Layout)
        ensures
            layout.is_for::<T>(),
            layout.wf(),
            layout.spec_align() > 0,
            layout.spec_size() % layout.spec_align() == 0,
    {
        layout_for_type_is_valid::<T>();
        Layout { size: core::mem::size_of::<T>(), align: core::mem::align_of::<T>() }
    }

    /// The number of bytes in a block of this layout.
    #[verifier::when_used_as_spec(spec_size)]
    pub fn size(&self) -> (size: usize)
        ensures
            size == self.spec_size(),
            self.wf(),
    {
        proof {
            use_type_invariant(self);
        }
        self.size
    }

    /// The alignment, in bytes, of a block of this layout: a power of two.
    #[verifier::when_used_as_spec(spec_align)]
    pub fn align(&self) -> (align: usize)
        ensures
            align == self.spec_align(),
            self.wf(),
    {
        proof {
            use_type_invariant(self);
        }
        self.align
    }
}

} // verus!
