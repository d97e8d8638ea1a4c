use vstd::prelude::*;
use vstd::layout::{align_of, layout_of_maybe_uninit};
use core::marker::PhantomData;
use core::mem::ManuallyDrop;
use core::sync::atomic::AtomicPtr;
use crate::layout::Layout;

verus! {

/// Whether `addr` can be where a value of type `T` is stored: it is not null
/// and it is a multiple of `T`'s alignment.
pub open spec fn aligned_for<T>(addr: usize) -> bool {
    addr != 0 && addr as nat % align_of::<T>() == 0
}

/// `AtomicPtr` of std, used here only as a marker: whatever `T` is, it may be
/// sent to and shared between threads.
#[verifier::external_type_specification]
#[verifier::external_body]
#[verifier::reject_recursive_types(T)]
pub struct ExAtomicPtr<T>(AtomicPtr<T>);

/// Calls `std::ptr::from_ref` on the value inside the box and hands the
/// pointer out as a bare address. A box's storage is never at address zero and
/// is aligned for what it holds, and `ManuallyDrop<T>` is laid out as `T` is.
#[verifier::external_body]
fn storage_addr<T>(boxed: &Box<ManuallyDrop<T>>) -> (addr: usize)
    ensures
        aligned_for::<T>(addr),
{
    std::ptr::from_ref::<ManuallyDrop<T>>(&**boxed) as usize
}

/// Calls `Box::into_raw`, which gives up the box without freeing its storage,
/// and hands the pointer out as a bare address: not null, and aligned for `T`.
#[verifier::external_body]
fn box_into_addr<T>(boxed: Box<T>) -> (addr: usize)
    ensures
        aligned_for::<T>(addr),
{
    Box::into_raw(boxed) as usize
}

/// Calls `Box::leak`, which gives up the box without freeing its storage and
/// hands out a reference to what it held, good for the rest of the process.
#[verifier::external_body]
fn box_leak<T>(boxed: Box<T>) -> (r: &'static mut T)
    ensures
        *r == *boxed,
{
    Box::leak(boxed)
}

/// An address kept after its storage was given back, with the layout that the
/// storage had been reserved with.
///
/// The handle owns nothing: letting go of it frees nothing. It may be sent to
/// and shared between threads whatever `T` is, which promises nothing about
/// what happens at the address.
#[verifier::reject_recursive_types(T)]
pub struct Dangling<T> {
    addr: usize,
    layout: Layout,
    marker: PhantomData<AtomicPtr<T>>,
}

impl<T> Dangling<T> {
    /// The address that the handle keeps.
    pub closed spec fn addr(&self) -> usize {
        self.addr
    }

    /// The layout that the storage was reserved with.
    pub closed spec fn spec_layout(&self) -> Layout {
        self.layout
    }

    /// True of every handle: the address once held a `T`, and the layout is
    /// `T`'s.
    #[verifier::type_invariant]
    spec fn inv(&self) -> bool {
        &&& aligned_for::<T>(self.addr)
        &&& self.layout.is_for::<T>()
        &&& self.layout.wf()
    }

    /// Reserves storage for a `T`, moves `value` into it, gives the storage
    /// back at once and keeps its address. `value` is never dropped.
    pub fn new(value: T) -> (handle: Self)
        ensures
            aligned_for::<T>(handle.addr()),
            handle.spec_layout().is_for::<T>(),
            handle.spec_layout().wf(),
    {
        let layout = Layout::new::<T>();
        let addr: usize = {
            let boxed = Box::new(ManuallyDrop::new(value));
            storage_addr(&boxed)
            // `boxed` ends here: the storage goes back, the value in it is
            // not dropped.
        };
        Dangling { addr, layout, marker: PhantomData }
    }

    /// The address that the handle keeps, for use with the other primitives.
    pub fn as_ptr(&self) -> (addr: usize)
        ensures
            addr == self.addr(),
            aligned_for::<T>(addr),
    {
        proof {
            use_type_invariant(self);
        }
        self.addr
    }

    /// The layout that the storage was reserved with: that of `T`.
    #[verifier::when_used_as_spec(spec_layout)]
    pub fn layout(&self) -> (layout: Layout)
        ensures
            layout == self.spec_layout(),
            layout.is_for::<T>(),
            layout.wf(),
    {
        proof {
            use_type_invariant(self);
        }
        self.layout
    }
}

/// Moves `val` to the heap and returns its address. The library never frees
/// it and never drops `val`.
pub fn leak<T>(val: T) -> (addr: usize)
    ensures
        aligned_for::<T>(addr),
{
    box_into_addr(Box::new(val))
}

/// Moves `val` to the heap and returns a reference to it that is good for the
/// rest of the process. The reference starts out at `val`; the library never
/// frees the storage behind it.
pub fn leak_ref<T>(val: T) -> (r: &'static mut T)
    ensures
        *r == val,
{
    box_leak(Box::new(val))
}

/// Reserves storage for a `T` and returns its address. Nothing is written to
/// the storage, and the library never frees it.
pub fn alloc_garbage<T>() -> (addr: usize)
    ensures
        aligned_for::<T>(addr),
{
    broadcast use layout_of_maybe_uninit;

    box_into_addr(Box::<T>::new_uninit())
}

} // verus!
