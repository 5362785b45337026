//! Sizes of structures, as the Windows API wants to be told them.
use vstd::layout::size_of;
use vstd::prelude::*;

verus! {

/// The size in bytes of the structure that `val` points to.
pub fn size_of_struct<T>(_val: &T) -> (size: u32)
    requires
        size_of::<T>() <= u32::MAX,
    ensures
        size == size_of::<T>(),
{
    core::mem::size_of::<T>() as u32
}

} // verus!
