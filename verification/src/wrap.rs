//! Typed views of native instances.

use vstd::prelude::*;
use crate::types::gpointer;

verus! {

/// A type whose values are views of native instances of one class.
///
/// A view says where an instance is and which class to read it as. It
/// holds nothing else, so the address decides the view.
pub trait Wrapper: Sized {
    /// The address of the instance that this view is of.
    spec fn addr(&self) -> gpointer;

    /// The view of the instance at `ptr`.
    spec fn view_at(ptr: gpointer) -> Self;

    /// The address of the instance, to hand to the native side.
    fn as_mut_ptr(&self) -> (ptr: gpointer)
        ensures
            ptr == self.addr(),
    ;

    /// Reads the instance at `ptr` as one of this class.
    fn from_raw(ptr: gpointer) -> (w: Self)
        ensures
            w == Self::view_at(ptr),
    ;

    /// The view of the instance at `ptr` is at `ptr`, and a view is the
    /// view of the instance at its own address.
    proof fn lemma_view_is_its_address(&self, ptr: gpointer)
        ensures
            Self::view_at(ptr).addr() == ptr,
            Self::view_at(self.addr()) == *self,
    ;
}

/// Reads the instance at `ptr` as one of the class `T`.
pub fn from_raw<T: Wrapper>(ptr: gpointer) -> (w: T)
    ensures
        w == T::view_at(ptr),
        w.addr() == ptr,
{
    let w = T::from_raw(ptr);
    proof {
        w.lemma_view_is_its_address(ptr);
    }
    w
}

} // verus!
