//! Handles that own a reference to a native instance.

use vstd::prelude::*;
use crate::types::gpointer;
use crate::wrap::Wrapper;

verus! {

/// A handle that owns one reference to an instance of the class `T`.
///
/// The native side counts the references to each instance and frees the
/// instance with the last. Whoever holds a handle holds one of them, so
/// a handle is made only from a pointer that came with a reference of
/// its own, and gives that reference up when it is turned back into a
/// pointer.
#[derive(Debug)]
pub struct Ref<T> {
    instance: T,
}

impl<T> View for Ref<T> {
    type V = T;

    /// The instance that the handle refers to.
    closed spec fn view(&self) -> T {
        self.instance
    }
}

impl<T: Wrapper> Ref<T> {
    /// Takes over the reference that came with `ptr`.
    pub fn from_raw(ptr: gpointer) -> (r: Ref<T>)
        ensures
            r@ == T::view_at(ptr),
            r@.addr() == ptr,
    {
        Ref { instance: crate::wrap::from_raw(ptr) }
    }

    /// The instance that the handle refers to.
    pub fn get(&self) -> (instance: &T)
        ensures
            *instance == self@,
    {
        &self.instance
    }

    /// Gives the reference up to whoever takes the pointer.
    pub fn into_raw(self) -> (ptr: gpointer)
        ensures
            ptr == self@.addr(),
    {
        self.instance.as_mut_ptr()
    }
}

} // verus!
