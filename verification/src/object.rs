//! The root of the class hierarchy and the relation between a class and
//! the classes that it extends.

use vstd::prelude::*;
use crate::gtype::GType;
use crate::types::gpointer;
use crate::wrap::Wrapper;

verus! {

/// A view of an instance as one of the base class of all classes.
#[derive(Debug, PartialEq, Eq, Structural)]
pub struct Object {
    addr: gpointer,
}

impl Wrapper for Object {
    closed spec fn addr(&self) -> gpointer {
        self.addr
    }

    closed spec fn view_at(ptr: gpointer) -> Object {
        Object { addr: ptr }
    }

    fn as_mut_ptr(&self) -> (ptr: gpointer) {
        self.addr
    }

    fn from_raw(ptr: gpointer) -> (w: Object) {
        Object { addr: ptr }
    }

    proof fn lemma_view_is_its_address(&self, ptr: gpointer) {
    }
}

/// A class that the native type system knows by name.
pub trait ObjectType {
    /// The name under which the native side registers the class.
    spec fn class_name() -> Seq<char>;

    /// The identity of the class.
    fn get_type() -> (t: GType)
        ensures
            t@ == Self::class_name(),
    ;
}

/// A class whose instances begin with an instance of `T`.
///
/// The native layout puts the instance of the extended class first, so
/// the two are at one address, and a view of the whole can be read as a
/// view of its beginning. Every implementation has to prove that it
/// keeps the address: a relation that the layout does not bear out is
/// not accepted.
pub trait Upcast<T: Wrapper>: Wrapper {
    /// This instance, read as one of `T`.
    spec fn upcast_view(&self) -> T;

    /// Reads this instance as one of `T`.
    fn upcast(&self) -> (base: &T)
        ensures
            *base == self.upcast_view(),
    ;

    /// The instance and its beginning are at one address.
    proof fn lemma_upcast_keeps_address(&self)
        ensures
            self.upcast_view().addr() == self.addr(),
    ;
}

impl<T: Wrapper> Upcast<T> for T {
    open spec fn upcast_view(&self) -> T {
        *self
    }

    fn upcast(&self) -> (base: &T) {
        self
    }

    proof fn lemma_upcast_keeps_address(&self) {
    }
}

/// The type identity of the class `T`.
pub fn type_of<T: ObjectType>() -> (t: GType)
    ensures
        t@ == T::class_name(),
{
    T::get_type()
}

} // verus!
