//! The classes of the input/output library that the binding knows, and
//! which of them extends which.
//!
//! A class that extends another holds the instance of that class as its
//! first field, as the native layout does. An interface has no layout of
//! its own: a view of it holds the address of the instance behind it.

use vstd::prelude::*;
use crate::gtype::GType;
use crate::object::{Object, ObjectType, Upcast};
use crate::types::gpointer;
use crate::wrap::Wrapper;

verus! {

/// A view of the outcome of an operation that ran in the background.
#[derive(Debug, PartialEq, Eq, Structural)]
pub struct AsyncResult {
    addr: gpointer,
}

/// A view of a token by which an operation is called off.
#[derive(Debug, PartialEq, Eq, Structural)]
pub struct Cancellable {
    parent_instance: Object,
}

/// A view of a source of bytes.
#[derive(Debug, PartialEq, Eq, Structural)]
pub struct InputStream {
    parent_instance: Object,
}

/// A view of a source of bytes that reads a file.
#[derive(Debug, PartialEq, Eq, Structural)]
pub struct FileInputStream {
    parent_instance: InputStream,
}

impl Wrapper for AsyncResult {
    closed spec fn addr(&self) -> gpointer {
        self.addr
    }

    closed spec fn view_at(ptr: gpointer) -> AsyncResult {
        AsyncResult { addr: ptr }
    }

    fn as_mut_ptr(&self) -> (ptr: gpointer) {
        self.addr
    }

    fn from_raw(ptr: gpointer) -> (w: AsyncResult) {
        AsyncResult { addr: ptr }
    }

    proof fn lemma_view_is_its_address(&self, ptr: gpointer) {
    }
}

impl Cancellable {
    /// The instance of the extended class with which this one begins.
    pub closed spec fn parent_instance(&self) -> Object {
        self.parent_instance
    }
}

impl Wrapper for Cancellable {
    closed spec fn addr(&self) -> gpointer {
        self.parent_instance.addr()
    }

    closed spec fn view_at(ptr: gpointer) -> Cancellable {
        Cancellable { parent_instance: Object::view_at(ptr) }
    }

    fn as_mut_ptr(&self) -> (ptr: gpointer) {
        self.parent_instance.as_mut_ptr()
    }

    fn from_raw(ptr: gpointer) -> (w: Cancellable) {
        Cancellable { parent_instance: Object::from_raw(ptr) }
    }

    proof fn lemma_view_is_its_address(&self, ptr: gpointer) {
        self.parent_instance.lemma_view_is_its_address(ptr);
    }
}

impl InputStream {
    /// The instance of the extended class with which this one begins.
    pub closed spec fn parent_instance(&self) -> Object {
        self.parent_instance
    }
}

impl Wrapper for InputStream {
    closed spec fn addr(&self) -> gpointer {
        self.parent_instance.addr()
    }

    closed spec fn view_at(ptr: gpointer) -> InputStream {
        InputStream { parent_instance: Object::view_at(ptr) }
    }

    fn as_mut_ptr(&self) -> (ptr: gpointer) {
        self.parent_instance.as_mut_ptr()
    }

    fn from_raw(ptr: gpointer) -> (w: InputStream) {
        InputStream { parent_instance: Object::from_raw(ptr) }
    }

    proof fn lemma_view_is_its_address(&self, ptr: gpointer) {
        self.parent_instance.lemma_view_is_its_address(ptr);
    }
}

impl FileInputStream {
    /// The instance of the extended class with which this one begins.
    pub closed spec fn parent_instance(&self) -> InputStream {
        self.parent_instance
    }
}

impl Wrapper for FileInputStream {
    closed spec fn addr(&self) -> gpointer {
        self.parent_instance.addr()
    }

    closed spec fn view_at(ptr: gpointer) -> FileInputStream {
        FileInputStream { parent_instance: InputStream::view_at(ptr) }
    }

    fn as_mut_ptr(&self) -> (ptr: gpointer) {
        self.parent_instance.as_mut_ptr()
    }

    fn from_raw(ptr: gpointer) -> (w: FileInputStream) {
        FileInputStream { parent_instance: InputStream::from_raw(ptr) }
    }

    proof fn lemma_view_is_its_address(&self, ptr: gpointer) {
        self.parent_instance.lemma_view_is_its_address(ptr);
    }
}

impl ObjectType for AsyncResult {
    open spec fn class_name() -> Seq<char> {
        "GAsyncResult"@
    }

    fn get_type() -> (t: GType) {
        GType::from_name("GAsyncResult")
    }
}

impl ObjectType for FileInputStream {
    open spec fn class_name() -> Seq<char> {
        "GFileInputStream"@
    }

    fn get_type() -> (t: GType) {
        GType::from_name("GFileInputStream")
    }
}

impl Upcast<Object> for Cancellable {
    open spec fn upcast_view(&self) -> Object {
        self.parent_instance()
    }

    fn upcast(&self) -> (base: &Object) {
        &self.parent_instance
    }

    proof fn lemma_upcast_keeps_address(&self) {
    }
}

impl Upcast<Object> for InputStream {
    open spec fn upcast_view(&self) -> Object {
        self.parent_instance()
    }

    fn upcast(&self) -> (base: &Object) {
        &self.parent_instance
    }

    proof fn lemma_upcast_keeps_address(&self) {
    }
}

impl Upcast<InputStream> for FileInputStream {
    open spec fn upcast_view(&self) -> InputStream {
        self.parent_instance()
    }

    fn upcast(&self) -> (base: &InputStream) {
        &self.parent_instance
    }

    proof fn lemma_upcast_keeps_address(&self) {
    }
}

impl Upcast<Object> for FileInputStream {
    open spec fn upcast_view(&self) -> Object {
        self.parent_instance().parent_instance()
    }

    fn upcast(&self) -> (base: &Object) {
        let stream: &InputStream = self.upcast();
        stream.upcast()
    }

    proof fn lemma_upcast_keeps_address(&self) {
    }
}

/// Each class that is declared to begin with another is read as the
/// other by reading the instance with which it begins, and that instance
/// is at the address of the whole.
pub proof fn lemma_upcast_reads_embedded_instance(
    c: Cancellable,
    s: InputStream,
    f: FileInputStream,
)
    ensures
        Upcast::<Object>::upcast_view(&c) == c.parent_instance(),
        c.parent_instance().addr() == c.addr(),
        Upcast::<Object>::upcast_view(&s) == s.parent_instance(),
        s.parent_instance().addr() == s.addr(),
        Upcast::<InputStream>::upcast_view(&f) == f.parent_instance(),
        f.parent_instance().addr() == f.addr(),
        Upcast::<Object>::upcast_view(&f) == f.parent_instance().parent_instance(),
        f.parent_instance().parent_instance().addr() == f.addr(),
{
}

} // verus!
