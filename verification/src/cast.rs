//! What a value can be read as.
//!
//! For each class there is a trait of the values that can be read as an
//! instance of it. A type has the trait as soon as its class is known to
//! begin with that class, and for no other reason, so code that asks for
//! "anything that reads as an input stream" accepts every class below
//! input streams and nothing else.

use vstd::prelude::*;
use crate::classes::{AsyncResult, Cancellable, FileInputStream, InputStream};
use crate::file::File;
use crate::object::{Object, Upcast};
use crate::wrap::Wrapper;

verus! {

/// A value that can be read as an object.
pub trait AsObject {
    /// This value, read as an object.
    spec fn as_object_view(&self) -> Object;

    /// Reads this value as an object.
    fn as_object(&self) -> (r: &Object)
        ensures
            *r == self.as_object_view(),
    ;
}

impl<T> AsObject for T where T: Upcast<Object> {
    open spec fn as_object_view(&self) -> Object {
        Upcast::<Object>::upcast_view(self)
    }

    #[inline]
    fn as_object(&self) -> (r: &Object) {
        Upcast::<Object>::upcast(self)
    }
}

/// A value that can be read as the outcome of a background operation.
pub trait AsAsyncResult {
    /// This value, read as the outcome of a background operation.
    spec fn as_async_result_view(&self) -> AsyncResult;

    /// Reads this value as the outcome of a background operation.
    fn as_async_result(&self) -> (r: &AsyncResult)
        ensures
            *r == self.as_async_result_view(),
    ;
}

impl<T> AsAsyncResult for T where T: Upcast<AsyncResult> {
    open spec fn as_async_result_view(&self) -> AsyncResult {
        Upcast::<AsyncResult>::upcast_view(self)
    }

    #[inline]
    fn as_async_result(&self) -> (r: &AsyncResult) {
        Upcast::<AsyncResult>::upcast(self)
    }
}

/// A value that can be read as a cancellation token.
pub trait AsCancellable: AsObject {
    /// This value, read as a cancellation token.
    spec fn as_cancellable_view(&self) -> Cancellable;

    /// Reads this value as a cancellation token.
    fn as_cancellable(&self) -> (r: &Cancellable)
        ensures
            *r == self.as_cancellable_view(),
    ;
}

impl<T> AsCancellable for T where T: Upcast<Cancellable>, T: Upcast<Object> {
    open spec fn as_cancellable_view(&self) -> Cancellable {
        Upcast::<Cancellable>::upcast_view(self)
    }

    #[inline]
    fn as_cancellable(&self) -> (r: &Cancellable) {
        Upcast::<Cancellable>::upcast(self)
    }
}

/// A value that can be read as an input stream.
pub trait AsInputStream: AsObject {
    /// This value, read as an input stream.
    spec fn as_input_stream_view(&self) -> InputStream;

    /// Reads this value as an input stream.
    fn as_input_stream(&self) -> (r: &InputStream)
        ensures
            *r == self.as_input_stream_view(),
    ;
}

impl<T> AsInputStream for T where T: Upcast<InputStream>, T: Upcast<Object> {
    open spec fn as_input_stream_view(&self) -> InputStream {
        Upcast::<InputStream>::upcast_view(self)
    }

    #[inline]
    fn as_input_stream(&self) -> (r: &InputStream) {
        Upcast::<InputStream>::upcast(self)
    }
}

/// A value that can be read as an input stream of a file.
pub trait AsFileInputStream: AsInputStream {
    /// This value, read as an input stream of a file.
    spec fn as_file_input_stream_view(&self) -> FileInputStream;

    /// Reads this value as an input stream of a file.
    fn as_file_input_stream(&self) -> (r: &FileInputStream)
        ensures
            *r == self.as_file_input_stream_view(),
    ;
}

impl<T> AsFileInputStream for T where
    T: Upcast<FileInputStream>,
    T: Upcast<InputStream>,
    T: Upcast<Object>,
 {
    open spec fn as_file_input_stream_view(&self) -> FileInputStream {
        Upcast::<FileInputStream>::upcast_view(self)
    }

    #[inline]
    fn as_file_input_stream(&self) -> (r: &FileInputStream) {
        Upcast::<FileInputStream>::upcast(self)
    }
}

/// A value that can be read as a file.
pub trait AsFile {
    /// This value, read as a file.
    spec fn as_file_view(&self) -> File;

    /// Reads this value as a file.
    fn as_file(&self) -> (r: &File)
        ensures
            *r == self.as_file_view(),
    ;
}

impl<T> AsFile for T where T: Upcast<File> {
    open spec fn as_file_view(&self) -> File {
        Upcast::<File>::upcast_view(self)
    }

    #[inline]
    fn as_file(&self) -> (r: &File) {
        Upcast::<File>::upcast(self)
    }
}

/// Reading a value as `A` and that as `O` gives the view that reading
/// the value as `O` at once gives: both are the view of the instance at
/// the address of the value.
pub proof fn lemma_chain_is_direct<B, A, O>(b: B) where
    B: Upcast<A>,
    B: Upcast<O>,
    A: Upcast<O>,
    O: Wrapper,

    ensures
        Upcast::<O>::upcast_view(&Upcast::<A>::upcast_view(&b)) == Upcast::<O>::upcast_view(&b),
        Upcast::<O>::upcast_view(&b) == O::view_at(b.addr()),
        Upcast::<O>::upcast_view(&b).addr() == b.addr(),
{
    let mid = Upcast::<A>::upcast_view(&b);
    let chained = Upcast::<O>::upcast_view(&mid);
    let direct = Upcast::<O>::upcast_view(&b);
    Upcast::<A>::lemma_upcast_keeps_address(&b);
    Upcast::<O>::lemma_upcast_keeps_address(&mid);
    Upcast::<O>::lemma_upcast_keeps_address(&b);
    chained.lemma_view_is_its_address(b.addr());
    direct.lemma_view_is_its_address(b.addr());
}

/// Down the chain from a file's input stream over an input stream to an
/// object, each step taken through its accessor, a value is read as the
/// same object, at the same address, as by the accessor that goes there
/// at once.
pub proof fn lemma_accessors_in_sequence<T>(t: T) where
    T: Upcast<FileInputStream>,
    T: Upcast<InputStream>,
    T: Upcast<Object>,

    ensures
        t.as_file_input_stream_view().as_input_stream_view() == t.as_input_stream_view(),
        t.as_input_stream_view().as_object_view() == t.as_object_view(),
        t.as_file_input_stream_view().as_input_stream_view().as_object_view()
            == t.as_object_view(),
        t.as_object_view().addr() == t.addr(),
{
    lemma_chain_is_direct::<T, FileInputStream, InputStream>(t);
    lemma_chain_is_direct::<T, InputStream, Object>(t);
}

} // verus!
