//! Files, and the operations on them that the binding offers.
//!
//! Each operation is a call of a native function, and each has two
//! sides here. The method of `File` turns its arguments into the words
//! that the native function takes, and returns them as a value that
//! stands for the call. Once the native function has been called with
//! those words, `returned` of that value turns what came back into what
//! the operation gives: a handle for a pointer that came with a
//! reference, a string of this side's own for one of the native side's,
//! a failure for an error that was reported.

use vstd::prelude::*;
use crate::bridge::Continuations;
use crate::classes::{AsyncResult, Cancellable, FileInputStream};
use crate::error::Error;
use crate::gstr::{content, OwnedGStr, Utf8};
use crate::gtype::GType;
use crate::object::{Object, ObjectType};
use crate::refcount::Ref;
use crate::types::{gint, gpointer, NULL};
use crate::wrap::Wrapper;

verus! {

/// A view of a file, which may or may not exist.
#[derive(Debug, PartialEq, Eq, Structural)]
pub struct File {
    addr: gpointer,
}

impl Wrapper for File {
    closed spec fn addr(&self) -> gpointer {
        self.addr
    }

    closed spec fn view_at(ptr: gpointer) -> File {
        File { addr: ptr }
    }

    fn as_mut_ptr(&self) -> (ptr: gpointer) {
        self.addr
    }

    fn from_raw(ptr: gpointer) -> (w: File) {
        File { addr: ptr }
    }

    proof fn lemma_view_is_its_address(&self, ptr: gpointer) {
    }
}

impl ObjectType for File {
    open spec fn class_name() -> Seq<char> {
        "GFile"@
    }

    fn get_type() -> (t: GType) {
        GType::from_name("GFile")
    }
}

/// The call that makes a file for a path.
#[derive(Debug)]
pub struct NewForPath<'a> {
    /// The path, with the zero that ends it.
    pub path: &'a [u8],
}

/// The call that asks a file for its path.
#[derive(Debug)]
pub struct GetPath {
    /// The file that is asked.
    pub file: gpointer,
}

/// The call that starts to open a file for reading in the background.
#[derive(Debug)]
pub struct ReadAsync {
    /// The file to read.
    pub file: gpointer,
    /// How urgent the request is.
    pub io_priority: gint,
    /// The token by which the operation can be called off, or null.
    pub cancellable: gpointer,
    /// The token under which the continuation waits.
    pub user_data: gpointer,
}

/// The call that fetches the outcome of opening a file for reading.
#[derive(Debug)]
pub struct ReadFinish {
    /// The file that was to be read.
    pub file: gpointer,
    /// The outcome, as the native side handed it to the continuation.
    pub res: gpointer,
}

impl File {
    /// Makes a file for `path`.
    pub fn new_for_path<'a>(path: &'a Utf8) -> (call: NewForPath<'a>)
        ensures
            call.path@ == path@.push(0),
            content(call.path@) == path@,
    {
        NewForPath { path: path.as_bytes_with_nul() }
    }

    /// Asks the file for its path.
    pub fn get_path(&self) -> (call: GetPath)
        ensures
            call.file == self.addr(),
    {
        GetPath { file: self.as_mut_ptr() }
    }

    /// Starts to open the file for reading, and puts `callback` aside to
    /// run when that is done. The closure is not run here: it waits in
    /// `pending` under the token that goes out as the user data. No
    /// cancellation token goes out as null.
    pub fn read_async<F>(
        &self,
        pending: &mut Continuations<F>,
        io_priority: gint,
        cancellable: Option<&Cancellable>,
        callback: F,
    ) -> (call: ReadAsync) where F: FnOnce(&Object, &AsyncResult), F: 'static
        ensures
            call.file == self.addr(),
            call.io_priority == io_priority,
            call.cancellable == match cancellable {
                Some(c) => c.addr(),
                None => NULL,
            },
            call.user_data != NULL,
            !old(pending)@.contains_key(call.user_data),
            final(pending)@ == old(pending)@.insert(call.user_data, callback),
    {
        let cancellable = match cancellable {
            Some(c) => c.as_mut_ptr(),
            None => NULL,
        };
        let user_data = pending.register(callback);
        ReadAsync { file: self.as_mut_ptr(), io_priority, cancellable, user_data }
    }

    /// Fetches the outcome `res` of opening the file for reading.
    pub fn read_finish(&self, res: &AsyncResult) -> (call: ReadFinish)
        ensures
            call.file == self.addr(),
            call.res == res.addr(),
    {
        ReadFinish { file: self.as_mut_ptr(), res: res.as_mut_ptr() }
    }
}

impl<'a> NewForPath<'a> {
    /// The handle for the file at `ret`, which the native function
    /// returned with a reference for the caller.
    pub fn returned(self, ret: gpointer) -> (file: Ref<File>)
        ensures
            file@ == File::view_at(ret),
            file@.addr() == ret,
    {
        Ref::from_raw(ret)
    }
}

impl GetPath {
    /// The path that the native function returned, read from the bytes
    /// `ret` that begin where its result points.
    pub fn returned(self, ret: &[u8]) -> (path: OwnedGStr)
        ensures
            path@ == content(ret@),
    {
        OwnedGStr::from_raw(ret)
    }
}

impl ReadFinish {
    /// The outcome of the operation. The native function returned `ret`
    /// and left `err` in the error slot. An error in the slot is the
    /// outcome, whatever was returned; with the slot empty, the outcome
    /// is the handle for the stream at `ret`, which came with a
    /// reference for the caller.
    pub fn returned(self, ret: gpointer, err: Option<Error>) -> (r: Result<
        Ref<FileInputStream>,
        Error,
    >)
        ensures
            match err {
                Some(e) => r == Err::<Ref<FileInputStream>, Error>(e),
                None => r matches Ok(stream) && stream@ == FileInputStream::view_at(ret)
                    && stream@.addr() == ret,
            },
    {
        match err {
            Some(e) => Err(e),
            None => Ok(Ref::from_raw(ret)),
        }
    }
}

} // verus!
