//! Names for the machine-dependent basic types of the native interface.
//!
//! The native library is written against its own names for the integer
//! types of the platform. They are kept here so that every signature of
//! the binding reads as the native documentation does. An address of the
//! native side is held as a pointer-sized integer: the binding hands
//! addresses through and compares them, and never reads the memory there.

#![allow(non_camel_case_types)]

use vstd::prelude::*;

verus! {

pub type gboolean = libc::c_int;

pub type gchar = libc::c_char;

pub type gint = libc::c_int;

pub type guint = libc::c_uint;

pub type gsize = libc::size_t;

/// The address of a native value that may be written through.
pub type gpointer = libc::uintptr_t;

/// The address of a native value that is only read.
pub type gconstpointer = libc::uintptr_t;

pub const FALSE: gboolean = 0;

pub const TRUE: gboolean = 1;

/// The address that refers to nothing.
pub const NULL: gpointer = 0;

} // verus!
