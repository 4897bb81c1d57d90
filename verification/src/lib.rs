//! Verified core of a binding layer for a native object runtime.

pub mod bridge;
pub mod cast;
pub mod classes;
pub mod error;
pub mod file;
pub mod gstr;
pub mod gtype;
pub mod io_error;
pub mod object;
pub mod quark;
pub mod refcount;
pub mod types;
pub mod wrap;
