//! Errors as the native runtime reports them: a domain, a code within the
//! domain, and a message for people.

use vstd::prelude::*;
use crate::quark::Quark;
use crate::types::gint;

verus! {

/// What an error holds, as mathematics.
pub struct ErrorView {
    pub domain: Seq<char>,
    pub code: int,
    pub message: Seq<char>,
}

/// An error that a native operation has reported.
///
/// A value of this type is always a reported error. The slot that a
/// native function may or may not fill is an `Option<Error>`.
#[derive(Clone, Debug)]
pub struct Error {
    domain: Quark,
    code: gint,
    message: String,
}

impl View for Error {
    type V = ErrorView;

    closed spec fn view(&self) -> ErrorView {
        ErrorView { domain: self.domain@, code: self.code as int, message: self.message@ }
    }
}

/// How an error relates to one enumeration of error codes.
#[derive(Clone, Copy, Debug, PartialEq, Eq)]
pub enum Match<T> {
    /// The error belongs to another domain.
    NotInDomain,
    /// The error belongs to the domain and its code is this value.
    Known(T),
    /// The error belongs to the domain, which has no value for its code.
    Unknown(gint),
}

impl Error {
    /// The error of domain `domain` with code `code`.
    pub fn new(domain: Quark, code: gint, message: &str) -> (e: Error)
        ensures
            e@ == (ErrorView { domain: domain@, code: code as int, message: message@ }),
    {
        Error { domain, code, message: message.to_owned() }
    }

    /// The domain of the error and its code within the domain.
    pub fn key(&self) -> (k: (&Quark, gint))
        ensures
            k.0@ == self@.domain,
            k.1 == self@.code,
    {
        (&self.domain, self.code)
    }

    /// The message that came with the error.
    pub fn message(&self) -> (m: &str)
        ensures
            m@ == self@.message,
    {
        self.message.as_str()
    }
}

} // verus!
