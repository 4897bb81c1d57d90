//! The error codes of the input/output domain.

use vstd::prelude::*;
use crate::error::{Error, Match};
use crate::quark::Quark;
use crate::types::gint;

verus! {

/// A code of the input/output error domain.
#[derive(Clone, Copy, PartialEq, Eq, Structural)]
pub enum IOErrorEnum {
    Failed,
    NotFound,
    Exists,
}

impl IOErrorEnum {
    /// The string whose quark is the input/output error domain.
    pub open spec fn domain_name() -> Seq<char> {
        "g-io-error-quark"@
    }

    /// The number that the native side uses for this value.
    pub open spec fn code_of(self) -> int {
        match self {
            IOErrorEnum::Failed => 0,
            IOErrorEnum::NotFound => 1,
            IOErrorEnum::Exists => 2,
        }
    }

    /// The value that the native side means by `code`, if it means one.
    pub open spec fn of_code(code: int) -> Option<IOErrorEnum> {
        if code == 0 {
            Some(IOErrorEnum::Failed)
        } else if code == 1 {
            Some(IOErrorEnum::NotFound)
        } else if code == 2 {
            Some(IOErrorEnum::Exists)
        } else {
            None
        }
    }

    /// The short name of this value.
    pub open spec fn nick(self) -> Seq<char> {
        match self {
            IOErrorEnum::Failed => "failed"@,
            IOErrorEnum::NotFound => "not-found"@,
            IOErrorEnum::Exists => "exists"@,
        }
    }

    /// How an error of domain `domain` and code `code` relates to this
    /// enumeration.
    pub open spec fn classify(domain: Seq<char>, code: int) -> Match<IOErrorEnum> {
        if domain != Self::domain_name() {
            Match::NotInDomain
        } else {
            match Self::of_code(code) {
                Some(v) => Match::Known(v),
                None => Match::Unknown(code as gint),
            }
        }
    }

    /// The number that the native side uses for this value.
    pub fn code(self) -> (c: gint)
        ensures
            c == self.code_of(),
    {
        match self {
            IOErrorEnum::Failed => 0,
            IOErrorEnum::NotFound => 1,
            IOErrorEnum::Exists => 2,
        }
    }

    /// The value with the number `n`, or `None` where no value has it.
    pub fn from_i64(n: i64) -> (r: Option<IOErrorEnum>)
        ensures
            r == Self::of_code(n as int),
    {
        if n == 0 {
            Some(IOErrorEnum::Failed)
        } else if n == 1 {
            Some(IOErrorEnum::NotFound)
        } else if n == 2 {
            Some(IOErrorEnum::Exists)
        } else {
            None
        }
    }

    /// The short name of this value, as the native side prints it.
    pub fn name(self) -> (s: &'static str)
        ensures
            s@ == self.nick(),
    {
        match self {
            IOErrorEnum::Failed => "failed",
            IOErrorEnum::NotFound => "not-found",
            IOErrorEnum::Exists => "exists",
        }
    }

    /// The domain of the input/output errors.
    pub fn error_domain() -> (q: Quark)
        ensures
            q@ == Self::domain_name(),
    {
        Quark::from_str("g-io-error-quark")
    }

    /// Says how `err` relates to this enumeration: as one of its values,
    /// as a code of its domain that it has no value for, or as an error
    /// of another domain.
    pub fn from_error(err: &Error) -> (m: Match<IOErrorEnum>)
        ensures
            m == Self::classify(err@.domain, err@.code),
    {
        let (domain, code) = err.key();
        if *domain != IOErrorEnum::error_domain() {
            return Match::NotInDomain;
        }
        match IOErrorEnum::from_i64(code as i64) {
            Some(v) => Match::Known(v),
            None => Match::Unknown(code),
        }
    }
}

/// Every value is found again from its number, and a number finds no
/// value but the one that has it.
pub proof fn lemma_code_round_trip(v: IOErrorEnum, code: int)
    ensures
        IOErrorEnum::of_code(v.code_of()) == Some(v),
        IOErrorEnum::of_code(code) == Some(v) <==> code == v.code_of(),
{
}

/// The three outcomes of classifying an error: a code of the domain that
/// has a value is known as that value, a code of the domain without a
/// value is unknown and carried along, and an error of any other domain
/// is not in the domain.
pub proof fn lemma_classify_three_way(domain: Seq<char>, code: gint)
    ensures
        domain == IOErrorEnum::domain_name() ==> forall|v: IOErrorEnum|
            code == v.code_of() ==> IOErrorEnum::classify(domain, code as int) == Match::Known(v),
        domain == IOErrorEnum::domain_name() && IOErrorEnum::of_code(code as int).is_none()
            ==> IOErrorEnum::classify(domain, code as int) == Match::<IOErrorEnum>::Unknown(code),
        domain != IOErrorEnum::domain_name() ==> IOErrorEnum::classify(domain, code as int)
            == Match::<IOErrorEnum>::NotInDomain,
{
}

} // verus!
