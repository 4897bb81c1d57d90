//! Interned strings that name error domains.

use vstd::prelude::*;

verus! {

/// The identity of an interned string.
///
/// The native runtime hands out one number per distinct string and never
/// the same number for two strings, so a quark stands for its string and
/// two quarks are the same exactly when their strings are. The number
/// itself changes from one process to the next; the string does not, and
/// it is the string that is kept here.
#[derive(Clone, Debug)]
pub struct Quark {
    name: String,
}

impl View for Quark {
    type V = Seq<char>;

    /// The string that the quark stands for.
    closed spec fn view(&self) -> Seq<char> {
        self.name@
    }
}

impl PartialEq for Quark {
    fn eq(&self, other: &Quark) -> (r: bool) {
        self.name == other.name
    }
}

impl Eq for Quark {

}

impl vstd::std_specs::cmp::PartialEqSpecImpl for Quark {
    open spec fn obeys_eq_spec() -> bool {
        true
    }

    open spec fn eq_spec(&self, other: &Quark) -> bool {
        self@ == other@
    }
}

impl Quark {
    /// The quark of the string `s`.
    pub fn from_str(s: &str) -> (q: Quark)
        ensures
            q@ == s@,
    {
        Quark { name: s.to_owned() }
    }

    /// The string that this quark stands for.
    pub fn as_str(&self) -> (s: &str)
        ensures
            s@ == self@,
    {
        self.name.as_str()
    }
}

} // verus!
