//! Identities of the classes that the native type system has registered.

use vstd::prelude::*;

verus! {

/// The identity of a registered class.
///
/// The native type system registers each class under a name of its own
/// and finds it again by that name. The number that it hands out for the
/// class is settled when the process runs; the name is settled when the
/// class is written, and it is the name that is kept here.
#[derive(Clone, Debug)]
pub struct GType {
    name: String,
}

impl View for GType {
    type V = Seq<char>;

    /// The name under which the class is registered.
    closed spec fn view(&self) -> Seq<char> {
        self.name@
    }
}

impl PartialEq for GType {
    fn eq(&self, other: &GType) -> (r: bool) {
        self.name == other.name
    }
}

impl Eq for GType {

}

impl vstd::std_specs::cmp::PartialEqSpecImpl for GType {
    open spec fn obeys_eq_spec() -> bool {
        true
    }

    open spec fn eq_spec(&self, other: &GType) -> bool {
        self@ == other@
    }
}

impl GType {
    /// The identity of the class registered as `name`.
    pub fn from_name(name: &str) -> (t: GType)
        ensures
            t@ == name@,
    {
        GType { name: name.to_owned() }
    }

    /// The name under which the class is registered.
    pub fn name(&self) -> (s: &str)
        ensures
            s@ == self@,
    {
        self.name.as_str()
    }
}

} // verus!
