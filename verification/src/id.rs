//! Identifiers of declared items.
use vstd::prelude::*;

verus! {

/// The name of a type, a variable or another declared item.
///
/// Two identifiers name the same item when their characters are the same.
#[derive(Debug)]
pub struct Id {
    pub value: String,
}

impl View for Id {
    type V = Seq<char>;

    open spec fn view(&self) -> Seq<char> {
        self.value@
    }
}

impl Id {
    /// Makes an identifier with the characters of `s`.
    pub fn from(s: &str) -> (id: Id)
        ensures
            id@ == s@,
    {
        Id { value: s.to_string() }
    }

    /// The characters of the identifier, as an owned string.
    pub fn to_string(&self) -> (s: String)
        ensures
            s@ == self@,
    {
        self.value.clone()
    }
}

impl Clone for Id {
    fn clone(&self) -> (id: Id)
        ensures
            id == *self,
    {
        Id { value: self.value.clone() }
    }
}

impl PartialEq for Id {
    fn eq(&self, other: &Id) -> (same: bool) {
        self.value == other.value
    }
}

impl vstd::std_specs::cmp::PartialEqSpecImpl for Id {
    open spec fn obeys_eq_spec() -> bool {
        true
    }

    open spec fn eq_spec(&self, other: &Id) -> bool {
        self@ == other@
    }
}

} // verus!
