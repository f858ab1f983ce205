//! Account identifiers.

use vstd::prelude::*;
use vstd::std_specs::cmp::PartialEqSpecImpl;
use vstd::std_specs::convert::FromSpecImpl;

verus! {

/// An account identifier. It is never changed once made, and two identifiers
/// are equal exactly when they hold the same characters.
#[derive(Debug, Clone)]
pub struct Id(String);

impl View for Id {
    type V = Seq<char>;

    closed spec fn view(&self) -> Seq<char> {
        self.0@
    }
}

impl DeepView for Id {
    type V = Seq<char>;

    open spec fn deep_view(&self) -> Seq<char> {
        self@
    }
}

impl Id {
    /// The identifier's characters, given out for good.
    #[must_use]
    pub fn into_string(self) -> (s: String)
        ensures
            s@ == self@,
    {
        self.0
    }

    /// The identifier's characters.
    #[must_use]
    pub fn as_str(&self) -> (s: &str)
        ensures
            s@ == self@,
    {
        self.0.as_str()
    }

    /// The identifier that holds the characters of `value`.
    pub fn new(value: &str) -> (id: Id)
        ensures
            id@ == value@,
    {
        Id(value.to_owned())
    }

    /// The identifier that holds the characters of `value`, without
    /// copying them.
    pub fn from_string(value: String) -> (id: Id)
        ensures
            id@ == value@,
    {
        Id(value)
    }

    /// A second identifier with the same characters.
    pub fn duplicate(&self) -> (other: Id)
        ensures
            other@ == self@,
    {
        Id(self.0.clone())
    }
}

impl PartialEq for Id {
    fn eq(&self, other: &Id) -> (same: bool) {
        self.0 == other.0
    }
}

impl PartialEqSpecImpl for Id {
    open spec fn obeys_eq_spec() -> bool {
        true
    }

    open spec fn eq_spec(&self, other: &Id) -> bool {
        self@ == other@
    }
}

impl From<String> for Id {
    fn from(value: String) -> (id: Id) {
        Id(value)
    }
}

impl FromSpecImpl<String> for Id {
    open spec fn obeys_from_spec() -> bool {
        true
    }

    closed spec fn from_spec(value: String) -> Id {
        Id(value)
    }
}

impl<'a> From<&'a str> for Id {
    fn from(value: &'a str) -> (id: Id) {
        Id(value.to_owned())
    }
}

impl<'a> FromSpecImpl<&'a str> for Id {
    open spec fn obeys_from_spec() -> bool {
        false
    }

    closed spec fn from_spec(value: &'a str) -> Id {
        arbitrary()
    }
}

} // verus!
