use vstd::prelude::*;
use vstd::std_specs::cmp::PartialEqSpecImpl;

verus! {

/// Opaque identifier of a principal, compared by its text.
#[derive(Debug, Eq, Hash)]
pub struct UserId(String);

impl View for UserId {
    type V = Seq<char>;

    closed spec fn view(&self) -> Seq<char> {
        self.0@
    }
}

impl UserId {
    /// Builds an identifier holding exactly the given text.
    pub fn new(id: &str) -> (result: Self)
        ensures
            result@ == id@,
    {
        UserId(id.to_owned())
    }

    /// The identifier's text.
    pub fn as_str(&self) -> (text: &str)
        ensures
            text@ == self@,
    {
        self.0.as_str()
    }
}

impl Clone for UserId {
    fn clone(&self) -> (result: Self)
        ensures
            result == *self,
    {
        UserId(self.0.clone())
    }
}

impl PartialEq for UserId {
    fn eq(&self, other: &Self) -> (equal: bool) {
        self.0 == other.0
    }
}

impl PartialEqSpecImpl for UserId {
    open spec fn obeys_eq_spec() -> bool {
        true
    }

    open spec fn eq_spec(&self, other: &Self) -> bool {
        self@ == other@
    }
}

/// A principal known only by its identifier.
#[derive(Debug)]
pub struct User {
    pub id: UserId,
}

impl User {
    /// Wraps an identifier.
    pub fn new(id: UserId) -> (result: Self)
        ensures
            result.id == id,
    {
        User { id }
    }
}

impl Clone for User {
    fn clone(&self) -> (result: Self)
        ensures
            result == *self,
    {
        User { id: self.id.clone() }
    }
}

} // verus!
