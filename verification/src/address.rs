//! Parties are named by addresses; the library only ever compares them.

use vstd::prelude::*;
use vstd::std_specs::cmp::PartialEqSpecImpl;

verus! {

/// The name of a party: an organizer, a buyer, a validator, a signer, the admin.
///
/// Two addresses are the same party when they hold the same text, which is
/// what `==` tests and what the view `@` exposes.
#[derive(Debug, Eq)]
pub struct Address(pub String);

impl View for Address {
    type V = Seq<char>;

    open spec fn view(&self) -> Seq<char> {
        self.0@
    }
}

impl PartialEq for Address {
    fn eq(&self, other: &Address) -> (b: bool) {
        self.0 == other.0
    }
}

impl PartialEqSpecImpl for Address {
    open spec fn obeys_eq_spec() -> bool {
        true
    }

    open spec fn eq_spec(&self, other: &Address) -> bool {
        self.0@ == other.0@
    }
}

impl Clone for Address {
    fn clone(&self) -> (r: Address)
        ensures
            r == *self,
    {
        Address(self.0.clone())
    }
}

impl Address {
    /// The address with the text `s`.
    pub fn from_str(s: &str) -> (a: Address)
        ensures
            a@ == s@,
    {
        Address(s.to_owned())
    }

    /// Marks the place where the embedding host has to authenticate this
    /// party. The library takes every address handed to an entry point as
    /// authenticated, so there is nothing to do here.
    pub fn require_auth(&self) {
    }

    /// Whether both addresses name the same party.
    pub fn same_as(&self, other: &Address) -> (b: bool)
        ensures
            b == (self@ == other@),
    {
        self.0 == other.0
    }
}

} // verus!
