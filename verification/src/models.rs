//! The records of the entrance: tickets issued under caller-chosen names, and who
//! may check them in.

use vstd::prelude::*;
use vstd::std_specs::cmp::PartialEqSpecImpl;
use crate::address::Address;

verus! {

/// A short caller-chosen name for an event or a ticket of the entrance.
///
/// Two symbols are the same name when they hold the same text.
#[derive(Debug, Eq)]
pub struct Symbol(pub String);

impl View for Symbol {
    type V = Seq<char>;

    open spec fn view(&self) -> Seq<char> {
        self.0@
    }
}

impl PartialEq for Symbol {
    fn eq(&self, other: &Symbol) -> (b: bool) {
        self.0 == other.0
    }
}

impl PartialEqSpecImpl for Symbol {
    open spec fn obeys_eq_spec() -> bool {
        true
    }

    open spec fn eq_spec(&self, other: &Symbol) -> bool {
        self.0@ == other.0@
    }
}

impl Clone for Symbol {
    fn clone(&self) -> (r: Symbol)
        ensures
            r == *self,
    {
        Symbol(self.0.clone())
    }
}

impl Symbol {
    /// The symbol with the text `s`.
    pub fn new(s: &str) -> (r: Symbol)
        ensures
            r@ == s@,
    {
        Symbol(s.to_owned())
    }
}

/// A ticket of the entrance.
#[derive(Debug, PartialEq, Eq)]
pub struct Ticket {
    pub id: Symbol,
    pub event_id: Symbol,
    pub owner: Address,
    pub is_used: bool,
}

impl Clone for Ticket {
    fn clone(&self) -> (r: Ticket)
        ensures
            r == *self,
    {
        Ticket {
            id: self.id.clone(),
            event_id: self.event_id.clone(),
            owner: self.owner.clone(),
            is_used: self.is_used,
        }
    }
}

/// The organizer of an event of the entrance. The organizer may always check
/// tickets in.
#[derive(Debug, PartialEq, Eq)]
pub struct EventAuth {
    pub event_id: Symbol,
    pub organizer: Address,
}

impl Clone for EventAuth {
    fn clone(&self) -> (r: EventAuth)
        ensures
            r == *self,
    {
        EventAuth { event_id: self.event_id.clone(), organizer: self.organizer.clone() }
    }
}

/// The permission of `validator` to check in tickets of `event_id`.
#[derive(Debug, PartialEq, Eq)]
pub struct ValidatorKey {
    pub event_id: Symbol,
    pub validator: Address,
}

} // verus!
