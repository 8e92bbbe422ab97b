//! The records of the marketplace: events, the tickets sold for them, and the
//! fee split of a sale.

use vstd::prelude::*;
use crate::address::Address;

verus! {

/// Where an event stands in its life cycle.
///
/// An event starts as `Draft`, is `Published` for sale, and ends either
/// `Completed` or `Cancelled`; the last two are final.
#[derive(Copy, Clone, Debug, PartialEq, Eq, Structural)]
pub enum EventStatus {
    Draft,
    Published,
    Completed,
    Cancelled,
}

/// An event for which tickets are sold.
#[derive(Debug, PartialEq, Eq)]
pub struct Event {
    pub id: u64,
    pub organizer: Address,
    pub name: String,
    pub description: String,
    pub location: String,
    pub start_time: u64,
    pub end_time: u64,
    pub ticket_price: i128,
    pub max_tickets: u32,
    pub tickets_sold: u32,
    pub status: EventStatus,
}

impl Event {
    /// What holds of every event that the marketplace stores: it has room for
    /// at least one ticket and has not sold more than it has room for, it
    /// starts before it ends, and its tickets cost something.
    pub open spec fn wf(self) -> bool {
        &&& self.tickets_sold <= self.max_tickets
        &&& self.max_tickets > 0
        &&& self.start_time < self.end_time
        &&& self.ticket_price > 0
    }

    /// Whether this event meets [`Event::wf`].
    pub fn is_well_formed(&self) -> (b: bool)
        ensures
            b == self.wf(),
    {
        self.tickets_sold <= self.max_tickets && self.max_tickets > 0 && self.start_time
            < self.end_time && self.ticket_price > 0
    }
}

impl Clone for Event {
    fn clone(&self) -> (r: Event)
        ensures
            r == *self,
    {
        Event {
            id: self.id,
            organizer: self.organizer.clone(),
            name: self.name.clone(),
            description: self.description.clone(),
            location: self.location.clone(),
            start_time: self.start_time,
            end_time: self.end_time,
            ticket_price: self.ticket_price,
            max_tickets: self.max_tickets,
            tickets_sold: self.tickets_sold,
            status: self.status,
        }
    }
}

/// A ticket sold for an event of the marketplace.
#[derive(Debug, PartialEq, Eq)]
pub struct Ticket {
    pub id: u64,
    pub event_id: u64,
    pub owner: Address,
    pub purchase_time: u64,
    pub used: bool,
    pub refunded: bool,
}

impl Ticket {
    /// A ticket is never both checked in and refunded.
    pub open spec fn wf(self) -> bool {
        !(self.used && self.refunded)
    }
}

impl Clone for Ticket {
    fn clone(&self) -> (r: Ticket)
        ensures
            r == *self,
    {
        Ticket {
            id: self.id,
            event_id: self.event_id,
            owner: self.owner.clone(),
            purchase_time: self.purchase_time,
            used: self.used,
            refunded: self.refunded,
        }
    }
}

/// How the payment for one ticket was split between the platform and the
/// organizer's escrow.
#[derive(Copy, Clone, Debug, PartialEq, Eq, Structural)]
pub struct FeeCollectedEvent {
    pub ticket_id: u64,
    pub event_id: u64,
    pub platform_fee: i128,
    pub organizer_amount: i128,
}

/// The signers who may release the escrow of an event together, and how many
/// of them have to approve.
#[derive(Debug, PartialEq, Eq)]
pub struct EscrowConfig {
    pub event_id: u64,
    pub signers: Vec<Address>,
    pub threshold: u32,
}

impl EscrowConfig {
    /// At least one approval is needed, and no more than there are signers.
    pub open spec fn wf(self) -> bool {
        0 < self.threshold <= self.signers@.len()
    }
}

/// The approval that `signer` gave to releasing the escrow of `event_id`.
#[derive(Debug, PartialEq, Eq)]
pub struct EscrowApproval {
    pub event_id: u64,
    pub signer: Address,
}

} // verus!
