//! Notifications for those who follow the contract from outside.
//!
//! The library never sends anything. It appends each notification to the log
//! of the environment, in the order in which the transitions happened, and the
//! embedding host publishes what it finds there.

use vstd::prelude::*;
use crate::address::Address;
use crate::env::{Env, State};
use crate::models::Symbol;
use crate::types::{EventStatus, FeeCollectedEvent};

verus! {

/// One entry of the notification log.
#[derive(Debug, PartialEq, Eq)]
pub enum Notification {
    /// A ticket of the entrance went from one owner to another.
    Transfer { ticket: Symbol, from: Address, to: Address },
    /// A ticket of the entrance was checked in by `validator`.
    CheckIn { ticket: Symbol, validator: Address, event: Symbol },
    /// A ticket of the marketplace was checked in by `validator`.
    TicketUsed { ticket_id: u64, validator: Address, event_id: u64 },
    /// An event of the marketplace entered `status`.
    StatusChanged { event_id: u64, status: EventStatus },
    /// The payment for a ticket was split between platform and escrow.
    FeeCollected(FeeCollectedEvent),
    /// The admin took the collected platform fees out.
    FeesWithdrawn { admin: Address, amount: i128 },
    /// The signers of an event released its escrow to `destination`.
    EscrowDistributed { event_id: u64, destination: Address, amount: i128 },
}

/// The state after `n` was appended to the log of `s`.
pub open spec fn logged(s: State, n: Notification) -> State {
    State { log: s.log.push(n), ..s }
}

/// Appends `n` to the log.
pub fn publish(env: &mut Env, n: Notification)
    ensures
        final(env)@ == logged(old(env)@, n),
{
    env.log.push(n);
}

/// The notification of a ticket transfer.
pub struct TransferEvent;

impl TransferEvent {
    /// Logs that ticket `ticket_id` went from `from` to `to`.
    pub fn emit(env: &mut Env, ticket_id: Symbol, from: Address, to: Address)
        ensures
            final(env)@ == logged(
                old(env)@,
                Notification::Transfer { ticket: ticket_id, from, to },
            ),
    {
        publish(env, Notification::Transfer { ticket: ticket_id, from, to });
    }
}

/// The notification of a check-in at the entrance.
pub struct CheckInEvent;

impl CheckInEvent {
    /// Logs that `validator` checked in ticket `ticket_id` of event `event_id`.
    pub fn emit(env: &mut Env, ticket_id: Symbol, validator: Address, event_id: Symbol)
        ensures
            final(env)@ == logged(
                old(env)@,
                Notification::CheckIn { ticket: ticket_id, validator, event: event_id },
            ),
    {
        publish(env, Notification::CheckIn { ticket: ticket_id, validator, event: event_id });
    }
}

} // verus!
