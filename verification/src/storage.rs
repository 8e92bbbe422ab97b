//! Typed accessors over the records and settings of an environment.
//!
//! Each accessor reads or writes one thing and says so over [`State`]. None of
//! them checks who calls or whether the result is well formed: that is the
//! business of the entry points built on them.

use vstd::prelude::*;
use crate::address::Address;
use crate::env::{Env, State};
use crate::error::LumentixError;
use crate::types::{Event, Ticket};

verus! {

broadcast use vstd::std_specs::hash::group_hash_axioms;

/// Whether the contract has been initialized.
pub fn is_initialized(env: &Env) -> (b: bool)
    ensures
        b == env@.initialized,
{
    env.initialized
}

/// Marks the contract as initialized.
pub fn set_initialized(env: &mut Env)
    ensures
        final(env)@ == (State { initialized: true, ..old(env)@ }),
{
    env.initialized = true;
}

/// Stores `admin` as the admin.
pub fn set_admin(env: &mut Env, admin: &Address)
    ensures
        final(env)@ == (State { admin: Some(*admin), ..old(env)@ }),
{
    env.admin = Some(admin.clone());
}

/// The admin.
pub fn get_admin(env: &Env) -> (admin: Address)
    requires
        env@.admin is Some,
    ensures
        Some(admin) == env@.admin,
{
    match &env.admin {
        Some(a) => a.clone(),
        None => vstd::pervasive::unreached(),
    }
}

/// Stores `token` as the payment token.
pub fn set_token(env: &mut Env, token: &Address)
    ensures
        final(env)@ == (State { token: Some(*token), ..old(env)@ }),
{
    env.token = Some(token.clone());
}

/// The payment token.
pub fn get_token(env: &Env) -> (token: Address)
    requires
        env@.token is Some,
    ensures
        Some(token) == env@.token,
{
    match &env.token {
        Some(a) => a.clone(),
        None => vstd::pervasive::unreached(),
    }
}

/// The id that the next event gets.
pub fn get_next_event_id(env: &Env) -> (id: u64)
    ensures
        id == env@.next_event_id,
{
    env.next_event_id
}

/// Moves on to the next event id.
pub fn increment_event_id(env: &mut Env)
    requires
        old(env)@.next_event_id < u64::MAX,
    ensures
        final(env)@ == (State {
            next_event_id: (old(env)@.next_event_id + 1) as u64,
            ..old(env)@
        }),
{
    env.next_event_id = env.next_event_id + 1;
}

/// The id that the next ticket gets.
pub fn get_next_ticket_id(env: &Env) -> (id: u64)
    ensures
        id == env@.next_ticket_id,
{
    env.next_ticket_id
}

/// Moves on to the next ticket id.
pub fn increment_ticket_id(env: &mut Env)
    requires
        old(env)@.next_ticket_id < u64::MAX,
    ensures
        final(env)@ == (State {
            next_ticket_id: (old(env)@.next_ticket_id + 1) as u64,
            ..old(env)@
        }),
{
    env.next_ticket_id = env.next_ticket_id + 1;
}

/// Stores `event` under `event_id`, in place of what was stored there.
pub fn set_event(env: &mut Env, event_id: u64, event: &Event)
    ensures
        final(env)@ == (State { events: old(env)@.events.insert(event_id, *event), ..old(env)@ }),
{
    env.events.insert(event_id, event.clone());
}

/// The event stored under `event_id`.
pub fn get_event(env: &Env, event_id: u64) -> (r: Result<Event, LumentixError>)
    ensures
        r == (if env@.events.contains_key(event_id) {
            Ok::<Event, LumentixError>(env@.events[event_id])
        } else {
            Err::<Event, LumentixError>(LumentixError::EventNotFound)
        }),
{
    match env.events.get(&event_id) {
        Some(event) => Ok(event.clone()),
        None => Err(LumentixError::EventNotFound),
    }
}

/// Stores `ticket` under `ticket_id`, in place of what was stored there.
pub fn set_ticket(env: &mut Env, ticket_id: u64, ticket: &Ticket)
    ensures
        final(env)@ == (State {
            tickets: old(env)@.tickets.insert(ticket_id, *ticket),
            ..old(env)@
        }),
{
    env.tickets.insert(ticket_id, ticket.clone());
}

/// The ticket stored under `ticket_id`.
pub fn get_ticket(env: &Env, ticket_id: u64) -> (r: Result<Ticket, LumentixError>)
    ensures
        r == (if env@.tickets.contains_key(ticket_id) {
            Ok::<Ticket, LumentixError>(env@.tickets[ticket_id])
        } else {
            Err::<Ticket, LumentixError>(LumentixError::TicketNotFound)
        }),
{
    match env.tickets.get(&ticket_id) {
        Some(ticket) => Ok(ticket.clone()),
        None => Err(LumentixError::TicketNotFound),
    }
}

/// The escrow balance of event `event_id`, read from the stored record.
fn escrow_balance(env: &Env, event_id: u64) -> (balance: i128)
    ensures
        balance == env@.escrow_of(event_id),
{
    match env.escrow.get(&event_id) {
        Some(balance) => *balance,
        None => 0,
    }
}

/// Adds `amount` to the escrow of event `event_id`.
pub fn add_escrow(env: &mut Env, event_id: u64, amount: i128)
    requires
        i128::MIN <= old(env)@.escrow_of(event_id) + amount <= i128::MAX,
    ensures
        final(env)@ == (State {
            escrow: old(env)@.escrow.insert(
                event_id,
                (old(env)@.escrow_of(event_id) + amount) as i128,
            ),
            ..old(env)@
        }),
{
    let current: i128 = escrow_balance(env, event_id);
    env.escrow.insert(event_id, current + amount);
}

/// The escrow balance of event `event_id`; an event without escrow record
/// holds nothing.
pub fn get_escrow(env: &Env, event_id: u64) -> (r: Result<i128, LumentixError>)
    ensures
        r == Ok::<i128, LumentixError>(env@.escrow_of(event_id)),
{
    Ok(escrow_balance(env, event_id))
}

/// Takes `amount` out of the escrow of event `event_id`, unless the escrow
/// holds less than that.
pub fn deduct_escrow(env: &mut Env, event_id: u64, amount: i128) -> (r: Result<(), LumentixError>)
    requires
        old(env)@.escrow_of(event_id) >= amount ==> old(env)@.escrow_of(event_id) - amount
            <= i128::MAX,
    ensures
        old(env)@.escrow_of(event_id) < amount ==> r == Err::<(), LumentixError>(
            LumentixError::InsufficientEscrow,
        ) && final(env)@ == old(env)@,
        old(env)@.escrow_of(event_id) >= amount ==> r is Ok && final(env)@ == (State {
            escrow: old(env)@.escrow.insert(
                event_id,
                (old(env)@.escrow_of(event_id) - amount) as i128,
            ),
            ..old(env)@
        }),
{
    let current: i128 = escrow_balance(env, event_id);
    if current < amount {
        return Err(LumentixError::InsufficientEscrow);
    }
    env.escrow.insert(event_id, current - amount);
    Ok(())
}

/// Empties the escrow of event `event_id`.
pub fn clear_escrow(env: &mut Env, event_id: u64)
    ensures
        final(env)@ == (State { escrow: old(env)@.escrow.insert(event_id, 0), ..old(env)@ }),
{
    env.escrow.insert(event_id, 0);
}

/// Sets the platform fee, in basis points.
pub fn set_platform_fee_bps(env: &mut Env, fee_bps: u32)
    ensures
        final(env)@ == (State { platform_fee_bps: fee_bps, ..old(env)@ }),
{
    env.platform_fee_bps = fee_bps;
}

/// The platform fee, in basis points.
pub fn get_platform_fee_bps(env: &Env) -> (fee_bps: u32)
    ensures
        fee_bps == env@.platform_fee_bps,
{
    env.platform_fee_bps
}

/// Adds `amount` to the collected platform fees.
pub fn add_platform_balance(env: &mut Env, amount: i128)
    requires
        i128::MIN <= old(env)@.platform_balance + amount <= i128::MAX,
    ensures
        final(env)@ == (State {
            platform_balance: (old(env)@.platform_balance + amount) as i128,
            ..old(env)@
        }),
{
    env.platform_balance = env.platform_balance + amount;
}

/// The platform fees collected and not yet withdrawn.
pub fn get_platform_balance(env: &Env) -> (balance: i128)
    ensures
        balance == env@.platform_balance,
{
    env.platform_balance
}

/// Empties the collected platform fees.
pub fn clear_platform_balance(env: &mut Env)
    ensures
        final(env)@ == (State { platform_balance: 0, ..old(env)@ }),
{
    env.platform_balance = 0;
}

} // verus!
