//! The marketplace: events are created, published, sold, and then completed
//! or cancelled; tickets are bought, checked in, or refunded; the payments are
//! kept in escrow per event, less the platform's fee.
//!
//! For each entry point, a `*_check` function names the error on which the
//! call is refused (the first of its conditions that fails), and a `*_next`
//! function gives the state after a call that went through. A refused call
//! leaves the state as it was.

use vstd::prelude::*;
use crate::address::Address;
use crate::env::{Env, State};
use crate::error::LumentixError;
use crate::events::{logged, publish, Notification};
use crate::storage;
use crate::types::{Event, EventStatus, Ticket};
use crate::validation;

verus! {

/// The entry points of the marketplace.
pub struct LumentixContract;

/// Whether `a` is the party stored as `stored`.
pub open spec fn is_party(stored: Option<Address>, a: Address) -> bool {
    stored matches Some(p) && p@ == a@
}

/// On which error `initialize` is refused.
pub open spec fn initialize_check(s: State) -> Option<LumentixError> {
    if s.initialized {
        Some(LumentixError::AlreadyInitialized)
    } else {
        None
    }
}

/// The state after `initialize`.
pub open spec fn initialize_next(s: State, admin: Address) -> State {
    State { initialized: true, admin: Some(admin), ..s }
}

/// On which error `create_event` is refused.
pub open spec fn create_event_check(
    s: State,
    name: String,
    start_time: u64,
    end_time: u64,
    ticket_price: i128,
    max_tickets: u32,
) -> Option<LumentixError> {
    if !s.initialized {
        Some(LumentixError::NotInitialized)
    } else if ticket_price <= 0 {
        Some(LumentixError::InvalidAmount)
    } else if max_tickets == 0 {
        Some(LumentixError::CapacityExceeded)
    } else if start_time >= end_time {
        Some(LumentixError::InvalidTimeRange)
    } else if name@.len() == 0 {
        Some(LumentixError::EmptyString)
    } else {
        None
    }
}

/// The event that `create_event` stores.
pub open spec fn new_event(
    s: State,
    organizer: Address,
    name: String,
    description: String,
    location: String,
    start_time: u64,
    end_time: u64,
    ticket_price: i128,
    max_tickets: u32,
) -> Event {
    Event {
        id: s.next_event_id,
        organizer,
        name,
        description,
        location,
        start_time,
        end_time,
        ticket_price,
        max_tickets,
        tickets_sold: 0,
        status: EventStatus::Draft,
    }
}

/// The state after `create_event`.
pub open spec fn create_event_next(s: State, event: Event) -> State {
    State {
        events: s.events.insert(s.next_event_id, event),
        next_event_id: (s.next_event_id + 1) as u64,
        ..s
    }
}

/// The table of status changes: a draft can be published, and a published
/// event can be cancelled at any time and completed once it has ended.
pub open spec fn transition_allowed(from: EventStatus, to: EventStatus, now: u64, end_time: u64)
    -> bool {
    match (from, to) {
        (EventStatus::Draft, EventStatus::Published) => true,
        (EventStatus::Published, EventStatus::Cancelled) => true,
        (EventStatus::Published, EventStatus::Completed) => now >= end_time,
        _ => false,
    }
}

/// On which error `update_event_status` is refused.
pub open spec fn update_event_status_check(
    s: State,
    event_id: u64,
    new_status: EventStatus,
    caller: Address,
) -> Option<LumentixError> {
    if !s.initialized {
        Some(LumentixError::NotInitialized)
    } else if !s.events.contains_key(event_id) {
        Some(LumentixError::EventNotFound)
    } else if s.events[event_id].organizer@ != caller@ {
        Some(LumentixError::Unauthorized)
    } else if !transition_allowed(
        s.events[event_id].status,
        new_status,
        s.now,
        s.events[event_id].end_time,
    ) {
        Some(LumentixError::InvalidStatusTransition)
    } else {
        None
    }
}

/// The state after `update_event_status`.
pub open spec fn update_event_status_next(s: State, event_id: u64, new_status: EventStatus)
    -> State {
    logged(
        State {
            events: s.events.insert(
                event_id,
                Event { status: new_status, ..s.events[event_id] },
            ),
            ..s
        },
        Notification::StatusChanged { event_id, status: new_status },
    )
}

/// What a read-only entry point answers for the record under `id` of
/// `records`.
pub open spec fn lookup<T>(
    s: State,
    records: Map<u64, T>,
    id: u64,
    missing: LumentixError,
) -> Result<T, LumentixError> {
    if !s.initialized {
        Err(LumentixError::NotInitialized)
    } else if !records.contains_key(id) {
        Err(missing)
    } else {
        Ok(records[id])
    }
}

/// What `get_admin` answers: the admin, once the contract is initialized.
pub open spec fn admin_in_office(s: State) -> Result<Address, LumentixError> {
    match s.admin {
        Some(admin) if s.initialized => Ok(admin),
        _ => Err(LumentixError::NotInitialized),
    }
}

/// Whether `from` may change into `to` at time `now`, for an event that ends
/// at `end_time`.
fn can_transition(from: EventStatus, to: EventStatus, now: u64, end_time: u64) -> (b: bool)
    ensures
        b == transition_allowed(from, to, now, end_time),
{
    match (from, to) {
        (EventStatus::Draft, EventStatus::Published) => true,
        (EventStatus::Published, EventStatus::Cancelled) => true,
        (EventStatus::Published, EventStatus::Completed) => now >= end_time,
        _ => false,
    }
}

impl LumentixContract {
    /// Sets up the contract with its admin. This is done once.
    pub fn initialize(env: &mut Env, admin: Address) -> (r: Result<(), LumentixError>)
        requires
            old(env).wf(),
        ensures
            final(env).wf(),
            match initialize_check(old(env)@) {
                Some(e) => r == Err::<(), LumentixError>(e) && final(env)@ == old(env)@,
                None => r is Ok && final(env)@ == initialize_next(old(env)@, admin),
            },
    {
        validation::validate_address(&admin)?;
        if storage::is_initialized(env) {
            return Err(LumentixError::AlreadyInitialized);
        }
        storage::set_admin(env, &admin);
        storage::set_initialized(env);
        Ok(())
    }

    /// Creates an event as a draft, under the next event id, and returns that
    /// id. `organizer` is the party that the host authenticated.
    pub fn create_event(
        env: &mut Env,
        organizer: Address,
        name: String,
        description: String,
        location: String,
        start_time: u64,
        end_time: u64,
        ticket_price: i128,
        max_tickets: u32,
    ) -> (r: Result<u64, LumentixError>)
        requires
            old(env).wf(),
            create_event_check(old(env)@, name, start_time, end_time, ticket_price, max_tickets)
                is None ==> old(env)@.next_event_id < u64::MAX,
        ensures
            final(env).wf(),
            match create_event_check(
                old(env)@,
                name,
                start_time,
                end_time,
                ticket_price,
                max_tickets,
            ) {
                Some(e) => r == Err::<u64, LumentixError>(e) && final(env)@ == old(env)@,
                None => r == Ok::<u64, LumentixError>(old(env)@.next_event_id) && final(env)@
                    == create_event_next(
                    old(env)@,
                    new_event(
                        old(env)@,
                        organizer,
                        name,
                        description,
                        location,
                        start_time,
                        end_time,
                        ticket_price,
                        max_tickets,
                    ),
                ),
            },
    {
        organizer.require_auth();
        if !storage::is_initialized(env) {
            return Err(LumentixError::NotInitialized);
        }
        validation::validate_address(&organizer)?;
        validation::validate_positive_amount(ticket_price)?;
        validation::validate_positive_capacity(max_tickets)?;
        validation::validate_time_range(start_time, end_time)?;
        validation::validate_string_not_empty(&name)?;
        let event_id: u64 = storage::get_next_event_id(env);
        let event = Event {
            id: event_id,
            organizer,
            name,
            description,
            location,
            start_time,
            end_time,
            ticket_price,
            max_tickets,
            tickets_sold: 0,
            status: EventStatus::Draft,
        };
        storage::set_event(env, event_id, &event);
        storage::increment_event_id(env);
        Ok(event_id)
    }

    /// Moves event `event_id` to `new_status`, if `caller` is its organizer
    /// and the table of status changes allows it.
    pub fn update_event_status(
        env: &mut Env,
        event_id: u64,
        new_status: EventStatus,
        caller: Address,
    ) -> (r: Result<(), LumentixError>)
        requires
            old(env).wf(),
        ensures
            final(env).wf(),
            match update_event_status_check(old(env)@, event_id, new_status, caller) {
                Some(e) => r == Err::<(), LumentixError>(e) && final(env)@ == old(env)@,
                None => r is Ok && final(env)@ == update_event_status_next(
                    old(env)@,
                    event_id,
                    new_status,
                ),
            },
    {
        caller.require_auth();
        if !storage::is_initialized(env) {
            return Err(LumentixError::NotInitialized);
        }
        validation::validate_address(&caller)?;
        let mut event = storage::get_event(env, event_id)?;
        if event.organizer != caller {
            return Err(LumentixError::Unauthorized);
        }
        let now: u64 = env.ledger_timestamp;
        if !can_transition(event.status, new_status, now, event.end_time) {
            return Err(LumentixError::InvalidStatusTransition);
        }
        event.status = new_status;
        storage::set_event(env, event_id, &event);
        publish(env, Notification::StatusChanged { event_id, status: new_status });
        Ok(())
    }

    /// Cancels event `event_id`: the same as moving it to
    /// [`EventStatus::Cancelled`].
    pub fn cancel_event(env: &mut Env, organizer: Address, event_id: u64) -> (r: Result<
        (),
        LumentixError,
    >)
        requires
            old(env).wf(),
        ensures
            final(env).wf(),
            match update_event_status_check(
                old(env)@,
                event_id,
                EventStatus::Cancelled,
                organizer,
            ) {
                Some(e) => r == Err::<(), LumentixError>(e) && final(env)@ == old(env)@,
                None => r is Ok && final(env)@ == update_event_status_next(
                    old(env)@,
                    event_id,
                    EventStatus::Cancelled,
                ),
            },
    {
        Self::update_event_status(env, event_id, EventStatus::Cancelled, organizer)
    }

    /// Completes event `event_id`: the same as moving it to
    /// [`EventStatus::Completed`].
    pub fn complete_event(env: &mut Env, organizer: Address, event_id: u64) -> (r: Result<
        (),
        LumentixError,
    >)
        requires
            old(env).wf(),
        ensures
            final(env).wf(),
            match update_event_status_check(
                old(env)@,
                event_id,
                EventStatus::Completed,
                organizer,
            ) {
                Some(e) => r == Err::<(), LumentixError>(e) && final(env)@ == old(env)@,
                None => r is Ok && final(env)@ == update_event_status_next(
                    old(env)@,
                    event_id,
                    EventStatus::Completed,
                ),
            },
    {
        Self::update_event_status(env, event_id, EventStatus::Completed, organizer)
    }

    /// The event stored under `event_id`.
    pub fn get_event(env: &Env, event_id: u64) -> (r: Result<Event, LumentixError>)
        ensures
            r == lookup(env@, env@.events, event_id, LumentixError::EventNotFound),
    {
        if !storage::is_initialized(env) {
            return Err(LumentixError::NotInitialized);
        }
        storage::get_event(env, event_id)
    }

    /// The ticket stored under `ticket_id`.
    pub fn get_ticket(env: &Env, ticket_id: u64) -> (r: Result<Ticket, LumentixError>)
        ensures
            r == lookup(env@, env@.tickets, ticket_id, LumentixError::TicketNotFound),
    {
        if !storage::is_initialized(env) {
            return Err(LumentixError::NotInitialized);
        }
        storage::get_ticket(env, ticket_id)
    }

    /// The admin of the contract.
    pub fn get_admin(env: &Env) -> (r: Result<Address, LumentixError>)
        ensures
            r == admin_in_office(env@),
    {
        if !storage::is_initialized(env) {
            return Err(LumentixError::NotInitialized);
        }
        match &env.admin {
            Some(admin) => Ok(admin.clone()),
            None => Err(LumentixError::NotInitialized),
        }
    }
}

} // verus!
