//! Tickets of the marketplace: buying, checking in, refunding.

use vstd::prelude::*;
use crate::address::Address;
use crate::env::{Env, State};
use crate::error::LumentixError;
use crate::events::{logged, publish, Notification};
use crate::fees::{calculate_platform_fee, platform_fee};
use crate::market::LumentixContract;
use crate::storage;
use crate::types::{Event, EventStatus, FeeCollectedEvent, Ticket};
use crate::validation;

verus! {

/// On which error `purchase_ticket` is refused.
pub open spec fn purchase_ticket_check(s: State, event_id: u64, payment_amount: i128) -> Option<
    LumentixError,
> {
    if !s.initialized {
        Some(LumentixError::NotInitialized)
    } else if payment_amount <= 0 {
        Some(LumentixError::InvalidAmount)
    } else if !s.events.contains_key(event_id) {
        Some(LumentixError::EventNotFound)
    } else if s.events[event_id].status != EventStatus::Published {
        Some(LumentixError::InvalidStatusTransition)
    } else if s.events[event_id].tickets_sold >= s.events[event_id].max_tickets {
        Some(LumentixError::EventSoldOut)
    } else if payment_amount < s.events[event_id].ticket_price {
        Some(LumentixError::InsufficientFunds)
    } else {
        None
    }
}

/// The ticket that `purchase_ticket` stores.
pub open spec fn new_ticket(s: State, buyer: Address, event_id: u64) -> Ticket {
    Ticket {
        id: s.next_ticket_id,
        event_id,
        owner: buyer,
        purchase_time: s.now,
        used: false,
        refunded: false,
    }
}

/// How `purchase_ticket` splits the payment.
pub open spec fn fee_split(s: State, event_id: u64, payment_amount: i128) -> FeeCollectedEvent {
    let fee = platform_fee(payment_amount as int, s.platform_fee_bps as int);
    FeeCollectedEvent {
        ticket_id: s.next_ticket_id,
        event_id,
        platform_fee: fee as i128,
        organizer_amount: (payment_amount - fee) as i128,
    }
}

/// The state after `purchase_ticket`: the ticket is stored under the next
/// ticket id, the event has sold one ticket more, the platform's fee went to
/// the platform balance and the rest of the payment to the event's escrow.
pub open spec fn purchase_ticket_next(s: State, buyer: Address, event_id: u64, payment_amount: i128)
    -> State {
    let split = fee_split(s, event_id, payment_amount);
    let event = s.events[event_id];
    logged(
        State {
            tickets: s.tickets.insert(s.next_ticket_id, new_ticket(s, buyer, event_id)),
            next_ticket_id: (s.next_ticket_id + 1) as u64,
            events: s.events.insert(
                event_id,
                Event { tickets_sold: (event.tickets_sold + 1) as u32, ..event },
            ),
            platform_balance: (s.platform_balance + split.platform_fee) as i128,
            escrow: s.escrow.insert(
                event_id,
                (s.escrow_of(event_id) + split.organizer_amount) as i128,
            ),
            ..s
        },
        Notification::FeeCollected(split),
    )
}

/// Whether the counters and balances can take a purchase that is not refused:
/// the next ticket id is not the last one, and neither balance leaves the
/// range of `i128`.
pub open spec fn purchase_within_limits(s: State, event_id: u64, payment_amount: i128) -> bool {
    let fee = platform_fee(payment_amount as int, s.platform_fee_bps as int);
    purchase_ticket_check(s, event_id, payment_amount) is None ==> {
        &&& s.next_ticket_id < u64::MAX
        &&& s.platform_balance + fee <= i128::MAX
        &&& s.escrow_of(event_id) + payment_amount - fee <= i128::MAX
    }
}

/// On which error `use_ticket` is refused.
pub open spec fn use_ticket_check(s: State, ticket_id: u64, validator: Address) -> Option<
    LumentixError,
> {
    if !s.initialized {
        Some(LumentixError::NotInitialized)
    } else if !s.tickets.contains_key(ticket_id) {
        Some(LumentixError::TicketNotFound)
    } else if s.tickets[ticket_id].used {
        Some(LumentixError::TicketAlreadyUsed)
    } else if s.tickets[ticket_id].refunded {
        Some(LumentixError::RefundNotAllowed)
    } else if !s.events.contains_key(s.tickets[ticket_id].event_id) {
        Some(LumentixError::EventNotFound)
    } else if s.events[s.tickets[ticket_id].event_id].organizer@ != validator@ {
        Some(LumentixError::Unauthorized)
    } else {
        None
    }
}

/// The state after `use_ticket`.
pub open spec fn use_ticket_next(s: State, ticket_id: u64, validator: Address) -> State {
    let ticket = s.tickets[ticket_id];
    logged(
        State { tickets: s.tickets.insert(ticket_id, Ticket { used: true, ..ticket }), ..s },
        Notification::TicketUsed { ticket_id, validator, event_id: ticket.event_id },
    )
}

/// On which error `refund_ticket` is refused.
pub open spec fn refund_ticket_check(s: State, ticket_id: u64, buyer: Address) -> Option<
    LumentixError,
> {
    if !s.initialized {
        Some(LumentixError::NotInitialized)
    } else if !s.tickets.contains_key(ticket_id) {
        Some(LumentixError::TicketNotFound)
    } else if s.tickets[ticket_id].owner@ != buyer@ {
        Some(LumentixError::Unauthorized)
    } else if s.tickets[ticket_id].used {
        Some(LumentixError::TicketAlreadyUsed)
    } else if s.tickets[ticket_id].refunded {
        Some(LumentixError::RefundNotAllowed)
    } else if !s.events.contains_key(s.tickets[ticket_id].event_id) {
        Some(LumentixError::EventNotFound)
    } else if s.events[s.tickets[ticket_id].event_id].status != EventStatus::Cancelled {
        Some(LumentixError::EventNotCancelled)
    } else if s.escrow_of(s.tickets[ticket_id].event_id)
        < s.events[s.tickets[ticket_id].event_id].ticket_price {
        Some(LumentixError::InsufficientEscrow)
    } else {
        None
    }
}

/// The state after `refund_ticket`: the ticket is marked, and the ticket
/// price left the event's escrow.
pub open spec fn refund_ticket_next(s: State, ticket_id: u64) -> State {
    let ticket = s.tickets[ticket_id];
    let event = s.events[ticket.event_id];
    State {
        tickets: s.tickets.insert(ticket_id, Ticket { refunded: true, ..ticket }),
        escrow: s.escrow.insert(
            ticket.event_id,
            (s.escrow_of(ticket.event_id) - event.ticket_price) as i128,
        ),
        ..s
    }
}

impl LumentixContract {
    /// Whether a purchase with these arguments stays within the limits of the
    /// counters and balances, see [`purchase_within_limits`].
    pub fn purchase_fits(env: &Env, event_id: u64, payment_amount: i128) -> (b: bool)
        requires
            env.wf(),
        ensures
            b == purchase_within_limits(env@, event_id, payment_amount),
    {
        if !storage::is_initialized(env) || payment_amount <= 0 {
            return true;
        }
        let event = match storage::get_event(env, event_id) {
            Ok(event) => event,
            Err(_) => {
                return true;
            },
        };
        if event.status != EventStatus::Published || event.tickets_sold >= event.max_tickets
            || payment_amount < event.ticket_price {
            return true;
        }
        let fee: i128 = calculate_platform_fee(payment_amount, storage::get_platform_fee_bps(env));
        let balance: i128 = storage::get_platform_balance(env);
        let escrow: i128 = match storage::get_escrow(env, event_id) {
            Ok(escrow) => escrow,
            Err(_) => 0,
        };
        storage::get_next_ticket_id(env) < u64::MAX && balance <= i128::MAX - fee && escrow
            <= i128::MAX - (payment_amount - fee)
    }

    /// Sells `buyer` a ticket for event `event_id`, under the next ticket id,
    /// and returns that id. `buyer` is the party that the host authenticated.
    pub fn purchase_ticket(env: &mut Env, buyer: Address, event_id: u64, payment_amount: i128)
        -> (r: Result<u64, LumentixError>)
        requires
            old(env).wf(),
            purchase_within_limits(old(env)@, event_id, payment_amount),
        ensures
            final(env).wf(),
            match purchase_ticket_check(old(env)@, event_id, payment_amount) {
                Some(e) => r == Err::<u64, LumentixError>(e) && final(env)@ == old(env)@,
                None => r == Ok::<u64, LumentixError>(old(env)@.next_ticket_id) && final(env)@
                    == purchase_ticket_next(old(env)@, buyer, event_id, payment_amount),
            },
    {
        buyer.require_auth();
        if !storage::is_initialized(env) {
            return Err(LumentixError::NotInitialized);
        }
        validation::validate_address(&buyer)?;
        validation::validate_positive_amount(payment_amount)?;
        let mut event = storage::get_event(env, event_id)?;
        if event.status != EventStatus::Published {
            return Err(LumentixError::InvalidStatusTransition);
        }
        if event.tickets_sold >= event.max_tickets {
            return Err(LumentixError::EventSoldOut);
        }
        if payment_amount < event.ticket_price {
            return Err(LumentixError::InsufficientFunds);
        }
        let ticket_id: u64 = storage::get_next_ticket_id(env);
        let ticket = Ticket {
            id: ticket_id,
            event_id,
            owner: buyer,
            purchase_time: env.ledger_timestamp,
            used: false,
            refunded: false,
        };
        storage::set_ticket(env, ticket_id, &ticket);
        storage::increment_ticket_id(env);
        event.tickets_sold = event.tickets_sold + 1;
        storage::set_event(env, event_id, &event);
        let platform_fee: i128 = calculate_platform_fee(
            payment_amount,
            storage::get_platform_fee_bps(env),
        );
        let organizer_amount: i128 = payment_amount - platform_fee;
        storage::add_platform_balance(env, platform_fee);
        storage::add_escrow(env, event_id, organizer_amount);
        publish(
            env,
            Notification::FeeCollected(
                FeeCollectedEvent { ticket_id, event_id, platform_fee, organizer_amount },
            ),
        );
        Ok(ticket_id)
    }

    /// Checks ticket `ticket_id` in. Only the organizer of the ticket's event
    /// may do so, once, and not for a refunded ticket.
    pub fn use_ticket(env: &mut Env, ticket_id: u64, validator: Address) -> (r: Result<
        (),
        LumentixError,
    >)
        requires
            old(env).wf(),
        ensures
            final(env).wf(),
            match use_ticket_check(old(env)@, ticket_id, validator) {
                Some(e) => r == Err::<(), LumentixError>(e) && final(env)@ == old(env)@,
                None => r is Ok && final(env)@ == use_ticket_next(
                    old(env)@,
                    ticket_id,
                    validator,
                ),
            },
    {
        validator.require_auth();
        if !storage::is_initialized(env) {
            return Err(LumentixError::NotInitialized);
        }
        validation::validate_address(&validator)?;
        let mut ticket = storage::get_ticket(env, ticket_id)?;
        if ticket.used {
            return Err(LumentixError::TicketAlreadyUsed);
        }
        if ticket.refunded {
            return Err(LumentixError::RefundNotAllowed);
        }
        let event = storage::get_event(env, ticket.event_id)?;
        if validator != event.organizer {
            return Err(LumentixError::Unauthorized);
        }
        ticket.used = true;
        storage::set_ticket(env, ticket_id, &ticket);
        publish(env, Notification::TicketUsed { ticket_id, validator, event_id: ticket.event_id });
        Ok(())
    }

    /// Refunds ticket `ticket_id` to its owner `buyer`, out of the escrow of
    /// its event. Only tickets of cancelled events are refunded, once, and not
    /// after they were checked in.
    pub fn refund_ticket(env: &mut Env, ticket_id: u64, buyer: Address) -> (r: Result<
        (),
        LumentixError,
    >)
        requires
            old(env).wf(),
        ensures
            final(env).wf(),
            match refund_ticket_check(old(env)@, ticket_id, buyer) {
                Some(e) => r == Err::<(), LumentixError>(e) && final(env)@ == old(env)@,
                None => r is Ok && final(env)@ == refund_ticket_next(old(env)@, ticket_id),
            },
    {
        buyer.require_auth();
        if !storage::is_initialized(env) {
            return Err(LumentixError::NotInitialized);
        }
        validation::validate_address(&buyer)?;
        let mut ticket = storage::get_ticket(env, ticket_id)?;
        if ticket.owner != buyer {
            return Err(LumentixError::Unauthorized);
        }
        if ticket.used {
            return Err(LumentixError::TicketAlreadyUsed);
        }
        if ticket.refunded {
            return Err(LumentixError::RefundNotAllowed);
        }
        let event = storage::get_event(env, ticket.event_id)?;
        if event.status != EventStatus::Cancelled {
            return Err(LumentixError::EventNotCancelled);
        }
        storage::deduct_escrow(env, ticket.event_id, event.ticket_price)?;
        ticket.refunded = true;
        storage::set_ticket(env, ticket_id, &ticket);
        Ok(())
    }
}

} // verus!
