//! The entrance: tickets issued under caller-chosen names, handed from owner to
//! owner, and checked in once by the organizer of their event or by a
//! validator whom the organizer added.

use vstd::prelude::*;
use crate::address::Address;
use crate::env::{validator_set, Env, State};
use crate::error::LumentixError;
use crate::events::{logged, CheckInEvent, Notification, TransferEvent};
use crate::models::{EventAuth, Symbol, Ticket, ValidatorKey};

verus! {

/// The entry points of the entrance.
pub struct TicketContract;

/// The state after `init_event`.
pub open spec fn init_event_next(s: State, event_id: Symbol, organizer: Address) -> State {
    State { event_auths: s.event_auths.insert(event_id@, EventAuth { event_id, organizer }), ..s }
}

/// The organizer of the event that ticket `ticket_id` belongs to, where the
/// ticket is stored and its event is registered.
pub open spec fn organizer_of_ticket(s: State, ticket_id: Symbol) -> Option<Address> {
    if s.entrance_tickets.contains_key(ticket_id@) && s.event_auths.contains_key(
        s.entrance_tickets[ticket_id@].event_id@,
    ) {
        Some(s.event_auths[s.entrance_tickets[ticket_id@].event_id@].organizer)
    } else {
        None
    }
}

/// On which error `add_validator` and `remove_validator` are refused.
pub open spec fn validator_change_check(s: State, event_id: Symbol) -> Option<LumentixError> {
    if !s.event_auths.contains_key(event_id@) {
        Some(LumentixError::EventNotFound)
    } else {
        None
    }
}

/// The state after `add_validator`.
pub open spec fn add_validator_next(s: State, event_id: Symbol, validator: Address) -> State {
    State { validators: s.validators.insert((event_id@, validator@)), ..s }
}

/// The state after `remove_validator`.
pub open spec fn remove_validator_next(s: State, event_id: Symbol, validator: Address) -> State {
    State { validators: s.validators.remove((event_id@, validator@)), ..s }
}

/// Whether `validator` may check in tickets of event `event_id`: the
/// organizer of the event may, and so may every validator added for it.
pub open spec fn authorized_validator(s: State, event_id: Symbol, validator: Address) -> bool {
    ||| s.event_auths.contains_key(event_id@) && s.event_auths[event_id@].organizer@ == validator@
    ||| s.validators.contains((event_id@, validator@))
}

/// The ticket that `issue_ticket` stores.
pub open spec fn issued_ticket(ticket_id: Symbol, event_id: Symbol, owner: Address) -> Ticket {
    Ticket { id: ticket_id, event_id, owner, is_used: false }
}

/// The state after ticket `ticket` was stored under `ticket_id`.
pub open spec fn ticket_stored(s: State, ticket_id: Symbol, ticket: Ticket) -> State {
    State { entrance_tickets: s.entrance_tickets.insert(ticket_id@, ticket), ..s }
}

/// The ticket stored under `ticket_id`, if there is one.
pub open spec fn entrance_ticket(s: State, ticket_id: Symbol) -> Option<Ticket> {
    if s.entrance_tickets.contains_key(ticket_id@) {
        Some(s.entrance_tickets[ticket_id@])
    } else {
        None
    }
}

/// On which error `transfer_ticket` is refused.
pub open spec fn transfer_ticket_check(s: State, ticket_id: Symbol, from: Address) -> Option<
    LumentixError,
> {
    if !s.entrance_tickets.contains_key(ticket_id@) {
        Some(LumentixError::TicketNotFound)
    } else if s.entrance_tickets[ticket_id@].owner@ != from@ {
        Some(LumentixError::Unauthorized)
    } else if s.entrance_tickets[ticket_id@].is_used {
        Some(LumentixError::TicketAlreadyUsed)
    } else {
        None
    }
}

/// The ticket under `ticket_id` in the hands of `to`.
pub open spec fn transferred_ticket(s: State, ticket_id: Symbol, to: Address) -> Ticket {
    Ticket { owner: to, ..s.entrance_tickets[ticket_id@] }
}

/// The state after `transfer_ticket`.
pub open spec fn transfer_ticket_next(s: State, ticket_id: Symbol, from: Address, to: Address)
    -> State {
    logged(
        ticket_stored(s, ticket_id, transferred_ticket(s, ticket_id, to)),
        Notification::Transfer { ticket: ticket_id, from, to },
    )
}

/// On which error `mark_ticket_used` is refused.
pub open spec fn mark_ticket_used_check(s: State, ticket_id: Symbol) -> Option<LumentixError> {
    if !s.entrance_tickets.contains_key(ticket_id@) {
        Some(LumentixError::TicketNotFound)
    } else if s.entrance_tickets[ticket_id@].is_used {
        Some(LumentixError::TicketAlreadyUsed)
    } else {
        None
    }
}

/// The ticket under `ticket_id`, checked in.
pub open spec fn used_ticket(s: State, ticket_id: Symbol) -> Ticket {
    Ticket { is_used: true, ..s.entrance_tickets[ticket_id@] }
}

/// The state after `mark_ticket_used`.
pub open spec fn mark_ticket_used_next(s: State, ticket_id: Symbol) -> State {
    ticket_stored(s, ticket_id, used_ticket(s, ticket_id))
}

/// On which error `validate_ticket` is refused.
pub open spec fn validate_ticket_check(s: State, ticket_id: Symbol, validator: Address) -> Option<
    LumentixError,
> {
    if !s.entrance_tickets.contains_key(ticket_id@) {
        Some(LumentixError::TicketNotFound)
    } else if s.entrance_tickets[ticket_id@].is_used {
        Some(LumentixError::TicketAlreadyUsed)
    } else if !authorized_validator(s, s.entrance_tickets[ticket_id@].event_id, validator) {
        Some(LumentixError::Unauthorized)
    } else {
        None
    }
}

/// The state after `validate_ticket`.
pub open spec fn validate_ticket_next(s: State, ticket_id: Symbol, validator: Address) -> State {
    logged(
        ticket_stored(s, ticket_id, used_ticket(s, ticket_id)),
        Notification::CheckIn {
            ticket: ticket_id,
            validator,
            event: s.entrance_tickets[ticket_id@].event_id,
        },
    )
}

/// Whether `keys` holds the permission of `validator` for event `event_id`.
fn has_validator(keys: &Vec<ValidatorKey>, event_id: &Symbol, validator: &Address) -> (b: bool)
    ensures
        b == validator_set(keys@).contains((event_id@, validator@)),
{
    let mut i: usize = 0;
    while i < keys.len()
        invariant
            i <= keys@.len(),
            forall|j: int|
                0 <= j < i ==> !((#[trigger] keys@[j]).event_id@ == event_id@
                    && keys@[j].validator@ == validator@),
        decreases keys@.len() - i,
    {
        if keys[i].event_id == *event_id && keys[i].validator == *validator {
            return true;
        }
        i += 1;
    }
    false
}

/// The permissions of `keys` but that of `validator` for event `event_id`.
fn validators_but(keys: &Vec<ValidatorKey>, event_id: &Symbol, validator: &Address) -> (kept: Vec<
    ValidatorKey,
>)
    ensures
        validator_set(kept@) == validator_set(keys@).remove((event_id@, validator@)),
{
    let ghost gone = (event_id@, validator@);
    let mut kept: Vec<ValidatorKey> = Vec::new();
    let mut i: usize = 0;
    while i < keys.len()
        invariant
            i <= keys@.len(),
            gone == (event_id@, validator@),
            forall|k: int|
                0 <= k < kept@.len() ==> ((#[trigger] kept@[k]).event_id@, kept@[k].validator@)
                    != gone && validator_set(keys@).contains(
                    (kept@[k].event_id@, kept@[k].validator@),
                ),
            forall|j: int|
                0 <= j < i && ((#[trigger] keys@[j]).event_id@, keys@[j].validator@) != gone
                    ==> validator_set(kept@).contains((keys@[j].event_id@, keys@[j].validator@)),
        decreases keys@.len() - i,
    {
        let key = &keys[i];
        let drop = key.event_id == *event_id && key.validator == *validator;
        let ghost before = kept@;
        if !drop {
            kept.push(
                ValidatorKey { event_id: key.event_id.clone(), validator: key.validator.clone() },
            );
        }
        proof {
            assert(drop == ((keys@[i as int].event_id@, keys@[i as int].validator@) == gone));
            assert forall|k: int| 0 <= k < kept@.len() implies (
                (#[trigger] kept@[k]).event_id@,
                kept@[k].validator@,
            ) != gone && validator_set(keys@).contains(
                (kept@[k].event_id@, kept@[k].validator@),
            ) by {
                if k < before.len() {
                    assert(kept@[k] == before[k]);
                } else {
                    assert(kept@[k].event_id@ == keys@[i as int].event_id@);
                    assert(kept@[k].validator@ == keys@[i as int].validator@);
                }
            }
            assert forall|j: int|
                0 <= j < i + 1 && ((#[trigger] keys@[j]).event_id@, keys@[j].validator@)
                    != gone implies validator_set(kept@).contains(
                (keys@[j].event_id@, keys@[j].validator@),
            ) by {
                if j < i {
                    let p = (keys@[j].event_id@, keys@[j].validator@);
                    assert(validator_set(before).contains(p));
                    let k = choose|k: int|
                        0 <= k < before.len() && (#[trigger] before[k]).event_id@ == p.0
                            && before[k].validator@ == p.1;
                    assert(kept@[k] == before[k]);
                } else {
                    let k = kept@.len() - 1;
                    assert(kept@[k].event_id@ == keys@[j].event_id@);
                    assert(kept@[k].validator@ == keys@[j].validator@);
                }
            }
        }
        i += 1;
    }
    proof {
        let got = validator_set(kept@);
        let all = validator_set(keys@);
        assert forall|p: (Seq<char>, Seq<char>)| got.contains(p) <==> (all.contains(p) && p
            != gone) by {
            if got.contains(p) {
                let k = choose|k: int|
                    0 <= k < kept@.len() && (#[trigger] kept@[k]).event_id@ == p.0
                        && kept@[k].validator@ == p.1;
                assert((kept@[k].event_id@, kept@[k].validator@) != gone);
            }
            if all.contains(p) && p != gone {
                let j = choose|j: int|
                    0 <= j < keys@.len() && (#[trigger] keys@[j]).event_id@ == p.0
                        && keys@[j].validator@ == p.1;
                assert((keys@[j].event_id@, keys@[j].validator@) != gone);
            }
        }
        assert(got =~= all.remove(gone));
    }
    kept
}

impl TicketContract {
    /// Registers event `event_id` with its organizer. The organizer may check
    /// in the tickets of the event from then on. An event already registered
    /// under that name gets the new organizer.
    pub fn init_event(env: &mut Env, event_id: Symbol, organizer: Address)
        requires
            old(env).wf(),
        ensures
            final(env).wf(),
            final(env)@ == init_event_next(old(env)@, event_id, organizer),
    {
        organizer.require_auth();
        let key = event_id.0.clone();
        env.event_auths.insert(key, EventAuth { event_id, organizer });
    }

    /// The organizer of event `event_id`, if the event is registered: the
    /// party that the host authenticates for `add_validator` and
    /// `remove_validator`.
    pub fn event_organizer(env: &Env, event_id: &Symbol) -> (r: Option<Address>)
        ensures
            match r {
                Some(organizer) => env@.event_auths.contains_key(event_id@)
                    && env@.event_auths[event_id@].organizer == organizer,
                None => !env@.event_auths.contains_key(event_id@),
            },
    {
        match env.event_auths.get(&event_id.0) {
            Some(auth) => Some(auth.organizer.clone()),
            None => None,
        }
    }

    /// The organizer of the event that ticket `ticket_id` belongs to: the
    /// party that the host authenticates for `mark_ticket_used`.
    pub fn ticket_organizer(env: &Env, ticket_id: &Symbol) -> (r: Option<Address>)
        ensures
            r == organizer_of_ticket(env@, *ticket_id),
    {
        match env.entrance_tickets.get(&ticket_id.0) {
            Some(ticket) => match env.event_auths.get(&ticket.event_id.0) {
                Some(auth) => Some(auth.organizer.clone()),
                None => None,
            },
            None => None,
        }
    }

    /// Lets `validator` check in tickets of event `event_id`. The host
    /// authenticates the organizer of the event for this call.
    pub fn add_validator(env: &mut Env, event_id: Symbol, validator: Address) -> (r: Result<
        (),
        LumentixError,
    >)
        requires
            old(env).wf(),
        ensures
            final(env).wf(),
            match validator_change_check(old(env)@, event_id) {
                Some(e) => r == Err::<(), LumentixError>(e) && final(env)@ == old(env)@,
                None => r is Ok && final(env)@ == add_validator_next(
                    old(env)@,
                    event_id,
                    validator,
                ),
            },
    {
        match env.event_auths.get(&event_id.0) {
            Some(auth) => {
                auth.organizer.require_auth();
            },
            None => {
                return Err(LumentixError::EventNotFound);
            },
        }
        let ghost before = env.validators@;
        let ghost pair = (event_id@, validator@);
        if !has_validator(&env.validators, &event_id, &validator) {
            env.validators.push(ValidatorKey { event_id, validator });
            proof {
                let after = env.validators@;
                assert forall|p: (Seq<char>, Seq<char>)|
                    validator_set(after).contains(p) <==> (validator_set(before).contains(p) || p
                        == pair) by {
                    if validator_set(before).contains(p) {
                        let j = choose|j: int|
                            0 <= j < before.len() && (#[trigger] before[j]).event_id@ == p.0
                                && before[j].validator@ == p.1;
                        assert(after[j] == before[j]);
                    }
                    if validator_set(after).contains(p) && p != pair {
                        let j = choose|j: int|
                            0 <= j < after.len() && (#[trigger] after[j]).event_id@ == p.0
                                && after[j].validator@ == p.1;
                        assert(j < before.len());
                        assert(after[j] == before[j]);
                    }
                    if p == pair {
                        let j = after.len() - 1;
                        assert(after[j].event_id@ == p.0 && after[j].validator@ == p.1);
                    }
                }
                assert(validator_set(after) =~= validator_set(before).insert(pair));
            }
        } else {
            proof {
                assert(validator_set(before) =~= validator_set(before).insert(pair));
            }
        }
        Ok(())
    }

    /// Takes from `validator` the permission to check in tickets of event
    /// `event_id`. The host authenticates the organizer of the event for this
    /// call.
    pub fn remove_validator(env: &mut Env, event_id: Symbol, validator: Address) -> (r: Result<
        (),
        LumentixError,
    >)
        requires
            old(env).wf(),
        ensures
            final(env).wf(),
            match validator_change_check(old(env)@, event_id) {
                Some(e) => r == Err::<(), LumentixError>(e) && final(env)@ == old(env)@,
                None => r is Ok && final(env)@ == remove_validator_next(
                    old(env)@,
                    event_id,
                    validator,
                ),
            },
    {
        match env.event_auths.get(&event_id.0) {
            Some(auth) => {
                auth.organizer.require_auth();
            },
            None => {
                return Err(LumentixError::EventNotFound);
            },
        }
        let kept = validators_but(&env.validators, &event_id, &validator);
        env.validators = kept;
        Ok(())
    }

    /// Whether `validator` may check in tickets of event `event_id`.
    pub fn is_authorized_validator(env: &Env, event_id: Symbol, validator: Address) -> (b: bool)
        ensures
            b == authorized_validator(env@, event_id, validator),
    {
        if let Some(auth) = env.event_auths.get(&event_id.0) {
            if auth.organizer == validator {
                return true;
            }
        }
        has_validator(&env.validators, &event_id, &validator)
    }

    /// Issues ticket `ticket_id` for event `event_id` to `owner`, and returns
    /// it. A ticket already stored under that name is replaced.
    pub fn issue_ticket(
        env: &mut Env,
        ticket_id: Symbol,
        event_id: Symbol,
        owner: Address,
    ) -> (ticket: Ticket)
        requires
            old(env).wf(),
        ensures
            final(env).wf(),
            ticket == issued_ticket(ticket_id, event_id, owner),
            final(env)@ == ticket_stored(old(env)@, ticket_id, ticket),
    {
        let ticket = Ticket { id: ticket_id, event_id, owner, is_used: false };
        env.entrance_tickets.insert(ticket.id.0.clone(), ticket.clone());
        ticket
    }

    /// The ticket stored under `ticket_id`, if there is one.
    pub fn get_ticket(env: &Env, ticket_id: Symbol) -> (r: Option<Ticket>)
        ensures
            r == entrance_ticket(env@, ticket_id),
    {
        match env.entrance_tickets.get(&ticket_id.0) {
            Some(ticket) => Some(ticket.clone()),
            None => None,
        }
    }

    /// Hands ticket `ticket_id` from its owner `from` to `to`, and returns
    /// the ticket as it is then. A ticket that was checked in stays where it
    /// is. `from` is the party that the host authenticated.
    pub fn transfer_ticket(env: &mut Env, ticket_id: Symbol, from: Address, to: Address) -> (r:
        Result<Ticket, LumentixError>)
        requires
            old(env).wf(),
        ensures
            final(env).wf(),
            match transfer_ticket_check(old(env)@, ticket_id, from) {
                Some(e) => r == Err::<Ticket, LumentixError>(e) && final(env)@ == old(env)@,
                None => r == Ok::<Ticket, LumentixError>(
                    transferred_ticket(old(env)@, ticket_id, to),
                ) && final(env)@ == transfer_ticket_next(old(env)@, ticket_id, from, to),
            },
    {
        from.require_auth();
        let ticket = match env.entrance_tickets.get(&ticket_id.0) {
            Some(ticket) => ticket.clone(),
            None => {
                return Err(LumentixError::TicketNotFound);
            },
        };
        if ticket.owner != from {
            return Err(LumentixError::Unauthorized);
        }
        if ticket.is_used {
            return Err(LumentixError::TicketAlreadyUsed);
        }
        let updated_ticket = Ticket {
            id: ticket.id,
            event_id: ticket.event_id,
            owner: to.clone(),
            is_used: ticket.is_used,
        };
        env.entrance_tickets.insert(ticket_id.0.clone(), updated_ticket.clone());
        TransferEvent::emit(env, ticket_id, from, to);
        Ok(updated_ticket)
    }

    /// Checks ticket `ticket_id` in, and returns the ticket as it is then.
    /// The host authenticates the organizer of the ticket's event for this
    /// call, where the event is registered.
    pub fn mark_ticket_used(env: &mut Env, ticket_id: Symbol) -> (r: Result<Ticket, LumentixError>)
        requires
            old(env).wf(),
        ensures
            final(env).wf(),
            match mark_ticket_used_check(old(env)@, ticket_id) {
                Some(e) => r == Err::<Ticket, LumentixError>(e) && final(env)@ == old(env)@,
                None => r == Ok::<Ticket, LumentixError>(used_ticket(old(env)@, ticket_id))
                    && final(env)@ == mark_ticket_used_next(old(env)@, ticket_id),
            },
    {
        let ticket = match env.entrance_tickets.get(&ticket_id.0) {
            Some(ticket) => ticket.clone(),
            None => {
                return Err(LumentixError::TicketNotFound);
            },
        };
        if ticket.is_used {
            return Err(LumentixError::TicketAlreadyUsed);
        }
        let used = Ticket {
            id: ticket.id,
            event_id: ticket.event_id,
            owner: ticket.owner,
            is_used: true,
        };
        env.entrance_tickets.insert(ticket_id.0, used.clone());
        Ok(used)
    }

    /// Checks ticket `ticket_id` in on behalf of `validator`, and returns the
    /// ticket as it is then. The ticket must not have been checked in before,
    /// and `validator` must be the organizer of the ticket's event or a
    /// validator added for it.
    pub fn validate_ticket(env: &mut Env, ticket_id: Symbol, validator: Address) -> (r: Result<
        Ticket,
        LumentixError,
    >)
        requires
            old(env).wf(),
        ensures
            final(env).wf(),
            match validate_ticket_check(old(env)@, ticket_id, validator) {
                Some(e) => r == Err::<Ticket, LumentixError>(e) && final(env)@ == old(env)@,
                None => r == Ok::<Ticket, LumentixError>(used_ticket(old(env)@, ticket_id))
                    && final(env)@ == validate_ticket_next(old(env)@, ticket_id, validator),
            },
    {
        let ticket = match env.entrance_tickets.get(&ticket_id.0) {
            Some(ticket) => ticket.clone(),
            None => {
                return Err(LumentixError::TicketNotFound);
            },
        };
        if ticket.is_used {
            return Err(LumentixError::TicketAlreadyUsed);
        }
        let is_authorized = Self::is_authorized_validator(
            env,
            ticket.event_id.clone(),
            validator.clone(),
        );
        if !is_authorized {
            return Err(LumentixError::Unauthorized);
        }
        let event_id = ticket.event_id.clone();
        let validated_ticket = Ticket {
            id: ticket.id,
            event_id: ticket.event_id,
            owner: ticket.owner,
            is_used: true,
        };
        env.entrance_tickets.insert(ticket_id.0.clone(), validated_ticket.clone());
        CheckInEvent::emit(env, ticket_id, validator, event_id);
        Ok(validated_ticket)
    }
}

} // verus!
