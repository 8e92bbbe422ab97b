//! The environment that every entry point works on, and its mathematical view.
//!
//! [`Env`] holds what a host keeps for one contract instance: the ledger time,
//! the singleton settings, the stored records and the notification log.
//! [`State`] is the same content as maps, sets and sequences; the contracts of
//! the library are stated over it.

use std::collections::HashMap;
use vstd::prelude::*;
use crate::address::Address;
use crate::events::Notification;
use crate::keyed::TextMap;
use crate::models::{EventAuth, ValidatorKey};
use crate::types::{EscrowApproval, EscrowConfig, Event, Ticket};

verus! {

broadcast use vstd::std_specs::hash::group_hash_axioms;

/// The ledger time of an environment made by `Env::default`.
pub const DEFAULT_LEDGER_TIMESTAMP: u64 = 1_700_000_000;

/// The content of an environment.
pub struct State {
    /// The current ledger time, in seconds.
    pub now: u64,
    /// Whether the contract has been initialized.
    pub initialized: bool,
    /// The admin, once one has been set.
    pub admin: Option<Address>,
    /// The payment token, once one has been set.
    pub token: Option<Address>,
    /// The id that the next event gets.
    pub next_event_id: u64,
    /// The id that the next ticket gets.
    pub next_ticket_id: u64,
    /// The events of the marketplace, by id.
    pub events: Map<u64, Event>,
    /// The tickets of the marketplace, by id.
    pub tickets: Map<u64, Ticket>,
    /// The escrow balance of each event; an event without entry holds nothing.
    pub escrow: Map<u64, i128>,
    /// The share of each payment that goes to the platform, in basis points.
    pub platform_fee_bps: u32,
    /// The platform fees collected and not yet withdrawn.
    pub platform_balance: i128,
    /// The signer sets of the events whose escrow is released by signers.
    pub escrow_configs: Map<u64, EscrowConfig>,
    /// The approvals given, as pairs of event id and signer.
    pub approvals: Set<(u64, Seq<char>)>,
    /// The time at which each registered organizer expires.
    pub organizers: Map<Seq<char>, i128>,
    /// The organizer of each event of the entrance.
    pub event_auths: Map<Seq<char>, EventAuth>,
    /// The validators added, as pairs of event and validator.
    pub validators: Set<(Seq<char>, Seq<char>)>,
    /// The tickets of the entrance, by name.
    pub entrance_tickets: Map<Seq<char>, crate::models::Ticket>,
    /// The notifications logged so far, oldest first.
    pub log: Seq<Notification>,
}

impl State {
    /// The state of a fresh environment at ledger time `now`.
    pub open spec fn fresh(now: u64) -> State {
        State {
            now,
            initialized: false,
            admin: None,
            token: None,
            next_event_id: 1,
            next_ticket_id: 1,
            events: Map::empty(),
            tickets: Map::empty(),
            escrow: Map::empty(),
            platform_fee_bps: 0,
            platform_balance: 0,
            escrow_configs: Map::empty(),
            approvals: Set::empty(),
            organizers: Map::empty(),
            event_auths: Map::empty(),
            validators: Set::empty(),
            entrance_tickets: Map::empty(),
            log: Seq::empty(),
        }
    }

    /// The escrow balance of event `event_id`.
    pub open spec fn escrow_of(self, event_id: u64) -> i128 {
        if self.escrow.contains_key(event_id) {
            self.escrow[event_id]
        } else {
            0
        }
    }

    /// What the entry points rely on and keep:
    /// ids are handed out from 1 upwards and every record is stored under its
    /// own id, below the next id to hand out; every event is well formed;
    /// every ticket belongs to a stored event and is not both checked in and
    /// refunded; no balance is negative; the fee is at most 10000 basis
    /// points; every signer set is well formed; and an initialized contract
    /// has an admin.
    pub open spec fn wf(self) -> bool {
        &&& self.next_event_id >= 1
        &&& self.next_ticket_id >= 1
        &&& self.platform_fee_bps <= 10000
        &&& self.platform_balance >= 0
        &&& (self.initialized ==> self.admin is Some)
        &&& forall|id: u64| #[trigger]
            self.events.contains_key(id) ==> {
                &&& self.events[id].id == id
                &&& 1 <= id < self.next_event_id
                &&& self.events[id].wf()
            }
        &&& forall|id: u64| #[trigger]
            self.tickets.contains_key(id) ==> {
                &&& self.tickets[id].id == id
                &&& 1 <= id < self.next_ticket_id
                &&& self.tickets[id].wf()
                &&& self.events.contains_key(self.tickets[id].event_id)
            }
        &&& forall|id: u64| #[trigger] self.escrow.contains_key(id) ==> self.escrow[id] >= 0
        &&& forall|id: u64| #[trigger]
            self.escrow_configs.contains_key(id) ==> {
                &&& self.escrow_configs[id].event_id == id
                &&& self.escrow_configs[id].wf()
            }
    }
}

/// The pairs of event and validator that a list of validator keys holds.
pub open spec fn validator_set(keys: Seq<ValidatorKey>) -> Set<(Seq<char>, Seq<char>)> {
    Set::new(
        |p: (Seq<char>, Seq<char>)|
            exists|i: int|
                0 <= i < keys.len() && (#[trigger] keys[i]).event_id@ == p.0 && keys[i].validator@
                    == p.1,
    )
}

/// The pairs of event id and signer that a list of approvals holds.
pub open spec fn approval_set(approvals: Seq<EscrowApproval>) -> Set<(u64, Seq<char>)> {
    Set::new(
        |p: (u64, Seq<char>)|
            exists|i: int|
                0 <= i < approvals.len() && (#[trigger] approvals[i]).event_id == p.0
                    && approvals[i].signer@ == p.1,
    )
}

/// What a host keeps for one contract instance.
pub struct Env {
    pub ledger_timestamp: u64,
    pub initialized: bool,
    pub admin: Option<Address>,
    pub token: Option<Address>,
    pub next_event_id: u64,
    pub next_ticket_id: u64,
    pub events: HashMap<u64, Event>,
    pub tickets: HashMap<u64, Ticket>,
    pub escrow: HashMap<u64, i128>,
    pub platform_fee_bps: u32,
    pub platform_balance: i128,
    pub escrow_configs: HashMap<u64, EscrowConfig>,
    pub approvals: Vec<EscrowApproval>,
    pub organizers: TextMap<i128>,
    pub event_auths: TextMap<EventAuth>,
    pub validators: Vec<ValidatorKey>,
    pub entrance_tickets: TextMap<crate::models::Ticket>,
    pub log: Vec<Notification>,
}

impl View for Env {
    type V = State;

    open spec fn view(&self) -> State {
        State {
            now: self.ledger_timestamp,
            initialized: self.initialized,
            admin: self.admin,
            token: self.token,
            next_event_id: self.next_event_id,
            next_ticket_id: self.next_ticket_id,
            events: self.events@,
            tickets: self.tickets@,
            escrow: self.escrow@,
            platform_fee_bps: self.platform_fee_bps,
            platform_balance: self.platform_balance,
            escrow_configs: self.escrow_configs@,
            approvals: approval_set(self.approvals@),
            organizers: self.organizers@,
            event_auths: self.event_auths@,
            validators: validator_set(self.validators@),
            entrance_tickets: self.entrance_tickets@,
            log: self.log@,
        }
    }
}

impl Env {
    /// Whether the content of this environment is well formed, see
    /// [`State::wf`].
    pub open spec fn wf(&self) -> bool {
        self@.wf()
    }

    /// A fresh environment at ledger time `now`: nothing is stored, the
    /// contract is not initialized, and ids start at 1.
    pub fn new(now: u64) -> (env: Env)
        ensures
            env@ == State::fresh(now),
            env.wf(),
    {
        let env = Env {
            ledger_timestamp: now,
            initialized: false,
            admin: None,
            token: None,
            next_event_id: 1,
            next_ticket_id: 1,
            events: HashMap::new(),
            tickets: HashMap::new(),
            escrow: HashMap::new(),
            platform_fee_bps: 0,
            platform_balance: 0,
            escrow_configs: HashMap::new(),
            approvals: Vec::new(),
            organizers: TextMap::new(),
            event_auths: TextMap::new(),
            validators: Vec::new(),
            entrance_tickets: TextMap::new(),
            log: Vec::new(),
        };
        assert(approval_set(env.approvals@) =~= Set::empty());
        assert(validator_set(env.validators@) =~= Set::empty());
        env
    }

    /// Whether the content of this environment is well formed. An
    /// environment that was put together by hand is checked with this before
    /// it is handed to an entry point.
    pub fn is_well_formed(&self) -> (b: bool)
        ensures
            b == self.wf(),
    {
        self.next_event_id >= 1 && self.next_ticket_id >= 1 && self.platform_fee_bps <= 10000
            && self.platform_balance >= 0 && (!self.initialized || self.admin.is_some())
            && events_well_formed(self) && tickets_well_formed(self) && escrow_well_formed(self)
            && escrow_configs_well_formed(self)
    }

    /// Moves the ledger time to `now`.
    pub fn set_ledger_timestamp(&mut self, now: u64)
        ensures
            final(self)@ == (State { now, ..old(self)@ }),
    {
        self.ledger_timestamp = now;
    }
}

/// Whether every event of `env` is stored under its own id, below the next
/// event id, and is well formed.
fn events_well_formed(env: &Env) -> (b: bool)
    ensures
        b == (forall|id: u64| #[trigger]
            env@.events.contains_key(id) ==> {
                &&& env@.events[id].id == id
                &&& 1 <= id < env@.next_event_id
                &&& env@.events[id].wf()
            }),
{
    for id in it: env.events.keys()
        invariant
            forall|j: int|
                0 <= j < it.index() ==> {
                    let id = *#[trigger] it.seq()[j];
                    &&& env@.events.contains_key(id)
                    &&& env@.events[id].id == id
                    &&& 1 <= id < env@.next_event_id
                    &&& env@.events[id].wf()
                },
    {
        match env.events.get(id) {
            Some(event) => {
                if !(event.id == *id && 1 <= *id && *id < env.next_event_id
                    && event.is_well_formed()) {
                    return false;
                }
            },
            None => {
                return false;
            },
        }
    }
    true
}

/// Whether every ticket of `env` is stored under its own id, below the next
/// ticket id, belongs to a stored event, and is well formed.
fn tickets_well_formed(env: &Env) -> (b: bool)
    ensures
        b == (forall|id: u64| #[trigger]
            env@.tickets.contains_key(id) ==> {
                &&& env@.tickets[id].id == id
                &&& 1 <= id < env@.next_ticket_id
                &&& env@.tickets[id].wf()
                &&& env@.events.contains_key(env@.tickets[id].event_id)
            }),
{
    for id in it: env.tickets.keys()
        invariant
            forall|j: int|
                0 <= j < it.index() ==> {
                    let id = *#[trigger] it.seq()[j];
                    &&& env@.tickets.contains_key(id)
                    &&& env@.tickets[id].id == id
                    &&& 1 <= id < env@.next_ticket_id
                    &&& env@.tickets[id].wf()
                    &&& env@.events.contains_key(env@.tickets[id].event_id)
                },
    {
        match env.tickets.get(id) {
            Some(ticket) => {
                let has_event = env.events.contains_key(&ticket.event_id);
                if !(ticket.id == *id && 1 <= *id && *id < env.next_ticket_id && !(ticket.used
                    && ticket.refunded) && has_event) {
                    assert(env@.tickets.contains_key(*id));
                    return false;
                }
            },
            None => {
                return false;
            },
        }
    }
    true
}

/// Whether no escrow balance of `env` is negative.
fn escrow_well_formed(env: &Env) -> (b: bool)
    ensures
        b == (forall|id: u64| #[trigger] env@.escrow.contains_key(id) ==> env@.escrow[id] >= 0),
{
    for id in it: env.escrow.keys()
        invariant
            forall|j: int|
                0 <= j < it.index() ==> {
                    let id = *#[trigger] it.seq()[j];
                    &&& env@.escrow.contains_key(id)
                    &&& env@.escrow[id] >= 0
                },
    {
        match env.escrow.get(id) {
            Some(balance) => {
                if *balance < 0 {
                    return false;
                }
            },
            None => {
                return false;
            },
        }
    }
    true
}

/// Whether every signer set of `env` is stored under its own event id and is
/// well formed.
fn escrow_configs_well_formed(env: &Env) -> (b: bool)
    ensures
        b == (forall|id: u64| #[trigger]
            env@.escrow_configs.contains_key(id) ==> {
                &&& env@.escrow_configs[id].event_id == id
                &&& env@.escrow_configs[id].wf()
            }),
{
    for id in it: env.escrow_configs.keys()
        invariant
            forall|j: int|
                0 <= j < it.index() ==> {
                    let id = *#[trigger] it.seq()[j];
                    &&& env@.escrow_configs.contains_key(id)
                    &&& env@.escrow_configs[id].event_id == id
                    &&& env@.escrow_configs[id].wf()
                },
    {
        match env.escrow_configs.get(id) {
            Some(config) => {
                if !(config.event_id == *id && 0 < config.threshold && config.threshold as usize
                    <= config.signers.len()) {
                    assert(env@.escrow_configs.contains_key(*id));
                    return false;
                }
            },
            None => {
                return false;
            },
        }
    }
    true
}

impl Default for Env {
    /// A fresh environment at [`DEFAULT_LEDGER_TIMESTAMP`].
    fn default() -> (env: Env)
        ensures
            env@ == State::fresh(DEFAULT_LEDGER_TIMESTAMP),
            env.wf(),
    {
        Env::new(DEFAULT_LEDGER_TIMESTAMP)
    }
}

} // verus!
