//! The admin of the contract and the organizers that the admin registers.

use vstd::prelude::*;
use crate::address::Address;
use crate::env::{Env, State};
use crate::error::LumentixError;
use crate::market::initialize_next;

verus! {

/// For how long a registration as organizer holds: one year, in seconds.
pub const ORGANIZER_TTL_SECS: i128 = 31536000;

/// The entry points for the admin and the organizer registry.
pub struct AdminContract;

/// On which error `AdminContract::initialize` is refused: an admin is set
/// once.
pub open spec fn admin_initialize_check(s: State) -> Option<LumentixError> {
    if s.admin is Some || s.initialized {
        Some(LumentixError::AlreadyInitialized)
    } else {
        None
    }
}

/// On which error an action of the admin is refused.
pub open spec fn admin_check(s: State) -> Option<LumentixError> {
    if s.admin is None {
        Some(LumentixError::NotInitialized)
    } else {
        None
    }
}

/// The state after `set_admin`.
pub open spec fn set_admin_next(s: State, new_admin: Address) -> State {
    State { admin: Some(new_admin), ..s }
}

/// The time at which a registration made at `now` expires.
pub open spec fn expiry_from(now: u64) -> i128 {
    (now + ORGANIZER_TTL_SECS) as i128
}

/// The state after `add_organizer`.
pub open spec fn add_organizer_next(s: State, organizer: Address) -> State {
    State { organizers: s.organizers.insert(organizer@, expiry_from(s.now)), ..s }
}

/// Whether `addr` is registered as organizer and the registration has not
/// expired.
pub open spec fn organizer_active(s: State, addr: Address) -> bool {
    s.organizers.contains_key(addr@) && s.organizers[addr@] > s.now
}

impl AdminContract {
    /// Sets up the contract with its admin. This is done once, and not where
    /// an admin is already in office.
    pub fn initialize(env: &mut Env, admin: Address) -> (r: Result<(), LumentixError>)
        requires
            old(env).wf(),
        ensures
            final(env).wf(),
            match admin_initialize_check(old(env)@) {
                Some(e) => r == Err::<(), LumentixError>(e) && final(env)@ == old(env)@,
                None => r is Ok && final(env)@ == initialize_next(old(env)@, admin),
            },
    {
        if env.admin.is_some() || env.initialized {
            return Err(LumentixError::AlreadyInitialized);
        }
        admin.require_auth();
        env.admin = Some(admin);
        env.initialized = true;
        Ok(())
    }

    /// Hands the admin role to `new_admin`. The host authenticates the
    /// admin in office for this call.
    pub fn set_admin(env: &mut Env, new_admin: Address) -> (r: Result<(), LumentixError>)
        requires
            old(env).wf(),
        ensures
            final(env).wf(),
            match admin_check(old(env)@) {
                Some(e) => r == Err::<(), LumentixError>(e) && final(env)@ == old(env)@,
                None => r is Ok && final(env)@ == set_admin_next(old(env)@, new_admin),
            },
    {
        match &env.admin {
            Some(current) => {
                current.require_auth();
            },
            None => {
                return Err(LumentixError::NotInitialized);
            },
        }
        env.admin = Some(new_admin);
        Ok(())
    }

    /// The admin in office.
    pub fn get_admin(env: &Env) -> (r: Result<Address, LumentixError>)
        ensures
            match env@.admin {
                Some(admin) => r == Ok::<Address, LumentixError>(admin),
                None => r == Err::<Address, LumentixError>(LumentixError::NotInitialized),
            },
    {
        match &env.admin {
            Some(admin) => Ok(admin.clone()),
            None => Err(LumentixError::NotInitialized),
        }
    }

    /// Registers `organizer` for one year from now. A registration already
    /// there is renewed. The host authenticates the admin for this call.
    pub fn add_organizer(env: &mut Env, organizer: Address) -> (r: Result<(), LumentixError>)
        requires
            old(env).wf(),
        ensures
            final(env).wf(),
            match admin_check(old(env)@) {
                Some(e) => r == Err::<(), LumentixError>(e) && final(env)@ == old(env)@,
                None => r is Ok && final(env)@ == add_organizer_next(old(env)@, organizer),
            },
    {
        match &env.admin {
            Some(admin) => {
                admin.require_auth();
            },
            None => {
                return Err(LumentixError::NotInitialized);
            },
        }
        let expiry: i128 = env.ledger_timestamp as i128 + ORGANIZER_TTL_SECS;
        env.organizers.insert(organizer.0, expiry);
        Ok(())
    }

    /// Whether `addr` is registered as organizer and the registration has not
    /// expired.
    pub fn is_organizer(env: &Env, addr: Address) -> (b: bool)
        ensures
            b == organizer_active(env@, addr),
    {
        match env.organizers.get(&addr.0) {
            Some(expiry) => *expiry > env.ledger_timestamp as i128,
            None => false,
        }
    }
}

} // verus!
