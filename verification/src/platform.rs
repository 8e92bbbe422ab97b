//! The platform fee: set by the admin, collected with every purchase, and
//! withdrawn by the admin.

use vstd::prelude::*;
use crate::address::Address;
use crate::env::{Env, State};
use crate::error::LumentixError;
use crate::events::{logged, publish, Notification};
use crate::market::{is_party, LumentixContract};
use crate::storage;

verus! {

/// The highest platform fee: 10000 basis points, the whole payment.
pub const MAX_PLATFORM_FEE_BPS: u32 = 10000;

/// On which error `set_platform_fee` is refused.
pub open spec fn set_platform_fee_check(s: State, admin: Address, fee_bps: u32) -> Option<
    LumentixError,
> {
    if !s.initialized {
        Some(LumentixError::NotInitialized)
    } else if !is_party(s.admin, admin) {
        Some(LumentixError::Unauthorized)
    } else if fee_bps > 10000 {
        Some(LumentixError::InvalidPlatformFee)
    } else {
        None
    }
}

/// The state after `set_platform_fee`.
pub open spec fn set_platform_fee_next(s: State, fee_bps: u32) -> State {
    State { platform_fee_bps: fee_bps, ..s }
}

/// On which error `withdraw_platform_fees` is refused.
pub open spec fn withdraw_platform_fees_check(s: State, admin: Address) -> Option<LumentixError> {
    if !s.initialized {
        Some(LumentixError::NotInitialized)
    } else if !is_party(s.admin, admin) {
        Some(LumentixError::Unauthorized)
    } else if s.platform_balance <= 0 {
        Some(LumentixError::NoPlatformFees)
    } else {
        None
    }
}

/// The state after `withdraw_platform_fees`.
pub open spec fn withdraw_platform_fees_next(s: State, admin: Address) -> State {
    logged(
        State { platform_balance: 0, ..s },
        Notification::FeesWithdrawn { admin, amount: s.platform_balance },
    )
}

/// What a read-only entry point answers with `value`.
pub open spec fn when_initialized<T>(s: State, value: T) -> Result<T, LumentixError> {
    if s.initialized {
        Ok(value)
    } else {
        Err(LumentixError::NotInitialized)
    }
}

/// Whether `caller` is the admin.
pub fn is_admin(env: &Env, caller: &Address) -> (b: bool)
    ensures
        b == is_party(env@.admin, *caller),
{
    match &env.admin {
        Some(admin) => *admin == *caller,
        None => false,
    }
}

impl LumentixContract {
    /// Sets the platform fee to `fee_bps` basis points. Only the admin may do
    /// so, and the fee is at most 10000 basis points.
    pub fn set_platform_fee(env: &mut Env, admin: Address, fee_bps: u32) -> (r: Result<
        (),
        LumentixError,
    >)
        requires
            old(env).wf(),
        ensures
            final(env).wf(),
            match set_platform_fee_check(old(env)@, admin, fee_bps) {
                Some(e) => r == Err::<(), LumentixError>(e) && final(env)@ == old(env)@,
                None => r is Ok && final(env)@ == set_platform_fee_next(old(env)@, fee_bps),
            },
    {
        admin.require_auth();
        if !storage::is_initialized(env) {
            return Err(LumentixError::NotInitialized);
        }
        if !is_admin(env, &admin) {
            return Err(LumentixError::Unauthorized);
        }
        if fee_bps > MAX_PLATFORM_FEE_BPS {
            return Err(LumentixError::InvalidPlatformFee);
        }
        storage::set_platform_fee_bps(env, fee_bps);
        Ok(())
    }

    /// The platform fee, in basis points.
    pub fn get_platform_fee(env: &Env) -> (r: Result<u32, LumentixError>)
        ensures
            r == when_initialized(env@, env@.platform_fee_bps),
    {
        if !storage::is_initialized(env) {
            return Err(LumentixError::NotInitialized);
        }
        Ok(storage::get_platform_fee_bps(env))
    }

    /// Takes the collected platform fees out and returns their amount. Only
    /// the admin may do so, and only when something was collected.
    pub fn withdraw_platform_fees(env: &mut Env, admin: Address) -> (r: Result<
        i128,
        LumentixError,
    >)
        requires
            old(env).wf(),
        ensures
            final(env).wf(),
            match withdraw_platform_fees_check(old(env)@, admin) {
                Some(e) => r == Err::<i128, LumentixError>(e) && final(env)@ == old(env)@,
                None => r == Ok::<i128, LumentixError>(old(env)@.platform_balance) && final(env)@
                    == withdraw_platform_fees_next(old(env)@, admin),
            },
    {
        admin.require_auth();
        if !storage::is_initialized(env) {
            return Err(LumentixError::NotInitialized);
        }
        if !is_admin(env, &admin) {
            return Err(LumentixError::Unauthorized);
        }
        let balance: i128 = storage::get_platform_balance(env);
        if balance <= 0 {
            return Err(LumentixError::NoPlatformFees);
        }
        storage::clear_platform_balance(env);
        publish(env, Notification::FeesWithdrawn { admin, amount: balance });
        Ok(balance)
    }

    /// The platform fees collected and not yet withdrawn.
    pub fn get_platform_balance(env: &Env) -> (r: Result<i128, LumentixError>)
        ensures
            r == when_initialized(env@, env@.platform_balance),
    {
        if !storage::is_initialized(env) {
            return Err(LumentixError::NotInitialized);
        }
        Ok(storage::get_platform_balance(env))
    }
}

} // verus!
