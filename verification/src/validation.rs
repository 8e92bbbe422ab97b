//! Checks on the scalar and text arguments of the entry points.

use vstd::prelude::*;
use crate::address::Address;
use crate::error::LumentixError;

verus! {

/// Accepts every address: an address is well formed by construction.
pub fn validate_address(_address: &Address) -> (r: Result<(), LumentixError>)
    ensures
        r is Ok,
{
    Ok(())
}

/// Accepts an amount exactly when it is greater than zero.
pub fn validate_positive_amount(amount: i128) -> (r: Result<(), LumentixError>)
    ensures
        amount > 0 ==> r is Ok,
        amount <= 0 ==> r == Err::<(), LumentixError>(LumentixError::InvalidAmount),
{
    if amount <= 0 {
        return Err(LumentixError::InvalidAmount);
    }
    Ok(())
}

/// Accepts a capacity exactly when it is greater than zero.
pub fn validate_positive_capacity(capacity: u32) -> (r: Result<(), LumentixError>)
    ensures
        capacity > 0 ==> r is Ok,
        capacity == 0 ==> r == Err::<(), LumentixError>(LumentixError::CapacityExceeded),
{
    if capacity == 0 {
        return Err(LumentixError::CapacityExceeded);
    }
    Ok(())
}

/// Accepts a time range exactly when it starts before it ends.
pub fn validate_time_range(start_time: u64, end_time: u64) -> (r: Result<(), LumentixError>)
    ensures
        start_time < end_time ==> r is Ok,
        start_time >= end_time ==> r == Err::<(), LumentixError>(LumentixError::InvalidTimeRange),
{
    if start_time >= end_time {
        return Err(LumentixError::InvalidTimeRange);
    }
    Ok(())
}

/// Accepts a text exactly when it holds at least one character.
pub fn validate_string_not_empty(s: &String) -> (r: Result<(), LumentixError>)
    ensures
        s@.len() > 0 ==> r is Ok,
        s@.len() == 0 ==> r == Err::<(), LumentixError>(LumentixError::EmptyString),
{
    if s.as_str().is_empty() {
        return Err(LumentixError::EmptyString);
    }
    Ok(())
}

} // verus!
