//! The single error type shared by every entry point.

use vstd::prelude::*;

verus! {

/// Why an entry point refused a call. Each variant has a fixed numeric code,
/// see [`LumentixError::code`].
#[derive(Copy, Clone, Debug, PartialEq, Eq, Structural, PartialOrd, Ord)]
pub enum LumentixError {
    /// The contract has not been initialized yet.
    NotInitialized,
    /// The contract has already been initialized.
    AlreadyInitialized,
    /// The caller is not the party this action is reserved for.
    Unauthorized,
    /// No event is stored under the given id.
    EventNotFound,
    /// No ticket is stored under the given id.
    TicketNotFound,
    /// The event has sold all of its tickets.
    EventSoldOut,
    /// The ticket has already been checked in.
    TicketAlreadyUsed,
    /// The event is not in a status from which the action is allowed.
    InvalidStatusTransition,
    /// The payment is lower than the ticket price.
    InsufficientFunds,
    /// The ticket has already been refunded.
    RefundNotAllowed,
    /// Refunds are only paid for cancelled events.
    EventNotCancelled,
    /// The escrow of the event holds nothing to release.
    EscrowAlreadyReleased,
    /// An amount must be greater than zero.
    InvalidAmount,
    /// A capacity must be greater than zero.
    CapacityExceeded,
    /// The start time must lie before the end time.
    InvalidTimeRange,
    /// A required text field is empty.
    EmptyString,
    /// The address is not acceptable.
    InvalidAddress,
    /// The escrow of the event holds less than the action takes out.
    InsufficientEscrow,
    /// The platform fee exceeds 10000 basis points.
    InvalidPlatformFee,
    /// No platform fees have been collected.
    NoPlatformFees,
}

impl LumentixError {
    /// The numeric code of each variant.
    pub open spec fn spec_code(self) -> u32 {
        match self {
            LumentixError::NotInitialized => 1,
            LumentixError::AlreadyInitialized => 2,
            LumentixError::Unauthorized => 3,
            LumentixError::EventNotFound => 4,
            LumentixError::TicketNotFound => 5,
            LumentixError::EventSoldOut => 6,
            LumentixError::TicketAlreadyUsed => 7,
            LumentixError::InvalidStatusTransition => 8,
            LumentixError::InsufficientFunds => 9,
            LumentixError::RefundNotAllowed => 10,
            LumentixError::EventNotCancelled => 11,
            LumentixError::EscrowAlreadyReleased => 12,
            LumentixError::InvalidAmount => 13,
            LumentixError::CapacityExceeded => 14,
            LumentixError::InvalidTimeRange => 15,
            LumentixError::EmptyString => 16,
            LumentixError::InvalidAddress => 17,
            LumentixError::InsufficientEscrow => 18,
            LumentixError::InvalidPlatformFee => 19,
            LumentixError::NoPlatformFees => 20,
        }
    }

    /// The error that carries `code`, if any does.
    pub open spec fn spec_from_code(code: u32) -> Option<LumentixError> {
        if code == 1 {
            Some(LumentixError::NotInitialized)
        } else if code == 2 {
            Some(LumentixError::AlreadyInitialized)
        } else if code == 3 {
            Some(LumentixError::Unauthorized)
        } else if code == 4 {
            Some(LumentixError::EventNotFound)
        } else if code == 5 {
            Some(LumentixError::TicketNotFound)
        } else if code == 6 {
            Some(LumentixError::EventSoldOut)
        } else if code == 7 {
            Some(LumentixError::TicketAlreadyUsed)
        } else if code == 8 {
            Some(LumentixError::InvalidStatusTransition)
        } else if code == 9 {
            Some(LumentixError::InsufficientFunds)
        } else if code == 10 {
            Some(LumentixError::RefundNotAllowed)
        } else if code == 11 {
            Some(LumentixError::EventNotCancelled)
        } else if code == 12 {
            Some(LumentixError::EscrowAlreadyReleased)
        } else if code == 13 {
            Some(LumentixError::InvalidAmount)
        } else if code == 14 {
            Some(LumentixError::CapacityExceeded)
        } else if code == 15 {
            Some(LumentixError::InvalidTimeRange)
        } else if code == 16 {
            Some(LumentixError::EmptyString)
        } else if code == 17 {
            Some(LumentixError::InvalidAddress)
        } else if code == 18 {
            Some(LumentixError::InsufficientEscrow)
        } else if code == 19 {
            Some(LumentixError::InvalidPlatformFee)
        } else if code == 20 {
            Some(LumentixError::NoPlatformFees)
        } else {
            None
        }
    }

    /// The numeric code under which this error is reported across calls.
    pub fn code(self) -> (c: u32)
        ensures
            c == self.spec_code(),
            1 <= c <= 20,
    {
        match self {
            LumentixError::NotInitialized => 1,
            LumentixError::AlreadyInitialized => 2,
            LumentixError::Unauthorized => 3,
            LumentixError::EventNotFound => 4,
            LumentixError::TicketNotFound => 5,
            LumentixError::EventSoldOut => 6,
            LumentixError::TicketAlreadyUsed => 7,
            LumentixError::InvalidStatusTransition => 8,
            LumentixError::InsufficientFunds => 9,
            LumentixError::RefundNotAllowed => 10,
            LumentixError::EventNotCancelled => 11,
            LumentixError::EscrowAlreadyReleased => 12,
            LumentixError::InvalidAmount => 13,
            LumentixError::CapacityExceeded => 14,
            LumentixError::InvalidTimeRange => 15,
            LumentixError::EmptyString => 16,
            LumentixError::InvalidAddress => 17,
            LumentixError::InsufficientEscrow => 18,
            LumentixError::InvalidPlatformFee => 19,
            LumentixError::NoPlatformFees => 20,
        }
    }

    /// Reads an error back from its numeric code.
    pub fn from_code(code: u32) -> (r: Option<LumentixError>)
        ensures
            r == Self::spec_from_code(code),
            r is Some <==> 1 <= code <= 20,
            r matches Some(e) ==> e.spec_code() == code,
    {
        match code {
            1 => Some(LumentixError::NotInitialized),
            2 => Some(LumentixError::AlreadyInitialized),
            3 => Some(LumentixError::Unauthorized),
            4 => Some(LumentixError::EventNotFound),
            5 => Some(LumentixError::TicketNotFound),
            6 => Some(LumentixError::EventSoldOut),
            7 => Some(LumentixError::TicketAlreadyUsed),
            8 => Some(LumentixError::InvalidStatusTransition),
            9 => Some(LumentixError::InsufficientFunds),
            10 => Some(LumentixError::RefundNotAllowed),
            11 => Some(LumentixError::EventNotCancelled),
            12 => Some(LumentixError::EscrowAlreadyReleased),
            13 => Some(LumentixError::InvalidAmount),
            14 => Some(LumentixError::CapacityExceeded),
            15 => Some(LumentixError::InvalidTimeRange),
            16 => Some(LumentixError::EmptyString),
            17 => Some(LumentixError::InvalidAddress),
            18 => Some(LumentixError::InsufficientEscrow),
            19 => Some(LumentixError::InvalidPlatformFee),
            20 => Some(LumentixError::NoPlatformFees),
            _ => None,
        }
    }
}

/// Codes identify errors: `from_code` undoes `code`, so no two errors share one.
pub proof fn lemma_code_round_trip(e: LumentixError)
    ensures
        LumentixError::spec_from_code(e.spec_code()) == Some(e),
{
}

} // verus!
