//! Event ticketing with escrow bookkeeping, as a state machine over an explicit
//! environment value.
//!
//! Every entry point takes the environment it works on, checks its
//! preconditions in a fixed order, and either applies one transition or leaves
//! the environment as it was and returns a [`LumentixError`]. The transitions
//! are stated over [`env::State`], the mathematical view of an [`Env`].
//!
//! The library does not authenticate anyone. The address that an entry point
//! takes as its caller is the party that the embedding host has authenticated
//! for this call; what the library decides is whether that party is the one
//! for whom the action is reserved. Where an entry point takes no caller, the
//! host authenticates the party that the documentation of the entry point
//! names.
//!
//! [`laws`] states what holds of all entry points together.

pub mod address;
pub mod admin;
pub mod entrance;
pub mod env;
pub mod error;
pub mod escrow;
pub mod events;
pub mod fees;
pub mod keyed;
pub mod laws;
pub mod market;
pub mod models;
pub mod platform;
pub mod storage;
pub mod tickets;
pub mod types;
pub mod validation;

pub use address::Address;
pub use admin::AdminContract;
pub use entrance::TicketContract;
pub use env::Env;
pub use error::LumentixError;
pub use events::{CheckInEvent, TransferEvent};
pub use market::LumentixContract;
