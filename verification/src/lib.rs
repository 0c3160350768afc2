//! A time-locked vault library.
//!
//! Each vault holds an unsigned balance for one owner and releases it only
//! after a configured unlock time.  The library covers the vault lifecycle:
//! creation, deposit accounting, unlock-gated withdrawal with reentrancy
//! protection and rollback, and closure (owner-initiated or, after a grace
//! period, permissionless force-closure).
//!
//! The hosting environment supplies the current time and performs the actual
//! value transfers; this library makes every decision and records every
//! balance.  Callers hand in the clock reading (`now`) and the transfer
//! adapter's outcome (`transfer_ok`), and get back a typed result together
//! with an event record describing what happened.

pub mod errors;
pub mod events;
pub mod state;
pub mod registry;
pub mod instructions;
pub mod utils;
