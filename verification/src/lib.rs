//! Escrow lifecycle and fee accounting for a peer-to-peer lodging marketplace.
//!
//! A guest's payment for a reservation is escrowed in full with the platform
//! treasury, the platform's fee is recorded, and once the release date has
//! come the host is paid out of the treasury.
//!
//! - [`fees`]: the platform fee and the gross-up of a payout.
//! - [`escrow`]: funding and release, as decisions on plain values.
//! - [`ledger`]: a store of escrow records keyed by derived address.
//! - [`pda`]: the derived addresses of the marketplace's records.
//! - [`registry`]: creation of profiles, listings and reservations.
//! - [`states`], [`token`], [`pubkey`]: the records, the transfers requested
//!   of the transfer layer, and account addresses.
//!
//! The library performs no transfer and reads no clock: callers pass the time
//! in, perform the transfers that operations return, and persist the records.

pub mod escrow;
pub mod fees;
pub mod ledger;
pub mod pda;
pub mod pubkey;
pub mod registry;
pub mod states;
pub mod token;
