//! The records the marketplace keeps on the ledger.

use crate::pubkey::Pubkey;
use vstd::prelude::*;

verus! {

/// A host's profile.
#[derive(Clone, Debug, PartialEq, Eq)]
pub struct Host {
    /// The identity that controls the profile.
    pub host_author: Pubkey,
    pub name: String,
    pub email: String,
    pub image: String,
    pub hashed_password: String,
    pub created_at: u64,
    /// How many listings the host has created; numbers the next one.
    pub listing_count: u64,
    /// Bump seed of the profile's address.
    pub bump: u8,
}

/// A guest's profile.
#[derive(Clone, Debug, PartialEq, Eq)]
pub struct Guest {
    /// The identity that controls the profile.
    pub guest_author: Pubkey,
    pub name: String,
    pub email: String,
    pub image_url: String,
    pub hashed_password: String,
    pub created_at: u64,
    pub phone_number: String,
    pub date_of_birth: u64,
    pub preferred_language: String,
    /// Bump seed of the profile's address.
    pub bump: u8,
}

/// A place offered for stays.
#[derive(Clone, Debug, PartialEq, Eq)]
pub struct Listing {
    /// Address of the host profile the listing belongs to.
    pub host: Pubkey,
    pub title: String,
    pub description: String,
    pub image_url: String,
    pub created_at: u64,
    pub category: String,
    pub room_count: u8,
    pub bathroom_count: u8,
    pub guest_count: u8,
    pub country_code: String,
    pub total_bookings: u64,
    pub is_active: bool,
    pub price: u64,
}

/// Where a reservation stands.
#[derive(Clone, Copy, Debug, PartialEq, Eq, Structural)]
pub enum ReservationStatus {
    Pending,
    Confirmed,
    Cancelled,
    Completed,
}

/// Where the payment of a reservation stands.
#[derive(Clone, Copy, Debug, PartialEq, Eq, Structural)]
pub enum PaymentStatus {
    Pending,
    Paid,
    Refunded,
}

/// A guest's booking of a listing.
#[derive(Clone, Copy, Debug, PartialEq, Eq)]
pub struct Reservation {
    /// The identity that made the reservation, and the only one that may fund
    /// an escrow for it.
    pub guest: Pubkey,
    pub listing: Pubkey,
    pub host: Pubkey,
    pub start_date: u64,
    pub end_date: u64,
    pub guest_count: u8,
    pub total_nights: u16,
    pub price_per_night: u64,
    pub total_price: u64,
    pub status: ReservationStatus,
    pub created_at: u64,
    pub payment_status: PaymentStatus,
    /// Address of the escrow that holds the payment, once linked.
    pub payment_escrow: Option<Pubkey>,
    /// The escrowed amount, mirrored for clients.
    pub token_amount: u64,
    /// The platform fee, mirrored for clients.
    pub platform_fee: u64,
    /// Bump seed of the reservation's address.
    pub bump: u8,
}

/// Where an escrow stands in its lifecycle.
///
/// `Funded` is entered by funding and left by release. `Released` is final.
/// `Refunded` and `Disputed` are reserved: no operation enters or leaves
/// them.
#[derive(Clone, Copy, Debug, PartialEq, Eq, Structural)]
pub enum EscrowStatus {
    /// The guest has paid.
    Funded,
    /// The host has been paid.
    Released,
    /// The guest has been refunded.
    Refunded,
    /// The payment awaits resolution.
    Disputed,
}

/// The custody record of a guest's payment for one reservation.
#[derive(Clone, Copy, Debug, PartialEq, Eq)]
pub struct PaymentEscrow {
    /// Address of the reservation paid for.
    pub reservation: Pubkey,
    /// The paying party.
    pub guest: Pubkey,
    /// The receiving party.
    pub host: Pubkey,
    /// The whole amount escrowed, in the asset's smallest unit.
    pub amount: u64,
    /// The part of `amount` that the platform keeps.
    pub platform_fee: u64,
    pub status: EscrowStatus,
    /// When the escrow was funded, in Unix seconds.
    pub created_at: u64,
    /// The earliest time, in Unix seconds, at which the host may be paid.
    pub release_date: u64,
    /// Bump seed of the escrow's address.
    pub bump: u8,
}

} // verus!
