//! Creation of the marketplace's profile, listing and reservation records.
//!
//! Each operation copies its arguments into a new record, which the caller
//! stores at the record's derived address. Creating a listing also counts it
//! on the host's profile.

use crate::pubkey::Pubkey;
use crate::states::{Guest, Host, Listing, PaymentStatus, Reservation, ReservationStatus};
use vstd::prelude::*;

verus! {

/// The accounts that creating a host profile reads.
#[derive(Clone, Copy, Debug, PartialEq, Eq)]
pub struct InitializeHost {
    /// The caller, who will control the profile.
    pub host_authority: Pubkey,
}

/// The accounts that creating a guest profile reads.
#[derive(Clone, Copy, Debug, PartialEq, Eq)]
pub struct InitializeGuest {
    /// The caller, who will control the profile.
    pub guest_authority: Pubkey,
}

/// The accounts that creating a listing reads, besides the host profile.
#[derive(Clone, Copy, Debug, PartialEq, Eq)]
pub struct InitializeListing {
    /// The caller, who must control the host profile.
    pub listing_authority: Pubkey,
    /// Address of the host profile.
    pub host: Pubkey,
}

/// The accounts that creating a reservation reads.
#[derive(Clone, Copy, Debug, PartialEq, Eq)]
pub struct InitializeReservation {
    /// The caller, who becomes the reservation's guest.
    pub reservation_authority: Pubkey,
}

/// Why creating a listing is refused.
#[derive(Clone, Copy, Debug, PartialEq, Eq, Structural)]
pub enum InitializeListingError {
    /// The caller does not control the host profile.
    UnauthorizedHost,
    /// The host's listing count cannot grow any further.
    ListingCountOverflow,
}

/// Creates the profile of the host `accounts.host_authority`, with no
/// listings yet.
pub fn initialize_host(
    accounts: &InitializeHost,
    bump: u8,
    name: String,
    email: String,
    image: String,
    hashed_password: String,
    created_at: u64,
) -> (host: Host)
    ensures
        host == (Host {
            host_author: accounts.host_authority,
            name,
            email,
            image,
            hashed_password,
            created_at,
            listing_count: 0,
            bump,
        }),
{
    Host {
        host_author: accounts.host_authority,
        name,
        email,
        image,
        hashed_password,
        created_at,
        listing_count: 0,
        bump,
    }
}

/// Creates the profile of the guest `accounts.guest_authority`.
pub fn initialize_guest(
    accounts: &InitializeGuest,
    bump: u8,
    name: String,
    email: String,
    image_url: String,
    hashed_password: String,
    created_at: u64,
    phone_number: String,
    date_of_birth: u64,
    preferred_language: String,
) -> (guest: Guest)
    ensures
        guest == (Guest {
            guest_author: accounts.guest_authority,
            name,
            email,
            image_url,
            hashed_password,
            created_at,
            phone_number,
            date_of_birth,
            preferred_language,
            bump,
        }),
{
    Guest {
        guest_author: accounts.guest_authority,
        name,
        email,
        image_url,
        hashed_password,
        created_at,
        phone_number,
        date_of_birth,
        preferred_language,
        bump,
    }
}

/// Creates a listing of the host whose profile is `host`, and counts it on
/// the profile.
///
/// Refused with `UnauthorizedHost` when the caller does not control the
/// profile; otherwise with `ListingCountOverflow` when the profile's listing
/// count is `u64::MAX`. A refusal leaves the profile unchanged.
pub fn initialize_listing(
    accounts: &InitializeListing,
    host: &mut Host,
    title: String,
    description: String,
    image_url: String,
    created_at: u64,
    category: String,
    room_count: u8,
    bathroom_count: u8,
    guest_count: u8,
    country_code: String,
    total_bookings: u64,
    is_active: bool,
    price: u64,
) -> (r: Result<Listing, InitializeListingError>)
    ensures
        r == if old(host).host_author != accounts.listing_authority {
            Err::<Listing, _>(InitializeListingError::UnauthorizedHost)
        } else if old(host).listing_count == u64::MAX {
            Err::<Listing, _>(InitializeListingError::ListingCountOverflow)
        } else {
            Ok::<_, InitializeListingError>(
                Listing {
                    host: accounts.host,
                    title,
                    description,
                    image_url,
                    created_at,
                    category,
                    room_count,
                    bathroom_count,
                    guest_count,
                    country_code,
                    total_bookings,
                    is_active,
                    price,
                },
            )
        },
        r is Ok ==> *final(host) == (Host {
            listing_count: (old(host).listing_count + 1) as u64,
            ..*old(host)
        }),
        r is Err ==> *final(host) == *old(host),
{
    if host.host_author != accounts.listing_authority {
        return Err(InitializeListingError::UnauthorizedHost);
    }
    if host.listing_count == u64::MAX {
        return Err(InitializeListingError::ListingCountOverflow);
    }
    host.listing_count = host.listing_count + 1;
    Ok(
        Listing {
            host: accounts.host,
            title,
            description,
            image_url,
            created_at,
            category,
            room_count,
            bathroom_count,
            guest_count,
            country_code,
            total_bookings,
            is_active,
            price,
        },
    )
}

/// Creates a reservation made by `accounts.reservation_authority`, with no
/// escrow linked and the mirrored payment figures at zero.
pub fn initialize_reservation(
    accounts: &InitializeReservation,
    bump: u8,
    listing: Pubkey,
    host: Pubkey,
    start_date: u64,
    end_date: u64,
    guest_count: u8,
    total_nights: u16,
    price_per_night: u64,
    total_price: u64,
    status: ReservationStatus,
    created_at: u64,
    payment_status: PaymentStatus,
) -> (reservation: Reservation)
    ensures
        reservation == (Reservation {
            guest: accounts.reservation_authority,
            listing,
            host,
            start_date,
            end_date,
            guest_count,
            total_nights,
            price_per_night,
            total_price,
            status,
            created_at,
            payment_status,
            payment_escrow: None,
            token_amount: 0,
            platform_fee: 0,
            bump,
        }),
{
    Reservation {
        guest: accounts.reservation_authority,
        listing,
        host,
        start_date,
        end_date,
        guest_count,
        total_nights,
        price_per_night,
        total_price,
        status,
        created_at,
        payment_status,
        payment_escrow: None,
        token_amount: 0,
        platform_fee: 0,
        bump,
    }
}

} // verus!
