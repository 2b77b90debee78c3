use lodging_escrow::pubkey::Pubkey;
use lodging_escrow::registry::{
    initialize_guest, initialize_host, initialize_listing, initialize_reservation, InitializeGuest,
    InitializeHost, InitializeListing, InitializeListingError, InitializeReservation,
};
use lodging_escrow::states::{
    Guest, Host, Listing, PaymentStatus, Reservation, ReservationStatus,
};

fn registry_key(n: u8) -> Pubkey {
    Pubkey { bytes: [n; 32] }
}

fn text(s: &str) -> String {
    String::from(s)
}

fn registered_host(listing_count: u64) -> Host {
    Host {
        host_author: registry_key(1),
        name: text("Ada"),
        email: text("ada@example.com"),
        image: text("https://example.com/ada.png"),
        hashed_password: text("9f86d081"),
        created_at: 1_700_000_000,
        listing_count,
        bump: 255,
    }
}

fn new_listing(host: &mut Host, authority: u8) -> Result<Listing, InitializeListingError> {
    initialize_listing(
        &InitializeListing {
            listing_authority: registry_key(authority),
            host: registry_key(40),
        },
        host,
        text("Loft"),
        text("A loft by the river"),
        text("https://example.com/loft.png"),
        1_700_000_100,
        text("apartment"),
        2,
        1,
        4,
        text("PT"),
        0,
        true,
        120_000,
    )
}

#[test]
fn host_profile_copies_its_arguments() {
    let host = initialize_host(
        &InitializeHost {
            host_authority: registry_key(1),
        },
        255,
        text("Ada"),
        text("ada@example.com"),
        text("https://example.com/ada.png"),
        text("9f86d081"),
        1_700_000_000,
    );
    assert_eq!(host, registered_host(0));
}

#[test]
fn guest_profile_copies_its_arguments() {
    let guest = initialize_guest(
        &InitializeGuest {
            guest_authority: registry_key(2),
        },
        254,
        text("Grace"),
        text("grace@example.com"),
        text("https://example.com/grace.png"),
        text("2c26b46b"),
        1_700_000_001,
        text("+351000000"),
        631_152_000,
        text("pt"),
    );
    assert_eq!(
        guest,
        Guest {
            guest_author: registry_key(2),
            name: text("Grace"),
            email: text("grace@example.com"),
            image_url: text("https://example.com/grace.png"),
            hashed_password: text("2c26b46b"),
            created_at: 1_700_000_001,
            phone_number: text("+351000000"),
            date_of_birth: 631_152_000,
            preferred_language: text("pt"),
            bump: 254,
        }
    );
}

#[test]
fn listing_copies_its_arguments_and_counts_on_the_host() {
    let mut host = registered_host(0);
    let listing = new_listing(&mut host, 1).unwrap();
    assert_eq!(
        listing,
        Listing {
            host: registry_key(40),
            title: text("Loft"),
            description: text("A loft by the river"),
            image_url: text("https://example.com/loft.png"),
            created_at: 1_700_000_100,
            category: text("apartment"),
            room_count: 2,
            bathroom_count: 1,
            guest_count: 4,
            country_code: text("PT"),
            total_bookings: 0,
            is_active: true,
            price: 120_000,
        }
    );
    assert_eq!(host, registered_host(1));
}

#[test]
fn each_listing_raises_the_count_by_one() {
    let mut host = registered_host(0);
    new_listing(&mut host, 1).unwrap();
    new_listing(&mut host, 1).unwrap();
    new_listing(&mut host, 1).unwrap();
    assert_eq!(host.listing_count, 3);
}

#[test]
fn listing_by_another_authority_is_refused() {
    let mut host = registered_host(5);
    assert_eq!(
        new_listing(&mut host, 2),
        Err(InitializeListingError::UnauthorizedHost)
    );
    assert_eq!(host, registered_host(5));
}

#[test]
fn listing_beyond_the_largest_count_is_refused() {
    let mut host = registered_host(u64::MAX);
    assert_eq!(
        new_listing(&mut host, 1),
        Err(InitializeListingError::ListingCountOverflow)
    );
    assert_eq!(host, registered_host(u64::MAX));
    let mut last = registered_host(u64::MAX - 1);
    assert!(new_listing(&mut last, 1).is_ok());
    assert_eq!(last.listing_count, u64::MAX);
}

#[test]
fn listing_reports_authorization_before_overflow() {
    let mut host = registered_host(u64::MAX);
    assert_eq!(
        new_listing(&mut host, 2),
        Err(InitializeListingError::UnauthorizedHost)
    );
}

#[test]
fn reservation_copies_its_arguments_and_links_no_escrow() {
    let reservation = initialize_reservation(
        &InitializeReservation {
            reservation_authority: registry_key(2),
        },
        253,
        registry_key(41),
        registry_key(1),
        1_700_100_000,
        1_700_359_200,
        2,
        3,
        120_000,
        360_000,
        ReservationStatus::Pending,
        1_700_000_200,
        PaymentStatus::Pending,
    );
    assert_eq!(
        reservation,
        Reservation {
            guest: registry_key(2),
            listing: registry_key(41),
            host: registry_key(1),
            start_date: 1_700_100_000,
            end_date: 1_700_359_200,
            guest_count: 2,
            total_nights: 3,
            price_per_night: 120_000,
            total_price: 360_000,
            status: ReservationStatus::Pending,
            created_at: 1_700_000_200,
            payment_status: PaymentStatus::Pending,
            payment_escrow: None,
            token_amount: 0,
            platform_fee: 0,
            bump: 253,
        }
    );
}
