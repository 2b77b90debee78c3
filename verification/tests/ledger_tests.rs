use lodging_escrow::escrow::{
    InitializePaymentEscrow, InitializePaymentEscrowError, ReleasePaymentEscrow,
    ReleasePaymentEscrowError,
};
use lodging_escrow::ledger::{EscrowLedger, LedgerError};
use lodging_escrow::pda::payment_escrow_address;
use lodging_escrow::pubkey::Pubkey;
use lodging_escrow::states::{
    EscrowStatus, PaymentEscrow, PaymentStatus, Reservation, ReservationStatus,
};
use lodging_escrow::token::{TokenAccount, TokenTransfer};

fn ledger_key(n: u8) -> Pubkey {
    Pubkey { bytes: [n; 32] }
}

const PROGRAM: u8 = 100;
const GUEST: u8 = 1;
const HOST: u8 = 2;
const LISTING: u8 = 3;
const RESERVATION: u8 = 4;
const MINT: u8 = 5;
const GUEST_TOKENS: u8 = 6;
const TREASURY: u8 = 7;
const HOST_TOKENS: u8 = 8;
const PLATFORM: u8 = 9;
const OTHER_MINT: u8 = 10;
const STRANGER: u8 = 11;
const OTHER_RESERVATION: u8 = 12;

fn ledger_funding(reservation_key: u8) -> InitializePaymentEscrow {
    InitializePaymentEscrow {
        guest_authority: ledger_key(GUEST),
        reservation_key: ledger_key(reservation_key),
        reservation: Reservation {
            guest: ledger_key(GUEST),
            listing: ledger_key(LISTING),
            host: ledger_key(HOST),
            start_date: 10,
            end_date: 20,
            guest_count: 1,
            total_nights: 10,
            price_per_night: 200_000,
            total_price: 2_000_000,
            status: ReservationStatus::Confirmed,
            created_at: 5,
            payment_status: PaymentStatus::Pending,
            payment_escrow: None,
            token_amount: 0,
            platform_fee: 0,
            bump: 255,
        },
        mint: ledger_key(MINT),
        guest_token_account: TokenAccount {
            key: ledger_key(GUEST_TOKENS),
            mint: ledger_key(MINT),
        },
        platform_treasury: TokenAccount {
            key: ledger_key(TREASURY),
            mint: ledger_key(MINT),
        },
    }
}

fn ledger_release() -> ReleasePaymentEscrow {
    ReleasePaymentEscrow {
        platform_authority: ledger_key(PLATFORM),
        mint: ledger_key(MINT),
        platform_treasury: TokenAccount {
            key: ledger_key(TREASURY),
            mint: ledger_key(MINT),
        },
        host_token_account: TokenAccount {
            key: ledger_key(HOST_TOKENS),
            mint: ledger_key(MINT),
        },
    }
}

#[test]
fn new_ledger_is_empty() {
    let ledger = EscrowLedger::new(ledger_key(PROGRAM));
    assert_eq!(ledger.program_id(), ledger_key(PROGRAM));
    assert_eq!(ledger.len(), 0);
    assert!(!ledger.contains(&ledger_key(50)));
    assert_eq!(ledger.get(&ledger_key(50)), None);
}

#[test]
fn fund_at_stores_the_escrow_at_the_address() {
    let mut ledger = EscrowLedger::new(ledger_key(PROGRAM));
    let transfer = ledger
        .fund_at(ledger_key(50), 251, &ledger_funding(RESERVATION), 1_000_000, 2_000, 1_500)
        .unwrap();
    assert_eq!(
        transfer,
        TokenTransfer {
            from: ledger_key(GUEST_TOKENS),
            to: ledger_key(TREASURY),
            authority: ledger_key(GUEST),
            mint: ledger_key(MINT),
            amount: 1_000_000,
            decimals: 9,
        }
    );
    assert_eq!(ledger.len(), 1);
    assert!(ledger.contains(&ledger_key(50)));
    assert_eq!(
        ledger.get(&ledger_key(50)),
        Some(PaymentEscrow {
            reservation: ledger_key(RESERVATION),
            guest: ledger_key(GUEST),
            host: ledger_key(HOST),
            amount: 1_000_000,
            platform_fee: 50_000,
            status: EscrowStatus::Funded,
            created_at: 1_500,
            release_date: 2_000,
            bump: 251,
        })
    );
    assert_eq!(ledger.get(&ledger_key(51)), None);
}

#[test]
fn fund_at_taken_address_fails_and_keeps_the_first_escrow() {
    let mut ledger = EscrowLedger::new(ledger_key(PROGRAM));
    ledger
        .fund_at(ledger_key(50), 251, &ledger_funding(RESERVATION), 1_000_000, 2_000, 1_500)
        .unwrap();
    let first = ledger.get(&ledger_key(50));
    assert_eq!(
        ledger.fund_at(ledger_key(50), 251, &ledger_funding(RESERVATION), 7, 8, 9),
        Err(LedgerError::AccountAlreadyExists)
    );
    assert_eq!(ledger.len(), 1);
    assert_eq!(ledger.get(&ledger_key(50)), first);
}

#[test]
fn funding_twice_with_the_same_escrow_id_fails_the_second_time() {
    let mut ledger = EscrowLedger::new(ledger_key(PROGRAM));
    let (address, _) = ledger
        .fund(&ledger_funding(RESERVATION), 7, 1_000_000, 2_000, 1_500)
        .unwrap();
    let first = ledger.get(&address);
    assert!(first.is_some());
    assert_eq!(
        ledger.fund(&ledger_funding(RESERVATION), 7, 1_000_000, 2_000, 1_500),
        Err(LedgerError::AccountAlreadyExists)
    );
    assert_eq!(
        ledger.fund(&ledger_funding(RESERVATION), 7, 5, 6, 7),
        Err(LedgerError::AccountAlreadyExists)
    );
    assert_eq!(ledger.len(), 1);
    assert_eq!(ledger.get(&address), first);
}

#[test]
fn funding_with_another_escrow_id_or_reservation_succeeds() {
    let mut ledger = EscrowLedger::new(ledger_key(PROGRAM));
    let (first, _) = ledger
        .fund(&ledger_funding(RESERVATION), 7, 1_000_000, 2_000, 1_500)
        .unwrap();
    let (second, _) = ledger
        .fund(&ledger_funding(RESERVATION), 8, 3_000_000, 2_000, 1_500)
        .unwrap();
    let (third, _) = ledger
        .fund(&ledger_funding(OTHER_RESERVATION), 7, 4_000_000, 2_000, 1_500)
        .unwrap();
    assert_ne!(first, second);
    assert_ne!(first, third);
    assert_ne!(second, third);
    assert_eq!(ledger.len(), 3);
    assert_eq!(ledger.get(&first).unwrap().amount, 1_000_000);
    assert_eq!(ledger.get(&second).unwrap().amount, 3_000_000);
    assert_eq!(ledger.get(&third).unwrap().amount, 4_000_000);
    assert_eq!(ledger.get(&third).unwrap().reservation, ledger_key(OTHER_RESERVATION));
}

#[test]
fn fund_stores_at_the_derived_address_with_its_bump() {
    let mut ledger = EscrowLedger::new(ledger_key(PROGRAM));
    let (address, _) = ledger
        .fund(&ledger_funding(RESERVATION), 7, 1_000_000, 2_000, 1_500)
        .unwrap();
    let (derived, bump) =
        payment_escrow_address(&ledger_key(PROGRAM), &ledger_key(RESERVATION), 7).unwrap();
    assert_eq!(address, derived);
    assert_eq!(ledger.get(&derived).unwrap().bump, bump);
}

#[test]
fn unauthorized_funding_creates_no_record() {
    let mut ledger = EscrowLedger::new(ledger_key(PROGRAM));
    let mut accounts = ledger_funding(RESERVATION);
    accounts.guest_authority = ledger_key(STRANGER);
    assert_eq!(
        ledger.fund(&accounts, 7, 1_000_000, 2_000, 1_500),
        Err(LedgerError::Initialize(
            InitializePaymentEscrowError::UnauthorizedGuest
        ))
    );
    assert_eq!(ledger.len(), 0);
    let (derived, _) =
        payment_escrow_address(&ledger_key(PROGRAM), &ledger_key(RESERVATION), 7).unwrap();
    assert_eq!(ledger.get(&derived), None);
    assert_eq!(
        ledger.fund_at(ledger_key(50), 255, &accounts, 1_000_000, 2_000, 1_500),
        Err(LedgerError::Initialize(
            InitializePaymentEscrowError::UnauthorizedGuest
        ))
    );
    assert_eq!(ledger.len(), 0);
}

#[test]
fn unauthorized_funding_of_taken_address_is_reported_as_unauthorized() {
    let mut ledger = EscrowLedger::new(ledger_key(PROGRAM));
    ledger
        .fund(&ledger_funding(RESERVATION), 7, 1_000_000, 2_000, 1_500)
        .unwrap();
    let mut accounts = ledger_funding(RESERVATION);
    accounts.guest_authority = ledger_key(STRANGER);
    assert_eq!(
        ledger.fund(&accounts, 7, 1_000_000, 2_000, 1_500),
        Err(LedgerError::Initialize(
            InitializePaymentEscrowError::UnauthorizedGuest
        ))
    );
    assert_eq!(ledger.len(), 1);
}

#[test]
fn funding_with_foreign_treasury_mint_creates_no_record() {
    let mut ledger = EscrowLedger::new(ledger_key(PROGRAM));
    let mut accounts = ledger_funding(RESERVATION);
    accounts.platform_treasury.mint = ledger_key(OTHER_MINT);
    assert_eq!(
        ledger.fund(&accounts, 7, 1_000_000, 2_000, 1_500),
        Err(LedgerError::Initialize(
            InitializePaymentEscrowError::InvalidTreasuryMint
        ))
    );
    assert_eq!(ledger.len(), 0);
}

#[test]
fn taken_address_is_reported_before_treasury_mint() {
    let mut ledger = EscrowLedger::new(ledger_key(PROGRAM));
    ledger
        .fund(&ledger_funding(RESERVATION), 7, 1_000_000, 2_000, 1_500)
        .unwrap();
    let mut accounts = ledger_funding(RESERVATION);
    accounts.platform_treasury.mint = ledger_key(OTHER_MINT);
    assert_eq!(
        ledger.fund(&accounts, 7, 1_000_000, 2_000, 1_500),
        Err(LedgerError::AccountAlreadyExists)
    );
}

#[test]
fn release_of_unknown_address_is_not_found() {
    let mut ledger = EscrowLedger::new(ledger_key(PROGRAM));
    assert_eq!(
        ledger.release(&ledger_key(50), &ledger_release(), 5_000),
        Err(LedgerError::AccountNotFound)
    );
    ledger
        .fund_at(ledger_key(51), 255, &ledger_funding(RESERVATION), 1, 2, 3)
        .unwrap();
    assert_eq!(
        ledger.release(&ledger_key(50), &ledger_release(), 5_000),
        Err(LedgerError::AccountNotFound)
    );
}

#[test]
fn stored_escrow_is_released_exactly_once() {
    let mut ledger = EscrowLedger::new(ledger_key(PROGRAM));
    let (address, _) = ledger
        .fund(&ledger_funding(RESERVATION), 1, 1_000_000, 2_000, 1_500)
        .unwrap();
    assert_eq!(
        ledger.release(&address, &ledger_release(), 1_999),
        Err(LedgerError::Release(
            ReleasePaymentEscrowError::ReleaseNotYetAllowed
        ))
    );
    assert_eq!(ledger.get(&address).unwrap().status, EscrowStatus::Funded);
    assert!(ledger.release(&address, &ledger_release(), 2_000).is_ok());
    assert_eq!(ledger.get(&address).unwrap().status, EscrowStatus::Released);
    assert_eq!(
        ledger.release(&address, &ledger_release(), 2_000),
        Err(LedgerError::Release(
            ReleasePaymentEscrowError::EscrowNotFunded
        ))
    );
    assert_eq!(
        ledger.release(&address, &ledger_release(), 9_000),
        Err(LedgerError::Release(
            ReleasePaymentEscrowError::EscrowNotFunded
        ))
    );
    assert_eq!(ledger.get(&address).unwrap().status, EscrowStatus::Released);
    assert_eq!(ledger.len(), 1);
}

#[test]
fn release_leaves_other_escrows_alone() {
    let mut ledger = EscrowLedger::new(ledger_key(PROGRAM));
    let (first, _) = ledger
        .fund(&ledger_funding(RESERVATION), 1, 1_000_000, 2_000, 1_500)
        .unwrap();
    let (second, _) = ledger
        .fund(&ledger_funding(RESERVATION), 2, 3_000_000, 2_000, 1_500)
        .unwrap();
    let untouched = ledger.get(&second);
    ledger.release(&first, &ledger_release(), 2_000).unwrap();
    assert_eq!(ledger.get(&second), untouched);
    assert_eq!(ledger.get(&first).unwrap().status, EscrowStatus::Released);
    let transfer = ledger.release(&second, &ledger_release(), 2_500).unwrap();
    assert_eq!(transfer.amount, 3_000_000);
}

#[test]
fn release_with_foreign_treasury_mint_changes_nothing() {
    let mut ledger = EscrowLedger::new(ledger_key(PROGRAM));
    let (address, _) = ledger
        .fund(&ledger_funding(RESERVATION), 1, 1_000_000, 2_000, 1_500)
        .unwrap();
    let mut accounts = ledger_release();
    accounts.platform_treasury.mint = ledger_key(OTHER_MINT);
    assert_eq!(
        ledger.release(&address, &accounts, 2_000),
        Err(LedgerError::Release(
            ReleasePaymentEscrowError::InvalidTreasuryMint
        ))
    );
    assert_eq!(ledger.get(&address).unwrap().status, EscrowStatus::Funded);
}

#[test]
fn fund_two_million_then_release_at_the_release_date() {
    let release_date: u64 = 1_800_000_000;
    let mut ledger = EscrowLedger::new(ledger_key(PROGRAM));
    let (address, funding) = ledger
        .fund(&ledger_funding(RESERVATION), 1, 2_000_000, release_date, release_date - 1)
        .unwrap();
    assert_eq!(funding.amount, 2_000_000);
    assert_eq!(funding.from, ledger_key(GUEST_TOKENS));
    assert_eq!(funding.to, ledger_key(TREASURY));

    let record = ledger.get(&address).unwrap();
    assert_eq!(record.status, EscrowStatus::Funded);
    assert_eq!(record.platform_fee, 100_000);
    assert_eq!(record.amount, 2_000_000);
    assert_eq!(record.created_at, release_date - 1);
    assert_eq!(record.release_date, release_date);

    assert_eq!(
        ledger.release(&address, &ledger_release(), release_date - 1),
        Err(LedgerError::Release(
            ReleasePaymentEscrowError::ReleaseNotYetAllowed
        ))
    );
    assert_eq!(ledger.get(&address), Some(record));

    let payout = ledger.release(&address, &ledger_release(), release_date).unwrap();
    assert_eq!(
        payout,
        TokenTransfer {
            from: ledger_key(TREASURY),
            to: ledger_key(HOST_TOKENS),
            authority: ledger_key(PLATFORM),
            mint: ledger_key(MINT),
            amount: 2_000_000,
            decimals: 9,
        }
    );
    assert_eq!(
        ledger.get(&address),
        Some(PaymentEscrow {
            status: EscrowStatus::Released,
            ..record
        })
    );
}
