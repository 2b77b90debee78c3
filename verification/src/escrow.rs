//! The escrow lifecycle: funding by the guest, release to the host.
//!
//! Both operations are decisions only. Each takes the records and accounts it
//! reads as plain values, and answers with the record to store and the
//! transfer to request of the transfer layer; the caller performs the
//! transfer and persists the record, and discards both if the transfer
//! fails.

use crate::fees::{
    gross_up, host_net_amount, lemma_gross_up_restores_amount, platform_fee, spec_gross_up,
    spec_platform_fee, ArithmeticError,
};
use crate::pubkey::Pubkey;
use crate::states::{EscrowStatus, PaymentEscrow, Reservation};
use crate::token::{
    spec_transfer_to_platform_treasury, transfer_to_platform_treasury, TokenAccount, TokenTransfer,
    TOKEN_DECIMALS,
};
use vstd::prelude::*;

verus! {

/// The accounts that funding an escrow reads.
#[derive(Clone, Copy, Debug, PartialEq, Eq)]
pub struct InitializePaymentEscrow {
    /// The caller, who pays.
    pub guest_authority: Pubkey,
    /// Address of the reservation the escrow is for.
    pub reservation_key: Pubkey,
    /// The reservation the escrow is for.
    pub reservation: Reservation,
    /// The payment asset.
    pub mint: Pubkey,
    /// The holding account the payment is taken from. Whether the guest may
    /// move funds out of it is for the transfer layer to decide.
    pub guest_token_account: TokenAccount,
    /// The platform treasury, which receives every payment.
    pub platform_treasury: TokenAccount,
}

/// Why funding an escrow is refused.
#[derive(Clone, Copy, Debug, PartialEq, Eq, Structural)]
pub enum InitializePaymentEscrowError {
    /// The caller is not the guest of the reservation.
    UnauthorizedGuest,
    /// The payment asset is not valid. Reserved: no guard of funding raises
    /// it.
    InvalidMint,
    /// The treasury does not hold the payment asset.
    InvalidTreasuryMint,
}

impl InitializePaymentEscrowError {
    /// The text shown for the error.
    pub open spec fn spec_message(self) -> Seq<char> {
        match self {
            InitializePaymentEscrowError::UnauthorizedGuest => {
                "Only the guest can create escrow for their reservation"@
            },
            InitializePaymentEscrowError::InvalidMint => "Invalid mint provided"@,
            InitializePaymentEscrowError::InvalidTreasuryMint => {
                "Platform treasury mint does not match payment mint"@
            },
        }
    }

    /// The text shown for the error.
    pub fn message(&self) -> (text: &'static str)
        ensures
            text@ == self.spec_message(),
    {
        match self {
            InitializePaymentEscrowError::UnauthorizedGuest => {
                "Only the guest can create escrow for their reservation"
            },
            InitializePaymentEscrowError::InvalidMint => "Invalid mint provided",
            InitializePaymentEscrowError::InvalidTreasuryMint => {
                "Platform treasury mint does not match payment mint"
            },
        }
    }
}

/// The accounts that releasing an escrow reads, besides the escrow itself.
#[derive(Clone, Copy, Debug, PartialEq, Eq)]
pub struct ReleasePaymentEscrow {
    /// The caller, who may move funds out of the treasury.
    pub platform_authority: Pubkey,
    /// The payment asset.
    pub mint: Pubkey,
    /// The platform treasury, source of the payout.
    pub platform_treasury: TokenAccount,
    /// The holding account the payout is sent to. That it is the host's is
    /// for the caller's account validation to establish: release reads only
    /// its address.
    pub host_token_account: TokenAccount,
}

/// Why releasing an escrow is refused.
#[derive(Clone, Copy, Debug, PartialEq, Eq, Structural)]
pub enum ReleasePaymentEscrowError {
    /// The escrow is not in the `Funded` state.
    EscrowNotFunded,
    /// The release date has not been reached.
    ReleaseNotYetAllowed,
    /// The treasury does not hold the payment asset.
    InvalidTreasuryMint,
    /// The payout cannot be computed in 64 bits.
    ArithmeticError(ArithmeticError),
}

impl ReleasePaymentEscrowError {
    /// The text shown for the error.
    pub open spec fn spec_message(self) -> Seq<char> {
        match self {
            ReleasePaymentEscrowError::EscrowNotFunded => "Escrow is not in funded status"@,
            ReleasePaymentEscrowError::ReleaseNotYetAllowed => {
                "Release date has not been reached yet"@
            },
            ReleasePaymentEscrowError::InvalidTreasuryMint => {
                "Platform treasury mint does not match payment mint"@
            },
            ReleasePaymentEscrowError::ArithmeticError(ArithmeticError::Overflow) => {
                "Payout does not fit in 64 bits"@
            },
            ReleasePaymentEscrowError::ArithmeticError(ArithmeticError::Underflow) => {
                "Platform fee exceeds the escrowed amount"@
            },
        }
    }

    /// The text shown for the error.
    pub fn message(&self) -> (text: &'static str)
        ensures
            text@ == self.spec_message(),
    {
        match self {
            ReleasePaymentEscrowError::EscrowNotFunded => "Escrow is not in funded status",
            ReleasePaymentEscrowError::ReleaseNotYetAllowed => {
                "Release date has not been reached yet"
            },
            ReleasePaymentEscrowError::InvalidTreasuryMint => {
                "Platform treasury mint does not match payment mint"
            },
            ReleasePaymentEscrowError::ArithmeticError(ArithmeticError::Overflow) => {
                "Payout does not fit in 64 bits"
            },
            ReleasePaymentEscrowError::ArithmeticError(ArithmeticError::Underflow) => {
                "Platform fee exceeds the escrowed amount"
            },
        }
    }
}

/// The clock's reading as the unsigned seconds that records store: the same
/// 64 bits, so a reading before the epoch becomes a time in the far future.
pub open spec fn spec_clock_seconds(unix_timestamp: i64) -> u64 {
    if unix_timestamp >= 0 {
        unix_timestamp as u64
    } else {
        (unix_timestamp + 0x1_0000_0000_0000_0000) as u64
    }
}

/// Converts the clock's signed reading to unsigned seconds.
pub fn clock_seconds(unix_timestamp: i64) -> (now: u64)
    ensures
        now == spec_clock_seconds(unix_timestamp),
{
    if unix_timestamp >= 0 {
        unix_timestamp as u64
    } else {
        let below_zero: u64 = (-(unix_timestamp + 1)) as u64;
        u64::MAX - below_zero
    }
}

/// The escrow that funding stores.
pub open spec fn funded_escrow(
    accounts: InitializePaymentEscrow,
    bump: u8,
    amount: u64,
    release_date: u64,
    now: u64,
) -> PaymentEscrow {
    PaymentEscrow {
        reservation: accounts.reservation_key,
        guest: accounts.guest_authority,
        host: accounts.reservation.host,
        amount,
        platform_fee: spec_platform_fee(amount as nat) as u64,
        status: EscrowStatus::Funded,
        created_at: now,
        release_date,
        bump,
    }
}

/// Whether the caller is the guest of the reservation.
pub open spec fn guest_is_authorized(accounts: InitializePaymentEscrow) -> bool {
    accounts.reservation.guest == accounts.guest_authority
}

/// What funding decides: the guards in the order in which they are
/// evaluated, then the escrow to store and the transfer of the full amount,
/// fee included, from the guest to the treasury.
pub open spec fn spec_initialize_payment_escrow(
    accounts: InitializePaymentEscrow,
    bump: u8,
    amount: u64,
    release_date: u64,
    now: u64,
) -> Result<(PaymentEscrow, TokenTransfer), InitializePaymentEscrowError> {
    if !guest_is_authorized(accounts) {
        Err(InitializePaymentEscrowError::UnauthorizedGuest)
    } else if accounts.platform_treasury.mint != accounts.mint {
        Err(InitializePaymentEscrowError::InvalidTreasuryMint)
    } else {
        Ok(
            (
                funded_escrow(accounts, bump, amount, release_date, now),
                spec_transfer_to_platform_treasury(
                    accounts.guest_token_account,
                    accounts.platform_treasury,
                    accounts.guest_authority,
                    accounts.mint,
                    amount,
                ),
            ),
        )
    }
}

/// The authorization guard of funding: only the reservation's guest may fund
/// an escrow for it.
pub fn authorize_guest(accounts: &InitializePaymentEscrow) -> (r: Result<
    (),
    InitializePaymentEscrowError,
>)
    ensures
        r is Ok <==> guest_is_authorized(*accounts),
        r is Err ==> r == Err::<(), _>(InitializePaymentEscrowError::UnauthorizedGuest),
{
    if accounts.reservation.guest == accounts.guest_authority {
        Ok(())
    } else {
        Err(InitializePaymentEscrowError::UnauthorizedGuest)
    }
}

/// Funds an escrow of `amount` for the reservation in `accounts`, to be
/// released no earlier than `release_date`, at time `now`.
///
/// Fails with `UnauthorizedGuest` when the caller is not the reservation's
/// guest; otherwise with `InvalidTreasuryMint` when the treasury holds another
/// asset; otherwise succeeds with the `Funded` escrow, its fee computed from
/// `amount`, and the transfer of the whole `amount` to the treasury. Neither
/// `amount` nor `release_date` is restricted.
pub fn initialize_payment_escrow(
    accounts: &InitializePaymentEscrow,
    bump: u8,
    amount: u64,
    release_date: u64,
    now: u64,
) -> (r: Result<(PaymentEscrow, TokenTransfer), InitializePaymentEscrowError>)
    ensures
        r == spec_initialize_payment_escrow(*accounts, bump, amount, release_date, now),
        !guest_is_authorized(*accounts) ==> r == Err::<(PaymentEscrow, TokenTransfer), _>(
            InitializePaymentEscrowError::UnauthorizedGuest,
        ),
        r != Err::<(PaymentEscrow, TokenTransfer), _>(InitializePaymentEscrowError::InvalidMint),
        r matches Ok((escrow, transfer)) ==> {
            &&& escrow.status == EscrowStatus::Funded
            &&& escrow.platform_fee == spec_platform_fee(amount as nat)
            &&& escrow.platform_fee <= escrow.amount == amount
            &&& escrow.reservation == accounts.reservation_key
            &&& escrow.guest == accounts.reservation.guest
            &&& escrow.host == accounts.reservation.host
            &&& transfer.amount == amount
        },
{
    match authorize_guest(accounts) {
        Err(e) => {
            return Err(e);
        },
        Ok(()) => {},
    }
    if accounts.platform_treasury.mint != accounts.mint {
        return Err(InitializePaymentEscrowError::InvalidTreasuryMint);
    }
    let escrow = PaymentEscrow {
        reservation: accounts.reservation_key,
        guest: accounts.guest_authority,
        host: accounts.reservation.host,
        amount,
        platform_fee: platform_fee(amount),
        status: EscrowStatus::Funded,
        created_at: now,
        release_date,
        bump,
    };
    let transfer = transfer_to_platform_treasury(
        &accounts.guest_token_account,
        &accounts.platform_treasury,
        &accounts.guest_authority,
        &accounts.mint,
        amount,
    );
    Ok((escrow, transfer))
}

/// The amount that release sends to the host: the gross-up of the escrowed
/// amount less the platform fee.
pub open spec fn spec_release_transfer_amount(escrow: PaymentEscrow) -> Result<
    u64,
    ArithmeticError,
> {
    if escrow.amount < escrow.platform_fee {
        Err(ArithmeticError::Underflow)
    } else if spec_gross_up((escrow.amount - escrow.platform_fee) as nat) > u64::MAX {
        Err(ArithmeticError::Overflow)
    } else {
        Ok(spec_gross_up((escrow.amount - escrow.platform_fee) as nat) as u64)
    }
}

/// The escrow after its release: the same record, `Released`.
pub open spec fn released(escrow: PaymentEscrow) -> PaymentEscrow {
    PaymentEscrow { status: EscrowStatus::Released, ..escrow }
}

/// Whether the escrow is as the lifecycle leaves escrows: its fee is the
/// platform fee of its amount, and it is `Funded` or `Released`.
pub open spec fn is_sound(escrow: PaymentEscrow) -> bool {
    &&& escrow.platform_fee == spec_platform_fee(escrow.amount as nat)
    &&& escrow.status == EscrowStatus::Funded || escrow.status == EscrowStatus::Released
}

/// What release decides: the guards in the order in which they are
/// evaluated, then the payout from the treasury to the host.
pub open spec fn spec_release_payment_escrow(
    escrow: PaymentEscrow,
    accounts: ReleasePaymentEscrow,
    now: u64,
) -> Result<TokenTransfer, ReleasePaymentEscrowError> {
    if escrow.status != EscrowStatus::Funded {
        Err(ReleasePaymentEscrowError::EscrowNotFunded)
    } else if now < escrow.release_date {
        Err(ReleasePaymentEscrowError::ReleaseNotYetAllowed)
    } else if accounts.platform_treasury.mint != accounts.mint {
        Err(ReleasePaymentEscrowError::InvalidTreasuryMint)
    } else {
        match spec_release_transfer_amount(escrow) {
            Err(e) => Err(ReleasePaymentEscrowError::ArithmeticError(e)),
            Ok(amount) => Ok(
                TokenTransfer {
                    from: accounts.platform_treasury.key,
                    to: accounts.host_token_account.key,
                    authority: accounts.platform_authority,
                    mint: accounts.mint,
                    amount,
                    decimals: TOKEN_DECIMALS,
                },
            ),
        }
    }
}

/// Computes the amount that release sends to the host.
pub fn release_transfer_amount(escrow: &PaymentEscrow) -> (r: Result<u64, ArithmeticError>)
    ensures
        r == spec_release_transfer_amount(*escrow),
{
    match host_net_amount(escrow.amount, escrow.platform_fee) {
        Err(e) => Err(e),
        Ok(net) => gross_up(net),
    }
}

/// Releases `escrow` to its host at time `now`.
///
/// Fails with `EscrowNotFunded` unless the escrow is `Funded`; otherwise with
/// `ReleaseNotYetAllowed` while `now` is before the release date; otherwise
/// with `InvalidTreasuryMint` when the treasury holds another asset; otherwise
/// with `ArithmeticError` when the payout has no 64-bit value. On success the
/// escrow becomes `Released` and the payout is returned; on failure the
/// escrow is unchanged.
pub fn release_payment_escrow(
    escrow: &mut PaymentEscrow,
    accounts: &ReleasePaymentEscrow,
    now: u64,
) -> (r: Result<TokenTransfer, ReleasePaymentEscrowError>)
    ensures
        r == spec_release_payment_escrow(*old(escrow), *accounts, now),
        r is Ok ==> *final(escrow) == released(*old(escrow)),
        r is Err ==> *final(escrow) == *old(escrow),
        old(escrow).status != EscrowStatus::Funded ==> r == Err::<TokenTransfer, _>(
            ReleasePaymentEscrowError::EscrowNotFunded,
        ),
        old(escrow).status == EscrowStatus::Funded && now < old(escrow).release_date ==> r
            == Err::<TokenTransfer, _>(ReleasePaymentEscrowError::ReleaseNotYetAllowed),
        r is Ok ==> old(escrow).status == EscrowStatus::Funded && now >= old(escrow).release_date,
{
    match escrow.status {
        EscrowStatus::Funded => {},
        EscrowStatus::Released | EscrowStatus::Refunded | EscrowStatus::Disputed => {
            return Err(ReleasePaymentEscrowError::EscrowNotFunded);
        },
    }
    if now < escrow.release_date {
        return Err(ReleasePaymentEscrowError::ReleaseNotYetAllowed);
    }
    if accounts.platform_treasury.mint != accounts.mint {
        return Err(ReleasePaymentEscrowError::InvalidTreasuryMint);
    }
    let amount = match release_transfer_amount(escrow) {
        Err(e) => {
            return Err(ReleasePaymentEscrowError::ArithmeticError(e));
        },
        Ok(amount) => amount,
    };
    let transfer = TokenTransfer {
        from: accounts.platform_treasury.key,
        to: accounts.host_token_account.key,
        authority: accounts.platform_authority,
        mint: accounts.mint,
        amount,
        decimals: TOKEN_DECIMALS,
    };
    escrow.status = EscrowStatus::Released;
    Ok(transfer)
}

/// An escrow is released at most once: after a successful release, every
/// further release fails with `EscrowNotFunded`, whoever asks and whenever.
pub proof fn lemma_release_succeeds_once(
    escrow: PaymentEscrow,
    accounts: ReleasePaymentEscrow,
    now: u64,
    again: ReleasePaymentEscrow,
    later: u64,
)
    requires
        spec_release_payment_escrow(escrow, accounts, now) is Ok,
    ensures
        spec_release_payment_escrow(released(escrow), again, later) == Err::<TokenTransfer, _>(
            ReleasePaymentEscrowError::EscrowNotFunded,
        ),
{
}

/// The time gate of release. A `Funded` escrow is refused with
/// `ReleaseNotYetAllowed` at every time before its release date, whatever the
/// accounts, and at no time from the release date on. From then on it is
/// released exactly when the treasury holds the payment asset and the payout
/// has a 64-bit value.
pub proof fn lemma_release_time_gate(
    escrow: PaymentEscrow,
    accounts: ReleasePaymentEscrow,
    now: u64,
)
    requires
        escrow.status == EscrowStatus::Funded,
    ensures
        now < escrow.release_date <==> spec_release_payment_escrow(escrow, accounts, now)
            == Err::<TokenTransfer, _>(ReleasePaymentEscrowError::ReleaseNotYetAllowed),
        now >= escrow.release_date ==> (spec_release_payment_escrow(escrow, accounts, now) is Ok
            <==> accounts.platform_treasury.mint == accounts.mint && spec_release_transfer_amount(
            escrow,
        ) is Ok),
{
}

/// Funding and release leave escrows sound: the escrow that funding stores
/// is sound, and so is a sound escrow after its release. The reserved states
/// are never entered.
pub proof fn lemma_lifecycle_keeps_escrows_sound(
    funding: InitializePaymentEscrow,
    bump: u8,
    amount: u64,
    release_date: u64,
    funded_at: u64,
    escrow: PaymentEscrow,
)
    requires
        is_sound(escrow),
    ensures
        is_sound(funded_escrow(funding, bump, amount, release_date, funded_at)),
        is_sound(released(escrow)),
{
    lemma_gross_up_restores_amount(amount as nat);
}

/// The payout of a sound escrow always has a 64-bit value: it is the escrowed
/// amount itself, or one unit more when the amount is one short of a multiple
/// of 20. So once its date has come and the treasury holds the payment asset,
/// a sound `Funded` escrow is released, from the treasury to the holding
/// account given for the host.
pub proof fn lemma_sound_escrow_releases(
    escrow: PaymentEscrow,
    accounts: ReleasePaymentEscrow,
    now: u64,
)
    requires
        is_sound(escrow),
    ensures
        spec_release_transfer_amount(escrow) matches Ok(amount) && amount == if escrow.amount
            % 20 == 19 {
            escrow.amount + 1
        } else {
            escrow.amount as int
        },
        !(spec_release_payment_escrow(escrow, accounts, now) matches Err(
            ReleasePaymentEscrowError::ArithmeticError(_),
        )),
        escrow.status == EscrowStatus::Funded && accounts.platform_treasury.mint == accounts.mint
            && now >= escrow.release_date ==> {
            &&& spec_release_payment_escrow(escrow, accounts, now) matches Ok(payout)
            &&& Ok::<u64, ArithmeticError>(payout.amount) == spec_release_transfer_amount(escrow)
            &&& payout.from == accounts.platform_treasury.key
            &&& payout.to == accounts.host_token_account.key
        },
{
    lemma_gross_up_restores_amount(escrow.amount as nat);
}

} // verus!
