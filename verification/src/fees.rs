//! Fee arithmetic in integer basis points: the platform's share of an
//! escrowed amount, and the gross-up of a payout that offsets the fee the
//! transfer layer is assumed to charge.
//!
//! Every quotient is rounded down. Products are formed in 128 bits, so the
//! only failures are results that do not fit in 64 bits.

use vstd::prelude::*;

verus! {

/// Basis points that make up the whole of an amount.
pub const BPS_DENOMINATOR: u64 = 10_000;

/// The platform's share of every escrowed amount: 5.00%.
pub const PLATFORM_FEE_BPS: u64 = 500;

/// What remains of a transfer, in basis points, after the transfer layer has
/// taken its assumed 5.00%.
pub const NET_OF_TRANSFER_FEE_BPS: u64 = 9_500;

/// Why a fee computation has no result.
#[derive(Clone, Copy, Debug, PartialEq, Eq, Structural)]
pub enum ArithmeticError {
    /// The result is larger than `u64::MAX`.
    Overflow,
    /// The fee is larger than the amount it is taken from.
    Underflow,
}

/// The platform fee of `amount`: `floor(amount * 500 / 10000)`.
pub open spec fn spec_platform_fee(amount: nat) -> nat {
    amount * 500 / 10_000
}

/// The amount to send so that `net_amount` arrives after the transfer layer's
/// fee: `floor(net_amount * 10000 / 9500)`.
pub open spec fn spec_gross_up(net_amount: nat) -> nat {
    net_amount * 10_000 / 9_500
}

/// What is left for the host of `amount` once `platform_fee` is taken.
pub open spec fn spec_host_net_amount(amount: nat, platform_fee: nat) -> int {
    amount - platform_fee
}

/// The platform fee of `amount`, rounded down. Defined for every amount.
pub fn platform_fee(amount: u64) -> (fee: u64)
    ensures
        fee == spec_platform_fee(amount as nat),
        fee <= amount,
{
    assert(amount * PLATFORM_FEE_BPS == amount * 500) by (nonlinear_arith)
        requires
            PLATFORM_FEE_BPS == 500,
    ;
    let product: u128 = amount as u128 * PLATFORM_FEE_BPS as u128;
    let fee: u128 = product / BPS_DENOMINATOR as u128;
    fee as u64
}

/// The gross-up of `net_amount`, rounded down. Fails exactly when the
/// grossed-up amount does not fit in 64 bits.
pub fn gross_up(net_amount: u64) -> (r: Result<u64, ArithmeticError>)
    ensures
        match r {
            Ok(transfer_amount) => transfer_amount == spec_gross_up(net_amount as nat),
            Err(e) => e == ArithmeticError::Overflow && spec_gross_up(net_amount as nat)
                > u64::MAX,
        },
{
    assert(net_amount * BPS_DENOMINATOR == net_amount * 10_000) by (nonlinear_arith)
        requires
            BPS_DENOMINATOR == 10_000,
    ;
    let product: u128 = net_amount as u128 * BPS_DENOMINATOR as u128;
    let grossed: u128 = product / NET_OF_TRANSFER_FEE_BPS as u128;
    if grossed > u64::MAX as u128 {
        Err(ArithmeticError::Overflow)
    } else {
        Ok(grossed as u64)
    }
}

/// The host's share of `amount` after `platform_fee`. Fails exactly when the
/// fee exceeds the amount.
pub fn host_net_amount(amount: u64, platform_fee: u64) -> (r: Result<u64, ArithmeticError>)
    ensures
        match r {
            Ok(net) => net == spec_host_net_amount(amount as nat, platform_fee as nat),
            Err(e) => e == ArithmeticError::Underflow && amount < platform_fee,
        },
{
    if amount < platform_fee {
        Err(ArithmeticError::Underflow)
    } else {
        Ok(amount - platform_fee)
    }
}

/// The platform fee never exceeds the amount, and grows with it.
pub proof fn lemma_platform_fee_bounds(amount: nat, larger: nat)
    requires
        amount <= larger,
    ensures
        spec_platform_fee(amount) <= amount,
        spec_platform_fee(amount) <= spec_platform_fee(larger),
        20 * spec_platform_fee(amount) <= amount < 20 * spec_platform_fee(amount) + 20,
{
}

/// Grossing up never sends less than the net amount, and the recipient's
/// share of what is sent, at 95%, covers the net amount to within one unit.
pub proof fn lemma_gross_up_bounds(net_amount: nat)
    ensures
        spec_gross_up(net_amount) >= net_amount,
        19 * spec_gross_up(net_amount) <= 20 * net_amount < 19 * spec_gross_up(net_amount) + 19,
{
}

/// Grossing up what the platform fee leaves of `amount` gives back `amount`
/// itself, or one unit more when `amount` is one short of a multiple of 20.
pub proof fn lemma_gross_up_restores_amount(amount: nat)
    ensures
        spec_gross_up((amount - spec_platform_fee(amount)) as nat) == if amount % 20 == 19 {
            amount + 1
        } else {
            amount
        },
{
    lemma_platform_fee_bounds(amount, amount);
}

/// For an amount of 64 bits, the gross-up of what the platform fee leaves
/// fits in 64 bits as well.
pub proof fn lemma_gross_up_of_net_fits(amount: u64)
    ensures
        spec_platform_fee(amount as nat) <= amount,
        spec_gross_up((amount - spec_platform_fee(amount as nat)) as nat) <= u64::MAX,
{
    lemma_gross_up_restores_amount(amount as nat);
}

} // verus!
