//! A store of escrow records keyed by their derived addresses.
//!
//! The store creates a record exactly once, when an escrow is funded at a
//! free address, changes it exactly once, when the escrow is released, and
//! never deletes it. Its view is the map from address bytes to records.

use crate::escrow::{
    authorize_guest, funded_escrow, guest_is_authorized, initialize_payment_escrow, is_sound,
    lemma_lifecycle_keeps_escrows_sound, lemma_sound_escrow_releases, release_payment_escrow,
    released, spec_initialize_payment_escrow, spec_release_payment_escrow,
    spec_release_transfer_amount, InitializePaymentEscrow, InitializePaymentEscrowError,
    ReleasePaymentEscrow, ReleasePaymentEscrowError,
};
use crate::fees::{spec_platform_fee, ArithmeticError};
use crate::pda::{payment_escrow_address, spec_payment_escrow_address};
use crate::pubkey::Pubkey;
use crate::states::{EscrowStatus, PaymentEscrow};
use crate::token::TokenTransfer;
use vstd::prelude::*;

verus! {

/// Why an operation on the store is refused.
#[derive(Clone, Copy, Debug, PartialEq, Eq, Structural)]
pub enum LedgerError {
    /// Funding was refused by one of its guards.
    Initialize(InitializePaymentEscrowError),
    /// Release was refused by one of its guards.
    Release(ReleasePaymentEscrowError),
    /// No address can be derived for the escrow.
    AddressUnavailable,
    /// A record already exists at the escrow's address.
    AccountAlreadyExists,
    /// No record exists at the address.
    AccountNotFound,
}

/// An escrow record together with the address it is stored at.
#[derive(Clone, Copy)]
struct EscrowAccount {
    address: Pubkey,
    escrow: PaymentEscrow,
}

/// The state of the store: the record at each occupied address.
pub type LedgerState = Map<Seq<u8>, PaymentEscrow>;

/// Funding at a given address: the caller must be the reservation's guest,
/// the address must be free, and the remaining guards of funding must pass;
/// then the new escrow is stored at the address. A refusal leaves the state
/// as it was.
pub open spec fn spec_fund_at(
    state: LedgerState,
    address: Seq<u8>,
    bump: u8,
    accounts: InitializePaymentEscrow,
    amount: u64,
    release_date: u64,
    now: u64,
) -> (LedgerState, Result<TokenTransfer, LedgerError>) {
    if !guest_is_authorized(accounts) {
        (state, Err(LedgerError::Initialize(InitializePaymentEscrowError::UnauthorizedGuest)))
    } else if state.contains_key(address) {
        (state, Err(LedgerError::AccountAlreadyExists))
    } else {
        match spec_initialize_payment_escrow(accounts, bump, amount, release_date, now) {
            Err(e) => (state, Err(LedgerError::Initialize(e))),
            Ok((escrow, transfer)) => (state.insert(address, escrow), Ok(transfer)),
        }
    }
}

/// Funding by sequence number: as `spec_fund_at`, at the address derived from
/// the reservation's address and `escrow_id`, with the bump seed found by the
/// derivation.
pub open spec fn spec_fund(
    state: LedgerState,
    program_id: Pubkey,
    accounts: InitializePaymentEscrow,
    escrow_id: u64,
    amount: u64,
    release_date: u64,
    now: u64,
) -> (LedgerState, Result<(Seq<u8>, TokenTransfer), LedgerError>) {
    if !guest_is_authorized(accounts) {
        (state, Err(LedgerError::Initialize(InitializePaymentEscrowError::UnauthorizedGuest)))
    } else {
        match spec_payment_escrow_address(program_id, accounts.reservation_key, escrow_id) {
            None => (state, Err(LedgerError::AddressUnavailable)),
            Some((address, bump)) => {
                let (next, outcome) = spec_fund_at(
                    state,
                    address,
                    bump,
                    accounts,
                    amount,
                    release_date,
                    now,
                );
                match outcome {
                    Err(e) => (next, Err(e)),
                    Ok(transfer) => (next, Ok((address, transfer))),
                }
            },
        }
    }
}

/// Release of the escrow stored at `address`: the record must exist and the
/// guards of release must pass; then the record becomes `Released`. A refusal
/// leaves the state as it was.
pub open spec fn spec_release(
    state: LedgerState,
    address: Seq<u8>,
    accounts: ReleasePaymentEscrow,
    now: u64,
) -> (LedgerState, Result<TokenTransfer, LedgerError>) {
    if !state.contains_key(address) {
        (state, Err(LedgerError::AccountNotFound))
    } else {
        match spec_release_payment_escrow(state[address], accounts, now) {
            Err(e) => (state, Err(LedgerError::Release(e))),
            Ok(transfer) => (state.insert(address, released(state[address])), Ok(transfer)),
        }
    }
}

/// Whether every record of the state is sound: its fee is the platform fee
/// of its amount, and it is `Funded` or `Released`.
pub open spec fn sound_state(state: LedgerState) -> bool {
    forall|address: Seq<u8>| #[trigger]
        state.contains_key(address) ==> is_sound(state[address])
}

/// The store of escrow records of one marketplace program.
pub struct EscrowLedger {
    program_id: Pubkey,
    accounts: Vec<EscrowAccount>,
}

/// Whether no address occurs twice among `accounts`.
spec fn distinct_addresses(accounts: Seq<EscrowAccount>) -> bool {
    forall|i: int, j: int|
        0 <= i < j < accounts.len() ==> (#[trigger] accounts[i]).address@
            != (#[trigger] accounts[j]).address@
}

/// Whether `accounts` holds a record at `address`.
spec fn holds(accounts: Seq<EscrowAccount>, address: Seq<u8>) -> bool {
    exists|i: int| 0 <= i < accounts.len() && (#[trigger] accounts[i]).address@ == address
}

/// A position in `accounts` of the record at `address`.
spec fn position(accounts: Seq<EscrowAccount>, address: Seq<u8>) -> int {
    choose|i: int| 0 <= i < accounts.len() && (#[trigger] accounts[i]).address@ == address
}

/// The map from addresses to records that `accounts` stands for.
spec fn state_of(accounts: Seq<EscrowAccount>) -> LedgerState {
    Map::new(
        |address: Seq<u8>| holds(accounts, address),
        |address: Seq<u8>| accounts[position(accounts, address)].escrow,
    )
}

/// With distinct addresses, each record is found at its own position.
proof fn lemma_position_is_unique(accounts: Seq<EscrowAccount>, i: int)
    requires
        distinct_addresses(accounts),
        0 <= i < accounts.len(),
    ensures
        holds(accounts, accounts[i].address@),
        position(accounts, accounts[i].address@) == i,
        state_of(accounts)[accounts[i].address@] == accounts[i].escrow,
{
    let address = accounts[i].address@;
    let p = position(accounts, address);
    assert(0 <= p < accounts.len() && accounts[p].address@ == address);
    if p < i {
        assert(accounts[p].address@ != accounts[i].address@);
    } else if i < p {
        assert(accounts[i].address@ != accounts[p].address@);
    }
}

/// Appending a record at a free address inserts it into the map.
proof fn lemma_push_inserts(accounts: Seq<EscrowAccount>, account: EscrowAccount)
    requires
        distinct_addresses(accounts),
        !holds(accounts, account.address@),
    ensures
        distinct_addresses(accounts.push(account)),
        state_of(accounts.push(account)) == state_of(accounts).insert(
            account.address@,
            account.escrow,
        ),
{
    let longer = accounts.push(account);
    let last = accounts.len() as int;
    assert forall|i: int, j: int| 0 <= i < j < longer.len() implies (#[trigger] longer[i]).address@
        != (#[trigger] longer[j]).address@ by {
        if j == last {
            assert(longer[i] == accounts[i]);
        } else {
            assert(longer[i] == accounts[i] && longer[j] == accounts[j]);
        }
    }
    assert forall|address: Seq<u8>|
        state_of(longer).dom().contains(address) <==> state_of(accounts).insert(
            account.address@,
            account.escrow,
        ).dom().contains(address) by {
        if holds(longer, address) {
            let p = position(longer, address);
            if p != last {
                assert(accounts[p].address@ == address);
            }
        }
        if holds(accounts, address) {
            let p = position(accounts, address);
            assert(longer[p].address@ == address);
        }
        if address == account.address@ {
            assert(longer[last].address@ == address);
        }
    }
    assert forall|address: Seq<u8>| state_of(longer).dom().contains(address) implies state_of(
        longer,
    )[address] == state_of(accounts).insert(account.address@, account.escrow)[address] by {
        let p = position(longer, address);
        lemma_position_is_unique(longer, p);
        if p != last {
            assert(longer[p] == accounts[p]);
            lemma_position_is_unique(accounts, p);
        }
    }
    assert(state_of(longer) =~= state_of(accounts).insert(account.address@, account.escrow));
}

/// Replacing the record at a position, under the same address, replaces it
/// in the map.
proof fn lemma_update_inserts(accounts: Seq<EscrowAccount>, i: int, escrow: PaymentEscrow)
    requires
        distinct_addresses(accounts),
        0 <= i < accounts.len(),
    ensures
        distinct_addresses(
            accounts.update(i, EscrowAccount { address: accounts[i].address, escrow }),
        ),
        state_of(accounts.update(i, EscrowAccount { address: accounts[i].address, escrow }))
            == state_of(accounts).insert(accounts[i].address@, escrow),
{
    let changed = accounts.update(i, EscrowAccount { address: accounts[i].address, escrow });
    assert forall|j: int| 0 <= j < accounts.len() implies (#[trigger] changed[j]).address@
        == accounts[j].address@ by {}
    assert forall|j: int, k: int| 0 <= j < k < changed.len() implies (#[trigger] changed[j]).address@
        != (#[trigger] changed[k]).address@ by {
        assert(accounts[j].address@ != accounts[k].address@);
    }
    assert forall|address: Seq<u8>|
        state_of(changed).dom().contains(address) <==> state_of(accounts).insert(
            accounts[i].address@,
            escrow,
        ).dom().contains(address) by {
        if holds(changed, address) {
            let p = position(changed, address);
            assert(accounts[p].address@ == address);
        }
        if holds(accounts, address) {
            let p = position(accounts, address);
            assert(changed[p].address@ == address);
        }
        if address == accounts[i].address@ {
            assert(changed[i].address@ == address);
        }
    }
    assert forall|address: Seq<u8>| state_of(changed).dom().contains(address) implies state_of(
        changed,
    )[address] == state_of(accounts).insert(accounts[i].address@, escrow)[address] by {
        let p = position(changed, address);
        lemma_position_is_unique(changed, p);
        if p != i {
            assert(changed[p] == accounts[p]);
            lemma_position_is_unique(accounts, p);
        }
    }
    assert(state_of(changed) =~= state_of(accounts).insert(accounts[i].address@, escrow));
}

/// Distinct addresses make as many map entries as there are records.
proof fn lemma_state_size(accounts: Seq<EscrowAccount>)
    requires
        distinct_addresses(accounts),
    ensures
        state_of(accounts).dom().finite(),
        state_of(accounts).dom().len() == accounts.len(),
    decreases accounts.len(),
{
    if accounts.len() == 0 {
        assert(state_of(accounts).dom() =~= Set::<Seq<u8>>::empty());
    } else {
        let front = accounts.drop_last();
        let last = accounts.last();
        assert forall|i: int, j: int| 0 <= i < j < front.len() implies (#[trigger] front[i]).address@
            != (#[trigger] front[j]).address@ by {
            assert(front[i] == accounts[i] && front[j] == accounts[j]);
        }
        if holds(front, last.address@) {
            let p = position(front, last.address@);
            assert(accounts[p].address@ == accounts[accounts.len() - 1].address@);
        }
        lemma_state_size(front);
        lemma_push_inserts(front, last);
        assert(front.push(last) =~= accounts);
        assert(state_of(accounts).dom() =~= state_of(front).dom().insert(last.address@));
    }
}

impl View for EscrowLedger {
    type V = LedgerState;

    closed spec fn view(&self) -> LedgerState {
        state_of(self.accounts@)
    }
}

impl EscrowLedger {
    /// The store's invariant: no address holds two records, and every
    /// record is sound.
    pub closed spec fn wf(&self) -> bool {
        &&& distinct_addresses(self.accounts@)
        &&& forall|i: int|
            0 <= i < self.accounts.len() ==> is_sound((#[trigger] self.accounts[i]).escrow)
    }

    /// Every record of a well-formed store is sound.
    pub proof fn lemma_records_are_sound(&self)
        requires
            self.wf(),
        ensures
            sound_state(self@),
    {
        assert forall|address: Seq<u8>| #[trigger]
            self@.contains_key(address) implies is_sound(self@[address]) by {
            let p = position(self.accounts@, address);
            assert(is_sound(self.accounts[p].escrow));
        }
    }

    /// The program under whose id the store derives addresses.
    pub closed spec fn spec_program_id(&self) -> Pubkey {
        self.program_id
    }

    /// An empty store for the program `program_id`.
    pub fn new(program_id: Pubkey) -> (ledger: EscrowLedger)
        ensures
            ledger.wf(),
            ledger@ == Map::<Seq<u8>, PaymentEscrow>::empty(),
            ledger.spec_program_id() == program_id,
    {
        let ledger = EscrowLedger { program_id, accounts: Vec::new() };
        assert(ledger@ =~= Map::<Seq<u8>, PaymentEscrow>::empty());
        ledger
    }

    /// The program under whose id the store derives addresses.
    pub fn program_id(&self) -> (id: Pubkey)
        ensures
            id == self.spec_program_id(),
    {
        self.program_id
    }

    /// The number of records stored.
    pub fn len(&self) -> (n: usize)
        requires
            self.wf(),
        ensures
            self@.dom().finite(),
            n == self@.dom().len(),
    {
        proof {
            lemma_state_size(self.accounts@);
        }
        self.accounts.len()
    }

    /// The position of the record at `address`, if there is one.
    fn find(&self, address: &Pubkey) -> (found: Option<usize>)
        ensures
            match found {
                Some(i) => i < self.accounts.len() && self.accounts[i as int].address@ == address@,
                None => !holds(self.accounts@, address@),
            },
    {
        let mut i: usize = 0;
        while i < self.accounts.len()
            invariant
                i <= self.accounts.len(),
                forall|j: int| 0 <= j < i ==> (#[trigger] self.accounts[j]).address@ != address@,
            decreases self.accounts.len() - i,
        {
            proof {
                Pubkey::lemma_view_injective(self.accounts[i as int].address, *address);
            }
            if self.accounts[i].address == *address {
                return Some(i);
            }
            i += 1;
        }
        None
    }

    /// The record stored at `address`, if there is one.
    pub fn get(&self, address: &Pubkey) -> (record: Option<PaymentEscrow>)
        requires
            self.wf(),
        ensures
            record == if self@.contains_key(address@) {
                Some(self@[address@])
            } else {
                None
            },
    {
        match self.find(address) {
            Some(i) => {
                proof {
                    lemma_position_is_unique(self.accounts@, i as int);
                }
                Some(self.accounts[i].escrow)
            },
            None => None,
        }
    }

    /// Whether a record is stored at `address`.
    pub fn contains(&self, address: &Pubkey) -> (present: bool)
        ensures
            present == self@.contains_key(address@),
    {
        self.find(address).is_some()
    }

    /// Funds an escrow at `address`, whose bump seed is `bump`.
    ///
    /// Refused with `UnauthorizedGuest` when the caller is not the
    /// reservation's guest; otherwise with `AccountAlreadyExists` when a
    /// record is stored at `address`; otherwise with `InvalidTreasuryMint`
    /// when the treasury holds another asset. A refusal stores nothing.
    pub fn fund_at(
        &mut self,
        address: Pubkey,
        bump: u8,
        accounts: &InitializePaymentEscrow,
        amount: u64,
        release_date: u64,
        now: u64,
    ) -> (r: Result<TokenTransfer, LedgerError>)
        requires
            old(self).wf(),
        ensures
            final(self).wf(),
            (final(self)@, r) == spec_fund_at(
                old(self)@,
                address@,
                bump,
                *accounts,
                amount,
                release_date,
                now,
            ),
            final(self).spec_program_id() == old(self).spec_program_id(),
            r is Err ==> final(self)@ == old(self)@,
            !guest_is_authorized(*accounts) ==> r == Err::<TokenTransfer, _>(
                LedgerError::Initialize(InitializePaymentEscrowError::UnauthorizedGuest),
            ),
            r is Ok ==> !old(self)@.contains_key(address@) && final(self)@.contains_key(address@),
    {
        match authorize_guest(accounts) {
            Err(e) => {
                return Err(LedgerError::Initialize(e));
            },
            Ok(()) => {},
        }
        if self.find(&address).is_some() {
            return Err(LedgerError::AccountAlreadyExists);
        }
        match initialize_payment_escrow(accounts, bump, amount, release_date, now) {
            Err(e) => Err(LedgerError::Initialize(e)),
            Ok((escrow, transfer)) => {
                proof {
                    lemma_push_inserts(self.accounts@, EscrowAccount { address, escrow });
                }
                self.accounts.push(EscrowAccount { address, escrow });
                Ok(transfer)
            },
        }
    }

    /// Funds the escrow with sequence number `escrow_id` for the reservation
    /// in `accounts`, and returns its address with the transfer to request.
    ///
    /// Refused with `UnauthorizedGuest` when the caller is not the
    /// reservation's guest; otherwise with `AddressUnavailable` when no
    /// address can be derived; otherwise as `fund_at` at the derived address.
    pub fn fund(
        &mut self,
        accounts: &InitializePaymentEscrow,
        escrow_id: u64,
        amount: u64,
        release_date: u64,
        now: u64,
    ) -> (r: Result<(Pubkey, TokenTransfer), LedgerError>)
        requires
            old(self).wf(),
        ensures
            final(self).wf(),
            final(self).spec_program_id() == old(self).spec_program_id(),
            final(self)@ == spec_fund(
                old(self)@,
                old(self).spec_program_id(),
                *accounts,
                escrow_id,
                amount,
                release_date,
                now,
            ).0,
            match spec_fund(
                old(self)@,
                old(self).spec_program_id(),
                *accounts,
                escrow_id,
                amount,
                release_date,
                now,
            ).1 {
                Ok((address, transfer)) => r matches Ok((a, t)) && a@ == address && t == transfer,
                Err(e) => r == Err::<(Pubkey, TokenTransfer), _>(e),
            },
            r is Err ==> final(self)@ == old(self)@,
            !guest_is_authorized(*accounts) ==> r == Err::<(Pubkey, TokenTransfer), _>(
                LedgerError::Initialize(InitializePaymentEscrowError::UnauthorizedGuest),
            ),
    {
        match authorize_guest(accounts) {
            Err(e) => {
                return Err(LedgerError::Initialize(e));
            },
            Ok(()) => {},
        }
        let found = payment_escrow_address(&self.program_id, &accounts.reservation_key, escrow_id);
        match found {
            None => Err(LedgerError::AddressUnavailable),
            Some((address, bump)) => {
                match self.fund_at(address, bump, accounts, amount, release_date, now) {
                    Err(e) => Err(e),
                    Ok(transfer) => Ok((address, transfer)),
                }
            },
        }
    }

    /// Releases the escrow stored at `address` at time `now`.
    ///
    /// Refused with `AccountNotFound` when nothing is stored at `address`;
    /// otherwise as release of the stored escrow decides. On success the
    /// stored escrow becomes `Released`; a refusal changes nothing.
    pub fn release(&mut self, address: &Pubkey, accounts: &ReleasePaymentEscrow, now: u64) -> (r:
        Result<TokenTransfer, LedgerError>)
        requires
            old(self).wf(),
        ensures
            final(self).wf(),
            (final(self)@, r) == spec_release(old(self)@, address@, *accounts, now),
            final(self).spec_program_id() == old(self).spec_program_id(),
            r is Err ==> final(self)@ == old(self)@,
            final(self)@.dom() == old(self)@.dom(),
            !(r matches Err(LedgerError::Release(ReleasePaymentEscrowError::ArithmeticError(_)))),
            r matches Ok(payout) ==> Ok::<u64, ArithmeticError>(payout.amount)
                == spec_release_transfer_amount(old(self)@[address@]),
    {
        match self.find(address) {
            None => Err(LedgerError::AccountNotFound),
            Some(i) => {
                let stored = self.accounts[i].escrow;
                let stored_at = self.accounts[i].address;
                proof {
                    lemma_position_is_unique(self.accounts@, i as int);
                    lemma_sound_escrow_releases(stored, *accounts, now);
                }
                let mut escrow = stored;
                match release_payment_escrow(&mut escrow, accounts, now) {
                    Err(e) => Err(LedgerError::Release(e)),
                    Ok(transfer) => {
                        proof {
                            lemma_update_inserts(self.accounts@, i as int, escrow);
                            assert(state_of(self.accounts@).insert(address@, escrow).dom()
                                =~= state_of(self.accounts@).dom());
                        }
                        self.accounts.set(i, EscrowAccount { address: stored_at, escrow });
                        Ok(transfer)
                    },
                }
            },
        }
    }
}

/// Funding twice under the same sequence number for the same reservation
/// fails the second time, whatever else the second attempt says: the address
/// is taken. The second attempt is refused as unauthorized if its caller is
/// not the guest, and with `AccountAlreadyExists` otherwise; either way it
/// leaves the state as the first attempt left it.
pub proof fn lemma_fund_same_id_twice_fails(
    state: LedgerState,
    program_id: Pubkey,
    escrow_id: u64,
    first: InitializePaymentEscrow,
    amount: u64,
    release_date: u64,
    now: u64,
    second: InitializePaymentEscrow,
    second_amount: u64,
    second_release_date: u64,
    later: u64,
)
    requires
        spec_fund(state, program_id, first, escrow_id, amount, release_date, now).1 is Ok,
        second.reservation_key == first.reservation_key,
    ensures
        ({
            let funded = spec_fund(state, program_id, first, escrow_id, amount, release_date, now).0;
            let (after, outcome) = spec_fund(
                funded,
                program_id,
                second,
                escrow_id,
                second_amount,
                second_release_date,
                later,
            );
            &&& after == funded
            &&& outcome == Err::<(Seq<u8>, TokenTransfer), _>(
                if guest_is_authorized(second) {
                    LedgerError::AccountAlreadyExists
                } else {
                    LedgerError::Initialize(InitializePaymentEscrowError::UnauthorizedGuest)
                },
            )
        }),
{
}

/// Funding by a caller who is not the reservation's guest is refused as
/// unauthorized and creates no record, whatever the state and the address.
pub proof fn lemma_unauthorized_funding_creates_nothing(
    state: LedgerState,
    program_id: Pubkey,
    accounts: InitializePaymentEscrow,
    escrow_id: u64,
    amount: u64,
    release_date: u64,
    now: u64,
)
    requires
        accounts.reservation.guest != accounts.guest_authority,
    ensures
        spec_fund(state, program_id, accounts, escrow_id, amount, release_date, now) == (
            state,
            Err::<(Seq<u8>, TokenTransfer), _>(
                LedgerError::Initialize(InitializePaymentEscrowError::UnauthorizedGuest),
            ),
        ),
{
}

/// A stored escrow is released at most once: after a successful release,
/// every further release of the same address is refused with
/// `EscrowNotFunded` and changes nothing.
pub proof fn lemma_stored_escrow_releases_once(
    state: LedgerState,
    address: Seq<u8>,
    accounts: ReleasePaymentEscrow,
    now: u64,
    again: ReleasePaymentEscrow,
    later: u64,
)
    requires
        spec_release(state, address, accounts, now).1 is Ok,
    ensures
        ({
            let paid = spec_release(state, address, accounts, now).0;
            spec_release(paid, address, again, later) == (
                paid,
                Err::<TokenTransfer, _>(
                    LedgerError::Release(ReleasePaymentEscrowError::EscrowNotFunded),
                ),
            )
        }),
{
}

/// Releasing a stored escrow that is not `Funded` is refused with
/// `EscrowNotFunded`, at any time and whoever asks.
pub proof fn lemma_release_needs_funded(
    state: LedgerState,
    address: Seq<u8>,
    accounts: ReleasePaymentEscrow,
    now: u64,
)
    requires
        state.contains_key(address),
        state[address].status != EscrowStatus::Funded,
    ensures
        spec_release(state, address, accounts, now) == (
            state,
            Err::<TokenTransfer, _>(
                LedgerError::Release(ReleasePaymentEscrowError::EscrowNotFunded),
            ),
        ),
{
}

/// No operation deletes a record or touches the record at another address,
/// and release changes nothing of a record but its status.
pub proof fn lemma_records_persist(
    state: LedgerState,
    address: Seq<u8>,
    bump: u8,
    funding: InitializePaymentEscrow,
    amount: u64,
    release_date: u64,
    accounts: ReleasePaymentEscrow,
    now: u64,
    other: Seq<u8>,
)
    requires
        state.contains_key(other),
    ensures
        ({
            let funded = spec_fund_at(state, address, bump, funding, amount, release_date, now).0;
            let paid = spec_release(state, address, accounts, now).0;
            &&& funded.contains_key(other)
            &&& funded[other] == state[other]
            &&& paid.contains_key(other)
            &&& other != address ==> paid[other] == state[other]
            &&& paid[other] == state[other] || paid[other] == released(state[other])
        }),
{
}

/// The whole lifecycle: an escrow funded for release at `release_date` is
/// stored `Funded` with its fee; before the release date its release is
/// refused with `ReleaseNotYetAllowed` and it stays `Funded`; from the release
/// date on, with the treasury holding the payment asset, it is released, and
/// the payout from the treasury to the holding account given for the host is
/// the escrowed amount, or one unit more when the amount is one short of a
/// multiple of 20.
pub proof fn lemma_fund_then_release(
    state: LedgerState,
    address: Seq<u8>,
    bump: u8,
    funding: InitializePaymentEscrow,
    amount: u64,
    release_date: u64,
    funded_at: u64,
    accounts: ReleasePaymentEscrow,
    now: u64,
)
    requires
        spec_fund_at(state, address, bump, funding, amount, release_date, funded_at).1 is Ok,
    ensures
        ({
            let funded = spec_fund_at(
                state,
                address,
                bump,
                funding,
                amount,
                release_date,
                funded_at,
            ).0;
            let (after, outcome) = spec_release(funded, address, accounts, now);
            &&& funded[address].status == EscrowStatus::Funded
            &&& funded[address].platform_fee == spec_platform_fee(amount as nat)
            &&& now < release_date ==> after == funded && outcome == Err::<TokenTransfer, _>(
                LedgerError::Release(ReleasePaymentEscrowError::ReleaseNotYetAllowed),
            )
            &&& now >= release_date && accounts.platform_treasury.mint == accounts.mint ==> {
                &&& outcome matches Ok(payout)
                &&& payout.amount == if amount % 20 == 19 {
                    amount + 1
                } else {
                    amount as int
                }
                &&& payout.from == accounts.platform_treasury.key
                &&& payout.to == accounts.host_token_account.key
                &&& after[address] == released(funded[address])
            }
        }),
{
    let funded = spec_fund_at(state, address, bump, funding, amount, release_date, funded_at).0;
    lemma_lifecycle_keeps_escrows_sound(
        funding,
        bump,
        amount,
        release_date,
        funded_at,
        funded[address],
    );
    lemma_sound_escrow_releases(funded[address], accounts, now);
}

/// Funding and release keep every record sound: fees stay the platform fees
/// of their amounts, and no record enters a reserved state. On a sound state,
/// release is therefore never refused for its arithmetic.
pub proof fn lemma_operations_keep_state_sound(
    state: LedgerState,
    address: Seq<u8>,
    bump: u8,
    funding: InitializePaymentEscrow,
    amount: u64,
    release_date: u64,
    accounts: ReleasePaymentEscrow,
    now: u64,
)
    requires
        sound_state(state),
    ensures
        sound_state(spec_fund_at(state, address, bump, funding, amount, release_date, now).0),
        sound_state(spec_release(state, address, accounts, now).0),
        !(spec_release(state, address, accounts, now).1 matches Err(
            LedgerError::Release(ReleasePaymentEscrowError::ArithmeticError(_)),
        )),
{
    if state.contains_key(address) {
        lemma_lifecycle_keeps_escrows_sound(
            funding,
            bump,
            amount,
            release_date,
            now,
            state[address],
        );
        lemma_sound_escrow_releases(state[address], accounts, now);
    } else {
        lemma_lifecycle_keeps_escrows_sound(
            funding,
            bump,
            amount,
            release_date,
            now,
            funded_escrow(funding, bump, amount, release_date, now),
        );
    }
    let funded = spec_fund_at(state, address, bump, funding, amount, release_date, now).0;
    assert forall|other: Seq<u8>| #[trigger] funded.contains_key(other) implies is_sound(
        funded[other],
    ) by {
        if other != address {
            assert(state.contains_key(other));
        }
    }
    let paid = spec_release(state, address, accounts, now).0;
    assert forall|other: Seq<u8>| #[trigger] paid.contains_key(other) implies is_sound(
        paid[other],
    ) by {
        assert(state.contains_key(other));
    }
}

} // verus!
