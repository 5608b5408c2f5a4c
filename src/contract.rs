use vstd::prelude::*;

use crate::ids::{AccountId, EscrowId};
use crate::store::{lookup, Escrow, EscrowError, EscrowStore};

verus! {

/// The record a new escrow starts from: `renter` owes rent to `landlord`.
pub open spec fn fresh_escrow(
    renter: AccountId,
    landlord: AccountId,
    rent_amount: u128,
    lease_duration: u64,
) -> Escrow {
    Escrow {
        renter,
        landlord,
        rent_amount,
        lease_duration,
        lease_start_time: 0,
        escrow_balance: 0,
        is_leased: false,
    }
}

/// What `rent` by `caller` at time `now` makes of the escrow `id`.
pub open spec fn rent_step(
    s: Map<Seq<u8>, Escrow>,
    id: Seq<u8>,
    caller: Seq<u8>,
    now: u64,
) -> Result<Escrow, EscrowError> {
    if !s.contains_key(id) {
        Err(EscrowError::NotFound)
    } else if s[id].is_leased {
        Err(EscrowError::InvalidState)
    } else if caller != s[id].renter@ {
        Err(EscrowError::Unauthorized)
    } else {
        Ok(Escrow { lease_start_time: now, is_leased: true, ..s[id] })
    }
}

/// What a payment of `value` by `caller` makes of the escrow `id`.
pub open spec fn pay_step(
    s: Map<Seq<u8>, Escrow>,
    id: Seq<u8>,
    caller: Seq<u8>,
    value: u128,
) -> Result<Escrow, EscrowError> {
    if !s.contains_key(id) {
        Err(EscrowError::NotFound)
    } else if !s[id].is_leased {
        Err(EscrowError::InvalidState)
    } else if caller != s[id].renter@ {
        Err(EscrowError::Unauthorized)
    } else if value < s[id].rent_amount {
        Err(EscrowError::InsufficientPayment)
    } else if s[id].escrow_balance + value > u128::MAX {
        Err(EscrowError::Overflow)
    } else {
        Ok(Escrow { escrow_balance: (s[id].escrow_balance + value) as u128, ..s[id] })
    }
}

/// Whether `caller` may end the lease of escrow `id` at time `now`; the record
/// to be paid out if so.
pub open spec fn end_check(
    s: Map<Seq<u8>, Escrow>,
    id: Seq<u8>,
    caller: Seq<u8>,
    now: u64,
) -> Result<Escrow, EscrowError> {
    if !s.contains_key(id) {
        Err(EscrowError::NotFound)
    } else if !s[id].is_leased {
        Err(EscrowError::InvalidState)
    } else if caller != s[id].landlord@ {
        Err(EscrowError::Unauthorized)
    } else if now < s[id].lease_start_time + s[id].lease_duration {
        Err(EscrowError::LeaseNotExpired)
    } else {
        Ok(s[id])
    }
}

/// Whether `caller` may cancel escrow `id`; the record to be paid out if so.
pub open spec fn cancel_check(s: Map<Seq<u8>, Escrow>, id: Seq<u8>, caller: Seq<u8>) -> Result<
    Escrow,
    EscrowError,
> {
    if !s.contains_key(id) {
        Err(EscrowError::NotFound)
    } else if s[id].is_leased {
        Err(EscrowError::InvalidState)
    } else if caller != s[id].landlord@ {
        Err(EscrowError::Unauthorized)
    } else {
        Ok(s[id])
    }
}

/// An update of escrow `id` from `before` to `after` that answered `r`: the
/// computed record is stored, or the error is returned and nothing changes.
pub open spec fn step_outcome(
    step: Result<Escrow, EscrowError>,
    before: Map<Seq<u8>, Escrow>,
    after: Map<Seq<u8>, Escrow>,
    id: Seq<u8>,
    r: Result<(), EscrowError>,
) -> bool {
    match step {
        Ok(e) => r is Ok && after == before.insert(id, e),
        Err(err) => r == Err::<(), EscrowError>(err) && after == before,
    }
}

/// A payout of `amount` to `to` through `transfer`: where the transfer
/// reported success the escrow `id` is gone and the amount is returned; where
/// it reported failure nothing changes and `TransferFailed` is returned.
pub open spec fn released<F: FnOnce(AccountId, u128) -> bool>(
    transfer: F,
    to: AccountId,
    amount: u128,
    before: Map<Seq<u8>, Escrow>,
    after: Map<Seq<u8>, Escrow>,
    id: Seq<u8>,
    r: Result<u128, EscrowError>,
) -> bool {
    ||| {
        &&& r == Ok::<u128, EscrowError>(amount)
        &&& transfer.ensures((to, amount), true)
        &&& after == before.remove(id)
    }
    ||| {
        &&& r == Err::<u128, EscrowError>(EscrowError::TransferFailed)
        &&& transfer.ensures((to, amount), false)
        &&& after == before
    }
}

/// A terminal operation by `caller` on escrow `id` that answered `r`: where the
/// check passed, the checked record's whole balance was paid out to `caller`;
/// where it failed, its error is returned and nothing changes.
pub open spec fn terminal_outcome<F: FnOnce(AccountId, u128) -> bool>(
    check: Result<Escrow, EscrowError>,
    transfer: F,
    caller: AccountId,
    before: Map<Seq<u8>, Escrow>,
    after: Map<Seq<u8>, Escrow>,
    id: Seq<u8>,
    r: Result<u128, EscrowError>,
) -> bool {
    match check {
        Ok(e) => released(transfer, caller, e.escrow_balance, before, after, id, r),
        Err(err) => r == Err::<u128, EscrowError>(err) && after == before,
    }
}

/// Fails `InvalidState` where the lease has already started.
pub fn ensure_escrow_not_leased(escrow: &Escrow) -> (r: Result<(), EscrowError>)
    ensures
        r == (if escrow.is_leased {
            Err(EscrowError::InvalidState)
        } else {
            Ok(())
        }),
{
    if escrow.is_leased {
        Err(EscrowError::InvalidState)
    } else {
        Ok(())
    }
}

/// Fails `InvalidState` where the lease has not started.
pub fn ensure_escrow_leased(escrow: &Escrow) -> (r: Result<(), EscrowError>)
    ensures
        r == (if escrow.is_leased {
            Ok(())
        } else {
            Err(EscrowError::InvalidState)
        }),
{
    if escrow.is_leased {
        Ok(())
    } else {
        Err(EscrowError::InvalidState)
    }
}

/// Fails `Unauthorized` unless `caller` is the renter.
pub fn ensure_caller_is_renter(escrow: &Escrow, caller: &AccountId) -> (r: Result<(), EscrowError>)
    ensures
        r == (if caller@ == escrow.renter@ {
            Ok(())
        } else {
            Err(EscrowError::Unauthorized)
        }),
{
    if *caller == escrow.renter {
        Ok(())
    } else {
        Err(EscrowError::Unauthorized)
    }
}

/// Fails `Unauthorized` unless `caller` is the landlord.
pub fn ensure_caller_is_landlord(escrow: &Escrow, caller: &AccountId) -> (r: Result<
    (),
    EscrowError,
>)
    ensures
        r == (if caller@ == escrow.landlord@ {
            Ok(())
        } else {
            Err(EscrowError::Unauthorized)
        }),
{
    if *caller == escrow.landlord {
        Ok(())
    } else {
        Err(EscrowError::Unauthorized)
    }
}

/// Fails `InsufficientPayment` where `value` is below the rent.
pub fn ensure_rent_amount_paid(escrow: &Escrow, value: u128) -> (r: Result<(), EscrowError>)
    ensures
        r == (if value >= escrow.rent_amount {
            Ok(())
        } else {
            Err(EscrowError::InsufficientPayment)
        }),
{
    if value >= escrow.rent_amount {
        Ok(())
    } else {
        Err(EscrowError::InsufficientPayment)
    }
}

/// Fails `LeaseNotExpired` while `now` is before the end of the lease; the end
/// itself counts as passed.
pub fn ensure_lease_duration_passed(escrow: &Escrow, now: u64) -> (r: Result<(), EscrowError>)
    ensures
        r == (if now >= escrow.lease_start_time + escrow.lease_duration {
            Ok(())
        } else {
            Err(EscrowError::LeaseNotExpired)
        }),
{
    let end: u128 = escrow.lease_start_time as u128 + escrow.lease_duration as u128;
    if now as u128 >= end {
        Ok(())
    } else {
        Err(EscrowError::LeaseNotExpired)
    }
}

/// The escrow book: every live rental agreement, by identifier.
pub struct MyPSP34 {
    escrows: EscrowStore,
}

impl View for MyPSP34 {
    type V = Map<Seq<u8>, Escrow>;

    closed spec fn view(&self) -> Map<Seq<u8>, Escrow> {
        self.escrows@
    }
}

impl MyPSP34 {
    /// The book's store is well formed.
    pub closed spec fn wf(&self) -> bool {
        self.escrows.wf()
    }

    pub fn new() -> (r: MyPSP34)
        ensures
            r.wf(),
            r@ == Map::<Seq<u8>, Escrow>::empty(),
    {
        MyPSP34 { escrows: EscrowStore::new() }
    }

    /// Opens an escrow under `escrow_id` with `caller` as renter, replacing
    /// any escrow stored there.
    pub fn create_escrow(
        &mut self,
        escrow_id: EscrowId,
        caller: AccountId,
        landlord: AccountId,
        rent_amount: u128,
        lease_duration: u64,
    )
        requires
            old(self).wf(),
        ensures
            final(self).wf(),
            final(self)@ == old(self)@.insert(
                escrow_id@,
                fresh_escrow(caller, landlord, rent_amount, lease_duration),
            ),
    {
        let escrow = Escrow {
            renter: caller,
            landlord,
            rent_amount,
            lease_duration,
            lease_start_time: 0,
            escrow_balance: 0,
            is_leased: false,
        };
        self.escrows.create(escrow_id, escrow);
    }

    /// The escrow stored under `escrow_id`, or `NotFound`.
    pub fn get_escrow_or_revert(&self, escrow_id: EscrowId) -> (r: Result<Escrow, EscrowError>)
        requires
            self.wf(),
        ensures
            r == lookup(self@, escrow_id@),
    {
        self.escrows.get_or_fail(&escrow_id)
    }

    /// The renter starts the lease at time `now`.
    pub fn rent(&mut self, escrow_id: EscrowId, caller: AccountId, now: u64) -> (r: Result<
        (),
        EscrowError,
    >)
        requires
            old(self).wf(),
        ensures
            final(self).wf(),
            step_outcome(
                rent_step(old(self)@, escrow_id@, caller@, now),
                old(self)@,
                final(self)@,
                escrow_id@,
                r,
            ),
    {
        let mut escrow = self.escrows.get_or_fail(&escrow_id)?;
        ensure_escrow_not_leased(&escrow)?;
        ensure_caller_is_renter(&escrow, &caller)?;
        escrow.lease_start_time = now;
        escrow.is_leased = true;
        self.escrows.create(escrow_id, escrow);
        Ok(())
    }

    /// The renter pays `value` into the escrow; any amount from the rent up
    /// is accepted and kept in full.
    pub fn pay_rent(&mut self, escrow_id: EscrowId, caller: AccountId, value: u128) -> (r: Result<
        (),
        EscrowError,
    >)
        requires
            old(self).wf(),
        ensures
            final(self).wf(),
            step_outcome(
                pay_step(old(self)@, escrow_id@, caller@, value),
                old(self)@,
                final(self)@,
                escrow_id@,
                r,
            ),
    {
        let mut escrow = self.escrows.get_or_fail(&escrow_id)?;
        ensure_escrow_leased(&escrow)?;
        ensure_caller_is_renter(&escrow, &caller)?;
        ensure_rent_amount_paid(&escrow, value)?;
        match escrow.escrow_balance.checked_add(value) {
            Some(b) => {
                escrow.escrow_balance = b;
            },
            None => {
                return Err(EscrowError::Overflow);
            },
        }
        self.escrows.create(escrow_id, escrow);
        Ok(())
    }

    /// Pays the balance of a checked escrow to `to` through `transfer`, and
    /// deletes the escrow only where the transfer went through.
    fn release<F: FnOnce(AccountId, u128) -> bool>(
        &mut self,
        escrow_id: EscrowId,
        to: AccountId,
        balance: u128,
        transfer: F,
    ) -> (r: Result<u128, EscrowError>)
        requires
            old(self).wf(),
            old(self)@.contains_key(escrow_id@),
            transfer.requires((to, balance)),
        ensures
            final(self).wf(),
            released(transfer, to, balance, old(self)@, final(self)@, escrow_id@, r),
    {
        if transfer(to, balance) {
            self.escrows.remove(&escrow_id);
            Ok(balance)
        } else {
            Err(EscrowError::TransferFailed)
        }
    }

    /// The landlord closes an escrow whose lease has run, at time `now`: the
    /// balance goes to the landlord through `transfer`, then the escrow is
    /// deleted. Returns the amount paid out.
    pub fn lease_ended<F: FnOnce(AccountId, u128) -> bool>(
        &mut self,
        escrow_id: EscrowId,
        caller: AccountId,
        now: u64,
        transfer: F,
    ) -> (r: Result<u128, EscrowError>)
        requires
            old(self).wf(),
            forall|to: AccountId, amount: u128| transfer.requires((to, amount)),
        ensures
            final(self).wf(),
            terminal_outcome(
                end_check(old(self)@, escrow_id@, caller@, now),
                transfer,
                caller,
                old(self)@,
                final(self)@,
                escrow_id@,
                r,
            ),
    {
        let escrow = self.escrows.get_or_fail(&escrow_id)?;
        ensure_escrow_leased(&escrow)?;
        ensure_caller_is_landlord(&escrow, &caller)?;
        ensure_lease_duration_passed(&escrow, now)?;
        self.release(escrow_id, caller, escrow.escrow_balance, transfer)
    }

    /// The landlord withdraws an escrow whose lease never started: the balance
    /// goes to the landlord through `transfer`, then the escrow is deleted.
    /// Returns the amount paid out.
    pub fn cancel_lease<F: FnOnce(AccountId, u128) -> bool>(
        &mut self,
        escrow_id: EscrowId,
        caller: AccountId,
        transfer: F,
    ) -> (r: Result<u128, EscrowError>)
        requires
            old(self).wf(),
            forall|to: AccountId, amount: u128| transfer.requires((to, amount)),
        ensures
            final(self).wf(),
            terminal_outcome(
                cancel_check(old(self)@, escrow_id@, caller@),
                transfer,
                caller,
                old(self)@,
                final(self)@,
                escrow_id@,
                r,
            ),
    {
        let escrow = self.escrows.get_or_fail(&escrow_id)?;
        ensure_escrow_not_leased(&escrow)?;
        ensure_caller_is_landlord(&escrow, &caller)?;
        self.release(escrow_id, caller, escrow.escrow_balance, transfer)
    }
}

} // verus!
