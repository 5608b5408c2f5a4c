use vstd::prelude::*;

use crate::contract::{
    cancel_check, end_check, pay_step, rent_step, step_outcome, terminal_outcome,
};
use crate::ids::AccountId;
use crate::store::{lookup, Escrow, EscrowError};

verus! {

/// Sum of a sequence of payments.
pub open spec fn total(values: Seq<u128>) -> int
    decreases values.len(),
{
    if values.len() == 0 {
        0
    } else {
        total(values.drop_last()) + values.last()
    }
}

/// The store after paying each of `values` in turn into escrow `id`, or the
/// first error met.
pub open spec fn pay_all(
    s: Map<Seq<u8>, Escrow>,
    id: Seq<u8>,
    caller: Seq<u8>,
    values: Seq<u128>,
) -> Result<Map<Seq<u8>, Escrow>, EscrowError>
    decreases values.len(),
{
    if values.len() == 0 {
        Ok(s)
    } else {
        match pay_all(s, id, caller, values.drop_last()) {
            Ok(m) => match pay_step(m, id, caller, values.last()) {
                Ok(e) => Ok(m.insert(id, e)),
                Err(err) => Err(err),
            },
            Err(err) => Err(err),
        }
    }
}

/// An identifier that was never written, or that was removed, is not found.
pub proof fn law_absent_not_found(s: Map<Seq<u8>, Escrow>, id: Seq<u8>)
    ensures
        lookup(Map::empty(), id) == Err::<Escrow, EscrowError>(EscrowError::NotFound),
        lookup(s.remove(id), id) == Err::<Escrow, EscrowError>(EscrowError::NotFound),
{
}

/// Once `rent` has succeeded on an escrow, every later `rent` on it fails
/// with `InvalidState`.
pub proof fn law_single_activation(
    s: Map<Seq<u8>, Escrow>,
    after: Map<Seq<u8>, Escrow>,
    id: Seq<u8>,
    caller: Seq<u8>,
    now: u64,
    r: Result<(), EscrowError>,
    later_caller: Seq<u8>,
    later: u64,
)
    requires
        step_outcome(rent_step(s, id, caller, now), s, after, id, r),
        r is Ok,
    ensures
        rent_step(after, id, later_caller, later) == Err::<Escrow, EscrowError>(
            EscrowError::InvalidState,
        ),
{
}

/// Only the renter can rent or pay, and only the landlord can end or cancel;
/// once the escrow exists and is in the right state, anyone else is refused
/// with `Unauthorized`.
pub proof fn law_authorization(
    s: Map<Seq<u8>, Escrow>,
    id: Seq<u8>,
    caller: Seq<u8>,
    now: u64,
    value: u128,
)
    ensures
        rent_step(s, id, caller, now) is Ok ==> caller == s[id].renter@,
        pay_step(s, id, caller, value) is Ok ==> caller == s[id].renter@,
        end_check(s, id, caller, now) is Ok ==> caller == s[id].landlord@,
        cancel_check(s, id, caller) is Ok ==> caller == s[id].landlord@,
        s.contains_key(id) && caller != s[id].renter@ ==> {
            &&& !s[id].is_leased ==> rent_step(s, id, caller, now) == Err::<Escrow, EscrowError>(
                EscrowError::Unauthorized,
            )
            &&& s[id].is_leased ==> pay_step(s, id, caller, value) == Err::<Escrow, EscrowError>(
                EscrowError::Unauthorized,
            )
        },
        s.contains_key(id) && caller != s[id].landlord@ ==> {
            &&& s[id].is_leased ==> end_check(s, id, caller, now) == Err::<Escrow, EscrowError>(
                EscrowError::Unauthorized,
            )
            &&& !s[id].is_leased ==> cancel_check(s, id, caller) == Err::<Escrow, EscrowError>(
                EscrowError::Unauthorized,
            )
        },
{
}

/// A payment below the rent, by the renter of a leased escrow, fails with
/// `InsufficientPayment` and leaves the balance as it was.
pub proof fn law_payment_floor(
    s: Map<Seq<u8>, Escrow>,
    after: Map<Seq<u8>, Escrow>,
    id: Seq<u8>,
    caller: Seq<u8>,
    value: u128,
    r: Result<(), EscrowError>,
)
    requires
        s.contains_key(id),
        s[id].is_leased,
        caller == s[id].renter@,
        value < s[id].rent_amount,
        step_outcome(pay_step(s, id, caller, value), s, after, id, r),
    ensures
        r == Err::<(), EscrowError>(EscrowError::InsufficientPayment),
        after.contains_key(id),
        after[id].escrow_balance == s[id].escrow_balance,
{
}

/// After a run of successful payments into an escrow, its balance has grown
/// by exactly their sum.
pub proof fn law_accumulation(
    s: Map<Seq<u8>, Escrow>,
    id: Seq<u8>,
    caller: Seq<u8>,
    values: Seq<u128>,
)
    requires
        s.contains_key(id),
        pay_all(s, id, caller, values) is Ok,
    ensures
        ({
            let m = pay_all(s, id, caller, values)->Ok_0;
            &&& m.contains_key(id)
            &&& m[id].escrow_balance == s[id].escrow_balance + total(values)
            &&& m[id].rent_amount == s[id].rent_amount
            &&& m[id].lease_duration == s[id].lease_duration
        }),
    decreases values.len(),
{
    if values.len() > 0 {
        law_accumulation(s, id, caller, values.drop_last());
    }
}

/// For the landlord of a leased escrow, ending the lease is refused with
/// `LeaseNotExpired` exactly while `now` is before its start plus its duration.
pub proof fn law_time_gate(s: Map<Seq<u8>, Escrow>, id: Seq<u8>, caller: Seq<u8>, now: u64)
    requires
        s.contains_key(id),
        s[id].is_leased,
        caller == s[id].landlord@,
    ensures
        now < s[id].lease_start_time + s[id].lease_duration ==> end_check(s, id, caller, now)
            == Err::<Escrow, EscrowError>(EscrowError::LeaseNotExpired),
        now >= s[id].lease_start_time + s[id].lease_duration ==> end_check(s, id, caller, now)
            == Ok::<Escrow, EscrowError>(s[id]),
{
}

/// After `lease_ended` or `cancel_lease` succeeds, the escrow is gone and the
/// amount paid to the landlord is the balance it held before the call.
pub proof fn law_terminal_cleanup<F: FnOnce(AccountId, u128) -> bool>(
    check: Result<Escrow, EscrowError>,
    transfer: F,
    caller: AccountId,
    before: Map<Seq<u8>, Escrow>,
    after: Map<Seq<u8>, Escrow>,
    id: Seq<u8>,
    now: u64,
    r: Result<u128, EscrowError>,
)
    requires
        check == end_check(before, id, caller@, now) || check == cancel_check(
            before,
            id,
            caller@,
        ),
        terminal_outcome(check, transfer, caller, before, after, id, r),
        r is Ok,
    ensures
        lookup(after, id) == Err::<Escrow, EscrowError>(EscrowError::NotFound),
        r == Ok::<u128, EscrowError>(before[id].escrow_balance),
        transfer.ensures((caller, before[id].escrow_balance), true),
{
}

} // verus!
