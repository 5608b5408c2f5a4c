use vstd::prelude::*;

use crate::ids::{bytes_eq, AccountId, EscrowId};

verus! {

/// The terms and the funds of one rental agreement.
#[derive(Clone, Copy, Debug)]
pub struct Escrow {
    pub renter: AccountId,
    pub landlord: AccountId,
    pub rent_amount: u128,
    pub lease_duration: u64,
    pub lease_start_time: u64,
    pub escrow_balance: u128,
    pub is_leased: bool,
}

/// Why an operation on an escrow was refused.
#[derive(Clone, Copy, Debug, PartialEq, Eq, Structural)]
pub enum EscrowError {
    NotFound,
    InvalidState,
    Unauthorized,
    InsufficientPayment,
    LeaseNotExpired,
    Overflow,
    TransferFailed,
}

/// What a lookup of `id` in the store modelled by `m` gives.
pub open spec fn lookup(m: Map<Seq<u8>, Escrow>, id: Seq<u8>) -> Result<Escrow, EscrowError> {
    if m.contains_key(id) {
        Ok(m[id])
    } else {
        Err(EscrowError::NotFound)
    }
}

/// The escrow records, at most one per identifier.
pub struct EscrowStore {
    entries: Vec<(EscrowId, Escrow)>,
    contents: Ghost<Map<Seq<u8>, Escrow>>,
}

impl View for EscrowStore {
    type V = Map<Seq<u8>, Escrow>;

    closed spec fn view(&self) -> Map<Seq<u8>, Escrow> {
        self.contents@
    }
}

impl EscrowStore {
    /// The entries hold exactly the map, each identifier once.
    pub closed spec fn wf(&self) -> bool {
        &&& forall|i: int|
            0 <= i < self.entries@.len() ==> {
                &&& self.contents@.contains_key(#[trigger] self.entries@[i].0@)
                &&& self.contents@[self.entries@[i].0@] == self.entries@[i].1
            }
        &&& forall|i: int, j: int|
            0 <= i < j < self.entries@.len() ==> #[trigger] self.entries@[i].0@
                != #[trigger] self.entries@[j].0@
        &&& forall|k: Seq<u8>|
            #[trigger] self.contents@.contains_key(k) ==> exists|i: int|
                0 <= i < self.entries@.len() && #[trigger] self.entries@[i].0@ == k
    }

    pub fn new() -> (r: EscrowStore)
        ensures
            r.wf(),
            r@ == Map::<Seq<u8>, Escrow>::empty(),
    {
        EscrowStore { entries: Vec::new(), contents: Ghost(Map::empty()) }
    }

    fn find(&self, id: &EscrowId) -> (r: Option<usize>)
        requires
            self.wf(),
        ensures
            match r {
                Some(i) => i < self.entries@.len() && self.entries@[i as int].0@ == id@,
                None => !self@.contains_key(id@),
            },
    {
        let mut i: usize = 0;
        while i < self.entries.len()
            invariant
                self.wf(),
                i <= self.entries@.len(),
                forall|j: int| 0 <= j < i ==> self.entries@[j].0@ != id@,
            decreases self.entries@.len() - i,
        {
            if bytes_eq(&self.entries[i].0.0, &id.0) {
                return Some(i);
            }
            i += 1;
        }
        None
    }

    /// Whether a record is stored under `id`.
    pub fn contains(&self, id: &EscrowId) -> (r: bool)
        requires
            self.wf(),
        ensures
            r == self@.contains_key(id@),
    {
        match self.find(id) {
            Some(_) => true,
            None => false,
        }
    }

    /// Stores `record` under `id`, replacing what was there.
    pub fn create(&mut self, id: EscrowId, record: Escrow)
        requires
            old(self).wf(),
        ensures
            final(self).wf(),
            final(self)@ == old(self)@.insert(id@, record),
    {
        match self.find(&id) {
            Some(i) => {
                self.entries.set(i, (id, record));
                proof {
                    self.contents@ = self.contents@.insert(id@, record);
                }
                assert forall|k: Seq<u8>| #[trigger] self.contents@.contains_key(k) implies exists|
                    j: int,
                |
                    0 <= j < self.entries@.len() && #[trigger] self.entries@[j].0@ == k by {
                    if k == id@ {
                        assert(self.entries@[i as int].0@ == k);
                    } else {
                        assert(old(self).contents@.contains_key(k));
                        let j = choose|j: int|
                            0 <= j < old(self).entries@.len() && #[trigger] old(
                                self,
                            ).entries@[j].0@ == k;
                        assert(self.entries@[j].0@ == k);
                    }
                }
            },
            None => {
                self.entries.push((id, record));
                proof {
                    self.contents@ = self.contents@.insert(id@, record);
                }
                assert forall|k: Seq<u8>| #[trigger] self.contents@.contains_key(k) implies exists|
                    j: int,
                |
                    0 <= j < self.entries@.len() && #[trigger] self.entries@[j].0@ == k by {
                    if k == id@ {
                        assert(self.entries@[old(self).entries@.len() as int].0@ == k);
                    } else {
                        assert(old(self).contents@.contains_key(k));
                        let j = choose|j: int|
                            0 <= j < old(self).entries@.len() && #[trigger] old(
                                self,
                            ).entries@[j].0@ == k;
                        assert(self.entries@[j].0@ == k);
                    }
                }
            },
        }
    }

    /// The record stored under `id`, or `NotFound`.
    pub fn get_or_fail(&self, id: &EscrowId) -> (r: Result<Escrow, EscrowError>)
        requires
            self.wf(),
        ensures
            r == lookup(self@, id@),
    {
        match self.find(id) {
            Some(i) => Ok(self.entries[i].1),
            None => Err(EscrowError::NotFound),
        }
    }

    /// Replaces the record stored under `id`; `NotFound` where there is none.
    pub fn put(&mut self, id: EscrowId, record: Escrow) -> (r: Result<(), EscrowError>)
        requires
            old(self).wf(),
        ensures
            final(self).wf(),
            r is Ok <==> old(self)@.contains_key(id@),
            r is Ok ==> final(self)@ == old(self)@.insert(id@, record),
            r is Err ==> r == Err::<(), EscrowError>(EscrowError::NotFound) && final(self)@ == old(
                self,
            )@,
    {
        if self.contains(&id) {
            self.create(id, record);
            Ok(())
        } else {
            Err(EscrowError::NotFound)
        }
    }

    /// Deletes the record stored under `id`, handing it back if there was one.
    pub fn remove(&mut self, id: &EscrowId) -> (r: Option<Escrow>)
        requires
            old(self).wf(),
        ensures
            final(self).wf(),
            final(self)@ == old(self)@.remove(id@),
            r == (if old(self)@.contains_key(id@) {
                Some(old(self)@[id@])
            } else {
                None::<Escrow>
            }),
    {
        match self.find(id) {
            None => {
                assert(self@ =~= old(self)@.remove(id@));
                None
            },
            Some(i) => {
                let (_, record) = self.entries.swap_remove(i);
                proof {
                    self.contents@ = self.contents@.remove(id@);
                }
                let ghost last = old(self).entries@.len() - 1;
                assert forall|j: int| 0 <= j < self.entries@.len() implies #[trigger] self.entries@[
                    j
                ].0@ != id@ && (j == i ==> self.entries@[j] == old(self).entries@[last]) && (j
                    != i ==> self.entries@[j] == old(self).entries@[j]) by {
                    if j == i {
                        assert(self.entries@[j] == old(self).entries@[last]);
                    }
                }
                assert forall|k: Seq<u8>| #[trigger] self.contents@.contains_key(k) implies exists|
                    j: int,
                |
                    0 <= j < self.entries@.len() && #[trigger] self.entries@[j].0@ == k by {
                    assert(old(self).contents@.contains_key(k));
                    let j = choose|j: int|
                        0 <= j < old(self).entries@.len() && #[trigger] old(
                            self,
                        ).entries@[j].0@ == k;
                    if j == last {
                        assert(self.entries@[i as int].0@ == k);
                    } else {
                        assert(self.entries@[j].0@ == k);
                    }
                }
                Some(record)
            },
        }
    }
}

} // verus!
