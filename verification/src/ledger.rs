//! The bet ledger: an insertion-ordered mapping from bet identifier to bet
//! record. Entries are created on successful validation and never mutated
//! or deleted; identifiers are unique.

use crate::Bet;
use crate::BetError;
use vstd::prelude::*;

verus! {

/// One ledger entry: a bet under its identifier.
#[derive(Clone, Debug, PartialEq, Eq)]
pub struct LedgerEntry {
    pub id: String,
    pub bet: Bet,
}

/// Insertion-ordered ledger of placed bets, keyed by identifier.
#[derive(Clone, Debug, PartialEq, Eq)]
pub struct BetLedger {
    pub entries: Vec<LedgerEntry>,
}

impl BetLedger {
    /// Key-uniqueness invariant: no two entries share an identifier.
    pub open spec fn wf(self) -> bool {
        forall|i: int, j: int|
            0 <= i < j < self.entries@.len() ==> self.entries@[i].id@ != self.entries@[j].id@
    }

    /// Whether some entry is stored under `id`.
    pub open spec fn spec_contains_id(self, id: Seq<char>) -> bool {
        exists|i: int| 0 <= i < self.entries@.len() && self.entries@[i].id@ == id
    }

    /// An empty ledger.
    pub fn new() -> (r: BetLedger)
        ensures
            r.entries@.len() == 0,
            r.wf(),
    {
        BetLedger { entries: Vec::new() }
    }

    /// Number of stored bets.
    pub fn len(&self) -> (r: usize)
        ensures
            r == self.entries@.len(),
    {
        self.entries.len()
    }

    /// Whether a bet is already stored under `id`.
    pub fn contains_id(&self, id: &String) -> (r: bool)
        ensures
            r == self.spec_contains_id(id@),
    {
        let n = self.entries.len();
        for i in 0..n
            invariant
                n == self.entries@.len(),
                forall|j: int| 0 <= j < i ==> self.entries@[j].id@ != id@,
        {
            if self.entries[i].id == *id {
                return true;
            }
        }
        false
    }

    /// Records a bet under `id`.
    ///
    /// Fails with `DuplicateId`, leaving the ledger unchanged, when `id` is
    /// already in use; otherwise appends the entry, keeping every existing
    /// entry in place.
    pub fn save(&mut self, id: String, bet: Bet) -> (r: Result<(), BetError>)
        requires
            old(self).wf(),
        ensures
            final(self).wf(),
            old(self).spec_contains_id(id@) ==> r == Err::<(), BetError>(BetError::DuplicateId)
                && *final(self) == *old(self),
            !old(self).spec_contains_id(id@) ==> r == Ok::<(), BetError>(())
                && final(self).entries@ == old(self).entries@.push(LedgerEntry { id, bet }),
    {
        if self.contains_id(&id) {
            return Err(BetError::DuplicateId);
        }
        self.entries.push(LedgerEntry { id, bet });
        Ok(())
    }

    /// Looks a bet up by its identifier: the stored record, or nothing when
    /// no bet was recorded under `id`.
    pub fn get(&self, id: &String) -> (r: Option<Bet>)
        requires
            self.wf(),
        ensures
            match r {
                Some(b) => exists|i: int|
                    0 <= i < self.entries@.len() && self.entries@[i].id@ == id@
                        && self.entries@[i].bet == b,
                None => !self.spec_contains_id(id@),
            },
    {
        let n = self.entries.len();
        for i in 0..n
            invariant
                n == self.entries@.len(),
                forall|j: int| 0 <= j < i ==> self.entries@[j].id@ != id@,
        {
            if self.entries[i].id == *id {
                return Some(self.entries[i].bet);
            }
        }
        None
    }
}

} // verus!
