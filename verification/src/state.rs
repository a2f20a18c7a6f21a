//! The ledger and its records.

use vstd::prelude::*;
use crate::error::ContractError;

verus! {

/// Who may administer the ledger: the account that created it.
#[derive(Clone, Debug, PartialEq, Eq)]
pub struct Config {
    pub owner: String,
}

/// One deposit held as collateral.
#[derive(Clone, Debug, PartialEq, Eq)]
pub struct Collateral {
    /// The record's identifier, made when the deposit is made.
    pub id: String,
    /// The denomination of the asset held.
    pub token: String,
    /// How much of it is held. Never changes.
    pub amount: u128,
    /// What the borrower says the deposit is worth.
    pub valuation: u128,
    /// When the tax was last settled, in seconds; at first, the deposit's time.
    pub last_tax_payment: u64,
    /// The depositor. Never changes.
    pub borrower: String,
}

/// A record as a mathematical value.
#[verifier::ext_equal]
pub struct CollateralView {
    pub id: Seq<char>,
    pub token: Seq<char>,
    pub amount: u128,
    pub valuation: u128,
    pub last_tax_payment: u64,
    pub borrower: Seq<char>,
}

impl View for Collateral {
    type V = CollateralView;

    open spec fn view(&self) -> CollateralView {
        CollateralView {
            id: self.id@,
            token: self.token@,
            amount: self.amount,
            valuation: self.valuation,
            last_tax_payment: self.last_tax_payment,
            borrower: self.borrower@,
        }
    }
}

/// The ledger: every record, oldest deposit first, and the settings that were
/// fixed when the ledger was created.
///
/// The tax rate is a whole number of basis points per second. A rate given as
/// a fraction has to be turned into such a number by whoever creates the
/// ledger; what a fraction below one should become is left to them.
#[derive(Clone, Debug, PartialEq, Eq)]
pub struct CollateralState {
    pub collaterals: Vec<Collateral>,
    pub name: String,
    pub symbol: String,
    pub tax_rate: u64,
}

/// A ledger as a mathematical value.
#[verifier::ext_equal]
pub struct LedgerView {
    pub collaterals: Seq<CollateralView>,
    pub name: Seq<char>,
    pub symbol: Seq<char>,
    pub tax_rate: u64,
}

/// The records of a vector as mathematical values, in the same order.
pub open spec fn records_view(records: Seq<Collateral>) -> Seq<CollateralView> {
    records.map_values(|c: Collateral| c@)
}

impl View for CollateralState {
    type V = LedgerView;

    open spec fn view(&self) -> LedgerView {
        LedgerView {
            collaterals: records_view(self.collaterals@),
            name: self.name@,
            symbol: self.symbol@,
            tax_rate: self.tax_rate,
        }
    }
}

impl LedgerView {
    /// No two records share an identifier.
    pub open spec fn well_formed(self) -> bool {
        forall|i: int, j: int|
            0 <= i < j < self.collaterals.len() ==> (#[trigger] self.collaterals[i]).id != (
            #[trigger] self.collaterals[j]).id
    }

    /// Some record has the identifier `id`.
    pub open spec fn has_id(self, id: Seq<char>) -> bool {
        exists|i: int| 0 <= i < self.collaterals.len() && (#[trigger] self.collaterals[i]).id == id
    }

    /// The record at `i` is the first with the identifier `id`; in a
    /// well-formed ledger, the only one.
    pub open spec fn is_first_with_id(self, id: Seq<char>, i: int) -> bool {
        &&& 0 <= i < self.collaterals.len()
        &&& self.collaterals[i].id == id
        &&& forall|k: int| 0 <= k < i ==> (#[trigger] self.collaterals[k]).id != id
    }

    /// Where the record with the identifier `id` stands, if there is one.
    pub open spec fn index_of_id(self, id: Seq<char>) -> int {
        choose|i: int| self.is_first_with_id(id, i)
    }

    /// `borrower` holds some record.
    pub open spec fn has_borrower(self, borrower: Seq<char>) -> bool {
        exists|i: int|
            0 <= i < self.collaterals.len() && (#[trigger] self.collaterals[i]).borrower == borrower
    }

    /// The record at `i` is the oldest that `borrower` holds.
    pub open spec fn is_first_of_borrower(self, borrower: Seq<char>, i: int) -> bool {
        &&& 0 <= i < self.collaterals.len()
        &&& self.collaterals[i].borrower == borrower
        &&& forall|k: int| 0 <= k < i ==> (#[trigger] self.collaterals[k]).borrower != borrower
    }

    /// Where the oldest record of `borrower` stands, if they hold one. This
    /// is the record that the borrower's own operations act on.
    pub open spec fn index_of_borrower(self, borrower: Seq<char>) -> int {
        choose|i: int| self.is_first_of_borrower(borrower, i)
    }

    /// `borrower` holds no record whose tax was last settled after `now`, so
    /// that the time since then is not negative. Time does not run backwards:
    /// this holds of every call that a host makes with its clock.
    pub open spec fn clock_allows_tax(self, borrower: Seq<char>, now: u64) -> bool {
        self.has_borrower(borrower) ==> self.collaterals[self.index_of_borrower(
            borrower,
        )].last_tax_payment <= now
    }

    /// The ledger with other records in place of its own.
    pub open spec fn with_records(self, collaterals: Seq<CollateralView>) -> LedgerView {
        LedgerView { collaterals, ..self }
    }

    /// The ledger after `record` is filed under its identifier: in the place
    /// of the record that had the identifier, or else behind all others.
    pub open spec fn put(self, record: CollateralView) -> LedgerView {
        if self.has_id(record.id) {
            self.with_records(self.collaterals.update(self.index_of_id(record.id), record))
        } else {
            self.with_records(self.collaterals.push(record))
        }
    }

    /// The ledger without the record that has the identifier `id`.
    pub open spec fn without(self, id: Seq<char>) -> LedgerView {
        if self.has_id(id) {
            self.with_records(self.collaterals.remove(self.index_of_id(id)))
        } else {
            self
        }
    }
}

/// Among the records that have the identifier `id`, of which the one at
/// `at` is one, some record comes first.
proof fn lemma_first_with_id_from(ledger: LedgerView, id: Seq<char>, at: int) -> (first: int)
    requires
        0 <= at < ledger.collaterals.len(),
        ledger.collaterals[at].id == id,
    ensures
        ledger.is_first_with_id(id, first),
    decreases at,
{
    if exists|k: int| 0 <= k < at && (#[trigger] ledger.collaterals[k]).id == id {
        let k = choose|k: int| 0 <= k < at && (#[trigger] ledger.collaterals[k]).id == id;
        lemma_first_with_id_from(ledger, id, k)
    } else {
        at
    }
}

/// Among the records that `borrower` holds, of which the one at `at` is one,
/// some record comes first.
proof fn lemma_first_of_borrower_from(
    ledger: LedgerView,
    borrower: Seq<char>,
    at: int,
) -> (first: int)
    requires
        0 <= at < ledger.collaterals.len(),
        ledger.collaterals[at].borrower == borrower,
    ensures
        ledger.is_first_of_borrower(borrower, first),
    decreases at,
{
    if exists|k: int| 0 <= k < at && (#[trigger] ledger.collaterals[k]).borrower == borrower {
        let k = choose|k: int|
            0 <= k < at && (#[trigger] ledger.collaterals[k]).borrower == borrower;
        lemma_first_of_borrower_from(ledger, borrower, k)
    } else {
        at
    }
}

/// Where some record has the identifier, `index_of_id` names the first that
/// has it.
pub proof fn lemma_has_id(ledger: LedgerView, id: Seq<char>)
    requires
        ledger.has_id(id),
    ensures
        ledger.is_first_with_id(id, ledger.index_of_id(id)),
{
    let at = choose|i: int|
        0 <= i < ledger.collaterals.len() && (#[trigger] ledger.collaterals[i]).id == id;
    let first = lemma_first_with_id_from(ledger, id, at);
}

/// Where the borrower holds some record, `index_of_borrower` names the
/// oldest that they hold.
pub proof fn lemma_has_borrower(ledger: LedgerView, borrower: Seq<char>)
    requires
        ledger.has_borrower(borrower),
    ensures
        ledger.is_first_of_borrower(borrower, ledger.index_of_borrower(borrower)),
{
    let at = choose|i: int|
        0 <= i < ledger.collaterals.len() && (#[trigger] ledger.collaterals[i]).borrower
            == borrower;
    let first = lemma_first_of_borrower_from(ledger, borrower, at);
}

/// In a ledger that has the identifier, exactly one place is the first with
/// it, and that is the place `index_of_id` names.
pub proof fn lemma_index_of_id(ledger: LedgerView, id: Seq<char>, i: int)
    requires
        ledger.is_first_with_id(id, i),
    ensures
        ledger.has_id(id),
        ledger.index_of_id(id) == i,
{
}

/// For a borrower who holds a record, exactly one place is that of their
/// oldest record, and that is the place `index_of_borrower` names.
pub proof fn lemma_index_of_borrower(ledger: LedgerView, borrower: Seq<char>, i: int)
    requires
        ledger.is_first_of_borrower(borrower, i),
    ensures
        ledger.has_borrower(borrower),
        ledger.index_of_borrower(borrower) == i,
{
}

impl CollateralState {
    /// An empty ledger with the given settings.
    pub fn new(name: String, symbol: String, tax_rate: u64) -> (state: Self)
        ensures
            state@ == (LedgerView {
                collaterals: Seq::<CollateralView>::empty(),
                name: name@,
                symbol: symbol@,
                tax_rate,
            }),
            state@.well_formed(),
    {
        CollateralState { collaterals: Vec::new(), name, symbol, tax_rate }
    }

    /// Whether no two records share an identifier.
    pub fn is_well_formed(&self) -> (ok: bool)
        ensures
            ok == self@.well_formed(),
    {
        let n: usize = self.collaterals.len();
        let mut j: usize = 0;
        while j < n
            invariant
                n == self.collaterals.len(),
                j <= n,
                forall|a: int, b: int|
                    0 <= a < b < j ==> (#[trigger] self@.collaterals[a]).id != (
                    #[trigger] self@.collaterals[b]).id,
            decreases n - j,
        {
            let mut i: usize = 0;
            while i < j
                invariant
                    n == self.collaterals.len(),
                    j < n,
                    i <= j,
                    forall|a: int|
                        0 <= a < i ==> (#[trigger] self@.collaterals[a]).id
                            != self@.collaterals[j as int].id,
                decreases j - i,
            {
                if self.collaterals[i].id == self.collaterals[j].id {
                    assert(self@.collaterals[i as int].id == self@.collaterals[j as int].id);
                    return false;
                }
                i += 1;
            }
            j += 1;
        }
        true
    }

    /// Looks a record up by its identifier.
    pub fn find_by_id(&self, id: &String) -> (found: Option<usize>)
        ensures
            match found {
                Some(i) => self@.is_first_with_id(id@, i as int) && i == self@.index_of_id(id@),
                None => !self@.has_id(id@),
            },
            found is Some <==> self@.has_id(id@),
    {
        let n: usize = self.collaterals.len();
        let mut i: usize = 0;
        while i < n
            invariant
                n == self.collaterals.len(),
                i <= n,
                forall|k: int| 0 <= k < i ==> (#[trigger] self@.collaterals[k]).id != id@,
            decreases n - i,
        {
            if self.collaterals[i].id == *id {
                proof {
                    lemma_index_of_id(self@, id@, i as int);
                }
                return Some(i);
            }
            i += 1;
        }
        None
    }

    /// Looks up the oldest record that `borrower` holds.
    pub fn find_by_borrower(&self, borrower: &String) -> (found: Option<usize>)
        ensures
            match found {
                Some(i) => self@.is_first_of_borrower(borrower@, i as int)
                    && i == self@.index_of_borrower(borrower@),
                None => !self@.has_borrower(borrower@),
            },
            found is Some <==> self@.has_borrower(borrower@),
    {
        let n: usize = self.collaterals.len();
        let mut i: usize = 0;
        while i < n
            invariant
                n == self.collaterals.len(),
                i <= n,
                forall|k: int|
                    0 <= k < i ==> (#[trigger] self@.collaterals[k]).borrower != borrower@,
            decreases n - i,
        {
            if self.collaterals[i].borrower == *borrower {
                proof {
                    lemma_index_of_borrower(self@, borrower@, i as int);
                }
                return Some(i);
            }
            i += 1;
        }
        None
    }

    /// Files `record` under its identifier: in the place of the record that
    /// had the identifier, or else behind all others.
    pub fn put(&mut self, record: Collateral)
        ensures
            final(self)@ == old(self)@.put(record@),
            old(self)@.well_formed() ==> final(self)@.well_formed(),
    {
        match self.find_by_id(&record.id) {
            Some(i) => {
                self.collaterals[i] = record;
                assert(self@.collaterals =~= old(self)@.collaterals.update(i as int, record@));
            },
            None => {
                self.collaterals.push(record);
            },
        }
    }

    /// Takes the record with the identifier `id` out of the ledger and hands
    /// it over, or reports `NotFound` and changes nothing.
    pub fn remove_by_id(&mut self, id: &String) -> (r: Result<Collateral, ContractError>)
        ensures
            match r {
                Ok(record) => old(self)@.has_id(id@)
                    && record@ == old(self)@.collaterals[old(self)@.index_of_id(id@)],
                Err(e) => e == ContractError::NotFound && !old(self)@.has_id(id@),
            },
            final(self)@ == old(self)@.without(id@),
            old(self)@.well_formed() ==> final(self)@.well_formed(),
            old(self)@.well_formed() ==> !final(self)@.has_id(id@),
    {
        match self.find_by_id(id) {
            Some(i) => {
                let record = self.collaterals.remove(i);
                assert(self@.collaterals =~= old(self)@.collaterals.remove(i as int));
                Ok(record)
            },
            None => Err(ContractError::NotFound),
        }
    }

    /// Whether the tax of `borrower` can be settled at the time `now`: they
    /// hold no record, or the tax of their oldest record was last settled at
    /// `now` or before.
    pub fn clock_allows_tax(&self, borrower: &String, now: u64) -> (ok: bool)
        ensures
            ok == self@.clock_allows_tax(borrower@, now),
    {
        match self.find_by_borrower(borrower) {
            Some(i) => self.collaterals[i].last_tax_payment <= now,
            None => true,
        }
    }
}

} // verus!
