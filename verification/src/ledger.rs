//! The result ledger: the receipts of finalized ballots, oldest first.

use crate::ballot::{BallotView, CurrentVote};
use vstd::prelude::*;

verus! {

/// The mathematical content of a list of ballots, in order.
pub open spec fn views_of(list: Seq<CurrentVote>) -> Seq<BallotView> {
    list.map_values(|b: CurrentVote| b@)
}

/// An append-only list of receipts. A receipt, once appended, is neither
/// changed nor removed.
#[derive(Debug)]
pub struct ResultLedger {
    receipts: Vec<CurrentVote>,
}

impl View for ResultLedger {
    type V = Seq<BallotView>;

    /// The receipts, oldest first.
    closed spec fn view(&self) -> Seq<BallotView> {
        views_of(self.receipts@)
    }
}

impl ResultLedger {
    /// A ledger without receipts.
    pub fn new() -> (ledger: ResultLedger)
        ensures
            ledger@ == Seq::<BallotView>::empty(),
    {
        let ledger = ResultLedger { receipts: Vec::new() };
        assert(ledger@ =~= Seq::<BallotView>::empty());
        ledger
    }

    /// Appends a receipt after all earlier ones.
    pub fn append(&mut self, receipt: CurrentVote)
        ensures
            final(self)@ == old(self)@.push(receipt@),
    {
        self.receipts.push(receipt);
        assert(self@ =~= old(self)@.push(receipt@));
    }

    /// The number of receipts.
    pub fn len(&self) -> (n: usize)
        ensures
            n == self@.len(),
    {
        self.receipts.len()
    }

    /// The receipt at position `index`, counted from the oldest.
    pub fn get(&self, index: usize) -> (receipt: Option<&CurrentVote>)
        ensures
            index < self@.len() ==> receipt is Some && receipt->0@ == self@[index as int],
            index >= self@.len() ==> receipt is None,
    {
        if index < self.receipts.len() {
            Some(&self.receipts[index])
        } else {
            None
        }
    }

    /// Enumerates the receipts, oldest first. The ledger is left as it is.
    pub fn receipts(&self) -> (list: Vec<CurrentVote>)
        ensures
            views_of(list@) == self@,
    {
        let mut list: Vec<CurrentVote> = Vec::new();
        let mut i: usize = 0;
        while i < self.receipts.len()
            invariant
                i <= self.receipts.len(),
                list@ == self.receipts@.take(i as int),
            decreases self.receipts.len() - i,
        {
            list.push(self.receipts[i].clone());
            assert(list@ =~= self.receipts@.take(i + 1));
            i = i + 1;
        }
        assert(self.receipts@.take(self.receipts.len() as int) =~= self.receipts@);
        list
    }

    /// Rebuilds a ledger from its receipts, oldest first.
    pub fn from_receipts(receipts: Vec<CurrentVote>) -> (ledger: ResultLedger)
        ensures
            ledger@ == views_of(receipts@),
    {
        ResultLedger { receipts }
    }

    /// Gives up the ledger for its receipts, oldest first.
    pub fn into_receipts(self) -> (receipts: Vec<CurrentVote>)
        ensures
            views_of(receipts@) == self@,
    {
        self.receipts
    }
}

} // verus!
