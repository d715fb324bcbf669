//! The body capability contract and the concrete body record: ordered
//! transactions plus ordered ommer headers.
use vstd::prelude::*;

use crate::header::BlockHeader;
use crate::header::BasicHeader;
use crate::header::HeaderView;
use crate::transaction::SignedTransaction;
use crate::transaction::Transaction;
use crate::transaction::TxView;

verus! {

/// Capability set of a block body: an ordered transaction sequence and an
/// ordered sequence of ommer headers. The ommer header type is bound to the
/// enclosing block's header type by the [`crate::block::Block`] contract.
pub trait BlockBody: Sized {
    type Transaction: SignedTransaction;

    type OmmerHeader: BlockHeader;

    spec fn spec_transactions(&self) -> Seq<Self::Transaction>;

    spec fn spec_ommers(&self) -> Seq<Self::OmmerHeader>;

    fn transactions(&self) -> (r: &Vec<Self::Transaction>)
        ensures
            r@ == self.spec_transactions(),
    ;

    fn ommers(&self) -> (r: &Vec<Self::OmmerHeader>)
        ensures
            r@ == self.spec_ommers(),
    ;
}

/// The stricter body capability set required for full (non-light) node
/// operation.
pub trait FullBlockBody: BlockBody {

}

/// Mathematical content of a [`Body`] of [`Transaction`]s.
pub ghost struct BodyView {
    pub transactions: Seq<TxView>,
    pub ommers: Seq<HeaderView>,
}

impl BodyView {
    pub open spec fn wf(&self) -> bool {
        &&& forall|i: int| 0 <= i < self.transactions.len() ==> (#[trigger] self.transactions[i]).wf()
        &&& forall|i: int| 0 <= i < self.ommers.len() ==> (#[trigger] self.ommers[i]).wf()
    }
}

/// The concrete body record: an ordered transaction list and an ordered
/// ommer-header list, using the same header representation as the block.
#[derive(Clone, Debug)]
pub struct Body<T> {
    pub transactions: Vec<T>,
    pub ommers: Vec<BasicHeader>,
}

impl View for Body<Transaction> {
    type V = BodyView;

    open spec fn view(&self) -> BodyView {
        BodyView {
            transactions: self.transactions@.map_values(|t: Transaction| t@),
            ommers: self.ommers@.map_values(|h: BasicHeader| h@),
        }
    }
}

impl Body<Transaction> {
    pub open spec fn wf(&self) -> bool {
        self@.wf()
    }
}

impl<T: SignedTransaction> BlockBody for Body<T> {
    type Transaction = T;

    type OmmerHeader = BasicHeader;

    open spec fn spec_transactions(&self) -> Seq<T> {
        self.transactions@
    }

    open spec fn spec_ommers(&self) -> Seq<BasicHeader> {
        self.ommers@
    }

    fn transactions(&self) -> (r: &Vec<T>) {
        &self.transactions
    }

    fn ommers(&self) -> (r: &Vec<BasicHeader>) {
        &self.ommers
    }
}

impl FullBlockBody for Body<Transaction> {

}

impl<T> Default for Body<T> {
    fn default() -> (r: Self)
        ensures
            r.transactions@ == Seq::<T>::empty(),
            r.ommers@ == Seq::<BasicHeader>::empty(),
    {
        let r = Body { transactions: Vec::new(), ommers: Vec::new() };
        proof {
            assert(r.transactions@ =~= Seq::<T>::empty());
            assert(r.ommers@ =~= Seq::<BasicHeader>::empty());
        }
        r
    }
}

impl PartialEq for Body<Transaction> {
    fn eq(&self, other: &Self) -> (r: bool) {
        proof {
            assert(self@.transactions.len() == self.transactions@.len());
            assert(other@.transactions.len() == other.transactions@.len());
            assert(self@.ommers.len() == self.ommers@.len());
            assert(other@.ommers.len() == other.ommers@.len());
        }
        if self.transactions.len() != other.transactions.len() {
            return false;
        }
        if self.ommers.len() != other.ommers.len() {
            return false;
        }
        let mut i: usize = 0;
        while i < self.transactions.len()
            invariant
                i <= self.transactions@.len(),
                self.transactions@.len() == other.transactions@.len(),
                self.ommers@.len() == other.ommers@.len(),
                forall|j: int| 0 <= j < i ==> self.transactions@[j]@ == other.transactions@[j]@,
            decreases self.transactions@.len() - i,
        {
            if !(self.transactions[i] == other.transactions[i]) {
                proof {
                    assert(self@.transactions[i as int] == self.transactions@[i as int]@);
                    assert(other@.transactions[i as int] == other.transactions@[i as int]@);
                }
                return false;
            }
            i += 1;
        }
        let mut k: usize = 0;
        while k < self.ommers.len()
            invariant
                k <= self.ommers@.len(),
                self.transactions@.len() == other.transactions@.len(),
                self.ommers@.len() == other.ommers@.len(),
                forall|j: int| 0 <= j < self.transactions@.len() ==> self.transactions@[j]@
                    == other.transactions@[j]@,
                forall|j: int| 0 <= j < k ==> self.ommers@[j]@ == other.ommers@[j]@,
            decreases self.ommers@.len() - k,
        {
            if !(self.ommers[k] == other.ommers[k]) {
                proof {
                    assert(self@.ommers[k as int] == self.ommers@[k as int]@);
                    assert(other@.ommers[k as int] == other.ommers@[k as int]@);
                }
                return false;
            }
            k += 1;
        }
        proof {
            assert(self@.transactions =~= other@.transactions);
            assert(self@.ommers =~= other@.ommers);
        }
        true
    }
}

impl vstd::std_specs::cmp::PartialEqSpecImpl for Body<Transaction> {
    open spec fn obeys_eq_spec() -> bool {
        true
    }

    open spec fn eq_spec(&self, other: &Self) -> bool {
        self@ == other@
    }
}

impl Eq for Body<Transaction> {}

} // verus!
