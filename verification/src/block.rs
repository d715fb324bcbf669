//! The block capability contract, the full-node bundle, and the concrete
//! reference block.
use vstd::prelude::*;

use crate::body::BlockBody;
use crate::body::Body;
use crate::body::BodyView;
use crate::body::FullBlockBody;
use crate::codec::RlpDecodable;
use crate::codec::RlpEncodable;
use crate::header::BlockHeader;
use crate::header::FullBlockHeader;
use crate::header::BasicHeader;
use crate::header::HeaderView;
use crate::transaction::SignedTransaction;
use crate::transaction::Transaction;

verus! {

/// Abstraction of a block: exactly one header and one body, composed and
/// decomposed without loss. The body's ommer-header type is bound to the
/// block's own header type, so a body built for one header representation
/// cannot be attached to a block using another.
pub trait Block: Sized {
    type Header: BlockHeader;

    type Body: BlockBody<OmmerHeader = Self::Header>;

    spec fn spec_header(&self) -> Self::Header;

    spec fn spec_body(&self) -> Self::Body;

    /// Pure composition: the new block holds exactly the given parts.
    fn new(header: Self::Header, body: Self::Body) -> (r: Self)
        ensures
            r.spec_header() == header,
            r.spec_body() == body,
    ;

    fn header(&self) -> (r: &Self::Header)
        ensures
            *r == self.spec_header(),
    ;

    fn body(&self) -> (r: &Self::Body)
        ensures
            *r == self.spec_body(),
    ;

    /// Pure decomposition: together with `new`, composing a block from a
    /// header and a body and splitting it again yields the same pair back.
    fn split(self) -> (r: (Self::Header, Self::Body))
        ensures
            r.0 == self.spec_header(),
            r.1 == self.spec_body(),
    ;
}

/// The transaction type of a block's body.
pub type BlockTx<B> = <<B as Block>::Body as BlockBody>::Transaction;

/// The capability bundle required of a block by full (non-light) node
/// operation: a full header, a full body, and wire encode/decode. Satisfied
/// automatically by every qualifying [`Block`] type.
pub trait FullBlock: Block<Header: FullBlockHeader, Body: FullBlockBody> + RlpEncodable + RlpDecodable {

}

impl<B> FullBlock for B where
    B: Block + RlpEncodable + RlpDecodable,
    B::Header: FullBlockHeader,
    B::Body: FullBlockBody,
 {

}

/// Mathematical content of a [`BasicBlock`] of [`Transaction`]s.
pub ghost struct BlockView {
    pub header: HeaderView,
    pub body: BodyView,
}

impl BlockView {
    pub open spec fn wf(&self) -> bool {
        &&& self.header.wf()
        &&& self.body.wf()
    }
}

/// The reference block implementation: a header record paired with a body of
/// generic transactions, as a pure data carrier.
#[derive(Clone, Debug)]
pub struct BasicBlock<T> {
    pub header: BasicHeader,
    pub body: Body<T>,
}

impl View for BasicBlock<Transaction> {
    type V = BlockView;

    open spec fn view(&self) -> BlockView {
        BlockView { header: self.header@, body: self.body@ }
    }
}

impl BasicBlock<Transaction> {
    pub open spec fn wf(&self) -> bool {
        self@.wf()
    }
}

impl<T: SignedTransaction> Block for BasicBlock<T> {
    type Header = BasicHeader;

    type Body = Body<T>;

    open spec fn spec_header(&self) -> BasicHeader {
        self.header
    }

    open spec fn spec_body(&self) -> Body<T> {
        self.body
    }

    fn new(header: BasicHeader, body: Body<T>) -> (r: Self) {
        BasicBlock { header, body }
    }

    fn header(&self) -> (r: &BasicHeader) {
        &self.header
    }

    fn body(&self) -> (r: &Body<T>) {
        &self.body
    }

    fn split(self) -> (r: (BasicHeader, Body<T>)) {
        (self.header, self.body)
    }
}

impl PartialEq for BasicBlock<Transaction> {
    fn eq(&self, other: &Self) -> (r: bool) {
        self.header == other.header && self.body == other.body
    }
}

impl vstd::std_specs::cmp::PartialEqSpecImpl for BasicBlock<Transaction> {
    open spec fn obeys_eq_spec() -> bool {
        true
    }

    open spec fn eq_spec(&self, other: &Self) -> bool {
        self@ == other@
    }
}

impl Eq for BasicBlock<Transaction> {}

impl<T> Default for BasicBlock<T> {
    fn default() -> (r: Self)
        ensures
            r.header@ == HeaderView::default_view(),
            r.body.transactions@ == Seq::<T>::empty(),
            r.body.ommers@ == Seq::<BasicHeader>::empty(),
    {
        BasicBlock { header: BasicHeader::default(), body: Body::default() }
    }
}

/// Structural equality law: two reference blocks are equal exactly when
/// their headers are equal and their bodies are equal, and two bodies are
/// equal exactly when their transaction sequences and their ommer sequences
/// are equal element-wise and in order.
pub proof fn lemma_block_eq(a: &BasicBlock<Transaction>, b: &BasicBlock<Transaction>)
    ensures
        (a@ == b@) <==> (a@.header == b@.header && a@.body == b@.body),
        (a@.body == b@.body) <==> (a@.body.transactions == b@.body.transactions
            && a@.body.ommers == b@.body.ommers),
{
}

} // verus!
