//! The header capability contract and the concrete header record.
use vstd::prelude::*;

use crate::primitives::Hash256;
use crate::primitives::Uint256;
use crate::primitives::eq_bytes;
use crate::primitives::zero_bytes;

verus! {

/// Capability set of a block header: read access to the metadata fields that
/// consensus and execution logic need.
pub trait BlockHeader: Sized {
    spec fn spec_parent_hash(&self) -> Seq<u8>;

    spec fn spec_number(&self) -> u64;

    spec fn spec_state_root(&self) -> Seq<u8>;

    spec fn spec_difficulty(&self) -> Uint256;

    /// The hashes a header commits to are 256 bits wide.
    spec fn wf(&self) -> bool;

    fn parent_hash(&self) -> (r: &Hash256)
        ensures
            r@ == self.spec_parent_hash(),
    ;

    fn number(&self) -> (r: u64)
        ensures
            r == self.spec_number(),
    ;

    fn state_root(&self) -> (r: &Hash256)
        ensures
            r@ == self.spec_state_root(),
    ;

    fn difficulty(&self) -> (r: Uint256)
        ensures
            r == self.spec_difficulty(),
    ;
}

/// The stricter header capability set required for full (non-light) node
/// operation.
pub trait FullBlockHeader: BlockHeader {

}

/// Mathematical content of a [`BasicHeader`].
pub ghost struct HeaderView {
    pub parent_hash: Seq<u8>,
    pub number: u64,
    pub state_root: Seq<u8>,
    pub difficulty: Uint256,
}

impl HeaderView {
    /// Both hashes hold exactly 32 bytes.
    pub open spec fn wf(&self) -> bool {
        &&& self.parent_hash.len() == 32
        &&& self.state_root.len() == 32
    }

    /// The content of a freshly constructed default header.
    pub open spec fn default_view() -> HeaderView {
        HeaderView {
            parent_hash: zero_bytes(32),
            number: 0u64,
            state_root: zero_bytes(32),
            difficulty: Uint256 { limb0: 0u64, limb1: 0u64, limb2: 0u64, limb3: 0u64 },
        }
    }
}

/// The concrete header record: the block metadata this layer reads.
#[derive(Clone, Debug)]
pub struct BasicHeader {
    pub parent_hash: Hash256,
    pub number: u64,
    pub state_root: Hash256,
    pub difficulty: Uint256,
}

impl View for BasicHeader {
    type V = HeaderView;

    open spec fn view(&self) -> HeaderView {
        HeaderView {
            parent_hash: self.parent_hash@,
            number: self.number,
            state_root: self.state_root@,
            difficulty: self.difficulty,
        }
    }
}

impl BasicHeader {
    pub open spec fn wf(&self) -> bool {
        self@.wf()
    }

    pub fn new(parent_hash: Hash256, number: u64, state_root: Hash256, difficulty: Uint256) -> (r:
        Self)
        ensures
            r@ == (HeaderView {
                parent_hash: parent_hash@,
                number: number,
                state_root: state_root@,
                difficulty: difficulty,
            }),
    {
        BasicHeader { parent_hash, number, state_root, difficulty }
    }
}

impl BlockHeader for BasicHeader {
    open spec fn spec_parent_hash(&self) -> Seq<u8> {
        self@.parent_hash
    }

    open spec fn spec_number(&self) -> u64 {
        self@.number
    }

    open spec fn spec_state_root(&self) -> Seq<u8> {
        self@.state_root
    }

    open spec fn spec_difficulty(&self) -> Uint256 {
        self@.difficulty
    }

    open spec fn wf(&self) -> bool {
        self@.wf()
    }

    fn parent_hash(&self) -> (r: &Hash256) {
        &self.parent_hash
    }

    fn number(&self) -> (r: u64) {
        self.number
    }

    fn state_root(&self) -> (r: &Hash256) {
        &self.state_root
    }

    fn difficulty(&self) -> (r: Uint256) {
        self.difficulty
    }
}

impl FullBlockHeader for BasicHeader {

}

impl PartialEq for BasicHeader {
    fn eq(&self, other: &Self) -> (r: bool) {
        eq_bytes(&self.parent_hash.bytes, &other.parent_hash.bytes) && self.number
            == other.number && eq_bytes(&self.state_root.bytes, &other.state_root.bytes)
            && self.difficulty == other.difficulty
    }
}

impl vstd::std_specs::cmp::PartialEqSpecImpl for BasicHeader {
    open spec fn obeys_eq_spec() -> bool {
        true
    }

    open spec fn eq_spec(&self, other: &Self) -> bool {
        self@ == other@
    }
}

impl Eq for BasicHeader {}

impl Default for BasicHeader {
    fn default() -> (r: Self)
        ensures
            r@ == HeaderView::default_view(),
            r.wf(),
    {
        BasicHeader {
            parent_hash: Hash256::zero(),
            number: 0,
            state_root: Hash256::zero(),
            difficulty: Uint256 { limb0: 0, limb1: 0, limb2: 0, limb3: 0 },
        }
    }
}

} // verus!
