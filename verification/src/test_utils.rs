//! The test-construction contract: mutable access to a block's parts, used
//! only to synthesize fixtures. Production code composes blocks once via
//! [`crate::block::Block::new`] and never mutates them.
use vstd::prelude::*;

use crate::block::BasicBlock;
use crate::block::Block;
use crate::body::Body;
use crate::header::BasicHeader;
use crate::header::BlockHeader;
use crate::primitives::Hash256;
use crate::primitives::Uint256;
use crate::transaction::SignedTransaction;

verus! {

/// Mutation capability of a header: each setter updates exactly one field
/// and never fails.
pub trait TestHeader: BlockHeader {
    fn set_parent_hash(&mut self, hash: Hash256)
        requires
            hash.wf(),
        ensures
            final(self).spec_parent_hash() == hash@,
            final(self).spec_number() == old(self).spec_number(),
            final(self).spec_state_root() == old(self).spec_state_root(),
            final(self).spec_difficulty() == old(self).spec_difficulty(),
            old(self).wf() ==> final(self).wf(),
    ;

    fn set_block_number(&mut self, number: u64)
        ensures
            final(self).spec_number() == number,
            final(self).spec_parent_hash() == old(self).spec_parent_hash(),
            final(self).spec_state_root() == old(self).spec_state_root(),
            final(self).spec_difficulty() == old(self).spec_difficulty(),
            old(self).wf() ==> final(self).wf(),
    ;

    fn set_state_root(&mut self, state_root: Hash256)
        requires
            state_root.wf(),
        ensures
            final(self).spec_state_root() == state_root@,
            final(self).spec_parent_hash() == old(self).spec_parent_hash(),
            final(self).spec_number() == old(self).spec_number(),
            final(self).spec_difficulty() == old(self).spec_difficulty(),
            old(self).wf() ==> final(self).wf(),
    ;

    fn set_difficulty(&mut self, difficulty: Uint256)
        ensures
            final(self).spec_difficulty() == difficulty,
            final(self).spec_parent_hash() == old(self).spec_parent_hash(),
            final(self).spec_number() == old(self).spec_number(),
            final(self).spec_state_root() == old(self).spec_state_root(),
            old(self).wf() ==> final(self).wf(),
    ;
}

impl TestHeader for BasicHeader {
    fn set_parent_hash(&mut self, hash: Hash256) {
        self.parent_hash = hash;
    }

    fn set_block_number(&mut self, number: u64) {
        self.number = number;
    }

    fn set_state_root(&mut self, state_root: Hash256) {
        self.state_root = state_root;
    }

    fn set_difficulty(&mut self, difficulty: Uint256) {
        self.difficulty = difficulty;
    }
}

/// Mutation capability of a block: mutable access to its parts and targeted
/// field setters, for building edge-case fixtures in place.
pub trait TestBlock: Block where Self::Header: TestHeader {
    fn body_mut(&mut self) -> (r: &mut Self::Body)
        ensures
            *r == old(self).spec_body(),
            final(self).spec_body() == *final(r),
            final(self).spec_header() == old(self).spec_header(),
    ;

    fn header_mut(&mut self) -> (r: &mut Self::Header)
        ensures
            *r == old(self).spec_header(),
            final(self).spec_header() == *final(r),
            final(self).spec_body() == old(self).spec_body(),
    ;

    /// Replaces the header wholesale.
    fn set_header(&mut self, header: Self::Header)
        ensures
            final(self).spec_header() == header,
            final(self).spec_body() == old(self).spec_body(),
    ;

    /// Updates the parent block hash; everything else is unchanged.
    fn set_parent_hash(&mut self, hash: Hash256)
        requires
            hash.wf(),
        ensures
            final(self).spec_header().spec_parent_hash() == hash@,
            final(self).spec_header().spec_number() == old(self).spec_header().spec_number(),
            final(self).spec_header().spec_state_root() == old(
                self,
            ).spec_header().spec_state_root(),
            final(self).spec_header().spec_difficulty() == old(
                self,
            ).spec_header().spec_difficulty(),
            final(self).spec_body() == old(self).spec_body(),
    {
        let h = self.header_mut();
        h.set_parent_hash(hash);
    }

    /// Updates the block number; everything else is unchanged.
    fn set_block_number(&mut self, number: u64)
        ensures
            final(self).spec_header().spec_number() == number,
            final(self).spec_header().spec_parent_hash() == old(
                self,
            ).spec_header().spec_parent_hash(),
            final(self).spec_header().spec_state_root() == old(
                self,
            ).spec_header().spec_state_root(),
            final(self).spec_header().spec_difficulty() == old(
                self,
            ).spec_header().spec_difficulty(),
            final(self).spec_body() == old(self).spec_body(),
    {
        let h = self.header_mut();
        h.set_block_number(number);
    }

    /// Updates the state root; everything else is unchanged.
    fn set_state_root(&mut self, state_root: Hash256)
        requires
            state_root.wf(),
        ensures
            final(self).spec_header().spec_state_root() == state_root@,
            final(self).spec_header().spec_parent_hash() == old(
                self,
            ).spec_header().spec_parent_hash(),
            final(self).spec_header().spec_number() == old(self).spec_header().spec_number(),
            final(self).spec_header().spec_difficulty() == old(
                self,
            ).spec_header().spec_difficulty(),
            final(self).spec_body() == old(self).spec_body(),
    {
        let h = self.header_mut();
        h.set_state_root(state_root);
    }

    /// Updates the difficulty; everything else is unchanged.
    fn set_difficulty(&mut self, difficulty: Uint256)
        ensures
            final(self).spec_header().spec_difficulty() == difficulty,
            final(self).spec_header().spec_parent_hash() == old(
                self,
            ).spec_header().spec_parent_hash(),
            final(self).spec_header().spec_number() == old(self).spec_header().spec_number(),
            final(self).spec_header().spec_state_root() == old(
                self,
            ).spec_header().spec_state_root(),
            final(self).spec_body() == old(self).spec_body(),
    {
        let h = self.header_mut();
        h.set_difficulty(difficulty);
    }
}

impl<T: SignedTransaction> TestBlock for BasicBlock<T> {
    fn body_mut(&mut self) -> (r: &mut Body<T>) {
        &mut self.body
    }

    fn header_mut(&mut self) -> (r: &mut BasicHeader) {
        &mut self.header
    }

    fn set_header(&mut self, header: BasicHeader) {
        self.header = header;
    }
}

} // verus!
