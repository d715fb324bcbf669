//! The in-memory size capability: an estimate of a value's footprint, used
//! by callers for cache and memory accounting. The estimate counts the bytes
//! of content a value carries and saturates at `usize::MAX`.
use vstd::prelude::*;

use crate::block::BasicBlock;
use crate::body::Body;
use crate::header::BasicHeader;
use crate::primitives::Address;
use crate::primitives::Hash256;
use crate::primitives::Uint256;
use crate::transaction::Transaction;

verus! {

/// `n`, capped at `usize::MAX`.
pub open spec fn clamp_usize(n: int) -> int {
    if n > usize::MAX as int {
        usize::MAX as int
    } else {
        n
    }
}

/// Saturating addition on `usize`.
pub fn sat_add(a: usize, b: usize) -> (r: usize)
    ensures
        r as int == clamp_usize(a as int + b as int),
{
    match a.checked_add(b) {
        Some(s) => s,
        None => usize::MAX,
    }
}

/// Capability of reporting an estimate of the value's in-memory footprint.
pub trait InMemorySize: Sized {
    /// The exact content size, in bytes.
    spec fn spec_size(&self) -> int;

    fn size(&self) -> (r: usize)
        ensures
            r as int == clamp_usize(self.spec_size()),
    ;
}

impl InMemorySize for Hash256 {
    open spec fn spec_size(&self) -> int {
        self@.len() as int
    }

    fn size(&self) -> (r: usize) {
        self.bytes.len()
    }
}

impl InMemorySize for Address {
    open spec fn spec_size(&self) -> int {
        self@.len() as int
    }

    fn size(&self) -> (r: usize) {
        self.bytes.len()
    }
}

impl InMemorySize for Uint256 {
    open spec fn spec_size(&self) -> int {
        32
    }

    fn size(&self) -> (r: usize) {
        32
    }
}

impl InMemorySize for Transaction {
    /// Four scalar fields (8 + 8 + 16 + 8 bytes), the optional recipient,
    /// the 32-byte value, and the input data.
    open spec fn spec_size(&self) -> int {
        72 + (match self@.to {
            Option::Some(a) => a.len() as int,
            Option::None => 0,
        }) + self@.input.len() as int
    }

    fn size(&self) -> (r: usize) {
        let to_len: usize = match &self.to {
            Option::Some(a) => a.bytes.len(),
            Option::None => 0,
        };
        let s = sat_add(72, to_len);
        sat_add(s, self.input.len())
    }
}

impl InMemorySize for BasicHeader {
    /// The two hashes, the 8-byte number, and the 32-byte difficulty.
    open spec fn spec_size(&self) -> int {
        self@.parent_hash.len() as int + self@.state_root.len() as int + 40
    }

    fn size(&self) -> (r: usize) {
        let s = sat_add(self.parent_hash.bytes.len(), self.state_root.bytes.len());
        sat_add(s, 40)
    }
}

/// Total content size of a transaction sequence.
pub open spec fn sum_tx_sizes(s: Seq<Transaction>) -> int
    decreases s.len(),
{
    if s.len() == 0 {
        0
    } else {
        sum_tx_sizes(s.drop_last()) + s.last().spec_size()
    }
}

/// Total content size of a header sequence.
pub open spec fn sum_header_sizes(s: Seq<BasicHeader>) -> int
    decreases s.len(),
{
    if s.len() == 0 {
        0
    } else {
        sum_header_sizes(s.drop_last()) + s.last().spec_size()
    }
}

proof fn lemma_sum_tx_nonneg(s: Seq<Transaction>)
    ensures
        sum_tx_sizes(s) >= 0,
    decreases s.len(),
{
    if s.len() > 0 {
        lemma_sum_tx_nonneg(s.drop_last());
    }
}

proof fn lemma_sum_header_nonneg(s: Seq<BasicHeader>)
    ensures
        sum_header_sizes(s) >= 0,
    decreases s.len(),
{
    if s.len() > 0 {
        lemma_sum_header_nonneg(s.drop_last());
    }
}

proof fn lemma_sum_tx_step(s: Seq<Transaction>, i: int)
    requires
        0 <= i < s.len(),
    ensures
        sum_tx_sizes(s.take(i + 1)) == sum_tx_sizes(s.take(i)) + s[i].spec_size(),
{
    assert(s.take(i + 1).drop_last() =~= s.take(i));
    assert(s.take(i + 1).last() == s[i]);
}

proof fn lemma_sum_header_step(s: Seq<BasicHeader>, i: int)
    requires
        0 <= i < s.len(),
    ensures
        sum_header_sizes(s.take(i + 1)) == sum_header_sizes(s.take(i)) + s[i].spec_size(),
{
    assert(s.take(i + 1).drop_last() =~= s.take(i));
    assert(s.take(i + 1).last() == s[i]);
}

impl InMemorySize for Body<Transaction> {
    open spec fn spec_size(&self) -> int {
        sum_tx_sizes(self.transactions@) + sum_header_sizes(self.ommers@)
    }

    fn size(&self) -> (r: usize) {
        let mut acc: usize = 0;
        let mut i: usize = 0;
        proof {
            assert(self.transactions@.take(0) =~= Seq::<Transaction>::empty());
        }
        while i < self.transactions.len()
            invariant
                i <= self.transactions@.len(),
                acc as int == clamp_usize(sum_tx_sizes(self.transactions@.take(i as int))),
            decreases self.transactions@.len() - i,
        {
            let t_size = self.transactions[i].size();
            proof {
                lemma_sum_tx_step(self.transactions@, i as int);
                lemma_sum_tx_nonneg(self.transactions@.take(i as int));
                assert(self.transactions@[i as int].spec_size() >= 0);
            }
            acc = sat_add(acc, t_size);
            i += 1;
        }
        proof {
            assert(self.transactions@.take(self.transactions@.len() as int)
                =~= self.transactions@);
            assert(self.ommers@.take(0) =~= Seq::<BasicHeader>::empty());
        }
        let mut k: usize = 0;
        while k < self.ommers.len()
            invariant
                k <= self.ommers@.len(),
                acc as int == clamp_usize(
                    sum_tx_sizes(self.transactions@) + sum_header_sizes(
                        self.ommers@.take(k as int),
                    ),
                ),
            decreases self.ommers@.len() - k,
        {
            let h_size = self.ommers[k].size();
            proof {
                lemma_sum_header_step(self.ommers@, k as int);
                lemma_sum_header_nonneg(self.ommers@.take(k as int));
                lemma_sum_tx_nonneg(self.transactions@);
                assert(self.ommers@[k as int].spec_size() >= 0);
            }
            acc = sat_add(acc, h_size);
            k += 1;
        }
        proof {
            assert(self.ommers@.take(self.ommers@.len() as int) =~= self.ommers@);
        }
        acc
    }
}

impl InMemorySize for BasicBlock<Transaction> {
    open spec fn spec_size(&self) -> int {
        self.header.spec_size() + self.body.spec_size()
    }

    fn size(&self) -> (r: usize) {
        proof {
            lemma_sum_tx_nonneg(self.body.transactions@);
            lemma_sum_header_nonneg(self.body.ommers@);
        }
        sat_add(self.header.size(), self.body.size())
    }
}

} // verus!
