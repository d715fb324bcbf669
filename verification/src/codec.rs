//! The wire-encoding boundary: canonical RLP encode/decode for the reference
//! block, relied on from the alloy codec, with the round-trip law stated over
//! an opaque encoding function.
use vstd::prelude::*;

use crate::block::BasicBlock;
use crate::block::BlockView;
use crate::body::Body;
use crate::header::BasicHeader;
use crate::primitives::Address;
use crate::primitives::Hash256;
use crate::primitives::Uint256;
use crate::transaction::Transaction;

verus! {

/// Decoding failure: the bytes are not a canonical block encoding.
#[derive(Clone, Copy, PartialEq, Eq, Structural, Debug)]
pub enum DecodeError {
    Rlp,
}

/// Capability of a canonical wire encoding.
pub trait RlpEncodable: Sized {
    /// The canonical encoding of this value.
    spec fn spec_rlp(&self) -> Seq<u8>;

    /// The values the codec is defined on.
    spec fn rlp_wf(&self) -> bool;

    fn rlp_encode(&self) -> (r: Vec<u8>)
        requires
            self.rlp_wf(),
        ensures
            r@ == self.spec_rlp(),
    ;
}

/// Capability of decoding the canonical wire encoding: the exact encoding of
/// any well-formed value decodes back to a value with that same encoding.
pub trait RlpDecodable: RlpEncodable {
    fn rlp_decode(bytes: &[u8]) -> (r: Result<Self, DecodeError>)
        ensures
            forall|b: Self|
                b.rlp_wf() && bytes@ == b.spec_rlp() ==> (r matches Ok(d) && d.spec_rlp() == bytes@
                    && d.rlp_wf()),
    ;
}

/// The canonical RLP encoding of a block with the given content: the
/// alloy_rlp encoding of the `alloy_consensus::Block` that the content
/// stands for, with unmodelled fields at their default values.
pub uninterp spec fn block_rlp(b: BlockView) -> Seq<u8>;

#[verifier::external_type_specification]
#[verifier::external_body]
pub struct ExAlloyHeader(alloy_consensus::Header);

#[verifier::external_type_specification]
#[verifier::external_body]
pub struct ExTxLegacy(alloy_consensus::TxLegacy);

#[verifier::external_type_specification]
#[verifier::external_body]
pub struct ExRlpError(alloy_rlp::Error);

/// Builds the `alloy_consensus::Header` that a header record stands for;
/// fields outside the model keep their default values.
#[verifier::external_body]
fn header_to_alloy(h: &BasicHeader) -> alloy_consensus::Header
    requires
        h.wf(),
{
    let mut ah = alloy_consensus::Header::default();
    ah.parent_hash = alloy_primitives::B256::from_slice(h.parent_hash.bytes.as_slice());
    ah.number = h.number;
    ah.state_root = alloy_primitives::B256::from_slice(h.state_root.bytes.as_slice());
    ah.difficulty = alloy_primitives::U256::from_limbs(
        [h.difficulty.limb0, h.difficulty.limb1, h.difficulty.limb2, h.difficulty.limb3],
    );
    ah
}

/// Reads the modelled fields back out of an `alloy_consensus::Header`.
#[verifier::external_body]
fn header_from_alloy(h: &alloy_consensus::Header) -> BasicHeader {
    BasicHeader {
        parent_hash: Hash256 { bytes: h.parent_hash.to_vec() },
        number: h.number,
        state_root: Hash256 { bytes: h.state_root.to_vec() },
        difficulty: Uint256 {
            limb0: h.difficulty.as_limbs()[0],
            limb1: h.difficulty.as_limbs()[1],
            limb2: h.difficulty.as_limbs()[2],
            limb3: h.difficulty.as_limbs()[3],
        },
    }
}

/// Builds the `alloy_consensus::TxLegacy` that a transaction record stands
/// for.
#[verifier::external_body]
fn tx_to_alloy(t: &Transaction) -> alloy_consensus::TxLegacy
    requires
        t.wf(),
{
    let to = match &t.to {
        Some(a) => alloy_primitives::TxKind::Call(alloy_primitives::Address::from_slice(a.bytes.as_slice())),
        None => alloy_primitives::TxKind::Create,
    };
    let value = alloy_primitives::U256::from_limbs([t.value.limb0, t.value.limb1, t.value.limb2, t.value.limb3]);
    let input = alloy_primitives::Bytes::copy_from_slice(t.input.as_slice());
    alloy_consensus::TxLegacy {
        chain_id: Some(t.chain_id), nonce: t.nonce, gas_price: t.gas_price,
        gas_limit: t.gas_limit, to, value, input,
    }
}

/// Reads the modelled fields back out of an `alloy_consensus::TxLegacy`.
#[verifier::external_body]
fn tx_from_alloy(t: &alloy_consensus::TxLegacy) -> Transaction {
    let to = match t.to {
        alloy_primitives::TxKind::Call(a) => Some(Address { bytes: a.to_vec() }),
        alloy_primitives::TxKind::Create => None,
    };
    let l = t.value.as_limbs();
    let value = Uint256 { limb0: l[0], limb1: l[1], limb2: l[2], limb3: l[3] };
    Transaction {
        chain_id: t.chain_id.unwrap_or(0), nonce: t.nonce, gas_price: t.gas_price,
        gas_limit: t.gas_limit, to, value, input: t.input.to_vec(),
    }
}

/// Relies on alloy_rlp's `Encodable` for `alloy_consensus::Block`: the
/// deterministic canonical RLP of the alloy block the record stands for.
#[verifier::external_body]
fn rlp_encode_block(b: &BasicBlock<Transaction>) -> (r: Vec<u8>)
    requires
        b.wf(),
    ensures
        r@ == block_rlp(b@),
{
    let header = header_to_alloy(&b.header);
    let transactions: Vec<alloy_consensus::TxLegacy> =
        b.body.transactions.iter().map(tx_to_alloy).collect();
    let ommers: Vec<alloy_consensus::Header> =
        b.body.ommers.iter().map(header_to_alloy).collect();
    let body = alloy_consensus::BlockBody { transactions, ommers, withdrawals: None };
    alloy_rlp::encode(&alloy_consensus::Block::new(header, body))
}

/// Relies on alloy_rlp's `Decodable` for `alloy_consensus::Block`: decoding
/// inverts encoding, so the exact encoding of any well-formed block decodes
/// to a block with that content.
#[verifier::external_body]
fn rlp_decode_block(bytes: &[u8]) -> (r: Result<BasicBlock<Transaction>, alloy_rlp::Error>)
    ensures
        forall|bv: BlockView|
            bv.wf() && bytes@ == block_rlp(bv) ==> r is Ok && r->Ok_0@ == bv,
{
    let mut buf: &[u8] = bytes;
    let ab: alloy_consensus::Block<alloy_consensus::TxLegacy> =
        match alloy_rlp::Decodable::decode(&mut buf) {
            Ok(ab) => ab,
            Err(e) => {
                return Err(e);
            },
        };
    let header = header_from_alloy(&ab.header);
    let transactions: Vec<Transaction> = ab.body.transactions.iter().map(tx_from_alloy).collect();
    let ommers: Vec<BasicHeader> = ab.body.ommers.iter().map(header_from_alloy).collect();
    Ok(BasicBlock { header, body: Body { transactions, ommers } })
}

impl BasicBlock<Transaction> {
    /// Encodes the block in the canonical wire format.
    pub fn encode(&self) -> (r: Vec<u8>)
        requires
            self.wf(),
        ensures
            r@ == block_rlp(self@),
    {
        rlp_encode_block(self)
    }

    /// Decodes a block from the canonical wire format. Any well-formed block
    /// content whose encoding is exactly `bytes` is returned, so decoding
    /// inverts [`Self::encode`].
    pub fn decode(bytes: &[u8]) -> (r: Result<BasicBlock<Transaction>, DecodeError>)
        ensures
            forall|bv: BlockView|
                bv.wf() && bytes@ == block_rlp(bv) ==> (r matches Ok(d) && d@ == bv),
    {
        match rlp_decode_block(bytes) {
            Ok(b) => Ok(b),
            Err(_) => Err(DecodeError::Rlp),
        }
    }
}

impl RlpEncodable for BasicBlock<Transaction> {
    open spec fn spec_rlp(&self) -> Seq<u8> {
        block_rlp(self@)
    }

    open spec fn rlp_wf(&self) -> bool {
        self.wf()
    }

    fn rlp_encode(&self) -> (r: Vec<u8>) {
        self.encode()
    }
}

impl RlpDecodable for BasicBlock<Transaction> {
    fn rlp_decode(bytes: &[u8]) -> (r: Result<Self, DecodeError>) {
        let r = Self::decode(bytes);
        proof {
            assert forall|b: Self| b.rlp_wf() && bytes@ == b.spec_rlp() implies (r matches Ok(d)
                && d.spec_rlp() == bytes@ && d.rlp_wf()) by {
                assert(b@.wf());
                assert(bytes@ == block_rlp(b@));
            }
        }
        r
    }
}

} // verus!
