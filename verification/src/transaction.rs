//! The signed-transaction capability boundary and the concrete transaction
//! record carried by the reference block body.
use vstd::prelude::*;

use crate::primitives::Address;
use crate::primitives::Uint256;
use crate::primitives::eq_bytes;

verus! {

/// Capability set of a transaction that a block body may carry. Transaction
/// semantics (signature recovery, fee rules) live outside this layer; the
/// body only needs values it can hold, compare and encode.
pub trait SignedTransaction: Sized {
    /// Structural validity of the carried values.
    spec fn wf(&self) -> bool;
}

/// Mathematical content of a [`Transaction`].
pub ghost struct TxView {
    pub chain_id: u64,
    pub nonce: u64,
    pub gas_price: u128,
    pub gas_limit: u64,
    pub to: Option<Seq<u8>>,
    pub value: Uint256,
    pub input: Seq<u8>,
}

impl TxView {
    /// A recipient, when present, is a 20-byte address.
    pub open spec fn wf(&self) -> bool {
        match self.to {
            Option::Some(a) => a.len() == 20,
            Option::None => true,
        }
    }
}

/// The concrete transaction record: a replay-protected legacy transaction
/// payload. `to` is `None` for a contract creation.
#[derive(Clone, Debug)]
pub struct Transaction {
    pub chain_id: u64,
    pub nonce: u64,
    pub gas_price: u128,
    pub gas_limit: u64,
    pub to: Option<Address>,
    pub value: Uint256,
    pub input: Vec<u8>,
}

impl View for Transaction {
    type V = TxView;

    open spec fn view(&self) -> TxView {
        TxView {
            chain_id: self.chain_id,
            nonce: self.nonce,
            gas_price: self.gas_price,
            gas_limit: self.gas_limit,
            to: match self.to {
                Option::Some(a) => Option::Some(a@),
                Option::None => Option::None,
            },
            value: self.value,
            input: self.input@,
        }
    }
}

impl Transaction {
    pub open spec fn wf(&self) -> bool {
        self@.wf()
    }
}

impl SignedTransaction for Transaction {
    open spec fn wf(&self) -> bool {
        self@.wf()
    }
}

impl PartialEq for Transaction {
    fn eq(&self, other: &Self) -> (r: bool) {
        let to_eq = match (&self.to, &other.to) {
            (Option::Some(a), Option::Some(b)) => eq_bytes(&a.bytes, &b.bytes),
            (Option::None, Option::None) => true,
            _ => false,
        };
        to_eq && self.chain_id == other.chain_id && self.nonce == other.nonce
            && self.gas_price == other.gas_price && self.gas_limit == other.gas_limit
            && self.value == other.value && eq_bytes(&self.input, &other.input)
    }
}

impl vstd::std_specs::cmp::PartialEqSpecImpl for Transaction {
    open spec fn obeys_eq_spec() -> bool {
        true
    }

    open spec fn eq_spec(&self, other: &Self) -> bool {
        self@ == other@
    }
}

impl Eq for Transaction {}

} // verus!
