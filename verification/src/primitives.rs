//! Plain value types that block records are made of: fixed-width hashes,
//! addresses and 256-bit scalars.
use vstd::prelude::*;

verus! {

/// The zero-filled byte sequence of length `n`.
pub open spec fn zero_bytes(n: nat) -> Seq<u8> {
    Seq::new(n, |i: int| 0u8)
}

/// Builds a vector of `n` zero bytes.
pub fn zero_vec(n: usize) -> (r: Vec<u8>)
    ensures
        r@ == zero_bytes(n as nat),
{
    let mut v: Vec<u8> = Vec::new();
    let mut i: usize = 0;
    while i < n
        invariant
            i <= n,
            v@ == zero_bytes(i as nat),
        decreases n - i,
    {
        v.push(0u8);
        i += 1;
        proof {
            assert(v@ =~= zero_bytes(i as nat));
        }
    }
    v
}

/// Compares two byte vectors for element-wise equality.
pub fn eq_bytes(a: &Vec<u8>, b: &Vec<u8>) -> (r: bool)
    ensures
        r == (a@ == b@),
{
    if a.len() != b.len() {
        return false;
    }
    let mut i: usize = 0;
    while i < a.len()
        invariant
            i <= a@.len(),
            a@.len() == b@.len(),
            forall|j: int| 0 <= j < i ==> a@[j] == b@[j],
        decreases a@.len() - i,
    {
        if a[i] != b[i] {
            return false;
        }
        i += 1;
    }
    proof {
        assert(a@ =~= b@);
    }
    true
}

/// A 256-bit hash value, stored as its 32 bytes.
#[derive(Clone, Debug)]
pub struct Hash256 {
    pub bytes: Vec<u8>,
}

impl View for Hash256 {
    type V = Seq<u8>;

    open spec fn view(&self) -> Seq<u8> {
        self.bytes@
    }
}

impl Hash256 {
    /// A hash holds exactly 32 bytes.
    pub open spec fn wf(&self) -> bool {
        self@.len() == 32
    }

    pub fn new(bytes: Vec<u8>) -> (r: Self)
        requires
            bytes@.len() == 32,
        ensures
            r@ == bytes@,
            r.wf(),
    {
        Hash256 { bytes }
    }

    /// The all-zero hash.
    pub fn zero() -> (r: Self)
        ensures
            r@ == zero_bytes(32),
            r.wf(),
    {
        Hash256 { bytes: zero_vec(32) }
    }
}

impl PartialEq for Hash256 {
    fn eq(&self, other: &Self) -> (r: bool) {
        eq_bytes(&self.bytes, &other.bytes)
    }
}

impl vstd::std_specs::cmp::PartialEqSpecImpl for Hash256 {
    open spec fn obeys_eq_spec() -> bool {
        true
    }

    open spec fn eq_spec(&self, other: &Self) -> bool {
        self@ == other@
    }
}

impl Eq for Hash256 {}

impl Default for Hash256 {
    fn default() -> (r: Self)
        ensures
            r@ == zero_bytes(32),
            r.wf(),
    {
        Hash256::zero()
    }
}

/// A 160-bit account address, stored as its 20 bytes.
#[derive(Clone, Debug)]
pub struct Address {
    pub bytes: Vec<u8>,
}

impl View for Address {
    type V = Seq<u8>;

    open spec fn view(&self) -> Seq<u8> {
        self.bytes@
    }
}

impl Address {
    /// An address holds exactly 20 bytes.
    pub open spec fn wf(&self) -> bool {
        self@.len() == 20
    }

    pub fn new(bytes: Vec<u8>) -> (r: Self)
        requires
            bytes@.len() == 20,
        ensures
            r@ == bytes@,
            r.wf(),
    {
        Address { bytes }
    }
}

impl PartialEq for Address {
    fn eq(&self, other: &Self) -> (r: bool) {
        eq_bytes(&self.bytes, &other.bytes)
    }
}

impl vstd::std_specs::cmp::PartialEqSpecImpl for Address {
    open spec fn obeys_eq_spec() -> bool {
        true
    }

    open spec fn eq_spec(&self, other: &Self) -> bool {
        self@ == other@
    }
}

impl Eq for Address {}

/// An unsigned 256-bit scalar, stored as four 64-bit limbs, least significant
/// limb first.
#[derive(Clone, Copy, PartialEq, Eq, Structural, Debug)]
pub struct Uint256 {
    pub limb0: u64,
    pub limb1: u64,
    pub limb2: u64,
    pub limb3: u64,
}

impl Uint256 {
    pub fn from_u64(n: u64) -> (r: Self)
        ensures
            r == (Uint256 { limb0: n, limb1: 0u64, limb2: 0u64, limb3: 0u64 }),
    {
        Uint256 { limb0: n, limb1: 0, limb2: 0, limb3: 0 }
    }
}

impl Default for Uint256 {
    fn default() -> (r: Self)
        ensures
            r == (Uint256 { limb0: 0u64, limb1: 0u64, limb2: 0u64, limb3: 0u64 }),
    {
        Uint256 { limb0: 0, limb1: 0, limb2: 0, limb3: 0 }
    }
}

} // verus!
