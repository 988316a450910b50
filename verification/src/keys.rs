//! Digests, keys and signatures, as the plain bytes that identify them.
use vstd::prelude::*;

verus! {

/// The number of a round. The node starts in round 1; genesis belongs to round 0.
pub type RoundNumber = u64;

/// The depth of a block in the chain.
pub type Depth = u64;

/// The hash that identifies a block or a batch of payload.
#[derive(Clone, Copy, Debug, Eq)]
pub struct Digest(pub [u8; 32]);

/// The public key that identifies a node.
#[derive(Clone, Copy, Debug, Eq)]
pub struct PublicKey(pub [u8; 32]);

/// A signature, in two halves.
#[derive(Clone, Copy, Debug, PartialEq, Eq)]
pub struct Signature {
    pub part1: [u8; 32],
    pub part2: [u8; 32],
}

/// 32 zero bytes.
pub open spec fn zeros() -> [u8; 32] {
    vstd::array::spec_array_fill_for_copy_type::<u8, 32>(0)
}

/// Whether two arrays hold the same bytes.
fn same_bytes(a: &[u8; 32], b: &[u8; 32]) -> (same: bool)
    ensures
        same == (*a == *b),
{
    let mut i: usize = 0;
    while i < 32
        invariant
            i <= 32,
            forall|j: int| 0 <= j < i ==> a[j] == b[j],
        decreases 32 - i,
    {
        if a[i] != b[i] {
            return false;
        }
        i = i + 1;
    }
    assert(*a =~= *b);
    true
}

impl PartialEq for Digest {
    fn eq(&self, other: &Self) -> (same: bool) {
        same_bytes(&self.0, &other.0)
    }
}

impl vstd::std_specs::cmp::PartialEqSpecImpl for Digest {
    open spec fn obeys_eq_spec() -> bool {
        true
    }

    open spec fn eq_spec(&self, other: &Self) -> bool {
        *self == *other
    }
}

impl PartialEq for PublicKey {
    fn eq(&self, other: &Self) -> (same: bool) {
        same_bytes(&self.0, &other.0)
    }
}

impl vstd::std_specs::cmp::PartialEqSpecImpl for PublicKey {
    open spec fn obeys_eq_spec() -> bool {
        true
    }

    open spec fn eq_spec(&self, other: &Self) -> bool {
        *self == *other
    }
}

impl Digest {
    /// The digest that the genesis certificate names: 32 zero bytes.
    pub open spec fn spec_zero() -> Digest {
        Digest(zeros())
    }

    /// The digest that the genesis certificate names: 32 zero bytes.
    pub fn zero() -> (digest: Digest)
        ensures
            digest == Digest::spec_zero(),
            forall|i: int| 0 <= i < 32 ==> digest.0[i] == 0,
    {
        Digest([0u8; 32])
    }

    /// The bytes of the digest: the key under which the store keeps what it identifies.
    pub fn to_vec(&self) -> (bytes: Vec<u8>)
        ensures
            bytes@ == self.0@,
    {
        let mut bytes: Vec<u8> = Vec::new();
        let mut i: usize = 0;
        while i < 32
            invariant
                i <= 32,
                bytes@ == self.0@.take(i as int),
            decreases 32 - i,
        {
            bytes.push(self.0[i]);
            i = i + 1;
        }
        assert(self.0@.take(32) =~= self.0@);
        bytes
    }
}

} // verus!
