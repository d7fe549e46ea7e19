//! The 32-byte hash identifying blocks, headers and outputs.
use vstd::prelude::*;
use crate::encoding::{bytes_eq, hex_of, to_hex};

verus! {

/// A 32-byte hash value, the identity of every chain entity.
#[derive(Debug, Clone, Copy)]
pub struct Hash {
    data: [u8; 32],
}

impl View for Hash {
    type V = Seq<u8>;

    closed spec fn view(&self) -> Seq<u8> {
        self.data@
    }
}

/// What `Hash::from_vec` builds: the first 32 bytes of the input,
/// zero-padded on the right when it is shorter.
pub open spec fn spec_hash_from_vec(v: Seq<u8>) -> Seq<u8> {
    Seq::new(32, |i: int| if i < v.len() { v[i] } else { 0u8 })
}

impl Hash {
    /// Every hash holds exactly 32 bytes.
    pub proof fn lemma_len(&self)
        ensures
            self@.len() == 32,
    {
    }

    /// Build a hash from a byte string: the first 32 bytes are taken,
    /// and a shorter input is zero-padded on the right.
    pub fn from_vec(v: &Vec<u8>) -> (r: Hash)
        ensures
            r@ =~= spec_hash_from_vec(v@),
    {
        let mut data: [u8; 32] = [0u8; 32];
        let mut i: usize = 0;
        while i < 32 && i < v.len()
            invariant
                i <= 32,
                forall|j: int|
                    0 <= j < 32 ==> data@[j] == (if j < i && j < v@.len() {
                        v@[j]
                    } else {
                        0u8
                    }),
            decreases 32 - i,
        {
            data[i] = v[i];
            i = i + 1;
        }
        Hash { data }
    }

    /// The all-zero hash.
    pub fn zero() -> (r: Hash)
        ensures
            forall|i: int| 0 <= i < 32 ==> r@[i] == 0u8,
    {
        Hash { data: [0u8; 32] }
    }

    /// The raw bytes of the hash.
    pub fn as_bytes(&self) -> (r: &[u8])
        ensures
            r@ == self@,
    {
        self.data.as_slice()
    }

    /// Two hashes with the same bytes are the same hash.
    pub proof fn lemma_view_injective(a: Hash, b: Hash)
        requires
            a@ == b@,
        ensures
            a == b,
    {
        assert(a.data@ =~= b.data@);
        assert(a.data =~= b.data);
        assert(a =~= b);
    }

    /// The lowercase hex rendering of the hash.
    pub fn to_hex(&self) -> (r: String)
        ensures
            r@ == hex_of(self@),
    {
        to_hex(self.data.as_slice())
    }
}

impl PartialEq for Hash {
    fn eq(&self, other: &Hash) -> (r: bool) {
        bytes_eq(self.data.as_slice(), other.data.as_slice())
    }
}

impl vstd::std_specs::cmp::PartialEqSpecImpl for Hash {
    open spec fn obeys_eq_spec() -> bool {
        true
    }

    open spec fn eq_spec(&self, other: &Hash) -> bool {
        self@ == other@
    }
}

impl Eq for Hash {

}

} // verus!
