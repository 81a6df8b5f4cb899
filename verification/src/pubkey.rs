//! 32-byte account addresses.

use vstd::prelude::*;

verus! {

/// The address of an account or a program.
#[derive(Clone, Copy, Debug)]
pub struct Pubkey(pub [u8; 32]);

impl View for Pubkey {
    type V = Seq<u8>;

    open spec fn view(&self) -> Seq<u8> {
        self.0@
    }
}

impl Pubkey {
    /// The address made of the first 32 bytes of `s`.
    pub open spec fn spec_from_bytes(s: Seq<u8>) -> Pubkey
        recommends
            s.len() == 32,
    {
        Pubkey(
            [
                s[0], s[1], s[2], s[3], s[4], s[5], s[6], s[7],
                s[8], s[9], s[10], s[11], s[12], s[13], s[14], s[15],
                s[16], s[17], s[18], s[19], s[20], s[21], s[22], s[23],
                s[24], s[25], s[26], s[27], s[28], s[29], s[30], s[31],
            ],
        )
    }

    /// Wraps 32 bytes as an address.
    pub fn new_from_array(bytes: [u8; 32]) -> (key: Pubkey)
        ensures
            key.0 == bytes,
            key@ == bytes@,
    {
        Pubkey(bytes)
    }

    /// The 32 bytes of the address.
    pub fn to_bytes(&self) -> (bytes: [u8; 32])
        ensures
            bytes == self.0,
    {
        self.0
    }

    /// Reads an address from `src[offset..offset + 32]`.
    pub fn from_slice(src: &[u8], offset: usize) -> (key: Pubkey)
        requires
            offset + 32 <= src.len(),
        ensures
            key@ == src@.subrange(offset as int, offset + 32),
            key == Pubkey::spec_from_bytes(src@.subrange(offset as int, offset + 32)),
    {
        let mut bytes: [u8; 32] = [0u8; 32];
        let mut i: usize = 0;
        while i < 32
            invariant
                i <= 32,
                offset + 32 <= src.len(),
                forall|j: int| 0 <= j < i ==> bytes@[j] == src@[offset + j],
            decreases 32 - i,
        {
            bytes[i] = src[offset + i];
            i += 1;
        }
        assert(bytes@ =~= src@.subrange(offset as int, offset + 32));
        proof {
            lemma_from_bytes(src@.subrange(offset as int, offset + 32));
            lemma_pubkey_ext(
                Pubkey(bytes),
                Pubkey::spec_from_bytes(src@.subrange(offset as int, offset + 32)),
            );
        }
        Pubkey(bytes)
    }
}

impl PartialEq for Pubkey {
    fn eq(&self, other: &Pubkey) -> (same: bool) {
        let mut i: usize = 0;
        while i < 32
            invariant
                i <= 32,
                forall|j: int| 0 <= j < i ==> self.0@[j] == other.0@[j],
            decreases 32 - i,
        {
            if self.0[i] != other.0[i] {
                return false;
            }
            i += 1;
        }
        assert(self.0 =~= other.0);
        true
    }
}

impl Eq for Pubkey {

}

impl vstd::std_specs::cmp::PartialEqSpecImpl for Pubkey {
    open spec fn obeys_eq_spec() -> bool {
        true
    }

    open spec fn eq_spec(&self, other: &Pubkey) -> bool {
        *self == *other
    }
}

/// Two addresses with the same bytes are the same address.
pub proof fn lemma_pubkey_ext(a: Pubkey, b: Pubkey)
    requires
        a@ == b@,
    ensures
        a == b,
{
    assert(a.0 =~= b.0);
}

/// An address made of 32 bytes has exactly those bytes.
pub proof fn lemma_from_bytes(s: Seq<u8>)
    requires
        s.len() == 32,
    ensures
        Pubkey::spec_from_bytes(s)@ == s,
{
    assert(Pubkey::spec_from_bytes(s)@ =~= s);
}

/// Every address is the one made of its own bytes.
pub proof fn lemma_from_own_bytes(key: Pubkey)
    ensures
        key@.len() == 32,
        Pubkey::spec_from_bytes(key@) == key,
{
    lemma_from_bytes(key@);
    lemma_pubkey_ext(Pubkey::spec_from_bytes(key@), key);
}

} // verus!
