use vstd::prelude::*;

verus! {

/// Number of bytes in an account address and in an answer digest.
pub const WORD_BYTES: usize = 32;

/// Byte-wise comparison of two 32-byte words.
pub fn bytes_equal(left: &[u8; 32], right: &[u8; 32]) -> (same: bool)
    ensures
        same == (left@ == right@),
{
    let mut i: usize = 0;
    while i < WORD_BYTES
        invariant
            i <= WORD_BYTES,
            forall|j: int| 0 <= j < i ==> left@[j] == right@[j],
        decreases WORD_BYTES - i,
    {
        if left[i] != right[i] {
            return false;
        }
        i += 1;
    }
    assert(left@ =~= right@);
    true
}

/// The identity of a caller: a 32-byte account address, compared byte by byte.
#[derive(Debug, Clone, Copy)]
pub struct AccountId(pub [u8; 32]);

impl View for AccountId {
    type V = Seq<u8>;

    open spec fn view(&self) -> Seq<u8> {
        self.0@
    }
}

impl PartialEq for AccountId {
    fn eq(&self, other: &Self) -> (same: bool) {
        bytes_equal(&self.0, &other.0)
    }
}

impl vstd::std_specs::cmp::PartialEqSpecImpl for AccountId {
    open spec fn obeys_eq_spec() -> bool {
        true
    }

    open spec fn eq_spec(&self, other: &Self) -> bool {
        self@ == other@
    }
}

impl Eq for AccountId {

}

} // verus!
