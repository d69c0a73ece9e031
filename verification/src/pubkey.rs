use vstd::prelude::*;

verus! {

/// The 32-byte address of an account.
#[derive(Clone, Copy, Debug, PartialEq, Eq)]
pub struct Pubkey {
    pub bytes: [u8; 32],
}

impl Pubkey {
    /// Whether two addresses are the same, byte for byte.
    pub fn key_eq(&self, other: &Pubkey) -> (res: bool)
        ensures
            res == (*self == *other),
    {
        let mut i: usize = 0;
        while i < 32
            invariant
                0 <= i <= 32,
                forall|j: int| 0 <= j < i ==> self.bytes[j] == other.bytes[j],
            decreases 32 - i,
        {
            if self.bytes[i] != other.bytes[i] {
                return false;
            }
            i = i + 1;
        }
        assert(self.bytes =~= other.bytes);
        true
    }
}

} // verus!
