use vstd::prelude::*;

verus! {

/// A 32-byte account address (an ed25519 public key or a program-derived address).
#[derive(Clone, Copy, Debug, PartialEq, Eq)]
pub struct Address {
    pub bytes: [u8; 32],
}

/// The address of the board's operator, the only signer allowed to star or
/// feature posts.
pub open spec fn ceo() -> Address {
    Address {
        bytes: [
            71, 129, 237, 45, 157, 114, 219, 247, 145, 55, 122, 90, 79, 40, 9, 104,
            111, 249, 13, 82, 255, 239, 95, 141, 63, 111, 198, 209, 33, 88, 15, 215,
        ],
    }
}

/// The operator's address, as bytes.
pub fn ceo_address() -> (a: Address)
    ensures
        a == ceo(),
{
    Address {
        bytes: [
            71, 129, 237, 45, 157, 114, 219, 247, 145, 55, 122, 90, 79, 40, 9, 104,
            111, 249, 13, 82, 255, 239, 95, 141, 63, 111, 198, 209, 33, 88, 15, 215,
        ],
    }
}

impl Address {
    /// Whether two addresses are the same key.
    pub fn same_as(&self, other: &Address) -> (r: bool)
        ensures
            r == (*self == *other),
    {
        let mut i: usize = 0;
        while i < 32
            invariant
                i <= 32,
                forall|j: int| 0 <= j < i ==> self.bytes[j] == other.bytes[j],
            decreases 32 - i,
        {
            if self.bytes[i] != other.bytes[i] {
                return false;
            }
            i = i + 1;
        }
        assert(self.bytes =~= other.bytes);
        true
    }
}

} // verus!
