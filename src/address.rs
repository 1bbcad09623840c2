use vstd::prelude::*;

verus! {

/// A 20-byte account identifier. The all-zero address stands for "no account".
#[derive(Clone, Copy, Debug)]
pub struct Address {
    pub bytes: [u8; 20],
}

impl Address {
    /// Whether this is the all-zero address.
    pub open spec fn is_zero_spec(self) -> bool {
        forall|i: int| 0 <= i < 20 ==> #[trigger] self.bytes@[i] == 0
    }

    pub fn new(bytes: [u8; 20]) -> (r: Address)
        ensures
            r.bytes@ == bytes@,
    {
        Address { bytes }
    }

    pub fn is_zero(&self) -> (r: bool)
        ensures
            r == self.is_zero_spec(),
    {
        let mut i: usize = 0;
        while i < 20
            invariant
                0 <= i <= 20,
                self.bytes@.len() == 20,
                forall|j: int| 0 <= j < i ==> #[trigger] self.bytes@[j] == 0,
            decreases 20 - i,
        {
            if self.bytes[i] != 0 {
                return false;
            }
            i = i + 1;
        }
        true
    }
}

} // verus!
