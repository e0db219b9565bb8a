use vstd::prelude::*;

verus! {

/// A 32-byte identity: a wallet, a mint, a token account or a program.
#[derive(Clone, Copy, Debug)]
pub struct Key {
    pub bytes: [u8; 32],
}

impl View for Key {
    type V = Seq<u8>;

    open spec fn view(&self) -> Seq<u8> {
        self.bytes@
    }
}

/// The escrow program's own identity, from which its authorities are derived.
pub const PROGRAM_ID: [u8; 32] = [
    182, 200, 55, 70, 50, 233, 118, 80, 77, 3, 212, 118, 32, 131, 27, 106,
    202, 13, 231, 230, 194, 179, 220, 155, 225, 37, 158, 121, 207, 171, 53, 125,
];

impl Key {
    pub fn new(bytes: [u8; 32]) -> (r: Key)
        ensures
            r.bytes == bytes,
    {
        Key { bytes }
    }

    pub fn program_id() -> (r: Key)
        ensures
            r@ == PROGRAM_ID@,
    {
        Key { bytes: PROGRAM_ID }
    }

    /// Byte-wise equality of two identities.
    pub fn same(&self, other: &Key) -> (r: bool)
        ensures
            r == (self@ == other@),
    {
        let mut i: usize = 0;
        while i < 32
            invariant
                0 <= i <= 32,
                self.bytes@.len() == 32,
                other.bytes@.len() == 32,
                forall|j: int| 0 <= j < i ==> self.bytes@[j] == other.bytes@[j],
            decreases 32 - i,
        {
            if self.bytes[i] != other.bytes[i] {
                return false;
            }
            i = i + 1;
        }
        assert(self.bytes@ =~= other.bytes@);
        true
    }
}

} // verus!
