//! Account addresses.

use vstd::prelude::*;

verus! {

/// A 32-byte account address.
#[derive(Clone, Copy, Debug, PartialEq, Eq, Hash)]
pub struct Key {
    pub bytes: [u8; 32],
}

/// The all-zero address, which the program uses to mean "no account".
pub open spec fn zero_key() -> Seq<u8> {
    Seq::new(32, |i: int| 0u8)
}

impl View for Key {
    type V = Seq<u8>;

    open spec fn view(&self) -> Seq<u8> {
        self.bytes@
    }
}

impl Key {
    /// The all-zero address.
    pub fn zero() -> (k: Key)
        ensures
            k@ == zero_key(),
    {
        let k = Key { bytes: [0u8; 32] };
        assert(k@ =~= zero_key());
        k
    }

    /// Builds an address from its bytes.
    pub fn new(bytes: [u8; 32]) -> (k: Key)
        ensures
            k@ == bytes@,
    {
        Key { bytes }
    }

    /// Whether two addresses are the same.
    pub fn same(&self, other: &Key) -> (r: bool)
        ensures
            r == (self@ == other@),
    {
        let mut i: usize = 0;
        while i < 32
            invariant
                0 <= i <= 32,
                self@.len() == 32,
                other@.len() == 32,
                forall|j: int| 0 <= j < i ==> self@[j] == other@[j],
            decreases 32 - i,
        {
            if self.bytes[i] != other.bytes[i] {
                return false;
            }
            i = i + 1;
        }
        assert(self@ =~= other@);
        true
    }

    /// Whether this is the all-zero address.
    pub fn is_zero(&self) -> (r: bool)
        ensures
            r == (self@ == zero_key()),
    {
        let z = Key::zero();
        self.same(&z)
    }
}

/// Whether an address occurs in a list.
pub open spec fn key_in(list: Seq<Key>, k: Seq<u8>) -> bool {
    exists|i: int| 0 <= i < list.len() && #[trigger] list[i]@ == k
}

/// Whether an address occurs in a list.
pub fn contains_key(list: &Vec<Key>, k: &Key) -> (r: bool)
    ensures
        r == key_in(list@, k@),
{
    let mut i: usize = 0;
    while i < list.len()
        invariant
            0 <= i <= list@.len(),
            forall|j: int| 0 <= j < i ==> #[trigger] list@[j]@ != k@,
        decreases list@.len() - i,
    {
        if list[i].same(k) {
            return true;
        }
        i = i + 1;
    }
    false
}

} // verus!
