use vstd::prelude::*;

verus! {

/// An account identifier, held as the bytes of its canonical text encoding.
/// Two addresses denote the same account exactly when these bytes agree.
#[derive(Debug)]
pub struct Address {
    pub key: Vec<u8>,
}

impl View for Address {
    type V = Seq<u8>;

    open spec fn view(&self) -> Seq<u8> {
        self.key@
    }
}

impl Address {
    pub fn new(key: Vec<u8>) -> (r: Address)
        ensures
            r@ == key@,
    {
        Address { key }
    }

    /// Whether `self` and `other` denote the same account.
    pub fn same_as(&self, other: &Address) -> (r: bool)
        ensures
            r == (self@ == other@),
    {
        let n = self.key.len();
        if n != other.key.len() {
            return false;
        }
        let mut i: usize = 0;
        while i < n
            invariant
                n == self.key@.len(),
                n == other.key@.len(),
                i <= n,
                forall|j: int| 0 <= j < i ==> self.key@[j] == other.key@[j],
            decreases n - i,
        {
            if self.key[i] != other.key[i] {
                return false;
            }
            i = i + 1;
        }
        proof {
            assert(self.key@ =~= other.key@);
        }
        true
    }
}

impl Clone for Address {
    fn clone(&self) -> (r: Address)
        ensures
            r@ == self@,
    {
        Address { key: self.key.clone() }
    }
}

} // verus!
