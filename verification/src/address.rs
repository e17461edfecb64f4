//! Account and contract identifiers.

use vstd::prelude::*;

verus! {

/// A 20-byte account or contract identifier.
#[derive(Clone, Copy, Debug, PartialEq, Eq, Hash)]
pub struct Address {
    pub bytes: [u8; 20],
}

impl View for Address {
    type V = Seq<u8>;

    open spec fn view(&self) -> Seq<u8> {
        self.bytes@
    }
}

impl Address {
    /// The identifier of twenty zero bytes.
    pub fn zero() -> (r: Address)
        ensures
            r@ == Seq::new(20, |i: int| 0u8),
    {
        let r = Address { bytes: [0u8; 20] };
        assert(r@ =~= Seq::new(20, |i: int| 0u8));
        r
    }

    /// The identifier made of the given bytes.
    pub fn from_bytes(bytes: [u8; 20]) -> (r: Address)
        ensures
            r@ == bytes@,
    {
        Address { bytes }
    }

    /// Whether two identifiers hold the same bytes.
    pub fn same(&self, other: &Address) -> (r: bool)
        ensures
            r == (self@ == other@),
    {
        let mut i: usize = 0;
        while i < 20
            invariant
                i <= 20,
                forall|j: int| 0 <= j < i ==> self.bytes@[j] == other.bytes@[j],
            decreases 20 - i,
        {
            if self.bytes[i] != other.bytes[i] {
                return false;
            }
            i += 1;
        }
        assert(self@ =~= other@);
        true
    }

    /// The identifier made of the twenty bytes that start at `start`; `None`
    /// where there are not that many.
    pub fn from_slice(bytes: &Vec<u8>, start: usize) -> (r: Option<Address>)
        ensures
            match r {
                Some(a) => start + 20 <= bytes@.len() && a@ == bytes@.subrange(
                    start as int,
                    start + 20,
                ),
                None => start + 20 > bytes@.len(),
            },
    {
        if bytes.len() < 20 || start > bytes.len() - 20 {
            return None;
        }
        let mut out: [u8; 20] = [0u8; 20];
        let mut i: usize = 0;
        while i < 20
            invariant
                i <= 20,
                start + 20 <= bytes.len(),
                forall|j: int| 0 <= j < i ==> out@[j] == bytes@[start + j],
            decreases 20 - i,
        {
            out[i] = bytes[start + i];
            i += 1;
        }
        let r = Address { bytes: out };
        assert(r@ =~= bytes@.subrange(start as int, start + 20));
        Some(r)
    }
}

/// The identifier that holds the given bytes.
pub open spec fn address_of(bytes: Seq<u8>) -> Address {
    choose|a: Address| a@ == bytes
}

/// An identifier is known by its bytes: two that hold the same bytes are the
/// same, and each is the identifier of its bytes.
pub proof fn lemma_address_by_bytes(a: Address, b: Address)
    ensures
        a@ == b@ ==> a == b,
        address_of(a@) == a,
{
    if a@ == b@ {
        assert(a.bytes =~= b.bytes);
    }
    let c = address_of(a@);
    assert(c@ == a@);
    assert(c.bytes =~= a.bytes);
}

} // verus!
