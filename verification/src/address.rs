//! Endpoint addresses and peer handles.
use vstd::prelude::*;
use vstd::std_specs::cmp::PartialEqSpec;

verus! {

/// The opaque bytes by which libfabric names an endpoint.
///
/// They can travel between peers by any means; [`crate::AddressExchangeChannel`] is one.
#[derive(Debug)]
pub struct FabricAddress(Vec<u8>);

impl View for FabricAddress {
    type V = Seq<u8>;

    closed spec fn view(&self) -> Seq<u8> {
        self.0@
    }
}

impl FabricAddress {
    /// The address made of `bytes`.
    pub fn new(bytes: Vec<u8>) -> (addr: Self)
        ensures
            addr@ == bytes@,
    {
        FabricAddress(bytes)
    }

    /// The bytes of the address.
    pub fn as_bytes(&self) -> (bytes: &[u8])
        ensures
            bytes@ == self@,
    {
        self.0.as_slice()
    }

    /// Gives up the address for its bytes.
    pub fn into_bytes(self) -> (bytes: Vec<u8>)
        ensures
            bytes@ == self@,
    {
        self.0
    }

    /// How many bytes the address has.
    pub fn len(&self) -> (len: usize)
        ensures
            len == self@.len(),
    {
        self.0.len()
    }
}

impl Clone for FabricAddress {
    /// The same address once more.
    fn clone(&self) -> (copy: Self)
        ensures
            copy@ == self@,
    {
        let bytes = self.0.clone();
        assert(bytes@ =~= self.0@);
        FabricAddress(bytes)
    }
}

impl PartialEq for FabricAddress {
    /// Whether the two addresses have the same bytes.
    fn eq(&self, other: &Self) -> (same: bool) {
        if self.0.len() != other.0.len() {
            return false;
        }
        let mut i: usize = 0;
        while i < self.0.len()
            invariant
                self@.len() == other@.len(),
                i <= self@.len(),
                self@.take(i as int) =~= other@.take(i as int),
            decreases self@.len() - i,
        {
            if self.0[i] != other.0[i] {
                assert(self@[i as int] != other@[i as int]);
                return false;
            }
            i += 1;
        }
        assert(self@ =~= self@.take(i as int));
        assert(other@ =~= other@.take(i as int));
        true
    }
}

impl vstd::std_specs::cmp::PartialEqSpecImpl for FabricAddress {
    open spec fn obeys_eq_spec() -> bool {
        true
    }

    open spec fn eq_spec(&self, other: &Self) -> bool {
        self@ == other@
    }
}

impl Eq for FabricAddress {

}

/// Addresses are equal when they have as many bytes and each byte is the same, and not
/// otherwise.
pub proof fn equal_addresses_have_the_same_bytes(a: FabricAddress, b: FabricAddress)
    ensures
        a.eq_spec(&b) <==> a@.len() == b@.len() && (forall|i: int|
            0 <= i < a@.len() ==> #[trigger] a@[i] == b@[i]),
{
    if a@.len() == b@.len() && (forall|i: int| 0 <= i < a@.len() ==> #[trigger] a@[i] == b@[i]) {
        assert(a@ =~= b@);
    }
}

/// The handle of a peer in the address vector: what libfabric calls a `fi_addr_t`.
#[derive(Debug, Clone, Copy, PartialEq, Eq, Hash, Structural)]
pub struct PeerId(pub u64);

} // verus!
