use vstd::prelude::*;

verus! {

/// Length in bytes of an account identity.
pub const IDENTITY_LEN: usize = 32;

/// An account identity (a 32-byte public key) held as plain bytes.
#[derive(Clone, Copy, Debug)]
pub struct Identity {
    pub bytes: [u8; 32],
}

impl View for Identity {
    type V = Seq<u8>;

    open spec fn view(&self) -> Seq<u8> {
        self.bytes@
    }
}

impl Identity {
    pub fn new(bytes: [u8; 32]) -> (r: Identity)
        ensures
            r.bytes == bytes,
            r@ == bytes@,
    {
        Identity { bytes }
    }

    /// The identity whose 32 bytes are all `b`.
    pub fn filled(b: u8) -> (r: Identity)
        ensures
            r@ == Seq::new(32, |i: int| b),
    {
        let r = Identity { bytes: [b; 32] };
        assert(r@ =~= Seq::new(32, |i: int| b));
        r
    }

    /// Builds an identity from the first 32 bytes of `b` starting at `at`.
    pub fn from_slice_at(b: &[u8], at: usize) -> (r: Identity)
        requires
            at + 32 <= b@.len(),
        ensures
            r@ == b@.subrange(at as int, at + 32),
    {
        let mut bytes: [u8; 32] = [0u8; 32];
        let mut i: usize = 0;
        while i < 32
            invariant
                0 <= i <= 32,
                at + 32 <= b.len(),
                forall|j: int| 0 <= j < i ==> bytes@[j] == b@[at + j],
            decreases 32 - i,
        {
            bytes[i] = b[at + i];
            i = i + 1;
        }
        let r = Identity { bytes };
        assert(r@ =~= b@.subrange(at as int, at + 32));
        r
    }

    /// Byte-wise equality of two identities.
    pub fn same(&self, other: &Identity) -> (r: bool)
        ensures
            r == (self@ == other@),
    {
        let mut i: usize = 0;
        while i < 32
            invariant
                0 <= i <= 32,
                forall|j: int| 0 <= j < i ==> self@[j] == other@[j],
            decreases 32 - i,
        {
            if self.bytes[i] != other.bytes[i] {
                return false;
            }
            i = i + 1;
        }
        assert(self@ =~= other@);
        true
    }
}

impl PartialEq for Identity {
    fn eq(&self, other: &Identity) -> (r: bool) {
        self.same(other)
    }
}

impl vstd::std_specs::cmp::PartialEqSpecImpl for Identity {
    open spec fn obeys_eq_spec() -> bool {
        true
    }

    open spec fn eq_spec(&self, other: &Identity) -> bool {
        self@ == other@
    }
}

impl Eq for Identity {
}

} // verus!
