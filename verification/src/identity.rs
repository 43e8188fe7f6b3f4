//! Caller identities.

use vstd::prelude::*;
use vstd::std_specs::cmp::PartialEqSpecImpl;

verus! {

/// The largest number of bytes an identity can hold.
pub const MAX_IDENTITY_BYTES: usize = 29;

/// An opaque caller identity: a short byte string that is only ever compared
/// for equality.
#[derive(Debug, Eq, Hash)]
pub struct Identity {
    bytes: Vec<u8>,
}

impl View for Identity {
    type V = Seq<u8>;

    closed spec fn view(&self) -> Seq<u8> {
        self.bytes@
    }
}

impl Identity {
    #[verifier::type_invariant]
    spec fn bounded(self) -> bool {
        self.bytes@.len() <= MAX_IDENTITY_BYTES
    }

    /// Makes an identity of `bytes`, or nothing when they are too many.
    pub fn from_bytes(bytes: Vec<u8>) -> (r: Option<Identity>)
        ensures
            bytes@.len() <= MAX_IDENTITY_BYTES ==> r.is_some() && r.unwrap()@ == bytes@,
            bytes@.len() > MAX_IDENTITY_BYTES ==> r.is_none(),
    {
        if bytes.len() <= MAX_IDENTITY_BYTES {
            Some(Identity { bytes })
        } else {
            None
        }
    }

    /// The bytes of this identity.
    pub fn as_bytes(&self) -> (r: &[u8])
        ensures
            r@ == self@,
            r@.len() <= MAX_IDENTITY_BYTES,
    {
        proof {
            use_type_invariant(self);
        }
        self.bytes.as_slice()
    }

    /// Whether two identities are the same caller.
    pub fn same(&self, other: &Identity) -> (r: bool)
        ensures
            r == (self@ == other@),
    {
        if self.bytes.len() != other.bytes.len() {
            return false;
        }
        let mut i: usize = 0;
        while i < self.bytes.len()
            invariant
                i <= self.bytes@.len(),
                self.bytes@.len() == other.bytes@.len(),
                forall|j: int| 0 <= j < i ==> self.bytes@[j] == other.bytes@[j],
            decreases self.bytes@.len() - i,
        {
            if self.bytes[i] != other.bytes[i] {
                return false;
            }
            i = i + 1;
        }
        assert(self.bytes@ =~= other.bytes@);
        true
    }
}

impl Clone for Identity {
    fn clone(&self) -> (r: Self)
        ensures
            r@ == self@,
    {
        proof {
            use_type_invariant(self);
        }
        Identity { bytes: self.bytes.clone() }
    }
}

impl PartialEq for Identity {
    fn eq(&self, other: &Identity) -> (r: bool) {
        self.same(other)
    }
}

impl PartialEqSpecImpl for Identity {
    open spec fn obeys_eq_spec() -> bool {
        true
    }

    open spec fn eq_spec(&self, other: &Identity) -> bool {
        self@ == other@
    }
}

} // verus!
