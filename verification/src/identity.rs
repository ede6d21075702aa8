use vstd::prelude::*;

verus! {

/// An opaque 32-byte account identifier (a public key) used for ownership
/// and access control. No cryptographic operation is performed on it here:
/// the library only stores and compares identities.
#[derive(Clone, Copy, Debug)]
pub struct Identity {
    pub bytes: [u8; 32],
}

impl View for Identity {
    type V = Seq<u8>;

    open spec fn view(&self) -> Seq<u8> {
        self.bytes@
    }
}

/// The all-zero identity, used to initialize fields that no project has
/// claimed yet.
pub open spec fn spec_null_identity() -> Seq<u8> {
    Seq::new(32, |_i: int| 0u8)
}

/// Builds the all-zero identity.
pub fn null_identity() -> (r: Identity)
    ensures
        r@ == spec_null_identity(),
{
    let bytes: [u8; 32] = [0u8; 32];
    proof {
        assert(bytes@ =~= spec_null_identity());
    }
    Identity { bytes }
}

/// Byte-for-byte comparison of two identities.
pub fn identity_eq(a: &Identity, b: &Identity) -> (r: bool)
    ensures
        r == (a@ == b@),
{
    let mut i: usize = 0;
    while i < 32
        invariant
            0 <= i <= 32,
            forall|j: int| 0 <= j < i ==> a@[j] == b@[j],
        decreases 32 - i,
    {
        if a.bytes[i] != b.bytes[i] {
            proof {
                assert(a@[i as int] != b@[i as int]);
            }
            return false;
        }
        i += 1;
    }
    proof {
        assert(a@ =~= b@);
    }
    true
}

} // verus!
