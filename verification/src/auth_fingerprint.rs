//! Fingerprints of what a credential was issued against, by which a
//! generation build detects that a stored credential no longer matches its
//! provider.
use crate::digest::derived_digest;
use crate::text::same_bytes;
use vstd::prelude::*;

verus! {

/// A provider's pinned auth scheme and a credential's client overrides, by
/// their digest.
#[derive(Clone, Copy, Debug, PartialEq, Eq)]
pub struct AuthRuntimeFingerprint {
    pub digest: [u8; 32],
}

impl View for AuthRuntimeFingerprint {
    type V = Seq<u8>;

    open spec fn view(&self) -> Seq<u8> {
        self.digest@
    }
}

impl AuthRuntimeFingerprint {
    /// Whether both stand for the same scheme and overrides.
    pub fn same(&self, other: &Self) -> (same: bool)
        ensures
            same == (self@ == other@),
    {
        same_bytes(self.digest.as_slice(), other.digest.as_slice())
    }
}

/// The fingerprint of an encoded provider identity, scheme and overrides.
pub fn auth_fingerprint(encoded: &[u8]) -> (fingerprint: AuthRuntimeFingerprint)
    ensures
        fingerprint@ == crate::digest::blake3_derived(
            "omnifs auth runtime fingerprint v1"@,
            encoded@,
        ),
{
    AuthRuntimeFingerprint { digest: derived_digest("omnifs auth runtime fingerprint v1", encoded) }
}

} // verus!
