//! Assembly of one serving generation from the durable desired resources.
//!
//! Provider resource names are aliases only: a mount of a generation pins the
//! exact artifact that its provider resource names.
use crate::auth_fingerprint::AuthRuntimeFingerprint;
use crate::credential_codec::{AuthKind, CredentialEntry};
use crate::credential_document::{CredentialClientOverrides, CredentialId};
use crate::digest::derived_digest;
use crate::list::Record;
use crate::name::{ProviderId, ResourceName, ResourceRevision};
use vstd::prelude::*;

pub mod auth_laws;
pub mod bind;
pub mod laws;
pub mod refresh_sink;
pub mod resolve;
pub mod resolve_laws;
pub mod revocation;

verus! {

/// A retained provider artifact and what it calls itself.
#[derive(Debug)]
pub struct ProviderRef {
    pub id: ProviderId,
    pub name: String,
    pub version: Option<String>,
}

/// [`ProviderRef`] by what it spells.
pub struct ProviderRefView {
    pub id: ProviderId,
    pub name: Seq<char>,
    pub version: Option<Seq<char>>,
}

impl View for ProviderRef {
    type V = ProviderRefView;

    open spec fn view(&self) -> ProviderRefView {
        ProviderRefView {
            id: self.id,
            name: self.name@,
            version: crate::text::opt_text(self.version),
        }
    }
}

impl Record for ProviderRef {
    fn copied(&self) -> (copy: Self) {
        ProviderRef { id: self.id, name: self.name.clone(), version: self.version.clone() }
    }
}

/// The version of one resolved mount.
#[derive(Clone, Copy, Debug, PartialEq, Eq)]
pub struct MountVersion {
    pub digest: [u8; 32],
}

impl View for MountVersion {
    type V = Seq<u8>;

    open spec fn view(&self) -> Seq<u8> {
        self.digest@
    }
}

/// One mount with the provider and the credential that its names stand for.
#[derive(Debug)]
pub struct ResolvedMount {
    pub name: ResourceName,
    pub provider: ProviderRef,
    pub credential: Option<CredentialId>,
    pub max_fetch_blob_bytes: Option<u64>,
    pub canonical: Vec<u8>,
    pub version: MountVersion,
    pub revision: ResourceRevision,
}

impl ResolvedMount {
    /// Takes a mount with its canonical encoding, of which its version is
    /// made.
    pub fn new(
        mount: resolve::MountPlan,
        canonical: Vec<u8>,
        revision: ResourceRevision,
    ) -> (resolved: Self)
        ensures
            resolved.name == mount.name,
            resolved.provider == mount.provider,
            resolved.credential == mount.credential,
            resolved.max_fetch_blob_bytes == mount.max_fetch_blob_bytes,
            resolved.canonical == canonical,
            resolved.version@ == crate::digest::blake3_derived(
                "omnifs resolved mount version v1"@,
                canonical@,
            ),
            resolved.revision == revision,
    {
        let digest = derived_digest("omnifs resolved mount version v1", canonical.as_slice());
        ResolvedMount {
            name: mount.name,
            provider: mount.provider,
            credential: mount.credential,
            max_fetch_blob_bytes: mount.max_fetch_blob_bytes,
            canonical,
            version: MountVersion { digest },
            revision,
        }
    }
}

/// The durable state of one credential.
#[derive(Clone, Copy, Debug, PartialEq, Eq, Structural)]
pub enum CredentialState {
    Active,
    PendingRepublish,
    Blocked,
    RevocationPending,
    RevocationUnknown,
    Deleted,
}

impl CredentialState {
    /// Whether a generation may use the credential.
    pub open spec fn usable(self) -> bool {
        self == CredentialState::Active || self == CredentialState::PendingRepublish
    }
}

/// What the store says of a credential besides its material.
#[derive(Debug)]
pub struct CredentialSummary {
    pub id: CredentialId,
    pub provider: ProviderId,
    pub kind: AuthKind,
    pub auth_fingerprint: AuthRuntimeFingerprint,
    pub version: u64,
    pub generation: u64,
    pub state: CredentialState,
}

/// A credential that a generation uses.
#[derive(Debug)]
pub struct CredentialRuntime {
    pub id: CredentialId,
    pub provider: ProviderId,
    pub kind: AuthKind,
    pub fingerprint: AuthRuntimeFingerprint,
    pub version: u64,
    pub generation: u64,
    pub entry: CredentialEntry,
    pub overrides: CredentialClientOverrides,
}

/// A credential that becomes active once a generation that uses it is
/// published.
#[derive(Debug)]
pub struct PendingRefresh {
    pub id: CredentialId,
    pub version: u64,
    pub generation: u64,
}

/// [`PendingRefresh`] by what it spells.
pub struct RefreshView {
    pub id: crate::credential_document::IdView,
    pub version: u64,
    pub generation: u64,
}

impl View for PendingRefresh {
    type V = RefreshView;

    open spec fn view(&self) -> RefreshView {
        RefreshView { id: self.id@, version: self.version, generation: self.generation }
    }
}

/// The refreshes that are pending with one more credential.
pub open spec fn pending_with(
    pending: Seq<RefreshView>,
    summary: CredentialSummary,
) -> Seq<RefreshView> {
    if summary.state == CredentialState::PendingRepublish {
        pending.push(
            RefreshView {
                id: summary.id@,
                version: summary.version,
                generation: summary.generation,
            },
        )
    } else {
        pending
    }
}

/// A credential as a generation uses it.
pub open spec fn runtime_from(
    summary: CredentialSummary,
    entry: CredentialEntry,
    overrides: CredentialClientOverrides,
) -> CredentialRuntime {
    CredentialRuntime {
        id: summary.id,
        provider: summary.provider,
        kind: summary.kind,
        fingerprint: summary.auth_fingerprint,
        version: summary.version,
        generation: summary.generation,
        entry,
        overrides,
    }
}

/// Adds a stored credential to those of a generation. Blocked, revoked and
/// deleted credentials stay out, whatever their material. `decoded` is what the
/// material holds.
pub fn collect_credential(
    summary: CredentialSummary,
    decoded: Result<(CredentialEntry, CredentialClientOverrides), String>,
    credentials: &mut Vec<CredentialRuntime>,
    pending_refreshes: &mut Vec<PendingRefresh>,
) -> (outcome: Result<(), String>)
    ensures
        crate::list::views(final(pending_refreshes)@) == pending_with(
            crate::list::views(old(pending_refreshes)@),
            summary,
        ),
        match (summary.state.usable(), decoded) {
            (true, Ok((entry, overrides))) => outcome is Ok && final(credentials)@ == old(
                credentials,
            )@.push(runtime_from(summary, entry, overrides)),
            (true, Err(error)) => outcome == Err::<(), String>(error) && final(credentials)@
                == old(credentials)@,
            (false, _) => outcome is Ok && final(credentials)@ == old(credentials)@,
        },
{
    match summary.state {
        CredentialState::Active => {},
        CredentialState::PendingRepublish => {
            let ghost before = crate::list::views(pending_refreshes@);
            let refresh = PendingRefresh {
                id: summary.id.copied(),
                version: summary.version,
                generation: summary.generation,
            };
            pending_refreshes.push(refresh);
            assert(crate::list::views(pending_refreshes@) =~= before.push(refresh@));
        },
        CredentialState::Blocked
        | CredentialState::RevocationPending
        | CredentialState::RevocationUnknown
        | CredentialState::Deleted => return Ok(()),
    }
    match decoded {
        Ok((entry, overrides)) => {
            credentials.push(
                CredentialRuntime {
                    id: summary.id,
                    provider: summary.provider,
                    kind: summary.kind,
                    fingerprint: summary.auth_fingerprint,
                    version: summary.version,
                    generation: summary.generation,
                    entry,
                    overrides,
                },
            );
            Ok(())
        },
        Err(error) => Err(error),
    }
}

/// The scopes that a stored credential grants, which may be shown. A deleted
/// credential has no material left to read.
pub fn credential_scopes(
    state: CredentialState,
    material: &Result<crate::credential_codec::CredentialMaterial, String>,
) -> (scopes: Result<Vec<String>, String>)
    ensures
        match (state, *material) {
            (CredentialState::Deleted, _) => scopes matches Ok(scopes) && scopes@.len() == 0,
            (_, Ok(material)) => scopes matches Ok(scopes) && crate::text::texts(scopes@)
                == crate::credential_document::scopes_of(material@),
            (_, Err(error)) => scopes == Err::<Vec<String>, String>(error),
        },
{
    match state {
        CredentialState::Deleted => Ok(Vec::new()),
        _ => match material {
            Ok(material) => Ok(crate::credential_document::material_scopes(material)),
            Err(error) => Err(error.clone()),
        },
    }
}

/// The durable snapshot that a generation is built from.
#[derive(Debug)]
pub struct GenerationDraft {
    pub revision: ResourceRevision,
    pub mounts: Vec<ResolvedMount>,
    pub credentials: Vec<CredentialRuntime>,
    pub pending_refreshes: Vec<PendingRefresh>,
}

/// One mount of a generation and its version.
#[derive(Debug)]
pub struct MountProvenance {
    pub name: ResourceName,
    pub version: MountVersion,
}

/// One credential of a generation, with its version and its generation.
#[derive(Debug)]
pub struct CredentialProvenance {
    pub id: CredentialId,
    pub version: u64,
    pub generation: u64,
}

/// What a generation was built from.
#[derive(Debug)]
pub struct GenerationProvenance {
    pub revision: ResourceRevision,
    pub mounts: Vec<MountProvenance>,
    pub credentials: Vec<CredentialProvenance>,
}

impl GenerationDraft {
    /// What the generation is built from: the revision, every mount's version
    /// and every credential's.
    pub fn provenance(&self) -> (provenance: GenerationProvenance)
        ensures
            provenance.revision == self.revision,
            provenance.mounts@.len() == self.mounts@.len(),
            forall|i: int|
                0 <= i < self.mounts@.len() ==> (#[trigger] provenance.mounts@[i]).name@
                    == self.mounts@[i].name@ && provenance.mounts@[i].version
                    == self.mounts@[i].version,
            provenance.credentials@.len() == self.credentials@.len(),
            forall|i: int|
                0 <= i < self.credentials@.len() ==> (#[trigger] provenance.credentials@[i]).id@
                    == self.credentials@[i].id@ && provenance.credentials@[i].version
                    == self.credentials@[i].version && provenance.credentials@[i].generation
                    == self.credentials@[i].generation,
    {
        let mut mounts: Vec<MountProvenance> = Vec::new();
        let mut i: usize = 0;
        while i < self.mounts.len()
            invariant
                i <= self.mounts@.len(),
                mounts@.len() == i,
                forall|j: int|
                    0 <= j < i ==> (#[trigger] mounts@[j]).name@ == self.mounts@[j].name@
                        && mounts@[j].version == self.mounts@[j].version,
            decreases self.mounts@.len() - i,
        {
            mounts.push(
                MountProvenance {
                    name: self.mounts[i].name.clone(),
                    version: self.mounts[i].version,
                },
            );
            i = i + 1;
        }
        let mut credentials: Vec<CredentialProvenance> = Vec::new();
        let mut k: usize = 0;
        while k < self.credentials.len()
            invariant
                k <= self.credentials@.len(),
                credentials@.len() == k,
                forall|j: int|
                    0 <= j < k ==> (#[trigger] credentials@[j]).id@ == self.credentials@[j].id@
                        && credentials@[j].version == self.credentials@[j].version
                        && credentials@[j].generation == self.credentials@[j].generation,
            decreases self.credentials@.len() - k,
        {
            credentials.push(
                CredentialProvenance {
                    id: self.credentials[k].id.copied(),
                    version: self.credentials[k].version,
                    generation: self.credentials[k].generation,
                },
            );
            k = k + 1;
        }
        GenerationProvenance { revision: self.revision, mounts, credentials }
    }
}

/// The artifacts that mounts pin, each once, in the order of their first mount.
pub open spec fn pinned(mounts: Seq<ResolvedMount>) -> Seq<ProviderId>
    decreases mounts.len(),
{
    if mounts.len() == 0 {
        Seq::empty()
    } else {
        let earlier = pinned(mounts.drop_last());
        let id = mounts.last().provider.id;
        if earlier.contains(id) {
            earlier
        } else {
            earlier.push(id)
        }
    }
}

/// The artifacts to load for some mounts, each once.
pub fn providers_to_load(mounts: &Vec<ResolvedMount>) -> (ids: Vec<ProviderId>)
    ensures
        ids@ == pinned(mounts@),
{
    let mut ids: Vec<ProviderId> = Vec::new();
    let mut i: usize = 0;
    while i < mounts.len()
        invariant
            i <= mounts@.len(),
            ids@ == pinned(mounts@.take(i as int)),
        decreases mounts@.len() - i,
    {
        let id = mounts[i].provider.id;
        assert(mounts@.take(i + 1).drop_last() =~= mounts@.take(i as int));
        assert(mounts@.take(i + 1).last() == mounts@[i as int]);
        let mut known = false;
        let mut k: usize = 0;
        while k < ids.len()
            invariant
                k <= ids@.len(),
                known == exists|j: int| 0 <= j < k && ids@[j] == id,
            decreases ids@.len() - k,
        {
            if ids[k] == id {
                known = true;
            }
            k = k + 1;
        }
        if !known {
            ids.push(id);
        }
        i = i + 1;
    }
    assert(mounts@.take(i as int) =~= mounts@);
    ids
}

} // verus!
