//! What holds of every generation that is built.
use crate::credential_codec::AuthKind;
use crate::credential_document::{AuthScheme, CredentialId, IdView};
use crate::generation_builder::bind::{BuildView, LoadedProvider};
use crate::generation_builder::resolve::ResourceDefinition;
use crate::generation_builder::revocation::{IssuingProvider, StoredPayload};
use crate::generation_builder::{CredentialRuntime, CredentialSummary, ProviderRef, ResolvedMount};
use vstd::prelude::*;

verus! {

/// Only a mount whose credential is missing, or belongs to another provider,
/// waits for authentication. Every other defect of a credential fails the
/// build and is never shown as a mount without authentication.
pub proof fn only_a_missing_credential_degrades_a_mount(
    id: IdView,
    provider: LoadedProvider,
    credentials: Seq<CredentialRuntime>,
)
    requires
        credentials.len() <= usize::MAX,
    ensures
        ({
            let state = crate::generation_builder::bind::state_of(
                Some(id),
                Some(provider),
                credentials,
            );
            let place = crate::generation_builder::bind::place_of(credentials, id);
            let missing = place < 0 || credentials[place].provider != provider.id;
            &&& (state == Ok::<BuildView, Seq<char>>(BuildView::AuthRequired) <==> missing)
            &&& (!missing ==> (state matches Ok(state) ==> state matches BuildView::Active {
                auth,
                credential_generation,
            } && auth is Some && credential_generation == Some(credentials[place].generation)))
        }),
{
    crate::generation_builder::bind::a_place_is_within(credentials, id);
}

/// A mount authenticates only with a credential whose fingerprint still matches
/// the provider that the mount pins, and whose kind is that of the scheme.
pub proof fn an_active_credential_matches_its_provider(
    id: IdView,
    provider: LoadedProvider,
    credentials: Seq<CredentialRuntime>,
)
    requires
        credentials.len() <= usize::MAX,
        crate::generation_builder::bind::state_of(
            Some(id),
            Some(provider),
            credentials,
        ) matches Ok(state) && state is Active,
    ensures
        ({
            let place = crate::generation_builder::bind::place_of(credentials, id);
            &&& 0 <= place < credentials.len()
            &&& credentials[place].id@ == id
            &&& credentials[place].provider == provider.id
            &&& credentials[place].fingerprint@ == crate::digest::blake3_derived(
                "omnifs auth runtime fingerprint v1"@,
                provider.encoded@,
            )
            &&& provider.scheme is Some
            &&& (provider.scheme->Some_0 is Oauth <==> credentials[place].kind == AuthKind::OAuth)
        }),
{
    crate::generation_builder::bind::a_place_is_within(credentials, id);
}

/// Each resolved mount pins the artifact that its provider name stands for, and
/// carries the identity that its credential name stands for.
pub proof fn a_mount_pins_what_its_names_stand_for(
    resources: Seq<ResourceDefinition>,
    providers: Map<Seq<char>, ProviderRef>,
    ids: Map<Seq<char>, CredentialId>,
    at: int,
)
    requires
        crate::generation_builder::resolve::mounts_of(resources, providers, ids) matches Ok(mounts)
            && 0 <= at < mounts.len(),
    ensures
        ({
            let mount = crate::generation_builder::resolve::mounts_of(
                resources,
                providers,
                ids,
            )->Ok_0[at];
            exists|i: int|
                0 <= i < resources.len() && (#[trigger] resources[i]) is Mount && resources[i]->Mount_name@
                    == mount.name && providers.contains_key(resources[i]->Mount_provider@)
                    && mount.provider == providers[resources[i]->Mount_provider@]@
                    && match resources[i]->credential {
                    None => mount.credential is None,
                    Some(credential) => ids.contains_key(credential@) && mount.credential
                        == Some(ids[credential@]@),
                }
        }),
    decreases resources.len(),
{
    if resources.len() > 0 {
        let earlier = crate::generation_builder::resolve::mounts_of(
            resources.drop_last(),
            providers,
            ids,
        );
        let mounts = crate::generation_builder::resolve::mounts_of(resources, providers, ids)->Ok_0;
        let last = resources.len() - 1;
        assert(resources.last() == resources[last]);
        if earlier matches Ok(earlier) && at < earlier.len() {
            a_mount_pins_what_its_names_stand_for(resources.drop_last(), providers, ids, at);
            let i = choose|i: int|
                0 <= i < resources.drop_last().len() && (#[trigger] resources.drop_last()[i]) is Mount
                    && resources.drop_last()[i]->Mount_name@ == mounts[at].name
                    && providers.contains_key(resources.drop_last()[i]->Mount_provider@)
                    && mounts[at].provider == providers[resources.drop_last()[i]->Mount_provider@]@
                    && match resources.drop_last()[i]->credential {
                    None => mounts[at].credential is None,
                    Some(credential) => ids.contains_key(credential@) && mounts[at].credential
                        == Some(ids[credential@]@),
                };
            assert(resources[i] == resources.drop_last()[i]);
        }
    }
}

/// A token leaves for its provider only where the stored credential still
/// matches that provider and the provider revokes.
pub proof fn only_a_matching_credential_is_revoked_upstream(
    summary: CredentialSummary,
    provider_text: Seq<char>,
    provider: Option<IssuingProvider>,
    payload: Result<StoredPayload, String>,
)
    requires
        crate::generation_builder::revocation::revocation_of(
            summary,
            provider_text,
            provider,
            payload,
        ) matches Ok(revocation) && revocation is Remote,
    ensures
        summary.kind == AuthKind::OAuth,
        provider matches Some(provider) && provider.scheme matches Some((scheme, encoded))
            && scheme matches AuthScheme::Oauth { revocation_endpoint, .. }
            && revocation_endpoint is Some && summary.auth_fingerprint@
            == crate::digest::blake3_derived("omnifs auth runtime fingerprint v1"@, encoded@),
{
}

/// Each artifact that a mount pins is loaded, and none twice.
pub proof fn each_pinned_artifact_is_loaded_once(mounts: Seq<ResolvedMount>)
    ensures
        crate::generation_builder::pinned(mounts).no_duplicates(),
        forall|i: int|
            0 <= i < mounts.len() ==> crate::generation_builder::pinned(mounts).contains(
                (#[trigger] mounts[i]).provider.id,
            ),
    decreases mounts.len(),
{
    if mounts.len() > 0 {
        let earlier = mounts.drop_last();
        each_pinned_artifact_is_loaded_once(earlier);
        let before = crate::generation_builder::pinned(earlier);
        let ids = crate::generation_builder::pinned(mounts);
        let id = mounts.last().provider.id;
        assert forall|i: int| 0 <= i < mounts.len() implies ids.contains(
            (#[trigger] mounts[i]).provider.id,
        ) by {
            if i < earlier.len() {
                assert(mounts[i] == earlier[i]);
                let j = choose|j: int| 0 <= j < before.len() && before[j] == mounts[i].provider.id;
                assert(ids[j] == before[j]);
            } else if !before.contains(id) {
                assert(ids[before.len() as int] == id);
            }
        }
    }
}

} // verus!
