//! What the names of the desired resources are resolved to.
use crate::credential_document::{CredentialId, IdView};
use crate::generation_builder::resolve::{BindingView, MountView, ResourceDefinition};
use crate::generation_builder::{ProviderRef, ResolvedMount};
use crate::name::ProviderId;
use vstd::prelude::*;

verus! {

/// The providers can be used exactly when each declared artifact is retained, and a
/// name then stands for what is retained of its last declaration, and of no other.
pub proof fn a_provider_name_stands_for_its_last_declaration(
    resources: Seq<ResourceDefinition>,
    name: Seq<char>,
    at: int,
)
    requires
        -1 <= at < resources.len(),
        at >= 0 ==> resources[at] is Provider && resources[at]->Provider_name@ == name,
        forall|j: int|
            at < j < resources.len() ==> !((#[trigger] resources[j]) is Provider
                && resources[j]->Provider_name@ == name),
    ensures
        crate::generation_builder::resolve::providers_of(resources) is Ok <==> forall|i: int|
            0 <= i < resources.len() && (#[trigger] resources[i]) is Provider
                ==> resources[i]->retained is Some,
        crate::generation_builder::resolve::providers_of(resources) matches Ok(providers) ==> {
            &&& providers.contains_key(name) <==> at >= 0
            &&& at >= 0 ==> Some(providers[name]) == resources[at]->retained
        },
    decreases resources.len(),
{
    if resources.len() > 0 {
        let rest = resources.drop_last();
        let last = resources.len() - 1;
        let before = if at == last {
            the_last_declaration_before(rest, name)
        } else {
            at
        };
        assert forall|j: int| before < j < rest.len() implies !((#[trigger] rest[j]) is Provider
            && rest[j]->Provider_name@ == name) by {
            assert(rest[j] == resources[j]);
        }
        if before >= 0 {
            assert(rest[before] == resources[before]);
        }
        a_provider_name_stands_for_its_last_declaration(rest, name, before);
        assert(resources[last] == resources.last());
        let held = forall|i: int|
            0 <= i < rest.len() && (#[trigger] rest[i]) is Provider ==> rest[i]->retained is Some;
        if held {
            assert forall|i: int|
                0 <= i < last && (#[trigger] resources[i]) is Provider implies resources[i]->retained
                is Some by {
                assert(rest[i] == resources[i]);
            }
        } else {
            let i = choose|i: int|
                0 <= i < rest.len() && (#[trigger] rest[i]) is Provider && rest[i]->retained is None;
            assert(resources[i] == rest[i]);
        }
    }
}

proof fn the_last_declaration_before(resources: Seq<ResourceDefinition>, name: Seq<char>) -> (at: int)
    ensures
        -1 <= at < resources.len(),
        at >= 0 ==> resources[at] is Provider && resources[at]->Provider_name@ == name,
        forall|j: int|
            at < j < resources.len() ==> !((#[trigger] resources[j]) is Provider
                && resources[j]->Provider_name@ == name),
    decreases resources.len(),
{
    if resources.len() == 0 {
        -1
    } else if resources.last() is Provider && resources.last()->Provider_name@ == name {
        resources.len() - 1
    } else {
        let rest = resources.drop_last();
        let at = the_last_declaration_before(rest, name);
        assert forall|j: int| at < j < resources.len() implies !((#[trigger] resources[j]) is Provider
            && resources[j]->Provider_name@ == name) by {
            if j < rest.len() {
                assert(rest[j] == resources[j]);
            }
        }
        at
    }
}

/// Whether a binding stands for a credential resource: under its name, the identity
/// made of what its provider calls itself, its scheme and its account.
pub open spec fn is_bound_as(
    binding: BindingView,
    resource: ResourceDefinition,
    providers: Map<Seq<char>, ProviderRef>,
) -> bool {
    resource matches ResourceDefinition::Credential { name, provider, scheme, account } && {
        &&& providers.contains_key(provider@)
        &&& binding.name == name@
        &&& binding.id.provider_name == providers[provider@].name@
        &&& binding.id.scheme == scheme@
        &&& binding.id.account == account@
    }
}

/// Where no credential names an absent provider, each credential resource is bound
/// and nothing else is; where one does, the reading fails.
pub proof fn each_credential_resource_is_bound(
    resources: Seq<ResourceDefinition>,
    providers: Map<Seq<char>, ProviderRef>,
)
    ensures
        ({
            let stage = crate::generation_builder::resolve::credentials_of(resources, providers);
            &&& stage.failure is None <==> forall|i: int|
                0 <= i < resources.len() && (#[trigger] resources[i]) is Credential
                    ==> providers.contains_key(resources[i]->Credential_provider@)
            &&& stage.failure is None ==> forall|i: int|
                0 <= i < resources.len() && (#[trigger] resources[i]) is Credential ==> exists|k: int|
                    0 <= k < stage.bindings.len() && is_bound_as(
                        #[trigger] stage.bindings[k],
                        resources[i],
                        providers,
                    )
            &&& forall|k: int|
                0 <= k < stage.bindings.len() ==> exists|i: int|
                    0 <= i < resources.len() && is_bound_as(
                        #[trigger] stage.bindings[k],
                        #[trigger] resources[i],
                        providers,
                    )
        }),
    decreases resources.len(),
{
    let stage = crate::generation_builder::resolve::credentials_of(resources, providers);
    if resources.len() > 0 {
        let rest = resources.drop_last();
        let last = resources.len() - 1;
        let earlier = crate::generation_builder::resolve::credentials_of(rest, providers);
        each_credential_resource_is_bound(rest, providers);
        assert(resources[last] == resources.last());
        if earlier.failure is None {
            assert forall|i: int| 0 <= i < last && (#[trigger] resources[i]) is Credential implies
                providers.contains_key(resources[i]->Credential_provider@) by {
                assert(rest[i] == resources[i]);
            }
        } else {
            let i = choose|i: int|
                0 <= i < rest.len() && (#[trigger] rest[i]) is Credential && !providers.contains_key(
                    rest[i]->Credential_provider@,
                );
            assert(resources[i] == rest[i]);
        }
        if stage.failure is None {
            assert forall|i: int|
                0 <= i < resources.len() && (#[trigger] resources[i]) is Credential implies exists|
                k: int|
                0 <= k < stage.bindings.len() && is_bound_as(
                    #[trigger] stage.bindings[k],
                    resources[i],
                    providers,
                ) by {
                if i < last {
                    assert(rest[i] == resources[i]);
                    let k = choose|k: int|
                        0 <= k < earlier.bindings.len() && is_bound_as(
                            #[trigger] earlier.bindings[k],
                            rest[i],
                            providers,
                        );
                    assert(stage.bindings[k] == earlier.bindings[k]);
                } else {
                    let k = stage.bindings.len() - 1;
                    assert(is_bound_as(stage.bindings[k], resources[i], providers));
                }
            }
        }
        assert forall|k: int| 0 <= k < stage.bindings.len() implies exists|i: int|
            0 <= i < resources.len() && is_bound_as(
                #[trigger] stage.bindings[k],
                #[trigger] resources[i],
                providers,
            ) by {
            if k < earlier.bindings.len() {
                assert(stage.bindings[k] == earlier.bindings[k]);
                let i = choose|i: int|
                    0 <= i < rest.len() && is_bound_as(
                        #[trigger] earlier.bindings[k],
                        #[trigger] rest[i],
                        providers,
                    );
                assert(resources[i] == rest[i]);
            } else {
                assert(is_bound_as(stage.bindings[k], resources[last], providers));
            }
        }
    }
}

/// A credential name stands for the identity that it was bound to last.
pub proof fn a_credential_name_stands_for_its_last_binding(
    bindings: Seq<BindingView>,
    name: Seq<char>,
    at: int,
)
    requires
        -1 <= at < bindings.len(),
        at >= 0 ==> bindings[at].name == name,
        forall|j: int| at < j < bindings.len() ==> (#[trigger] bindings[j]).name != name,
    ensures
        ({
            let bound = crate::generation_builder::resolve::bound(bindings);
            &&& bound.contains_key(name) <==> at >= 0
            &&& at >= 0 ==> bound[name] == bindings[at].id
        }),
    decreases bindings.len(),
{
    if bindings.len() > 0 && at < bindings.len() - 1 {
        let rest = bindings.drop_last();
        assert(bindings[bindings.len() - 1].name != name);
        assert forall|j: int| at < j < rest.len() implies (#[trigger] rest[j]).name != name by {
            assert(rest[j] == bindings[j]);
        }
        a_credential_name_stands_for_its_last_binding(rest, name, at);
    }
}

/// Whether a mount stands for a mount resource: what its names stand for, and its
/// limit as it is declared.
pub open spec fn is_mounted_as(
    mount: MountView,
    resource: ResourceDefinition,
    providers: Map<Seq<char>, ProviderRef>,
    ids: Map<Seq<char>, CredentialId>,
) -> bool {
    resource matches ResourceDefinition::Mount { name, provider, credential, max_fetch_blob_bytes }
        && {
        &&& providers.contains_key(provider@)
        &&& mount.name == name@
        &&& mount.provider.id == providers[provider@].id
        &&& mount.provider.name == providers[provider@].name@
        &&& credential is None ==> mount.credential is None
        &&& credential matches Some(credential) ==> ids.contains_key(credential@)
            && mount.credential == Some(ids[credential@]@)
        &&& mount.max_fetch_blob_bytes == max_fetch_blob_bytes
    }
}

/// Every mount resource is part of the generation, unless one names a provider or a
/// credential that is absent, which fails the whole.
pub proof fn every_mount_is_part_of_the_generation(
    resources: Seq<ResourceDefinition>,
    providers: Map<Seq<char>, ProviderRef>,
    ids: Map<Seq<char>, CredentialId>,
)
    ensures
        ({
            let mounts = crate::generation_builder::resolve::mounts_of(resources, providers, ids);
            &&& mounts is Ok <==> forall|i: int|
                0 <= i < resources.len() ==> (#[trigger] resources[i] matches ResourceDefinition::Mount {
                    name: _,
                    provider,
                    credential,
                    max_fetch_blob_bytes: _,
                } ==> providers.contains_key(provider@) && (credential matches Some(credential)
                    ==> ids.contains_key(credential@)))
            &&& mounts matches Ok(mounts) ==> forall|i: int|
                0 <= i < resources.len() && (#[trigger] resources[i]) is Mount ==> exists|k: int|
                    0 <= k < mounts.len() && is_mounted_as(
                        #[trigger] mounts[k],
                        resources[i],
                        providers,
                        ids,
                    )
            &&& mounts matches Ok(mounts) ==> forall|k: int|
                0 <= k < mounts.len() ==> exists|i: int|
                    0 <= i < resources.len() && is_mounted_as(
                        #[trigger] mounts[k],
                        #[trigger] resources[i],
                        providers,
                        ids,
                    )
        }),
    decreases resources.len(),
{
    let mounts = crate::generation_builder::resolve::mounts_of(resources, providers, ids);
    if resources.len() > 0 {
        let rest = resources.drop_last();
        let last = resources.len() - 1;
        let earlier = crate::generation_builder::resolve::mounts_of(rest, providers, ids);
        every_mount_is_part_of_the_generation(rest, providers, ids);
        assert(resources[last] == resources.last());
        if earlier is Ok {
            assert forall|i: int| 0 <= i < last implies (#[trigger] resources[i]
                matches ResourceDefinition::Mount {
                name: _,
                provider,
                credential,
                max_fetch_blob_bytes: _,
            } ==> providers.contains_key(provider@) && (credential matches Some(credential)
                ==> ids.contains_key(credential@))) by {
                assert(rest[i] == resources[i]);
            }
        } else {
            let i = choose|i: int|
                0 <= i < rest.len() && !(#[trigger] rest[i] matches ResourceDefinition::Mount {
                    name: _,
                    provider,
                    credential,
                    max_fetch_blob_bytes: _,
                } ==> providers.contains_key(provider@) && (credential matches Some(credential)
                    ==> ids.contains_key(credential@)));
            assert(resources[i] == rest[i]);
        }
        if let Ok(found) = mounts {
            let before = earlier->Ok_0;
            assert forall|i: int|
                0 <= i < resources.len() && (#[trigger] resources[i]) is Mount implies exists|k: int|
                0 <= k < found.len() && is_mounted_as(
                    #[trigger] found[k],
                    resources[i],
                    providers,
                    ids,
                ) by {
                if i < last {
                    assert(rest[i] == resources[i]);
                    let k = choose|k: int|
                        0 <= k < before.len() && is_mounted_as(
                            #[trigger] before[k],
                            rest[i],
                            providers,
                            ids,
                        );
                    assert(found[k] == before[k]);
                } else {
                    let k = found.len() - 1;
                    assert(is_mounted_as(found[k], resources[i], providers, ids));
                }
            }
            assert forall|k: int| 0 <= k < found.len() implies exists|i: int|
                0 <= i < resources.len() && is_mounted_as(
                    #[trigger] found[k],
                    #[trigger] resources[i],
                    providers,
                    ids,
                ) by {
                if k < before.len() {
                    assert(found[k] == before[k]);
                    let i = choose|i: int|
                        0 <= i < rest.len() && is_mounted_as(
                            #[trigger] before[k],
                            #[trigger] rest[i],
                            providers,
                            ids,
                        );
                    assert(resources[i] == rest[i]);
                } else {
                    assert(is_mounted_as(found[k], resources[last], providers, ids));
                }
            }
        }
    }
}

/// Nothing is loaded that no mount pins.
pub proof fn only_pinned_artifacts_are_loaded(mounts: Seq<ResolvedMount>, id: ProviderId)
    requires
        crate::generation_builder::pinned(mounts).contains(id),
    ensures
        exists|i: int| 0 <= i < mounts.len() && (#[trigger] mounts[i]).provider.id == id,
    decreases mounts.len(),
{
    let ids = crate::generation_builder::pinned(mounts);
    let k = choose|k: int| 0 <= k < ids.len() && ids[k] == id;
    if mounts.len() > 0 {
        let rest = mounts.drop_last();
        let before = crate::generation_builder::pinned(rest);
        if k < before.len() {
            assert(before[k] == id);
            only_pinned_artifacts_are_loaded(rest, id);
            let i = choose|i: int| 0 <= i < rest.len() && (#[trigger] rest[i]).provider.id == id;
            assert(mounts[i] == rest[i]);
        } else {
            assert(mounts[mounts.len() - 1].provider.id == id);
        }
    }
}

/// The credential that a resource stands for when it is revoked: that of its first
/// declaration, under what the first declared provider of its name calls itself.
pub proof fn a_revocation_finds_its_credential(
    resources: Seq<ResourceDefinition>,
    name: Seq<char>,
    at: int,
    from: int,
)
    requires
        0 <= at < resources.len(),
        resources[at] is Credential && resources[at]->Credential_name@ == name,
        forall|j: int|
            0 <= j < at ==> !((#[trigger] resources[j]) is Credential
                && resources[j]->Credential_name@ == name),
        0 <= from < resources.len(),
        resources[from] is Provider && resources[from]->Provider_name@
            == resources[at]->Credential_provider@,
        forall|j: int|
            0 <= j < from ==> !((#[trigger] resources[j]) is Provider && resources[j]->Provider_name@
                == resources[at]->Credential_provider@),
    ensures
        ({
            let target = crate::generation_builder::revocation::target_of(resources, name);
            match resources[from]->retained {
                Some(retained) => target == Ok::<IdView, Seq<char>>(
                    IdView {
                        provider_name: retained.name@,
                        scheme: resources[at]->scheme@,
                        account: resources[at]->account@,
                    },
                ),
                None => target is Err,
            }
        }),
{
    the_first_credential(resources, name, at);
    the_first_provider(resources, resources[at]->Credential_provider@, from);
}

proof fn the_first_credential(resources: Seq<ResourceDefinition>, name: Seq<char>, at: int)
    requires
        0 <= at < resources.len(),
        resources[at] is Credential && resources[at]->Credential_name@ == name,
        forall|j: int|
            0 <= j < at ==> !((#[trigger] resources[j]) is Credential
                && resources[j]->Credential_name@ == name),
    ensures
        crate::generation_builder::revocation::credential_at(resources, name) == at,
    decreases resources.len(),
{
    if at > 0 {
        let rest = resources.skip(1);
        assert(!(resources[0] is Credential && resources[0]->Credential_name@ == name));
        assert forall|j: int| 0 <= j < at - 1 implies !((#[trigger] rest[j]) is Credential
            && rest[j]->Credential_name@ == name) by {
            assert(rest[j] == resources[j + 1]);
        }
        the_first_credential(rest, name, at - 1);
    }
}

proof fn the_first_provider(resources: Seq<ResourceDefinition>, name: Seq<char>, at: int)
    requires
        0 <= at < resources.len(),
        resources[at] is Provider && resources[at]->Provider_name@ == name,
        forall|j: int|
            0 <= j < at ==> !((#[trigger] resources[j]) is Provider && resources[j]->Provider_name@
                == name),
    ensures
        crate::generation_builder::revocation::provider_at(resources, name) == at,
    decreases resources.len(),
{
    if at > 0 {
        let rest = resources.skip(1);
        assert(!(resources[0] is Provider && resources[0]->Provider_name@ == name));
        assert forall|j: int| 0 <= j < at - 1 implies !((#[trigger] rest[j]) is Provider
            && rest[j]->Provider_name@ == name) by {
            assert(rest[j] == resources[j + 1]);
        }
        the_first_provider(rest, name, at - 1);
    }
}

/// The credentials are settled only where none was refused; otherwise the first
/// refusal is told.
pub proof fn the_first_refusal_is_told(refusals: Seq<Option<String>>)
    ensures
        ({
            let told = crate::generation_builder::resolve::first_refusal(refusals);
            &&& told is None <==> forall|i: int| 0 <= i < refusals.len() ==> (#[trigger] refusals[i]) is None
            &&& told is Some ==> exists|i: int|
                0 <= i < refusals.len() && (#[trigger] refusals[i]) is Some && told == Some(
                    refusals[i]->0@,
                ) && forall|j: int| 0 <= j < i ==> (#[trigger] refusals[j]) is None
        }),
    decreases refusals.len(),
{
    if refusals.len() > 0 {
        let rest = refusals.drop_last();
        let last = refusals.len() - 1;
        the_first_refusal_is_told(rest);
        assert(refusals.last() == refusals[last]);
        assert(forall|i: int| 0 <= i < last ==> (#[trigger] rest[i]) == refusals[i]);
        if crate::generation_builder::resolve::first_refusal(rest) is None {
            assert forall|j: int| 0 <= j < last implies (#[trigger] refusals[j]) is None by {
                assert(rest[j] == refusals[j]);
            }
        } else {
            let i = choose|i: int|
                0 <= i < rest.len() && (#[trigger] rest[i]) is Some
                    && crate::generation_builder::resolve::first_refusal(rest) == Some(rest[i]->0@)
                    && forall|j: int| 0 <= j < i ==> (#[trigger] rest[j]) is None;
            assert(refusals[i] == rest[i]);
            assert forall|j: int| 0 <= j < i implies (#[trigger] refusals[j]) is None by {
                assert(rest[j] == refusals[j]);
            }
        }
    }
}

} // verus!
