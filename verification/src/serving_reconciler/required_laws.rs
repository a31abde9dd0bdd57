//! Which artifacts the desired resources call for.
use crate::name::ProviderId;
use crate::serving_reconciler::DesiredView;
use vstd::prelude::*;

verus! {

/// Whether a name stands for an artifact: that of the first provider of the name.
pub open spec fn stands_for(resources: Seq<DesiredView>, name: Seq<char>, artifact: ProviderId) -> bool {
    exists|j: int|
        {
            &&& 0 <= j < resources.len()
            &&& #[trigger] resources[j] == (DesiredView::Provider { name, artifact })
            &&& forall|k: int|
                0 <= k < j ==> !(#[trigger] resources[k] matches DesiredView::Provider {
                    name: other,
                    artifact: _,
                } && other == name)
        }
}

/// Whether a mount uses a provider of a name.
pub open spec fn mounts(resources: Seq<DesiredView>, name: Seq<char>) -> bool {
    exists|i: int|
        0 <= i < resources.len() && (#[trigger] resources[i] matches DesiredView::Mount {
            name: _,
            provider,
            credential: _,
        } && provider == name)
}

/// Every mount has its provider prepared, whatever credential it uses, and nothing is
/// prepared for a generation that no mount uses. A mount whose provider is not among
/// the resources is the one thing that can be wrong, and one such provider is named.
pub proof fn every_mounted_provider_is_required(resources: Seq<DesiredView>)
    ensures
        match crate::serving_reconciler::required(resources) {
            Ok(groups) => {
                &&& forall|i: int|
                    0 <= i < resources.len() ==> (#[trigger] resources[i] matches DesiredView::Mount {
                        name: _,
                        provider,
                        credential: _,
                    } ==> exists|artifact: ProviderId|
                        stands_for(resources, provider, artifact)
                            && #[trigger] crate::serving_reconciler::laws::lists(
                            groups,
                            artifact,
                            provider,
                        ))
                &&& forall|artifact: ProviderId, name: Seq<char>| #[trigger]
                    crate::serving_reconciler::laws::lists(groups, artifact, name) ==> mounts(
                        resources,
                        name,
                    ) && stands_for(resources, name, artifact)
                &&& crate::serving_reconciler::laws::listed_by_digest(groups)
            },
            Err(name) => mounts(resources, name) && forall|j: int|
                0 <= j < resources.len() ==> !(#[trigger] resources[j] matches DesiredView::Provider {
                    name: other,
                    artifact: _,
                } && other == name),
        },
{
    let used = crate::serving_reconciler::mounted_names(resources);
    let names = crate::progress::tidied(used);
    crate::progress::tidied_is_the_strict_listing(used);
    used_names_are_mounted(resources);
    match crate::serving_reconciler::required(resources) {
        Ok(groups) => {
            crate::serving_reconciler::laws::required_artifacts_are_listed_once(resources, names);
            assert forall|i: int| 0 <= i < resources.len() implies (#[trigger] resources[i]
                matches DesiredView::Mount { name: _, provider, credential: _ } ==> exists|
                artifact: ProviderId|
                stands_for(resources, provider, artifact)
                    && #[trigger] crate::serving_reconciler::laws::lists(
                    groups,
                    artifact,
                    provider,
                )) by {
                if let DesiredView::Mount { name: _, provider, credential: _ } = resources[i] {
                    assert(mounts(resources, provider));
                    assert(used.contains(provider));
                    assert(names.contains(provider));
                    every_name_was_found(resources, names, provider);
                    let artifact = crate::serving_reconciler::artifact_of(resources, provider)->0;
                    an_artifact_is_the_first_one(resources, provider);
                    assert(crate::serving_reconciler::laws::lists(groups, artifact, provider));
                }
            }
            assert forall|artifact: ProviderId, name: Seq<char>| #[trigger]
                crate::serving_reconciler::laws::lists(groups, artifact, name) implies mounts(
                resources,
                name,
            ) && stands_for(resources, name, artifact) by {
                assert(names.contains(name));
                assert(used.contains(name));
                an_artifact_is_the_first_one(resources, name);
            }
        },
        Err(name) => {
            an_error_names_one_of_them(resources, names);
            assert(used.contains(name));
            an_artifact_is_the_first_one(resources, name);
        },
    }
}

proof fn used_names_are_mounted(resources: Seq<DesiredView>)
    ensures
        forall|name: Seq<char>| #[trigger]
            crate::serving_reconciler::mounted_names(resources).contains(name) <==> mounts(
                resources,
                name,
            ),
    decreases resources.len(),
{
    let used = crate::serving_reconciler::mounted_names(resources);
    if resources.len() > 0 {
        let rest = resources.drop_last();
        let before = crate::serving_reconciler::mounted_names(rest);
        let last = resources.len() - 1;
        used_names_are_mounted(rest);
        assert forall|name: Seq<char>| #[trigger] used.contains(name) <==> mounts(resources, name) by {
            if used.contains(name) {
                let k = choose|k: int| 0 <= k < used.len() && used[k] == name;
                if k < before.len() {
                    assert(before[k] == name);
                    assert(before.contains(name));
                    let i = choose|i: int|
                        0 <= i < rest.len() && (#[trigger] rest[i] matches DesiredView::Mount {
                            name: _,
                            provider,
                            credential: _,
                        } && provider == name);
                    assert(resources[i] == rest[i]);
                } else {
                    assert(resources[last] matches DesiredView::Mount {
                        name: _,
                        provider,
                        credential: _,
                    } && provider == name);
                }
            }
            if mounts(resources, name) {
                let i = choose|i: int|
                    0 <= i < resources.len() && (#[trigger] resources[i]
                        matches DesiredView::Mount { name: _, provider, credential: _ }
                        && provider == name);
                if i < last {
                    assert(rest[i] == resources[i]);
                    assert(mounts(rest, name));
                    assert(before.contains(name));
                    let k = choose|k: int| 0 <= k < before.len() && before[k] == name;
                    assert(used[k] == name);
                } else {
                    assert(used[used.len() - 1] == name);
                }
            }
        }
    } else {
        assert forall|name: Seq<char>| #[trigger] used.contains(name) <==> mounts(resources, name) by {}
    }
}

proof fn an_artifact_is_the_first_one(resources: Seq<DesiredView>, name: Seq<char>)
    ensures
        match crate::serving_reconciler::artifact_of(resources, name) {
            Some(artifact) => stands_for(resources, name, artifact),
            None => forall|j: int|
                0 <= j < resources.len() ==> !(#[trigger] resources[j] matches DesiredView::Provider {
                    name: other,
                    artifact: _,
                } && other == name),
        },
    decreases resources.len(),
{
    if resources.len() > 0 {
        let rest = resources.drop_last();
        let last = resources.len() - 1;
        an_artifact_is_the_first_one(rest, name);
        match crate::serving_reconciler::artifact_of(rest, name) {
            Some(artifact) => {
                let j = choose|j: int|
                    {
                        &&& 0 <= j < rest.len()
                        &&& #[trigger] rest[j] == (DesiredView::Provider { name, artifact })
                        &&& forall|k: int|
                            0 <= k < j ==> !(#[trigger] rest[k] matches DesiredView::Provider {
                                name: other,
                                artifact: _,
                            } && other == name)
                    };
                assert(resources[j] == rest[j]);
                assert forall|k: int| 0 <= k < j implies !(#[trigger] resources[k]
                    matches DesiredView::Provider { name: other, artifact: _ } && other == name) by {
                    assert(rest[k] == resources[k]);
                }
            },
            None => {
                assert forall|k: int| 0 <= k < last implies !(#[trigger] resources[k]
                    matches DesiredView::Provider { name: other, artifact: _ } && other == name) by {
                    assert(rest[k] == resources[k]);
                }
                assert(resources[last] == resources.last());
            },
        }
    }
}

proof fn every_name_was_found(
    resources: Seq<DesiredView>,
    names: Seq<Seq<char>>,
    name: Seq<char>,
)
    requires
        crate::serving_reconciler::grouped(resources, names) is Ok,
        names.contains(name),
    ensures
        crate::serving_reconciler::artifact_of(resources, name) is Some,
    decreases names.len(),
{
    let k = choose|k: int| 0 <= k < names.len() && names[k] == name;
    if k < names.len() - 1 {
        assert(names.drop_last()[k] == name);
        every_name_was_found(resources, names.drop_last(), name);
    }
}

proof fn an_error_names_one_of_them(resources: Seq<DesiredView>, names: Seq<Seq<char>>)
    requires
        crate::serving_reconciler::grouped(resources, names) is Err,
    ensures
        ({
            let name = crate::serving_reconciler::grouped(resources, names)->Err_0;
            names.contains(name) && crate::serving_reconciler::artifact_of(resources, name) is None
        }),
    decreases names.len(),
{
    if names.len() > 0 {
        let rest = names.drop_last();
        if crate::serving_reconciler::grouped(resources, rest) is Err {
            an_error_names_one_of_them(resources, rest);
            let name = crate::serving_reconciler::grouped(resources, rest)->Err_0;
            let k = choose|k: int| 0 <= k < rest.len() && rest[k] == name;
            assert(names[k] == name);
        } else {
            assert(names[names.len() - 1] == names.last());
        }
    }
}

/// An artifact is in use exactly when some mount names a provider that has it.
pub proof fn an_artifact_is_in_use_when_mounted(resources: Seq<DesiredView>, artifact: ProviderId)
    ensures
        crate::serving_reconciler::is_mounted(resources, artifact) <==> exists|i: int, j: int|
            {
                &&& 0 <= i < resources.len()
                &&& 0 <= j < resources.len()
                &&& #[trigger] resources[i] matches DesiredView::Mount {
                    name: _,
                    provider,
                    credential: _,
                }
                &&& #[trigger] resources[j] == (DesiredView::Provider { name: provider, artifact })
            },
{
    if crate::serving_reconciler::is_mounted(resources, artifact) {
        let i = choose|i: int|
            0 <= i < resources.len() && (#[trigger] resources[i]) is Mount
                && crate::serving_reconciler::is_alias(
                resources,
                artifact,
                resources[i]->Mount_provider,
            );
        let name = resources[i]->Mount_provider;
        let j = choose|j: int|
            0 <= j < resources.len() && #[trigger] resources[j] == (DesiredView::Provider {
                name,
                artifact,
            });
        assert(resources[i] is Mount && resources[j] is Provider);
    }
}

} // verus!
