//! What the names of the desired resources stand for.
use crate::credential_document::{CredentialId, IdView};
use crate::generation_builder::ProviderRef;
use crate::list::Record;
use crate::name::ResourceName;
use crate::table::Table;
use crate::text::concat3;
use vstd::prelude::*;

verus! {

/// One desired resource, as far as a generation depends on it.
#[allow(inconsistent_fields)]
#[derive(Debug)]
pub enum ResourceDefinition {
    Provider {
        name: ResourceName,
        /// The artifact's digest as it is spelled.
        artifact_text: String,
        /// What the store retains under that digest.
        retained: Option<ProviderRef>,
    },
    Credential { name: ResourceName, provider: ResourceName, scheme: String, account: String },
    Mount {
        name: ResourceName,
        provider: ResourceName,
        credential: Option<ResourceName>,
        max_fetch_blob_bytes: Option<u64>,
    },
    Filesystem { name: ResourceName },
}

/// The providers that some resources declare, or why they cannot be used.
pub open spec fn providers_of(resources: Seq<ResourceDefinition>) -> Result<
    Map<Seq<char>, ProviderRef>,
    Seq<char>,
>
    decreases resources.len(),
{
    if resources.len() == 0 {
        Ok(Map::empty())
    } else {
        match providers_of(resources.drop_last()) {
            Err(error) => Err(error),
            Ok(earlier) => match resources.last() {
                ResourceDefinition::Provider { name, artifact_text, retained } => match retained {
                    Some(provider) => Ok(earlier.insert(name@, provider)),
                    None => Err(
                        "provider resource `"@ + name@ + "` artifact "@ + artifact_text@
                            + " is not retained"@,
                    ),
                },
                _ => Ok(earlier),
            },
        }
    }
}

/// Once it has failed, the reading of providers stays failed.
proof fn providers_stay_failed(resources: Seq<ResourceDefinition>, i: int)
    requires
        0 <= i <= resources.len(),
        providers_of(resources.take(i)) is Err,
    ensures
        providers_of(resources) == providers_of(resources.take(i)),
    decreases resources.len() - i,
{
    if i < resources.len() {
        assert(resources.take(i + 1).drop_last() =~= resources.take(i));
        providers_stay_failed(resources, i + 1);
    } else {
        assert(resources.take(i) =~= resources);
    }
}

/// The providers that some resources declare. Each artifact has to be
/// retained.
pub fn resolve_providers(resources: &Vec<ResourceDefinition>) -> (providers: Result<
    Table<ProviderRef>,
    String,
>)
    ensures
        match providers {
            Ok(providers) => providers_of(resources@) is Ok && providers_agree(
                providers@,
                providers_of(resources@)->Ok_0,
            ),
            Err(error) => providers_of(resources@) == Err::<Map<Seq<char>, ProviderRef>, Seq<char>>(
                error@,
            ),
        },
{
    let mut providers: Table<ProviderRef> = Table::new();
    let mut i: usize = 0;
    assert(providers_of(resources@.take(0)) == Ok::<Map<Seq<char>, ProviderRef>, Seq<char>>(
        Map::empty(),
    ));
    while i < resources.len()
        invariant
            i <= resources@.len(),
            providers_of(resources@.take(i as int)) is Ok,
            providers_agree(providers@, providers_of(resources@.take(i as int))->Ok_0),
        decreases resources@.len() - i,
    {
        proof {
            assert(resources@.take(i + 1).drop_last() =~= resources@.take(i as int));
            assert(resources@.take(i + 1).last() == resources@[i as int]);
        }
        if let ResourceDefinition::Provider { name, artifact_text, retained } = &resources[i] {
            match retained {
                Some(provider) => providers.insert(name.clone(), provider.copied()),
                None => {
                    let head = concat3("provider resource `", name.as_str(), "` artifact ");
                    let error = concat3(head.as_str(), artifact_text.as_str(), " is not retained");
                    proof {
                        providers_stay_failed(resources@, i + 1);
                    }
                    return Err(error);
                },
            }
        }
        i = i + 1;
    }
    assert(resources@.take(i as int) =~= resources@);
    Ok(providers)
}

/// Whether two tables hold the same names, and under each the same provider.
pub open spec fn providers_agree(
    a: Map<Seq<char>, ProviderRef>,
    b: Map<Seq<char>, ProviderRef>,
) -> bool {
    a.dom() == b.dom() && forall|name: Seq<char>|
        a.contains_key(name) ==> #[trigger] a[name]@ == b[name]@
}

/// The text of a resource that names another that is absent.
pub open spec fn absent(
    kind: Seq<char>,
    name: Seq<char>,
    what: Seq<char>,
    other: Seq<char>,
) -> Seq<char> {
    kind + name + what + other + "` is absent"@
}

fn absent_text(kind: &str, name: &ResourceName, what: &str, other: &ResourceName) -> (text: String)
    ensures
        text@ == absent(kind@, name@, what@, other@),
{
    let head = concat3(kind, name.as_str(), what);
    concat3(head.as_str(), other.as_str(), "` is absent")
}

/// One credential resource with what it stands for.
#[derive(Debug)]
pub struct CredentialBinding {
    pub name: ResourceName,
    pub id: CredentialId,
}

/// [`CredentialBinding`] by what it spells.
pub struct BindingView {
    pub name: Seq<char>,
    pub id: IdView,
}

impl View for CredentialBinding {
    type V = BindingView;

    open spec fn view(&self) -> BindingView {
        BindingView { name: self.name@, id: self.id@ }
    }
}

/// The credentials that could be read, in their order, and the failure that
/// ended the reading, if one did.
#[derive(Debug)]
pub struct CredentialStage {
    pub bindings: Vec<CredentialBinding>,
    pub failure: Option<String>,
}

/// [`CredentialStage`] by what it spells.
pub struct CredentialStageView {
    pub bindings: Seq<BindingView>,
    pub failure: Option<Seq<char>>,
}

impl View for CredentialStage {
    type V = CredentialStageView;

    open spec fn view(&self) -> CredentialStageView {
        CredentialStageView {
            bindings: crate::list::views(self.bindings@),
            failure: crate::text::opt_text(self.failure),
        }
    }
}

/// The credentials of some resources, up to the first whose provider is absent.
pub open spec fn credentials_of(
    resources: Seq<ResourceDefinition>,
    providers: Map<Seq<char>, ProviderRef>,
) -> CredentialStageView
    decreases resources.len(),
{
    if resources.len() == 0 {
        CredentialStageView { bindings: Seq::empty(), failure: None }
    } else {
        let earlier = credentials_of(resources.drop_last(), providers);
        if earlier.failure is Some {
            earlier
        } else {
            match resources.last() {
                ResourceDefinition::Credential { name, provider, scheme, account } => {
                    if providers.contains_key(provider@) {
                        CredentialStageView {
                            bindings: earlier.bindings.push(
                                BindingView {
                                    name: name@,
                                    id: IdView {
                                        provider_name: providers[provider@].name@,
                                        scheme: scheme@,
                                        account: account@,
                                    },
                                },
                            ),
                            failure: None,
                        }
                    } else {
                        CredentialStageView {
                            bindings: earlier.bindings,
                            failure: Some(
                                absent(
                                    "credential resource `"@,
                                    name@,
                                    "` provider `"@,
                                    provider@,
                                ),
                            ),
                        }
                    }
                },
                _ => earlier,
            }
        }
    }
}

/// Once it has failed, the reading of credentials stays as it is.
proof fn credentials_stay_failed(
    resources: Seq<ResourceDefinition>,
    providers: Map<Seq<char>, ProviderRef>,
    i: int,
)
    requires
        0 <= i <= resources.len(),
        credentials_of(resources.take(i), providers).failure is Some,
    ensures
        credentials_of(resources, providers) == credentials_of(resources.take(i), providers),
    decreases resources.len() - i,
{
    if i < resources.len() {
        assert(resources.take(i + 1).drop_last() =~= resources.take(i));
        credentials_stay_failed(resources, providers, i + 1);
    } else {
        assert(resources.take(i) =~= resources);
    }
}

/// Reads the credentials of some resources, up to the first whose provider is
/// absent.
pub fn resolve_credentials(
    resources: &Vec<ResourceDefinition>,
    providers: &Table<ProviderRef>,
) -> (stage: CredentialStage)
    ensures
        stage@ == credentials_of(resources@, providers@),
{
    let mut bindings: Vec<CredentialBinding> = Vec::new();
    let mut i: usize = 0;
    assert(crate::list::views(bindings@) =~= Seq::<BindingView>::empty());
    while i < resources.len()
        invariant
            i <= resources@.len(),
            credentials_of(resources@.take(i as int), providers@).failure is None,
            crate::list::views(bindings@) == credentials_of(
                resources@.take(i as int),
                providers@,
            ).bindings,
        decreases resources@.len() - i,
    {
        proof {
            assert(resources@.take(i + 1).drop_last() =~= resources@.take(i as int));
            assert(resources@.take(i + 1).last() == resources@[i as int]);
        }
        if let ResourceDefinition::Credential { name, provider, scheme, account } = &resources[i] {
            match providers.get(provider) {
                Some(found) => {
                    let ghost before = crate::list::views(bindings@);
                    let binding = CredentialBinding {
                        name: name.clone(),
                        id: CredentialId::new(found.name.as_str(), scheme.as_str(), account.as_str()),
                    };
                    bindings.push(binding);
                    assert(crate::list::views(bindings@) =~= before.push(binding@));
                },
                None => {
                    let failure = absent_text(
                        "credential resource `",
                        name,
                        "` provider `",
                        provider,
                    );
                    proof {
                        credentials_stay_failed(resources@, providers@, i + 1);
                    }
                    return CredentialStage { bindings, failure: Some(failure) };
                },
            }
        }
        i = i + 1;
    }
    assert(resources@.take(i as int) =~= resources@);
    CredentialStage { bindings, failure: None }
}

/// The first refusal of a list, if there is one.
pub open spec fn first_refusal(refusals: Seq<Option<String>>) -> Option<Seq<char>>
    decreases refusals.len(),
{
    if refusals.len() == 0 {
        None
    } else {
        match first_refusal(refusals.drop_last()) {
            Some(error) => Some(error),
            None => crate::text::opt_text(refusals.last()),
        }
    }
}

/// What each credential resource stands for after some bindings.
pub open spec fn bound(bindings: Seq<BindingView>) -> Map<Seq<char>, IdView>
    decreases bindings.len(),
{
    if bindings.len() == 0 {
        Map::empty()
    } else {
        bound(bindings.drop_last()).insert(bindings.last().name, bindings.last().id)
    }
}

/// Whether a table holds what the bindings say.
pub open spec fn ids_agree(a: Map<Seq<char>, CredentialId>, b: Map<Seq<char>, IdView>) -> bool {
    a.dom() == b.dom() && forall|name: Seq<char>|
        a.contains_key(name) ==> #[trigger] a[name]@ == b[name]
}

/// Once there is a refusal, it stays the first.
proof fn a_refusal_stays_first(refusals: Seq<Option<String>>, i: int)
    requires
        0 <= i <= refusals.len(),
        first_refusal(refusals.take(i)) is Some,
    ensures
        first_refusal(refusals) == first_refusal(refusals.take(i)),
    decreases refusals.len() - i,
{
    if i < refusals.len() {
        assert(refusals.take(i + 1).drop_last() =~= refusals.take(i));
        a_refusal_stays_first(refusals, i + 1);
    } else {
        assert(refusals.take(i) =~= refusals);
    }
}

/// Settles the credentials that were read. `refusals` holds for each of them
/// why it is no valid identity, if it is not. The earliest failure counts.
pub fn settle_credentials(stage: CredentialStage, refusals: Vec<Option<String>>) -> (ids: Result<
    Table<CredentialId>,
    String,
>)
    requires
        refusals@.len() == stage.bindings@.len(),
    ensures
        match ids {
            Ok(ids) => first_refusal(refusals@) is None && stage.failure is None && ids_agree(
                ids@,
                bound(stage@.bindings),
            ),
            Err(error) => match first_refusal(refusals@) {
                Some(refusal) => error@ == refusal,
                None => stage.failure matches Some(failure) && error@ == failure@,
            },
        },
{
    let ghost views = stage@.bindings;
    let mut k: usize = 0;
    while k < refusals.len()
        invariant
            k <= refusals@.len(),
            first_refusal(refusals@.take(k as int)) is None,
        decreases refusals@.len() - k,
    {
        proof {
            assert(refusals@.take(k + 1).drop_last() =~= refusals@.take(k as int));
            assert(refusals@.take(k + 1).last() == refusals@[k as int]);
        }
        if let Some(error) = &refusals[k] {
            proof {
                a_refusal_stays_first(refusals@, k + 1);
            }
            return Err(error.clone());
        }
        k = k + 1;
    }
    assert(refusals@.take(k as int) =~= refusals@);
    if let Some(failure) = stage.failure {
        return Err(failure);
    }
    let mut ids: Table<CredentialId> = Table::new();
    let ghost all = stage.bindings@;
    assert(views.take(0) =~= Seq::empty());
    for binding in it: stage.bindings
        invariant
            it.seq() == all,
            views == crate::list::views(all),
            ids_agree(ids@, bound(views.take(it.index() as int))),
    {
        proof {
            let i = it.index() as int;
            assert(views.take(i + 1).drop_last() =~= views.take(i));
            assert(views.take(i + 1).last() == all[i]@);
        }
        ids.insert(binding.name, binding.id);
    }
    assert(views.take(views.len() as int) =~= views);
    Ok(ids)
}

/// One mount with the provider and the credential that its names stand for.
#[derive(Debug)]
pub struct MountPlan {
    pub name: ResourceName,
    pub provider: ProviderRef,
    pub credential: Option<CredentialId>,
    pub max_fetch_blob_bytes: Option<u64>,
}

/// [`MountPlan`] by what it spells.
pub struct MountView {
    pub name: Seq<char>,
    pub provider: crate::generation_builder::ProviderRefView,
    pub credential: Option<IdView>,
    pub max_fetch_blob_bytes: Option<u64>,
}

/// An optional identity by what it spells.
pub open spec fn opt_id(id: Option<CredentialId>) -> Option<IdView> {
    match id {
        Some(id) => Some(id@),
        None => None,
    }
}

impl View for MountPlan {
    type V = MountView;

    open spec fn view(&self) -> MountView {
        MountView {
            name: self.name@,
            provider: self.provider@,
            credential: opt_id(self.credential),
            max_fetch_blob_bytes: self.max_fetch_blob_bytes,
        }
    }
}

/// One mount with what its names stand for, or which of them is absent.
pub open spec fn mount_of(
    name: Seq<char>,
    provider: Seq<char>,
    credential: Option<ResourceName>,
    max_fetch_blob_bytes: Option<u64>,
    providers: Map<Seq<char>, ProviderRef>,
    ids: Map<Seq<char>, CredentialId>,
) -> Result<MountView, Seq<char>> {
    if !providers.contains_key(provider) {
        Err(absent("mount resource `"@, name, "` provider `"@, provider))
    } else {
        match credential {
            None => Ok(
                MountView {
                    name,
                    provider: providers[provider]@,
                    credential: None,
                    max_fetch_blob_bytes,
                },
            ),
            Some(credential) => if ids.contains_key(credential@) {
                Ok(
                    MountView {
                        name,
                        provider: providers[provider]@,
                        credential: Some(ids[credential@]@),
                        max_fetch_blob_bytes,
                    },
                )
            } else {
                Err(absent("mount resource `"@, name, "` credential `"@, credential@))
            },
        }
    }
}

/// The mounts of some resources, or why one of them does not resolve.
pub open spec fn mounts_of(
    resources: Seq<ResourceDefinition>,
    providers: Map<Seq<char>, ProviderRef>,
    ids: Map<Seq<char>, CredentialId>,
) -> Result<Seq<MountView>, Seq<char>>
    decreases resources.len(),
{
    if resources.len() == 0 {
        Ok(Seq::empty())
    } else {
        match mounts_of(resources.drop_last(), providers, ids) {
            Err(error) => Err(error),
            Ok(earlier) => match resources.last() {
                ResourceDefinition::Mount { name, provider, credential, max_fetch_blob_bytes } => {
                    match mount_of(
                        name@,
                        provider@,
                        credential,
                        max_fetch_blob_bytes,
                        providers,
                        ids,
                    ) {
                        Ok(mount) => Ok(earlier.push(mount)),
                        Err(error) => Err(error),
                    }
                },
                _ => Ok(earlier),
            },
        }
    }
}

/// Once it has failed, the reading of mounts stays failed.
proof fn mounts_stay_failed(
    resources: Seq<ResourceDefinition>,
    providers: Map<Seq<char>, ProviderRef>,
    ids: Map<Seq<char>, CredentialId>,
    i: int,
)
    requires
        0 <= i <= resources.len(),
        mounts_of(resources.take(i), providers, ids) is Err,
    ensures
        mounts_of(resources, providers, ids) == mounts_of(resources.take(i), providers, ids),
    decreases resources.len() - i,
{
    if i < resources.len() {
        assert(resources.take(i + 1).drop_last() =~= resources.take(i));
        mounts_stay_failed(resources, providers, ids, i + 1);
    } else {
        assert(resources.take(i) =~= resources);
    }
}

fn resolve_mount(
    name: &ResourceName,
    provider: &ResourceName,
    credential: &Option<ResourceName>,
    max_fetch_blob_bytes: Option<u64>,
    providers: &Table<ProviderRef>,
    ids: &Table<CredentialId>,
) -> (mount: Result<MountPlan, String>)
    ensures
        crate::credential_document::result_view(mount) == mount_of(
            name@,
            provider@,
            *credential,
            max_fetch_blob_bytes,
            providers@,
            ids@,
        ),
{
    let found = match providers.get(provider) {
        Some(found) => found,
        None => return Err(absent_text("mount resource `", name, "` provider `", provider)),
    };
    let credential = match credential {
        Some(credential) => match ids.get(credential) {
            Some(id) => Some(id.copied()),
            None => return Err(
                absent_text("mount resource `", name, "` credential `", credential),
            ),
        },
        None => None,
    };
    Ok(
        MountPlan {
            name: name.clone(),
            provider: found.copied(),
            credential,
            max_fetch_blob_bytes,
        },
    )
}

/// The mounts of some resources, with what their names stand for.
pub fn resolve_mounts(
    resources: &Vec<ResourceDefinition>,
    providers: &Table<ProviderRef>,
    ids: &Table<CredentialId>,
) -> (mounts: Result<Vec<MountPlan>, String>)
    ensures
        match mounts {
            Ok(mounts) => mounts_of(resources@, providers@, ids@) == Ok::<Seq<MountView>, Seq<char>>(
                crate::list::views(mounts@),
            ),
            Err(error) => mounts_of(resources@, providers@, ids@) == Err::<
                Seq<MountView>,
                Seq<char>,
            >(error@),
        },
{
    let mut mounts: Vec<MountPlan> = Vec::new();
    let mut i: usize = 0;
    assert(crate::list::views(mounts@) =~= Seq::<MountView>::empty());
    while i < resources.len()
        invariant
            i <= resources@.len(),
            mounts_of(resources@.take(i as int), providers@, ids@) == Ok::<
                Seq<MountView>,
                Seq<char>,
            >(crate::list::views(mounts@)),
        decreases resources@.len() - i,
    {
        proof {
            assert(resources@.take(i + 1).drop_last() =~= resources@.take(i as int));
            assert(resources@.take(i + 1).last() == resources@[i as int]);
        }
        if let ResourceDefinition::Mount { name, provider, credential, max_fetch_blob_bytes } =
            &resources[i] {
            match resolve_mount(name, provider, credential, *max_fetch_blob_bytes, providers, ids) {
                Ok(mount) => {
                    let ghost before = crate::list::views(mounts@);
                    mounts.push(mount);
                    assert(crate::list::views(mounts@) =~= before.push(mount@));
                },
                Err(error) => {
                    proof {
                        mounts_stay_failed(resources@, providers@, ids@, i + 1);
                    }
                    return Err(error);
                },
            }
        }
        i = i + 1;
    }
    assert(resources@.take(i as int) =~= resources@);
    Ok(mounts)
}

} // verus!
