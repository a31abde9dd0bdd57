//! Ordered reconciliation of the desired resources into one serving
//! generation.
use crate::name::{ProviderId, ResourceName, ResourceRevision};
use crate::order::{file, Ranked};
use crate::progress::{tidy, NamesView, ProgressHub, ProgressTarget, ProgressTargetState, ProviderNames};
use crate::provider_preparer::ProviderPreparationPhase;
use crate::records::{ActionKind, CredentialProgressStage};
use crate::text::concat3;
use vstd::prelude::*;

pub mod cycle;
pub mod finish;
pub mod laws;
pub mod pass;
pub mod publish;
pub mod required_laws;
pub mod run_laws;

verus! {

/// How long a retired generation may take to drain before it is reported, in
/// milliseconds.
pub const GENERATION_DRAIN_GRACE: u64 = 10_000;

/// The pause before a failed reconciliation is tried again, in milliseconds.
pub const RECONCILE_RETRY_DELAY: u64 = 250;

/// How often a reconciliation is tried.
pub const MAX_RECONCILE_ATTEMPTS: u32 = 3;

/// One desired resource, as far as serving depends on it.
#[allow(inconsistent_fields)]
#[derive(Debug, PartialEq, Eq)]
pub enum DesiredResource {
    Provider { name: ResourceName, artifact: ProviderId },
    Credential { name: ResourceName, provider: ResourceName },
    Mount { name: ResourceName, provider: ResourceName, credential: Option<ResourceName> },
    Filesystem { name: ResourceName },
}

/// [`DesiredResource`] by what its names spell.
#[allow(inconsistent_fields)]
pub enum DesiredView {
    Provider { name: Seq<char>, artifact: ProviderId },
    Credential { name: Seq<char>, provider: Seq<char> },
    Mount { name: Seq<char>, provider: Seq<char>, credential: Option<Seq<char>> },
    Filesystem { name: Seq<char> },
}

/// An optional name by what it spells.
pub open spec fn opt_name(name: Option<ResourceName>) -> Option<Seq<char>> {
    match name {
        Some(name) => Some(name@),
        None => None,
    }
}

impl View for DesiredResource {
    type V = DesiredView;

    open spec fn view(&self) -> DesiredView {
        match self {
            DesiredResource::Provider { name, artifact } => DesiredView::Provider {
                name: name@,
                artifact: *artifact,
            },
            DesiredResource::Credential { name, provider } => DesiredView::Credential {
                name: name@,
                provider: provider@,
            },
            DesiredResource::Mount { name, provider, credential } => DesiredView::Mount {
                name: name@,
                provider: provider@,
                credential: opt_name(*credential),
            },
            DesiredResource::Filesystem { name } => DesiredView::Filesystem { name: name@ },
        }
    }
}

/// Whether a name is that of a provider with this artifact.
pub open spec fn is_alias(resources: Seq<DesiredView>, artifact: ProviderId, name: Seq<char>) -> bool {
    exists|i: int|
        0 <= i < resources.len() && #[trigger] resources[i] == (DesiredView::Provider {
            name,
            artifact,
        })
}

/// Whether a name is that of a provider with this artifact.
pub fn names_artifact(
    resources: &Vec<DesiredResource>,
    artifact: ProviderId,
    name: &ResourceName,
) -> (found: bool)
    ensures
        found == is_alias(crate::list::views(resources@), artifact, name@),
{
    let ghost all = crate::list::views(resources@);
    let mut i: usize = 0;
    while i < resources.len()
        invariant
            i <= resources@.len(),
            all == crate::list::views(resources@),
            forall|j: int|
                0 <= j < i ==> #[trigger] all[j] != (DesiredView::Provider {
                    name: name@,
                    artifact,
                }),
        decreases resources@.len() - i,
    {
        assert(all[i as int] == resources@[i as int]@);
        if let DesiredResource::Provider { name: known, artifact: held } = &resources[i] {
            if *held == artifact && known.same(name) {
                return true;
            }
        }
        i = i + 1;
    }
    false
}

/// Whether a mount uses a provider with this artifact.
pub open spec fn is_mounted(resources: Seq<DesiredView>, artifact: ProviderId) -> bool {
    exists|i: int|
        0 <= i < resources.len() && (#[trigger] resources[i]) is Mount && is_alias(
            resources,
            artifact,
            resources[i]->Mount_provider,
        )
}

/// Whether a mount uses a provider with this artifact.
pub fn provider_is_mounted(resources: &Vec<DesiredResource>, artifact: ProviderId) -> (mounted: bool)
    ensures
        mounted == is_mounted(crate::list::views(resources@), artifact),
{
    let ghost all = crate::list::views(resources@);
    let mut i: usize = 0;
    while i < resources.len()
        invariant
            i <= resources@.len(),
            all == crate::list::views(resources@),
            forall|j: int|
                0 <= j < i && (#[trigger] all[j]) is Mount ==> !is_alias(
                    all,
                    artifact,
                    all[j]->Mount_provider,
                ),
        decreases resources@.len() - i,
    {
        assert(all[i as int] == resources@[i as int]@);
        if let DesiredResource::Mount { provider, .. } = &resources[i] {
            if names_artifact(resources, artifact, provider) {
                return true;
            }
        }
        i = i + 1;
    }
    false
}

/// The artifact of the provider of a name.
pub open spec fn artifact_of(resources: Seq<DesiredView>, name: Seq<char>) -> Option<ProviderId>
    decreases resources.len(),
{
    if resources.len() == 0 {
        None
    } else {
        match artifact_of(resources.drop_last(), name) {
            Some(artifact) => Some(artifact),
            None => match resources.last() {
                DesiredView::Provider { name: known, artifact } => if known == name {
                    Some(artifact)
                } else {
                    None
                },
                _ => None,
            },
        }
    }
}

/// The artifact of the provider of a name.
pub fn artifact_named(resources: &Vec<DesiredResource>, name: &ResourceName) -> (artifact: Option<
    ProviderId,
>)
    ensures
        artifact == artifact_of(crate::list::views(resources@), name@),
{
    let ghost all = crate::list::views(resources@);
    let mut found: Option<ProviderId> = None;
    let mut i: usize = 0;
    while i < resources.len()
        invariant
            i <= resources@.len(),
            all == crate::list::views(resources@),
            found == artifact_of(all.take(i as int), name@),
        decreases resources@.len() - i,
    {
        assert(all.take(i + 1).drop_last() =~= all.take(i as int));
        assert(all.take(i + 1).last() == resources@[i as int]@);
        if found.is_none() {
            if let DesiredResource::Provider { name: known, artifact } = &resources[i] {
                if known.same(name) {
                    found = Some(*artifact);
                }
            }
        }
        i = i + 1;
    }
    assert(all.take(i as int) =~= all);
    found
}

/// The provider names that mounts use, in the order of the mounts.
pub open spec fn mounted_names(resources: Seq<DesiredView>) -> Seq<Seq<char>>
    decreases resources.len(),
{
    if resources.len() == 0 {
        Seq::empty()
    } else {
        let before = mounted_names(resources.drop_last());
        match resources.last() {
            DesiredView::Mount { provider, .. } => before.push(provider),
            _ => before,
        }
    }
}

fn mounted(resources: &Vec<DesiredResource>) -> (names: Vec<ResourceName>)
    ensures
        crate::list::views(names@) == mounted_names(crate::list::views(resources@)),
{
    let ghost all = crate::list::views(resources@);
    let mut names: Vec<ResourceName> = Vec::new();
    let mut i: usize = 0;
    assert(crate::list::views(names@) =~= mounted_names(all.take(0)));
    while i < resources.len()
        invariant
            i <= resources@.len(),
            all == crate::list::views(resources@),
            crate::list::views(names@) == mounted_names(all.take(i as int)),
        decreases resources@.len() - i,
    {
        assert(all.take(i + 1).drop_last() =~= all.take(i as int));
        assert(all.take(i + 1).last() == resources@[i as int]@);
        if let DesiredResource::Mount { provider, .. } = &resources[i] {
            let ghost before = names@;
            names.push(provider.clone());
            assert(crate::list::views(names@) =~= crate::list::views(before).push(provider@));
        }
        i = i + 1;
    }
    assert(all.take(i as int) =~= all);
    names
}

impl Ranked for ProviderNames {
    open spec fn ranks_before(a: NamesView, b: NamesView) -> bool {
        a.digest.before(b.digest)
    }

    fn is_ranked_before(&self, other: &Self) -> (before: bool) {
        assert(Self::ranks_before(self@, other@) == self.digest.before(other.digest));
        self.digest.is_ranked_before(&other.digest)
    }

    proof fn ranks_before_is_weak_order(a: NamesView, b: NamesView, c: NamesView) {
    }
}

/// Where the names of an artifact are listed.
pub open spec fn group_at(groups: Seq<NamesView>, artifact: ProviderId) -> Option<int>
    decreases groups.len(),
{
    if groups.len() == 0 {
        None
    } else if groups.last().digest == artifact {
        Some(groups.len() - 1)
    } else {
        group_at(groups.drop_last(), artifact)
    }
}

/// The names of each artifact, with one more name.
pub open spec fn with_alias(
    groups: Seq<NamesView>,
    artifact: ProviderId,
    name: Seq<char>,
) -> Seq<NamesView> {
    match group_at(groups, artifact) {
        Some(i) => groups.update(
            i,
            NamesView { digest: artifact, names: groups[i].names.push(name) },
        ),
        None => crate::order::filed::<ProviderNames>(
            groups,
            NamesView { digest: artifact, names: seq![name] },
        ),
    }
}

/// Names grouped by the artifact they stand for, or the first name that
/// stands for none.
pub open spec fn grouped(resources: Seq<DesiredView>, names: Seq<Seq<char>>) -> Result<
    Seq<NamesView>,
    Seq<char>,
>
    decreases names.len(),
{
    if names.len() == 0 {
        Ok(Seq::empty())
    } else {
        match grouped(resources, names.drop_last()) {
            Err(absent) => Err(absent),
            Ok(groups) => match artifact_of(resources, names.last()) {
                None => Err(names.last()),
                Some(artifact) => Ok(with_alias(groups, artifact, names.last())),
            },
        }
    }
}

/// Why the required providers cannot be listed.
pub open spec fn absent_text(name: Seq<char>) -> Seq<char> {
    "mounted provider resource `"@ + name + "` is absent"@
}

/// The artifacts that the mounts need, each with the names it is mounted by,
/// in the order of their digests.
pub open spec fn required(resources: Seq<DesiredView>) -> Result<Seq<NamesView>, Seq<char>> {
    grouped(resources, crate::progress::tidied(mounted_names(resources)))
}

fn find_group(groups: &Vec<ProviderNames>, artifact: ProviderId) -> (found: Option<usize>)
    ensures
        match found {
            Some(i) => i < groups@.len() && group_at(crate::list::views(groups@), artifact) == Some(
                i as int,
            ),
            None => group_at(crate::list::views(groups@), artifact) is None,
        },
{
    let ghost all = crate::list::views(groups@);
    let mut found: Option<usize> = None;
    let mut i: usize = 0;
    while i < groups.len()
        invariant
            i <= groups@.len(),
            all == crate::list::views(groups@),
            match found {
                Some(at) => at < i && group_at(all.take(i as int), artifact) == Some(at as int),
                None => group_at(all.take(i as int), artifact) is None,
            },
        decreases groups@.len() - i,
    {
        assert(all.take(i + 1).drop_last() =~= all.take(i as int));
        assert(all.take(i + 1).last() == groups@[i as int]@);
        if groups[i].digest == artifact {
            found = Some(i);
        }
        i = i + 1;
    }
    assert(all.take(i as int) =~= all);
    found
}

fn add_alias(groups: &mut Vec<ProviderNames>, artifact: ProviderId, name: ResourceName)
    ensures
        crate::list::views(final(groups)@) == with_alias(
            crate::list::views(old(groups)@),
            artifact,
            name@,
        ),
{
    let ghost before = crate::list::views(groups@);
    match find_group(groups, artifact) {
        Some(i) => {
            proof {
                crate::serving_reconciler::laws::group_is_found(before, artifact);
            }
            let ghost names = groups@[i as int].names@;
            groups[i].names.push(name);
            proof {
                let after = groups@[i as int].names@;
                assert(crate::list::views(after) =~= crate::list::views(names).push(name@));
                assert(crate::list::views(groups@) =~= with_alias(before, artifact, name@));
            }
        },
        None => {
            let mut names: Vec<ResourceName> = Vec::new();
            names.push(name);
            assert(crate::list::views(names@) =~= seq![name@]);
            file(groups, ProviderNames { digest: artifact, names });
        },
    }
}

/// The artifacts that the mounts need, each with the names it is mounted by,
/// in the order of their digests.
pub fn required_providers(resources: &Vec<DesiredResource>) -> (required_artifacts: Result<
    Vec<ProviderNames>,
    String,
>)
    ensures
        match (required_artifacts, required(crate::list::views(resources@))) {
            (Ok(groups), Ok(expected)) => crate::list::views(groups@) == expected,
            (Err(text), Err(name)) => text@ == absent_text(name),
            _ => false,
        },
{
    let ghost all = crate::list::views(resources@);
    let names = tidy(mounted(resources));
    let ghost listed = crate::list::views(names@);
    let mut groups: Vec<ProviderNames> = Vec::new();
    let mut i: usize = 0;
    proof {
        assert(crate::list::views(groups@) =~= Seq::<NamesView>::empty());
        assert(listed.take(0) =~= Seq::empty());
    }
    while i < names.len()
        invariant
            i <= names@.len(),
            all == crate::list::views(resources@),
            listed == crate::list::views(names@),
            required(all) == grouped(all, listed),
            grouped(all, listed.take(i as int)) == Ok::<Seq<NamesView>, Seq<char>>(
                crate::list::views(groups@),
            ),
        decreases names@.len() - i,
    {
        assert(listed.take(i + 1).drop_last() =~= listed.take(i as int));
        assert(listed.take(i + 1).last() == names@[i as int]@);
        match artifact_named(resources, &names[i]) {
            Some(artifact) => add_alias(&mut groups, artifact, names[i].clone()),
            None => {
                proof {
                    crate::serving_reconciler::laws::an_absent_name_stays_absent(
                        all,
                        listed,
                        i + 1,
                    );
                }
                return Err(
                    concat3("mounted provider resource `", names[i].as_str(), "` is absent"),
                );
            },
        }
        i = i + 1;
    }
    assert(listed.take(i as int) =~= listed);
    Ok(groups)
}

/// Whether a required artifact is prepared anew: only where it failed, and
/// this is not the first attempt.
pub fn requeues(retry_failed: bool, phase: Option<ProviderPreparationPhase>) -> (repaired: bool)
    ensures
        repaired == (retry_failed && phase == Some(ProviderPreparationPhase::Failed)),
{
    match phase {
        Some(phase) => retry_failed && phase == ProviderPreparationPhase::Failed,
        None => false,
    }
}

/// The stage of a pending credential action. Filesystems are reconciled
/// elsewhere.
pub open spec fn credential_action_stage(kind: ActionKind) -> Option<CredentialProgressStage> {
    match kind {
        ActionKind::SetCredentialMaterial => Some(CredentialProgressStage::Refreshing),
        ActionKind::RevokeCredential => Some(CredentialProgressStage::Revoking),
        ActionKind::RestartFilesystem => None,
    }
}

/// The stage of a pending credential action, known from its kind alone.
pub fn pending_credential_action_stage(kind: ActionKind) -> (stage: Option<
    CredentialProgressStage,
>)
    ensures
        stage == credential_action_stage(kind),
{
    match kind {
        ActionKind::SetCredentialMaterial => Some(CredentialProgressStage::Refreshing),
        ActionKind::RevokeCredential => Some(CredentialProgressStage::Revoking),
        ActionKind::RestartFilesystem => None,
    }
}

/// Whether a changed revision has work to do: unless it is already ready or
/// failed.
pub fn revision_requires_reconcile(hub: &ProgressHub, revision: ResourceRevision) -> (requires_it:
    bool)
    ensures
        requires_it == {
            let state = crate::progress::state_of(
                hub@.snapshot,
                ProgressTarget::DesiredRevision(revision),
            );
            state != ProgressTargetState::Ready && state != ProgressTargetState::Failed
        },
{
    match hub.target_state(ProgressTarget::DesiredRevision(revision)) {
        ProgressTargetState::Ready | ProgressTargetState::Failed => false,
        _ => true,
    }
}

/// One imported artifact, and whether the import repaired it.
#[derive(Clone, Copy, Debug, PartialEq, Eq, Structural)]
pub struct ProviderImport {
    pub provider_id: ProviderId,
    pub repaired: bool,
}

/// Whether an artifact waits to be looked at, and whether it was repaired.
pub open spec fn import_of(pending: Seq<ProviderImport>, provider_id: ProviderId) -> Option<bool>
    decreases pending.len(),
{
    if pending.len() == 0 {
        None
    } else if pending.last().provider_id == provider_id {
        Some(pending.last().repaired)
    } else {
        import_of(pending.drop_last(), provider_id)
    }
}

/// No artifact is listed twice.
pub open spec fn listed_once(pending: Seq<ProviderImport>) -> bool {
    forall|i: int, j: int|
        #![trigger pending[i], pending[j]]
        0 <= i < j < pending.len() ==> pending[i].provider_id != pending[j].provider_id
}

/// Folds repeated imports of one artifact into one. A repair survives.
pub fn coalesce_provider_import(
    pending: &mut Vec<ProviderImport>,
    provider_id: ProviderId,
    repaired: bool,
)
    requires
        listed_once(old(pending)@),
    ensures
        listed_once(final(pending)@),
        forall|other: ProviderId| #[trigger]
            import_of(final(pending)@, other) == (if other == provider_id {
                match import_of(old(pending)@, provider_id) {
                    Some(was_repaired) => Some(was_repaired || repaired),
                    None => Some(repaired),
                }
            } else {
                import_of(old(pending)@, other)
            }),
{
    let ghost before = pending@;
    let mut i: usize = 0;
    while i < pending.len()
        invariant
            i <= pending@.len(),
            pending@ == before,
            before == old(pending)@,
            listed_once(before),
            forall|j: int| 0 <= j < i ==> (#[trigger] before[j]).provider_id != provider_id,
        decreases pending@.len() - i,
    {
        if pending[i].provider_id == provider_id {
            let was_repaired = pending[i].repaired;
            let folded = ProviderImport { provider_id, repaired: was_repaired || repaired };
            pending[i] = folded;
            proof {
                crate::serving_reconciler::laws::import_is_listed(before, i as int);
                assert(import_of(before, provider_id) == Some(was_repaired));
                assert(pending@ == before.update(i as int, folded));
                assert forall|other: ProviderId| #[trigger] import_of(pending@, other) == (
                if other == provider_id {
                    Some(was_repaired || repaired)
                } else {
                    import_of(before, other)
                }) by {
                    crate::serving_reconciler::laws::import_after_fold(
                        before,
                        i as int,
                        folded,
                        other,
                    );
                }
            }
            return;
        }
        i = i + 1;
    }
    pending.push(ProviderImport { provider_id, repaired });
    proof {
        crate::serving_reconciler::laws::import_is_not_listed(before, provider_id);
        assert(pending@.drop_last() =~= before);
    }
}

} // verus!
