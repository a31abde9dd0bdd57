//! Progress fanout with complete snapshot recovery.
//!
//! The hub keeps one complete snapshot and numbers every event. Events wait in
//! an outbox until they are broadcast; a watcher that falls behind recovers
//! from the snapshot.
use crate::list::{copy_all, kept};
use crate::name::{ActionId, KeyView, ProviderId, ResourceKey, ResourceName, ResourceRevision};
use crate::order::sort;
use crate::records::{
    ActionPhase, ActionReceipt, CredentialProgress, CredentialView, FilesystemProgress,
    FilesystemView, ProviderPreparationProgress, ProviderView, ReceiptView, ResourcePhase,
    ResourceStatus, ServingProgress, ServingProgressStage, ServingView, StatusView,
};
use vstd::prelude::*;

pub mod hub;
pub mod laws;
pub mod state_laws;
pub mod subscription;

verus! {

/// What a watcher follows.
#[derive(Clone, Copy, Debug, PartialEq, Eq, Structural)]
pub enum ProgressTarget {
    Current,
    DesiredRevision(ResourceRevision),
    Action(ActionId),
}

/// Everything that is known at one moment.
#[derive(Debug, PartialEq, Eq)]
pub struct ProgressSnapshot {
    pub desired_revision: ResourceRevision,
    pub observed_revision: Option<ResourceRevision>,
    pub resources: Vec<ResourceStatus>,
    pub actions: Vec<ActionReceipt>,
    pub providers: Vec<ProviderPreparationProgress>,
    pub serving: Option<ServingProgress>,
    pub credentials: Vec<CredentialProgress>,
    pub filesystems: Vec<FilesystemProgress>,
}

/// [`ProgressSnapshot`] by what it stands for.
pub struct SnapshotView {
    pub desired_revision: ResourceRevision,
    pub observed_revision: Option<ResourceRevision>,
    pub resources: Seq<StatusView>,
    pub actions: Seq<ReceiptView>,
    pub providers: Seq<ProviderView>,
    pub serving: Option<ServingView>,
    pub credentials: Seq<CredentialView>,
    pub filesystems: Seq<FilesystemView>,
}

/// An optional serving record by what it stands for.
pub open spec fn opt_serving(serving: Option<ServingProgress>) -> Option<ServingView> {
    match serving {
        Some(serving) => Some(serving@),
        None => None,
    }
}

impl View for ProgressSnapshot {
    type V = SnapshotView;

    open spec fn view(&self) -> SnapshotView {
        SnapshotView {
            desired_revision: self.desired_revision,
            observed_revision: self.observed_revision,
            resources: crate::list::views(self.resources@),
            actions: crate::list::views(self.actions@),
            providers: crate::list::views(self.providers@),
            serving: opt_serving(self.serving),
            credentials: crate::list::views(self.credentials@),
            filesystems: crate::list::views(self.filesystems@),
        }
    }
}

fn clone_serving(serving: &Option<ServingProgress>) -> (copy: Option<ServingProgress>)
    ensures
        opt_serving(copy) == opt_serving(*serving),
{
    match serving {
        Some(serving) => Some(serving.clone()),
        None => None,
    }
}

impl Clone for ProgressSnapshot {
    fn clone(&self) -> (copy: Self)
        ensures
            copy@ == self@,
    {
        ProgressSnapshot {
            desired_revision: self.desired_revision,
            observed_revision: self.observed_revision,
            resources: copy_all(&self.resources),
            actions: copy_all(&self.actions),
            providers: copy_all(&self.providers),
            serving: clone_serving(&self.serving),
            credentials: copy_all(&self.credentials),
            filesystems: copy_all(&self.filesystems),
        }
    }
}

impl ProgressSnapshot {
    /// A revision of which nothing is known.
    pub fn empty(desired_revision: ResourceRevision) -> (snapshot: Self)
        ensures
            snapshot@ == (SnapshotView {
                desired_revision,
                observed_revision: None,
                resources: Seq::empty(),
                actions: Seq::empty(),
                providers: Seq::empty(),
                serving: None,
                credentials: Seq::empty(),
                filesystems: Seq::empty(),
            }),
    {
        let snapshot = ProgressSnapshot {
            desired_revision,
            observed_revision: None,
            resources: Vec::new(),
            actions: Vec::new(),
            providers: Vec::new(),
            serving: None,
            credentials: Vec::new(),
            filesystems: Vec::new(),
        };
        assert(snapshot@.resources =~= Seq::empty());
        assert(snapshot@.actions =~= Seq::empty());
        assert(snapshot@.providers =~= Seq::empty());
        assert(snapshot@.credentials =~= Seq::empty());
        assert(snapshot@.filesystems =~= Seq::empty());
        snapshot
    }
}

/// What an event reports.
#[allow(inconsistent_fields)]
#[derive(Debug, PartialEq, Eq)]
pub enum ProgressEventKind {
    Snapshot(ProgressSnapshot),
    Resync(ProgressSnapshot),
    ProviderPreparation(ProviderPreparationProgress),
    ServingProgress(ServingProgress),
    CredentialProgress(CredentialProgress),
    FilesystemProgress(FilesystemProgress),
    RevisionReady(ResourceRevision),
    RevisionFailed { revision: ResourceRevision, error_code: String, detail: String },
    RevisionSuperseded { revision: ResourceRevision, replaced_by: ResourceRevision },
    ActionCompleted(ActionReceipt),
    ActionFailed { receipt: ActionReceipt, error_code: String, detail: String },
}

/// [`ProgressEventKind`] by what it stands for.
#[allow(inconsistent_fields)]
pub enum KindView {
    Snapshot(SnapshotView),
    Resync(SnapshotView),
    ProviderPreparation(ProviderView),
    ServingProgress(ServingView),
    CredentialProgress(CredentialView),
    FilesystemProgress(FilesystemView),
    RevisionReady(ResourceRevision),
    RevisionFailed { revision: ResourceRevision, error_code: Seq<char>, detail: Seq<char> },
    RevisionSuperseded { revision: ResourceRevision, replaced_by: ResourceRevision },
    ActionCompleted(ReceiptView),
    ActionFailed { receipt: ReceiptView, error_code: Seq<char>, detail: Seq<char> },
}

impl View for ProgressEventKind {
    type V = KindView;

    open spec fn view(&self) -> KindView {
        match self {
            ProgressEventKind::Snapshot(snapshot) => KindView::Snapshot(snapshot@),
            ProgressEventKind::Resync(snapshot) => KindView::Resync(snapshot@),
            ProgressEventKind::ProviderPreparation(progress) => KindView::ProviderPreparation(
                progress@,
            ),
            ProgressEventKind::ServingProgress(progress) => KindView::ServingProgress(progress@),
            ProgressEventKind::CredentialProgress(progress) => KindView::CredentialProgress(
                progress@,
            ),
            ProgressEventKind::FilesystemProgress(progress) => KindView::FilesystemProgress(
                progress@,
            ),
            ProgressEventKind::RevisionReady(revision) => KindView::RevisionReady(*revision),
            ProgressEventKind::RevisionFailed { revision, error_code, detail } =>
                KindView::RevisionFailed {
                    revision: *revision,
                    error_code: error_code@,
                    detail: detail@,
                },
            ProgressEventKind::RevisionSuperseded { revision, replaced_by } =>
                KindView::RevisionSuperseded { revision: *revision, replaced_by: *replaced_by },
            ProgressEventKind::ActionCompleted(receipt) => KindView::ActionCompleted(receipt@),
            ProgressEventKind::ActionFailed { receipt, error_code, detail } =>
                KindView::ActionFailed {
                    receipt: receipt@,
                    error_code: error_code@,
                    detail: detail@,
                },
        }
    }
}

impl Clone for ProgressEventKind {
    fn clone(&self) -> (copy: Self)
        ensures
            copy@ == self@,
    {
        match self {
            ProgressEventKind::Snapshot(snapshot) => ProgressEventKind::Snapshot(snapshot.clone()),
            ProgressEventKind::Resync(snapshot) => ProgressEventKind::Resync(snapshot.clone()),
            ProgressEventKind::ProviderPreparation(progress) => {
                ProgressEventKind::ProviderPreparation(progress.clone())
            },
            ProgressEventKind::ServingProgress(progress) => ProgressEventKind::ServingProgress(
                progress.clone(),
            ),
            ProgressEventKind::CredentialProgress(progress) => {
                ProgressEventKind::CredentialProgress(progress.clone())
            },
            ProgressEventKind::FilesystemProgress(progress) => {
                ProgressEventKind::FilesystemProgress(progress.clone())
            },
            ProgressEventKind::RevisionReady(revision) => ProgressEventKind::RevisionReady(
                *revision,
            ),
            ProgressEventKind::RevisionFailed { revision, error_code, detail } =>
                ProgressEventKind::RevisionFailed {
                    revision: *revision,
                    error_code: error_code.clone(),
                    detail: detail.clone(),
                },
            ProgressEventKind::RevisionSuperseded { revision, replaced_by } =>
                ProgressEventKind::RevisionSuperseded {
                    revision: *revision,
                    replaced_by: *replaced_by,
                },
            ProgressEventKind::ActionCompleted(receipt) => ProgressEventKind::ActionCompleted(
                receipt.clone(),
            ),
            ProgressEventKind::ActionFailed { receipt, error_code, detail } =>
                ProgressEventKind::ActionFailed {
                    receipt: receipt.clone(),
                    error_code: error_code.clone(),
                    detail: detail.clone(),
                },
        }
    }
}

/// One numbered event.
#[derive(Debug, PartialEq, Eq)]
pub struct ProgressEvent {
    pub daemon_instance_id: String,
    pub sequence: u64,
    pub target: ProgressTarget,
    pub event: ProgressEventKind,
}

/// [`ProgressEvent`] by what it stands for.
pub struct EventView {
    pub daemon_instance_id: Seq<char>,
    pub sequence: u64,
    pub target: ProgressTarget,
    pub event: KindView,
}

impl View for ProgressEvent {
    type V = EventView;

    open spec fn view(&self) -> EventView {
        EventView {
            daemon_instance_id: self.daemon_instance_id@,
            sequence: self.sequence,
            target: self.target,
            event: self.event@,
        }
    }
}

impl Clone for ProgressEvent {
    fn clone(&self) -> (copy: Self)
        ensures
            copy@ == self@,
    {
        ProgressEvent {
            daemon_instance_id: self.daemon_instance_id.clone(),
            sequence: self.sequence,
            target: self.target,
            event: self.event.clone(),
        }
    }
}

/// The serving stage that an action was last correlated with.
#[derive(Debug, PartialEq, Eq)]
pub struct ActionServing {
    pub action: ActionId,
    pub progress: ServingProgress,
}

/// The names under which one revision uses one provider artifact.
#[derive(Debug, PartialEq, Eq)]
pub struct ProviderNames {
    pub digest: ProviderId,
    pub names: Vec<ResourceName>,
}

/// [`ProviderNames`] by what it spells.
pub struct NamesView {
    pub digest: ProviderId,
    pub names: Seq<Seq<char>>,
}

impl View for ProviderNames {
    type V = NamesView;

    open spec fn view(&self) -> NamesView {
        NamesView { digest: self.digest, names: crate::list::views(self.names@) }
    }
}

/// The exact provider membership of one desired revision.
#[derive(Debug, PartialEq, Eq)]
pub struct RevisionProviders {
    pub revision: ResourceRevision,
    pub providers: Vec<ProviderNames>,
}

/// [`RevisionProviders`] by what it spells.
pub struct MembershipView {
    pub revision: ResourceRevision,
    pub providers: Seq<NamesView>,
}

impl View for RevisionProviders {
    type V = MembershipView;

    open spec fn view(&self) -> MembershipView {
        MembershipView { revision: self.revision, providers: crate::list::views(self.providers@) }
    }
}

/// The names of an artifact, where it is a member.
pub open spec fn names_of(providers: Seq<NamesView>, digest: ProviderId) -> Option<Seq<Seq<char>>>
    decreases providers.len(),
{
    if providers.len() == 0 {
        None
    } else if providers[0].digest == digest {
        Some(providers[0].names)
    } else {
        names_of(providers.skip(1), digest)
    }
}

/// The membership of a revision; empty where none was registered.
pub open spec fn members_of(memberships: Seq<MembershipView>, revision: ResourceRevision) -> Seq<
    NamesView,
>
    decreases memberships.len(),
{
    if memberships.len() == 0 {
        Seq::empty()
    } else if memberships[0].revision == revision {
        memberships[0].providers
    } else {
        members_of(memberships.skip(1), revision)
    }
}

/// The serving stage of an action, where one was recorded.
pub open spec fn serving_of(recorded: Seq<ActionServing>, action: ActionId) -> Option<ServingView>
    decreases recorded.len(),
{
    if recorded.len() == 0 {
        None
    } else if recorded[0].action == action {
        Some(recorded[0].progress@)
    } else {
        serving_of(recorded.skip(1), action)
    }
}

/// The hub by what it stands for.
#[verifier::ext_equal]
pub struct HubView {
    pub daemon_instance_id: Seq<char>,
    pub sequence: u64,
    pub snapshot: SnapshotView,
    pub action_serving: spec_fn(ActionId) -> Option<ServingView>,
    pub memberships: Seq<MembershipView>,
    pub outbox: Seq<EventView>,
}

/// The progress owner of one daemon instance.
#[derive(Debug, PartialEq, Eq)]
pub struct ProgressHub {
    pub daemon_instance_id: String,
    pub sequence: u64,
    pub snapshot: ProgressSnapshot,
    pub action_serving: Vec<ActionServing>,
    pub revision_providers: Vec<RevisionProviders>,
    pub outbox: Vec<ProgressEvent>,
}

impl View for ProgressHub {
    type V = HubView;

    open spec fn view(&self) -> HubView {
        HubView {
            daemon_instance_id: self.daemon_instance_id@,
            sequence: self.sequence,
            snapshot: self.snapshot@,
            action_serving: |action: ActionId| serving_of(self.action_serving@, action),
            memberships: crate::list::views(self.revision_providers@),
            outbox: crate::list::views(self.outbox@),
        }
    }
}

/// Whether some resource carries this name.
pub open spec fn names_a_resource(resources: Seq<StatusView>, name: Seq<char>) -> bool {
    exists|i: int| 0 <= i < resources.len() && (#[trigger] resources[i]).key.name == name
}

/// The artifacts of a membership, each under the names it has there.
pub open spec fn as_members(providers: Seq<ProviderView>, members: Seq<NamesView>) -> Seq<ProviderView> {
    providers.filter(|provider: ProviderView| names_of(members, provider.digest) is Some).map_values(
        |provider: ProviderView|
            ProviderView {
                resource_names: names_of(members, provider.digest).unwrap(),
                ..provider
            },
    )
}

/// What a watcher of a target sees of a snapshot.
pub open spec fn filtered(
    snapshot: SnapshotView,
    target: ProgressTarget,
    memberships: Seq<MembershipView>,
    action_serving: spec_fn(ActionId) -> Option<ServingView>,
) -> SnapshotView {
    match target {
        ProgressTarget::Current => snapshot,
        ProgressTarget::DesiredRevision(revision) => {
            let resources = snapshot.resources.filter(
                |status: StatusView| status.desired_revision == revision,
            );
            SnapshotView {
                resources,
                actions: Seq::empty(),
                providers: as_members(snapshot.providers, members_of(memberships, revision)),
                serving: match snapshot.serving {
                    Some(serving) => if serving.revision == revision {
                        Some(serving)
                    } else {
                        None
                    },
                    None => None,
                },
                credentials: snapshot.credentials.filter(
                    |progress: CredentialView| names_a_resource(resources, progress.key.name),
                ),
                filesystems: snapshot.filesystems.filter(
                    |progress: FilesystemView| names_a_resource(resources, progress.key.name),
                ),
                ..snapshot
            }
        },
        ProgressTarget::Action(action) => {
            let actions = snapshot.actions.filter(|receipt: ReceiptView| receipt.action_id == action);
            let affected: Option<KeyView> = if actions.len() == 0 {
                None
            } else {
                Some(actions[0].target)
            };
            SnapshotView {
                resources: snapshot.resources.filter(
                    |status: StatusView| affected == Some(status.key),
                ),
                actions,
                providers: Seq::empty(),
                serving: action_serving(action),
                credentials: snapshot.credentials.filter(
                    |progress: CredentialView| affected == Some(progress.key),
                ),
                filesystems: snapshot.filesystems.filter(
                    |progress: FilesystemView| affected == Some(progress.key),
                ),
                ..snapshot
            }
        },
    }
}

pub(crate) fn find_names<'a>(providers: &'a Vec<ProviderNames>, digest: ProviderId) -> (names: Option<
    &'a Vec<ResourceName>,
>)
    ensures
        match names {
            Some(names) => names_of(crate::list::views(providers@), digest) == Some(
                crate::list::views(names@),
            ),
            None => names_of(crate::list::views(providers@), digest) is None,
        },
{
    let ghost all = crate::list::views(providers@);
    let mut i: usize = 0;
    assert(all.skip(0) =~= all);
    while i < providers.len()
        invariant
            i <= providers@.len(),
            all == crate::list::views(providers@),
            names_of(all, digest) == names_of(all.skip(i as int), digest),
        decreases providers@.len() - i,
    {
        assert(all.skip(i as int)[0] == providers@[i as int]@);
        if providers[i].digest == digest {
            return Some(&providers[i].names);
        }
        assert(all.skip(i as int).skip(1) =~= all.skip(i + 1));
        i = i + 1;
    }
    None
}

fn find_members<'a>(memberships: &'a Vec<RevisionProviders>, revision: ResourceRevision) -> (members:
    Option<&'a Vec<ProviderNames>>)
    ensures
        match members {
            Some(members) => members_of(crate::list::views(memberships@), revision)
                == crate::list::views(members@),
            None => members_of(crate::list::views(memberships@), revision) == Seq::<
                NamesView,
            >::empty(),
        },
{
    let ghost all = crate::list::views(memberships@);
    let mut i: usize = 0;
    assert(all.skip(0) =~= all);
    while i < memberships.len()
        invariant
            i <= memberships@.len(),
            all == crate::list::views(memberships@),
            members_of(all, revision) == members_of(all.skip(i as int), revision),
        decreases memberships@.len() - i,
    {
        assert(all.skip(i as int)[0] == memberships@[i as int]@);
        if memberships[i].revision == revision {
            return Some(&memberships[i].providers);
        }
        assert(all.skip(i as int).skip(1) =~= all.skip(i + 1));
        i = i + 1;
    }
    None
}

fn find_serving(recorded: &Vec<ActionServing>, action: ActionId) -> (serving: Option<ServingProgress>)
    ensures
        opt_serving(serving) == serving_of(recorded@, action),
{
    let mut i: usize = 0;
    assert(recorded@.skip(0) =~= recorded@);
    while i < recorded.len()
        invariant
            i <= recorded@.len(),
            serving_of(recorded@, action) == serving_of(recorded@.skip(i as int), action),
        decreases recorded@.len() - i,
    {
        assert(recorded@.skip(i as int)[0] == recorded@[i as int]);
        if recorded[i].action == action {
            return Some(recorded[i].progress.clone());
        }
        assert(recorded@.skip(i as int).skip(1) =~= recorded@.skip(i + 1));
        i = i + 1;
    }
    None
}

fn name_of_a_resource(resources: &Vec<ResourceStatus>, name: &ResourceName) -> (found: bool)
    ensures
        found == names_a_resource(crate::list::views(resources@), name@),
{
    let ghost all = crate::list::views(resources@);
    let mut i: usize = 0;
    while i < resources.len()
        invariant
            i <= resources@.len(),
            all == crate::list::views(resources@),
            forall|j: int| 0 <= j < i ==> (#[trigger] all[j]).key.name != name@,
        decreases resources@.len() - i,
    {
        assert(all[i as int] == resources@[i as int]@);
        if resources[i].key.name.same(name) {
            return true;
        }
        i = i + 1;
    }
    false
}

fn as_member_list(providers: &Vec<ProviderPreparationProgress>, members: Option<&Vec<ProviderNames>>) -> (out:
    Vec<ProviderPreparationProgress>)
    ensures
        crate::list::views(out@) == as_members(
            crate::list::views(providers@),
            match members {
                Some(members) => crate::list::views(members@),
                None => Seq::empty(),
            },
        ),
{
    let ghost all = crate::list::views(providers@);
    let ghost known: Seq<NamesView> = match members {
        Some(members) => crate::list::views(members@),
        None => Seq::empty(),
    };
    let ghost keep = |provider: ProviderView| names_of(known, provider.digest) is Some;
    let ghost rename = |provider: ProviderView|
        ProviderView { resource_names: names_of(known, provider.digest).unwrap(), ..provider };
    let mut out: Vec<ProviderPreparationProgress> = Vec::new();
    proof {
        reveal(Seq::filter);
        assert(crate::list::views(out@) =~= all.take(0).filter(keep).map_values(rename));
    }
    let mut i: usize = 0;
    while i < providers.len()
        invariant
            i <= providers@.len(),
            all == crate::list::views(providers@),
            known == (match members {
                Some(members) => crate::list::views(members@),
                None => Seq::empty(),
            }),
            keep == (|provider: ProviderView| names_of(known, provider.digest) is Some),
            rename == (|provider: ProviderView|
                ProviderView {
                    resource_names: names_of(known, provider.digest).unwrap(),
                    ..provider
                }),
            crate::list::views(out@) == all.take(i as int).filter(keep).map_values(rename),
        decreases providers@.len() - i,
    {
        proof {
            crate::list::filter_extends(all, keep, i as int);
        }
        let ghost before = crate::list::views(out@);
        assert(all[i as int] == providers@[i as int]@);
        let names: Option<Vec<ResourceName>> = match members {
            Some(members) => match find_names(members, providers[i].digest) {
                Some(names) => Some(copy_all(names)),
                None => None,
            },
            None => None,
        };
        if let Some(names) = names {
            let mut provider = providers[i].clone();
            provider.resource_names = names;
            out.push(provider);
            assert(provider@ == rename(all[i as int]));
            assert(crate::list::views(out@) =~= before.push(provider@));
            assert(all.take(i + 1).filter(keep).map_values(rename) =~= all.take(i as int).filter(
                keep,
            ).map_values(rename).push(rename(all[i as int])));
        }
        i = i + 1;
    }
    assert(all.take(i as int) =~= all);
    out
}

/// What a watcher of a target sees of a snapshot.
pub fn filter_snapshot(
    snapshot: &ProgressSnapshot,
    target: ProgressTarget,
    memberships: &Vec<RevisionProviders>,
    action_serving: &Vec<ActionServing>,
) -> (seen: ProgressSnapshot)
    ensures
        seen@ == filtered(
            snapshot@,
            target,
            crate::list::views(memberships@),
            |action: ActionId| serving_of(action_serving@, action),
        ),
{
    match target {
        ProgressTarget::Current => snapshot.clone(),
        ProgressTarget::DesiredRevision(revision) => {
            let test = |status: &ResourceStatus| -> (keep: bool)
                ensures
                    keep == (status@.desired_revision == revision),
            {
                status.desired_revision == revision
            };
            let resources = kept(
                copy_all(&snapshot.resources),
                test,
                Ghost(|status: StatusView| status.desired_revision == revision),
            );
            let ghost mine = crate::list::views(resources@);
            let providers = as_member_list(
                &snapshot.providers,
                find_members(memberships, revision),
            );
            let serving = match &snapshot.serving {
                Some(serving) => if serving.revision == revision {
                    Some(serving.clone())
                } else {
                    None
                },
                None => None,
            };
            let test = |progress: &CredentialProgress| -> (keep: bool)
                ensures
                    keep == names_a_resource(crate::list::views(resources@), progress@.key.name),
            {
                name_of_a_resource(&resources, &progress.key.name)
            };
            let credentials = kept(
                copy_all(&snapshot.credentials),
                test,
                Ghost(|progress: CredentialView| names_a_resource(mine, progress.key.name)),
            );
            let test = |progress: &FilesystemProgress| -> (keep: bool)
                ensures
                    keep == names_a_resource(crate::list::views(resources@), progress@.key.name),
            {
                name_of_a_resource(&resources, &progress.key.name)
            };
            let filesystems = kept(
                copy_all(&snapshot.filesystems),
                test,
                Ghost(|progress: FilesystemView| names_a_resource(mine, progress.key.name)),
            );
            let seen = ProgressSnapshot {
                desired_revision: snapshot.desired_revision,
                observed_revision: snapshot.observed_revision,
                resources,
                actions: Vec::new(),
                providers,
                serving,
                credentials,
                filesystems,
            };
            assert(seen@.actions =~= Seq::empty());
            seen
        },
        ProgressTarget::Action(action) => {
            let test = |receipt: &ActionReceipt| -> (keep: bool)
                ensures
                    keep == (receipt@.action_id == action),
            {
                receipt.action_id == action
            };
            let actions = kept(
                copy_all(&snapshot.actions),
                test,
                Ghost(|receipt: ReceiptView| receipt.action_id == action),
            );
            let affected: Option<ResourceKey> = if actions.len() == 0 {
                None
            } else {
                Some(actions[0].target.clone())
            };
            let ghost all = crate::list::views(actions@);
            let ghost wanted: Option<KeyView> = if all.len() == 0 {
                None
            } else {
                Some(all[0].target)
            };
            let test = |status: &ResourceStatus| -> (keep: bool)
                ensures
                    keep == (opt_key(&affected) == Some(status@.key)),
            {
                is_key(&affected, &status.key)
            };
            let resources = kept(
                copy_all(&snapshot.resources),
                test,
                Ghost(|status: StatusView| wanted == Some(status.key)),
            );
            let test = |progress: &CredentialProgress| -> (keep: bool)
                ensures
                    keep == (opt_key(&affected) == Some(progress@.key)),
            {
                is_key(&affected, &progress.key)
            };
            let credentials = kept(
                copy_all(&snapshot.credentials),
                test,
                Ghost(|progress: CredentialView| wanted == Some(progress.key)),
            );
            let test = |progress: &FilesystemProgress| -> (keep: bool)
                ensures
                    keep == (opt_key(&affected) == Some(progress@.key)),
            {
                is_key(&affected, &progress.key)
            };
            let filesystems = kept(
                copy_all(&snapshot.filesystems),
                test,
                Ghost(|progress: FilesystemView| wanted == Some(progress.key)),
            );
            let seen = ProgressSnapshot {
                desired_revision: snapshot.desired_revision,
                observed_revision: snapshot.observed_revision,
                resources,
                actions,
                providers: Vec::new(),
                serving: find_serving(action_serving, action),
                credentials,
                filesystems,
            };
            assert(seen@.providers =~= Seq::empty());
            seen
        },
    }
}

/// An optional key by what it spells.
pub open spec fn opt_key(key: &Option<ResourceKey>) -> Option<KeyView> {
    match key {
        Some(key) => Some(key@),
        None => None,
    }
}

fn is_key(wanted: &Option<ResourceKey>, key: &ResourceKey) -> (same: bool)
    ensures
        same == (opt_key(wanted) == Some(key@)),
{
    match wanted {
        Some(wanted) => wanted.same(key),
        None => false,
    }
}

/// How a target stands, as far as a snapshot shows it.
#[derive(Clone, Copy, Debug, PartialEq, Eq, Structural)]
pub enum ProgressTargetState {
    Watching,
    Ready,
    Failed,
    Superseded,
    Current,
    Unavailable,
}

/// Where the receipt of an action is first listed.
pub open spec fn first_receipt(actions: Seq<ReceiptView>, action: ActionId) -> Option<ReceiptView>
    decreases actions.len(),
{
    if actions.len() == 0 {
        None
    } else if actions[0].action_id == action {
        Some(actions[0])
    } else {
        first_receipt(actions.skip(1), action)
    }
}

/// Whether a resource of the revision is failed or blocked.
pub open spec fn has_failed(resources: Seq<StatusView>, revision: ResourceRevision) -> bool {
    exists|i: int|
        0 <= i < resources.len() && (#[trigger] resources[i]).desired_revision == revision && (
        resources[i].phase == ResourcePhase::Failed || resources[i].phase == ResourcePhase::Blocked)
}

/// Whether every resource of the revision is ready.
pub open spec fn all_ready(resources: Seq<StatusView>, revision: ResourceRevision) -> bool {
    forall|i: int|
        0 <= i < resources.len() && (#[trigger] resources[i]).desired_revision == revision
            ==> resources[i].phase == ResourcePhase::Ready
}

/// How a target stands: a revision is superseded by any later one, failed by
/// one failed resource or a failed generation, and ready once it was observed
/// and all its resources are ready.
pub open spec fn state_of(snapshot: SnapshotView, target: ProgressTarget) -> ProgressTargetState {
    match target {
        ProgressTarget::Current => ProgressTargetState::Current,
        ProgressTarget::Action(action) => match first_receipt(snapshot.actions, action) {
            None => ProgressTargetState::Unavailable,
            Some(receipt) => match receipt.phase {
                ActionPhase::Ready => ProgressTargetState::Ready,
                ActionPhase::Failed => ProgressTargetState::Failed,
                _ => ProgressTargetState::Watching,
            },
        },
        ProgressTarget::DesiredRevision(revision) => {
            let generation_failed = match snapshot.serving {
                Some(serving) => serving.revision == revision && serving.stage
                    == ServingProgressStage::Failed,
                None => false,
            };
            let observed = match snapshot.observed_revision {
                Some(observed) => observed.value >= revision.value,
                None => false,
            };
            if snapshot.desired_revision.value > revision.value {
                ProgressTargetState::Superseded
            } else if snapshot.desired_revision.value < revision.value {
                ProgressTargetState::Unavailable
            } else if has_failed(snapshot.resources, revision) || generation_failed {
                ProgressTargetState::Failed
            } else if observed && all_ready(snapshot.resources, revision) {
                ProgressTargetState::Ready
            } else {
                ProgressTargetState::Watching
            }
        },
    }
}

/// Whether nothing more can happen to a target.
pub open spec fn is_final(state: ProgressTargetState) -> bool {
    state == ProgressTargetState::Ready || state == ProgressTargetState::Failed || state
        == ProgressTargetState::Superseded
}

fn any_failed(resources: &Vec<ResourceStatus>, revision: ResourceRevision) -> (failed: bool)
    ensures
        failed == has_failed(crate::list::views(resources@), revision),
{
    let ghost all = crate::list::views(resources@);
    let mut i: usize = 0;
    while i < resources.len()
        invariant
            i <= resources@.len(),
            all == crate::list::views(resources@),
            forall|j: int|
                0 <= j < i && (#[trigger] all[j]).desired_revision == revision ==> all[j].phase
                    != ResourcePhase::Failed && all[j].phase != ResourcePhase::Blocked,
        decreases resources@.len() - i,
    {
        assert(all[i as int] == resources@[i as int]@);
        if resources[i].desired_revision == revision && (resources[i].phase == ResourcePhase::Failed
            || resources[i].phase == ResourcePhase::Blocked) {
            return true;
        }
        i = i + 1;
    }
    false
}

fn every_ready(resources: &Vec<ResourceStatus>, revision: ResourceRevision) -> (ready: bool)
    ensures
        ready == all_ready(crate::list::views(resources@), revision),
{
    let ghost all = crate::list::views(resources@);
    let mut i: usize = 0;
    while i < resources.len()
        invariant
            i <= resources@.len(),
            all == crate::list::views(resources@),
            forall|j: int|
                0 <= j < i && (#[trigger] all[j]).desired_revision == revision ==> all[j].phase
                    == ResourcePhase::Ready,
        decreases resources@.len() - i,
    {
        assert(all[i as int] == resources@[i as int]@);
        if resources[i].desired_revision == revision && resources[i].phase != ResourcePhase::Ready {
            return false;
        }
        i = i + 1;
    }
    true
}

/// How a target stands.
pub fn target_state(snapshot: &ProgressSnapshot, target: ProgressTarget) -> (state: ProgressTargetState)
    ensures
        state == state_of(snapshot@, target),
{
    match target {
        ProgressTarget::Current => ProgressTargetState::Current,
        ProgressTarget::Action(action) => {
            let ghost all = snapshot@.actions;
            let mut i: usize = 0;
            assert(all.skip(0) =~= all);
            while i < snapshot.actions.len()
                invariant
                    i <= snapshot.actions@.len(),
                    all == crate::list::views(snapshot.actions@),
                    target == ProgressTarget::Action(action),
                    first_receipt(all, action) == first_receipt(all.skip(i as int), action),
                decreases snapshot.actions@.len() - i,
            {
                assert(all.skip(i as int)[0] == snapshot.actions@[i as int]@);
                if snapshot.actions[i].action_id == action {
                    return match snapshot.actions[i].phase {
                        ActionPhase::Ready => ProgressTargetState::Ready,
                        ActionPhase::Failed => ProgressTargetState::Failed,
                        ActionPhase::Accepted | ActionPhase::Running | ActionPhase::Retrying =>
                            ProgressTargetState::Watching,
                    };
                }
                assert(all.skip(i as int).skip(1) =~= all.skip(i + 1));
                i = i + 1;
            }
            ProgressTargetState::Unavailable
        },
        ProgressTarget::DesiredRevision(revision) => {
            if snapshot.desired_revision.value > revision.value {
                return ProgressTargetState::Superseded;
            }
            if snapshot.desired_revision.value < revision.value {
                return ProgressTargetState::Unavailable;
            }
            let generation_failed = match &snapshot.serving {
                Some(serving) => serving.revision == revision && serving.stage
                    == ServingProgressStage::Failed,
                None => false,
            };
            if any_failed(&snapshot.resources, revision) || generation_failed {
                return ProgressTargetState::Failed;
            }
            let observed = match snapshot.observed_revision {
                Some(observed) => observed.value >= revision.value,
                None => false,
            };
            if observed && every_ready(&snapshot.resources, revision) {
                ProgressTargetState::Ready
            } else {
                ProgressTargetState::Watching
            }
        },
    }
}

/// Whether nothing more can happen to a target.
pub fn target_is_terminal(snapshot: &ProgressSnapshot, target: ProgressTarget) -> (terminal: bool)
    ensures
        terminal == is_final(state_of(snapshot@, target)),
{
    match target_state(snapshot, target) {
        ProgressTargetState::Ready | ProgressTargetState::Failed | ProgressTargetState::Superseded =>
            true,
        _ => false,
    }
}

/// Whether a watcher of one target is told of events for another.
pub open spec fn accepts(subscription: ProgressTarget, event: ProgressTarget) -> bool {
    subscription == ProgressTarget::Current || subscription == event
}

/// Whether a watcher of one target is told of events for another.
pub fn target_accepts(subscription: ProgressTarget, event: ProgressTarget) -> (accepted: bool)
    ensures
        accepted == accepts(subscription, event),
{
    match subscription {
        ProgressTarget::Current => true,
        ProgressTarget::DesiredRevision(revision) => event == ProgressTarget::DesiredRevision(
            revision,
        ),
        ProgressTarget::Action(action) => event == ProgressTarget::Action(action),
    }
}

/// Whether an event is the last one for a target.
pub open spec fn ends(event: EventView, target: ProgressTarget) -> bool {
    event.target == target && match target {
        ProgressTarget::Current => false,
        ProgressTarget::DesiredRevision(_) => event.event is RevisionReady || event.event
            is RevisionFailed || event.event is RevisionSuperseded,
        ProgressTarget::Action(_) => event.event is ActionCompleted || event.event is ActionFailed,
    }
}

/// Whether an event is the last one for a target.
pub fn event_is_terminal(event: &ProgressEvent, target: ProgressTarget) -> (terminal: bool)
    ensures
        terminal == ends(event@, target),
{
    if event.target != target {
        return false;
    }
    match target {
        ProgressTarget::Current => false,
        ProgressTarget::DesiredRevision(_) => match &event.event {
            ProgressEventKind::RevisionReady(_)
            | ProgressEventKind::RevisionFailed { .. }
            | ProgressEventKind::RevisionSuperseded { .. } => true,
            _ => false,
        },
        ProgressTarget::Action(_) => match &event.event {
            ProgressEventKind::ActionCompleted(_) | ProgressEventKind::ActionFailed { .. } => true,
            _ => false,
        },
    }
}

/// A list of names in order, each once.
pub open spec fn deduped(names: Seq<Seq<char>>) -> Seq<Seq<char>>
    decreases names.len(),
{
    if names.len() == 0 {
        Seq::empty()
    } else {
        let rest = deduped(names.drop_last());
        if rest.len() > 0 && rest.last() == names.last() {
            rest
        } else {
            rest.push(names.last())
        }
    }
}

/// A list of names, sorted, each once.
pub open spec fn tidied(names: Seq<Seq<char>>) -> Seq<Seq<char>> {
    deduped(crate::order::sorted::<ResourceName>(names))
}

/// Sorts a list of names and drops repetitions.
pub fn tidy(names: Vec<ResourceName>) -> (tidy: Vec<ResourceName>)
    ensures
        crate::list::views(tidy@) == tidied(crate::list::views(names@)),
{
    let listed = sort(names);
    let ghost whole = listed@;
    let ghost all = crate::list::views(whole);
    let mut tidy: Vec<ResourceName> = Vec::new();
    assert(crate::list::views(tidy@) =~= deduped(all.take(0)));
    for name in it: listed
        invariant
            it.seq() == whole,
            all == crate::list::views(whole),
            crate::list::views(tidy@) == deduped(all.take(it.index() as int)),
    {
        let ghost before = crate::list::views(tidy@);
        let ghost after = all.take(it.index() + 1);
        assert(after.drop_last() =~= all.take(it.index() as int));
        assert(after.last() == name@);
        let count: usize = tidy.len();
        if count > 0 && tidy[count - 1].same(&name) {
            assert(before.last() == name@);
        } else {
            if count > 0 {
                assert(before.last() == tidy@[count - 1]@);
            }
            tidy.push(name);
            assert(crate::list::views(tidy@) =~= before.push(name@));
        }
    }
    assert(all.take(all.len() as int) =~= all);
    tidy
}

/// Whether every name is listed strictly before the next ones.
pub open spec fn strictly_ordered(names: Seq<Seq<char>>) -> bool {
    forall|i: int, j: int|
        #![trigger names[i], names[j]]
        0 <= i < j < names.len() ==> crate::order::text_before(names[i], names[j])
}

proof fn deduped_is_strict(names: Seq<Seq<char>>)
    requires
        crate::order::in_order::<ResourceName>(names),
    ensures
        strictly_ordered(deduped(names)),
        names.len() > 0 ==> deduped(names).len() > 0 && deduped(names).last() == names.last(),
        forall|name: Seq<char>| #[trigger] deduped(names).contains(name) <==> names.contains(name),
    decreases names.len(),
{
    if names.len() > 0 {
        let front = names.drop_last();
        let last = names.last();
        let rest = deduped(front);
        let out = deduped(names);
        assert forall|i: int, j: int|
            #![trigger front[i], front[j]]
            0 <= i < j < front.len() implies !crate::order::text_before(front[j], front[i]) by {
            assert(front[i] == names[i] && front[j] == names[j]);
        }
        deduped_is_strict(front);
        assert(names =~= front.push(last));
        assert forall|i: int, j: int|
            #![trigger out[i], out[j]]
            0 <= i < j < out.len() implies crate::order::text_before(out[i], out[j]) by {
            if j == rest.len() {
                assert(out[i] == rest[i]);
                assert(front.len() > 0);
                assert(!crate::order::text_before(last, front.last())) by {
                    assert(names[names.len() - 2] == front.last());
                    assert(names[names.len() - 1] == last);
                }
                crate::order::text_before_is_strict_total(rest.last(), last);
                if i < rest.len() - 1 {
                    assert(crate::order::text_before(rest[i], rest[rest.len() - 1]));
                    crate::name::text_order_is_weak(rest[i], rest.last(), last);
                }
            }
        }
        assert forall|name: Seq<char>| #[trigger] out.contains(name) <==> names.contains(name) by {
            if out.contains(name) {
                let k = choose|k: int| 0 <= k < out.len() && out[k] == name;
                if k < rest.len() {
                    assert(rest.contains(rest[k]));
                    assert(front.contains(name));
                    let m = choose|m: int| 0 <= m < front.len() && front[m] == name;
                    assert(names[m] == name);
                } else {
                    assert(names[names.len() - 1] == name);
                }
            }
            if names.contains(name) {
                let m = choose|m: int| 0 <= m < names.len() && names[m] == name;
                if m < front.len() {
                    assert(front[m] == name);
                    assert(front.contains(name));
                    assert(rest.contains(name));
                    let k = choose|k: int| 0 <= k < rest.len() && rest[k] == name;
                    assert(out[k] == name);
                } else {
                    assert(out[out.len() - 1] == last);
                }
            }
        }
    }
}

/// A tidied list is strictly ordered and holds exactly the names it was made
/// from.
pub proof fn tidied_is_the_strict_listing(names: Seq<Seq<char>>)
    ensures
        strictly_ordered(tidied(names)),
        forall|name: Seq<char>| #[trigger] tidied(names).contains(name) <==> names.contains(name),
{
    let listed = crate::order::sorted::<ResourceName>(names);
    crate::order::sorted_is_in_order::<ResourceName>(names);
    deduped_is_strict(listed);
    assert forall|name: Seq<char>| #[trigger] tidied(names).contains(name) <==> names.contains(name) by {
        broadcast use vstd::seq_lib::group_to_multiset_ensures;

        assert(listed.contains(name) <==> listed.to_multiset().count(name) > 0);
        assert(names.contains(name) <==> names.to_multiset().count(name) > 0);
    }
}

} // verus!
