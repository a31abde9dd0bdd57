//! The records that progress is reported in.
use crate::list::{copy_all, Record};
use crate::name::{
    ActionId, FilesystemRuntime, KeyView, ProviderId, ResourceKey, ResourceName, ResourceRevision,
};
use crate::order::Ranked;
use vstd::prelude::*;

verus! {

/// What an action asks for.
#[derive(Clone, Copy, Debug, PartialEq, Eq, Structural)]
pub enum ActionKind {
    SetCredentialMaterial,
    RevokeCredential,
    RestartFilesystem,
}

/// How far an action has come.
#[derive(Clone, Copy, Debug, PartialEq, Eq, Structural)]
pub enum ActionPhase {
    Accepted,
    Running,
    Retrying,
    Ready,
    Failed,
}

/// How far one resource has come toward its desired state.
#[derive(Clone, Copy, Debug, PartialEq, Eq, Structural)]
pub enum ResourcePhase {
    Pending,
    Preparing,
    Retrying,
    Ready,
    Failed,
    Blocked,
    Deleting,
}

/// How far one serving generation has come.
#[derive(Clone, Copy, Debug, PartialEq, Eq, Structural)]
pub enum ServingProgressStage {
    Queued,
    WaitingProviders,
    ProvidersReady,
    Building,
    Built,
    Publishing,
    Draining,
    Degraded,
    Ready,
    Retrying,
    Failed,
    Superseded,
}

/// How far one filesystem has come.
#[derive(Clone, Copy, Debug, PartialEq, Eq, Structural)]
pub enum FilesystemProgressStage {
    Queued,
    PullingImage,
    Materializing,
    Starting,
    Mounting,
    WaitingForNamespace,
    Ready,
    Stopping,
    Retrying,
    Failed,
    Deleting,
}

/// How far the preparation of one provider artifact has come.
#[derive(Clone, Copy, Debug, PartialEq, Eq, Structural)]
pub enum ProviderPreparationStage {
    Queued,
    Compiling,
    Retrying,
    Ready,
    Failed,
}

/// How far one credential action has come.
#[derive(Clone, Copy, Debug, PartialEq, Eq, Structural)]
pub enum CredentialProgressStage {
    Refreshing,
    Revoking,
    Ready,
    Failed,
}

/// The durable record of one action.
#[derive(Debug, PartialEq, Eq)]
pub struct ActionReceipt {
    pub action_id: ActionId,
    pub kind: ActionKind,
    pub target: ResourceKey,
    pub action_generation: u64,
    pub phase: ActionPhase,
    pub error_code: Option<String>,
    pub detail: Option<String>,
}

/// [`ActionReceipt`] by what its text spells.
pub struct ReceiptView {
    pub action_id: ActionId,
    pub kind: ActionKind,
    pub target: KeyView,
    pub action_generation: u64,
    pub phase: ActionPhase,
    pub error_code: Option<Seq<char>>,
    pub detail: Option<Seq<char>>,
}

impl View for ActionReceipt {
    type V = ReceiptView;

    open spec fn view(&self) -> ReceiptView {
        ReceiptView {
            action_id: self.action_id,
            kind: self.kind,
            target: self.target@,
            action_generation: self.action_generation,
            phase: self.phase,
            error_code: crate::text::opt_text(self.error_code),
            detail: crate::text::opt_text(self.detail),
        }
    }
}

impl Clone for ActionReceipt {
    fn clone(&self) -> (copy: Self)
        ensures
            copy == *self,
    {
        ActionReceipt {
            action_id: self.action_id,
            kind: self.kind,
            target: self.target.clone(),
            action_generation: self.action_generation,
            phase: self.phase,
            error_code: self.error_code.clone(),
            detail: self.detail.clone(),
        }
    }
}

/// The observed status of one declared resource.
#[derive(Debug, PartialEq, Eq)]
pub struct ResourceStatus {
    pub key: ResourceKey,
    pub desired_revision: ResourceRevision,
    pub observed_revision: Option<ResourceRevision>,
    pub phase: ResourcePhase,
    pub error_code: Option<String>,
    pub detail: Option<String>,
}

/// [`ResourceStatus`] by what its text spells.
pub struct StatusView {
    pub key: KeyView,
    pub desired_revision: ResourceRevision,
    pub observed_revision: Option<ResourceRevision>,
    pub phase: ResourcePhase,
    pub error_code: Option<Seq<char>>,
    pub detail: Option<Seq<char>>,
}

impl View for ResourceStatus {
    type V = StatusView;

    open spec fn view(&self) -> StatusView {
        StatusView {
            key: self.key@,
            desired_revision: self.desired_revision,
            observed_revision: self.observed_revision,
            phase: self.phase,
            error_code: crate::text::opt_text(self.error_code),
            detail: crate::text::opt_text(self.detail),
        }
    }
}

impl Clone for ResourceStatus {
    fn clone(&self) -> (copy: Self)
        ensures
            copy == *self,
    {
        ResourceStatus {
            key: self.key.clone(),
            desired_revision: self.desired_revision,
            observed_revision: self.observed_revision,
            phase: self.phase,
            error_code: self.error_code.clone(),
            detail: self.detail.clone(),
        }
    }
}

/// The progress of one serving generation.
#[derive(Debug, PartialEq, Eq)]
pub struct ServingProgress {
    pub revision: ResourceRevision,
    pub stage: ServingProgressStage,
    pub completed: u32,
    pub total: u32,
    pub error_code: Option<String>,
    pub detail: Option<String>,
    pub queued_generations: u32,
    pub retry_count: u32,
    pub next_retry_unix_ms: Option<u64>,
}

/// [`ServingProgress`] by what its text spells.
pub struct ServingView {
    pub revision: ResourceRevision,
    pub stage: ServingProgressStage,
    pub completed: u32,
    pub total: u32,
    pub error_code: Option<Seq<char>>,
    pub detail: Option<Seq<char>>,
    pub queued_generations: u32,
    pub retry_count: u32,
    pub next_retry_unix_ms: Option<u64>,
}

impl View for ServingProgress {
    type V = ServingView;

    open spec fn view(&self) -> ServingView {
        ServingView {
            revision: self.revision,
            stage: self.stage,
            completed: self.completed,
            total: self.total,
            error_code: crate::text::opt_text(self.error_code),
            detail: crate::text::opt_text(self.detail),
            queued_generations: self.queued_generations,
            retry_count: self.retry_count,
            next_retry_unix_ms: self.next_retry_unix_ms,
        }
    }
}

impl Clone for ServingProgress {
    fn clone(&self) -> (copy: Self)
        ensures
            copy == *self,
    {
        ServingProgress {
            revision: self.revision,
            stage: self.stage,
            completed: self.completed,
            total: self.total,
            error_code: self.error_code.clone(),
            detail: self.detail.clone(),
            queued_generations: self.queued_generations,
            retry_count: self.retry_count,
            next_retry_unix_ms: self.next_retry_unix_ms,
        }
    }
}

/// The progress of one credential action.
#[derive(Debug, PartialEq, Eq)]
pub struct CredentialProgress {
    pub key: ResourceKey,
    pub stage: CredentialProgressStage,
    pub error_code: Option<String>,
    pub detail: Option<String>,
}

/// [`CredentialProgress`] by what its text spells.
pub struct CredentialView {
    pub key: KeyView,
    pub stage: CredentialProgressStage,
    pub error_code: Option<Seq<char>>,
    pub detail: Option<Seq<char>>,
}

impl View for CredentialProgress {
    type V = CredentialView;

    open spec fn view(&self) -> CredentialView {
        CredentialView {
            key: self.key@,
            stage: self.stage,
            error_code: crate::text::opt_text(self.error_code),
            detail: crate::text::opt_text(self.detail),
        }
    }
}

impl Clone for CredentialProgress {
    fn clone(&self) -> (copy: Self)
        ensures
            copy == *self,
    {
        CredentialProgress {
            key: self.key.clone(),
            stage: self.stage,
            error_code: self.error_code.clone(),
            detail: self.detail.clone(),
        }
    }
}

/// The progress of one filesystem.
#[derive(Debug, PartialEq, Eq)]
pub struct FilesystemProgress {
    pub key: ResourceKey,
    pub desired_revision: ResourceRevision,
    pub runtime: FilesystemRuntime,
    pub stage: FilesystemProgressStage,
    pub completed_bytes: u64,
    pub total_bytes: Option<u64>,
    pub queued_filesystems: u32,
    pub active_filesystems: u32,
    pub error_code: Option<String>,
    pub detail: Option<String>,
    pub retry_count: u32,
    pub next_retry_unix_ms: Option<u64>,
}

/// [`FilesystemProgress`] by what its text spells.
pub struct FilesystemView {
    pub key: KeyView,
    pub desired_revision: ResourceRevision,
    pub runtime: FilesystemRuntime,
    pub stage: FilesystemProgressStage,
    pub completed_bytes: u64,
    pub total_bytes: Option<u64>,
    pub queued_filesystems: u32,
    pub active_filesystems: u32,
    pub error_code: Option<Seq<char>>,
    pub detail: Option<Seq<char>>,
    pub retry_count: u32,
    pub next_retry_unix_ms: Option<u64>,
}

impl View for FilesystemProgress {
    type V = FilesystemView;

    open spec fn view(&self) -> FilesystemView {
        FilesystemView {
            key: self.key@,
            desired_revision: self.desired_revision,
            runtime: self.runtime,
            stage: self.stage,
            completed_bytes: self.completed_bytes,
            total_bytes: self.total_bytes,
            queued_filesystems: self.queued_filesystems,
            active_filesystems: self.active_filesystems,
            error_code: crate::text::opt_text(self.error_code),
            detail: crate::text::opt_text(self.detail),
            retry_count: self.retry_count,
            next_retry_unix_ms: self.next_retry_unix_ms,
        }
    }
}

impl Clone for FilesystemProgress {
    fn clone(&self) -> (copy: Self)
        ensures
            copy == *self,
    {
        FilesystemProgress {
            key: self.key.clone(),
            desired_revision: self.desired_revision,
            runtime: self.runtime,
            stage: self.stage,
            completed_bytes: self.completed_bytes,
            total_bytes: self.total_bytes,
            queued_filesystems: self.queued_filesystems,
            active_filesystems: self.active_filesystems,
            error_code: self.error_code.clone(),
            detail: self.detail.clone(),
            retry_count: self.retry_count,
            next_retry_unix_ms: self.next_retry_unix_ms,
        }
    }
}

/// The progress of one provider artifact.
#[derive(Debug, PartialEq, Eq)]
pub struct ProviderPreparationProgress {
    pub digest: ProviderId,
    pub catalog_name: String,
    pub resource_names: Vec<ResourceName>,
    pub stage: ProviderPreparationStage,
    pub queue_position: Option<u32>,
    pub completed_bytes: u64,
    pub total_bytes: Option<u64>,
    pub error_code: Option<String>,
    pub detail: Option<String>,
    pub queued_digests: u32,
    pub active_digests: u32,
    pub completed_digests: u32,
    pub retry_count: u32,
}

/// [`ProviderPreparationProgress`] by what its text spells.
pub struct ProviderView {
    pub digest: ProviderId,
    pub catalog_name: Seq<char>,
    pub resource_names: Seq<Seq<char>>,
    pub stage: ProviderPreparationStage,
    pub queue_position: Option<u32>,
    pub completed_bytes: u64,
    pub total_bytes: Option<u64>,
    pub error_code: Option<Seq<char>>,
    pub detail: Option<Seq<char>>,
    pub queued_digests: u32,
    pub active_digests: u32,
    pub completed_digests: u32,
    pub retry_count: u32,
}

impl View for ProviderPreparationProgress {
    type V = ProviderView;

    open spec fn view(&self) -> ProviderView {
        ProviderView {
            digest: self.digest,
            catalog_name: self.catalog_name@,
            resource_names: crate::list::views(self.resource_names@),
            stage: self.stage,
            queue_position: self.queue_position,
            completed_bytes: self.completed_bytes,
            total_bytes: self.total_bytes,
            error_code: crate::text::opt_text(self.error_code),
            detail: crate::text::opt_text(self.detail),
            queued_digests: self.queued_digests,
            active_digests: self.active_digests,
            completed_digests: self.completed_digests,
            retry_count: self.retry_count,
        }
    }
}

impl Clone for ProviderPreparationProgress {
    fn clone(&self) -> (copy: Self)
        ensures
            copy@ == self@,
    {
        ProviderPreparationProgress {
            digest: self.digest,
            catalog_name: self.catalog_name.clone(),
            resource_names: copy_all(&self.resource_names),
            stage: self.stage,
            queue_position: self.queue_position,
            completed_bytes: self.completed_bytes,
            total_bytes: self.total_bytes,
            error_code: self.error_code.clone(),
            detail: self.detail.clone(),
            queued_digests: self.queued_digests,
            active_digests: self.active_digests,
            completed_digests: self.completed_digests,
            retry_count: self.retry_count,
        }
    }
}

impl Record for ActionReceipt {
    fn copied(&self) -> (copy: Self) {
        self.clone()
    }
}

impl Record for ResourceStatus {
    fn copied(&self) -> (copy: Self) {
        self.clone()
    }
}

impl Record for ServingProgress {
    fn copied(&self) -> (copy: Self) {
        self.clone()
    }
}

impl Record for CredentialProgress {
    fn copied(&self) -> (copy: Self) {
        self.clone()
    }
}

impl Record for FilesystemProgress {
    fn copied(&self) -> (copy: Self) {
        self.clone()
    }
}

impl Record for ProviderPreparationProgress {
    fn copied(&self) -> (copy: Self) {
        self.clone()
    }
}

impl Ranked for ActionReceipt {
    open spec fn ranks_before(a: ReceiptView, b: ReceiptView) -> bool {
        a.action_id.value < b.action_id.value
    }

    fn is_ranked_before(&self, other: &Self) -> (before: bool) {
        self.action_id.value < other.action_id.value
    }

    proof fn ranks_before_is_weak_order(a: ReceiptView, b: ReceiptView, c: ReceiptView) {
    }
}

impl Ranked for ProviderPreparationProgress {
    open spec fn ranks_before(a: ProviderView, b: ProviderView) -> bool {
        a.digest.before(b.digest)
    }

    fn is_ranked_before(&self, other: &Self) -> (before: bool) {
        self.digest.is_ranked_before(&other.digest)
    }

    proof fn ranks_before_is_weak_order(a: ProviderView, b: ProviderView, c: ProviderView) {
    }
}

impl Ranked for CredentialProgress {
    open spec fn ranks_before(a: CredentialView, b: CredentialView) -> bool {
        crate::name::key_before(a.key, b.key)
    }

    fn is_ranked_before(&self, other: &Self) -> (before: bool) {
        self.key.is_ranked_before(&other.key)
    }

    proof fn ranks_before_is_weak_order(a: CredentialView, b: CredentialView, c: CredentialView) {
        crate::name::key_order_is_weak(a.key, b.key, c.key);
    }
}

impl Ranked for FilesystemProgress {
    open spec fn ranks_before(a: FilesystemView, b: FilesystemView) -> bool {
        crate::name::key_before(a.key, b.key)
    }

    fn is_ranked_before(&self, other: &Self) -> (before: bool) {
        self.key.is_ranked_before(&other.key)
    }

    proof fn ranks_before_is_weak_order(a: FilesystemView, b: FilesystemView, c: FilesystemView) {
        crate::name::key_order_is_weak(a.key, b.key, c.key);
    }
}

} // verus!
