//! Bounded preparation of provider artifacts.
//!
//! Each distinct artifact is prepared once, in the order of its priority and
//! arrival, by a bounded number of workers. The preparer keeps the phase of
//! every artifact it was ever given and reports each change.
use crate::list::copy_all;
use crate::name::{ProviderId, ResourceName};
use crate::progress::tidy;
use crate::text::{concat, concat3};
use std::sync::Arc;
use vstd::prelude::*;

pub mod actor;
pub mod laws;
pub mod queue_laws;

verus! {

/// Queue order of one provider artifact.
#[derive(Clone, Copy, Debug, PartialEq, Eq, Structural)]
pub enum ProviderPriority {
    Embedded,
    Retained,
    Desired,
}

impl ProviderPriority {
    /// The higher, the sooner.
    pub open spec fn rank(self) -> int {
        match self {
            ProviderPriority::Embedded => 0,
            ProviderPriority::Retained => 1,
            ProviderPriority::Desired => 2,
        }
    }

    /// Whether `self` goes before `other`.
    pub fn above(self, other: Self) -> (above: bool)
        ensures
            above == (self.rank() > other.rank()),
    {
        match (self, other) {
            (ProviderPriority::Desired, ProviderPriority::Retained)
            | (ProviderPriority::Desired, ProviderPriority::Embedded)
            | (ProviderPriority::Retained, ProviderPriority::Embedded) => true,
            _ => false,
        }
    }
}

/// Preparation phase of one provider artifact.
#[derive(Clone, Copy, Debug, PartialEq, Eq, Structural)]
pub enum ProviderPreparationPhase {
    Queued,
    Preparing,
    Retrying,
    Ready,
    Failed,
}

impl ProviderPreparationPhase {
    /// Whether nothing more happens to the artifact by itself.
    pub open spec fn terminal(self) -> bool {
        self == ProviderPreparationPhase::Ready || self == ProviderPreparationPhase::Failed
    }

    /// Whether nothing more happens to the artifact by itself.
    pub fn is_terminal(self) -> (terminal: bool)
        ensures
            terminal == self.terminal(),
    {
        match self {
            ProviderPreparationPhase::Ready | ProviderPreparationPhase::Failed => true,
            _ => false,
        }
    }
}

/// Exact bytes and display identity of one provider artifact.
#[derive(Debug, PartialEq, Eq)]
pub struct ProviderPreparationJob {
    pub provider_id: ProviderId,
    pub catalog_name: String,
    pub resource_names: Vec<ResourceName>,
    pub bytes: Arc<Vec<u8>>,
}

/// [`ProviderPreparationJob`] by what it stands for.
pub struct JobView {
    pub provider_id: ProviderId,
    pub catalog_name: Seq<char>,
    pub resource_names: Seq<Seq<char>>,
    pub bytes: Seq<u8>,
}

impl View for ProviderPreparationJob {
    type V = JobView;

    open spec fn view(&self) -> JobView {
        JobView {
            provider_id: self.provider_id,
            catalog_name: self.catalog_name@,
            resource_names: crate::list::views(self.resource_names@),
            bytes: self.bytes@,
        }
    }
}

/// Why the preparer refused a request or could not serve it.
#[derive(Debug, PartialEq, Eq)]
pub enum ProviderPreparerError {
    DigestMismatch { expected: ProviderId, actual: ProviderId },
    ShuttingDown,
    UnknownProvider(ProviderId),
    PreparationFailed { provider_id: ProviderId, error_code: String, detail: String },
    /// The task that prepares was lost.
    Supervisor(String),
}

/// What an error says. `provider` spells the artifact that it is about, and
/// `actual` the digest that was computed.
pub open spec fn error_text(
    error: ProviderPreparerError,
    provider: Seq<char>,
    actual: Seq<char>,
) -> Seq<char> {
    match error {
        ProviderPreparerError::DigestMismatch { .. } => "provider digest mismatch: expected "@
            + provider + ", computed "@ + actual,
        ProviderPreparerError::ShuttingDown => "provider preparer is shutting down"@,
        ProviderPreparerError::UnknownProvider(_) => "provider "@ + provider
            + " has not been queued"@,
        ProviderPreparerError::PreparationFailed { error_code, detail, .. } => "provider "@
            + provider + " preparation failed ("@ + error_code@ + "): "@ + detail@,
        ProviderPreparerError::Supervisor(cause) => "provider preparer task failed: "@ + cause@,
    }
}

impl ProviderPreparerError {
    /// What the error says. `provider` spells the artifact that it is about, and
    /// `actual` the digest that was computed.
    pub fn message(&self, provider: &str, actual: &str) -> (text: String)
        ensures
            text@ == error_text(*self, provider@, actual@),
    {
        match self {
            ProviderPreparerError::DigestMismatch { .. } => {
                let text = concat3("provider digest mismatch: expected ", provider, ", computed ");
                concat(text.as_str(), actual)
            },
            ProviderPreparerError::ShuttingDown => "provider preparer is shutting down".to_owned(),
            ProviderPreparerError::UnknownProvider(_) => concat3(
                "provider ",
                provider,
                " has not been queued",
            ),
            ProviderPreparerError::PreparationFailed { error_code, detail, .. } => {
                let text = concat3("provider ", provider, " preparation failed (");
                let text = concat3(text.as_str(), error_code.as_str(), "): ");
                concat(text.as_str(), detail.as_str())
            },
            ProviderPreparerError::Supervisor(cause) => concat(
                "provider preparer task failed: ",
                cause.as_str(),
            ),
        }
    }
}

impl ProviderPreparationJob {
    /// Takes an artifact whose bytes have the digest they are filed under.
    /// `actual` is the digest computed from the bytes.
    pub fn new(
        provider_id: ProviderId,
        catalog_name: String,
        resource_names: Vec<ResourceName>,
        bytes: Vec<u8>,
        actual: ProviderId,
    ) -> (job: Result<Self, ProviderPreparerError>)
        ensures
            match job {
                Ok(job) => actual == provider_id && job@ == (JobView {
                    provider_id,
                    catalog_name: catalog_name@,
                    resource_names: crate::progress::tidied(
                        crate::list::views(resource_names@),
                    ),
                    bytes: bytes@,
                }),
                Err(error) => actual != provider_id && error
                    == (ProviderPreparerError::DigestMismatch { expected: provider_id, actual }),
            },
    {
        if actual != provider_id {
            return Err(ProviderPreparerError::DigestMismatch { expected: provider_id, actual });
        }
        Ok(
            ProviderPreparationJob {
                provider_id,
                catalog_name,
                resource_names: tidy(resource_names),
                bytes: Arc::new(bytes),
            },
        )
    }

    /// The number of bytes of the artifact.
    pub fn total_bytes(&self) -> (total: u64)
        ensures
            total == self@.bytes.len(),
    {
        self.bytes.len() as u64
    }
}

/// Complete preparation status of one artifact.
#[derive(Debug, PartialEq, Eq)]
pub struct ProviderPreparationStatus {
    pub provider_id: ProviderId,
    pub catalog_name: String,
    pub resource_names: Vec<ResourceName>,
    pub priority: ProviderPriority,
    pub phase: ProviderPreparationPhase,
    pub queue_position: Option<u32>,
    pub queued_digests: u32,
    pub active_digests: u32,
    pub completed_digests: u32,
    pub completed_bytes: u64,
    pub total_bytes: u64,
    pub retry_count: u32,
    pub error_code: Option<String>,
    pub detail: Option<String>,
}

/// [`ProviderPreparationStatus`] by what it stands for.
pub struct PreparationView {
    pub provider_id: ProviderId,
    pub catalog_name: Seq<char>,
    pub resource_names: Seq<Seq<char>>,
    pub priority: ProviderPriority,
    pub phase: ProviderPreparationPhase,
    pub queue_position: Option<u32>,
    pub queued_digests: u32,
    pub active_digests: u32,
    pub completed_digests: u32,
    pub completed_bytes: int,
    pub total_bytes: int,
    pub retry_count: u32,
    pub error_code: Option<Seq<char>>,
    pub detail: Option<Seq<char>>,
}

impl View for ProviderPreparationStatus {
    type V = PreparationView;

    open spec fn view(&self) -> PreparationView {
        PreparationView {
            provider_id: self.provider_id,
            catalog_name: self.catalog_name@,
            resource_names: crate::list::views(self.resource_names@),
            priority: self.priority,
            phase: self.phase,
            queue_position: self.queue_position,
            queued_digests: self.queued_digests,
            active_digests: self.active_digests,
            completed_digests: self.completed_digests,
            completed_bytes: self.completed_bytes as int,
            total_bytes: self.total_bytes as int,
            retry_count: self.retry_count,
            error_code: crate::text::opt_text(self.error_code),
            detail: crate::text::opt_text(self.detail),
        }
    }
}

impl Clone for ProviderPreparationStatus {
    fn clone(&self) -> (copy: Self)
        ensures
            copy@ == self@,
    {
        ProviderPreparationStatus {
            provider_id: self.provider_id,
            catalog_name: self.catalog_name.clone(),
            resource_names: copy_all(&self.resource_names),
            priority: self.priority,
            phase: self.phase,
            queue_position: self.queue_position,
            queued_digests: self.queued_digests,
            active_digests: self.active_digests,
            completed_digests: self.completed_digests,
            completed_bytes: self.completed_bytes,
            total_bytes: self.total_bytes,
            retry_count: self.retry_count,
            error_code: self.error_code.clone(),
            detail: self.detail.clone(),
        }
    }
}

/// One artifact the preparer knows, and its status as last reported.
#[derive(Debug, PartialEq, Eq)]
pub struct Entry {
    pub job: ProviderPreparationJob,
    pub priority: ProviderPriority,
    pub phase: ProviderPreparationPhase,
    pub sequence: u64,
    pub retry_count: u32,
    pub queue_position: Option<u32>,
    pub error_code: Option<String>,
    pub detail: Option<String>,
    pub status: ProviderPreparationStatus,
}

/// [`Entry`] by what it stands for.
pub struct EntryView {
    pub job: JobView,
    pub priority: ProviderPriority,
    pub phase: ProviderPreparationPhase,
    pub sequence: u64,
    pub retry_count: u32,
    pub queue_position: Option<u32>,
    pub error_code: Option<Seq<char>>,
    pub detail: Option<Seq<char>>,
    pub status: PreparationView,
}

impl View for Entry {
    type V = EntryView;

    open spec fn view(&self) -> EntryView {
        EntryView {
            job: self.job@,
            priority: self.priority,
            phase: self.phase,
            sequence: self.sequence,
            retry_count: self.retry_count,
            queue_position: self.queue_position,
            error_code: crate::text::opt_text(self.error_code),
            detail: crate::text::opt_text(self.detail),
            status: self.status@,
        }
    }
}

/// How many artifacts wait, are being prepared, and are through.
#[derive(Clone, Copy, Debug, PartialEq, Eq, Structural)]
pub struct Counts {
    pub queued: u32,
    pub active: u32,
    pub completed: u32,
}

/// The status of an artifact: its bytes count as completed once it is ready.
pub open spec fn status_from(
    job: JobView,
    priority: ProviderPriority,
    phase: ProviderPreparationPhase,
    queue_position: Option<u32>,
    counts: Counts,
    retry_count: u32,
    error_code: Option<Seq<char>>,
    detail: Option<Seq<char>>,
) -> PreparationView {
    PreparationView {
        provider_id: job.provider_id,
        catalog_name: job.catalog_name,
        resource_names: job.resource_names,
        priority,
        phase,
        queue_position,
        queued_digests: counts.queued,
        active_digests: counts.active,
        completed_digests: counts.completed,
        completed_bytes: if phase == ProviderPreparationPhase::Ready {
            job.bytes.len() as int
        } else {
            0
        },
        total_bytes: job.bytes.len() as int,
        retry_count,
        error_code,
        detail,
    }
}

/// The status of an artifact the preparer knows.
pub open spec fn status_of(entry: EntryView, counts: Counts) -> PreparationView {
    status_from(
        entry.job,
        entry.priority,
        entry.phase,
        entry.queue_position,
        counts,
        entry.retry_count,
        entry.error_code,
        entry.detail,
    )
}

/// The status of an artifact.
pub fn status_for(
    job: &ProviderPreparationJob,
    priority: ProviderPriority,
    phase: ProviderPreparationPhase,
    queue_position: Option<u32>,
    counts: Counts,
    retry_count: u32,
    error_code: Option<String>,
    detail: Option<String>,
) -> (status: ProviderPreparationStatus)
    ensures
        status@ == status_from(
            job@,
            priority,
            phase,
            queue_position,
            counts,
            retry_count,
            crate::text::opt_text(error_code),
            crate::text::opt_text(detail),
        ),
{
    let total_bytes: u64 = job.total_bytes();
    ProviderPreparationStatus {
        provider_id: job.provider_id,
        catalog_name: job.catalog_name.clone(),
        resource_names: copy_all(&job.resource_names),
        priority,
        phase,
        queue_position,
        queued_digests: counts.queued,
        active_digests: counts.active,
        completed_digests: counts.completed,
        completed_bytes: if phase == ProviderPreparationPhase::Ready {
            total_bytes
        } else {
            0
        },
        total_bytes,
        retry_count,
        error_code,
        detail,
    }
}

/// The status of an artifact the preparer knows.
pub fn status_for_entry(entry: &Entry, counts: Counts) -> (status: ProviderPreparationStatus)
    ensures
        status@ == status_of(entry@, counts),
{
    status_for(
        &entry.job,
        entry.priority,
        entry.phase,
        entry.queue_position,
        counts,
        entry.retry_count,
        entry.error_code.clone(),
        entry.detail.clone(),
    )
}

/// The identity of an artifact after another request for it: all names under
/// which it was asked for, and the first catalog name it was given.
pub open spec fn merged(job: JobView, incoming: JobView) -> JobView {
    JobView {
        resource_names: crate::progress::tidied(job.resource_names + incoming.resource_names),
        catalog_name: if job.catalog_name.len() == 0 {
            incoming.catalog_name
        } else {
            job.catalog_name
        },
        ..job
    }
}

/// Adds the identity of another request to an artifact.
pub fn merge_identity(entry: &mut Entry, incoming: &ProviderPreparationJob)
    ensures
        final(entry)@ == (EntryView { job: merged(old(entry)@.job, incoming@), ..old(entry)@ }),
{
    let mut names = copy_all(&entry.job.resource_names);
    let mut more = copy_all(&incoming.resource_names);
    let ghost before = names@;
    let ghost added = more@;
    names.append(&mut more);
    assert(crate::list::views(names@) =~= crate::list::views(before) + crate::list::views(added));
    entry.job.resource_names = tidy(names);
    if entry.job.catalog_name.as_str().is_empty() {
        entry.job.catalog_name = incoming.catalog_name.clone();
    }
}

/// How an artifact stands for someone who waits for it.
#[derive(Debug, PartialEq, Eq)]
pub enum Readiness {
    Ready,
    Pending,
    Failed { error_code: String, detail: String },
}

/// An optional text, or another one where it is missing.
pub open spec fn text_or(text: Option<Seq<char>>, otherwise: Seq<char>) -> Seq<char> {
    match text {
        Some(text) => text,
        None => otherwise,
    }
}

/// How an artifact stands for someone who waits for it.
pub fn readiness(status: &ProviderPreparationStatus) -> (readiness: Readiness)
    ensures
        match readiness {
            Readiness::Ready => status.phase == ProviderPreparationPhase::Ready,
            Readiness::Failed { error_code, detail } => status.phase
                == ProviderPreparationPhase::Failed && error_code@ == text_or(
                status@.error_code,
                "provider_prepare_failed"@,
            ) && detail@ == text_or(status@.detail, "provider preparation failed"@),
            Readiness::Pending => !status.phase.terminal(),
        },
{
    match status.phase {
        ProviderPreparationPhase::Ready => Readiness::Ready,
        ProviderPreparationPhase::Failed => Readiness::Failed {
            error_code: match &status.error_code {
                Some(code) => code.clone(),
                None => "provider_prepare_failed".to_owned(),
            },
            detail: match &status.detail {
                Some(detail) => detail.clone(),
                None => "provider preparation failed".to_owned(),
            },
        },
        ProviderPreparationPhase::Queued
        | ProviderPreparationPhase::Preparing
        | ProviderPreparationPhase::Retrying => Readiness::Pending,
    }
}

} // verus!
