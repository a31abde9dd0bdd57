//! What watchers are told of a filesystem while it is reconciled.
use crate::filesystem_supervisor::pass::{Notice, Work};
use crate::filesystem_supervisor::{DesiredFilesystem, FilesystemFailure};
use crate::fs_runtime::events::RuntimeEvent;
use crate::name::{
    ActionId, FilesystemRuntime, KeyView, ResourceKey, ResourceKind, ResourceRevision,
};
use crate::progress::{HubView, KindView, ProgressEventKind, ProgressHub, ProgressTarget};
use crate::records::{
    ActionReceipt, FilesystemProgress, FilesystemProgressStage, FilesystemView,
};
use vstd::prelude::*;

verus! {

/// How many filesystems wait for a launch slot, and how many hold one.
#[derive(Clone, Copy, Debug, PartialEq, Eq, Structural)]
pub struct Load {
    pub queued: u32,
    pub active: u32,
}

/// The hub after filesystem progress was recorded for its revision, and for
/// the action that asked for it.
pub open spec fn progressed(hub: HubView, action: Option<ActionId>, progress: FilesystemView) -> HubView {
    let revision = crate::progress::hub::filesystem_recorded(
        hub,
        ProgressTarget::DesiredRevision(progress.desired_revision),
        progress,
    );
    match action {
        Some(action) => crate::progress::hub::filesystem_recorded(
            revision,
            ProgressTarget::Action(action),
            progress,
        ),
        None => revision,
    }
}

/// Records filesystem progress for its revision and its action.
pub fn record_filesystem_progress(
    hub: &mut ProgressHub,
    action: Option<ActionId>,
    progress: FilesystemProgress,
)
    requires
        old(hub).sequence + 2 <= u64::MAX,
    ensures
        final(hub)@ == progressed(old(hub)@, action, progress@),
{
    let target = ProgressTarget::DesiredRevision(progress.desired_revision);
    match action {
        Some(action) => {
            hub.record_filesystem(target, progress.clone());
            hub.record_filesystem(ProgressTarget::Action(action), progress);
        },
        None => {
            hub.record_filesystem(target, progress);
        },
    }
}

/// The action that a filesystem is worked on for.
pub open spec fn action_of(action: Option<ActionReceipt>) -> Option<ActionId> {
    match action {
        Some(receipt) => Some(receipt.action_id),
        None => None,
    }
}

fn action_id(action: &Option<ActionReceipt>) -> (id: Option<ActionId>)
    ensures
        id == action_of(*action),
{
    match action {
        Some(receipt) => Some(receipt.action_id),
        None => None,
    }
}

/// The failure's code, where there is a failure.
pub open spec fn code_of(failure: Option<FilesystemFailure>) -> Option<Seq<char>> {
    match failure {
        Some(failure) => Some(failure.code_text()),
        None => None,
    }
}

/// The failure's detail, where there is a failure.
pub open spec fn detail_of(failure: Option<FilesystemFailure>) -> Option<Seq<char>> {
    match failure {
        Some(failure) => Some(failure.detail_text()),
        None => None,
    }
}

/// The progress of a desired filesystem at a stage.
pub open spec fn phase_progress(
    desired: DesiredFilesystem,
    stage: FilesystemProgressStage,
    retry_count: u32,
    failure: Option<FilesystemFailure>,
    next_retry_unix_ms: Option<u64>,
    load: Load,
) -> FilesystemView {
    FilesystemView {
        key: KeyView { kind: ResourceKind::Filesystem, name: desired.name@ },
        desired_revision: desired.revision,
        runtime: desired.spec.runtime,
        stage,
        completed_bytes: 0,
        total_bytes: None,
        queued_filesystems: load.queued,
        active_filesystems: load.active,
        error_code: code_of(failure),
        detail: detail_of(failure),
        retry_count,
        next_retry_unix_ms,
    }
}

fn failure_code(failure: Option<FilesystemFailure>) -> (code: Option<String>)
    ensures
        crate::text::opt_text(code) == code_of(failure),
{
    match failure {
        Some(failure) => Some(failure.code().to_owned()),
        None => None,
    }
}

fn failure_detail(failure: Option<FilesystemFailure>) -> (detail: Option<String>)
    ensures
        crate::text::opt_text(detail) == detail_of(failure),
{
    match failure {
        Some(failure) => Some(failure.detail().to_owned()),
        None => None,
    }
}

/// Publishes the stage of a desired filesystem.
pub fn publish_phase(
    hub: &mut ProgressHub,
    desired: &DesiredFilesystem,
    action: &Option<ActionReceipt>,
    stage: FilesystemProgressStage,
    retry_count: u32,
    failure: Option<FilesystemFailure>,
    next_retry_unix_ms: Option<u64>,
    load: Load,
)
    requires
        old(hub).sequence + 2 <= u64::MAX,
    ensures
        final(hub)@ == progressed(
            old(hub)@,
            action_of(*action),
            phase_progress(*desired, stage, retry_count, failure, next_retry_unix_ms, load),
        ),
{
    let progress = FilesystemProgress {
        key: ResourceKey::new(ResourceKind::Filesystem, desired.name.clone()),
        desired_revision: desired.revision,
        runtime: desired.spec.runtime,
        stage,
        completed_bytes: 0,
        total_bytes: None,
        queued_filesystems: load.queued,
        active_filesystems: load.active,
        error_code: failure_code(failure),
        detail: failure_detail(failure),
        retry_count,
        next_retry_unix_ms,
    };
    record_filesystem_progress(hub, action_id(action), progress);
}

/// A recorded retry time in milliseconds, where it can be told in them.
pub open spec fn retry_millis(retry_at: Option<i64>) -> Option<u64> {
    match retry_at {
        Some(seconds) => if seconds >= 0 && seconds * 1000 <= u64::MAX {
            Some((seconds * 1000) as u64)
        } else {
            None
        },
        None => None,
    }
}

/// The runtime that a removed filesystem is shown under.
pub open spec fn shown_runtime(work: Work) -> FilesystemRuntime {
    match work.instance.observed_spec {
        Some(spec) => spec.runtime,
        None => match work.instance.desired_spec {
            Some(spec) => spec.runtime,
            None => FilesystemRuntime::Host,
        },
    }
}

/// The progress of a removed filesystem, with the error that was last recorded.
pub open spec fn deletion_progress(revision: ResourceRevision, work: Work, load: Load) -> FilesystemView {
    FilesystemView {
        key: KeyView { kind: ResourceKind::Filesystem, name: work.name@ },
        desired_revision: revision,
        runtime: shown_runtime(work),
        stage: FilesystemProgressStage::Deleting,
        completed_bytes: 0,
        total_bytes: None,
        queued_filesystems: load.queued,
        active_filesystems: load.active,
        error_code: crate::text::opt_text(work.instance.last_error_code),
        detail: crate::text::opt_text(work.instance.last_error_detail),
        retry_count: work.retry_count,
        next_retry_unix_ms: retry_millis(work.instance.retry_at),
    }
}

/// Publishes the removal of a filesystem.
pub fn publish_deletion(hub: &mut ProgressHub, revision: ResourceRevision, work: &Work, load: Load)
    requires
        old(hub).sequence + 2 <= u64::MAX,
    ensures
        final(hub)@ == progressed(old(hub)@, None, deletion_progress(revision, *work, load)),
{
    let runtime = match &work.instance.observed_spec {
        Some(spec) => spec.runtime,
        None => match &work.instance.desired_spec {
            Some(spec) => spec.runtime,
            None => FilesystemRuntime::Host,
        },
    };
    let next_retry_unix_ms: Option<u64> = match work.instance.retry_at {
        Some(seconds) => if seconds >= 0 && seconds <= 18_446_744_073_709_551 {
            Some((seconds as u64) * 1000)
        } else {
            None
        },
        None => None,
    };
    let progress = FilesystemProgress {
        key: ResourceKey::new(ResourceKind::Filesystem, work.name.clone()),
        desired_revision: revision,
        runtime,
        stage: FilesystemProgressStage::Deleting,
        completed_bytes: 0,
        total_bytes: None,
        queued_filesystems: load.queued,
        active_filesystems: load.active,
        error_code: work.instance.last_error_code.clone(),
        detail: work.instance.last_error_detail.clone(),
        retry_count: work.retry_count,
        next_retry_unix_ms,
    };
    record_filesystem_progress(hub, None, progress);
}

/// The progress of a desired filesystem that a runtime fact shows.
pub open spec fn event_progress(desired: DesiredFilesystem, event: RuntimeEvent, load: Load) -> Option<
    FilesystemView,
> {
    let (stage, completed_bytes, total_bytes) = event.contribution();
    match stage {
        Some(stage) => Some(
            FilesystemView {
                completed_bytes,
                total_bytes,
                ..phase_progress(desired, stage, 0, None, None, load)
            },
        ),
        None => None,
    }
}

/// Publishes what a runtime fact shows, if it shows any progress.
pub fn forward_runtime_event(
    hub: &mut ProgressHub,
    desired: &DesiredFilesystem,
    action: &Option<ActionReceipt>,
    event: &RuntimeEvent,
    load: Load,
)
    requires
        old(hub).sequence + 2 <= u64::MAX,
    ensures
        final(hub)@ == (match event_progress(*desired, *event, load) {
            Some(progress) => progressed(old(hub)@, action_of(*action), progress),
            None => old(hub)@,
        }),
{
    let (stage, completed_bytes, total_bytes) = event.progress_stage();
    if let Some(stage) = stage {
        let progress = FilesystemProgress {
            key: ResourceKey::new(ResourceKind::Filesystem, desired.name.clone()),
            desired_revision: desired.revision,
            runtime: desired.spec.runtime,
            stage,
            completed_bytes,
            total_bytes,
            queued_filesystems: load.queued,
            active_filesystems: load.active,
            error_code: None,
            detail: None,
            retry_count: 0,
            next_retry_unix_ms: None,
        };
        record_filesystem_progress(hub, action_id(action), progress);
    }
}

/// The hub after a notice of a pass; marks of resource phases are not its own.
pub open spec fn noticed(
    hub: HubView,
    revision: ResourceRevision,
    work: Work,
    desired: Option<DesiredFilesystem>,
    notice: Notice,
    load: Load,
) -> HubView {
    match notice {
        Notice::MarkPhase { .. } => hub,
        Notice::PublishPhase { stage, retry_count, failure, next_retry_unix_ms } => match desired {
            Some(desired) => progressed(
                hub,
                action_of(work.action),
                phase_progress(desired, stage, retry_count, failure, next_retry_unix_ms, load),
            ),
            None => hub,
        },
        Notice::PublishDeletion => progressed(hub, None, deletion_progress(revision, work, load)),
        Notice::ActionCompleted { receipt } => crate::progress::hub::sent(
            hub,
            ProgressTarget::Action(receipt.action_id),
            KindView::ActionCompleted(receipt@),
        ),
        Notice::ActionFailed { receipt, failure } => crate::progress::hub::sent(
            hub,
            ProgressTarget::Action(receipt.action_id),
            KindView::ActionFailed {
                receipt: receipt@,
                error_code: failure.code_text(),
                detail: failure.detail_text(),
            },
        ),
        Notice::RevisionReady { revision } => crate::progress::hub::sent(
            hub,
            ProgressTarget::DesiredRevision(revision),
            KindView::RevisionReady(revision),
        ),
        Notice::RevisionFailed { revision, failure } => crate::progress::hub::sent(
            hub,
            ProgressTarget::DesiredRevision(revision),
            KindView::RevisionFailed {
                revision,
                error_code: failure.code_text(),
                detail: failure.detail_text(),
            },
        ),
    }
}

/// Publishes a notice of a pass to the watchers.
pub fn publish_notice(
    hub: &mut ProgressHub,
    revision: ResourceRevision,
    work: &Work,
    desired: &Option<DesiredFilesystem>,
    notice: &Notice,
    load: Load,
)
    requires
        old(hub).sequence + 2 <= u64::MAX,
    ensures
        final(hub)@ == noticed(old(hub)@, revision, *work, *desired, *notice, load),
{
    match notice {
        Notice::MarkPhase { .. } => {},
        Notice::PublishPhase { stage, retry_count, failure, next_retry_unix_ms } => {
            if let Some(desired) = desired {
                publish_phase(
                    hub,
                    desired,
                    &work.action,
                    *stage,
                    *retry_count,
                    *failure,
                    *next_retry_unix_ms,
                    load,
                );
            }
        },
        Notice::PublishDeletion => {
            publish_deletion(hub, revision, work, load);
        },
        Notice::ActionCompleted { receipt } => {
            hub.publish(
                ProgressTarget::Action(receipt.action_id),
                ProgressEventKind::ActionCompleted(receipt.clone()),
            );
        },
        Notice::ActionFailed { receipt, failure } => {
            hub.publish(
                ProgressTarget::Action(receipt.action_id),
                ProgressEventKind::ActionFailed {
                    receipt: receipt.clone(),
                    error_code: failure.code().to_owned(),
                    detail: failure.detail().to_owned(),
                },
            );
        },
        Notice::RevisionReady { revision } => {
            publish_revision_ready(hub, *revision);
        },
        Notice::RevisionFailed { revision, failure } => {
            hub.publish(
                ProgressTarget::DesiredRevision(*revision),
                ProgressEventKind::RevisionFailed {
                    revision: *revision,
                    error_code: failure.code().to_owned(),
                    detail: failure.detail().to_owned(),
                },
            );
        },
    }
}

/// Announces a complete revision.
pub fn publish_revision_ready(hub: &mut ProgressHub, revision: ResourceRevision)
    requires
        old(hub).sequence < u64::MAX,
    ensures
        final(hub)@ == crate::progress::hub::sent(
            old(hub)@,
            ProgressTarget::DesiredRevision(revision),
            KindView::RevisionReady(revision),
        ),
{
    hub.publish(
        ProgressTarget::DesiredRevision(revision),
        ProgressEventKind::RevisionReady(revision),
    );
}

} // verus!
