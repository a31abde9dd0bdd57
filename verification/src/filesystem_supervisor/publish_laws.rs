//! What watchers are told of a filesystem.
use crate::filesystem_supervisor::pass::{Notice, Work};
use crate::filesystem_supervisor::publish::Load;
use crate::filesystem_supervisor::{DesiredFilesystem, FilesystemFailure};
use crate::fs_runtime::events::RuntimeEvent;
use crate::name::{ActionId, FilesystemRuntime, ResourceKind, ResourceRevision};
use crate::progress::{HubView, KindView, ProgressTarget};
use crate::records::{
    ActionReceipt, FilesystemProgressStage, FilesystemView, ResourcePhase,
};
use vstd::prelude::*;

verus! {

/// Progress is told for the revision that asks for it, and for the action too where
/// one does: in that order, as it is, and once for each.
pub proof fn progress_is_told_to_all_that_ask(
    hub: HubView,
    action: ActionId,
    progress: FilesystemView,
)
    requires
        hub.sequence + 2 <= u64::MAX,
    ensures
        ({
            let alone = crate::filesystem_supervisor::publish::progressed(hub, None, progress);
            let both = crate::filesystem_supervisor::publish::progressed(
                hub,
                Some(action),
                progress,
            );
            let at = hub.outbox.len() as int;
            &&& alone.outbox.len() == at + 1 && both.outbox.len() == at + 2
            &&& alone.outbox[at].target == ProgressTarget::DesiredRevision(
                progress.desired_revision,
            )
            &&& alone.outbox[at].event == KindView::FilesystemProgress(progress)
            &&& both.outbox[at] == alone.outbox[at]
            &&& both.outbox[at + 1].target == ProgressTarget::Action(action)
            &&& both.outbox[at + 1].event == KindView::FilesystemProgress(progress)
        }),
{
}

/// The progress of a filesystem names it as it is declared, with the failure that it
/// stands for; no bytes are counted for a stage.
pub proof fn a_stage_is_shown_for_its_filesystem(
    desired: DesiredFilesystem,
    stage: FilesystemProgressStage,
    retry_count: u32,
    failure: FilesystemFailure,
    next_retry_unix_ms: Option<u64>,
    load: Load,
)
    ensures
        ({
            let shown = crate::filesystem_supervisor::publish::phase_progress(
                desired,
                stage,
                retry_count,
                Some(failure),
                next_retry_unix_ms,
                load,
            );
            let well = crate::filesystem_supervisor::publish::phase_progress(
                desired,
                stage,
                retry_count,
                None,
                next_retry_unix_ms,
                load,
            );
            &&& shown.key.kind == ResourceKind::Filesystem && shown.key.name == desired.name@
            &&& shown.desired_revision == desired.revision
            &&& shown.runtime == desired.spec.runtime && shown.stage == stage
            &&& shown.error_code == Some(failure.code_text())
            &&& shown.detail == Some(failure.detail_text())
            &&& shown.retry_count == retry_count
            &&& shown.next_retry_unix_ms == next_retry_unix_ms
            &&& shown.completed_bytes == 0 && shown.total_bytes is None
            &&& shown.queued_filesystems == load.queued && shown.active_filesystems == load.active
            &&& well.error_code is None && well.detail is None && well.stage == stage
        }),
{
}

/// The removal of a filesystem is shown under the runtime that it last ran in, or was
/// to run in, with what went wrong last and when it is tried again.
pub proof fn a_removal_is_shown_with_what_went_wrong(
    revision: ResourceRevision,
    work: Work,
    load: Load,
)
    ensures
        ({
            let shown = crate::filesystem_supervisor::publish::deletion_progress(
                revision,
                work,
                load,
            );
            let instance = work.instance;
            &&& shown.key.kind == ResourceKind::Filesystem && shown.key.name == work.name@
            &&& shown.desired_revision == revision
            &&& shown.stage == FilesystemProgressStage::Deleting
            &&& instance.observed_spec is Some ==> shown.runtime
                == instance.observed_spec->0.runtime
            &&& instance.observed_spec is None && instance.desired_spec is Some ==> shown.runtime
                == instance.desired_spec->0.runtime
            &&& instance.observed_spec is None && instance.desired_spec is None ==> shown.runtime
                == FilesystemRuntime::Host
            &&& instance.last_error_code is Some ==> shown.error_code == Some(
                (instance.last_error_code->0)@,
            )
            &&& instance.last_error_code is None ==> shown.error_code is None
            &&& shown.retry_count == work.retry_count
            &&& instance.retry_at is None ==> shown.next_retry_unix_ms is None
            &&& instance.retry_at is Some && 0 <= instance.retry_at->0 * 1000 <= u64::MAX
                ==> shown.next_retry_unix_ms is Some && shown.next_retry_unix_ms->0
                == instance.retry_at->0 * 1000
        }),
{
}

/// A fact that shows progress is told with its bytes, and one that shows none is not.
pub proof fn a_fact_is_told_with_its_bytes(
    desired: DesiredFilesystem,
    event: RuntimeEvent,
    load: Load,
)
    ensures
        ({
            let told = crate::filesystem_supervisor::publish::event_progress(desired, event, load);
            let (stage, completed, total) = event.contribution();
            &&& told is Some <==> stage is Some
            &&& told is Some ==> told->0.stage == stage->0 && told->0.completed_bytes == completed
                && told->0.total_bytes == total && told->0.key.name == desired.name@
                && told->0.desired_revision == desired.revision && told->0.runtime
                == desired.spec.runtime && told->0.error_code is None && told->0.retry_count == 0
        }),
{
}

/// Each end that a pass comes to is told as itself, to those that follow it.
pub proof fn an_end_is_told_to_those_that_follow_it(
    hub: HubView,
    current: ResourceRevision,
    work: Work,
    desired: Option<DesiredFilesystem>,
    load: Load,
    receipt: ActionReceipt,
    revision: ResourceRevision,
    failure: FilesystemFailure,
    phase: ResourcePhase,
    marked: Option<FilesystemFailure>,
)
    requires
        hub.sequence + 2 <= u64::MAX,
    ensures
        ({
            let told = |notice: Notice|
                crate::filesystem_supervisor::publish::noticed(
                    hub,
                    current,
                    work,
                    desired,
                    notice,
                    load,
                );
            let completed = told(Notice::ActionCompleted { receipt });
            let failed = told(Notice::ActionFailed { receipt, failure });
            let ready = told(Notice::RevisionReady { revision });
            let broken = told(Notice::RevisionFailed { revision, failure });
            let at = hub.outbox.len() as int;
            &&& completed.outbox.len() == at + 1 && completed.outbox[at].target
                == ProgressTarget::Action(receipt.action_id) && completed.outbox[at].event
                == KindView::ActionCompleted(receipt@)
            &&& failed.outbox.len() == at + 1 && failed.outbox[at].target
                == ProgressTarget::Action(receipt.action_id) && failed.outbox[at].event == (
            KindView::ActionFailed {
                receipt: receipt@,
                error_code: failure.code_text(),
                detail: failure.detail_text(),
            })
            &&& ready.outbox.len() == at + 1 && ready.outbox[at].target
                == ProgressTarget::DesiredRevision(revision) && ready.outbox[at].event
                == KindView::RevisionReady(revision)
            &&& broken.outbox.len() == at + 1 && broken.outbox[at].target
                == ProgressTarget::DesiredRevision(revision) && broken.outbox[at].event == (
            KindView::RevisionFailed {
                revision,
                error_code: failure.code_text(),
                detail: failure.detail_text(),
            })
            &&& told(Notice::MarkPhase { revision, phase, failure: marked }) == hub
        }),
{
}

/// A stage is told for the revision of what is declared, and for the restart that the
/// work is for; a removal for the revision that removes.
pub proof fn a_stage_is_told_for_its_revision(
    hub: HubView,
    current: ResourceRevision,
    work: Work,
    desired: DesiredFilesystem,
    load: Load,
    stage: FilesystemProgressStage,
    retry_count: u32,
    failure: Option<FilesystemFailure>,
    next_retry_unix_ms: Option<u64>,
)
    requires
        hub.sequence + 2 <= u64::MAX,
    ensures
        ({
            let shown = crate::filesystem_supervisor::publish::noticed(
                hub,
                current,
                work,
                Some(desired),
                Notice::PublishPhase { stage, retry_count, failure, next_retry_unix_ms },
                load,
            );
            let removed = crate::filesystem_supervisor::publish::noticed(
                hub,
                current,
                work,
                None,
                Notice::PublishDeletion,
                load,
            );
            let at = hub.outbox.len() as int;
            &&& shown.outbox[at].target == ProgressTarget::DesiredRevision(desired.revision)
            &&& shown.outbox[at].event is FilesystemProgress
                && shown.outbox[at].event->FilesystemProgress_0.stage == stage
                && shown.outbox[at].event->FilesystemProgress_0.key.name == desired.name@
            &&& work.action is Some ==> shown.outbox.len() == at + 2 && shown.outbox[at + 1].target
                == ProgressTarget::Action(work.action->0.action_id)
            &&& work.action is None ==> shown.outbox.len() == at + 1
            &&& removed.outbox.len() == at + 1 && removed.outbox[at].target
                == ProgressTarget::DesiredRevision(current)
            &&& removed.outbox[at].event is FilesystemProgress
                && removed.outbox[at].event->FilesystemProgress_0.stage
                == FilesystemProgressStage::Deleting
        }),
{
}

} // verus!
