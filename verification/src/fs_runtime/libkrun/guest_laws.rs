//! How a libkrun guest is launched and taken down: which answer calls for which
//! step.
use crate::fs_runtime::events::{FactView, RuntimeStage, RuntimeState};
use crate::fs_runtime::libkrun::launch::{
    GuestAsk, GuestReply, GuestStage, GuestStepView, GuestView,
};
use crate::fs_runtime::libkrun::stop::{
    detached_step, DetachedStep, TeardownAsk, TeardownReply, TeardownStage, TeardownView,
};
use crate::fs_runtime::libkrun::{
    check_uds_path_length, confirm_record, guest_image_source, judge_record, judge_running,
    record_step, GuestImageSource, HelperRecord, RecordStep,
};
use crate::fs_runtime::image::BuildChannel;
use crate::name::{FilesystemRuntime, FilesystemSpec, ResourceName};
use vstd::prelude::*;

verus! {

/// Whether a step asks for something and waits for it, and nothing about the launch
/// but its stage changes.
pub open spec fn goes_on(
    launch: GuestView,
    step: GuestStepView,
    stage: GuestStage,
    ask: GuestAsk,
) -> bool {
    step.ask == ask && step.launch == (GuestView { stage, ..launch })
}

/// Whether a step fails a launch for a reason: it ends at once where nothing was
/// created yet, and is taken down first where something was.
pub open spec fn gives_up(launch: GuestView, step: GuestStepView, reason: Seq<char>) -> bool {
    let early = launch.stage == GuestStage::Probing || launch.stage == GuestStage::ReplacingStale;
    &&& step.launch.failure == reason
    &&& step.ask == (if early {
        GuestAsk::Failed
    } else {
        GuestAsk::TearDown
    })
    &&& step.launch.stage == (if early {
        GuestStage::Ended
    } else {
        GuestStage::RollingBack
    })
    &&& step.launch.child == launch.child
    &&& step.events =~= seq![
        FactView::Stage {
            stage: RuntimeStage::Stop,
            runtime: FilesystemRuntime::Libkrun,
            filesystem: launch.filesystem,
            state: RuntimeState::Stopping,
        },
    ]
}

/// A launch starts a machine only with an image, and only where the daemon listens
/// for it; until then nothing is created and nothing taken down.
pub proof fn a_guest_needs_an_image_and_a_listener(launch: GuestView, error: String)
    requires
        launch.stage == GuestStage::ResolvingImage,
    ensures
        ({
            let found = launch.resumed(GuestReply::Image(Ok(())));
            let missing = launch.resumed(GuestReply::Image(Err(error)));
            &&& launch.attach_socket is Some ==> goes_on(
                launch,
                found,
                GuestStage::Probing,
                GuestAsk::Probe,
            ) && found.events =~= seq![
                FactView::Stage {
                    stage: RuntimeStage::StartVm,
                    runtime: FilesystemRuntime::Libkrun,
                    filesystem: launch.filesystem,
                    state: RuntimeState::Active,
                },
            ]
            &&& launch.attach_socket is None ==> found.ask == GuestAsk::Failed
                && found.launch.stage == GuestStage::Ended && found.launch.failure
                == "daemon has no Unix filesystem attach listener"@ && found.events.len() == 0
            &&& missing.ask == GuestAsk::Failed && missing.launch.stage == GuestStage::Ended
            &&& missing.launch.failure == error@ && missing.events.len() == 0
        }),
{
}

/// What an earlier launch left is taken down once the host is known to run guests, and
/// not before.
pub proof fn an_able_host_is_cleared_first(launch: GuestView, error: String)
    requires
        launch.stage == GuestStage::Probing,
    ensures
        goes_on(
            launch,
            launch.resumed(GuestReply::Probed(Ok(()))),
            GuestStage::ReplacingStale,
            GuestAsk::ReplaceStale,
        ),
        gives_up(launch, launch.resumed(GuestReply::Probed(Err(error))), error@),
{
}

/// Nothing is created while something of an earlier launch is left.
pub proof fn a_guest_is_built_in_place_of_none(launch: GuestView, error: String)
    requires
        launch.stage == GuestStage::ReplacingStale,
    ensures
        goes_on(
            launch,
            launch.resumed(GuestReply::Replaced(Ok(()))),
            GuestStage::PreparingDir,
            GuestAsk::PrepareDir,
        ),
        gives_up(launch, launch.resumed(GuestReply::Replaced(Err(error))), "tear down a prior libkrun instance before relaunch: "@ + error@),
{
}

/// The key follows the disk.
pub proof fn a_guest_gets_its_key_after_its_disk(launch: GuestView, error: String)
    requires
        launch.stage == GuestStage::Materializing,
    ensures
        goes_on(
            launch,
            launch.resumed(GuestReply::Materialized(Ok(()))),
            GuestStage::EnsuringKey,
            GuestAsk::EnsureKey,
        ),
        gives_up(launch, launch.resumed(GuestReply::Materialized(Err(error))), error@),
{
}

/// Readiness is listened for once the seed is written.
pub proof fn a_guest_is_listened_for_after_its_seed(launch: GuestView, error: String)
    requires
        launch.stage == GuestStage::WritingSeed,
    ensures
        goes_on(
            launch,
            launch.resumed(GuestReply::Seeded(Ok(()))),
            GuestStage::BindingReady,
            GuestAsk::BindReady,
        ),
        gives_up(launch, launch.resumed(GuestReply::Seeded(Err(error))), error@),
{
}

/// The helper is started only once its readiness is listened for.
pub proof fn a_helper_is_started_when_it_is_listened_for(launch: GuestView, error: String)
    requires
        launch.stage == GuestStage::BindingReady,
    ensures
        goes_on(
            launch,
            launch.resumed(GuestReply::Bound(Ok(()))),
            GuestStage::Spawning,
            GuestAsk::SpawnHelper,
        ),
        gives_up(launch, launch.resumed(GuestReply::Bound(Err(error))), error@),
{
}

/// A directory or a key that cannot be had ends the launch.
pub proof fn a_guest_needs_its_directory_and_its_key(launch: GuestView, error: String)
    ensures
        launch.stage == GuestStage::PreparingDir ==> gives_up(
            launch,
            launch.resumed(GuestReply::Prepared(Err(error))),
            error@,
        ),
        launch.stage == GuestStage::EnsuringKey ==> gives_up(
            launch,
            launch.resumed(GuestReply::Key(Err(error))),
            error@,
        ),
{
}

/// The root disk is written only where the path of each of the five sockets fits the
/// system; a path that does not ends the launch.
pub proof fn a_guest_is_built_where_its_sockets_fit(launch: GuestView)
    requires
        launch.stage == GuestStage::PreparingDir,
        launch.attach_socket is Some,
    ensures
        ({
            let step = launch.resumed(GuestReply::Prepared(Ok(())));
            let fits = |path: Seq<char>| vstd::utf8::encode_utf8(path).len() < 100;
            let dir = launch.runner.dir@;
            let all = fits(launch.attach_socket->0) && fits(
                crate::text::joined_path(dir, "attach.sock"@),
            ) && fits(crate::text::joined_path(dir, "ready.sock"@)) && fits(
                crate::text::joined_path(dir, "ssh.sock"@),
            ) && fits(crate::text::joined_path(dir, "control.sock"@));
            &&& all ==> goes_on(launch, step, GuestStage::Materializing, GuestAsk::Materialize)
                && step.events =~= seq![
                FactView::Stage {
                    stage: RuntimeStage::MaterializeImage,
                    runtime: FilesystemRuntime::Libkrun,
                    filesystem: launch.filesystem,
                    state: RuntimeState::Active,
                },
            ]
            &&& !all ==> step.ask == GuestAsk::TearDown
        }),
{
    let attach = launch.attach_socket->0;
    let paths = launch.runner.socket_paths(attach);
    reveal_with_fuel(crate::fs_runtime::libkrun::first_uds_error, 6);
    assert(paths.skip(1)[0] == paths[1]);
    assert(paths.skip(1).skip(1)[0] == paths[2]);
    assert(paths.skip(1).skip(1).skip(1)[0] == paths[3]);
    assert(paths.skip(1).skip(1).skip(1).skip(1)[0] == paths[4]);
}

/// The key of the guest goes into its seed, without what surrounds it, and the
/// process that was started is remembered, so that it can be taken down.
pub proof fn a_guest_keeps_its_key_and_its_process(
    launch: GuestView,
    key: String,
    pid: u32,
    error: String,
)
    ensures
        launch.stage == GuestStage::EnsuringKey ==> goes_on(
            GuestView { ssh_pubkey: crate::text::trimmed(key@), ..launch },
            launch.resumed(GuestReply::Key(Ok(key))),
            GuestStage::WritingSeed,
            GuestAsk::WriteSeed,
        ),
        launch.stage == GuestStage::Spawning ==> goes_on(
            GuestView { child: Some(pid), ..launch },
            launch.resumed(GuestReply::Spawned(Ok(pid))),
            GuestStage::WaitingForRecord,
            GuestAsk::WaitForRecord,
        ) && gives_up(launch, launch.resumed(GuestReply::Spawned(Err(error))), error@),
{
}

/// A record is gone on with only where it is that of the process that was started,
/// for this filesystem as it is declared and for this instance.
pub proof fn a_guest_is_gone_on_with_by_its_own_record(
    launch: GuestView,
    record: HelperRecord,
    error: String,
)
    requires
        launch.stage == GuestStage::WaitingForRecord,
    ensures
        ({
            let step = launch.resumed(GuestReply::Record(Ok(record)));
            let own = launch.child == Some(record.pid) && crate::name::same_spec(
                record.spec@,
                launch.spec,
            ) && record.instance_id@ == launch.runtime_instance;
            &&& own ==> goes_on(launch, step, GuestStage::Confirming, GuestAsk::Confirm)
            &&& !own ==> step.ask == GuestAsk::TearDown && step.launch.stage
                == GuestStage::RollingBack
        }),
        gives_up(launch, launch.resumed(GuestReply::Record(Err(error))), error@),
{
}

/// A proved helper is waited for until its mount is ready; one that is not proved is
/// taken down.
pub proof fn a_proved_guest_is_waited_for(launch: GuestView, error: String)
    requires
        launch.stage == GuestStage::Confirming,
    ensures
        ({
            let fact = |stage: RuntimeStage, state: RuntimeState|
                FactView::Stage {
                    stage,
                    runtime: FilesystemRuntime::Libkrun,
                    filesystem: launch.filesystem,
                    state,
                };
            let proved = launch.resumed(GuestReply::Confirmed(Ok(())));
            &&& goes_on(launch, proved, GuestStage::WaitingForReady, GuestAsk::WaitForReady)
            &&& proved.events =~= seq![fact(RuntimeStage::WaitForOsMount, RuntimeState::Active)]
            &&& gives_up(launch, launch.resumed(GuestReply::Confirmed(Err(error))), error@)
        }),
{
}

/// A guest that is ready in time is waited for until its session is there; one that is
/// not is taken down.
pub proof fn a_ready_guest_is_waited_for(launch: GuestView, error: String)
    requires
        launch.stage == GuestStage::WaitingForReady,
    ensures
        ({
            let fact = |stage: RuntimeStage, state: RuntimeState|
                FactView::Stage {
                    stage,
                    runtime: FilesystemRuntime::Libkrun,
                    filesystem: launch.filesystem,
                    state,
                };
            let ready = launch.resumed(GuestReply::Ready(Ok(true)));
            &&& goes_on(launch, ready, GuestStage::WaitingForSession, GuestAsk::WaitForSession)
            &&& ready.events =~= seq![
                fact(RuntimeStage::WaitForOsMount, RuntimeState::Ready),
                fact(RuntimeStage::WaitForVfsSession, RuntimeState::Active),
            ]
            &&& gives_up(
                launch,
                launch.resumed(GuestReply::Ready(Err(error))),
                "read the libkrun readiness beacon: "@ + error@,
            )
            &&& launch.resumed(GuestReply::Ready(Ok(false))).ask == GuestAsk::TearDown
        }),
{
}

/// A guest is told as mounted where it is declared, once its session is there; one
/// whose session does not come is taken down.
pub proof fn a_joined_guest_is_mounted(launch: GuestView, error: String)
    requires
        launch.stage == GuestStage::WaitingForSession,
    ensures
        ({
            let fact = |stage: RuntimeStage, state: RuntimeState|
                FactView::Stage {
                    stage,
                    runtime: FilesystemRuntime::Libkrun,
                    filesystem: launch.filesystem,
                    state,
                };
            let joined = launch.resumed(GuestReply::Session(Ok(())));
            &&& goes_on(launch, joined, GuestStage::Ended, GuestAsk::Done)
            &&& joined.events =~= seq![
                fact(RuntimeStage::WaitForVfsSession, RuntimeState::Ready),
                FactView::MountReady {
                    runtime: FilesystemRuntime::Libkrun,
                    filesystem: launch.filesystem,
                    location: launch.spec.location,
                    container: None,
                },
            ]
            &&& gives_up(launch, launch.resumed(GuestReply::Session(Err(error))), error@)
        }),
{
}

/// Once a launch is taken down it has failed for the reason it was taken down for,
/// and for that of the teardown where this failed too.
pub proof fn a_rolled_back_launch_tells_its_own_failure(launch: GuestView, error: String)
    requires
        launch.stage == GuestStage::RollingBack,
    ensures
        ({
            let clean = launch.resumed(GuestReply::TornDown(Ok(())));
            let left = launch.resumed(GuestReply::TornDown(Err(error)));
            &&& clean.ask == GuestAsk::Failed && left.ask == GuestAsk::Failed
            &&& clean.launch.failure =~= launch.failure
            &&& left.launch.failure == "the failed libkrun launch"@
                + " also could not be cleaned up: "@ + error@ + ": "@ + launch.failure
        }),
{
}

/// A teardown touches only what it was asked to: an expected record that is gone or
/// is another refuses it, and one that cannot be read does too.
pub proof fn a_teardown_touches_only_what_it_knows(
    teardown: TeardownView,
    record: Option<HelperRecord>,
    error: String,
)
    requires
        teardown.stage == TeardownStage::ReadingRecord,
    ensures
        ({
            let (next, ask) = teardown.resumed(TeardownReply::Record(Ok(record)));
            let known = |expected: crate::fs_runtime::libkrun::HelperView, found: HelperRecord|
                expected.pid == found.pid && expected.instance_id == found.instance_id@
                    && expected.filesystem == found.filesystem@ && crate::name::same_spec(
                    found.spec@,
                    expected.spec,
                );
            let other = teardown.expected is Some && (record is None || !known(
                teardown.expected->0,
                record->0,
            ));
            &&& other ==> ask == TeardownAsk::Failed
            &&& record is Some && !other ==> ask == TeardownAsk::CheckAlive && next.stage
                == TeardownStage::CheckingAlive && next.record == Some((record->0)@)
            &&& record is None && !other && teardown.child is Some ==> ask == (TeardownAsk::WaitForChild {
                millis: crate::fs_runtime::libkrun::CHILD_EXIT_TIMEOUT,
            }) && next.stage == TeardownStage::WaitingForChild
            &&& record is None && !other && teardown.child is None ==> ask == TeardownAsk::Done
            &&& teardown.resumed(TeardownReply::Record(Err(error))).1 == TeardownAsk::Failed
        }),
{
}

/// What a teardown waits with for a helper to be gone: for a child of its own it waits
/// as for a child.
pub open spec fn waiting_for(child: Option<u32>) -> TeardownAsk {
    if child is Some {
        TeardownAsk::WaitForChild { millis: crate::fs_runtime::libkrun::CHILD_EXIT_TIMEOUT }
    } else {
        TeardownAsk::WaitForDetached
    }
}

/// A helper that lives has to prove its identity; one that is gone is only waited for.
pub proof fn a_living_helper_has_to_prove_itself(teardown: TeardownView, alive: bool)
    requires
        teardown.stage == TeardownStage::CheckingAlive,
    ensures
        teardown.resumed(TeardownReply::Alive(alive)).1 == (if alive {
            TeardownAsk::Confirm
        } else {
            waiting_for(teardown.child)
        }),
{
}

/// Only a helper that proved its identity is asked to shut down.
pub proof fn only_a_proved_helper_is_shut_down(teardown: TeardownView, error: String)
    requires
        teardown.stage == TeardownStage::Confirming,
    ensures
        teardown.resumed(TeardownReply::Confirmed(Ok(()))).1 == TeardownAsk::RequestShutdown,
        teardown.resumed(TeardownReply::Confirmed(Err(error))).1 == TeardownAsk::Failed,
{
}

/// Whether it could be asked or not, a helper is looked at again: one that lives on
/// though it could not be asked ends the teardown, and any other is waited for.
pub proof fn a_helper_is_looked_at_after_it_was_asked(
    teardown: TeardownView,
    alive: bool,
    error: String,
)
    requires
        teardown.stage == TeardownStage::RequestingShutdown,
    ensures
        ({
            let asked = teardown.resumed(TeardownReply::ShutdownRequested(Ok(())));
            let unasked = teardown.resumed(TeardownReply::ShutdownRequested(Err(error)));
            &&& asked.1 == TeardownAsk::CheckAlive && unasked.1 == TeardownAsk::CheckAlive
            &&& asked.0.resumed(TeardownReply::Alive(alive)).1 == waiting_for(teardown.child)
            &&& unasked.0.resumed(TeardownReply::Alive(alive)).1 == (if alive {
                TeardownAsk::Failed
            } else {
                waiting_for(teardown.child)
            })
        }),
{
}

/// A child that does not exit in time is killed, and one that survives even that is
/// left with its record: only one that has exited is gone on from.
pub proof fn a_child_that_stays_is_killed(teardown: TeardownView, error: String)
    ensures
        teardown.stage == TeardownStage::WaitingForChild ==> teardown.resumed(
            TeardownReply::ChildExited(Ok(false)),
        ).1 == TeardownAsk::KillChild && teardown.resumed(
            TeardownReply::ChildExited(Ok(true)),
        ).1 == TeardownAsk::ReadRecord && teardown.resumed(
            TeardownReply::ChildExited(Err(error)),
        ).1 == TeardownAsk::Failed,
        teardown.stage == TeardownStage::Killing ==> teardown.resumed(
            TeardownReply::Killed(Ok(())),
        ).1 == (TeardownAsk::WaitForChild {
            millis: crate::fs_runtime::libkrun::CHILD_KILL_TIMEOUT,
        }) && teardown.resumed(TeardownReply::Killed(Ok(()))).0.stage
            == TeardownStage::WaitingForKilled && teardown.resumed(
            TeardownReply::Killed(Err(error)),
        ).1 == TeardownAsk::Failed,
        teardown.stage == TeardownStage::WaitingForKilled ==> teardown.resumed(
            TeardownReply::ChildExited(Ok(false)),
        ).1 == TeardownAsk::Failed && teardown.resumed(
            TeardownReply::ChildExited(Ok(true)),
        ).1 == TeardownAsk::ReadRecord && teardown.resumed(
            TeardownReply::ChildExited(Err(error)),
        ).1 == TeardownAsk::Failed,
        teardown.stage == TeardownStage::WaitingForDetached ==> teardown.resumed(
            TeardownReply::DetachedExited(Ok(())),
        ).1 == TeardownAsk::ReadRecord && teardown.resumed(
            TeardownReply::DetachedExited(Err(error)),
        ).1 == TeardownAsk::Failed,
{
}

/// What a launch left is removed only once no record is left of the helper.
pub proof fn artifacts_are_removed_only_without_a_record(
    teardown: TeardownView,
    record: HelperRecord,
    reply: TeardownReply,
)
    ensures
        teardown.stage == TeardownStage::ReadingRecordAgain ==> teardown.resumed(
            TeardownReply::Record(Ok(None)),
        ).1 == TeardownAsk::RemoveArtifacts && teardown.resumed(
            TeardownReply::Record(Ok(Some(record))),
        ).1 == TeardownAsk::Failed,
        teardown.resumed(reply).1 == TeardownAsk::RemoveArtifacts ==> reply
            == TeardownReply::Record(Ok(None)) && teardown.stage
            == TeardownStage::ReadingRecordAgain,
        teardown.stage == TeardownStage::Removing ==> teardown.resumed(TeardownReply::Removed).1
            == TeardownAsk::Done,
{
}

/// A helper that is waited for is gone with its record; a record of another refuses
/// to go on, and its own is removed once the process has exited.
pub proof fn a_detached_helper_is_gone_with_its_record(
    current: Option<&HelperRecord>,
    expected: &HelperRecord,
    alive: bool,
    step: Result<DetachedStep, String>,
)
    requires
        call_ensures(detached_step, (current, expected, alive), step),
    ensures
        current is None ==> step == Ok::<DetachedStep, String>(DetachedStep::Gone),
        current is Some && (current->0.pid != expected.pid || current->0.instance_id@
            != expected.instance_id@ || current->0.filesystem@ != expected.filesystem@
            || !crate::name::same_spec(current->0.spec@, expected.spec@)) ==> step is Err,
        current == Some(expected) ==> step == Ok::<DetachedStep, String>(
            if alive {
                DetachedStep::Wait
            } else {
                DetachedStep::RemoveRecord
            },
        ),
{
}

/// The record of a launch is the one of its instance; the launch waits for it as long
/// as the process runs.
pub proof fn a_launch_waits_for_its_own_record(
    record: Option<&HelperRecord>,
    instance: &str,
    exited: bool,
    step: RecordStep,
)
    requires
        call_ensures(record_step, (record, instance, exited), step),
    ensures
        step == RecordStep::Found <==> record is Some && record->0.instance_id@ == instance@,
        step == RecordStep::Wait ==> !exited,
        step == RecordStep::Exited ==> exited,
{
}

/// A helper is proved only by an answer that agrees with its record in every part.
pub proof fn a_helper_is_proved_by_its_record(
    answered: Result<HelperRecord, String>,
    expected: &HelperRecord,
    confirmed: Result<(), String>,
)
    requires
        call_ensures(confirm_record, (answered, expected), confirmed),
    ensures
        confirmed is Ok ==> answered is Ok && answered->Ok_0.pid == expected.pid
            && answered->Ok_0.instance_id@ == expected.instance_id@
            && answered->Ok_0.filesystem@ == expected.filesystem@ && crate::name::same_spec(
            answered->Ok_0.spec@,
            expected.spec@,
        ),
        answered is Ok && answered->Ok_0 == *expected ==> confirmed is Ok,
{
}

/// A guest is absent where neither a record nor anything else of a launch is left,
/// and there only with a record that is about this filesystem as it is declared.
pub proof fn a_guest_is_there_with_its_record(
    record: Option<&HelperRecord>,
    filesystem: &ResourceName,
    spec: &FilesystemSpec,
    has_state: bool,
    dir: &str,
    judged: Result<bool, String>,
)
    requires
        call_ensures(judge_record, (record, filesystem, spec, has_state, dir), judged),
    ensures
        judged == Ok::<bool, String>(false) <==> record is None && !has_state,
        judged == Ok::<bool, String>(true) <==> record is Some && record->0.filesystem@
            == filesystem@ && crate::name::same_spec(record->0.spec@, spec@),
{
}

/// A guest runs only where its process lives and proved its identity; one that
/// proved nothing counts as stopped only once it is known not to live.
pub proof fn a_guest_runs_only_proved(
    alive: bool,
    confirmed: Result<(), String>,
    exited: bool,
    running: Result<bool, String>,
)
    requires
        call_ensures(judge_running, (alive, confirmed, exited), running),
    ensures
        running == Ok::<bool, String>(true) <==> alive && confirmed is Ok,
        running is Err <==> confirmed is Err && alive && !exited,
{
}

/// A dev binary takes its guest image from a path, a release binary from a registry,
/// and in both cases it is the one that was resolved.
pub proof fn a_channel_decides_where_an_image_is_had(
    resolved: String,
    channel: BuildChannel,
    source: Result<GuestImageSource, String>,
)
    requires
        call_ensures(guest_image_source, (resolved, channel), source),
    ensures
        channel == BuildChannel::Dev ==> source is Ok && source->Ok_0 is Local && (
        source->Ok_0->Local_0)@ == resolved@,
        channel == BuildChannel::Release && source is Ok ==> source->Ok_0 is Registry && (
        source->Ok_0->Registry_0)@ == resolved@,
{
}

/// The path of a socket is refused from the limit of the system on.
pub proof fn a_long_socket_path_is_refused(path: &str, checked: Result<(), String>)
    requires
        call_ensures(check_uds_path_length, (path,), checked),
    ensures
        checked is Ok <==> vstd::utf8::encode_utf8(path@).len() < 100,
{
}

/// Whatever a launch leaves behind is known as its own: its record, its disks, its
/// sockets, its logs, a staged seed and each part of a root disk.
pub proof fn what_a_launch_leaves_is_known(name: Seq<char>)
    ensures
        crate::fs_runtime::libkrun::is_operational("helper.json"@),
        crate::fs_runtime::libkrun::is_operational("root.raw"@),
        crate::fs_runtime::libkrun::is_operational("seed.iso"@),
        crate::fs_runtime::libkrun::is_operational("ssh.sock"@),
        crate::fs_runtime::libkrun::is_operational("ready.sock"@),
        crate::fs_runtime::libkrun::is_operational("control.sock"@),
        crate::fs_runtime::libkrun::is_operational("attach.sock"@),
        crate::fs_runtime::libkrun::is_operational("serial.log"@),
        crate::fs_runtime::libkrun::is_operational("helper.log"@),
        crate::fs_runtime::libkrun::is_operational("seed-staging"@),
        "root.raw.part."@.is_prefix_of(name) ==> crate::fs_runtime::libkrun::is_operational(name),
{
    let known = crate::fs_runtime::libkrun::operational_names();
    assert(known[0] == "helper.json"@);
    assert(known[1] == "root.raw"@);
    assert(known[2] == "seed.iso"@);
    assert(known[3] == "ssh.sock"@);
    assert(known[4] == "ready.sock"@);
    assert(known[5] == "control.sock"@);
    assert(known[6] == "attach.sock"@);
    assert(known[7] == "serial.log"@);
    assert(known[8] == "helper.log"@);
    assert(known[9] == "seed-staging"@);
}

} // verus!
