//! How the launch of a filesystem container goes: which answer of Docker calls for
//! which step.
use crate::fs_runtime::docker::launch::{
    ImageFound, LaunchAsk, LaunchReply, LaunchStage, LaunchStepView, LaunchView,
};
use crate::fs_runtime::docker::DockerContainerIdentity;
use crate::fs_runtime::events::{Artifact, ContainerState, FactView, ImageStateView, RuntimeStage, RuntimeState};
use crate::fs_runtime::image::BuildChannel;
use crate::name::FilesystemRuntime;
use vstd::prelude::*;

verus! {

/// Whether a step asks for something and waits for it, and nothing about the launch
/// but its stage changes.
pub open spec fn goes_on(
    launch: LaunchView,
    step: LaunchStepView,
    stage: LaunchStage,
    ask: LaunchAsk,
) -> bool {
    step.ask == ask && step.launch == (LaunchView { stage, ..launch })
}

/// A launch pings Docker first, finds where containers reach the host, and goes on
/// only where the daemon listens there.
pub proof fn a_launch_begins_where_containers_reach_the_host(
    launch: LaunchView,
    expected: u32,
    text: String,
    error: String,
)
    ensures
        goes_on(launch, launch.begun(), LaunchStage::Pinging, LaunchAsk::Ping),
        launch.begun().events =~= seq![
            FactView::Stage {
                stage: RuntimeStage::StartContainer,
                runtime: FilesystemRuntime::Docker,
                filesystem: launch.filesystem,
                state: RuntimeState::Active,
            },
        ],
        launch.stage == LaunchStage::Pinging ==> goes_on(
            launch,
            launch.resumed(LaunchReply::Pinged(Ok(()))),
            LaunchStage::FindingBridge,
            LaunchAsk::FindBridge,
        ) && launch.resumed(LaunchReply::Pinged(Err(error))).ask == LaunchAsk::Failed,
        launch.stage == LaunchStage::FindingBridge ==> ({
            let step = launch.resumed(LaunchReply::Bridge(Ok((expected, text))));
            &&& (launch.attach matches Some(address) && address.ipv4 == Some(expected)) ==> goes_on(
                launch,
                step,
                LaunchStage::InspectingImage,
                LaunchAsk::InspectImage,
            )
            &&& !(launch.attach matches Some(address) && address.ipv4 == Some(expected)) ==> step.ask
                == LaunchAsk::Failed
            &&& launch.resumed(LaunchReply::Bridge(Err(error))).ask == LaunchAsk::Failed
        }),
{
}

/// An image that Docker has is used as it is; one that it has not is pulled where its
/// reference names a registry, and fails the launch where it does not. A pulled image
/// is used, and a failed pull fails the launch.
pub proof fn a_launch_needs_its_image(
    launch: LaunchView,
    age: Option<String>,
    error: String,
)
    ensures
        launch.stage == LaunchStage::InspectingImage ==> ({
            let present = launch.resumed(LaunchReply::Image(Ok(ImageFound::Present { age })));
            let missing = launch.resumed(LaunchReply::Image(Ok(ImageFound::Missing)));
            &&& goes_on(
                launch,
                present,
                LaunchStage::InspectingExisting,
                LaunchAsk::InspectExisting,
            )
            &&& present.events.len() == 1
            &&& present.events[0] == (FactView::Image {
                artifact: Artifact::FilesystemImage,
                reference: launch.target.image,
                state: ImageStateView::Present {
                    age: if launch.channel == BuildChannel::Dev {
                        crate::text::opt_text(age)
                    } else {
                        None
                    },
                },
            })
            &&& missing.events.len() == 1
            &&& missing.events[0] == (FactView::Image {
                artifact: Artifact::FilesystemImage,
                reference: launch.target.image,
                state: ImageStateView::Missing,
            })
            &&& crate::fs_runtime::image::names_registry(launch.target.image) ==> goes_on(
                launch,
                missing,
                LaunchStage::Pulling,
                LaunchAsk::PullImage,
            )
            &&& !crate::fs_runtime::image::names_registry(launch.target.image) ==> missing.ask
                == LaunchAsk::Failed
            &&& launch.resumed(LaunchReply::Image(Err(error))).ask == LaunchAsk::Failed
        }),
        launch.stage == LaunchStage::Pulling ==> goes_on(
            launch,
            launch.resumed(LaunchReply::Pulled(Ok(()))),
            LaunchStage::InspectingExisting,
            LaunchAsk::InspectExisting,
        ) && launch.resumed(LaunchReply::Pulled(Err(error))).ask == LaunchAsk::Failed,
{
}

/// A container that is left under the stable name is removed before another is
/// created, and one is created only where none is left: either none was found, or
/// the one that was found is removed.
#[verifier::rlimit(40)]
pub proof fn a_container_is_created_only_in_place_of_none(
    launch: LaunchView,
    reply: LaunchReply,
    error: String,
)
    ensures
        launch.resumed(reply).ask == LaunchAsk::Create ==> {
            ||| launch.stage == LaunchStage::InspectingExisting && (reply
                matches LaunchReply::Existing(Ok(found)) && !found)
            ||| launch.stage == LaunchStage::RemovingExisting && (reply matches LaunchReply::Removed(
                Ok(_),
            ))
        },
        launch.stage == LaunchStage::InspectingExisting ==> ({
            let found = launch.resumed(LaunchReply::Existing(Ok(true)));
            let absent = launch.resumed(LaunchReply::Existing(Ok(false)));
            &&& goes_on(launch, found, LaunchStage::RemovingExisting, LaunchAsk::RemoveExisting)
            &&& found.events =~= seq![
                FactView::Container {
                    name: launch.target.container_name,
                    image: None,
                    state: ContainerState::RemovingExisting,
                },
            ]
            &&& goes_on(launch, absent, LaunchStage::Creating, LaunchAsk::Create)
            &&& absent.events =~= seq![
                FactView::Container {
                    name: launch.target.container_name,
                    image: None,
                    state: ContainerState::Absent,
                },
                FactView::Container {
                    name: launch.target.container_name,
                    image: Some(launch.target.image),
                    state: ContainerState::Creating,
                },
            ]
            &&& launch.resumed(LaunchReply::Existing(Err(error))).ask == LaunchAsk::Failed
        }),
        launch.stage == LaunchStage::RemovingExisting ==> ({
            let removed = launch.resumed(LaunchReply::Removed(Ok(())));
            &&& goes_on(launch, removed, LaunchStage::Creating, LaunchAsk::Create)
            &&& removed.events =~= seq![
                FactView::Container {
                    name: launch.target.container_name,
                    image: Some(launch.target.image),
                    state: ContainerState::Creating,
                },
            ]
            &&& launch.resumed(LaunchReply::Removed(Err(error))).ask == LaunchAsk::Failed
        }),
{
}

/// A created container is started, audited, confirmed and waited for. One that holds
/// more than it may, or whose identity is not the launched one, is removed again, and
/// one whose mount does not come is stopped again.
#[verifier::rlimit(40)]
pub proof fn a_container_is_used_only_once_it_is_proved(
    launch: LaunchView,
    mounts: usize,
    env: Vec<String>,
    identity: DockerContainerIdentity,
    error: String,
)
    ensures
        launch.stage == LaunchStage::Creating ==> goes_on(
            launch,
            launch.resumed(LaunchReply::Created(Ok(()))),
            LaunchStage::Starting,
            LaunchAsk::Start,
        ) && launch.resumed(LaunchReply::Created(Err(error))).ask == LaunchAsk::Failed,
        launch.stage == LaunchStage::Starting ==> goes_on(
            launch,
            launch.resumed(LaunchReply::Started(Ok(()))),
            LaunchStage::Auditing,
            LaunchAsk::InspectLockdown,
        ) && launch.resumed(LaunchReply::Started(Err(error))).ask == LaunchAsk::Failed,
        launch.stage == LaunchStage::Auditing ==> ({
            let step = launch.resumed(LaunchReply::Lockdown(Ok((mounts, env))));
            let clean = crate::fs_runtime::docker::lockdown::violation(
                mounts as nat,
                crate::text::texts(env@),
            ) is None;
            &&& clean ==> goes_on(launch, step, LaunchStage::Confirming, LaunchAsk::Confirm)
            &&& !clean ==> step.ask == LaunchAsk::RemoveExisting && step.launch.stage
                == LaunchStage::Discarding
            &&& launch.resumed(LaunchReply::Lockdown(Err(error))).ask == LaunchAsk::RemoveExisting
        }),
        launch.stage == LaunchStage::Confirming ==> ({
            let step = launch.resumed(LaunchReply::Confirmed(Ok(Some(identity))));
            &&& step.ask == LaunchAsk::AwaitMount
            &&& step.launch == (LaunchView {
                stage: LaunchStage::AwaitingMount,
                identity: Some(identity@),
                ..launch
            })
            &&& launch.resumed(LaunchReply::Confirmed(Ok(None))).ask == LaunchAsk::RemoveExisting
            &&& launch.resumed(LaunchReply::Confirmed(Err(error))).ask == LaunchAsk::RemoveExisting
        }),
        launch.stage == LaunchStage::AwaitingMount ==> ({
            let step = launch.resumed(LaunchReply::Mount(Ok(true)));
            &&& goes_on(launch, step, LaunchStage::Ended, LaunchAsk::Done)
            &&& step.events =~= seq![
                FactView::MountReady {
                    runtime: FilesystemRuntime::Docker,
                    filesystem: launch.filesystem,
                    location: launch.spec.location,
                    container: Some(launch.target.container_name),
                },
            ]
            &&& launch.resumed(LaunchReply::Mount(Ok(false))).ask == LaunchAsk::StopConfirmed
            &&& launch.resumed(LaunchReply::Mount(Err(error))).ask == LaunchAsk::StopConfirmed
            &&& launch.resumed(LaunchReply::Mount(Err(error))).launch.failure == error@
        }),
        launch.stage == LaunchStage::Discarding ==> ({
            let removed = launch.resumed(LaunchReply::Removed(Ok(())));
            let left = launch.resumed(LaunchReply::Removed(Err(error)));
            &&& removed.ask == LaunchAsk::Failed && removed.launch.failure == launch.failure
            &&& left.ask == LaunchAsk::Failed && left.launch.failure == launch.failure
        }),
        launch.stage == LaunchStage::StoppingConfirmed ==> ({
            let stopped = launch.resumed(LaunchReply::Stopped(Ok(())));
            stopped.ask == LaunchAsk::Failed && stopped.launch.failure == launch.failure
        }),
{
}

/// A reference names a registry exactly where what stands before its first slash
/// looks like a host: it has a dot or a colon, or is `localhost`. A reference without
/// a slash names none.
pub proof fn a_registry_is_named_before_the_first_slash(first: Seq<char>, rest: Seq<char>)
    requires
        !first.contains('/'),
    ensures
        crate::fs_runtime::image::names_registry(first.push('/') + rest) <==> (first.contains('.')
            || first.contains(':') || first == "localhost"@),
        !crate::fs_runtime::image::names_registry(first),
{
    let image = first.push('/') + rest;
    let at = first.len() as int;
    assert(image[at] == '/');
    assert forall|j: int| 0 <= j < at implies #[trigger] image[j] != '/' by {
        assert(image[j] == first[j]);
        assert(first.contains(first[j]));
    }
    crate::text::first_at_is_first(image, '/', at);
    assert(image.take(at) =~= first);
    assert(image.contains('/'));
}

/// A container may have exactly the attach address, `PATH` and `HOME` in its
/// environment.
pub proof fn a_container_may_know_only_where_to_attach(name: Seq<char>, value: Seq<char>)
    requires
        !name.contains('='),
    ensures
        crate::fs_runtime::docker::lockdown::is_allowed(name.push('=') + value) <==> (name
            == "OMNIFS_ATTACH_ADDR"@ || name == "PATH"@ || name == "HOME"@),
        !crate::fs_runtime::docker::lockdown::is_allowed(name),
{
    let var = name.push('=') + value;
    let at = name.len() as int;
    assert(var[at] == '=');
    assert forall|j: int| 0 <= j < at implies #[trigger] var[j] != '=' by {
        assert(var[j] == name[j]);
        assert(name.contains(name[j]));
    }
    crate::text::first_at_is_first(var, '=', at);
    assert(var.take(at) =~= name);
    assert(var.contains('='));
}

/// An image is resolved from the explicit value, else that of the environment, else
/// the configured one, else the default.
pub proof fn an_image_is_resolved_in_order(
    explicit: Seq<char>,
    environment: Option<Seq<char>>,
    from_environment: Seq<char>,
    configured: Option<Seq<char>>,
    from_profile: Seq<char>,
    default: Seq<char>,
)
    ensures
        crate::fs_runtime::image::resolved_reference(
            Some(explicit),
            environment,
            configured,
            default,
        ) == explicit,
        crate::fs_runtime::image::resolved_reference(
            None,
            Some(from_environment),
            configured,
            default,
        ) == from_environment,
        crate::fs_runtime::image::resolved_reference(None, None, Some(from_profile), default)
            == from_profile,
        crate::fs_runtime::image::resolved_reference(None, None, None, default) == default,
{
}

/// Whether a step ends a launch with a reason, and tells nothing else.
pub open spec fn ends_with(step: LaunchStepView, reason: Seq<char>) -> bool {
    step.ask == LaunchAsk::Failed && step.launch.stage == LaunchStage::Ended && step.launch.failure
        == reason && step.events.len() == 0
}

/// A launch that cannot begin tells why: Docker does not answer, the host cannot be
/// found, or the daemon listens elsewhere.
pub proof fn a_launch_that_cannot_begin_tells_why(launch: LaunchView, expected: u32, text: String, error: String)
    ensures
        launch.stage == LaunchStage::Pinging ==> ends_with(
            launch.resumed(LaunchReply::Pinged(Err(error))),
            "Docker daemon did not respond (is Docker running?): "@ + error@,
        ),
        launch.stage == LaunchStage::FindingBridge ==> ends_with(
            launch.resumed(LaunchReply::Bridge(Err(error))),
            error@,
        ),
        launch.stage == LaunchStage::FindingBridge && launch.attach is None ==> ends_with(
            launch.resumed(LaunchReply::Bridge(Ok((expected, text)))),
            "daemon has no TCP filesystem attach listener"@,
        ),
        launch.stage == LaunchStage::FindingBridge && launch.attach is Some && launch.attach->0.ipv4
            != Some(expected) ==> ends_with(
            launch.resumed(LaunchReply::Bridge(Ok((expected, text)))),
            "daemon attach listener is bound to "@ + launch.attach->0.text@
                + ", but the Docker runtime reaches "@ + text@ + "; restart the daemon"@,
        ),
{
}

/// A container that cannot be looked for, removed, created or started fails the launch
/// under its own name.
pub proof fn a_failed_container_is_named(launch: LaunchView, error: String)
    ensures
        launch.stage == LaunchStage::InspectingImage ==> ends_with(
            launch.resumed(LaunchReply::Image(Err(error))),
            "inspect image `"@ + launch.target.image + "`: "@ + error@,
        ),
        launch.stage == LaunchStage::InspectingExisting ==> ends_with(
            launch.resumed(LaunchReply::Existing(Err(error))),
            "inspect container `"@ + launch.target.container_name + "`: "@ + error@,
        ),
        launch.stage == LaunchStage::RemovingExisting ==> ends_with(
            launch.resumed(LaunchReply::Removed(Err(error))),
            "remove container `"@ + launch.target.container_name + "`: "@ + error@,
        ),
        launch.stage == LaunchStage::Creating ==> ends_with(
            launch.resumed(LaunchReply::Created(Err(error))),
            "create filesystem container `"@ + launch.target.container_name + "`: "@ + error@,
        ),
        launch.stage == LaunchStage::Starting ==> ends_with(
            launch.resumed(LaunchReply::Started(Err(error))),
            "start filesystem container `"@ + launch.target.container_name + "`: "@ + error@,
        ),
{
}

/// A container that is given up after it was started keeps the reason until it is gone,
/// and tells of a cleanup that failed too.
pub proof fn a_given_up_container_keeps_its_reason(
    launch: LaunchView,
    mounts: usize,
    env: Vec<String>,
    error: String,
)
    ensures
        launch.stage == LaunchStage::Auditing ==> launch.resumed(
            LaunchReply::Lockdown(Err(error)),
        ).launch.failure == "inspect container `"@ + launch.target.container_name + "`: "@ + error@,
        launch.stage == LaunchStage::Auditing && mounts > 0 ==> "refusing to run the filesystem container: "@.is_prefix_of(
            launch.resumed(LaunchReply::Lockdown(Ok((mounts, env)))).launch.failure,
        ),
        launch.stage == LaunchStage::Confirming ==> launch.resumed(
            LaunchReply::Confirmed(Err(error)),
        ).launch.failure == error@ && launch.resumed(LaunchReply::Confirmed(Ok(None))).launch.failure
            == "the launched filesystem container did not retain its exact identity"@,
        launch.stage == LaunchStage::StoppingConfirmed ==> ends_with(
            launch.resumed(LaunchReply::Stopped(Err(error))),
            "the failed filesystem container"@ + " also could not be cleaned up: "@ + error@ + ": "@
                + launch.failure,
        ),
{
}

/// A created container is told as starting.
pub proof fn a_created_container_is_told_as_starting(launch: LaunchView)
    requires
        launch.stage == LaunchStage::Creating,
    ensures
        launch.resumed(LaunchReply::Created(Ok(()))).events =~= seq![
            FactView::Container {
                name: launch.target.container_name,
                image: Some(launch.target.image),
                state: ContainerState::Starting,
            },
        ],
{
}

} // verus!
