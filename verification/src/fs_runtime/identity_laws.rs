//! What runtimes are told apart by: only the runtime that was launched for a
//! filesystem is taken for it.
use crate::fs_runtime::docker::{
    stop_target, ContainerInspection, DockerContainerIdentity, TargetView,
};
use crate::fs_runtime::driver::{BackendView, ConfirmedRuntime, PathsView, RuntimeDriver};
use crate::fs_runtime::image::BuildChannel;
use crate::name::{FilesystemProtocol, FilesystemRuntime, SpecView};
use vstd::prelude::*;

verus! {

/// The command line of a container tells the filesystem, every part of its
/// specification, and the instance that it was launched for.
pub proof fn a_command_line_tells_what_it_was_launched_for(
    filesystem: Seq<char>,
    spec: SpecView,
    instance: Seq<char>,
    other_filesystem: Seq<char>,
    other_spec: SpecView,
    other_instance: Seq<char>,
)
    requires
        crate::fs_runtime::docker::command_line(filesystem, spec, instance)
            == crate::fs_runtime::docker::command_line(other_filesystem, other_spec, other_instance),
    ensures
        filesystem == other_filesystem,
        instance == other_instance,
        spec.protocol == other_spec.protocol,
        spec.runtime == other_spec.runtime,
        spec.location == other_spec.location,
        spec.docker_image == other_spec.docker_image,
        spec.libkrun_guest_image == other_spec.libkrun_guest_image,
{
    let a = crate::fs_runtime::docker::command_line(filesystem, spec, instance);
    let b = crate::fs_runtime::docker::command_line(other_filesystem, other_spec, other_instance);
    spellings_tell_apart(spec, other_spec);
    reveal_strlit("--docker-image");
    reveal_strlit("--libkrun-guest-image");
    reveal_strlit("--runtime-instance");
    assert("--docker-image"@.len() != "--libkrun-guest-image"@.len());
    assert("--docker-image"@.len() != "--runtime-instance"@.len());
    assert("--libkrun-guest-image"@.len() != "--runtime-instance"@.len());
    assert(a[1] == filesystem && b[1] == other_filesystem);
    assert(a[3] == spec.protocol.spelling() && b[3] == other_spec.protocol.spelling());
    assert(a[5] == spec.runtime.spelling() && b[5] == other_spec.runtime.spelling());
    assert(a[7] == spec.location && b[7] == other_spec.location);
    assert(a[8] == (if spec.docker_image is Some {
        "--docker-image"@
    } else if spec.libkrun_guest_image is Some {
        "--libkrun-guest-image"@
    } else {
        "--runtime-instance"@
    }));
    assert(b[8] == (if other_spec.docker_image is Some {
        "--docker-image"@
    } else if other_spec.libkrun_guest_image is Some {
        "--libkrun-guest-image"@
    } else {
        "--runtime-instance"@
    }));
    assert(a.last() == instance && b.last() == other_instance);
    if spec.docker_image is Some {
        assert(a[9] == spec.docker_image->Some_0 && b[9] == other_spec.docker_image->Some_0);
    }
    let at: int = if spec.docker_image is Some {
        10
    } else {
        8
    };
    assert(a[at] == (if spec.libkrun_guest_image is Some {
        "--libkrun-guest-image"@
    } else {
        "--runtime-instance"@
    }));
    assert(b[at] == (if other_spec.libkrun_guest_image is Some {
        "--libkrun-guest-image"@
    } else {
        "--runtime-instance"@
    }));
    if spec.libkrun_guest_image is Some {
        assert(a[at + 1] == spec.libkrun_guest_image->Some_0 && b[at + 1]
            == other_spec.libkrun_guest_image->Some_0);
    }
}

proof fn spellings_tell_apart(spec: SpecView, other: SpecView)
    ensures
        spec.protocol.spelling() == other.protocol.spelling() ==> spec.protocol == other.protocol,
        spec.runtime.spelling() == other.runtime.spelling() ==> spec.runtime == other.runtime,
{
    reveal_strlit("fuse");
    reveal_strlit("nfs");
    reveal_strlit("host");
    reveal_strlit("docker");
    reveal_strlit("libkrun");
    assert("fuse"@.len() != "nfs"@.len());
    assert("host"@.len() != "docker"@.len());
    assert("host"@.len() != "libkrun"@.len());
    assert("docker"@.len() != "libkrun"@.len());
}

/// A container that reports what it was created with is confirmed as the container
/// of its profile, its filesystem and its instance.
pub proof fn a_created_container_is_confirmed(
    target: TargetView,
    home: Seq<char>,
    filesystem: Seq<char>,
    spec: SpecView,
    instance: Seq<char>,
    attach_port: u16,
    add_host_gateway: bool,
    inspection: ContainerInspection,
    id: Seq<char>,
)
    requires
        ({
            let body = crate::fs_runtime::docker::body_of(
                target,
                home,
                filesystem,
                spec,
                instance,
                attach_port,
                add_host_gateway,
            );
            &&& crate::text::opt_text(inspection.id) == Some(id)
            &&& crate::text::opt_text(inspection.home_label) == Some(body.home_label)
            &&& crate::text::opt_text(inspection.filesystem_label) == Some(body.filesystem_label)
            &&& crate::fs_runtime::docker::opt_texts(inspection.command) == Some(body.command)
        }),
    ensures
        crate::fs_runtime::docker::label_error(inspection, home, filesystem) is None,
        crate::fs_runtime::docker::command_error(inspection, id, filesystem, spec, instance) is None,
        ({
            let body = crate::fs_runtime::docker::body_of(
                target,
                home,
                filesystem,
                spec,
                instance,
                attach_port,
                add_host_gateway,
            );
            &&& body.image == target.image
            &&& body.binds.len() == 0
            &&& body.extra_hosts is Some <==> add_host_gateway
            &&& body.env =~= seq![
                "OMNIFS_ATTACH_ADDR"@ + "=host.docker.internal:"@ + crate::text::decimal_text(
                    attach_port as nat,
                ),
            ]
        }),
{
}

/// A container is taken for that of a filesystem exactly where it carries the labels
/// of the profile and of the filesystem, has an immutable ID, and that ID and the
/// launched command line are still the same when it is looked at again.
pub proof fn only_the_launched_container_is_confirmed(
    inspection: ContainerInspection,
    home: Seq<char>,
    filesystem: Seq<char>,
    spec: SpecView,
    instance: Seq<char>,
    id: Seq<char>,
)
    ensures
        crate::fs_runtime::docker::label_error(inspection, home, filesystem) is None <==> {
            &&& inspection.home_label matches Some(label) && label@ == home
            &&& inspection.filesystem_label matches Some(label) && label@ == filesystem
            &&& inspection.id is Some
        },
        crate::fs_runtime::docker::command_error(inspection, id, filesystem, spec, instance) is None
            <==> {
            &&& inspection.id matches Some(current) && current@ == id
            &&& inspection.command matches Some(command) && crate::text::texts(command@)
                == crate::fs_runtime::docker::command_line(filesystem, spec, instance)
        },
{
}

/// A container is stopped only where it is still the one that was confirmed, by its
/// ID and its instance; one that is gone needs nothing, and another is refused.
pub proof fn only_the_confirmed_container_is_stopped(
    current: Option<DockerContainerIdentity>,
    expected: DockerContainerIdentity,
    target: Result<Option<String>, String>,
)
    requires
        match current {
            Some(held) => call_ensures(stop_target, (Some(&held), &expected), target),
            None => call_ensures(stop_target, (None, &expected), target),
        },
    ensures
        current is None ==> (target matches Ok(id) && id is None),
        current matches Some(held) ==> {
            let same = held.id@ == expected.id@ && held.runtime_instance@
                == expected.runtime_instance@;
            &&& same ==> (target matches Ok(Some(id)) && id@ == expected.id@)
            &&& !same ==> target is Err
        },
{
}

/// A proof is taken for a runtime only where it names the instance that was asked
/// for; Docker's proof holds the instance already.
pub proof fn a_proof_must_name_the_instance(
    driver: RuntimeDriver,
    confirmed: ConfirmedRuntime,
    instance: &str,
    accepted: Result<ConfirmedRuntime, String>,
)
    requires
        call_ensures(RuntimeDriver::accept_confirmed, (&driver, confirmed, instance), accepted),
    ensures
        accepted matches Ok(runtime) ==> runtime == confirmed,
        confirmed matches ConfirmedRuntime::Host(record) ==> (accepted is Ok
            <==> record.instance_id@ == instance@),
        confirmed matches ConfirmedRuntime::Libkrun(record, _) ==> (accepted is Ok
            <==> record.instance_id@ == instance@),
        confirmed is Docker ==> accepted is Ok,
{
}

/// A driver stops only what was proved through its own backend.
pub proof fn a_driver_stops_only_its_own(
    driver: RuntimeDriver,
    confirmed: ConfirmedRuntime,
    checked: Result<(), String>,
)
    requires
        call_ensures(RuntimeDriver::check_stop, (&driver, &confirmed), checked),
    ensures
        checked is Ok <==> (match confirmed {
            ConfirmedRuntime::Host(_) => driver.backend is Host,
            ConfirmedRuntime::Docker(_, _) => driver.backend is Docker,
            ConfirmedRuntime::Libkrun(_, _) => driver.backend is Libkrun,
        }),
{
}

/// A filesystem is driven through the backend that its specification names, where the
/// host supports it; a guest runtime takes only the FUSE protocol, and a Docker target
/// is the container of the filesystem in its profile.
pub proof fn a_filesystem_is_driven_as_it_is_declared(
    paths: PathsView,
    filesystem: Seq<char>,
    spec: SpecView,
    supported: bool,
    environment: Option<Seq<char>>,
    channel: BuildChannel,
)
    ensures
        ({
            let backend = crate::fs_runtime::driver::backend_of(
                paths,
                filesystem,
                spec,
                supported,
                environment,
                channel,
            );
            &&& !supported ==> backend is Err
            &&& supported && spec.runtime == FilesystemRuntime::Host ==> backend == Ok::<
                BackendView,
                Seq<char>,
            >(BackendView::Host)
            &&& supported && spec.runtime != FilesystemRuntime::Host && spec.protocol
                != FilesystemProtocol::Fuse ==> backend is Err
            &&& backend matches Ok(BackendView::Host) ==> spec.runtime == FilesystemRuntime::Host
            &&& backend matches Ok(BackendView::Libkrun) ==> spec.runtime
                == FilesystemRuntime::Libkrun
            &&& backend matches Ok(BackendView::Docker(target)) ==> {
                &&& spec.runtime == FilesystemRuntime::Docker
                &&& target.container_name == crate::fs_runtime::docker::container_name_text(
                    paths.profile_root,
                    filesystem,
                    paths.is_default_profile,
                )
                &&& target.image == (match environment {
                    Some(image) => image,
                    None => match spec.docker_image {
                        Some(image) => image,
                        None => if channel == BuildChannel::Release {
                            "ghcr.io/0xff-ai/omnifs-filesystem:0.1.0"@
                        } else {
                            "omnifs-filesystem:dev"@
                        },
                    },
                })
            }
        }),
{
}

/// The instance that a proof names is that of the record or container it was taken
/// from, and it runs where the proof says so; a host proof includes that it runs.
pub proof fn a_proof_tells_its_instance_and_whether_it_runs(confirmed: ConfirmedRuntime)
    ensures
        match confirmed {
            ConfirmedRuntime::Host(record) => confirmed.instance() == record.instance_id@
                && confirmed.running(),
            ConfirmedRuntime::Docker(identity, running) => confirmed.instance()
                == identity.runtime_instance@ && confirmed.running() == running,
            ConfirmedRuntime::Libkrun(record, running) => confirmed.instance()
                == record.instance_id@ && confirmed.running() == running,
        },
{
}

/// The container of a filesystem is named after it, and in a profile other than the
/// default one after the profile too.
pub proof fn a_container_is_named_after_its_filesystem(home: Seq<char>, filesystem: Seq<char>)
    ensures
        crate::fs_runtime::docker::container_name_text(home, filesystem, true) == "omnifs-fs"@ + "-"@
            + filesystem,
        crate::fs_runtime::docker::container_name_text(home, filesystem, false) == "omnifs-fs"@ + "-"@
            + crate::digest::short_digest_text(home, 4) + "-"@ + filesystem,
{
}

/// A shell is opened in the container of the filesystem, at its mount, with a
/// terminal where it is interactive: the given command, else the given shell, else
/// `/bin/sh`.
pub proof fn a_shell_opens_at_the_mount(
    container: Seq<char>,
    interactive: bool,
    shell: Option<Seq<char>>,
    trailing: Seq<Seq<char>>,
)
    ensures
        ({
            let line = crate::fs_runtime::docker::shell_line(
                container,
                interactive,
                shell,
                trailing,
            );
            let at: int = if interactive {
                4
            } else {
                3
            };
            &&& line.len() == at + 3 + (if trailing.len() == 0 {
                1
            } else {
                trailing.len()
            })
            &&& line[0] == "docker"@ && line[1] == "exec"@ && line[2] == "-i"@
            &&& interactive ==> line[3] == "-t"@
            &&& line[at] == "-w"@ && line[at + 1] == "/omnifs"@ && line[at + 2] == container
            &&& trailing.len() > 0 ==> line.skip(at + 3) =~= trailing
            &&& trailing.len() == 0 && shell is None ==> line[at + 3] == "/bin/sh"@
            &&& trailing.len() == 0 && shell is Some ==> line[at + 3] == shell->Some_0
        }),
{
}

} // verus!
