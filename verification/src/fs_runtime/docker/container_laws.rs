//! What a filesystem container is made of, and how it is named and shown.
use crate::fs_runtime::docker::{validate_container_name, TargetView};
use crate::fs_runtime::image::BuildChannel;
use crate::name::SpecView;
use vstd::prelude::*;

verus! {

/// A container is made of the image of its target and runs the command of its
/// filesystem; it is labelled with whose it is, may use the one device and the one
/// capability that a mount needs, has no directory of the host, and knows nothing but
/// where to attach.
pub proof fn a_container_is_given_what_a_mount_needs(
    target: TargetView,
    home: Seq<char>,
    filesystem: Seq<char>,
    spec: SpecView,
    runtime_instance: Seq<char>,
    attach_port: u16,
    add_host_gateway: bool,
)
    ensures
        ({
            let body = crate::fs_runtime::docker::body_of(
                target,
                home,
                filesystem,
                spec,
                runtime_instance,
                attach_port,
                add_host_gateway,
            );
            &&& body.image == target.image
            &&& body.command == crate::fs_runtime::docker::command_line(
                filesystem,
                spec,
                runtime_instance,
            )
            &&& body.home_label == home && body.filesystem_label == filesystem
            &&& body.env =~= seq![
                "OMNIFS_ATTACH_ADDR"@ + "=host.docker.internal:"@ + crate::text::decimal_text(
                    attach_port as nat,
                ),
            ]
            &&& body.binds.len() == 0
            &&& body.device == ("/dev/fuse"@, "/dev/fuse"@, "rwm"@)
            &&& body.cap_add =~= seq!["SYS_ADMIN"@]
            &&& body.security_opt =~= seq!["apparmor:unconfined"@]
            &&& body.extra_hosts is Some <==> add_host_gateway
            &&& add_host_gateway ==> body.extra_hosts->0 =~= seq![
                "host.docker.internal:host-gateway"@,
            ]
        }),
{
}

/// A container name begins with a letter or a digit, goes on with those and three
/// other characters, and is neither empty nor too long; any such name is taken.
pub proof fn a_container_name_is_plain(name: &str, valid: Result<(), String>)
    requires
        call_ensures(validate_container_name, (name,), valid),
    ensures
        valid is Ok <==> {
            let plain = |c: char|
                '0' <= c <= '9' || 'a' <= c <= 'z' || 'A' <= c <= 'Z';
            &&& name@.len() > 0 && vstd::utf8::encode_utf8(name@).len() <= 64
            &&& plain(name@[0])
            &&& forall|i: int|
                0 <= i < name@.len() ==> plain(#[trigger] name@[i]) || name@[i] == '_' || name@[i]
                    == '.' || name@[i] == '-'
        },
{
}

/// A target is made of a name that can be one and an image that is named.
pub proof fn a_target_has_a_name_and_an_image(container_name: Seq<char>, image: Seq<char>)
    ensures
        ({
            let target = crate::fs_runtime::docker::target_of(container_name, image);
            &&& target is Ok <==> crate::fs_runtime::docker::container_name_error(container_name)
                is None && exists|i: int|
                0 <= i < image.len() && !crate::text::is_white_space(#[trigger] image[i])
            &&& target is Ok ==> target->Ok_0.container_name == container_name
                && target->Ok_0.image == image
        }),
{
}

/// A release binary takes its image from a registry, a dev binary the one that is
/// built locally.
pub proof fn a_channel_has_its_own_image()
    ensures
        crate::fs_runtime::docker::default_image_of(BuildChannel::Release)
            == crate::fs_runtime::docker::FILESYSTEM_RELEASE_IMAGE@,
        crate::fs_runtime::docker::default_image_of(BuildChannel::Dev)
            == crate::fs_runtime::docker::FILESYSTEM_DEV_IMAGE@,
        crate::fs_runtime::libkrun::default_guest_image_of(BuildChannel::Release)
            == crate::fs_runtime::libkrun::GUEST_RELEASE_IMAGE@,
        crate::fs_runtime::libkrun::default_guest_image_of(BuildChannel::Dev)
            == crate::fs_runtime::libkrun::DEFAULT_GUEST_IMAGE@,
{
}

/// An age is told in the largest unit that it fills, rounded down; what lies ahead has
/// none.
pub proof fn an_age_is_told_in_its_largest_unit(created: int, now: int, secs: int, count: nat)
    requires
        secs <= i64::MAX,
        created + 1_000_000_000 * secs <= now < created + 1_000_000_000 * (secs + 1),
    ensures
        ({
            let told = crate::fs_runtime::docker::age_text(created, now);
            let number = crate::text::decimal_text(count);
            &&& secs < 0 ==> told is None
            &&& 0 <= secs < 60 && count == secs ==> told == Some(number + "s"@)
            &&& 60 <= secs < 3600 && 60 * count <= secs < 60 * (count + 1) ==> told == Some(
                number + "m"@,
            )
            &&& 3600 <= secs < 86400 && 3600 * count <= secs < 3600 * (count + 1) ==> told == Some(
                number + "h"@,
            )
            &&& 86400 <= secs && 86400 * count <= secs < 86400 * (count + 1) ==> told == Some(
                number + "d"@,
            )
        }),
{
    assert((now - created) / 1_000_000_000 == secs);
    if 60 * count <= secs < 60 * (count + 1) {
        assert(secs / 60 == count);
    }
    if 3600 * count <= secs < 3600 * (count + 1) {
        assert(secs / 3600 == count);
    }
    if 86400 * count <= secs < 86400 * (count + 1) {
        assert(secs / 86400 == count);
    }
}

/// The process of a host filesystem is told whom it serves, as it is declared, under
/// which instance it runs and under which it is controlled, where its state stands,
/// where to attach and where it is controlled.
pub proof fn a_host_runner_is_told_what_it_serves(
    filesystem: Seq<char>,
    spec: SpecView,
    runtime_instance: Seq<char>,
    state_dir: Seq<char>,
    attach_socket: Seq<char>,
    control_socket: Seq<char>,
)
    ensures
        ({
            let line = crate::fs_runtime::host::runner_arguments(
                filesystem,
                spec,
                runtime_instance,
                state_dir,
                attach_socket,
                control_socket,
            );
            let last = line.len() as int;
            &&& line[0] == "run-fs"@
            &&& line[1] == "--name"@ && line[2] == filesystem
            &&& line[3] == "--protocol"@ && line[4] == spec.protocol.spelling()
            &&& line[5] == "--runtime"@ && line[6] == "host"@
            &&& line[7] == "--location"@ && line[8] == spec.location
            &&& spec.docker_image is Some ==> line[9] == "--docker-image"@ && line[10]
                == spec.docker_image->0
            &&& spec.libkrun_guest_image is Some ==> line[last - 12] == "--libkrun-guest-image"@
                && line[last - 11] == spec.libkrun_guest_image->0
            &&& line[last - 10] == "--runtime-instance"@ && line[last - 9] == runtime_instance
            &&& line[last - 8] == "--state-dir"@ && line[last - 7] == state_dir
            &&& line[last - 6] == "--attach"@ && line[last - 5] == attach_socket
            &&& line[last - 4] == "--runner-instance"@ && line[last - 3] == runtime_instance
            &&& line[last - 2] == "--runner-control"@ && line[last - 1] == control_socket
            &&& last == 19 + (if spec.docker_image is Some {
                2int
            } else {
                0
            }) + (if spec.libkrun_guest_image is Some {
                2int
            } else {
                0
            })
        }),
{
}

} // verus!
