//! Docker-hosted filesystems: container names, images, identity checks and the
//! container body they launch with.
use crate::fs_runtime::identity::{ensure_identity_unchanged, Identity};
use crate::fs_runtime::image::{resolve_image_reference, BuildChannel, ImageRef};
use crate::name::{FilesystemSpec, ResourceName};
use crate::text::{
    alphanumeric, append_texts, chars_of, concat, concat3, decimal, push_text, same_text,
    same_texts,
};
use vstd::prelude::*;
use vstd::string::*;

pub mod container_laws;
pub mod launch;
pub mod launch_laws;
pub mod lockdown;
pub mod pull;

verus! {

/// Where a filesystem is mounted inside a container or guest.
pub const FILESYSTEM_GUEST_LOCATION: &'static str = "/omnifs";

/// The variable that carries the address a filesystem attaches to.
pub const OMNIFS_ATTACH_ADDR_ENV: &'static str = "OMNIFS_ATTACH_ADDR";

/// What every filesystem container's name begins with.
pub const FILESYSTEM_CONTAINER_BASE: &'static str = "omnifs-fs";

/// The image a release binary launches.
pub const FILESYSTEM_RELEASE_IMAGE: &'static str = "ghcr.io/0xff-ai/omnifs-filesystem:0.1.0";

/// The image a dev binary launches.
pub const FILESYSTEM_DEV_IMAGE: &'static str = "omnifs-filesystem:dev";

/// The variable that overrides the filesystem image.
pub const ENV_FILESYSTEM_IMAGE: &'static str = "OMNIFS_FILESYSTEM_IMAGE";

/// The label that records the profile a container belongs to.
pub const FILESYSTEM_HOME_LABEL: &'static str = "ai.0xff.omnifs.home";

/// The label that records the filesystem a container is for.
pub const FILESYSTEM_ID_LABEL: &'static str = "ai.0xff.omnifs.fs";

/// How long a container may take to show its mount, in milliseconds.
pub const MOUNT_READY_TIMEOUT: u64 = 5_000;

/// How often the mount is looked for, in milliseconds.
pub const MOUNT_READY_POLL_INTERVAL: u64 = 200;

/// One container, by its immutable ID and the runtime instance it was launched
/// for.
#[derive(Debug, PartialEq, Eq)]
pub struct DockerContainerIdentity {
    pub id: String,
    pub runtime_instance: String,
}

/// [`DockerContainerIdentity`] by what it spells.
pub struct ContainerIdentityView {
    pub id: Seq<char>,
    pub runtime_instance: Seq<char>,
}

impl View for DockerContainerIdentity {
    type V = ContainerIdentityView;

    open spec fn view(&self) -> ContainerIdentityView {
        ContainerIdentityView { id: self.id@, runtime_instance: self.runtime_instance@ }
    }
}

impl Clone for DockerContainerIdentity {
    fn clone(&self) -> (copy: Self)
        ensures
            copy == *self,
    {
        DockerContainerIdentity {
            id: self.id.clone(),
            runtime_instance: self.runtime_instance.clone(),
        }
    }
}

impl Identity for DockerContainerIdentity {
    open spec fn identical(a: Self::V, b: Self::V) -> bool {
        a == b
    }

    fn is_same(&self, other: &Self) -> (same: bool) {
        same_text(self.id.as_str(), other.id.as_str()) && same_text(
            self.runtime_instance.as_str(),
            other.runtime_instance.as_str(),
        )
    }
}

/// A container that is proved to carry an immutable ID and the label of a
/// filesystem.
#[derive(Debug, PartialEq, Eq)]
pub struct OwnedFilesystemContainer {
    pub identity: DockerContainerIdentity,
    pub filesystem_id: String,
    pub names: Vec<String>,
}

/// Whether Docker has an image.
#[derive(Clone, Copy, Debug, PartialEq, Eq, Structural)]
pub enum ImageInspection {
    Present,
    Missing,
}

/// Whether a character may stand in a container name behind the first.
pub open spec fn is_name_char(c: char) -> bool {
    crate::text::is_alphanumeric(c) || c == '_' || c == '.' || c == '-'
}

/// What is wrong with a container name, if anything is.
pub open spec fn container_name_error(name: Seq<char>) -> Option<Seq<char>> {
    if name.len() == 0 {
        Some("container name must not be empty"@)
    } else if vstd::utf8::encode_utf8(name).len() > 64 {
        Some("container name must be at most 64 characters"@)
    } else if !crate::text::is_alphanumeric(name[0]) {
        Some("container name must start with an ASCII letter or digit"@)
    } else if !(forall|i: int| 0 <= i < name.len() ==> is_name_char(#[trigger] name[i])) {
        Some("container name may only contain ASCII letters, digits, _, ., and -"@)
    } else {
        None
    }
}

/// Checks a container name.
pub fn validate_container_name(name: &str) -> (valid: Result<(), String>)
    ensures
        match valid {
            Ok(_) => container_name_error(name@) is None,
            Err(text) => container_name_error(name@) == Some(text@),
        },
{
    let chars = chars_of(name);
    if chars.len() == 0 {
        return Err("container name must not be empty".to_owned());
    }
    if name.as_bytes().len() > 64 {
        return Err("container name must be at most 64 characters".to_owned());
    }
    if !alphanumeric(chars[0]) {
        return Err("container name must start with an ASCII letter or digit".to_owned());
    }
    let mut i: usize = 1;
    while i < chars.len()
        invariant
            1 <= i <= chars@.len(),
            chars@ == name@,
            vstd::utf8::encode_utf8(name@).len() <= 64,
            crate::text::is_alphanumeric(name@[0]),
            forall|j: int| 0 <= j < i ==> is_name_char(#[trigger] name@[j]),
        decreases chars@.len() - i,
    {
        let c = chars[i];
        if !(alphanumeric(c) || c == '_' || c == '.' || c == '-') {
            assert(!is_name_char(name@[i as int]));
            return Err(
                "container name may only contain ASCII letters, digits, _, ., and -".to_owned(),
            );
        }
        i = i + 1;
    }
    Ok(())
}

/// The name of a container.
#[derive(Debug, PartialEq, Eq)]
pub struct ContainerName {
    pub text: String,
}

impl View for ContainerName {
    type V = Seq<char>;

    open spec fn view(&self) -> Seq<char> {
        self.text@
    }
}

impl Clone for ContainerName {
    fn clone(&self) -> (copy: Self)
        ensures
            copy == *self,
    {
        ContainerName { text: self.text.clone() }
    }
}

impl ContainerName {
    /// Takes a name that Docker accepts.
    pub fn new(name: String) -> (container: Result<Self, String>)
        ensures
            match container {
                Ok(container) => container_name_error(name@) is None && container@ == name@,
                Err(text) => container_name_error(name@) == Some(text@),
            },
    {
        match validate_container_name(name.as_str()) {
            Ok(_) => Ok(ContainerName { text: name }),
            Err(text) => Err(text),
        }
    }

    /// The name as text.
    pub fn as_str(&self) -> (text: &str)
        ensures
            text@ == self@,
    {
        self.text.as_str()
    }
}

/// The container and the image of one filesystem.
#[derive(Debug, PartialEq, Eq)]
pub struct DockerTarget {
    pub container_name: ContainerName,
    pub image: ImageRef,
}

/// [`DockerTarget`] by what it spells.
pub struct TargetView {
    pub container_name: Seq<char>,
    pub image: Seq<char>,
}

impl View for DockerTarget {
    type V = TargetView;

    open spec fn view(&self) -> TargetView {
        TargetView { container_name: self.container_name@, image: self.image@ }
    }
}

impl Clone for DockerTarget {
    fn clone(&self) -> (copy: Self)
        ensures
            copy == *self,
    {
        DockerTarget { container_name: self.container_name.clone(), image: self.image.clone() }
    }
}

/// The container and image that two texts name, or what is wrong with them.
pub open spec fn target_of(container_name: Seq<char>, image: Seq<char>) -> Result<
    TargetView,
    Seq<char>,
> {
    match container_name_error(container_name) {
        Some(text) => Err(text),
        None => if crate::text::is_blank_text(image) {
            Err(crate::fs_runtime::image::empty_reference())
        } else {
            Ok(TargetView { container_name, image })
        },
    }
}

/// A result whose error is text, by what both stand for.
pub open spec fn shown<T: View>(result: Result<T, String>) -> Result<T::V, Seq<char>> {
    match result {
        Ok(value) => Ok(value@),
        Err(text) => Err(text@),
    }
}

/// The name of a filesystem's container: that of a profile other than the
/// default one carries a digest of the profile's root.
pub open spec fn container_name_text(
    profile_root: Seq<char>,
    filesystem: Seq<char>,
    is_default_profile: bool,
) -> Seq<char> {
    if is_default_profile {
        FILESYSTEM_CONTAINER_BASE@ + "-"@ + filesystem
    } else {
        FILESYSTEM_CONTAINER_BASE@ + "-"@ + crate::digest::short_digest_text(profile_root, 4)
            + "-"@ + filesystem
    }
}

/// What stands before the filesystem in the name of its container, and what is
/// left when that is cut off.
proof fn container_names_are_cut(home: Seq<char>, filesystem: Seq<char>)
    ensures
        ({
            let digits = crate::digest::short_digest_text(home, 4);
            let head = FILESYSTEM_CONTAINER_BASE@ + "-"@;
            let name = container_name_text(home, filesystem, false);
            &&& name.len() == head.len() + digits.len() + 1 + filesystem.len()
            &&& name.subrange(head.len() as int, (head.len() + digits.len()) as int) == digits
            &&& name.skip((head.len() + digits.len() + 1) as int) == filesystem
            &&& name.take(head.len() as int) == head
        }),
{
    reveal_strlit("-");
    let digits = crate::digest::short_digest_text(home, 4);
    let head = FILESYSTEM_CONTAINER_BASE@ + "-"@;
    let name = container_name_text(home, filesystem, false);
    assert(name =~= head + digits + "-"@ + filesystem);
    assert(name.subrange(head.len() as int, (head.len() + digits.len()) as int) =~= digits);
    assert(name.skip((head.len() + digits.len() + 1) as int) =~= filesystem);
    assert(name.take(head.len() as int) =~= head);
}

/// The containers of one filesystem in two homes other than the default one are
/// called the same exactly where the digests of the homes are, and neither is
/// called as in the default home.
pub proof fn containers_tell_homes_apart(home: Seq<char>, other: Seq<char>, filesystem: Seq<char>)
    ensures
        container_name_text(home, filesystem, false) == container_name_text(other, filesystem, false)
            <==> crate::digest::short_digest_text(home, 4) == crate::digest::short_digest_text(
            other,
            4,
        ),
        container_name_text(home, filesystem, false) != container_name_text(other, filesystem, true),
{
    container_names_are_cut(home, filesystem);
    container_names_are_cut(other, filesystem);
}

/// The containers of different filesystems of one home are called differently.
pub proof fn containers_tell_filesystems_apart(
    home: Seq<char>,
    filesystem: Seq<char>,
    other: Seq<char>,
    is_default_profile: bool,
)
    requires
        filesystem != other,
    ensures
        container_name_text(home, filesystem, is_default_profile) != container_name_text(
            home,
            other,
            is_default_profile,
        ),
{
    container_names_are_cut(home, filesystem);
    container_names_are_cut(home, other);
    let head = FILESYSTEM_CONTAINER_BASE@ + "-"@;
    assert((head + filesystem).skip(head.len() as int) =~= filesystem);
    assert((head + other).skip(head.len() as int) =~= other);
}

impl DockerTarget {
    /// Takes a container name and an image that are valid.
    pub fn new(container_name: String, image: String) -> (target: Result<Self, String>)
        ensures
            shown(target) == target_of(container_name@, image@),
    {
        let container_name = match ContainerName::new(container_name) {
            Ok(container_name) => container_name,
            Err(text) => {
                return Err(text);
            },
        };
        match ImageRef::new(image) {
            Ok(image) => Ok(DockerTarget { container_name, image }),
            Err(text) => Err(text),
        }
    }

    /// The container.
    pub fn container_name(&self) -> (name: &ContainerName)
        ensures
            name@ == self@.container_name,
    {
        &self.container_name
    }

    /// The image.
    pub fn image(&self) -> (image: &ImageRef)
        ensures
            image@ == self@.image,
    {
        &self.image
    }

    /// The stable container name of a filesystem. In a home other than the
    /// default one it holds eight hexadecimal digits of the home.
    pub fn filesystem_container_name(
        profile_root: &str,
        filesystem: &ResourceName,
        is_default_profile: bool,
    ) -> (name: Result<ContainerName, String>)
        ensures
            match name {
                Ok(name) => container_name_error(
                    container_name_text(profile_root@, filesystem@, is_default_profile),
                ) is None && name@ == container_name_text(
                    profile_root@,
                    filesystem@,
                    is_default_profile,
                ),
                Err(text) => container_name_error(
                    container_name_text(profile_root@, filesystem@, is_default_profile),
                ) == Some(text@),
            },
            !is_default_profile ==> crate::digest::short_digest_text(profile_root@, 4).len() == 8
                && crate::digest::is_hex(crate::digest::short_digest_text(profile_root@, 4)),
    {
        container_name_for(profile_root, filesystem, is_default_profile)
    }

    /// The container and image of a filesystem: the image from the environment
    /// if it is set there, else the configured one, else the default of the
    /// channel.
    pub fn for_filesystem(
        profile_root: &str,
        is_default_profile: bool,
        filesystem: &ResourceName,
        environment: Option<String>,
        configured_image: Option<&str>,
        channel: BuildChannel,
    ) -> (target: Result<Self, String>)
        ensures
            ({
                let image = crate::fs_runtime::image::resolved_reference(
                    None,
                    crate::text::opt_text(environment),
                    crate::fs_runtime::image::opt_str(configured_image),
                    default_image_of(channel),
                );
                let name = container_name_text(profile_root@, filesystem@, is_default_profile);
                shown(target) == (if crate::text::is_blank_text(image) {
                    Err(crate::fs_runtime::image::empty_reference())
                } else {
                    target_of(name, image)
                })
            }),
    {
        let image = match resolve_filesystem_image(None, environment, configured_image, channel) {
            Ok(image) => image,
            Err(text) => {
                return Err(text);
            },
        };
        match Self::filesystem_container_name(profile_root, filesystem, is_default_profile) {
            Ok(container_name) => Self::new(container_name.text, image.text),
            Err(text) => Err(text),
        }
    }
}

fn container_name_for(
    profile_root: &str,
    filesystem: &ResourceName,
    is_default_profile: bool,
) -> (name: Result<ContainerName, String>)
    ensures
        match name {
            Ok(name) => container_name_error(
                container_name_text(profile_root@, filesystem@, is_default_profile),
            ) is None && name@ == container_name_text(
                profile_root@,
                filesystem@,
                is_default_profile,
            ),
            Err(text) => container_name_error(
                container_name_text(profile_root@, filesystem@, is_default_profile),
            ) == Some(text@),
        },
        !is_default_profile ==> crate::digest::short_digest_text(profile_root@, 4).len() == 8
            && crate::digest::is_hex(crate::digest::short_digest_text(profile_root@, 4)),
{
    let mut name = concat(FILESYSTEM_CONTAINER_BASE, "-");
    if !is_default_profile {
        name.append(crate::digest::short_digest(profile_root, 4).as_str());
        name.append("-");
    }
    name.append(filesystem.as_str());
    ContainerName::new(name)
}

/// The image of a channel.
pub open spec fn default_image_of(channel: BuildChannel) -> Seq<char> {
    match channel {
        BuildChannel::Release => FILESYSTEM_RELEASE_IMAGE@,
        BuildChannel::Dev => FILESYSTEM_DEV_IMAGE@,
    }
}

/// The image of a channel: a release binary has one in a registry, a dev
/// binary one that is built locally.
pub fn default_filesystem_image_for(channel: BuildChannel) -> (image: &'static str)
    ensures
        image@ == default_image_of(channel),
{
    match channel {
        BuildChannel::Release => FILESYSTEM_RELEASE_IMAGE,
        BuildChannel::Dev => FILESYSTEM_DEV_IMAGE,
    }
}

/// Resolves the filesystem image: an explicit value, else that of the
/// environment, else the configured one, else the default of the channel.
pub fn resolve_filesystem_image(
    image: Option<String>,
    environment: Option<String>,
    configured: Option<&str>,
    channel: BuildChannel,
) -> (reference: Result<ImageRef, String>)
    ensures
        ({
            let resolved = crate::fs_runtime::image::resolved_reference(
                crate::text::opt_text(image),
                crate::text::opt_text(environment),
                crate::fs_runtime::image::opt_str(configured),
                default_image_of(channel),
            );
            match reference {
                Ok(reference) => !crate::text::is_blank_text(resolved) && reference@ == resolved,
                Err(text) => crate::text::is_blank_text(resolved) && text@
                    == crate::fs_runtime::image::empty_reference(),
            }
        }),
{
    ImageRef::new(
        resolve_image_reference(
            image,
            environment,
            configured,
            default_filesystem_image_for(channel),
        ),
    )
}

/// The command line that a filesystem container runs: the whole specification,
/// spelled out flat.
pub open spec fn command_line(
    filesystem: Seq<char>,
    spec: crate::name::SpecView,
    runtime_instance: Seq<char>,
) -> Seq<Seq<char>> {
    seq![
        "--name"@,
        filesystem,
        "--protocol"@,
        spec.protocol.spelling(),
        "--runtime"@,
        spec.runtime.spelling(),
        "--location"@,
        spec.location,
    ] + (match spec.docker_image {
        Some(image) => seq!["--docker-image"@, image],
        None => seq![],
    }) + (match spec.libkrun_guest_image {
        Some(image) => seq!["--libkrun-guest-image"@, image],
        None => seq![],
    }) + seq!["--runtime-instance"@, runtime_instance]
}

/// The command line that a filesystem container runs.
pub fn filesystem_command(
    filesystem: &ResourceName,
    spec: &FilesystemSpec,
    runtime_instance: &str,
) -> (command: Vec<String>)
    ensures
        crate::text::texts(command@) == command_line(filesystem@, spec@, runtime_instance@),
{
    let mut command: Vec<String> = Vec::new();
    push_text(&mut command, "--name");
    push_text(&mut command, filesystem.as_str());
    push_text(&mut command, "--protocol");
    push_text(&mut command, spec.protocol.as_str());
    push_text(&mut command, "--runtime");
    push_text(&mut command, spec.runtime.as_str());
    push_text(&mut command, "--location");
    push_text(&mut command, spec.location.as_str());
    if let Some(image) = &spec.docker_image {
        push_text(&mut command, "--docker-image");
        push_text(&mut command, image.as_str());
    }
    if let Some(image) = &spec.libkrun_guest_image {
        push_text(&mut command, "--libkrun-guest-image");
        push_text(&mut command, image.as_str());
    }
    push_text(&mut command, "--runtime-instance");
    push_text(&mut command, runtime_instance);
    assert(crate::text::texts(command@) =~= command_line(filesystem@, spec@, runtime_instance@));
    command
}

/// A device that a container may use.
#[derive(Debug, PartialEq, Eq)]
pub struct Device {
    pub path_on_host: String,
    pub path_in_container: String,
    pub cgroup_permissions: String,
}

/// What a filesystem container is created from. It binds nothing of the host.
#[derive(Debug, PartialEq, Eq)]
pub struct ContainerBody {
    pub image: String,
    pub env: Vec<String>,
    pub command: Vec<String>,
    pub home_label: String,
    pub filesystem_label: String,
    pub device: Device,
    pub cap_add: Vec<String>,
    pub security_opt: Vec<String>,
    pub extra_hosts: Option<Vec<String>>,
    pub binds: Vec<String>,
}

/// [`ContainerBody`] by what it spells.
#[verifier::ext_equal]
pub struct BodyView {
    pub image: Seq<char>,
    pub env: Seq<Seq<char>>,
    pub command: Seq<Seq<char>>,
    pub home_label: Seq<char>,
    pub filesystem_label: Seq<char>,
    pub device: (Seq<char>, Seq<char>, Seq<char>),
    pub cap_add: Seq<Seq<char>>,
    pub security_opt: Seq<Seq<char>>,
    pub extra_hosts: Option<Seq<Seq<char>>>,
    pub binds: Seq<Seq<char>>,
}

impl View for ContainerBody {
    type V = BodyView;

    open spec fn view(&self) -> BodyView {
        BodyView {
            image: self.image@,
            env: crate::text::texts(self.env@),
            command: crate::text::texts(self.command@),
            home_label: self.home_label@,
            filesystem_label: self.filesystem_label@,
            device: (
                self.device.path_on_host@,
                self.device.path_in_container@,
                self.device.cgroup_permissions@,
            ),
            cap_add: crate::text::texts(self.cap_add@),
            security_opt: crate::text::texts(self.security_opt@),
            extra_hosts: match self.extra_hosts {
                Some(hosts) => Some(crate::text::texts(hosts@)),
                None => None,
            },
            binds: crate::text::texts(self.binds@),
        }
    }
}

/// The body of a filesystem container: it may use FUSE, knows the address to
/// attach to, and is given nothing else.
pub open spec fn body_of(
    target: TargetView,
    home: Seq<char>,
    filesystem: Seq<char>,
    spec: crate::name::SpecView,
    runtime_instance: Seq<char>,
    attach_port: u16,
    add_host_gateway: bool,
) -> BodyView {
    BodyView {
        image: target.image,
        env: seq![
            OMNIFS_ATTACH_ADDR_ENV@ + "=host.docker.internal:"@ + crate::text::decimal_text(
                attach_port as nat,
            ),
        ],
        command: command_line(filesystem, spec, runtime_instance),
        home_label: home,
        filesystem_label: filesystem,
        device: ("/dev/fuse"@, "/dev/fuse"@, "rwm"@),
        cap_add: seq!["SYS_ADMIN"@],
        security_opt: seq!["apparmor:unconfined"@],
        extra_hosts: if add_host_gateway {
            Some(seq!["host.docker.internal:host-gateway"@])
        } else {
            None
        },
        binds: seq![],
    }
}

fn single(text: &str) -> (list: Vec<String>)
    ensures
        crate::text::texts(list@) == seq![text@],
{
    let mut list: Vec<String> = Vec::new();
    push_text(&mut list, text);
    assert(crate::text::texts(list@) =~= seq![text@]);
    list
}

impl DockerTarget {
    /// Builds the body of a filesystem container.
    pub fn build_filesystem_container_body(
        &self,
        home: &str,
        filesystem: &ResourceName,
        spec: &FilesystemSpec,
        runtime_instance: &str,
        attach_port: u16,
        add_host_gateway: bool,
    ) -> (body: ContainerBody)
        ensures
            body@ == body_of(
                self@,
                home@,
                filesystem@,
                spec@,
                runtime_instance@,
                attach_port,
                add_host_gateway,
            ),
    {
        let port = decimal(attach_port as u64);
        let address = concat3(OMNIFS_ATTACH_ADDR_ENV, "=host.docker.internal:", port.as_str());
        let extra_hosts: Option<Vec<String>> = if add_host_gateway {
            Some(single("host.docker.internal:host-gateway"))
        } else {
            None
        };
        let body = ContainerBody {
            image: self.image.as_str().to_owned(),
            env: single(address.as_str()),
            command: filesystem_command(filesystem, spec, runtime_instance),
            home_label: home.to_owned(),
            filesystem_label: filesystem.as_str().to_owned(),
            device: Device {
                path_on_host: "/dev/fuse".to_owned(),
                path_in_container: "/dev/fuse".to_owned(),
                cgroup_permissions: "rwm".to_owned(),
            },
            cap_add: single("SYS_ADMIN"),
            security_opt: single("apparmor:unconfined"),
            extra_hosts,
            binds: Vec::new(),
        };
        assert(body@.binds =~= Seq::<Seq<char>>::empty());
        body
    }
}

/// What Docker says of a container, as far as its identity depends on it.
#[derive(Debug, PartialEq, Eq)]
pub struct ContainerInspection {
    pub id: Option<String>,
    pub running: Option<bool>,
    pub home_label: Option<String>,
    pub filesystem_label: Option<String>,
    pub command: Option<Vec<String>>,
}

/// An optional list of texts by what they spell.
pub open spec fn opt_texts(list: Option<Vec<String>>) -> Option<Seq<Seq<char>>> {
    match list {
        Some(list) => Some(crate::text::texts(list@)),
        None => None,
    }
}

/// What is wrong with the labels of a container, if anything is.
pub open spec fn label_error(
    inspection: ContainerInspection,
    home: Seq<char>,
    filesystem: Seq<char>,
) -> Option<Seq<char>> {
    match crate::text::opt_text(inspection.home_label) {
        None => Some("filesystem container has no profile ownership label"@),
        Some(label) => if label != home {
            Some(
                "filesystem container profile label `"@ + label + "` does not match `"@ + home
                    + "`"@,
            )
        } else {
            match crate::text::opt_text(inspection.filesystem_label) {
                None => Some("filesystem container has no filesystem identity label"@),
                Some(label) => if label != filesystem {
                    Some(
                        "filesystem container identity label `"@ + label + "` does not match `"@
                            + filesystem + "`"@,
                    )
                } else if inspection.id is None {
                    Some("Docker inspect returned no immutable container ID"@)
                } else {
                    None
                },
            }
        },
    }
}

fn mismatch(intro: &str, label: &str, expected: &str) -> (text: String)
    ensures
        text@ == intro@ + label@ + "` does not match `"@ + expected@ + "`"@,
{
    let mut text = concat3(intro, label, "` does not match `");
    text.append(expected);
    text.append("`");
    text
}

/// Proves that a container of the stable name belongs to the profile and the
/// filesystem, whether it runs or not. Gives its immutable ID.
pub fn confirm_labels(
    inspection: &ContainerInspection,
    home: &str,
    filesystem: &ResourceName,
) -> (confirmed: Result<(String, bool), String>)
    ensures
        match confirmed {
            Ok((id, running)) => label_error(*inspection, home@, filesystem@) is None
                && crate::text::opt_text(inspection.id) == Some(id@) && running == (
            inspection.running == Some(true)),
            Err(text) => label_error(*inspection, home@, filesystem@) == Some(text@),
        },
{
    match &inspection.home_label {
        None => {
            return Err("filesystem container has no profile ownership label".to_owned());
        },
        Some(label) => {
            if !same_text(label.as_str(), home) {
                return Err(
                    mismatch("filesystem container profile label `", label.as_str(), home),
                );
            }
        },
    }
    match &inspection.filesystem_label {
        None => {
            return Err("filesystem container has no filesystem identity label".to_owned());
        },
        Some(label) => {
            if !same_text(label.as_str(), filesystem.as_str()) {
                return Err(
                    mismatch(
                        "filesystem container identity label `",
                        label.as_str(),
                        filesystem.as_str(),
                    ),
                );
            }
        },
    }
    let running = match inspection.running {
        Some(running) => running,
        None => false,
    };
    match &inspection.id {
        Some(id) => Ok((id.clone(), running)),
        None => Err("Docker inspect returned no immutable container ID".to_owned()),
    }
}

/// What is wrong with a container that was looked at again, if anything is:
/// it must be the same one and run exactly the command it was launched with.
pub open spec fn command_error(
    inspection: ContainerInspection,
    id: Seq<char>,
    filesystem: Seq<char>,
    spec: crate::name::SpecView,
    runtime_instance: Seq<char>,
) -> Option<Seq<char>> {
    if crate::text::opt_text(inspection.id) != Some(id) {
        Some("filesystem container changed during exact identity confirmation"@)
    } else if opt_texts(inspection.command) != Some(
        command_line(filesystem, spec, runtime_instance),
    ) {
        Some(
            "filesystem container command does not match configured spec `"@ + filesystem + "`"@,
        )
    } else {
        None
    }
}

/// Proves that a container is the one that was looked at before and runs
/// exactly the command it was launched with.
pub fn confirm_command(
    inspection: &ContainerInspection,
    id: String,
    filesystem: &ResourceName,
    spec: &FilesystemSpec,
    runtime_instance: &str,
) -> (confirmed: Result<DockerContainerIdentity, String>)
    ensures
        match confirmed {
            Ok(identity) => command_error(
                *inspection,
                id@,
                filesystem@,
                spec@,
                runtime_instance@,
            ) is None && identity@ == (ContainerIdentityView {
                id: id@,
                runtime_instance: runtime_instance@,
            }),
            Err(text) => command_error(*inspection, id@, filesystem@, spec@, runtime_instance@)
                == Some(text@),
        },
{
    let unchanged = match &inspection.id {
        Some(current) => same_text(current.as_str(), id.as_str()),
        None => false,
    };
    if !unchanged {
        return Err("filesystem container changed during exact identity confirmation".to_owned());
    }
    let expected = filesystem_command(filesystem, spec, runtime_instance);
    let exact = match &inspection.command {
        Some(command) => same_texts(command, &expected),
        None => false,
    };
    if !exact {
        return Err(
            concat3(
                "filesystem container command does not match configured spec `",
                filesystem.as_str(),
                "`",
            ),
        );
    }
    Ok(
        DockerContainerIdentity { id, runtime_instance: runtime_instance.to_owned() },
    )
}

/// Decides whether a container that is to be stopped is still the one that
/// was proved. None where it is gone already.
pub fn stop_target(
    current: Option<&DockerContainerIdentity>,
    expected: &DockerContainerIdentity,
) -> (target: Result<Option<String>, String>)
    ensures
        match (current, target) {
            (None, Ok(None)) => true,
            (Some(current), Ok(Some(id))) => current@ == expected@ && id@ == expected@.id,
            (Some(current), Err(text)) => current@ != expected@ && text@
                == crate::fs_runtime::identity::changed_text("filesystem container"@),
            _ => false,
        },
{
    match current {
        None => Ok(None),
        Some(_) => match ensure_identity_unchanged(current, expected, "filesystem container") {
            Ok(_) => Ok(Some(expected.id.clone())),
            Err(text) => Err(text),
        },
    }
}

/// One container in a listing of those that carry the profile's label.
#[derive(Debug, PartialEq, Eq)]
pub struct ListedContainer {
    pub id: Option<String>,
    pub filesystem_label: Option<String>,
    pub names: Option<Vec<String>>,
}

/// What a listed container is taken for.
#[derive(Debug, PartialEq, Eq)]
pub enum ListedOutcome {
    Owned(OwnedFilesystemContainer),
    Invalid { target: Option<String>, error: String },
}

/// Takes a listed container for what it is: it needs an immutable ID and the
/// label of a filesystem.
pub fn judge_listed(listed: ListedContainer) -> (outcome: ListedOutcome)
    ensures
        match outcome {
            ListedOutcome::Owned(owned) => crate::text::opt_text(listed.id) == Some(
                owned.identity.id@,
            ) && owned.identity.runtime_instance@ == Seq::<char>::empty()
                && crate::text::opt_text(listed.filesystem_label) == Some(owned.filesystem_id@)
                && crate::text::texts(owned.names@) == (match listed.names {
                Some(names) => crate::text::texts(names@),
                None => Seq::empty(),
            }),
            ListedOutcome::Invalid { target, error } => {
                &&& listed.id is None || listed.filesystem_label is None
                &&& error@ == (if listed.id is None {
                    "Docker did not return an immutable container ID"@
                } else {
                    "Filesystem container has no filesystem identity label"@
                })
                &&& crate::text::opt_text(target) == (if listed.filesystem_label is Some {
                    crate::text::opt_text(listed.filesystem_label)
                } else {
                    crate::text::opt_text(listed.id)
                })
            },
        },
{
    match (listed.id, listed.filesystem_label) {
        (Some(id), Some(filesystem_id)) => {
            let names = match listed.names {
                Some(names) => names,
                None => {
                    let names: Vec<String> = Vec::new();
                    assert(crate::text::texts(names@) =~= Seq::<Seq<char>>::empty());
                    names
                },
            };
            let runtime_instance = String::new();
            assert(runtime_instance@ =~= Seq::<char>::empty());
            ListedOutcome::Owned(
                OwnedFilesystemContainer {
                    identity: DockerContainerIdentity { id, runtime_instance },
                    filesystem_id,
                    names,
                },
            )
        },
        (None, filesystem_label) => ListedOutcome::Invalid {
            target: filesystem_label,
            error: "Docker did not return an immutable container ID".to_owned(),
        },
        (Some(id), None) => ListedOutcome::Invalid {
            target: Some(id),
            error: "Filesystem container has no filesystem identity label".to_owned(),
        },
    }
}

/// The command line that opens a shell in a container, or runs a command
/// there.
pub open spec fn shell_line(
    container: Seq<char>,
    interactive: bool,
    shell_override: Option<Seq<char>>,
    trailing: Seq<Seq<char>>,
) -> Seq<Seq<char>> {
    seq!["docker"@, "exec"@, "-i"@] + (if interactive {
        seq!["-t"@]
    } else {
        seq![]
    }) + seq!["-w"@, FILESYSTEM_GUEST_LOCATION@, container] + (if trailing.len() == 0 {
        seq![
            match shell_override {
                Some(shell) => shell,
                None => "/bin/sh"@,
            },
        ]
    } else {
        trailing
    })
}

/// The command line that opens a shell in a container, or runs a command
/// there.
pub fn shell_command(
    container: &ContainerName,
    interactive: bool,
    shell_override: Option<&str>,
    trailing: &Vec<String>,
) -> (command: Vec<String>)
    ensures
        crate::text::texts(command@) == shell_line(
            container@,
            interactive,
            crate::fs_runtime::image::opt_str(shell_override),
            crate::text::texts(trailing@),
        ),
{
    let mut command: Vec<String> = Vec::new();
    push_text(&mut command, "docker");
    push_text(&mut command, "exec");
    push_text(&mut command, "-i");
    if interactive {
        push_text(&mut command, "-t");
    }
    push_text(&mut command, "-w");
    push_text(&mut command, FILESYSTEM_GUEST_LOCATION);
    push_text(&mut command, container.as_str());
    if trailing.len() == 0 {
        match shell_override {
            Some(shell) => push_text(&mut command, shell),
            None => push_text(&mut command, "/bin/sh"),
        }
    } else {
        append_texts(&mut command, trailing);
    }
    assert(crate::text::texts(command@) =~= shell_line(
        container@,
        interactive,
        crate::fs_runtime::image::opt_str(shell_override),
        crate::text::texts(trailing@),
    ));
    command
}

/// A number with its sign.
pub open spec fn signed_text(value: int) -> Seq<char> {
    if value < 0 {
        "-"@ + crate::text::decimal_text((-value) as nat)
    } else {
        crate::text::decimal_text(value as nat)
    }
}

/// A duration in the largest unit that fills it: seconds, minutes, hours or
/// days.
pub open spec fn duration_text(secs: int) -> Seq<char> {
    if secs < 60 {
        signed_text(secs) + "s"@
    } else if secs < 3600 {
        signed_text(secs / 60) + "m"@
    } else if secs < 86400 {
        signed_text(secs / 3600) + "h"@
    } else {
        signed_text(secs / 86400) + "d"@
    }
}

/// A duration in the largest unit that fills it: seconds, minutes, hours or
/// days.
pub fn duration_words(secs: i64) -> (words: String)
    ensures
        words@ == duration_text(secs as int),
{
    if secs < 0 {
        let magnitude: u64 = if secs == i64::MIN {
            9_223_372_036_854_775_808
        } else {
            (-secs) as u64
        };
        return concat3("-", decimal(magnitude).as_str(), "s");
    }
    let secs: u64 = secs as u64;
    if secs < 60 {
        concat(decimal(secs).as_str(), "s")
    } else if secs < 3600 {
        concat(decimal(secs / 60).as_str(), "m")
    } else if secs < 86400 {
        concat(decimal(secs / 3600).as_str(), "h")
    } else {
        concat(decimal(secs / 86400).as_str(), "d")
    }
}

/// The moment an RFC 3339 timestamp names, in nanoseconds of Unix time.
pub uninterp spec fn rfc3339_nanos(text: Seq<char>) -> Option<i128>;

/// `time::OffsetDateTime::parse` with the RFC 3339 format reads a timestamp,
/// and `unix_timestamp_nanos` gives the moment it names. Both depend on the
/// text alone. Which texts are timestamps is left unsaid.
#[verifier::external_body]
fn parse_rfc3339(text: &str) -> (nanos: Option<i128>)
    ensures
        nanos == rfc3339_nanos(text@),
{
    time::OffsetDateTime::parse(text, &time::format_description::well_known::Rfc3339)
        .ok()
        .map(|moment| moment.unix_timestamp_nanos())
}

/// How long ago something was, in words. None where that is in the future, or
/// longer ago than can be counted.
pub open spec fn age_text(created: int, now: int) -> Option<Seq<char>> {
    let nanos = now - created;
    if nanos < 0 {
        None
    } else if nanos / 1_000_000_000 > i64::MAX {
        None
    } else {
        Some(duration_text(nanos / 1_000_000_000))
    }
}

/// How long ago something was, in words.
pub fn age_words(created: i128, now: i128) -> (words: Option<String>)
    ensures
        crate::text::opt_text(words) == age_text(created as int, now as int),
{
    match now.checked_sub(created) {
        None => None,
        Some(nanos) => {
            if nanos < 0 {
                return None;
            }
            let secs: i128 = nanos / 1_000_000_000;
            if secs > i64::MAX as i128 {
                return None;
            }
            Some(duration_words(secs as i64))
        },
    }
}

/// How long ago an image was created, in words, where its timestamp can be
/// read and is not in the future.
pub fn image_age_words(created: Option<&str>, now: i128) -> (words: Option<String>)
    ensures
        crate::text::opt_text(words) == (match created {
            None => None,
            Some(created) => match rfc3339_nanos(created@) {
                None => None,
                Some(nanos) => age_text(nanos as int, now as int),
            },
        }),
{
    match created {
        None => None,
        Some(created) => match parse_rfc3339(created) {
            None => None,
            Some(nanos) => age_words(nanos, now),
        },
    }
}

} // verus!
