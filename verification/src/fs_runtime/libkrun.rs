//! Libkrun guests: the helper process, its seed disk, and its guest image.
use crate::fs_runtime::docker::FILESYSTEM_GUEST_LOCATION;
use crate::fs_runtime::driver::Candidate;
use crate::fs_runtime::identity::Identity;
use crate::fs_runtime::image::{resolve_image_reference, BuildChannel, ImageRef};
use crate::fs_runtime::libkrun::shell::{shell_word, shell_words};
use crate::name::{FilesystemSpec, ResourceName, SpecView};
use crate::text::{
    concat, concat3, copy_texts, decimal, join_path, listed, push_text, same_text, starts_with,
    trim,
};
use vstd::prelude::*;
use vstd::string::*;

pub mod guest_laws;
pub mod launch;
pub mod seed;
pub mod shell;
pub mod stop;

verus! {

/// The name of the persistent key of a guest.
pub const SSH_KEY_NAME: &'static str = "id_ed25519";

/// The name of the helper's record.
pub const PID_FILE_NAME: &'static str = "helper.json";

/// The name of the writable root disk of one launch.
pub const ROOT_DISK_NAME: &'static str = "root.raw";

/// What the name of an incomplete root disk begins with.
pub const ROOT_RAW_PART_PREFIX: &'static str = "root.raw.part.";

/// The name of the seed disk.
pub const SEED_DISK_NAME: &'static str = "seed.iso";

/// The name of the directory that a seed is staged in.
pub const SEED_STAGING_NAME: &'static str = "seed-staging";

/// The name of the socket that a shell goes through.
pub const SSH_SOCKET_NAME: &'static str = "ssh.sock";

/// The name of the socket that readiness is told through.
pub const READY_SOCKET_NAME: &'static str = "ready.sock";

/// The name of the socket that the helper is controlled by.
pub const CONTROL_SOCKET_NAME: &'static str = "control.sock";

/// The name of the socket that bridges to the daemon.
pub const ATTACH_BRIDGE_SOCKET_NAME: &'static str = "attach.sock";

/// The name of the guest's serial log.
pub const SERIAL_LOG_NAME: &'static str = "serial.log";

/// The name of the helper's own log.
pub const DIAGNOSTIC_LOG_NAME: &'static str = "helper.log";

/// How long a guest may take to be ready, in milliseconds.
pub const LAUNCH_READY_TIMEOUT: u64 = 90_000;

/// How long a helper may take to publish its record, in milliseconds.
pub const HELPER_RECORD_TIMEOUT: u64 = 5_000;

/// How often a helper is looked at, in milliseconds.
pub const HELPER_POLL_INTERVAL: u64 = 100;

/// How long an abrupt exit of a helper may take to show, in milliseconds.
pub const HELPER_CONTROL_EXIT_GRACE: u64 = 1_000;

/// How long a child may take to exit by itself, in milliseconds.
pub const CHILD_EXIT_TIMEOUT: u64 = 5_000;

/// How long a child may take to exit after it was killed, in milliseconds.
pub const CHILD_KILL_TIMEOUT: u64 = 3_000;

/// How long a detached helper may take to remove its record, in milliseconds.
pub const DETACHED_EXIT_TIMEOUT: u64 = 10_000;

/// How many bytes a socket path must stay below.
pub const UDS_PATH_BYTE_LIMIT: usize = 100;

/// How many bytes of the helper's log are shown.
pub const DIAGNOSTIC_BYTES: usize = 32_768;

/// The variable that overrides the guest image.
pub const ENV_GUEST_IMAGE: &'static str = "OMNIFS_GUEST_IMAGE";

/// The guest image of a dev binary, as it is built locally.
pub const DEFAULT_GUEST_IMAGE: &'static str = "target/guest-image/omnifs-guest.raw";

/// The guest image of a release binary.
pub const GUEST_RELEASE_IMAGE: &'static str = "ghcr.io/0xff-ai/omnifs-guest:0.1.0";

/// The name a shell is opened for; nothing resolves it.
pub const SSH_GUEST_TARGET: &'static str = "root@omnifs-guest";

/// What a running libkrun helper has recorded about itself on disk.
#[derive(Debug, PartialEq, Eq)]
pub struct HelperRecord {
    pub pid: u32,
    pub instance_id: String,
    pub filesystem: ResourceName,
    pub spec: FilesystemSpec,
}

/// [`HelperRecord`] by what it spells.
pub struct HelperView {
    pub pid: u32,
    pub instance_id: Seq<char>,
    pub filesystem: Seq<char>,
    pub spec: SpecView,
}

impl View for HelperRecord {
    type V = HelperView;

    open spec fn view(&self) -> HelperView {
        HelperView {
            pid: self.pid,
            instance_id: self.instance_id@,
            filesystem: self.filesystem@,
            spec: self.spec@,
        }
    }
}

impl Clone for HelperRecord {
    fn clone(&self) -> (copy: Self)
        ensures
            copy == *self,
    {
        HelperRecord {
            pid: self.pid,
            instance_id: self.instance_id.clone(),
            filesystem: self.filesystem.clone(),
            spec: self.spec.clone(),
        }
    }
}

/// Whether two records are of the same helper. The locations in them are
/// compared as paths.
pub open spec fn same_helper(a: HelperView, b: HelperView) -> bool {
    &&& a.pid == b.pid
    &&& a.instance_id == b.instance_id
    &&& a.filesystem == b.filesystem
    &&& crate::name::same_spec(a.spec, b.spec)
}

impl Identity for HelperRecord {
    open spec fn identical(a: HelperView, b: HelperView) -> bool {
        same_helper(a, b)
    }

    fn is_same(&self, other: &Self) -> (same: bool) {
        self.pid == other.pid && same_text(
            self.instance_id.as_str(),
            other.instance_id.as_str(),
        ) && self.filesystem.same(&other.filesystem) && self.spec.same(&other.spec)
    }
}

/// The guest image of a channel.
pub open spec fn default_guest_image_of(channel: BuildChannel) -> Seq<char> {
    match channel {
        BuildChannel::Release => GUEST_RELEASE_IMAGE@,
        BuildChannel::Dev => DEFAULT_GUEST_IMAGE@,
    }
}

/// The guest image of a channel: a dev binary has a local path, a release
/// binary a tag in a registry.
pub fn default_guest_image_for(channel: BuildChannel) -> (image: &'static str)
    ensures
        image@ == default_guest_image_of(channel),
{
    match channel {
        BuildChannel::Release => GUEST_RELEASE_IMAGE,
        BuildChannel::Dev => DEFAULT_GUEST_IMAGE,
    }
}

/// Resolves the reference or path of the guest image: that of the environment
/// if it is set there, else the configured one, else the default of the
/// channel.
pub fn resolve_guest_image_reference(
    configured: Option<&str>,
    environment: Option<String>,
    channel: BuildChannel,
) -> (image: String)
    ensures
        image@ == crate::fs_runtime::image::resolved_reference(
            None,
            crate::text::opt_text(environment),
            crate::fs_runtime::image::opt_str(configured),
            default_guest_image_of(channel),
        ),
{
    resolve_image_reference(None, environment, configured, default_guest_image_for(channel))
}

/// How a guest image is had.
#[derive(Debug, PartialEq, Eq)]
pub enum GuestImageSource {
    /// From a path.
    Local(String),
    /// From a registry, by way of the cache.
    Registry(ImageRef),
}

/// Chooses how a resolved guest image is had: a dev binary takes it for a
/// path, a release binary for a reference.
pub fn guest_image_source(resolved: String, channel: BuildChannel) -> (source: Result<
    GuestImageSource,
    String,
>)
    ensures
        match (channel, source) {
            (BuildChannel::Dev, Ok(GuestImageSource::Local(path))) => path@ == resolved@,
            (BuildChannel::Release, Ok(GuestImageSource::Registry(image))) => image@ == resolved@
                && !crate::text::is_blank_text(resolved@),
            (BuildChannel::Release, Err(text)) => crate::text::is_blank_text(resolved@) && text@
                == crate::fs_runtime::image::empty_reference(),
            _ => false,
        },
{
    match channel {
        BuildChannel::Dev => Ok(GuestImageSource::Local(resolved)),
        BuildChannel::Release => match ImageRef::new(resolved) {
            Ok(image) => Ok(GuestImageSource::Registry(image)),
            Err(text) => Err(text),
        },
    }
}

/// Refuses a guest image that is no file.
pub fn check_guest_image(path: String, is_file: bool) -> (checked: Result<String, String>)
    ensures
        match checked {
            Ok(image) => is_file && image == path,
            Err(text) => !is_file && text@ == "guest image not found at "@ + path@
                + "; run `just guest-image` to build it"@,
        },
{
    if !is_file {
        return Err(
            concat3(
                "guest image not found at ",
                path.as_str(),
                "; run `just guest-image` to build it",
            ),
        );
    }
    Ok(path)
}

/// What is wrong with the path of a socket, if it is too long.
pub open spec fn uds_error(path: Seq<char>) -> Option<Seq<char>> {
    let len = vstd::utf8::encode_utf8(path).len();
    if len < UDS_PATH_BYTE_LIMIT {
        None
    } else {
        Some(
            "libkrun socket path "@ + path + " is "@ + crate::text::decimal_text(len)
                + " bytes, at or beyond the "@ + crate::text::decimal_text(
                UDS_PATH_BYTE_LIMIT as nat,
            )
                + "-byte sockaddr_un budget (Linux allows 108, macOS 104); shorten OMNIFS_HOME or move it closer to the filesystem root"@,
        )
    }
}

/// Refuses the path of a socket that is too long for the system.
pub fn check_uds_path_length(path: &str) -> (checked: Result<(), String>)
    ensures
        match checked {
            Ok(_) => uds_error(path@) is None,
            Err(text) => uds_error(path@) == Some(text@),
        },
{
    let len: usize = path.as_bytes().len();
    if len < UDS_PATH_BYTE_LIMIT {
        return Ok(());
    }
    let text = concat3("libkrun socket path ", path, " is ");
    let text = concat3(
        text.as_str(),
        decimal(len as u64).as_str(),
        " bytes, at or beyond the ",
    );
    Err(
        concat3(
            text.as_str(),
            decimal(UDS_PATH_BYTE_LIMIT as u64).as_str(),
            "-byte sockaddr_un budget (Linux allows 108, macOS 104); shorten OMNIFS_HOME or move it closer to the filesystem root",
        ),
    )
}

/// One libkrun guest, by its own directory.
#[derive(Debug, PartialEq, Eq)]
pub struct LibkrunRunner {
    pub dir: String,
}

/// The names of what one launch leaves in the guest's directory, but for the
/// incomplete root disks.
pub open spec fn operational_names() -> Seq<Seq<char>> {
    seq![
        PID_FILE_NAME@,
        ROOT_DISK_NAME@,
        SEED_DISK_NAME@,
        SSH_SOCKET_NAME@,
        READY_SOCKET_NAME@,
        CONTROL_SOCKET_NAME@,
        ATTACH_BRIDGE_SOCKET_NAME@,
        SERIAL_LOG_NAME@,
        DIAGNOSTIC_LOG_NAME@,
        SEED_STAGING_NAME@,
    ]
}

/// Whether a name is that of something a launch leaves behind.
pub open spec fn is_operational(name: Seq<char>) -> bool {
    operational_names().contains(name) || ROOT_RAW_PART_PREFIX@.is_prefix_of(name)
}

/// The names of the files that a teardown removes, but for the incomplete root
/// disks and the staging directory.
pub open spec fn artifact_names() -> Seq<Seq<char>> {
    seq![
        ROOT_DISK_NAME@,
        SEED_DISK_NAME@,
        SSH_SOCKET_NAME@,
        READY_SOCKET_NAME@,
        CONTROL_SOCKET_NAME@,
        ATTACH_BRIDGE_SOCKET_NAME@,
        SERIAL_LOG_NAME@,
        DIAGNOSTIC_LOG_NAME@,
    ]
}

impl LibkrunRunner {
    /// Takes a guest's directory.
    pub fn new(dir: String) -> (runner: Self)
        ensures
            runner.dir == dir,
    {
        LibkrunRunner { dir }
    }

    /// The guest's directory.
    pub fn dir(&self) -> (path: &str)
        ensures
            path@ == self.dir@,
    {
        self.dir.as_str()
    }

    /// Where something of this name stands.
    pub open spec fn at(&self, name: Seq<char>) -> Seq<char> {
        crate::text::joined_path(self.dir@, name)
    }

    /// The private key of the guest.
    pub fn ssh_key_path(&self) -> (path: String)
        ensures
            path@ == self.at(SSH_KEY_NAME@),
    {
        join_path(self.dir.as_str(), SSH_KEY_NAME)
    }

    /// The public key of the guest.
    pub fn ssh_pubkey_path(&self) -> (path: String)
        ensures
            path@ == self.at(SSH_KEY_NAME@ + ".pub"@),
    {
        let name = concat(SSH_KEY_NAME, ".pub");
        join_path(self.dir.as_str(), name.as_str())
    }

    /// The helper's record.
    pub fn pidfile(&self) -> (path: String)
        ensures
            path@ == self.at(PID_FILE_NAME@),
    {
        join_path(self.dir.as_str(), PID_FILE_NAME)
    }

    /// The writable root disk.
    pub fn root_raw(&self) -> (path: String)
        ensures
            path@ == self.at(ROOT_DISK_NAME@),
    {
        join_path(self.dir.as_str(), ROOT_DISK_NAME)
    }

    /// The seed disk.
    pub fn seed_iso(&self) -> (path: String)
        ensures
            path@ == self.at(SEED_DISK_NAME@),
    {
        join_path(self.dir.as_str(), SEED_DISK_NAME)
    }

    /// The directory that a seed is staged in.
    pub fn seed_staging(&self) -> (path: String)
        ensures
            path@ == self.at(SEED_STAGING_NAME@),
    {
        join_path(self.dir.as_str(), SEED_STAGING_NAME)
    }

    /// The socket that a shell goes through.
    pub fn ssh_socket(&self) -> (path: String)
        ensures
            path@ == self.at(SSH_SOCKET_NAME@),
    {
        join_path(self.dir.as_str(), SSH_SOCKET_NAME)
    }

    /// The socket that readiness is told through.
    pub fn ready_socket(&self) -> (path: String)
        ensures
            path@ == self.at(READY_SOCKET_NAME@),
    {
        join_path(self.dir.as_str(), READY_SOCKET_NAME)
    }

    /// The socket that the helper is controlled by.
    pub fn control_socket(&self) -> (path: String)
        ensures
            path@ == self.at(CONTROL_SOCKET_NAME@),
    {
        join_path(self.dir.as_str(), CONTROL_SOCKET_NAME)
    }

    /// The socket that bridges to the daemon.
    pub fn attach_bridge_socket(&self) -> (path: String)
        ensures
            path@ == self.at(ATTACH_BRIDGE_SOCKET_NAME@),
    {
        join_path(self.dir.as_str(), ATTACH_BRIDGE_SOCKET_NAME)
    }

    /// The guest's serial log.
    pub fn serial_log(&self) -> (path: String)
        ensures
            path@ == self.at(SERIAL_LOG_NAME@),
    {
        join_path(self.dir.as_str(), SERIAL_LOG_NAME)
    }

    /// The helper's own log.
    pub fn diagnostic_log(&self) -> (path: String)
        ensures
            path@ == self.at(DIAGNOSTIC_LOG_NAME@),
    {
        join_path(self.dir.as_str(), DIAGNOSTIC_LOG_NAME)
    }

    /// Whether a name is that of an incomplete root disk.
    pub fn is_root_part(name: &str) -> (part: bool)
        ensures
            part == ROOT_RAW_PART_PREFIX@.is_prefix_of(name@),
    {
        starts_with(name, ROOT_RAW_PART_PREFIX)
    }

    /// Whether a launch left anything behind, given the names in the guest's
    /// directory.
    pub fn has_operational_state(names: &Vec<String>) -> (left: bool)
        ensures
            left == exists|i: int|
                0 <= i < names@.len() && is_operational((#[trigger] names@[i])@),
    {
        let known = operational();
        let mut i: usize = 0;
        while i < names.len()
            invariant
                i <= names@.len(),
                crate::text::texts(known@) == operational_names(),
                forall|j: int| 0 <= j < i ==> !is_operational((#[trigger] names@[j])@),
            decreases names@.len() - i,
        {
            if listed(&known, names[i].as_str()) || Self::is_root_part(names[i].as_str()) {
                return true;
            }
            i = i + 1;
        }
        false
    }

    /// The files that a teardown removes, but for the incomplete root disks
    /// and the staging directory.
    pub fn owned_artifacts(&self) -> (paths: Vec<String>)
        ensures
            crate::text::texts(paths@) == artifact_names().map_values(
                |name: Seq<char>| self.at(name),
            ),
    {
        let mut paths: Vec<String> = Vec::new();
        push_text(&mut paths, self.root_raw().as_str());
        push_text(&mut paths, self.seed_iso().as_str());
        push_text(&mut paths, self.ssh_socket().as_str());
        push_text(&mut paths, self.ready_socket().as_str());
        push_text(&mut paths, self.control_socket().as_str());
        push_text(&mut paths, self.attach_bridge_socket().as_str());
        push_text(&mut paths, self.serial_log().as_str());
        push_text(&mut paths, self.diagnostic_log().as_str());
        assert(crate::text::texts(paths@) =~= artifact_names().map_values(
            |name: Seq<char>| self.at(name),
        ));
        paths
    }

    /// The sockets of a launch, of which each path must fit the system.
    pub open spec fn socket_paths(&self, attach: Seq<char>) -> Seq<Seq<char>> {
        seq![
            attach,
            self.at(ATTACH_BRIDGE_SOCKET_NAME@),
            self.at(READY_SOCKET_NAME@),
            self.at(SSH_SOCKET_NAME@),
            self.at(CONTROL_SOCKET_NAME@),
        ]
    }

    /// The first socket of a launch whose path does not fit, if there is one.
    pub fn check_sockets(&self, attach: &str) -> (checked: Result<(), String>)
        ensures
            match checked {
                Ok(_) => first_uds_error(self.socket_paths(attach@)) is None,
                Err(text) => first_uds_error(self.socket_paths(attach@)) == Some(text@),
            },
    {
        let mut paths: Vec<String> = Vec::new();
        push_text(&mut paths, attach);
        push_text(&mut paths, self.attach_bridge_socket().as_str());
        push_text(&mut paths, self.ready_socket().as_str());
        push_text(&mut paths, self.ssh_socket().as_str());
        push_text(&mut paths, self.control_socket().as_str());
        let ghost all = self.socket_paths(attach@);
        assert(crate::text::texts(paths@) =~= all);
        let mut i: usize = 0;
        assert(all.skip(0) =~= all);
        while i < paths.len()
            invariant
                i <= paths@.len(),
                crate::text::texts(paths@) == all,
                all == self.socket_paths(attach@),
                first_uds_error(all) == first_uds_error(all.skip(i as int)),
            decreases paths@.len() - i,
        {
            proof {
                assert(all[i as int] == paths@[i as int]@);
                assert(all.skip(i as int)[0] == all[i as int]);
                assert(all.skip(i as int).skip(1) =~= all.skip(i + 1));
            }
            if let Err(text) = check_uds_path_length(paths[i].as_str()) {
                return Err(text);
            }
            i = i + 1;
        }
        Ok(())
    }

    /// Where the part of the helper's log begins that is shown.
    pub fn diagnostic_start(length: usize) -> (start: usize)
        ensures
            start == (if length <= DIAGNOSTIC_BYTES {
                0
            } else {
                length - DIAGNOSTIC_BYTES
            }),
    {
        if length <= DIAGNOSTIC_BYTES {
            0
        } else {
            length - DIAGNOSTIC_BYTES
        }
    }

    /// What is shown of the helper's log, given the text that its last bytes
    /// spell, where it could be read.
    pub fn diagnostic_tail(&self, shown: Option<&str>) -> (text: String)
        ensures
            text@ == (match shown {
                None => "helper log: "@ + self.at(DIAGNOSTIC_LOG_NAME@),
                Some(shown) => {
                    let detail = crate::text::trimmed(shown@);
                    if detail.len() == 0 {
                        "helper log is empty: "@ + self.at(DIAGNOSTIC_LOG_NAME@)
                    } else {
                        "helper log "@ + self.at(DIAGNOSTIC_LOG_NAME@) + ":\n"@ + detail
                    }
                },
            }),
    {
        let path = self.diagnostic_log();
        match shown {
            None => concat("helper log: ", path.as_str()),
            Some(shown) => {
                let detail = trim(shown);
                if detail.as_str().is_empty() {
                    concat("helper log is empty: ", path.as_str())
                } else {
                    let text = concat3("helper log ", path.as_str(), ":\n");
                    concat(text.as_str(), detail.as_str())
                }
            },
        }
    }

    /// The command line that opens a shell in the guest, or runs a command
    /// there.
    pub open spec fn shell_line(
        &self,
        shell_override: Option<Seq<char>>,
        trailing: Seq<Seq<char>>,
    ) -> Seq<Seq<char>> {
        let program = if trailing.len() == 0 {
            seq![
                match shell_override {
                    Some(shell) => shell,
                    None => "/bin/sh"@,
                },
            ]
        } else {
            trailing
        };
        seq![
            "ssh"@,
            "-i"@,
            self.at(SSH_KEY_NAME@),
            "-o"@,
            "IdentitiesOnly=yes"@,
            "-o"@,
            "StrictHostKeyChecking=no"@,
            "-o"@,
            "UserKnownHostsFile=/dev/null"@,
            "-o"@,
            "LogLevel=ERROR"@,
            "-o"@,
            "ProxyCommand=socat - UNIX-CONNECT:"@ + self.at(SSH_SOCKET_NAME@),
        ] + (if trailing.len() == 0 {
            seq!["-t"@]
        } else {
            seq![]
        }) + seq![
            SSH_GUEST_TARGET@,
            "cd "@ + crate::fs_runtime::libkrun::shell::quoted(FILESYSTEM_GUEST_LOCATION@)
                + " && exec "@ + crate::fs_runtime::libkrun::shell::quoted_all(program),
        ]
    }

    /// The command line that opens a shell in the guest, or runs a command
    /// there.
    pub fn shell_command(&self, shell_override: Option<&str>, trailing: &Vec<String>) -> (command:
        Vec<String>)
        ensures
            crate::text::texts(command@) == self.shell_line(
                crate::fs_runtime::image::opt_str(shell_override),
                crate::text::texts(trailing@),
            ),
    {
        let mut command: Vec<String> = Vec::new();
        push_text(&mut command, "ssh");
        push_text(&mut command, "-i");
        push_text(&mut command, self.ssh_key_path().as_str());
        push_text(&mut command, "-o");
        push_text(&mut command, "IdentitiesOnly=yes");
        push_text(&mut command, "-o");
        push_text(&mut command, "StrictHostKeyChecking=no");
        push_text(&mut command, "-o");
        push_text(&mut command, "UserKnownHostsFile=/dev/null");
        push_text(&mut command, "-o");
        push_text(&mut command, "LogLevel=ERROR");
        push_text(&mut command, "-o");
        let proxy = concat("ProxyCommand=socat - UNIX-CONNECT:", self.ssh_socket().as_str());
        push_text(&mut command, proxy.as_str());
        let program: Vec<String> = if trailing.len() == 0 {
            push_text(&mut command, "-t");
            let mut program: Vec<String> = Vec::new();
            match shell_override {
                Some(shell) => push_text(&mut program, shell),
                None => push_text(&mut program, "/bin/sh"),
            }
            program
        } else {
            copy_texts(trailing)
        };
        push_text(&mut command, SSH_GUEST_TARGET);
        let place = shell_word(FILESYSTEM_GUEST_LOCATION);
        let remote = concat3("cd ", place.as_str(), " && exec ");
        let remote = concat(remote.as_str(), shell_words(&program).as_str());
        push_text(&mut command, remote.as_str());
        proof {
            let given = crate::text::texts(trailing@);
            let shell = crate::fs_runtime::image::opt_str(shell_override);
            if given.len() == 0 {
                assert(crate::text::texts(program@) =~= seq![
                    match shell {
                        Some(shell) => shell,
                        None => "/bin/sh"@,
                    },
                ]);
            }
            assert(crate::text::texts(command@) =~= self.shell_line(shell, given));
        }
        command
    }
}

/// The first of some paths that does not fit, if there is one.
pub open spec fn first_uds_error(paths: Seq<Seq<char>>) -> Option<Seq<char>>
    decreases paths.len(),
{
    if paths.len() == 0 {
        None
    } else {
        match uds_error(paths[0]) {
            Some(text) => Some(text),
            None => first_uds_error(paths.skip(1)),
        }
    }
}

fn operational() -> (names: Vec<String>)
    ensures
        crate::text::texts(names@) == operational_names(),
{
    let mut names: Vec<String> = Vec::new();
    push_text(&mut names, PID_FILE_NAME);
    push_text(&mut names, ROOT_DISK_NAME);
    push_text(&mut names, SEED_DISK_NAME);
    push_text(&mut names, SSH_SOCKET_NAME);
    push_text(&mut names, READY_SOCKET_NAME);
    push_text(&mut names, CONTROL_SOCKET_NAME);
    push_text(&mut names, ATTACH_BRIDGE_SOCKET_NAME);
    push_text(&mut names, SERIAL_LOG_NAME);
    push_text(&mut names, DIAGNOSTIC_LOG_NAME);
    push_text(&mut names, SEED_STAGING_NAME);
    assert(crate::text::texts(names@) =~= operational_names());
    names
}

/// The guest's key outlives its launches: its name is neither among those that
/// a teardown removes nor that of an incomplete root disk.
pub proof fn a_teardown_keeps_the_key()
    ensures
        !artifact_names().contains(SSH_KEY_NAME@),
        !operational_names().contains(SSH_KEY_NAME@),
        !ROOT_RAW_PART_PREFIX@.is_prefix_of(SSH_KEY_NAME@),
        !artifact_names().contains(PID_FILE_NAME@),
{
    reveal_strlit("id_ed25519");
    reveal_strlit("helper.json");
    reveal_strlit("root.raw");
    reveal_strlit("root.raw.part.");
    reveal_strlit("seed.iso");
    reveal_strlit("seed-staging");
    reveal_strlit("ssh.sock");
    reveal_strlit("ready.sock");
    reveal_strlit("control.sock");
    reveal_strlit("attach.sock");
    reveal_strlit("serial.log");
    reveal_strlit("helper.log");
    assert(SSH_KEY_NAME@[0] == 'i');
    assert(forall|i: int|
        0 <= i < operational_names().len() ==> (#[trigger] operational_names()[i])[0] != 'i');
    assert(forall|i: int|
        0 <= i < artifact_names().len() ==> (#[trigger] artifact_names()[i])[0] != 'i');
    assert(PID_FILE_NAME@.len() == 11 && PID_FILE_NAME@[0] == 'h' && PID_FILE_NAME@[7] == 'j');
    assert(forall|i: int|
        0 <= i < artifact_names().len() ==> ((#[trigger] artifact_names()[i])[0] != 'h'
            || artifact_names()[i][7] != 'j'));
}

/// What is wrong with the record of a helper that was just started, if
/// anything is.
pub open spec fn started_error(
    record: HelperView,
    child_pid: u32,
    spec: SpecView,
    runtime_instance: Seq<char>,
) -> Option<Seq<char>> {
    if child_pid != record.pid {
        Some(
            "libkrun helper record named pid "@ + crate::text::decimal_text(record.pid as nat)
                + ", but the spawned process is "@ + crate::text::decimal_text(child_pid as nat),
        )
    } else if !crate::name::same_spec(record.spec, spec) {
        Some("libkrun helper record did not match the resolved filesystem spec"@)
    } else if record.instance_id != runtime_instance {
        Some("libkrun helper record did not match the launch instance"@)
    } else {
        None
    }
}

/// Checks the record of a helper that was just started.
pub fn check_started(
    record: &HelperRecord,
    child_pid: u32,
    spec: &FilesystemSpec,
    runtime_instance: &str,
) -> (checked: Result<(), String>)
    ensures
        match checked {
            Ok(_) => started_error(record@, child_pid, spec@, runtime_instance@) is None,
            Err(text) => started_error(record@, child_pid, spec@, runtime_instance@) == Some(text@),
        },
{
    if child_pid != record.pid {
        let text = concat3(
            "libkrun helper record named pid ",
            decimal(record.pid as u64).as_str(),
            ", but the spawned process is ",
        );
        return Err(concat(text.as_str(), decimal(child_pid as u64).as_str()));
    }
    if !record.spec.same(spec) {
        return Err("libkrun helper record did not match the resolved filesystem spec".to_owned());
    }
    if !same_text(record.instance_id.as_str(), runtime_instance) {
        return Err("libkrun helper record did not match the launch instance".to_owned());
    }
    Ok(())
}

/// What a look for the record of a helper that was just started calls for.
#[derive(Clone, Copy, Debug, PartialEq, Eq, Structural)]
pub enum RecordStep {
    /// Its record is there.
    Found,
    /// It has exited without one.
    Exited,
    /// Look again later.
    Wait,
}

/// Judges a look for the record of a helper that was just started: only the
/// record of this launch counts, and one that is there counts even if the helper
/// has exited.
pub fn record_step(record: Option<&HelperRecord>, instance: &str, exited: bool) -> (step: RecordStep)
    ensures
        step == (if record matches Some(record) && record@.instance_id == instance@ {
            RecordStep::Found
        } else if exited {
            RecordStep::Exited
        } else {
            RecordStep::Wait
        }),
{
    if let Some(record) = record {
        if same_text(record.instance_id.as_str(), instance) {
            return RecordStep::Found;
        }
    }
    if exited {
        RecordStep::Exited
    } else {
        RecordStep::Wait
    }
}

/// Proves a helper: what it answers over its control socket must be what it
/// has recorded.
pub fn confirm_record(answered: Result<HelperRecord, String>, expected: &HelperRecord) -> (confirmed:
    Result<(), String>)
    ensures
        match (answered, confirmed) {
            (Ok(actual), Ok(_)) => same_helper(actual@, expected@),
            (Ok(actual), Err(text)) => !same_helper(actual@, expected@) && text@
                == "libkrun helper record and control identity do not match"@,
            (Err(error), Err(text)) => text@ == "prove libkrun helper identity: "@ + error@,
            _ => false,
        },
{
    match answered {
        Err(error) => Err(concat("prove libkrun helper identity: ", error.as_str())),
        Ok(actual) => {
            if !actual.is_same(expected) {
                return Err("libkrun helper record and control identity do not match".to_owned());
            }
            Ok(())
        },
    }
}

/// Judges the record of a guest: without one nothing may be left of a launch,
/// and one must be about this filesystem. True where there is a record.
pub fn judge_record(
    record: Option<&HelperRecord>,
    filesystem: &ResourceName,
    spec: &FilesystemSpec,
    has_state: bool,
    dir: &str,
) -> (judged: Result<bool, String>)
    ensures
        match (record, judged) {
            (None, Ok(recorded)) => !recorded && !has_state,
            (None, Err(text)) => has_state && text@ == "libkrun filesystem state exists at "@ + dir@
                + " without a helper record"@,
            (Some(record), Ok(recorded)) => recorded && record@.filesystem == filesystem@
                && crate::name::same_spec(record@.spec, spec@),
            (Some(record), Err(text)) => !(record@.filesystem == filesystem@
                && crate::name::same_spec(record@.spec, spec@)) && text@
                == "libkrun helper record does not match configured Filesystem `"@ + filesystem@
                + "`"@,
        },
{
    match record {
        None => {
            if has_state {
                return Err(
                    concat3(
                        "libkrun filesystem state exists at ",
                        dir,
                        " without a helper record",
                    ),
                );
            }
            Ok(false)
        },
        Some(record) => {
            if record.filesystem.same(filesystem) && record.spec.same(spec) {
                return Ok(true);
            }
            Err(
                concat3(
                    "libkrun helper record does not match configured Filesystem `",
                    filesystem.as_str(),
                    "`",
                ),
            )
        },
    }
}

/// Whether a recorded helper runs: it must prove its identity, unless it
/// exits while it is asked.
pub fn judge_running(alive: bool, confirmed: Result<(), String>, exited: bool) -> (running: Result<
    bool,
    String,
>)
    ensures
        match (confirmed, running) {
            (Ok(_), Ok(running)) => running == alive,
            (Err(_), Ok(running)) => !running && (!alive || exited),
            (Err(error), Err(text)) => alive && !exited && text == error,
            _ => false,
        },
{
    match confirmed {
        Ok(_) => Ok(alive),
        Err(error) => if alive && !exited {
            Err(error)
        } else {
            Ok(false)
        },
    }
}

/// One directory in a scan of libkrun guests.
#[derive(Debug, PartialEq, Eq)]
pub enum ScannedGuest {
    /// All of them could not be listed.
    Unlisted { error: String },
    /// One of them could not be read.
    Unread { error: String },
    /// Its name is that of no filesystem.
    Unnamed { raw_id: String, error: String },
    /// The record of the guest, and whether the helper proved it.
    Recorded {
        filesystem: ResourceName,
        state_dir: String,
        record: Result<Option<HelperRecord>, String>,
        proved: Result<(), String>,
    },
}

/// What is known of a scanned guest: a record of another filesystem, or one
/// that is not proved, is none.
pub open spec fn scanned_guest(
    filesystem: Seq<char>,
    record: Result<Option<HelperView>, Seq<char>>,
    proved: Result<(), Seq<char>>,
) -> Result<Option<HelperView>, Seq<char>> {
    match record {
        Err(error) => Err(error),
        Ok(None) => Ok(None),
        Ok(Some(record)) => if record.filesystem != filesystem {
            Err("libkrun record belongs to Filesystem `"@ + record.filesystem + "`"@)
        } else {
            match proved {
                Err(error) => Err(error),
                Ok(_) => Ok(Some(record)),
            }
        },
    }
}

/// A record that may be missing or unreadable, by what it spells.
pub open spec fn record_view(record: Result<Option<HelperRecord>, String>) -> Result<
    Option<HelperView>,
    Seq<char>,
> {
    match record {
        Ok(Some(record)) => Ok(Some(record@)),
        Ok(None) => Ok(None),
        Err(text) => Err(text@),
    }
}

/// Judges the record of a scanned guest.
pub fn judge_scanned(
    filesystem: &ResourceName,
    record: Result<Option<HelperRecord>, String>,
    proved: Result<(), String>,
) -> (confirmed: Result<Option<HelperRecord>, String>)
    ensures
        record_view(confirmed) == scanned_guest(
            filesystem@,
            record_view(record),
            crate::serving_reconciler::pass::result_of(proved),
        ),
{
    match record {
        Err(error) => Err(error),
        Ok(None) => Ok(None),
        Ok(Some(record)) => {
            if !record.filesystem.same(filesystem) {
                return Err(
                    concat3(
                        "libkrun record belongs to Filesystem `",
                        record.filesystem.as_str(),
                        "`",
                    ),
                );
            }
            match proved {
                Err(error) => Err(error),
                Ok(_) => Ok(Some(record)),
            }
        },
    }
}

/// What a scanned guest is taken for.
pub fn guest_candidate(scanned: ScannedGuest, runtime_root: &str) -> (candidate: Candidate)
    ensures
        match (scanned, candidate) {
            (
                ScannedGuest::Unlisted { error },
                Candidate::Invalid { backend, target, error: shown },
            ) => backend@ == "libkrun"@ && crate::text::opt_text(target) == Some(runtime_root@)
                && shown == error,
            (
                ScannedGuest::Unread { error },
                Candidate::Invalid { backend, target, error: shown },
            ) => backend@ == "libkrun"@ && target is None && shown == error,
            (
                ScannedGuest::Unnamed { raw_id, error },
                Candidate::Invalid { backend, target, error: shown },
            ) => backend@ == "libkrun"@ && target == Some(raw_id) && shown == error,
            (
                ScannedGuest::Recorded { filesystem, state_dir, record, proved },
                Candidate::Libkrun { filesystem: name, state_dir: dir, confirmed },
            ) => name == filesystem && dir == state_dir && record_view(confirmed) == scanned_guest(
                filesystem@,
                record_view(record),
                crate::serving_reconciler::pass::result_of(proved),
            ),
            _ => false,
        },
{
    match scanned {
        ScannedGuest::Unlisted { error } => Candidate::Invalid {
            backend: "libkrun".to_owned(),
            target: Some(runtime_root.to_owned()),
            error,
        },
        ScannedGuest::Unread { error } => Candidate::Invalid {
            backend: "libkrun".to_owned(),
            target: None,
            error,
        },
        ScannedGuest::Unnamed { raw_id, error } => Candidate::Invalid {
            backend: "libkrun".to_owned(),
            target: Some(raw_id),
            error,
        },
        ScannedGuest::Recorded { filesystem, state_dir, record, proved } => {
            let confirmed = judge_scanned(&filesystem, record, proved);
            Candidate::Libkrun { filesystem, state_dir, confirmed }
        },
    }
}

} // verus!
