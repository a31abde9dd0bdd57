//! One exact configured runtime, dispatched over the host, Docker and libkrun
//! backends.
use crate::fs_runtime::docker::{
    shell_command, DockerContainerIdentity, DockerTarget, ListedContainer, ListedOutcome,
    OwnedFilesystemContainer, TargetView, FILESYSTEM_GUEST_LOCATION,
};
use crate::fs_runtime::events::{FactView, RuntimeEvent, RuntimeStage, RuntimeState};
use crate::fs_runtime::host::{RunnerPhase, RunnerRecord};
use crate::fs_runtime::image::BuildChannel;
use crate::fs_runtime::libkrun::{HelperRecord, LibkrunRunner};
use crate::name::{
    FilesystemProtocol, FilesystemRuntime, FilesystemSpec, ResourceName, SpecView,
};
use crate::text::{concat, concat3, join_path, same_path, same_text};
use vstd::prelude::*;
use vstd::string::*;

verus! {

/// Roots and executable that every runtime is given by its caller.
#[derive(Debug, PartialEq, Eq)]
pub struct RuntimePaths {
    pub profile_root: String,
    pub is_default_profile: bool,
    pub state_root: String,
    pub host_log_root: String,
    pub guest_image_cache: String,
    pub executable: String,
}

/// [`RuntimePaths`] by what it spells.
pub struct PathsView {
    pub profile_root: Seq<char>,
    pub is_default_profile: bool,
    pub state_root: Seq<char>,
    pub host_log_root: Seq<char>,
    pub guest_image_cache: Seq<char>,
    pub executable: Seq<char>,
}

impl View for RuntimePaths {
    type V = PathsView;

    open spec fn view(&self) -> PathsView {
        PathsView {
            profile_root: self.profile_root@,
            is_default_profile: self.is_default_profile,
            state_root: self.state_root@,
            host_log_root: self.host_log_root@,
            guest_image_cache: self.guest_image_cache@,
            executable: self.executable@,
        }
    }
}

/// The paths of one filesystem: everything it owns stands under its own
/// directory, and its control socket under a short name.
pub open spec fn filesystem_paths(paths: PathsView, name: Seq<char>) -> FilesystemPathsView {
    let state_dir = crate::text::joined_path(paths.state_root, name);
    FilesystemPathsView {
        profile_root: paths.profile_root,
        state_dir,
        host_log: crate::text::joined_path(paths.host_log_root, name + ".log"@),
        host_control_socket: crate::text::joined_path(
            crate::text::joined_path(paths.profile_root, ".r"@),
            crate::digest::short_digest_text(name, 8) + ".sock"@,
        ),
        libkrun_root: crate::text::joined_path(state_dir, "libkrun"@),
        guest_image_cache: paths.guest_image_cache,
        executable: paths.executable,
    }
}

/// Filesystems of different names own different directories, different guest
/// directories and different logs. A name holds no slash.
pub proof fn filesystems_own_different_paths(paths: PathsView, name: Seq<char>, other: Seq<char>)
    requires
        name != other,
        !name.contains('/'),
        !other.contains('/'),
    ensures
        filesystem_paths(paths, name).state_dir != filesystem_paths(paths, other).state_dir,
        filesystem_paths(paths, name).libkrun_root != filesystem_paths(paths, other).libkrun_root,
        filesystem_paths(paths, name).host_log != filesystem_paths(paths, other).host_log,
{
    reveal_strlit(".log");
    let log = name + ".log"@;
    let other_log = other + ".log"@;
    assert(name.len() > 0 ==> name.contains(name[0]));
    assert(other.len() > 0 ==> other.contains(other[0]));
    assert(log[0] != '/' && other_log[0] != '/');
    assert(log.take(log.len() - 4) =~= name);
    assert(other_log.take(other_log.len() - 4) =~= other);
    crate::text::parts_make_different_paths(paths.state_root, name, other);
    crate::text::parts_make_different_paths(paths.host_log_root, log, other_log);
    guest_directories_tell_names_apart(paths, name, other);
}

/// The guest directory of a filesystem, cut back to what stands before it.
proof fn guest_directories_tell_names_apart(paths: PathsView, name: Seq<char>, other: Seq<char>)
    requires
        name != other,
        !name.contains('/'),
        !other.contains('/'),
    ensures
        filesystem_paths(paths, name).libkrun_root != filesystem_paths(paths, other).libkrun_root,
{
    reveal_strlit("libkrun");
    let root = paths.state_root;
    let head = if root.len() == 0 || root.last() == '/' {
        root
    } else {
        root.push('/')
    };
    let tail = |part: Seq<char>|
        if part.len() == 0 {
            "libkrun"@
        } else {
            part.push('/') + "libkrun"@
        };
    assert forall|part: Seq<char>| !part.contains('/') implies filesystem_paths(
        paths,
        part,
    ).libkrun_root == head + #[trigger] tail(part) by {
        assert(part.len() > 0 ==> part.contains(part[0]) && part.contains(part.last()));
        let dir = filesystem_paths(paths, part).state_dir;
        if part.len() == 0 {
            assert(dir =~= head);
        } else {
            assert(dir =~= head + part);
            assert(dir.last() == part.last());
        }
        assert(filesystem_paths(paths, part).libkrun_root =~= head + tail(part));
    }
    assert((head + tail(name)).skip(head.len() as int) =~= tail(name));
    assert((head + tail(other)).skip(head.len() as int) =~= tail(other));
    if tail(name) == tail(other) {
        if name.len() == 0 || other.len() == 0 {
            assert(name =~= other);
        } else {
            assert(tail(name).take(tail(name).len() - 8) =~= name);
            assert(tail(other).take(tail(other).len() - 8) =~= other);
        }
    }
}

impl RuntimePaths {
    /// Takes the daemon's own roots.
    pub fn daemon_owned(
        profile_root: String,
        is_default_profile: bool,
        filesystems_root: String,
        filesystem_logs_root: String,
        guest_image_cache: String,
        executable: String,
    ) -> (paths: Self)
        ensures
            paths@ == (PathsView {
                profile_root: profile_root@,
                is_default_profile,
                state_root: filesystems_root@,
                host_log_root: filesystem_logs_root@,
                guest_image_cache: guest_image_cache@,
                executable: executable@,
            }),
    {
        RuntimePaths {
            profile_root,
            is_default_profile,
            state_root: filesystems_root,
            host_log_root: filesystem_logs_root,
            guest_image_cache,
            executable,
        }
    }

    /// The paths of one filesystem. Its control socket is called by sixteen
    /// hexadecimal digits that depend on its name alone.
    pub fn filesystem(&self, name: &ResourceName) -> (paths: FilesystemRuntimePaths)
        ensures
            paths@ == filesystem_paths(self@, name@),
            crate::digest::short_digest_text(name@, 8).len() == 16,
            crate::digest::is_hex(crate::digest::short_digest_text(name@, 8)),
    {
        let state_dir = join_path(self.state_root.as_str(), name.as_str());
        let libkrun_root = join_path(state_dir.as_str(), "libkrun");
        let log = concat(name.as_str(), ".log");
        let digest = crate::digest::short_digest(name.as_str(), 8);
        let socket = concat(digest.as_str(), ".sock");
        let sockets = join_path(self.profile_root.as_str(), ".r");
        FilesystemRuntimePaths {
            profile_root: self.profile_root.clone(),
            state_dir,
            host_log: join_path(self.host_log_root.as_str(), log.as_str()),
            host_control_socket: join_path(sockets.as_str(), socket.as_str()),
            libkrun_root,
            guest_image_cache: self.guest_image_cache.clone(),
            executable: self.executable.clone(),
        }
    }

    /// The root of the profile.
    pub fn profile_root(&self) -> (path: &str)
        ensures
            path@ == self@.profile_root,
    {
        self.profile_root.as_str()
    }

    /// Whether the profile is the default one.
    pub fn is_default_profile(&self) -> (default: bool)
        ensures
            default == self@.is_default_profile,
    {
        self.is_default_profile
    }

    /// The directory that holds one directory per filesystem.
    pub fn state_root(&self) -> (path: &str)
        ensures
            path@ == self@.state_root,
    {
        self.state_root.as_str()
    }
}

/// Exact paths of one filesystem.
#[derive(Debug, PartialEq, Eq)]
pub struct FilesystemRuntimePaths {
    pub profile_root: String,
    pub state_dir: String,
    pub host_log: String,
    pub host_control_socket: String,
    pub libkrun_root: String,
    pub guest_image_cache: String,
    pub executable: String,
}

/// [`FilesystemRuntimePaths`] by what it spells.
pub struct FilesystemPathsView {
    pub profile_root: Seq<char>,
    pub state_dir: Seq<char>,
    pub host_log: Seq<char>,
    pub host_control_socket: Seq<char>,
    pub libkrun_root: Seq<char>,
    pub guest_image_cache: Seq<char>,
    pub executable: Seq<char>,
}

impl View for FilesystemRuntimePaths {
    type V = FilesystemPathsView;

    open spec fn view(&self) -> FilesystemPathsView {
        FilesystemPathsView {
            profile_root: self.profile_root@,
            state_dir: self.state_dir@,
            host_log: self.host_log@,
            host_control_socket: self.host_control_socket@,
            libkrun_root: self.libkrun_root@,
            guest_image_cache: self.guest_image_cache@,
            executable: self.executable@,
        }
    }
}

impl FilesystemRuntimePaths {
    /// The root of the profile.
    pub fn profile_root(&self) -> (path: &str)
        ensures
            path@ == self@.profile_root,
    {
        self.profile_root.as_str()
    }

    /// The filesystem's own directory.
    pub fn state_dir(&self) -> (path: &str)
        ensures
            path@ == self@.state_dir,
    {
        self.state_dir.as_str()
    }

    /// The log of a host filesystem.
    pub fn host_log(&self) -> (path: &str)
        ensures
            path@ == self@.host_log,
    {
        self.host_log.as_str()
    }

    /// The socket that a host filesystem is controlled by.
    pub fn host_control_socket(&self) -> (path: &str)
        ensures
            path@ == self@.host_control_socket,
    {
        self.host_control_socket.as_str()
    }

    /// The directory of a libkrun guest.
    pub fn libkrun_root(&self) -> (path: &str)
        ensures
            path@ == self@.libkrun_root,
    {
        self.libkrun_root.as_str()
    }

    /// Where guest images are kept.
    pub fn guest_image_cache(&self) -> (path: &str)
        ensures
            path@ == self@.guest_image_cache,
    {
        self.guest_image_cache.as_str()
    }

    /// The executable that runs a host filesystem.
    pub fn executable(&self) -> (path: &str)
        ensures
            path@ == self@.executable,
    {
        self.executable.as_str()
    }
}

/// An address that filesystems attach to.
#[derive(Debug, PartialEq, Eq)]
pub struct AttachAddress {
    /// The address, where it is an IPv4 one, with its first octet highest.
    pub ipv4: Option<u32>,
    pub port: u16,
    /// The address and port as they are shown.
    pub text: String,
}

impl Clone for AttachAddress {
    fn clone(&self) -> (copy: Self)
        ensures
            copy == *self,
    {
        AttachAddress { ipv4: self.ipv4, port: self.port, text: self.text.clone() }
    }
}

/// Where the daemon can be attached to. Each runtime uses one of both.
#[derive(Debug, PartialEq, Eq)]
pub struct AttachEndpoints {
    pub unix: Option<String>,
    pub tcp: Option<AttachAddress>,
}

impl AttachEndpoints {
    /// Takes what the daemon listens on.
    pub fn new(unix: Option<String>, tcp: Option<AttachAddress>) -> (endpoints: Self)
        ensures
            endpoints.unix == unix,
            endpoints.tcp == tcp,
    {
        AttachEndpoints { unix, tcp }
    }

    /// The socket to attach to.
    pub fn attach_unix(&self) -> (path: Result<&str, String>)
        ensures
            match path {
                Ok(path) => crate::text::opt_text(self.unix) == Some(path@),
                Err(text) => self.unix is None && text@
                    == "daemon has no Unix filesystem attach listener"@,
            },
    {
        match &self.unix {
            Some(path) => Ok(path.as_str()),
            None => Err("daemon has no Unix filesystem attach listener".to_owned()),
        }
    }

    /// The address to attach to.
    pub fn attach_tcp(&self) -> (address: Result<AttachAddress, String>)
        ensures
            match address {
                Ok(address) => self.tcp == Some(address),
                Err(text) => self.tcp is None && text@
                    == "daemon has no TCP filesystem attach listener"@,
            },
    {
        match &self.tcp {
            Some(address) => Ok(address.clone()),
            None => Err("daemon has no TCP filesystem attach listener".to_owned()),
        }
    }
}

/// The error of work that failed and was rolled back, or could not be.
pub open spec fn rolled_back_text(
    primary: Seq<char>,
    cleanup: Result<(), Seq<char>>,
    what: Seq<char>,
) -> Seq<char> {
    match cleanup {
        Ok(_) => primary,
        Err(error) => what + " also could not be cleaned up: "@ + error + ": "@ + primary,
    }
}

/// Fails with the primary error, and tells of a rollback that failed too.
pub fn err_after_rollback<T>(primary: String, cleanup: Result<(), String>, what: &str) -> (failed:
    Result<T, String>)
    ensures
        failed matches Err(text) && text@ == rolled_back_text(
            primary@,
            crate::serving_reconciler::pass::result_of(cleanup),
            what@,
        ),
{
    match cleanup {
        Ok(_) => Err(primary),
        Err(error) => {
            let text = concat3(what, " also could not be cleaned up: ", error.as_str());
            Err(concat3(text.as_str(), ": ", primary.as_str()))
        },
    }
}

/// The backend that one runtime is driven through.
#[derive(Debug, PartialEq, Eq)]
pub enum Backend {
    Host,
    Docker(DockerTarget),
    Libkrun,
}

/// [`Backend`] by what it stands for.
pub enum BackendView {
    Host,
    Docker(TargetView),
    Libkrun,
}

impl View for Backend {
    type V = BackendView;

    open spec fn view(&self) -> BackendView {
        match self {
            Backend::Host => BackendView::Host,
            Backend::Docker(target) => BackendView::Docker(target@),
            Backend::Libkrun => BackendView::Libkrun,
        }
    }
}

/// What a guest runtime asks of a specification, if it is not met: FUSE, at
/// the fixed location.
pub open spec fn guest_error(runtime: Seq<char>, spec: SpecView) -> Option<Seq<char>> {
    if spec.protocol != FilesystemProtocol::Fuse {
        Some(runtime + " runtime requires the fuse protocol"@)
    } else if crate::text::path_parts(spec.location) != crate::text::path_parts(
        FILESYSTEM_GUEST_LOCATION@,
    ) {
        Some(runtime + " runtime requires location "@ + FILESYSTEM_GUEST_LOCATION@)
    } else {
        None
    }
}

fn check_guest(runtime: &str, spec: &FilesystemSpec) -> (checked: Result<(), String>)
    ensures
        match checked {
            Ok(_) => guest_error(runtime@, spec@) is None,
            Err(text) => guest_error(runtime@, spec@) == Some(text@),
        },
{
    if spec.protocol != FilesystemProtocol::Fuse {
        return Err(concat(runtime, " runtime requires the fuse protocol"));
    }
    if !same_path(spec.location.as_str(), FILESYSTEM_GUEST_LOCATION) {
        return Err(
            concat3(runtime, " runtime requires location ", FILESYSTEM_GUEST_LOCATION),
        );
    }
    Ok(())
}

/// The backend of a specification, or why it has none.
pub open spec fn backend_of(
    paths: PathsView,
    filesystem: Seq<char>,
    spec: SpecView,
    supported: bool,
    environment: Option<Seq<char>>,
    channel: BuildChannel,
) -> Result<BackendView, Seq<char>> {
    if !supported {
        Err(
            spec.protocol.spelling() + "/"@ + spec.runtime.spelling()
                + " is not supported on this daemon host"@,
        )
    } else {
        match spec.runtime {
            FilesystemRuntime::Host => Ok(BackendView::Host),
            FilesystemRuntime::Docker => match guest_error("Docker"@, spec) {
                Some(text) => Err(text),
                None => {
                    let image = crate::fs_runtime::image::resolved_reference(
                        None,
                        environment,
                        spec.docker_image,
                        crate::fs_runtime::docker::default_image_of(channel),
                    );
                    if crate::text::is_blank_text(image) {
                        Err(crate::fs_runtime::image::empty_reference())
                    } else {
                        match crate::fs_runtime::docker::target_of(
                            crate::fs_runtime::docker::container_name_text(
                                paths.profile_root,
                                filesystem,
                                paths.is_default_profile,
                            ),
                            image,
                        ) {
                            Ok(target) => Ok(BackendView::Docker(target)),
                            Err(text) => Err(text),
                        }
                    }
                },
            },
            FilesystemRuntime::Libkrun => match guest_error("libkrun"@, spec) {
                Some(text) => Err(text),
                None => Ok(BackendView::Libkrun),
            },
        }
    }
}

/// An optional text, borrowed.
fn borrowed(text: &Option<String>) -> (borrowed: Option<&str>)
    ensures
        crate::fs_runtime::image::opt_str(borrowed) == crate::text::opt_text(*text),
{
    match text {
        Some(text) => Some(text.as_str()),
        None => None,
    }
}

/// One exact configured runtime.
#[derive(Debug, PartialEq, Eq)]
pub struct RuntimeDriver {
    pub filesystem: ResourceName,
    pub spec: FilesystemSpec,
    pub paths: FilesystemRuntimePaths,
    pub backend: Backend,
}

impl RuntimeDriver {
    /// Chooses the backend of a specification, given whether this host
    /// supports the pair of protocol and runtime, and the image that the
    /// environment names.
    pub fn new(
        paths: &RuntimePaths,
        filesystem: ResourceName,
        spec: FilesystemSpec,
        supported: bool,
        environment: Option<String>,
        channel: BuildChannel,
    ) -> (driver: Result<Self, String>)
        ensures
            ({
                let backend = backend_of(
                    paths@,
                    filesystem@,
                    spec@,
                    supported,
                    crate::text::opt_text(environment),
                    channel,
                );
                match driver {
                    Ok(driver) => backend == Ok::<BackendView, Seq<char>>(driver.backend@)
                        && driver.filesystem@ == filesystem@ && driver.spec@ == spec@
                        && driver.paths@ == filesystem_paths(paths@, filesystem@),
                    Err(text) => backend == Err::<BackendView, Seq<char>>(text@),
                }
            }),
    {
        if !supported {
            let pair = concat3(spec.protocol.as_str(), "/", spec.runtime.as_str());
            return Err(concat(pair.as_str(), " is not supported on this daemon host"));
        }
        let backend = match spec.runtime {
            FilesystemRuntime::Host => Backend::Host,
            FilesystemRuntime::Docker => {
                if let Err(text) = check_guest("Docker", &spec) {
                    return Err(text);
                }
                let configured = borrowed(&spec.docker_image);
                match DockerTarget::for_filesystem(
                    paths.profile_root.as_str(),
                    paths.is_default_profile,
                    &filesystem,
                    environment,
                    configured,
                    channel,
                ) {
                    Ok(target) => Backend::Docker(target),
                    Err(text) => {
                        return Err(text);
                    },
                }
            },
            FilesystemRuntime::Libkrun => {
                if let Err(text) = check_guest("libkrun", &spec) {
                    return Err(text);
                }
                Backend::Libkrun
            },
        };
        let runtime_paths = paths.filesystem(&filesystem);
        Ok(RuntimeDriver { filesystem, spec, paths: runtime_paths, backend })
    }

    /// The command line that opens a shell in the runtime, or runs a command
    /// there. A host filesystem has none: it is at hand where it is mounted.
    pub fn shell_command(
        &self,
        interactive: bool,
        shell_override: Option<&str>,
        trailing: &Vec<String>,
    ) -> (command: Option<Vec<String>>)
        ensures
            match (self.backend@, command) {
                (BackendView::Host, None) => true,
                (BackendView::Docker(target), Some(command)) => crate::text::texts(command@)
                    == crate::fs_runtime::docker::shell_line(
                    target.container_name,
                    interactive,
                    crate::fs_runtime::image::opt_str(shell_override),
                    crate::text::texts(trailing@),
                ),
                (BackendView::Libkrun, Some(command)) => crate::text::texts(command@)
                    == (LibkrunRunner { dir: self.paths.libkrun_root }).shell_line(
                    crate::fs_runtime::image::opt_str(shell_override),
                    crate::text::texts(trailing@),
                ),
                _ => false,
            },
    {
        match &self.backend {
            Backend::Host => None,
            Backend::Docker(target) => Some(
                shell_command(&target.container_name, interactive, shell_override, trailing),
            ),
            Backend::Libkrun => {
                let runner = LibkrunRunner::new(self.paths.libkrun_root.clone());
                Some(runner.shell_command(shell_override, trailing))
            },
        }
    }

    /// The stage that a launch of this runtime is in.
    pub open spec fn launching(runtime: FilesystemRuntime) -> RuntimeStage {
        match runtime {
            FilesystemRuntime::Host => RuntimeStage::StartProcess,
            FilesystemRuntime::Docker => RuntimeStage::StartContainer,
            FilesystemRuntime::Libkrun => RuntimeStage::StartVm,
        }
    }

    /// The stage that a launch of this runtime is in.
    pub fn launch_stage(&self) -> (stage: RuntimeStage)
        ensures
            stage == Self::launching(self.spec.runtime),
    {
        match self.spec.runtime {
            FilesystemRuntime::Host => RuntimeStage::StartProcess,
            FilesystemRuntime::Docker => RuntimeStage::StartContainer,
            FilesystemRuntime::Libkrun => RuntimeStage::StartVm,
        }
    }

    /// What is told of a stage of this runtime.
    pub fn stage_event(&self, stage: RuntimeStage, state: RuntimeState) -> (event: RuntimeEvent)
        ensures
            event@ == (FactView::Stage {
                stage,
                runtime: self.spec.runtime,
                filesystem: self.filesystem@,
                state,
            }),
    {
        RuntimeEvent::Stage {
            stage,
            runtime: self.spec.runtime,
            filesystem: self.filesystem.clone(),
            state,
        }
    }

    /// Takes what a backend proved for what it is: the instance it names must
    /// be the expected one. Docker's proof includes the instance already.
    pub fn accept_confirmed(&self, confirmed: ConfirmedRuntime, runtime_instance: &str) -> (accepted:
        Result<ConfirmedRuntime, String>)
        ensures
            match accepted {
                Ok(runtime) => runtime == confirmed && (confirmed is Docker || confirmed.instance()
                    == runtime_instance@),
                Err(text) => !(confirmed is Docker) && confirmed.instance() != runtime_instance@
                    && text@ == (if confirmed is Host {
                    "host runtime instance changed before exact confirmation"@
                } else {
                    "libkrun runtime instance changed before exact confirmation"@
                }),
            },
    {
        let unchanged = same_text(confirmed.runtime_instance(), runtime_instance);
        match &confirmed {
            ConfirmedRuntime::Host(_) => {
                if !unchanged {
                    return Err(
                        "host runtime instance changed before exact confirmation".to_owned(),
                    );
                }
            },
            ConfirmedRuntime::Docker(_, _) => {},
            ConfirmedRuntime::Libkrun(_, _) => {
                if !unchanged {
                    return Err(
                        "libkrun runtime instance changed before exact confirmation".to_owned(),
                    );
                }
            },
        }
        Ok(confirmed)
    }

    /// Refuses to stop what was proved through another backend.
    pub fn check_stop(&self, confirmed: &ConfirmedRuntime) -> (checked: Result<(), String>)
        ensures
            match checked {
                Ok(_) => {
                    ||| self.backend is Host && *confirmed is Host
                    ||| self.backend is Docker && *confirmed is Docker
                    ||| self.backend is Libkrun && *confirmed is Libkrun
                },
                Err(text) => {
                    &&& !(self.backend is Host && *confirmed is Host)
                    &&& !(self.backend is Docker && *confirmed is Docker)
                    &&& !(self.backend is Libkrun && *confirmed is Libkrun)
                    &&& text@
                        == "confirmed identity belongs to a different filesystem driver than `"@
                        + self.filesystem@ + "`"@
                },
            },
    {
        match (&self.backend, confirmed) {
            (Backend::Host, ConfirmedRuntime::Host(_)) => Ok(()),
            (Backend::Docker(_), ConfirmedRuntime::Docker(_, _)) => Ok(()),
            (Backend::Libkrun, ConfirmedRuntime::Libkrun(_, _)) => Ok(()),
            _ => Err(
                concat3(
                    "confirmed identity belongs to a different filesystem driver than `",
                    self.filesystem.as_str(),
                    "`",
                ),
            ),
        }
    }

    /// What is told of a failure of this runtime.
    pub fn failure_event(stage: RuntimeStage, message: &str) -> (event: RuntimeEvent)
        ensures
            event@ == (FactView::Failed { stage, message: message@ }),
    {
        RuntimeEvent::Failed { stage, message: message.to_owned() }
    }
}

/// One runtime that a scan of all backends found.
#[allow(inconsistent_fields)]
#[derive(Debug, PartialEq, Eq)]
pub enum Candidate {
    Host { state_dir: String, record: RunnerRecord, confirmed: Result<RunnerPhase, String> },
    Docker(OwnedFilesystemContainer),
    Libkrun {
        filesystem: ResourceName,
        state_dir: String,
        confirmed: Result<Option<HelperRecord>, String>,
    },
    Invalid { backend: String, target: Option<String>, error: String },
    ListingFailed { backend: String, error: String },
}

/// Everything that the backends listed: one listing that failed hides none of
/// the others.
pub fn owned_filesystems(
    host: Result<Vec<Candidate>, String>,
    docker: Option<Result<Vec<Candidate>, String>>,
    libkrun: Vec<Candidate>,
) -> (candidates: Vec<Candidate>)
    ensures
        ({
            let host_part = match host {
                Ok(owned) => owned@.len(),
                Err(_) => 1,
            };
            let docker_part = match docker {
                Some(Ok(owned)) => owned@.len(),
                Some(Err(_)) => 1,
                None => 0,
            };
            &&& candidates@.len() == host_part + docker_part + libkrun@.len()
            &&& match host {
                Ok(owned) => candidates@.take(owned@.len() as int) == owned@,
                Err(error) => candidates@[0] matches Candidate::ListingFailed {
                    backend,
                    error: shown,
                } && backend@ == "host"@ && shown@ == error@,
            }
            &&& match docker {
                Some(Ok(owned)) => candidates@.subrange(
                    host_part as int,
                    (host_part + owned@.len()) as int,
                ) == owned@,
                Some(Err(error)) => candidates@[host_part as int] matches Candidate::ListingFailed {
                    backend,
                    error: shown,
                } && backend@ == "docker"@ && shown@ == error@,
                None => true,
            }
            &&& candidates@.skip((host_part + docker_part) as int) == libkrun@
        }),
{
    let mut candidates: Vec<Candidate> = Vec::new();
    match host {
        Ok(owned) => {
            candidates = owned;
        },
        Err(error) => candidates.push(
            Candidate::ListingFailed { backend: "host".to_owned(), error },
        ),
    }
    let ghost first = candidates@;
    match docker {
        Some(Ok(owned)) => {
            let mut owned = owned;
            let ghost listed = owned@;
            candidates.append(&mut owned);
            assert(candidates@.skip(first.len() as int) =~= listed);
        },
        Some(Err(error)) => candidates.push(
            Candidate::ListingFailed { backend: "docker".to_owned(), error },
        ),
        None => {},
    }
    let ghost second = candidates@;
    let mut rest = libkrun;
    candidates.append(&mut rest);
    proof {
        assert(candidates@.take(first.len() as int) =~= first);
        assert(candidates@.take(second.len() as int) =~= second);
        assert(candidates@.skip(second.len() as int) =~= libkrun@);
        assert(candidates@.subrange(first.len() as int, second.len() as int) =~= second.skip(
            first.len() as int,
        ));
    }
    candidates
}

/// A listed container as a candidate.
pub fn docker_candidate(listed: ListedContainer) -> (candidate: Candidate)
    ensures
        match candidate {
            Candidate::Docker(owned) => crate::text::opt_text(listed.id) == Some(
                owned.identity.id@,
            ) && owned.identity.runtime_instance@ == Seq::<char>::empty()
                && crate::text::opt_text(listed.filesystem_label) == Some(owned.filesystem_id@)
                && crate::text::texts(owned.names@) == (match listed.names {
                Some(names) => crate::text::texts(names@),
                None => Seq::empty(),
            }),
            Candidate::Invalid { backend, target, error } => backend@ == "docker"@ && (
            listed.id is None || listed.filesystem_label is None) && error@ == (
            if listed.id is None {
                "Docker did not return an immutable container ID"@
            } else {
                "Filesystem container has no filesystem identity label"@
            }) && crate::text::opt_text(target) == (if listed.filesystem_label is Some {
                crate::text::opt_text(listed.filesystem_label)
            } else {
                crate::text::opt_text(listed.id)
            }),
            _ => false,
        },
{
    match crate::fs_runtime::docker::judge_listed(listed) {
        ListedOutcome::Owned(owned) => Candidate::Docker(owned),
        ListedOutcome::Invalid { target, error } => Candidate::Invalid {
            backend: "docker".to_owned(),
            target,
            error,
        },
    }
}

/// A live instance whose exact runtime identity was proved.
#[derive(Debug, PartialEq, Eq)]
pub enum ConfirmedRuntime {
    Host(RunnerRecord),
    Docker(DockerContainerIdentity, bool),
    Libkrun(HelperRecord, bool),
}

impl ConfirmedRuntime {
    /// The instance that the proof names.
    pub open spec fn instance(&self) -> Seq<char> {
        match self {
            ConfirmedRuntime::Host(record) => record.instance_id@,
            ConfirmedRuntime::Docker(identity, _) => identity.runtime_instance@,
            ConfirmedRuntime::Libkrun(record, _) => record.instance_id@,
        }
    }

    /// Whether the proved runtime can still establish a session. A host proof
    /// includes its liveness; the guest runtimes report it apart.
    pub open spec fn running(&self) -> bool {
        match self {
            ConfirmedRuntime::Host(_) => true,
            ConfirmedRuntime::Docker(_, running) => *running,
            ConfirmedRuntime::Libkrun(_, running) => *running,
        }
    }

    /// The instance that the proof names.
    pub fn runtime_instance(&self) -> (instance: &str)
        ensures
            instance@ == self.instance(),
    {
        match self {
            ConfirmedRuntime::Host(record) => record.instance_id.as_str(),
            ConfirmedRuntime::Docker(identity, _) => identity.runtime_instance.as_str(),
            ConfirmedRuntime::Libkrun(record, _) => record.instance_id.as_str(),
        }
    }

    /// Whether the proved runtime can still establish a session.
    pub fn is_running(&self) -> (running: bool)
        ensures
            running == self.running(),
    {
        match self {
            ConfirmedRuntime::Host(_) => true,
            ConfirmedRuntime::Docker(_, running) => *running,
            ConfirmedRuntime::Libkrun(_, running) => *running,
        }
    }
}

} // verus!
