//! What proves that a runtime is the one that was launched.
use omnifs_daemon::digest::{
    drawn_instance, new_runtime_instance, runtime_instance, short_digest,
};
use omnifs_daemon::filesystem_supervisor::cycle::{CycleAction, CycleEvent, SupervisorCycle};
use omnifs_daemon::filesystem_supervisor::pass::{ConfirmedSession, ProbeOutcome};
use omnifs_daemon::filesystem_supervisor::stop::{
    judge_session, remaining_filesystems, resume_stop, session, session_remains, stop_exact,
    Shutdown, ShutdownNext, ShutdownReply, ShutdownRequest, StopAll, StopError, StopNext,
    StopReply, StopRequest,
};
use omnifs_daemon::filesystem_supervisor::{FilesystemInstance, FilesystemPhase};
use omnifs_daemon::fs_runtime::docker::launch::{
    DockerLaunch, ImageFound, LaunchAsk, LaunchReply,
};
use omnifs_daemon::fs_runtime::docker::{
    confirm_command, confirm_labels, filesystem_command, judge_listed, shell_command, stop_target,
    ContainerInspection, DockerContainerIdentity, DockerTarget, ListedContainer, ListedOutcome,
};
use omnifs_daemon::fs_runtime::driver::{
    docker_candidate, AttachAddress, Candidate, ConfirmedRuntime, RuntimeDriver, RuntimePaths,
};
use omnifs_daemon::fs_runtime::events::{
    Artifact, RuntimeEvent, RuntimeStage, RuntimeState,
};
use omnifs_daemon::fs_runtime::guest_image::{
    download_ended, retry_event, CachedImage, DownloadProgress,
};
use omnifs_daemon::fs_runtime::host::{
    self, unconfirmed_runner, HostProof, RunnerRecord,
};
use omnifs_daemon::fs_runtime::identity::Identity;
use omnifs_daemon::fs_runtime::image::{
    reads_as_missing, resolve_image_reference, BuildChannel,
};
use omnifs_daemon::fs_runtime::libkrun::launch::{
    exited_before_ready, exited_before_record, record_timeout, GuestAsk, GuestLaunch, GuestReply,
};
use omnifs_daemon::fs_runtime::libkrun::seed::{lines, seed_failure};
use omnifs_daemon::fs_runtime::libkrun::stop::{
    detached_step, detached_timeout, DetachedStep, Teardown, TeardownAsk, TeardownReply,
};
use omnifs_daemon::fs_runtime::libkrun::{
    self, check_started, confirm_record, guest_candidate, judge_running, judge_scanned,
    HelperRecord, LibkrunRunner, ScannedGuest,
};
use omnifs_daemon::name::{
    FilesystemProtocol, FilesystemRuntime, FilesystemSpec, FilesystemVersion, ResourceName,
};
use omnifs_daemon::text::{same_path, trim};

fn name() -> ResourceName {
    ResourceName::new("work")
}

fn spec(runtime: FilesystemRuntime) -> FilesystemSpec {
    FilesystemSpec {
        protocol: FilesystemProtocol::Fuse,
        runtime,
        location: "/omnifs".to_owned(),
        docker_image: None,
        libkrun_guest_image: None,
    }
}

fn inspection() -> ContainerInspection {
    ContainerInspection {
        id: Some("c1".to_owned()),
        running: Some(true),
        home_label: Some("/home/u".to_owned()),
        filesystem_label: Some("work".to_owned()),
        command: Some(filesystem_command(&name(), &spec(FilesystemRuntime::Docker), "i1")),
    }
}

fn identity(id: &str, instance: &str) -> DockerContainerIdentity {
    DockerContainerIdentity { id: id.to_owned(), runtime_instance: instance.to_owned() }
}

fn runner_record() -> RunnerRecord {
    RunnerRecord {
        version: 1,
        instance_id: "i1".to_owned(),
        pid: 7,
        process_group: 7,
        filesystem: name(),
        spec: spec(FilesystemRuntime::Host),
        control_socket: "/run/c.sock".to_owned(),
    }
}

fn helper(pid: u32) -> HelperRecord {
    HelperRecord {
        pid,
        instance_id: "i1".to_owned(),
        filesystem: name(),
        spec: spec(FilesystemRuntime::Libkrun),
    }
}

#[test]
fn locations_are_compared_as_paths() {
    for (a, b) in [
        ("/omnifs", "/omnifs/"),
        ("/omnifs", "//omnifs/."),
        ("/a/b", "/a/./b"),
        ("a/b", "a//b"),
        ("", ""),
        ("./a", "./a/"),
        ("/", "//"),
    ] {
        assert!(same_path(a, b), "{a} {b}");
        assert_eq!(std::path::Path::new(a), std::path::Path::new(b));
    }
    for (a, b) in [
        ("/omnifs", "omnifs"),
        ("/a/b", "/a/../b"),
        ("a", "./a"),
        ("", "."),
        ("/", ""),
        ("/a", "/ab"),
        ("..", "."),
    ] {
        assert!(!same_path(a, b), "{a} {b}");
        assert_ne!(std::path::Path::new(a), std::path::Path::new(b));
    }
    let mut slashed = runner_record();
    slashed.spec.location.push('/');
    assert!(slashed.spec.same(&runner_record().spec));
    slashed.control_socket = "/run/./c.sock".to_owned();
    assert!(slashed.is_same(&runner_record()));
    slashed.pid += 1;
    assert!(!slashed.is_same(&runner_record()));
    let mut guest = helper(7);
    guest.spec.location.push('/');
    assert!(guest.is_same(&helper(7)));
}

#[test]
fn an_instance_is_spelled_from_sixteen_bytes() {
    assert_eq!(runtime_instance(&[0xab; 16]), "ab".repeat(16));
    assert_eq!(drawn_instance(Ok([0xab; 16])), Some("ab".repeat(16)));
    assert_eq!(drawn_instance(Err(())), None);
    let drawn = new_runtime_instance().unwrap();
    assert_eq!(drawn.len(), 32);
    assert!(drawn.chars().all(|c| c.is_ascii_hexdigit()));
    assert_ne!(drawn, new_runtime_instance().unwrap());
    assert_eq!(short_digest("abc", 4), "ba7816bf");
}

#[test]
fn a_container_belongs_to_the_profile_and_filesystem_on_its_labels() {
    assert_eq!(confirm_labels(&inspection(), "/home/u", &name()), Ok(("c1".to_owned(), true)));
    let stopped = ContainerInspection { running: None, ..inspection() };
    assert_eq!(confirm_labels(&stopped, "/home/u", &name()), Ok(("c1".to_owned(), false)));
    let unowned = ContainerInspection { home_label: None, ..inspection() };
    assert_eq!(
        confirm_labels(&unowned, "/home/u", &name()).unwrap_err(),
        "filesystem container has no profile ownership label"
    );
    assert_eq!(
        confirm_labels(&inspection(), "/home/v", &name()).unwrap_err(),
        "filesystem container profile label `/home/u` does not match `/home/v`"
    );
    let unnamed = ContainerInspection { filesystem_label: None, ..inspection() };
    assert_eq!(
        confirm_labels(&unnamed, "/home/u", &name()).unwrap_err(),
        "filesystem container has no filesystem identity label"
    );
    assert_eq!(
        confirm_labels(&inspection(), "/home/u", &ResourceName::new("play")).unwrap_err(),
        "filesystem container identity label `work` does not match `play`"
    );
    let nameless = ContainerInspection { id: None, ..inspection() };
    assert_eq!(
        confirm_labels(&nameless, "/home/u", &name()).unwrap_err(),
        "Docker inspect returned no immutable container ID"
    );
}

#[test]
fn a_container_is_confirmed_by_its_exact_command() {
    let docker = spec(FilesystemRuntime::Docker);
    let confirm = |inspection: &ContainerInspection, id: &str, instance: &str| {
        confirm_command(inspection, id.to_owned(), &name(), &docker, instance)
    };
    assert_eq!(confirm(&inspection(), "c1", "i1"), Ok(identity("c1", "i1")));
    assert_eq!(
        confirm(&inspection(), "c2", "i1").unwrap_err(),
        "filesystem container changed during exact identity confirmation"
    );
    assert_eq!(
        confirm(&inspection(), "c1", "i2").unwrap_err(),
        "filesystem container command does not match configured spec `work`"
    );
    assert_eq!(stop_target(None, &identity("c1", "i1")), Ok(None));
    assert_eq!(
        stop_target(Some(&identity("c1", "i1")), &identity("c1", "i1")),
        Ok(Some("c1".to_owned()))
    );
    assert!(stop_target(Some(&identity("c2", "i1")), &identity("c1", "i1")).is_err());
}

#[test]
fn a_listed_container_needs_an_identity() {
    let listed = |id: Option<&str>, label: Option<&str>| ListedContainer {
        id: id.map(str::to_owned),
        filesystem_label: label.map(str::to_owned),
        names: Some(vec!["/omnifs-fs-work".to_owned()]),
    };
    match judge_listed(listed(Some("c1"), Some("work"))) {
        ListedOutcome::Owned(owned) => {
            assert_eq!(owned.identity, identity("c1", ""));
            assert_eq!(owned.filesystem_id, "work");
            assert_eq!(owned.names, vec!["/omnifs-fs-work"]);
        }
        ListedOutcome::Invalid { .. } => panic!("the container is owned"),
    }
    assert_eq!(
        judge_listed(listed(None, Some("work"))),
        ListedOutcome::Invalid {
            target: Some("work".to_owned()),
            error: "Docker did not return an immutable container ID".to_owned(),
        }
    );
    assert_eq!(
        docker_candidate(listed(Some("c1"), None)),
        Candidate::Invalid {
            backend: "docker".to_owned(),
            target: Some("c1".to_owned()),
            error: "Filesystem container has no filesystem identity label".to_owned(),
        }
    );
}

fn driver(runtime: FilesystemRuntime) -> RuntimeDriver {
    let paths = RuntimePaths::daemon_owned(
        "/home/u".to_owned(),
        true,
        "/state".to_owned(),
        "/logs".to_owned(),
        "/images".to_owned(),
        "/bin/omnifs".to_owned(),
    );
    assert_eq!(paths.profile_root(), "/home/u");
    assert!(paths.is_default_profile());
    assert_eq!(paths.state_root(), "/state");
    let mut spec = spec(runtime);
    if runtime == FilesystemRuntime::Docker {
        spec.docker_image = Some("omnifs-filesystem:dev".to_owned());
    }
    if runtime == FilesystemRuntime::Libkrun {
        spec.libkrun_guest_image = Some("guest.raw".to_owned());
    }
    RuntimeDriver::new(&paths, name(), spec, true, None, BuildChannel::Dev).unwrap()
}

#[test]
fn a_driver_takes_only_its_own_instance() {
    let host = driver(FilesystemRuntime::Host);
    assert_eq!(host.launch_stage(), RuntimeStage::StartProcess);
    assert_eq!(driver(FilesystemRuntime::Docker).launch_stage(), RuntimeStage::StartContainer);
    let guest = driver(FilesystemRuntime::Libkrun);
    assert_eq!(guest.launch_stage(), RuntimeStage::StartVm);
    let proved = || ConfirmedRuntime::Host(runner_record());
    assert_eq!(host.accept_confirmed(proved(), "i1"), Ok(proved()));
    assert_eq!(
        host.accept_confirmed(proved(), "i2").unwrap_err(),
        "host runtime instance changed before exact confirmation"
    );
    assert_eq!(
        guest.accept_confirmed(ConfirmedRuntime::Libkrun(helper(7), true), "i2").unwrap_err(),
        "libkrun runtime instance changed before exact confirmation"
    );
    assert_eq!(host.check_stop(&proved()), Ok(()));
    assert_eq!(
        guest.check_stop(&proved()).unwrap_err(),
        "confirmed identity belongs to a different filesystem driver than `work`"
    );
    assert_eq!(
        RuntimeDriver::failure_event(RuntimeStage::Probe, "gone"),
        RuntimeEvent::Failed { stage: RuntimeStage::Probe, message: "gone".to_owned() }
    );
    assert_eq!(
        host.stage_event(RuntimeStage::Stop, RuntimeState::Stopped),
        RuntimeEvent::Stage {
            stage: RuntimeStage::Stop,
            runtime: FilesystemRuntime::Host,
            filesystem: name(),
            state: RuntimeState::Stopped,
        }
    );
}

#[test]
fn a_host_record_is_held_against_its_filesystem() {
    let host_spec = spec(FilesystemRuntime::Host);
    assert_eq!(host::judge_record(None, &name(), &host_spec, false), Ok(HostProof::Absent));
    assert_eq!(
        host::judge_record(None, &name(), &host_spec, true).unwrap_err(),
        "host filesystem state exists at /omnifs without a runner record; run `omnifs doctor` to diagnose"
    );
    let record = runner_record();
    assert_eq!(
        host::judge_record(Some(&record), &name(), &host_spec, false),
        Ok(HostProof::Ping)
    );
    assert!(host::judge_record(Some(&record), &ResourceName::new("play"), &host_spec, false)
        .is_err());
    assert_eq!(
        unconfirmed_runner(&record, &host_spec, "refused"),
        "host filesystem at /omnifs could not confirm runner i1; run `omnifs doctor` to diagnose: refused"
    );
}

#[test]
fn an_image_is_taken_from_the_first_that_names_one() {
    let owned = |text: &str| Some(text.to_owned());
    assert_eq!(resolve_image_reference(owned("a"), owned("b"), Some("c"), "d"), "a");
    assert_eq!(resolve_image_reference(None, owned("b"), Some("c"), "d"), "b");
    assert_eq!(resolve_image_reference(None, None, Some("c"), "d"), "c");
    assert_eq!(resolve_image_reference(None, None, None, "d"), "d");
    assert!(reads_as_missing("status 404", "status 404"));
    assert!(reads_as_missing("Not Found", "not found"));
    assert!(!reads_as_missing("denied", "denied"));
}

#[test]
fn a_download_is_complete_with_its_last_byte() {
    let mut progress =
        DownloadProgress { completed: 0, total: 10, source: "ghcr.io".to_owned() };
    assert_eq!(
        progress.wrote(4),
        RuntimeEvent::Download {
            artifact: Artifact::GuestImage,
            completed_bytes: 4,
            total_bytes: Some(10),
            source: "ghcr.io".to_owned(),
        }
    );
    assert_eq!(
        progress.check_complete().unwrap_err(),
        "guest image layer size mismatch: expected 10 bytes, got 4"
    );
    progress.wrote(6);
    assert_eq!(progress.check_complete(), Ok(10));
    assert_eq!(
        download_ended("v1", None),
        RuntimeEvent::DownloadFailed { artifact: Artifact::GuestImage, reference: None }
    );
    assert_eq!(
        download_ended("v1", Some(10)),
        RuntimeEvent::DownloadFinished {
            artifact: Artifact::GuestImage,
            reference: "v1".to_owned(),
            completed_bytes: Some(10),
        }
    );
    let cached = CachedImage {
        tag: "v1".to_owned(),
        raw_path: "/images/v1.raw".to_owned(),
        compressed_path: "/images/v1.raw.zst".to_owned(),
    };
    assert_eq!(
        retry_event(&cached, "damaged"),
        RuntimeEvent::ImageRetry {
            artifact: Artifact::GuestImage,
            path: "/images/v1.raw.zst".to_owned(),
            reason: "damaged".to_owned(),
        }
    );
}

#[test]
fn a_guest_keeps_its_files_in_one_directory() {
    let runner = LibkrunRunner::new("/g".to_owned());
    assert_eq!(runner.ssh_key_path(), "/g/id_ed25519");
    assert_eq!(runner.ssh_pubkey_path(), "/g/id_ed25519.pub");
    assert_eq!(runner.seed_staging(), "/g/seed-staging");
    let artifacts = runner.owned_artifacts();
    assert_eq!(
        artifacts,
        vec![
            runner.root_raw(),
            runner.seed_iso(),
            runner.ssh_socket(),
            runner.ready_socket(),
            runner.control_socket(),
            runner.attach_bridge_socket(),
            runner.serial_log(),
            runner.diagnostic_log(),
        ]
    );
    assert!(!artifacts.contains(&runner.ssh_key_path()));
    assert!(!artifacts.contains(&runner.pidfile()));
    assert!(LibkrunRunner::is_root_part("root.raw.part.7-1"));
    assert!(!LibkrunRunner::is_root_part("root.raw"));
    let left = |names: &[&str]| {
        let names: Vec<String> = names.iter().map(|name| (*name).to_owned()).collect();
        LibkrunRunner::has_operational_state(&names)
    };
    assert!(!left(&["id_ed25519", "id_ed25519.pub"]));
    assert!(left(&["id_ed25519", "root.raw.part.7-1"]));
    assert!(left(&["seed-staging"]));
    assert_eq!(runner.check_sockets("/run/attach.sock"), Ok(()));
    assert!(runner.check_sockets(&"/x".repeat(60)).is_err());
}

#[test]
fn the_end_of_the_log_is_shown() {
    let runner = LibkrunRunner::new("/g".to_owned());
    assert_eq!(LibkrunRunner::diagnostic_start(10), 0);
    assert_eq!(LibkrunRunner::diagnostic_start(32_770), 2);
    assert_eq!(runner.diagnostic_tail(None), "helper log: /g/helper.log");
    assert_eq!(runner.diagnostic_tail(Some(" \n")), "helper log is empty: /g/helper.log");
    assert_eq!(runner.diagnostic_tail(Some(" boom \n")), "helper log /g/helper.log:\nboom");
    assert_eq!(trim("\t a b \u{a0}"), "a b");
    assert_eq!(
        exited_before_record("exit status: 1", "/g/helper.json", "tail"),
        "omnifs-libkrun exited with exit status: 1 before publishing /g/helper.json;\ntail"
    );
    assert_eq!(
        record_timeout("/g/helper.json", "tail"),
        "omnifs-libkrun did not publish /g/helper.json within 5s;\ntail"
    );
    assert_eq!(
        exited_before_ready("exit status: 1", "tail"),
        "omnifs-libkrun exited with exit status: 1 before guest readiness;\ntail"
    );
    assert_eq!(
        seed_failure("exit status: 1", " no space\n"),
        "hdiutil makehybrid exited with exit status: 1: no space"
    );
    assert_eq!(
        seed_failure("exit status: 1", "\n"),
        "hdiutil makehybrid exited with exit status: 1"
    );
    assert_eq!(lines("a\nb\r\n\nc"), vec!["a", "b", "", "c"]);
}

#[test]
fn a_started_helper_is_held_to_its_record() {
    let guest = spec(FilesystemRuntime::Libkrun);
    assert_eq!(check_started(&helper(7), 7, &guest, "i1"), Ok(()));
    assert_eq!(
        check_started(&helper(7), 8, &guest, "i1").unwrap_err(),
        "libkrun helper record named pid 7, but the spawned process is 8"
    );
    assert_eq!(
        check_started(&helper(7), 7, &spec(FilesystemRuntime::Docker), "i1").unwrap_err(),
        "libkrun helper record did not match the resolved filesystem spec"
    );
    assert_eq!(
        check_started(&helper(7), 7, &guest, "i2").unwrap_err(),
        "libkrun helper record did not match the launch instance"
    );
    assert_eq!(confirm_record(Ok(helper(7)), &helper(7)), Ok(()));
    assert_eq!(
        confirm_record(Ok(helper(8)), &helper(7)).unwrap_err(),
        "libkrun helper record and control identity do not match"
    );
    assert_eq!(
        confirm_record(Err("refused".to_owned()), &helper(7)).unwrap_err(),
        "prove libkrun helper identity: refused"
    );
}

#[test]
fn a_guest_without_a_record_leaves_nothing_behind() {
    let guest = spec(FilesystemRuntime::Libkrun);
    assert_eq!(libkrun::judge_record(None, &name(), &guest, false, "/g"), Ok(false));
    assert_eq!(
        libkrun::judge_record(None, &name(), &guest, true, "/g").unwrap_err(),
        "libkrun filesystem state exists at /g without a helper record"
    );
    assert_eq!(
        libkrun::judge_record(Some(&helper(7)), &name(), &guest, true, "/g"),
        Ok(true)
    );
    assert_eq!(
        libkrun::judge_record(Some(&helper(7)), &ResourceName::new("play"), &guest, true, "/g")
            .unwrap_err(),
        "libkrun helper record does not match configured Filesystem `play`"
    );
    assert_eq!(judge_running(true, Ok(()), false), Ok(true));
    assert_eq!(judge_running(false, Ok(()), false), Ok(false));
    assert_eq!(judge_running(true, Err("refused".to_owned()), true), Ok(false));
    assert_eq!(
        judge_running(true, Err("refused".to_owned()), false),
        Err("refused".to_owned())
    );
}

#[test]
fn a_scan_keeps_every_guest_it_finds() {
    assert_eq!(judge_scanned(&name(), Ok(None), Ok(())), Ok(None));
    assert_eq!(judge_scanned(&name(), Ok(Some(helper(7))), Ok(())), Ok(Some(helper(7))));
    assert_eq!(
        judge_scanned(&ResourceName::new("play"), Ok(Some(helper(7))), Ok(())).unwrap_err(),
        "libkrun record belongs to Filesystem `work`"
    );
    let unproved = ScannedGuest::Recorded {
        filesystem: name(),
        state_dir: "/state/work/libkrun".to_owned(),
        record: Ok(Some(helper(7))),
        proved: Err("refused".to_owned()),
    };
    assert_eq!(
        guest_candidate(unproved, "/state"),
        Candidate::Libkrun {
            filesystem: name(),
            state_dir: "/state/work/libkrun".to_owned(),
            confirmed: Err("refused".to_owned()),
        }
    );
    assert_eq!(
        guest_candidate(ScannedGuest::Unlisted { error: "denied".to_owned() }, "/state"),
        Candidate::Invalid {
            backend: "libkrun".to_owned(),
            target: Some("/state".to_owned()),
            error: "denied".to_owned(),
        }
    );
}

fn begin_docker(image: &str) -> (DockerLaunch, LaunchAsk) {
    let target = DockerTarget::new("omnifs-fs-work".to_owned(), image.to_owned()).unwrap();
    let attach = AttachAddress {
        ipv4: Some(0x7f00_0001),
        port: 4000,
        text: "127.0.0.1:4000".to_owned(),
    };
    let (launch, step) = DockerLaunch::begin(
        target,
        "/home/u".to_owned(),
        name(),
        spec(FilesystemRuntime::Docker),
        "i1".to_owned(),
        Some(attach),
        BuildChannel::Dev,
        true,
    );
    (launch, step.ask)
}

#[test]
fn a_container_is_launched_audited_and_confirmed() {
    let (mut launch, ask) = begin_docker("ghcr.io/o/fs:1");
    assert_eq!(ask, LaunchAsk::Ping);
    let mut asks = Vec::new();
    let loopback = (0x7f00_0001, "127.0.0.1".to_owned());
    let environment = vec![
        "OMNIFS_ATTACH_ADDR=host.docker.internal:4000".to_owned(),
        "PATH=/bin".to_owned(),
    ];
    let replies = vec![
        LaunchReply::Pinged(Ok(())),
        LaunchReply::Bridge(Ok(loopback)),
        LaunchReply::Image(Ok(ImageFound::Missing)),
        LaunchReply::Pulled(Ok(())),
        LaunchReply::Existing(Ok(false)),
        LaunchReply::Created(Ok(())),
        LaunchReply::Started(Ok(())),
        LaunchReply::Lockdown(Ok((0, environment))),
        LaunchReply::Confirmed(Ok(Some(identity("c1", "i1")))),
        LaunchReply::Mount(Ok(true)),
    ];
    for reply in replies {
        asks.push(launch.resume(reply).ask);
    }
    assert_eq!(
        asks,
        vec![
            LaunchAsk::FindBridge,
            LaunchAsk::InspectImage,
            LaunchAsk::PullImage,
            LaunchAsk::InspectExisting,
            LaunchAsk::Create,
            LaunchAsk::Start,
            LaunchAsk::InspectLockdown,
            LaunchAsk::Confirm,
            LaunchAsk::AwaitMount,
            LaunchAsk::Done,
        ]
    );
}

#[test]
fn a_local_image_is_never_pulled() {
    let (mut launch, _) = begin_docker("omnifs-filesystem:dev");
    launch.resume(LaunchReply::Pinged(Ok(())));
    launch.resume(LaunchReply::Bridge(Ok((0x7f00_0001, "127.0.0.1".to_owned()))));
    let step = launch.resume(LaunchReply::Image(Ok(ImageFound::Missing)));
    assert_eq!(step.ask, LaunchAsk::Failed);
    assert!(launch.failure.contains("is not present locally"));
}

#[test]
fn a_container_that_reaches_another_address_is_not_launched() {
    let (mut launch, _) = begin_docker("omnifs-filesystem:dev");
    launch.resume(LaunchReply::Pinged(Ok(())));
    let step = launch.resume(LaunchReply::Bridge(Ok((0xac11_0001, "172.17.0.1".to_owned()))));
    assert_eq!(step.ask, LaunchAsk::Failed);
    assert!(launch.failure.contains("172.17.0.1"));
}

#[test]
fn a_shell_runs_in_the_container() {
    let (launch, _) = begin_docker("omnifs-filesystem:dev");
    let container = launch.target.container_name();
    assert_eq!(
        shell_command(container, true, None, &Vec::new()),
        vec!["docker", "exec", "-i", "-t", "-w", "/omnifs", "omnifs-fs-work", "/bin/sh"]
    );
    assert_eq!(
        shell_command(container, false, Some("/bin/zsh"), &vec!["ls".to_owned()]),
        vec!["docker", "exec", "-i", "-w", "/omnifs", "omnifs-fs-work", "ls"]
    );
}

#[test]
fn a_guest_is_ready_with_its_session() {
    let (mut launch, ask) = GuestLaunch::begin(
        LibkrunRunner::new("/g".to_owned()),
        name(),
        spec(FilesystemRuntime::Libkrun),
        "i1".to_owned(),
        Some("/run/attach.sock".to_owned()),
    );
    assert_eq!(ask, GuestAsk::ResolveImage);
    let replies = vec![
        GuestReply::Image(Ok(())),
        GuestReply::Probed(Ok(())),
        GuestReply::Replaced(Ok(())),
        GuestReply::Prepared(Ok(())),
        GuestReply::Materialized(Ok(())),
        GuestReply::Key(Ok("ssh-ed25519 AAAA omnifs-libkrun\n".to_owned())),
        GuestReply::Seeded(Ok(())),
        GuestReply::Bound(Ok(())),
        GuestReply::Spawned(Ok(7)),
        GuestReply::Record(Ok(helper(7))),
        GuestReply::Confirmed(Ok(())),
        GuestReply::Ready(Ok(true)),
        GuestReply::Session(Ok(())),
    ];
    let mut asks = Vec::new();
    for reply in replies {
        asks.push(launch.resume(reply).ask);
    }
    assert_eq!(asks.last(), Some(&GuestAsk::Done));
    assert!(asks.contains(&GuestAsk::WaitForSession));
    assert_eq!(launch.ssh_pubkey, "ssh-ed25519 AAAA omnifs-libkrun");
    assert!(launch.seed().contains("OMNIFS_SSH_PUBKEY=ssh-ed25519 AAAA omnifs-libkrun\n"));
}

#[test]
fn an_unknown_guest_is_left_alone() {
    let (mut teardown, ask) = Teardown::begin(None, None);
    assert_eq!(ask, TeardownAsk::ReadRecord);
    assert_eq!(teardown.resume(TeardownReply::Record(Ok(None))), TeardownAsk::Done);
    assert_eq!(detached_step(None, &helper(7), true), Ok(DetachedStep::Gone));
    assert_eq!(detached_step(Some(&helper(7)), &helper(7), true), Ok(DetachedStep::Wait));
    assert_eq!(detached_step(Some(&helper(7)), &helper(7), false), Ok(DetachedStep::RemoveRecord));
    assert!(detached_step(Some(&helper(8)), &helper(7), true).is_err());
    assert!(detached_timeout().contains("within 10s"));
}

#[test]
fn nothing_of_a_guest_is_removed_before_its_helper_is_gone() {
    let (mut teardown, _) = Teardown::begin(Some(helper(7)), None);
    let replies = vec![
        TeardownReply::Record(Ok(Some(helper(7)))),
        TeardownReply::Alive(true),
        TeardownReply::Confirmed(Ok(())),
        TeardownReply::ShutdownRequested(Ok(())),
        TeardownReply::Alive(true),
        TeardownReply::DetachedExited(Ok(())),
        TeardownReply::Record(Ok(None)),
        TeardownReply::Removed,
    ];
    let mut asks = Vec::new();
    for reply in replies {
        asks.push(teardown.resume(reply));
    }
    assert_eq!(
        asks,
        vec![
            TeardownAsk::CheckAlive,
            TeardownAsk::Confirm,
            TeardownAsk::RequestShutdown,
            TeardownAsk::CheckAlive,
            TeardownAsk::WaitForDetached,
            TeardownAsk::ReadRecord,
            TeardownAsk::RemoveArtifacts,
            TeardownAsk::Done,
        ]
    );
}

fn docker_runtime(running: bool) -> ConfirmedRuntime {
    ConfirmedRuntime::Docker(identity("c1", "i1"), running)
}

#[test]
fn an_exact_stop_runs_in_order() {
    let mut step = stop_exact("i1", docker_runtime(true));
    let mut asked = Vec::new();
    while let StopNext::Ask(request) = step.next {
        asked.push(request);
        step = resume_stop(step.stage, StopReply::Succeeded);
    }
    assert_eq!(step.next, StopNext::Stopped);
    assert_eq!(
        asked,
        vec![
            StopRequest::BeginSessionStop,
            StopRequest::StopRuntime { confirmed: docker_runtime(true) },
            StopRequest::ProveGone,
            StopRequest::CloseSession,
            StopRequest::AwaitAbsence,
            StopRequest::FinishSessionStop,
        ]
    );
}

#[test]
fn a_failed_stop_is_reported() {
    let step = stop_exact("i1", docker_runtime(true));
    let step = resume_stop(step.stage, StopReply::Succeeded);
    let step = resume_stop(step.stage, StopReply::Succeeded);
    let step = resume_stop(step.stage, StopReply::Present);
    assert_eq!(step.next, StopNext::Failed(StopError::StillPresent));
    assert_eq!(
        StopError::StillPresent.message(),
        "filesystem runtime is still present after exact stop"
    );
}

#[test]
fn a_session_is_judged_by_its_runtime() {
    assert_eq!(judge_session(None, false), Some(ConfirmedSession::Absent));
    assert_eq!(
        judge_session(Some(docker_runtime(false)), false),
        Some(ConfirmedSession::Stopped(docker_runtime(false)))
    );
    assert_eq!(judge_session(Some(docker_runtime(true)), false), None);
    assert_eq!(
        judge_session(Some(docker_runtime(true)), true),
        Some(ConfirmedSession::TimedOut(docker_runtime(true)))
    );
    let docker = spec(FilesystemRuntime::Docker);
    let attached = vec![session(&name(), &docker, &"i1".to_owned())];
    assert!(session_remains(&attached, &name(), "i1"));
    assert!(!session_remains(&attached, &name(), "i2"));
    let mut all = StopAll::new();
    all.ended(&ResourceName::new("z"), &ShutdownNext::Straggler);
    all.ended(&ResourceName::new("y"), &ShutdownNext::Clean);
    all.ended(&ResourceName::new("x"), &ShutdownNext::Unanswered);
    let remaining = remaining_filesystems(all.stragglers, attached);
    assert_eq!(remaining, vec![name(), ResourceName::new("x"), ResourceName::new("z")]);
}

#[test]
fn nothing_is_forgotten_before_it_drained() {
    let version = FilesystemVersion { high: 0, low: 1 };
    let instance = FilesystemInstance {
        name: name(),
        desired_version: Some(version),
        desired_spec: Some(spec(FilesystemRuntime::Docker)),
        observed_version: Some(version),
        observed_spec: Some(spec(FilesystemRuntime::Docker)),
        runtime_instance: Some("i1".to_owned()),
        phase: FilesystemPhase::Ready,
        retry_at: None,
        last_error_code: None,
        last_error_detail: None,
        deleting: false,
    };
    let step = Shutdown::begin(instance.clone()).unwrap();
    assert!(matches!(step.next, ShutdownNext::Ask(ShutdownRequest::Observe { .. })));
    let step = step.shutdown.resume(ShutdownReply::Observed(Some(instance.clone())));
    assert!(matches!(step.next, ShutdownNext::Ask(ShutdownRequest::Probe { .. })));
    let present = ProbeOutcome::Present(docker_runtime(true));
    let step = step.shutdown.resume(ShutdownReply::Probed(present));
    assert!(matches!(step.next, ShutdownNext::Ask(ShutdownRequest::StopExact { .. })));
    let step = step.shutdown.resume(ShutdownReply::Stopped(true));
    assert!(matches!(
        step.next,
        ShutdownNext::Ask(ShutdownRequest::AwaitSessionAbsence { .. })
    ));
    let step = step.shutdown.resume(ShutdownReply::Drained(false));
    assert_eq!(step.next, ShutdownNext::Straggler);
    let step = Shutdown::begin(instance.clone()).unwrap();
    let step = step.shutdown.resume(ShutdownReply::Observed(Some(instance.clone())));
    let step = step.shutdown.resume(ShutdownReply::Probed(ProbeOutcome::Absent));
    let step = step.shutdown.resume(ShutdownReply::Drained(true));
    assert!(matches!(step.next, ShutdownNext::Ask(ShutdownRequest::Observe { .. })));
    let step = step.shutdown.resume(ShutdownReply::Observed(Some(instance)));
    assert_eq!(step.next, ShutdownNext::Clean);
}

#[test]
fn a_stopped_supervisor_stays_stopped() {
    let mut cycle = SupervisorCycle::new();
    assert_eq!(cycle.decide(false), CycleAction::Reconcile);
    assert!(!cycle.tell(CycleEvent::PassCompleted { next_retry: Some(500) }));
    assert_eq!(cycle.decide(false), CycleAction::Wait { sleep: 500 });
    assert!(!cycle.tell(CycleEvent::Changed { open: true }));
    assert_eq!(cycle.decide(false), CycleAction::Reconcile);
    assert!(!cycle.tell(CycleEvent::StoppedAll));
    assert!(!cycle.tell(CycleEvent::Changed { open: true }));
    assert!(!cycle.tell(CycleEvent::RetryDue));
    assert_ne!(cycle.decide(false), CycleAction::Reconcile);
    assert_eq!(cycle.decide(true), CycleAction::StopAllAndExit);
    assert!(cycle.tell(CycleEvent::Changed { open: false }));
    assert!(cycle.tell(CycleEvent::Shutdown { open: true, requested: true }));
    assert!(!cycle.tell(CycleEvent::Shutdown { open: true, requested: false }));
}
