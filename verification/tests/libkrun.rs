//! Guests and host runners: seeds, shells, records, launches and teardowns.
use omnifs_daemon::fs_runtime::docker::launch::{
    DockerLaunch, ImageFound, LaunchAsk, LaunchReply,
};
use omnifs_daemon::fs_runtime::docker::{DockerContainerIdentity, DockerTarget};
use omnifs_daemon::fs_runtime::driver::AttachAddress;
use omnifs_daemon::fs_runtime::host::{
    check_stale, cleanup_timeout, cleanup_wait, host_candidate, is_clean, judge_stop, HostLook,
    HostStop, HostWait, RunnerPhase, RunnerRecord, ScannedHost, StopOutcome,
};
use omnifs_daemon::fs_runtime::driver::Candidate;
use omnifs_daemon::fs_runtime::image::BuildChannel;
use omnifs_daemon::fs_runtime::libkrun::launch::{is_ready_beacon, GuestAsk, GuestLaunch, GuestReply};
use omnifs_daemon::fs_runtime::libkrun::seed::{audit_seed_staging, seed_conf, SEED_CONF_NAME};
use omnifs_daemon::fs_runtime::libkrun::shell::{shell_word, shell_words};
use omnifs_daemon::fs_runtime::libkrun::stop::{
    detached_step, DetachedStep, Teardown, TeardownAsk, TeardownReply,
};
use omnifs_daemon::fs_runtime::libkrun::{
    check_guest_image, check_uds_path_length, default_guest_image_for, guest_image_source,
    record_step, resolve_guest_image_reference, GuestImageSource, HelperRecord, LibkrunRunner,
    RecordStep, DEFAULT_GUEST_IMAGE,
};
use omnifs_daemon::fs_runtime::process::{can_be_alive, poll_step, PollStep};
use omnifs_daemon::name::{FilesystemProtocol, FilesystemRuntime, FilesystemSpec, ResourceName};

fn name() -> ResourceName {
    ResourceName::new("main")
}

fn spec(runtime: FilesystemRuntime) -> FilesystemSpec {
    FilesystemSpec {
        protocol: FilesystemProtocol::Fuse,
        runtime,
        location: "/omnifs".to_owned(),
        docker_image: None,
        libkrun_guest_image: None,
    }
}

fn helper(pid: u32, instance: &str) -> HelperRecord {
    HelperRecord {
        pid,
        instance_id: instance.to_owned(),
        filesystem: name(),
        spec: spec(FilesystemRuntime::Libkrun),
    }
}

fn runner_record(instance: &str) -> RunnerRecord {
    RunnerRecord {
        version: 1,
        instance_id: instance.to_owned(),
        pid: 7,
        process_group: 7,
        filesystem: name(),
        spec: spec(FilesystemRuntime::Host),
        control_socket: "/run/r.sock".to_owned(),
    }
}

#[test]
fn dev_channel_defaults_to_local_guest_image_path() {
    assert_eq!(default_guest_image_for(BuildChannel::Dev), DEFAULT_GUEST_IMAGE);
}

#[test]
fn release_channel_defaults_to_pinned_guest_image_registry_tag() {
    assert!(default_guest_image_for(BuildChannel::Release)
        .starts_with("ghcr.io/0xff-ai/omnifs-guest:"));
}

#[test]
fn guest_image_resolution_precedence() {
    let resolved =
        resolve_guest_image_reference(Some("/tmp/custom.raw"), None, BuildChannel::Dev);
    assert_eq!(resolved, "/tmp/custom.raw");
    match guest_image_source(resolved, BuildChannel::Dev).unwrap() {
        GuestImageSource::Local(path) => {
            assert_eq!(check_guest_image(path, true), Ok("/tmp/custom.raw".to_owned()));
        }
        other => panic!("unexpected source: {other:?}"),
    }
    assert!(check_guest_image("/tmp/gone.raw".to_owned(), false)
        .unwrap_err()
        .contains("just guest-image"));
}

#[test]
fn remote_shell_command_preserves_each_argv_element() {
    let runner = LibkrunRunner::new("/tmp/omnifs-libkrun-test".to_owned());
    let command = runner.shell_command(
        None,
        &vec!["printf".to_owned(), "two words".to_owned(), "single'quote".to_owned()],
    );
    let remote = command.last().expect("remote command");
    assert_eq!(remote, "cd /omnifs && exec printf 'two words' 'single'\"'\"'quote'");
}

#[test]
fn an_empty_word_is_quoted() {
    assert_eq!(shell_word(""), "''");
    assert_eq!(shell_words(&vec!["a".to_owned(), "$x".to_owned()]), "a '$x'");
}

#[test]
fn seed_audit_accepts_the_exact_expected_key_set() {
    let seed = "OMNIFS_ATTACH_ADDR=vsock:1024\n\
                OMNIFS_FILESYSTEM_NAME=main\n\
                OMNIFS_RUNTIME_INSTANCE=0123456789abcdef0123456789abcdef\n\
                OMNIFS_LIBKRUN_GUEST_IMAGE=\n\
                OMNIFS_READY_VSOCK_PORT=1025\n\
                OMNIFS_SSH_PUBKEY=ssh-ed25519 AAAA test\n";
    audit_seed_staging(&vec![SEED_CONF_NAME.to_owned()], seed)
        .expect("the exact expected key set must pass");
}

#[test]
fn seed_audit_rejects_invalid_staging() {
    let cases = [
        (
            "extra file",
            "OMNIFS_ATTACH_ADDR=vsock:1024\n",
            Some("extra.txt"),
            "exactly one file",
        ),
        (
            "unexpected key",
            "OMNIFS_ATTACH_ADDR=vsock:1024\n\
             OMNIFS_READY_VSOCK_PORT=1025\n\
             OMNIFS_SSH_PUBKEY=ssh-ed25519 AAAA test\n\
             OMNIFS_HOME=/root/.omnifs\n",
            None,
            "OMNIFS_HOME",
        ),
        ("missing key", "OMNIFS_ATTACH_ADDR=vsock:1024\n", None, "missing required key"),
    ];

    for (case, seed, extra_file, expected) in cases {
        let mut files = vec![SEED_CONF_NAME.to_owned()];
        if let Some(name) = extra_file {
            files.push(name.to_owned());
        }
        let err = audit_seed_staging(&files, seed).unwrap_err();
        assert!(err.contains(expected), "{case}: {err}");
    }
}

#[test]
fn a_written_seed_passes_its_own_audit() {
    let seed = seed_conf(
        &name(),
        &spec(FilesystemRuntime::Libkrun),
        "0123456789abcdef0123456789abcdef",
        "ssh-ed25519 AAAA test",
    );
    assert!(seed.starts_with("OMNIFS_ATTACH_ADDR=vsock:1024\n"));
    audit_seed_staging(&vec![SEED_CONF_NAME.to_owned()], &seed).unwrap();
}

#[test]
fn a_long_socket_path_is_refused() {
    assert!(check_uds_path_length("/tmp/short.sock").is_ok());
    let long = format!("/{}", "a".repeat(120));
    assert!(check_uds_path_length(&long).unwrap_err().contains("121 bytes"));
}

#[test]
fn abrupt_managed_helper_exit_is_stopped_not_an_identity_conflict() {
    let (mut teardown, ask) = Teardown::begin(Some(helper(9, "a")), None);
    assert_eq!(ask, TeardownAsk::ReadRecord);
    let ask = teardown.resume(TeardownReply::Record(Ok(Some(helper(9, "a")))));
    assert_eq!(ask, TeardownAsk::CheckAlive);
    let ask = teardown.resume(TeardownReply::Alive(false));
    assert!(!matches!(ask, TeardownAsk::RequestShutdown), "{ask:?}");
}

#[test]
fn a_replaced_guest_is_left_alone() {
    let (mut teardown, _) = Teardown::begin(Some(helper(9, "a")), None);
    let ask = teardown.resume(TeardownReply::Record(Ok(Some(helper(10, "b")))));
    assert_eq!(ask, TeardownAsk::Failed);
    assert!(teardown.failure.contains("identity changed"), "{}", teardown.failure);
}

#[test]
fn exited_detached_helper_record_is_confirmed_stopped_and_cleaned() {
    let expected = helper(9, "a");
    assert_eq!(
        detached_step(Some(&helper(9, "a")), &expected, true),
        Ok(DetachedStep::Wait)
    );
    assert_eq!(
        detached_step(Some(&helper(9, "a")), &expected, false),
        Ok(DetachedStep::RemoveRecord)
    );
    assert_eq!(detached_step(None, &expected, false), Ok(DetachedStep::Gone));
    assert!(detached_step(Some(&helper(9, "b")), &expected, false).is_err());
}

#[test]
fn post_beacon_filesystem_failure_rolls_back_invocation_resources() {
    let (mut launch, ask) = GuestLaunch::begin(
        LibkrunRunner::new("/tmp/k".to_owned()),
        name(),
        spec(FilesystemRuntime::Libkrun),
        "a".to_owned(),
        Some("/tmp/attach.sock".to_owned()),
    );
    assert_eq!(ask, GuestAsk::ResolveImage);
    let replies = [
        GuestReply::Image(Ok(())),
        GuestReply::Probed(Ok(())),
        GuestReply::Replaced(Ok(())),
        GuestReply::Prepared(Ok(())),
        GuestReply::Materialized(Ok(())),
        GuestReply::Key(Ok("ssh-ed25519 AAAA".to_owned())),
        GuestReply::Seeded(Ok(())),
        GuestReply::Bound(Ok(())),
        GuestReply::Spawned(Ok(9)),
        GuestReply::Record(Ok(helper(9, "a"))),
        GuestReply::Confirmed(Ok(())),
        GuestReply::Ready(Ok(true)),
    ];
    let mut last = ask;
    for reply in replies {
        last = launch.resume(reply).ask;
    }
    assert_eq!(last, GuestAsk::WaitForSession);
    let step = launch.resume(GuestReply::Session(Err("no session".to_owned())));
    assert_eq!(step.ask, GuestAsk::TearDown);
    let step = launch.resume(GuestReply::TornDown(Ok(())));
    assert_eq!(step.ask, GuestAsk::Failed);
    assert!(launch.failure.contains("no session"));
    assert!(!is_ready_beacon(b""));
}

fn docker_launch(image: &str) -> (DockerLaunch, LaunchAsk) {
    let (launch, step) = DockerLaunch::begin(
        DockerTarget::new("omnifs-fs-main".to_owned(), image.to_owned()).unwrap(),
        "/home/u/.omnifs".to_owned(),
        name(),
        spec(FilesystemRuntime::Docker),
        "a".to_owned(),
        Some(AttachAddress {
            ipv4: Some(0x7f00_0001),
            port: 7,
            text: "127.0.0.1:7".to_owned(),
        }),
        BuildChannel::Release,
        false,
    );
    (launch, step.ask)
}

#[test]
fn a_container_that_does_not_confirm_is_removed() {
    let (mut launch, ask) = docker_launch("ghcr.io/a/b:1");
    assert_eq!(ask, LaunchAsk::Ping);
    let mut ask = launch.resume(LaunchReply::Pinged(Ok(()))).ask;
    for _ in 0..20 {
        let reply = match ask {
            LaunchAsk::FindBridge => {
                LaunchReply::Bridge(Ok((0x7f00_0001, "127.0.0.1".to_owned())))
            }
            LaunchAsk::InspectImage => {
                LaunchReply::Image(Ok(ImageFound::Present { age: None }))
            }
            LaunchAsk::InspectExisting => LaunchReply::Existing(Ok(false)),
            LaunchAsk::RemoveExisting => LaunchReply::Removed(Ok(())),
            LaunchAsk::Create => LaunchReply::Created(Ok(())),
            LaunchAsk::Start => LaunchReply::Started(Ok(())),
            LaunchAsk::InspectLockdown => {
                let body = launch.body().unwrap();
                LaunchReply::Lockdown(Ok((0, body.env)))
            }
            LaunchAsk::Confirm => LaunchReply::Confirmed(Ok(None)),
            other => {
                assert_eq!(other, LaunchAsk::Failed);
                return;
            }
        };
        ask = launch.resume(reply).ask;
    }
    panic!("the launch does not end");
}

#[test]
fn a_container_with_a_mount_is_discarded() {
    let (mut launch, _) = docker_launch("ghcr.io/a/b:1");
    let mut ask = launch.resume(LaunchReply::Pinged(Ok(()))).ask;
    let mut removals = 0;
    for _ in 0..20 {
        let reply = match ask {
            LaunchAsk::FindBridge => {
                LaunchReply::Bridge(Ok((0x7f00_0001, "127.0.0.1".to_owned())))
            }
            LaunchAsk::InspectImage => {
                LaunchReply::Image(Ok(ImageFound::Present { age: None }))
            }
            LaunchAsk::InspectExisting => LaunchReply::Existing(Ok(false)),
            LaunchAsk::RemoveExisting => {
                removals += 1;
                LaunchReply::Removed(Ok(()))
            }
            LaunchAsk::Create => LaunchReply::Created(Ok(())),
            LaunchAsk::Start => LaunchReply::Started(Ok(())),
            LaunchAsk::InspectLockdown => LaunchReply::Lockdown(Ok((1, Vec::new()))),
            LaunchAsk::Confirm => LaunchReply::Confirmed(Ok(Some(DockerContainerIdentity {
                id: "c".to_owned(),
                runtime_instance: "a".to_owned(),
            }))),
            other => {
                assert_eq!(other, LaunchAsk::Failed);
                assert_eq!(removals, 1);
                assert!(launch.failure.contains("mount"), "{}", launch.failure);
                return;
            }
        };
        ask = launch.resume(reply).ask;
    }
    panic!("the launch does not end");
}

#[test]
fn busy_stop_waits_for_runner_cleanup() {
    assert_eq!(
        cleanup_wait(StopOutcome::Busy { message: "busy".to_owned() }),
        Ok(Some("busy".to_owned()))
    );
    assert_eq!(cleanup_wait(StopOutcome::Stopped), Ok(None));
    assert_eq!(
        cleanup_wait(StopOutcome::Failed { message: "no".to_owned() }),
        Err("no".to_owned())
    );
    assert!(!is_clean(true, true));
    assert!(is_clean(true, false));
    assert_eq!(
        cleanup_timeout(Some("busy".to_owned()), "/mnt"),
        "busy; cleanup did not finish within 6s"
    );
}

#[test]
fn corrupt_runner_leaf_does_not_hide_a_valid_sibling() {
    let corrupt = ScannedHost::Unreadable {
        state_dir: "/state/a".to_owned(),
        error: "invalid record".to_owned(),
    };
    assert!(matches!(
        host_candidate(corrupt, "/state"),
        Some(Candidate::Invalid { error, .. }) if error == "invalid record"
    ));
    let valid = ScannedHost::Recorded {
        state_dir: "/state/b".to_owned(),
        record: runner_record("b"),
        confirmed: Ok(RunnerPhase::Mounted),
    };
    assert!(matches!(host_candidate(valid, "/state"), Some(Candidate::Host { .. })));
    assert!(host_candidate(ScannedHost::Empty, "/state").is_none());
}

#[test]
fn a_starting_runner_is_held_to_its_record() {
    let wait = HostWait {
        filesystem: name(),
        spec: spec(FilesystemRuntime::Host),
        instance_id: "a".to_owned(),
        state_dir: "/state/a".to_owned(),
        log_path: "/logs/a.log".to_owned(),
        last_phase: None,
    };
    assert_eq!(wait.look(None, Ok(None)), Ok(HostLook::Wait));
    assert_eq!(wait.look(None, Ok(Some(&runner_record("a")))), Ok(HostLook::AskPhase));
    assert!(wait
        .look(None, Ok(Some(&runner_record("b"))))
        .unwrap_err()
        .contains("belongs to runner b"));
    assert!(wait.look(Some("exit status: 1"), Ok(None)).unwrap_err().contains("/logs/a.log"));
    assert_eq!(judge_stop(None, &runner_record("a"), false), Ok(HostStop::Gone));
    assert!(judge_stop(Some(&runner_record("b")), &runner_record("a"), false).is_err());
    assert!(check_stale(Some(&runner_record("a")), &runner_record("a"), false, false, false)
        .is_ok());
    assert!(check_stale(Some(&runner_record("a")), &runner_record("a"), true, false, false)
        .is_err());
}

#[test]
fn a_wait_ends_with_what_is_found_or_with_its_time() {
    assert_eq!(poll_step(true, 10, 5), PollStep::Found);
    assert_eq!(poll_step(false, 5, 5), PollStep::Expired);
    assert_eq!(poll_step(false, 4, 5), PollStep::Sleep);
    assert!(!can_be_alive(0));
    assert!(can_be_alive(1));
}

#[test]
fn a_launch_waits_for_its_own_record() {
    let own = helper(7, "i1");
    let older = helper(6, "i0");
    assert_eq!(record_step(Some(&own), "i1", false), RecordStep::Found);
    assert_eq!(record_step(Some(&own), "i1", true), RecordStep::Found);
    assert_eq!(record_step(Some(&older), "i1", true), RecordStep::Exited);
    assert_eq!(record_step(Some(&older), "i1", false), RecordStep::Wait);
    assert_eq!(record_step(None, "i1", true), RecordStep::Exited);
    assert_eq!(record_step(None, "i1", false), RecordStep::Wait);
}
