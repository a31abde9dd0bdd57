//! Images, containers, paths and identities of the runtime backends.
use omnifs_daemon::fs_runtime::docker::lockdown::{assert_locked_down, count, env_var_allowed};
use omnifs_daemon::fs_runtime::docker::pull::{pull_ended, split_tag, PullProgress};
use omnifs_daemon::fs_runtime::docker::{
    age_words, default_filesystem_image_for, duration_words, filesystem_command, image_age_words,
    resolve_filesystem_image, ContainerName, DockerContainerIdentity, DockerTarget,
    FILESYSTEM_CONTAINER_BASE, FILESYSTEM_GUEST_LOCATION, OMNIFS_ATTACH_ADDR_ENV,
};
use omnifs_daemon::fs_runtime::driver::{
    err_after_rollback, owned_filesystems, AttachEndpoints, Backend, Candidate, ConfirmedRuntime,
    RuntimeDriver, RuntimePaths,
};
use omnifs_daemon::fs_runtime::events::{
    Artifact, RuntimeEvent, RuntimeEventSink, RuntimeStage, RuntimeState,
};
use omnifs_daemon::fs_runtime::guest_image::{
    cached_image, check_layers, part_path, FetchAsk, FetchReply, FetchStage, GuestReference,
};
use omnifs_daemon::fs_runtime::host::{
    log_directory, phase_label, probe, runner_command, runner_socket, start_failure, HostLook,
    HostWait, PendingPhase, RunnerPhase, RunnerRecord,
};
use omnifs_daemon::fs_runtime::identity::{ensure_identity_unchanged, ensure_record_matches};
use omnifs_daemon::fs_runtime::image::{explain_pull_error, BuildChannel, ImageRef};
use omnifs_daemon::name::{FilesystemProtocol, FilesystemRuntime, FilesystemSpec, ResourceName};
use omnifs_daemon::records::FilesystemProgressStage;
use omnifs_daemon::text::is_blank;

fn filesystem() -> ResourceName {
    ResourceName::new("work")
}

fn spec() -> FilesystemSpec {
    guest(FilesystemRuntime::Docker, None)
}

fn guest(runtime: FilesystemRuntime, docker_image: Option<&str>) -> FilesystemSpec {
    FilesystemSpec {
        protocol: FilesystemProtocol::Fuse,
        runtime,
        location: FILESYSTEM_GUEST_LOCATION.to_owned(),
        docker_image: docker_image.map(str::to_owned),
        libkrun_guest_image: None,
    }
}

fn host(location: &str) -> FilesystemSpec {
    FilesystemSpec {
        protocol: FilesystemProtocol::Nfs,
        runtime: FilesystemRuntime::Host,
        location: location.to_owned(),
        docker_image: None,
        libkrun_guest_image: None,
    }
}

fn target(image: &str) -> DockerTarget {
    DockerTarget::new("omnifs-fs-work".to_owned(), image.to_owned()).unwrap()
}

fn paths(root: &str) -> RuntimePaths {
    RuntimePaths::daemon_owned(
        root.to_owned(),
        false,
        format!("{root}/state"),
        format!("{root}/logs"),
        format!("{root}/guest-images"),
        format!("{root}/omnifs"),
    )
}

#[test]
fn pull_refusal_reason_names_dev_build_only_on_the_dev_channel() {
    assert!(BuildChannel::Dev.pull_refusal_reason().contains("dev build"));
    assert!(!BuildChannel::Release.pull_refusal_reason().contains("dev build"));
    assert!(BuildChannel::Release.pull_refusal_reason().contains("never pulls"));
}

#[test]
fn duration_words_buckets() {
    assert_eq!(duration_words(5), "5s");
    assert_eq!(duration_words(120), "2m");
    assert_eq!(duration_words(3 * 3600), "3h");
    assert_eq!(duration_words(3 * 86400 + 5), "3d");
}

#[test]
fn image_age_words_handles_missing_and_future() {
    let now = 1_700_000_000_000_000_000_i128;
    assert_eq!(image_age_words(None, now), None);
    assert_eq!(image_age_words(Some("not-a-timestamp"), now), None);
    assert_eq!(image_age_words(Some("2999-01-01T00:00:00Z"), now), None);
}

#[test]
fn an_image_age_is_read_from_its_timestamp() {
    // 2023-11-14T22:13:20Z is 1700000000 seconds after the epoch.
    let now = 1_700_000_000_000_000_000_i128;
    assert_eq!(image_age_words(Some("2023-11-14T22:13:15Z"), now).as_deref(), Some("5s"));
    assert_eq!(image_age_words(Some("2023-11-13T22:13:20Z"), now).as_deref(), Some("1d"));
    assert_eq!(image_age_words(Some("2023-11-14T23:13:20+01:00"), now).as_deref(), Some("0s"));
    assert_eq!(age_words(0, 90_000_000_000).as_deref(), Some("1m"));
    assert_eq!(age_words(1, 1).as_deref(), Some("0s"));
    assert_eq!(age_words(1, 0), None);
    assert_eq!(age_words(1_000_000_000, 0), None);
}

#[test]
fn dev_channel_defaults_to_local_filesystem_dev_image() {
    assert_eq!(default_filesystem_image_for(BuildChannel::Dev), "omnifs-filesystem:dev");
}

#[test]
fn release_channel_defaults_to_pinned_filesystem_registry_tag() {
    assert!(default_filesystem_image_for(BuildChannel::Release)
        .starts_with("ghcr.io/0xff-ai/omnifs-filesystem:"));
}

#[test]
fn filesystem_image_resolution_precedence() {
    let configured = Some("ghcr.io/example/filesystem-config:1.0.0");
    let image = resolve_filesystem_image(None, None, configured, BuildChannel::Dev).unwrap();
    assert_eq!(image.as_str(), "ghcr.io/example/filesystem-config:1.0.0");

    let image = resolve_filesystem_image(
        Some("ghcr.io/example/filesystem-flag:2.0.0".to_owned()),
        None,
        configured,
        BuildChannel::Dev,
    )
    .unwrap();
    assert_eq!(image.as_str(), "ghcr.io/example/filesystem-flag:2.0.0");

    let image = resolve_filesystem_image(
        None,
        Some("ghcr.io/example/filesystem-env:9.9.9".to_owned()),
        None,
        BuildChannel::Dev,
    )
    .unwrap();
    assert_eq!(image.as_str(), "ghcr.io/example/filesystem-env:9.9.9");
}

#[test]
fn a_blank_image_is_refused() {
    let blank = resolve_filesystem_image(Some(" \t".to_owned()), None, None, BuildChannel::Dev);
    assert!(blank.unwrap_err().contains("image reference must not be empty"));
}

#[test]
fn default_home_uses_bare_container_name() {
    let name =
        DockerTarget::filesystem_container_name("/home/u/.omnifs", &filesystem(), true).unwrap();
    assert_eq!(name.as_str(), "omnifs-fs-work");
}

#[test]
fn non_default_home_gets_a_stable_hashed_suffix() {
    let name_a =
        DockerTarget::filesystem_container_name("/home/u/.omnifs-dev", &filesystem(), false)
            .unwrap();
    let name_b =
        DockerTarget::filesystem_container_name("/home/u/.omnifs-dev", &filesystem(), false)
            .unwrap();
    let name_other =
        DockerTarget::filesystem_container_name("/home/u/.omnifs-other", &filesystem(), false)
            .unwrap();

    assert_eq!(name_a, name_b, "the same home must hash to the same name");
    assert_ne!(name_a, name_other, "different homes must not collide on one container name");
    assert!(name_a.as_str().starts_with(FILESYSTEM_CONTAINER_BASE));
}

#[test]
fn a_home_is_named_by_eight_digits() {
    let named = |home: &str, name: &str, is_default| {
        DockerTarget::filesystem_container_name(home, &ResourceName::new(name), is_default).unwrap()
    };
    let name = named("/home/u/.omnifs-dev", "work", false);
    let digits = name.as_str().strip_prefix("omnifs-fs-").unwrap();
    let digits = digits.strip_suffix("-work").unwrap();
    assert_eq!(digits.len(), 8);
    assert!(digits.chars().all(|c| matches!(c, '0'..='9' | 'a'..='f')));
    assert_ne!(name, named("/home/u/.omnifs-dev", "play", false));
    assert_ne!(name, named("/home/u/.omnifs-dev", "work", true));
    assert_eq!(
        named("/home/u66031/.omnifs", "work", false).as_str(),
        "omnifs-fs-2af7a24b-work"
    );
}

#[test]
fn different_names_give_different_paths() {
    let paths = paths("/home/u/.omnifs");
    let work = paths.filesystem(&ResourceName::new("work"));
    let play = paths.filesystem(&ResourceName::new("play"));
    assert_eq!(work.profile_root(), "/home/u/.omnifs");
    assert_eq!(work.state_dir(), "/home/u/.omnifs/state/work");
    assert_eq!(work.libkrun_root(), "/home/u/.omnifs/state/work/libkrun");
    assert_eq!(work.host_log(), "/home/u/.omnifs/logs/work.log");
    let socket = work.host_control_socket();
    let digits = socket.strip_prefix("/home/u/.omnifs/.r/").unwrap();
    let digits = digits.strip_suffix(".sock").unwrap();
    assert_eq!(digits.len(), 16);
    assert!(digits.chars().all(|c| matches!(c, '0'..='9' | 'a'..='f')));
    assert_ne!(work.state_dir(), play.state_dir());
    assert_ne!(work.libkrun_root(), play.libkrun_root());
    assert_ne!(work.host_log(), play.host_log());
}

#[test]
fn white_space_is_what_unicode_says() {
    let white: Vec<char> =
        ('\0'..=char::MAX).filter(|c| is_blank(&c.to_string())).collect();
    let listed: Vec<char> = "\u{9}\u{a}\u{b}\u{c}\u{d} \u{85}\u{a0}\u{1680}\u{2000}\u{2001}\
        \u{2002}\u{2003}\u{2004}\u{2005}\u{2006}\u{2007}\u{2008}\u{2009}\u{200a}\u{2028}\
        \u{2029}\u{202f}\u{205f}\u{3000}"
        .chars()
        .collect();
    assert_eq!(white, listed);
}

#[test]
fn container_body_carries_no_binds_and_the_attach_address() {
    let body = target("omnifs-filesystem:dev").build_filesystem_container_body(
        "/home/u/.omnifs",
        &filesystem(),
        &spec(),
        "runtime",
        54321,
        true,
    );

    assert_eq!(body.image, "omnifs-filesystem:dev");
    assert!(body.binds.is_empty(), "the filesystem container must carry no binds");
    assert_eq!(body.device.path_on_host, "/dev/fuse");
    assert_eq!(body.extra_hosts, Some(vec!["host.docker.internal:host-gateway".to_string()]));
    assert_eq!(body.env, vec![format!("{OMNIFS_ATTACH_ADDR_ENV}=host.docker.internal:54321")]);
    assert_eq!(body.home_label, "/home/u/.omnifs");
    assert_eq!(body.filesystem_label, "work");
    assert_eq!(body.command, filesystem_command(&filesystem(), &spec(), "runtime"));
}

#[test]
fn container_command_preserves_exact_docker_image() {
    let spec = guest(FilesystemRuntime::Docker, Some("omnifs-filesystem:exact"));
    assert_eq!(
        filesystem_command(&filesystem(), &spec, "runtime"),
        vec![
            "--name",
            "work",
            "--protocol",
            "fuse",
            "--runtime",
            "docker",
            "--location",
            "/omnifs",
            "--docker-image",
            "omnifs-filesystem:exact",
            "--runtime-instance",
            "runtime",
        ]
    );
}

#[test]
fn macos_omits_add_host_gateway() {
    let body = target("omnifs-filesystem:dev").build_filesystem_container_body(
        "/home/u/.omnifs",
        &filesystem(),
        &spec(),
        "runtime",
        1,
        false,
    );
    assert_eq!(body.extra_hosts, None);
}

#[test]
fn lockdown_matrix() {
    let cases = [
        ("mount", 1, Vec::new(), Some("mount")),
        (
            "allowed",
            0,
            vec![
                "PATH=/usr/bin".to_string(),
                "HOME=/root".to_string(),
                format!("{OMNIFS_ATTACH_ADDR_ENV}=host.docker.internal:1"),
            ],
            None,
        ),
        (
            "unexpected env",
            0,
            vec!["OMNIFS_HOME=/root/.omnifs".to_string()],
            Some("OMNIFS_HOME"),
        ),
        (
            "missing attach address",
            0,
            vec!["PATH=/usr/bin".to_string()],
            Some(OMNIFS_ATTACH_ADDR_ENV),
        ),
        (
            "duplicate attach address",
            0,
            vec![
                format!("{OMNIFS_ATTACH_ADDR_ENV}=host.docker.internal:1"),
                format!("{OMNIFS_ATTACH_ADDR_ENV}=host.docker.internal:2"),
            ],
            Some("duplicate"),
        ),
    ];

    for (case, mounts, env, expected_error) in cases {
        match (assert_locked_down(mounts, &env), expected_error) {
            (Ok(()), None) => {}
            (Err(error), Some(needle)) => {
                assert!(error.contains(needle), "{case}: {error}");
            }
            (Ok(()), Some(needle)) => {
                panic!("{case}: expected an error containing {needle}");
            }
            (Err(error), None) => panic!("{case}: unexpected error: {error}"),
        }
    }
}

#[test]
fn a_fresh_container_body_is_locked_down() {
    let body = target("omnifs-filesystem:dev").build_filesystem_container_body(
        "/home/u/.omnifs",
        &filesystem(),
        &spec(),
        "runtime",
        7,
        true,
    );
    assert!(assert_locked_down(0, &body.env).is_ok());
    assert!(env_var_allowed("PATH=/bin"));
    assert!(!env_var_allowed("TOKEN=x"));
    assert!(count(2, "mount").starts_with("2 mount"));
}

#[test]
fn daemon_owned_paths_stay_under_filesystem_state() {
    let root = "/tmp/omnifs-daemon";
    let paths = RuntimePaths::daemon_owned(
        root.to_owned(),
        false,
        format!("{root}/runtime/filesystems"),
        format!("{root}/logs/filesystems"),
        format!("{root}/cache/guest-images"),
        format!("{root}/omnifs"),
    );
    let filesystem = paths.filesystem(&ResourceName::new("work"));
    assert_eq!(filesystem.state_dir(), format!("{root}/runtime/filesystems/work"));
    assert_eq!(filesystem.host_log(), format!("{root}/logs/filesystems/work.log"));
    assert_eq!(filesystem.host_control_socket(), format!("{root}/.r/00e13ed7af55b276.sock"));
    assert_eq!(filesystem.libkrun_root(), format!("{root}/runtime/filesystems/work/libkrun"));
    assert_eq!(filesystem.guest_image_cache(), format!("{root}/cache/guest-images"));
}

#[test]
fn dispatches_each_closed_runtime_variant() {
    let paths = paths("/tmp/omnifs-dispatch");
    let name = || ResourceName::new("main");
    assert!(matches!(
        RuntimeDriver::new(&paths, name(), host("/tmp/main"), true, None, BuildChannel::Dev)
            .unwrap()
            .backend,
        Backend::Host
    ));
    assert!(matches!(
        RuntimeDriver::new(
            &paths,
            name(),
            guest(FilesystemRuntime::Docker, None),
            true,
            None,
            BuildChannel::Dev
        )
        .unwrap()
        .backend,
        Backend::Docker(_)
    ));
    assert!(matches!(
        RuntimeDriver::new(
            &paths,
            name(),
            guest(FilesystemRuntime::Libkrun, None),
            true,
            None,
            BuildChannel::Dev
        )
        .unwrap()
        .backend,
        Backend::Libkrun
    ));
    assert!(RuntimeDriver::new(
        &paths,
        name(),
        guest(FilesystemRuntime::Libkrun, None),
        false,
        None,
        BuildChannel::Dev
    )
    .is_err());
}

#[test]
fn a_shell_is_opened_by_the_backend() {
    let paths = paths("/home/u");
    let open = |spec| {
        let name = ResourceName::new("main");
        RuntimeDriver::new(&paths, name, spec, true, None, BuildChannel::Dev).unwrap()
    };
    let none = Vec::new();
    assert_eq!(open(host("/tmp/main")).shell_command(true, None, &none), None);
    let docker = open(guest(FilesystemRuntime::Docker, None));
    let Backend::Docker(target) = &docker.backend else { panic!("no container") };
    let container = target.container_name().as_str();
    assert_eq!(
        docker.shell_command(true, Some("/bin/zsh"), &none).unwrap(),
        vec!["docker", "exec", "-i", "-t", "-w", "/omnifs", container, "/bin/zsh"]
    );
    let libkrun = open(guest(FilesystemRuntime::Libkrun, None));
    let command = libkrun.shell_command(false, None, &vec!["ls".to_owned()]).unwrap();
    assert_eq!(command[0], "ssh");
    assert_eq!(command[2], format!("{}/id_ed25519", libkrun.paths.libkrun_root()));
    assert_eq!(command[command.len() - 1], "cd /omnifs && exec ls");
    let mut slashed = guest(FilesystemRuntime::Docker, None);
    slashed.location.push('/');
    assert!(matches!(open(slashed).backend, Backend::Docker(_)));
}

#[test]
fn stopped_docker_identity_is_not_a_running_runtime() {
    let identity = || DockerContainerIdentity {
        id: "container".to_owned(),
        runtime_instance: "instance".to_owned(),
    };
    assert!(!ConfirmedRuntime::Docker(identity(), false).is_running());
    assert!(ConfirmedRuntime::Docker(identity(), true).is_running());
}

#[test]
fn docker_dispatch_rejects_an_invalid_image_reference() {
    let error = RuntimeDriver::new(
        &paths("/tmp/omnifs-invalid"),
        ResourceName::new("main"),
        guest(FilesystemRuntime::Docker, Some("   ")),
        true,
        None,
        BuildChannel::Dev,
    )
    .err()
    .unwrap();
    assert!(error.contains("image reference must not be empty"));
}

#[test]
fn uses_only_caller_supplied_paths() {
    let root = "/caller/runtime";
    let paths = paths(root);
    let filesystem = paths.filesystem(&ResourceName::new("work"));
    assert_eq!(filesystem.state_dir(), format!("{root}/state/work"));
    assert_eq!(filesystem.host_log(), format!("{root}/logs/work.log"));
    assert_eq!(filesystem.libkrun_root(), format!("{root}/state/work/libkrun"));
    assert_eq!(filesystem.guest_image_cache(), format!("{root}/guest-images"));
    assert_eq!(filesystem.executable(), format!("{root}/omnifs"));
}

#[test]
fn rollback_keeps_the_primary_failure_and_reports_cleanup_failure() {
    let message = err_after_rollback::<()>(
        "mount failed".to_owned(),
        Err("stop failed".to_owned()),
        "the failed runtime",
    )
    .unwrap_err();
    assert!(message.starts_with("the failed runtime also could not be cleaned up"));
    assert!(message.contains("stop failed"));
    assert!(message.ends_with("mount failed"));
}

#[test]
fn a_clean_rollback_leaves_only_the_primary_failure() {
    let message =
        err_after_rollback::<()>("mount failed".to_owned(), Ok(()), "the runtime").unwrap_err();
    assert_eq!(message, "mount failed");
}

fn stage_event(state: RuntimeState) -> RuntimeEvent {
    RuntimeEvent::Stage {
        stage: RuntimeStage::StartProcess,
        runtime: FilesystemRuntime::Host,
        filesystem: ResourceName::new("main"),
        state,
    }
}

#[test]
fn dropped_receiver_does_not_fail_runtime_work() {
    let (sink, receiver) = RuntimeEventSink::bounded(1);
    drop(receiver);
    assert!(!sink.emit(stage_event(RuntimeState::Active)));
}

#[test]
fn bounded_sink_never_waits_for_a_slow_consumer() {
    let (sink, mut receiver) = RuntimeEventSink::bounded(1);
    assert!(sink.emit(stage_event(RuntimeState::Active)));
    assert!(!sink.emit(stage_event(RuntimeState::Ready)));
    assert_eq!(receiver.try_recv().ok(), Some(stage_event(RuntimeState::Active)));
    assert!(!RuntimeEventSink::discard().emit(stage_event(RuntimeState::Pending)));
}

#[test]
fn facts_keep_order_and_report_only_real_byte_totals() {
    let (sink, mut receiver) = RuntimeEventSink::bounded(2);
    let unknown_total = RuntimeEvent::Download {
        artifact: Artifact::FilesystemImage,
        completed_bytes: 41,
        total_bytes: None,
        source: "registry".to_owned(),
    };
    let known_total = RuntimeEvent::Download {
        artifact: Artifact::GuestImage,
        completed_bytes: 42,
        total_bytes: Some(100),
        source: "registry".to_owned(),
    };

    assert!(sink.emit(unknown_total.clone()));
    assert!(sink.emit(known_total.clone()));
    assert_eq!(receiver.try_recv().ok(), Some(unknown_total));
    assert_eq!(receiver.try_recv().ok(), Some(known_total));
}

#[test]
fn runtime_events_never_invent_byte_totals() {
    let (stage, completed, total) = RuntimeEvent::Download {
        artifact: Artifact::FilesystemImage,
        completed_bytes: 41,
        total_bytes: None,
        source: "registry".to_owned(),
    }
    .progress_stage();
    assert_eq!(stage, Some(FilesystemProgressStage::PullingImage));
    assert_eq!(completed, 41);
    assert_eq!(total, None);
}

#[test]
fn guest_image_reference_preserves_registry_and_tag() {
    let image = ImageRef::new("ghcr.io/0xff-ai/omnifs-guest:0.5.0".to_owned()).unwrap();
    let reference = GuestReference::parse(&image).unwrap();
    assert_eq!(reference.registry, "ghcr.io");
    assert_eq!(reference.repository, "0xff-ai/omnifs-guest");
    assert_eq!(reference.tag.as_deref(), Some("0.5.0"));
}

#[test]
fn an_image_that_is_no_reference_is_refused() {
    let image = ImageRef::new("UPPER CASE".to_owned()).unwrap();
    let error = GuestReference::parse(&image).unwrap_err();
    assert!(error.starts_with("parse guest image reference `UPPER CASE`: "), "{error}");
}

#[test]
fn a_guest_image_is_kept_under_its_tag() {
    let image = ImageRef::new("ghcr.io/0xff-ai/omnifs-guest:0.5.0".to_owned()).unwrap();
    let reference = GuestReference::parse(&image).unwrap();
    let cached = cached_image(&reference, "/cache").unwrap();
    assert_eq!(cached.tag, "0.5.0");
    assert!(cached.raw_path.starts_with("/cache/"), "{}", cached.raw_path);
    assert!(cached.raw_path.contains("0.5.0"));
    assert_ne!(cached.raw_path, cached.compressed_path);
    assert_ne!(part_path(&cached.raw_path), cached.raw_path);
    assert_eq!(check_layers(1, 12), Ok(12));
    assert!(check_layers(2, 12).is_err());
    assert!(check_layers(1, -1).is_err());
}

#[test]
fn a_damaged_guest_image_is_downloaded_once_more() {
    let (stage, ask) = FetchStage::begin();
    assert_eq!(ask, FetchAsk::FindRaw);
    let (stage, ask) = stage.resume(FetchReply::Found { exists: false });
    assert_eq!(ask, FetchAsk::FindCompressed);
    let (stage, ask) = stage.resume(FetchReply::Found { exists: true });
    assert_eq!(ask, FetchAsk::Decompress);
    let (stage, ask) = stage.resume(FetchReply::Decompressed { ok: false });
    assert_eq!(ask, FetchAsk::RemoveCompressed);
    let (stage, ask) = stage.resume(FetchReply::Removed);
    assert_eq!(ask, FetchAsk::Download);
    let (stage, ask) = stage.resume(FetchReply::Downloaded { ok: true });
    assert_eq!(ask, FetchAsk::Decompress);
    let (stage, ask) = stage.resume(FetchReply::Decompressed { ok: false });
    assert_eq!((stage, ask), (FetchStage::Ended, FetchAsk::Failed));
}

#[test]
fn record_and_runtime_identity_rechecks_fail_closed() {
    let name = ResourceName::new("main");
    let recorded = host("/tmp/recorded");
    let configured = host("/tmp/configured");
    assert!(ensure_record_matches(&name, &recorded, &name, &configured)
        .unwrap_err()
        .contains("runner record does not match"));
    assert!(ensure_identity_unchanged(Some(&2_u8), &1_u8, "runner")
        .unwrap_err()
        .contains("refusing to touch its replacement"));
}

#[test]
fn a_matching_record_and_identity_pass() {
    let name = ResourceName::new("main");
    assert!(ensure_record_matches(&name, &host("/tmp/a"), &name, &host("/tmp/a")).is_ok());
    assert!(ensure_identity_unchanged(Some(&1_u8), &1_u8, "runner").is_ok());
    assert!(ensure_identity_unchanged(None, &1_u8, "runner").is_err());
}

#[test]
fn names_registry_table() {
    let cases = [
        ("omnifs-filesystem:dev", false),
        ("omnifs-filesystem:abc123-dev", false),
        ("myorg/omnifs-filesystem:1.0", false),
        ("ghcr.io/0xff-ai/omnifs-filesystem:0.2.1", true),
        ("localhost:5000/omnifs-filesystem:x", true),
        ("registry.local/omnifs-filesystem", true),
    ];
    for (image, expected) in cases {
        let image = ImageRef::new(image.to_owned()).unwrap();
        assert_eq!(
            image.has_registry(),
            expected,
            "ImageRef::has_registry({image:?}) should be {expected}"
        );
    }
}

#[test]
fn container_names_are_checked() {
    assert!(ContainerName::new("omnifs-fs-work".to_owned()).is_ok());
    for bad in ["", "-work", "a/b", "a b"] {
        assert!(ContainerName::new(bad.to_owned()).is_err(), "{bad:?}");
    }
}

#[test]
fn a_tag_is_split_from_its_image() {
    assert_eq!(
        split_tag("ghcr.io/a/b:1.0"),
        Ok(("ghcr.io/a/b".to_owned(), "1.0".to_owned()))
    );
    assert_eq!(split_tag("plain").unwrap_err(), "image `plain` has no tag");
}

#[test]
fn pulled_bytes_add_up_over_layers() {
    let mut progress = PullProgress::new("ghcr.io/a/b:1");
    progress.observe("one", Some(3), Some(10));
    let event = progress.observe("two", Some(4), Some(20));
    match event {
        RuntimeEvent::Download { completed_bytes, total_bytes, .. } => {
            assert_eq!((completed_bytes, total_bytes), (7, Some(30)));
        }
        other => panic!("unexpected event: {other:?}"),
    }
    assert!(matches!(
        pull_ended("ghcr.io/a/b:1", false),
        RuntimeEvent::DownloadFailed { .. }
    ));
}

#[test]
fn a_missing_image_is_explained() {
    let image = ImageRef::new("ghcr.io/a/b:1".to_owned()).unwrap();
    let text = explain_pull_error(&image, "Manifest NOT FOUND".to_owned());
    assert!(text.starts_with("image `ghcr.io/a/b:1` was not found in the registry"), "{text}");
    assert_eq!(explain_pull_error(&image, "connection reset".to_owned()), "connection reset");
}

#[test]
fn one_failed_listing_hides_no_other_backend() {
    let found = owned_filesystems(
        Err("host unavailable".to_owned()),
        Some(Err("docker unavailable".to_owned())),
        vec![Candidate::Invalid {
            backend: "libkrun".to_owned(),
            target: None,
            error: "unreadable".to_owned(),
        }],
    );
    assert_eq!(found.len(), 3);
    assert!(matches!(&found[0], Candidate::ListingFailed { backend, .. } if backend == "host"));
    assert!(matches!(&found[1], Candidate::ListingFailed { backend, .. } if backend == "docker"));
    assert!(matches!(&found[2], Candidate::Invalid { backend, .. } if backend == "libkrun"));
}

#[test]
fn a_missing_endpoint_is_an_error() {
    let endpoints = AttachEndpoints::new(Some("/run/attach.sock".to_owned()), None);
    assert_eq!(endpoints.attach_unix(), Ok("/run/attach.sock"));
    assert!(endpoints.attach_tcp().is_err());
}

#[test]
fn a_host_process_is_told_what_it_serves() {
    let mut spec = host("/mnt/work");
    spec.docker_image = Some("image".to_owned());
    assert_eq!(
        runner_command(&filesystem(), &spec, "i1", "/state/work", "/run/attach.sock", "/run/c.sock"),
        vec![
            "run-fs",
            "--name",
            "work",
            "--protocol",
            "nfs",
            "--runtime",
            "host",
            "--location",
            "/mnt/work",
            "--docker-image",
            "image",
            "--runtime-instance",
            "i1",
            "--state-dir",
            "/state/work",
            "--attach",
            "/run/attach.sock",
            "--runner-instance",
            "i1",
            "--runner-control",
            "/run/c.sock",
        ]
    );
    assert_eq!(runner_socket(Some("/run/a"), "/run/b"), "/run/a");
    assert_eq!(runner_socket(None, "/run/b"), "/run/b");
    assert_eq!(log_directory(Some("/logs")), Ok("/logs".to_owned()));
    assert_eq!(
        log_directory(None),
        Err("filesystem log path has no parent directory".to_owned())
    );
    assert_eq!(
        start_failure(FilesystemProtocol::Nfs, "/bin/omnifs", "denied"),
        "start host nfs filesystem with /bin/omnifs: denied"
    );
}

#[test]
fn a_host_filesystem_needs_its_device() {
    assert_eq!(probe(FilesystemProtocol::Nfs, false), Ok(()));
    assert_eq!(probe(FilesystemProtocol::Fuse, true), Ok(()));
    assert_eq!(
        probe(FilesystemProtocol::Fuse, false),
        Err("/dev/fuse is not available on this host".to_owned())
    );
}

#[test]
fn a_starting_host_filesystem_is_watched_until_it_is_mounted() {
    let mut wait = HostWait {
        filesystem: filesystem(),
        spec: host("/mnt/work"),
        instance_id: "i1".to_owned(),
        state_dir: "/state/work".to_owned(),
        log_path: "/logs/work.log".to_owned(),
        last_phase: None,
    };
    assert_eq!(wait.look(None, Ok(None)), Ok(HostLook::Wait));
    assert_eq!(
        wait.look(Some("exit status: 1"), Ok(None)),
        Err("host filesystem `work` exited with exit status: 1; see /logs/work.log".to_owned())
    );
    let record = RunnerRecord {
        version: 1,
        pid: 7,
        instance_id: "i2".to_owned(),
        filesystem: filesystem(),
        spec: host("/mnt/work"),
        process_group: 7,
        control_socket: "/run/c.sock".to_owned(),
    };
    assert_eq!(
        wait.look(None, Ok(Some(&record))),
        Err("host filesystem state at /state/work belongs to runner i2; run `omnifs doctor` to diagnose"
            .to_owned())
    );
    let record = RunnerRecord { instance_id: "i1".to_owned(), ..record };
    assert_eq!(wait.look(None, Ok(Some(&record))), Ok(HostLook::AskPhase));
    assert_eq!(wait.phase_seen(Some(RunnerPhase::Mounting)), Ok(false));
    assert_eq!(phase_label(wait.last_phase), "Mounting");
    assert_eq!(wait.phase_seen(None), Ok(false));
    assert_eq!(wait.last_phase, Some(PendingPhase::Mounting));
    assert_eq!(
        wait.phase_seen(Some(RunnerPhase::Failed { message: "no route".to_owned() })),
        Err("host filesystem `work` failed: no route; see /logs/work.log".to_owned())
    );
    assert!(wait.mount_startup_timeout().contains("last proved phase was Mounting; runner i1"));
    assert_eq!(wait.phase_seen(Some(RunnerPhase::Mounted)), Ok(true));
}
