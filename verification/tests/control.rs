//! The control protocol, the provider bundle and the daemon's start.
use omnifs_daemon::control::connection::{
    accept_step, meet_peer, serving_ended, AcceptEvent, AcceptStep, Admission, ControlConnection,
    PrefaceRead,
};
use omnifs_daemon::control::repair::{
    repair_answer, repair_reply, RepairDisposition, RepairRequest, RequestedAction,
};
use omnifs_daemon::control::request::{
    check_event, check_inspector, check_ready, check_tail, check_watch, inspector_step,
    list_providers, stopped_count, InspectorEvent, InspectorStep,
};
use omnifs_daemon::control::upload::{ProviderUpload, UploadItem};
use omnifs_daemon::control::{
    exact_bytes, grpc_code, required, resource_grpc_error, ControlErrorCode, ControlPhase,
    DaemonPhase, DeclarationError, HealthState, RecoveryId, RepairAction, StatusCode,
};
use omnifs_daemon::first_error;
use omnifs_daemon::name::{ActionId, ProviderId, ResourceName, ResourceRevision};
use omnifs_daemon::progress::{ProgressTarget, ProgressTargetState};
use omnifs_daemon::provider_bundle::{
    file_name, read_bundle, stage_items, torn_files, ArchivedFile, Damage, EmbeddedProvider, EmbeddedProviders, ProviderMetadata,
};
use omnifs_daemon::provider_preparer::ProviderPriority;
use omnifs_daemon::serving_reconciler::DesiredResource;
use omnifs_daemon::startup::construct::{
    after_step, begin_build, runtime_failure, BuildAsk, BuildStep, Teardown,
};
use omnifs_daemon::startup::cycle::{StartupAsk, StartupCycle, StartupEvent, StartupStage};
use omnifs_daemon::startup::lifecycle::{LifeReply, LifeStep, Lifecycle};
use omnifs_daemon::startup::{
    embedded_order, recovery_id, retained_job, unpublish_process_identity, BySize,
    IdentityCleanup, RecoverySequence, StartupFailure,
};

fn artifact(value: u128) -> ProviderId {
    ProviderId { high: value, low: 0 }
}

#[test]
fn every_error_travels_with_a_status() {
    assert_eq!(grpc_code(ControlErrorCode::PlanTooLarge), StatusCode::InvalidArgument);
    assert_eq!(grpc_code(ControlErrorCode::Busy), StatusCode::ResourceExhausted);
    assert_eq!(grpc_code(ControlErrorCode::NotReady), StatusCode::FailedPrecondition);
    assert_eq!(grpc_code(ControlErrorCode::RecoveryRequired), StatusCode::FailedPrecondition);
    assert_eq!(grpc_code(ControlErrorCode::Conflict), StatusCode::Aborted);
    assert_eq!(grpc_code(ControlErrorCode::ActionUnavailable), StatusCode::NotFound);
    assert_eq!(grpc_code(ControlErrorCode::AlreadyExists), StatusCode::AlreadyExists);
    assert_eq!(grpc_code(ControlErrorCode::Internal), StatusCode::Internal);
    let error = resource_grpc_error(DeclarationError::TooManyResources, "too many");
    assert_eq!(error.code, ControlErrorCode::PlanTooLarge);
}

#[test]
fn fields_are_required_and_exact() {
    assert_eq!(required(Some(3_u8), "key").unwrap(), 3);
    let missing = required::<u8>(None, "credential key").unwrap_err();
    assert_eq!(missing.code, ControlErrorCode::InvalidRequest);
    assert_eq!(missing.message, "missing required field `credential key`");
    assert_eq!(exact_bytes::<3>(&[1, 2, 3], "id").unwrap(), [1, 2, 3]);
    let wrong = exact_bytes::<4>(&[1, 2, 3], "provider id").unwrap_err();
    assert_eq!(wrong.message, "invalid provider id length");
}

#[test]
fn a_daemon_that_does_not_serve_stays_visible() {
    let starting = ControlPhase::Starting;
    assert_eq!(starting.ready().unwrap_err().code, ControlErrorCode::NotReady);
    assert_eq!(starting.recovery().unwrap().unwrap().phase, DaemonPhase::Starting);
    let inventory = starting.inventory().unwrap().unwrap();
    assert_eq!(inventory.control.state, HealthState::Healthy);
    assert_eq!(inventory.namespace.state, HealthState::Starting);
    assert_eq!(inventory.store.detail, "daemon is starting");

    let mut sequence = RecoverySequence { next: 0 };
    let failure = StartupFailure::Store { error: "not sqlite".to_owned() };
    let recovering = ControlPhase::Recovery(failure.recovery(&mut sequence));
    assert_eq!(recovering.ready().unwrap_err().code, ControlErrorCode::RecoveryRequired);
    let inventory = recovering.inventory().unwrap().unwrap();
    assert_eq!(inventory.namespace.state, HealthState::Unhealthy);
    assert_eq!(inventory.store.detail, "control store could not be opened");

    assert!(ControlPhase::Ready.ready().is_ok());
    assert!(ControlPhase::Ready.inventory().unwrap().is_none());
    assert!(ControlPhase::Ready.shows_endpoints());
    assert_eq!(
        ControlPhase::ShuttingDown.recovery().unwrap_err().message,
        "daemon is shutting down"
    );
}

#[test]
fn an_offer_that_allows_nothing_is_not_taken_up() {
    let mut sequence = RecoverySequence { next: 1 };
    let failure = StartupFailure::Store { error: "not sqlite".to_owned() };
    let mut shown = failure.recovery(&mut sequence);
    let mut offer = shown.repair.unwrap();
    offer.actions.clear();
    let request = RepairRequest {
        instance_id: "me".to_owned(),
        recovery_id: offer.id.bytes.to_vec(),
        action: RequestedAction::RecreateControlStore,
    };
    shown.repair = Some(offer);
    let mut phase = ControlPhase::Recovery(shown);
    let refused = phase.repair_state("me", &request).unwrap_err();
    assert_eq!(
        refused.message,
        "the recovery offer is stale or does not match this daemon"
    );
}

#[test]
fn a_repair_is_taken_up_once() {
    let mut sequence = RecoverySequence { next: 7 };
    let failure = StartupFailure::Store { error: "not sqlite".to_owned() };
    let shown = failure.recovery(&mut sequence);
    let offer = shown.repair.clone().unwrap();
    assert_eq!(offer.actions, vec![RepairAction::RecreateControlStore]);
    assert!(offer.allows(RepairAction::RecreateControlStore));
    let mut phase = ControlPhase::Recovery(shown);
    let request = |recovery_id: &[u8], instance: &str, action| RepairRequest {
        instance_id: instance.to_owned(),
        recovery_id: recovery_id.to_vec(),
        action,
    };
    let right = || request(&offer.id.bytes, "me", RequestedAction::RecreateControlStore);
    for (wrong, message) in [
        (
            request(&offer.id.bytes, "me", RequestedAction::Unknown),
            "invalid repair action",
        ),
        (
            request(&offer.id.bytes, "me", RequestedAction::Unspecified),
            "repair action unspecified",
        ),
        (
            request(&[1, 2], "me", RequestedAction::RecreateControlStore),
            "invalid recovery id length",
        ),
        (
            request(&offer.id.bytes, "other", RequestedAction::RecreateControlStore),
            "the recovery offer is stale or does not match this daemon",
        ),
        (
            request(&[0; 16], "me", RequestedAction::RecreateControlStore),
            "the recovery offer is stale or does not match this daemon",
        ),
    ] {
        assert_eq!(phase.repair_state("me", &wrong).unwrap_err().message, message);
    }
    let command = phase.repair_state("me", &right()).unwrap();
    assert_eq!(command.recovery_id, offer.id);
    assert_eq!(phase, ControlPhase::Starting);
    let again = phase.repair_state("me", &right()).unwrap_err();
    assert_eq!(again.code, ControlErrorCode::Conflict);
    assert_eq!(again.message, "the daemon is not offering state repair");
    let stopped = phase.repair_not_sent(command.shown);
    assert_eq!(stopped.message, "daemon repair worker stopped");
    assert!(phase.repair_state("me", &right()).is_ok());

    let receipt = repair_reply(
        "me",
        offer.id,
        RepairAction::RecreateControlStore,
        Some(RepairDisposition::CorruptStoreArchived),
    );
    assert_eq!(
        repair_answer(Some(receipt)).unwrap().disposition,
        RepairDisposition::CorruptStoreArchived
    );
    let failed = repair_reply("me", offer.id, RepairAction::RecreateControlStore, None);
    assert_eq!(failed.unwrap_err().message, "control store repair failed");
    assert_eq!(
        repair_answer(None).unwrap_err().message,
        "daemon repair worker dropped its reply"
    );
}

#[test]
fn a_connection_starts_with_the_preface() {
    let bytes = *b"PRI * HTTP/2.0\r\n\r\nSM\r\n\r\n";
    let mut connection = ControlConnection::prepare(PrefaceRead::Bytes(bytes)).unwrap();
    let mut read = Vec::new();
    for room in [5, 0, 7, 100] {
        read.extend(connection.replay(room).unwrap());
    }
    assert_eq!(read, bytes.to_vec());
    assert!(connection.replay(10).is_none());
    let mut wrong = bytes;
    wrong[0] = b'X';
    assert_eq!(
        ControlConnection::prepare(PrefaceRead::Bytes(wrong)).unwrap_err(),
        "control HTTP/2 preface was invalid"
    );
    assert_eq!(
        ControlConnection::prepare(PrefaceRead::TimedOut).unwrap_err(),
        "control HTTP/2 preface timed out"
    );
    assert_eq!(meet_peer(false, true), Admission::Reject);
    assert_eq!(meet_peer(true, false), Admission::Drop);
    assert_eq!(meet_peer(true, true), Admission::Prepare);
}

fn start(total_length: u64) -> UploadItem {
    UploadItem::Start { file_name: "demo.wasm".to_owned(), digest: vec![7; 32], total_length }
}

#[test]
fn an_upload_brings_exactly_what_it_declares() {
    let mut upload = ProviderUpload::begin(Some(start(5))).unwrap().upload;
    assert_eq!(upload.go_on(UploadItem::Chunk(vec![1, 2])).unwrap(), vec![1, 2]);
    assert_eq!(
        upload.finish().unwrap_err().message,
        "provider upload is shorter than declared length"
    );
    assert_eq!(
        upload.go_on(UploadItem::Chunk(vec![0; 4])).unwrap_err().message,
        "provider upload exceeds declared length"
    );
    assert_eq!(
        upload.go_on(UploadItem::Chunk(Vec::new())).unwrap_err().message,
        "provider upload chunk is empty"
    );
    assert_eq!(
        upload.go_on(start(5)).unwrap_err().message,
        "provider upload contains duplicate start"
    );
    assert_eq!(
        upload.go_on(UploadItem::Empty).unwrap_err().message,
        "provider upload item is empty"
    );
    upload.go_on(UploadItem::Chunk(vec![3, 4, 5])).unwrap();
    assert!(upload.finish().is_ok());
    let mut full = ProviderUpload { total_length: u64::MAX, received: u64::MAX };
    assert_eq!(
        full.go_on(UploadItem::Chunk(vec![1])).unwrap_err().message,
        "provider upload length overflow"
    );
    assert_eq!(
        ProviderUpload::begin(None).unwrap_err().message,
        "provider upload is missing start"
    );
    assert_eq!(
        ProviderUpload::begin(Some(UploadItem::Chunk(vec![1]))).unwrap_err().message,
        "provider upload chunk arrived before start"
    );
    assert_eq!(
        ProviderUpload::begin(Some(UploadItem::Start {
            file_name: "x".to_owned(),
            digest: vec![7; 31],
            total_length: 1
        }))
        .unwrap_err()
        .message,
        "invalid provider digest length"
    );
}

#[test]
fn requests_are_checked() {
    assert!(check_ready(true).is_ok());
    assert_eq!(
        check_ready(false).unwrap_err().message,
        "namespace listeners are not serving yet"
    );
    assert_eq!(stopped_count(5, 2).unwrap(), 3);
    assert_eq!(stopped_count(2, 5).unwrap(), 0);
    let action = ProgressTarget::Action(ActionId { value: 1 });
    let revision = ProgressTarget::DesiredRevision(ResourceRevision::new(1));
    assert_eq!(
        check_watch(ProgressTargetState::Unavailable, action, true).unwrap_err().code,
        ControlErrorCode::ActionUnavailable
    );
    assert_eq!(
        check_watch(ProgressTargetState::Unavailable, revision, true).unwrap_err().code,
        ControlErrorCode::NotFound
    );
    assert_eq!(
        check_watch(ProgressTargetState::Watching, revision, false).unwrap_err().code,
        ControlErrorCode::Busy
    );
    assert!(check_watch(ProgressTargetState::Watching, revision, true).is_ok());
    assert!(check_event(10, 10).is_ok());
    assert_eq!(check_event(11, 10).unwrap_err().code, ControlErrorCode::PlanTooLarge);
    assert!(check_tail(1, 500).is_ok());
    assert_eq!(
        check_tail(501, 500).unwrap_err().message,
        "tail_lines must be between 1 and 500"
    );
    assert!(check_tail(0, 500).is_err());
    assert_eq!(
        check_inspector(false, true).unwrap_err().message,
        "inspector stream disabled"
    );
    assert_eq!(check_inspector(true, false).unwrap_err().code, ControlErrorCode::Busy);
    assert_eq!(inspector_step(InspectorEvent::Lagged(3)), InspectorStep::SendDropped(3));
    assert_eq!(
        inspector_step(InspectorEvent::Shutdown { requested: false, closed: false }),
        InspectorStep::Wait
    );
}

fn metadata(id: u128, name: &str) -> ProviderMetadata {
    ProviderMetadata {
        id: artifact(id),
        name: name.to_owned(),
        version: "1".to_owned(),
        manifest: Vec::new(),
    }
}

#[test]
fn each_provider_is_listed_once_by_its_digest() {
    let rows = list_providers(
        vec![metadata(3, "c"), metadata(1, "a")],
        vec![metadata(2, "b"), metadata(1, "embedded")],
    );
    let listed: Vec<_> = rows
        .iter()
        .map(|row| (row.metadata.id.high, row.metadata.name.as_str(), row.embedded, row.retained))
        .collect();
    assert_eq!(
        listed,
        vec![(1, "a", true, true), (2, "b", true, false), (3, "c", false, true)]
    );
}

fn embedded(name: &str, size: usize) -> EmbeddedProvider {
    EmbeddedProvider {
        id: artifact(size as u128),
        file: format!("{name}.wasm"),
        bytes: vec![0; size],
        name: name.to_owned(),
        version: "1".to_owned(),
        manifest: b"{}".to_vec(),
    }
}

fn bundle(files: &[(&str, &[u8])]) -> Vec<u8> {
    let mut builder = tar::Builder::new(Vec::new());
    for (path, content) in files {
        let mut header = tar::Header::new_gnu();
        header.set_size(content.len() as u64);
        header.set_mode(0o644);
        header.set_cksum();
        builder.append_data(&mut header, path, *content).unwrap();
    }
    let archive = builder.into_inner().unwrap();
    zstd::stream::encode_all(&archive[..], 0).unwrap()
}

#[test]
fn bundle_contains_validated_product_providers_only() {
    let stage = read_bundle(&bundle(&[
        ("providers/web.wasm", b"web"),
        ("providers/demo.wasm", b"demo bytes"),
    ]));
    assert!(stage.failure.is_none());
    assert_eq!(stage.files.len(), 2);
    assert_eq!(stage.files[0].name, "web.wasm");
    assert_eq!(stage.files[1].bytes, b"demo bytes".to_vec());
    let loaded =
        EmbeddedProviders::load(stage, vec![Ok(embedded("web", 3)), Ok(embedded("demo", 9))])
            .unwrap();
    assert!(!loaded.entries.is_empty());
    assert!(loaded.entries.iter().all(|entry| entry.name != "test-provider"));
    assert_eq!(loaded.entries[0].name, "demo");
    assert_eq!(loaded.by_name("web").unwrap().bytes.len(), 3);
    assert!(loaded.by_name("test-provider").is_none());
    assert_eq!(loaded.metadata()[1].name, "web");
}

#[test]
fn a_damaged_bundle_is_refused() {
    let stage = read_bundle(b"not zstd");
    let failure = stage.failure.clone().unwrap();
    let cause = failure.strip_prefix("read embedded provider bundle entry: ").unwrap();
    assert!(!cause.is_empty());
    assert_eq!(EmbeddedProviders::load(stage, Vec::new()).unwrap_err(), failure);
    let stage = read_bundle(&bundle(&[("a.wasm", b"a"), ("b.wasm", b"b")]));
    let artifacts = vec![Ok(embedded("a", 1)), Err("no manifest".to_owned())];
    assert_eq!(
        EmbeddedProviders::load(stage, artifacts).unwrap_err(),
        "validate embedded provider artifact `b.wasm`: no manifest"
    );
    let torn = zstd::stream::encode_all(&[1_u8; 512][..], 0).unwrap();
    let failure = read_bundle(&torn).failure.unwrap();
    assert!(failure.starts_with("read embedded provider bundle entry: "), "{failure}");
    let stage = stage_items(vec![archived("a/..", b"x", 1)], Ok(()));
    assert_eq!(
        stage.failure.as_deref(),
        Some("embedded provider bundle entry has no file name")
    );
    let torn = Err(Damage::Content(b"b".to_vec(), "cut off".to_owned()));
    let stage = stage_items(vec![archived("a", b"x", 1)], torn);
    assert_eq!(stage.files.len(), 1);
    assert_eq!(stage.failure.as_deref(), Some("read embedded provider bundle file `b`: cut off"));
    for (damage, failure) in [
        (Damage::Decoder("full".to_owned()), "decode embedded provider bundle: full"),
        (Damage::Archive("moved".to_owned()), "read embedded provider bundle: moved"),
        (Damage::Header("odd".to_owned()), "read embedded provider bundle entry: odd"),
        (
            Damage::Content(b"..".to_vec(), "cut off".to_owned()),
            "embedded provider bundle entry has no file name",
        ),
    ] {
        assert_eq!(stage_items(Vec::new(), Err(damage)).failure.as_deref(), Some(failure));
    }
}

fn archived(path: &str, content: &[u8], size: u64) -> ArchivedFile {
    ArchivedFile { path: path.as_bytes().to_vec(), content: content.to_vec(), size }
}

/// Bytes that do not compress.
fn noise(len: usize) -> Vec<u8> {
    let mut state: u32 = 7;
    (0..len)
        .map(|_| {
            state = state.wrapping_mul(1_664_525).wrapping_add(1_013_904_223);
            (state >> 24) as u8
        })
        .collect()
}

#[test]
fn a_bundle_that_breaks_off_keeps_what_came_before() {
    let large = noise(600_000);
    let whole = bundle(&[("a.wasm", b"a"), ("b.wasm", &large), ("c.wasm", b"c")]);
    let stage = read_bundle(&whole[..300_000]);
    assert_eq!(stage.files.len(), 1);
    assert_eq!(stage.files[0].bytes, b"a".to_vec());
    let failure = stage.failure.unwrap();
    assert!(failure.starts_with("read embedded provider bundle file `b.wasm`: "), "{failure}");
    let stage = read_bundle(&whole[..2]);
    assert!(stage.files.is_empty());
    let failure = stage.failure.unwrap();
    assert!(failure.starts_with("read embedded provider bundle entry: "), "{failure}");
    let (left, outcome) = torn_files(vec![archived("a", b"x", 1)], "cut".to_owned());
    assert_eq!(left.len(), 1);
    assert_eq!(outcome, Err(Damage::Header("cut".to_owned())));
    let (left, outcome) =
        torn_files(vec![archived("a", b"x", 1), archived("b", b"x", 2)], "cut".to_owned());
    assert_eq!(left.len(), 1);
    assert_eq!(outcome, Err(Damage::Content(b"b".to_vec(), "cut".to_owned())));
}

#[test]
fn an_archive_without_an_end_marker_is_read_to_its_last_file() {
    let archive = zstd::stream::decode_all(&bundle(&[("a.wasm", b"a")])[..]).unwrap();
    let cut = zstd::stream::encode_all(&archive[..1024], 0).unwrap();
    let stage = read_bundle(&cut);
    assert_eq!(stage.failure, None);
    assert_eq!(stage.files.len(), 1);
    let cut = zstd::stream::encode_all(&archive[..513], 0).unwrap();
    let failure = read_bundle(&cut).failure.unwrap();
    assert!(failure.starts_with("read embedded provider bundle entry: "), "{failure}");
}

#[test]
fn a_sparse_file_that_claims_too_much_is_refused() {
    let sparse = |size: u64, magic: bool| {
        let mut header = tar::Header::new_gnu();
        header.set_path("a.wasm").unwrap();
        header.set_entry_type(tar::EntryType::GNUSparse);
        header.set_size(size);
        header.as_gnu_mut().unwrap().set_is_extended(true);
        if !magic {
            header.as_gnu_mut().unwrap().magic = *b"ustar\0";
        }
        header.set_cksum();
        let mut archive = header.as_bytes().to_vec();
        archive.extend_from_slice(&[0; 512]);
        zstd::stream::encode_all(&archive[..], 0).unwrap()
    };
    let claimed = "read embedded provider bundle entry: \
        a sparse file claims more than the archive holds";
    let stage = read_bundle(&sparse(u64::MAX - 1023, true));
    assert!(stage.files.is_empty());
    assert_eq!(stage.failure.as_deref(), Some(claimed));
    for failure in [
        read_bundle(&sparse(1 << 40, true)).failure.unwrap(),
        read_bundle(&sparse(u64::MAX - 1023, false)).failure.unwrap(),
    ] {
        assert!(failure.starts_with("read embedded provider bundle entry: "), "{failure}");
        assert_ne!(failure, claimed);
    }
}

#[test]
fn a_sparse_file_is_no_larger_by_a_record_either() {
    let mut archive = Vec::new();
    let record = b"29 size=18446744073709550592\n";
    let mut header = tar::Header::new_ustar();
    header.set_path("pax").unwrap();
    header.set_entry_type(tar::EntryType::XHeader);
    header.set_size(record.len() as u64);
    header.set_cksum();
    archive.extend_from_slice(header.as_bytes());
    archive.extend_from_slice(record);
    archive.resize(1024, 0);
    let mut header = tar::Header::new_gnu();
    header.set_path("a.wasm").unwrap();
    header.set_entry_type(tar::EntryType::GNUSparse);
    header.set_size(0);
    header.as_gnu_mut().unwrap().set_is_extended(true);
    header.set_cksum();
    archive.extend_from_slice(header.as_bytes());
    archive.resize(2048, 0);
    let stage = read_bundle(&zstd::stream::encode_all(&archive[..], 0).unwrap());
    assert_eq!(
        stage.failure.as_deref(),
        Some(
            "read embedded provider bundle entry: \
                a sparse file claims more than the archive holds"
        )
    );
}

/// The header of a sparse file that can never be read to its end.
fn endless() -> Vec<u8> {
    let mut header = tar::Header::new_gnu();
    header.set_path("z.wasm").unwrap();
    header.set_entry_type(tar::EntryType::GNUSparse);
    header.set_size(u64::MAX - 1023);
    header.as_gnu_mut().unwrap().set_is_extended(true);
    header.set_cksum();
    header.as_bytes().to_vec()
}

#[test]
fn only_a_header_that_is_come_to_can_claim_too_much() {
    let block = endless();
    let stage = read_bundle(&bundle(&[("a.wasm", &block), ("b.wasm", b"b")]));
    assert_eq!(stage.failure, None);
    assert_eq!(stage.files.len(), 2);
    assert_eq!(stage.files[0].bytes, block);

    let mut archive = vec![0; 512];
    archive.extend_from_slice(&block);
    let stage = read_bundle(&zstd::stream::encode_all(&archive[..], 0).unwrap());
    assert_eq!(stage.failure, None);
    assert!(stage.files.is_empty());

    let whole = zstd::stream::decode_all(&bundle(&[("a.wasm", b"a")])[..]).unwrap();
    let mut archive = whole[..1024].to_vec();
    archive.extend_from_slice(&block);
    let stage = read_bundle(&zstd::stream::encode_all(&archive[..], 0).unwrap());
    assert_eq!(stage.files.len(), 1);
    assert_eq!(stage.files[0].name, "a.wasm");
    assert_eq!(
        stage.failure.as_deref(),
        Some(
            "read embedded provider bundle entry: \
                a sparse file claims more than the archive holds"
        )
    );
}

#[test]
fn a_record_in_a_file_makes_no_sparse_file_larger() {
    let text = b"29 size=18446744073709550592\n";
    let mut archive = zstd::stream::decode_all(&bundle(&[("a.wasm", text)])[..]).unwrap();
    archive.truncate(1024);
    let mut header = tar::Header::new_gnu();
    header.set_path("b.wasm").unwrap();
    header.set_entry_type(tar::EntryType::GNUSparse);
    header.set_size(0);
    header.as_gnu_mut().unwrap().realsize = *b"00000000000\0";
    header.set_cksum();
    archive.extend_from_slice(header.as_bytes());
    archive.resize(2560, 0);
    let stage = read_bundle(&zstd::stream::encode_all(&archive[..], 0).unwrap());
    assert_eq!(stage.failure, None);
    assert_eq!(stage.files.len(), 2);
    assert!(stage.files[1].bytes.is_empty());
}

#[test]
fn what_follows_the_archive_is_not_read() {
    let mut bytes = bundle(&[("a.wasm", b"a")]);
    bytes.extend_from_slice(b"rubbish behind the last frame");
    let stage = read_bundle(&bytes);
    assert_eq!(stage.failure, None);
    assert_eq!(stage.files.len(), 1);
    assert_eq!(stage.files[0].name, "a.wasm");
}

#[test]
fn a_file_name_is_the_last_component() {
    for (path, name) in [
        (&b"a/b.wasm"[..], Some(&b"b.wasm"[..])),
        (b"b.wasm", Some(b"b.wasm")),
        (b"a/b/", Some(b"b")),
        (b"a/./", Some(b"a")),
        (b"a/..", None),
        (b"/", None),
        (b"", None),
        (b".", None),
    ] {
        assert_eq!(file_name(path).as_deref(), name, "{path:?}");
    }
}

#[test]
fn offers_are_numbered() {
    let mut sequence = RecoverySequence { next: 0x0102 };
    let first = sequence.next_recovery_id();
    let second = sequence.next_recovery_id();
    assert_eq!(first.bytes[..3], [2, 1, 0]);
    assert_ne!(first, second);
    assert_eq!(recovery_id(0), RecoveryId { bytes: [0; 16] });
    let runtime = runtime_failure(
        "boom".to_owned(),
        Ok(ResourceRevision::new(4)),
        Err("unread".to_owned()),
    );
    let shown = runtime.recovery(&mut sequence);
    assert!(shown.repair.is_none());
    assert_eq!(shown.durable_revision, Some(ResourceRevision::new(4)));
    assert_eq!(shown.serving_revision, None);
    assert_eq!(runtime.error(), "boom");
}

#[test]
fn corrupt_store_stays_control_visible_and_repairs_in_process() {
    let mut cycle = StartupCycle::begin(RecoverySequence { next: 0 });
    let ask = cycle.resume(StartupEvent::StoreOpened { error: Some("not sqlite".to_owned()) });
    let first = match ask {
        StartupAsk::Show(recovery) => recovery.repair.unwrap(),
        other => panic!("unexpected ask: {other:?}"),
    };
    let ask = cycle.resume(StartupEvent::RepairRequested);
    assert!(matches!(ask, StartupAsk::Repair));
    let ask = cycle.resume(StartupEvent::Repaired { error: Some("again".to_owned()) });
    let second = match ask {
        StartupAsk::Show(recovery) => recovery.repair.unwrap(),
        other => panic!("unexpected ask: {other:?}"),
    };
    assert_ne!(first.id, second.id);
    cycle.resume(StartupEvent::RepairRequested);
    let ask = cycle.resume(StartupEvent::Repaired { error: None });
    assert!(matches!(ask, StartupAsk::Build));
    let ask = cycle.resume(StartupEvent::RuntimeBuilt { failure: None });
    assert!(matches!(ask, StartupAsk::Supervise));
    let ask = cycle.resume(StartupEvent::Supervised { error: None });
    assert!(matches!(ask, StartupAsk::Stop));
    assert_eq!(cycle.stage, StartupStage::Stopped { error: None });
    assert!(matches!(cycle.resume(StartupEvent::RepairRequested), StartupAsk::Nothing));
}

#[test]
fn a_recovering_daemon_stops_when_asked() {
    let mut cycle = StartupCycle::begin(RecoverySequence { next: 0 });
    cycle.resume(StartupEvent::StoreOpened { error: Some("not sqlite".to_owned()) });
    let ask = cycle.resume(StartupEvent::ShutdownChanged { closed: false, requested: false });
    assert!(matches!(ask, StartupAsk::Show(_)));
    let ask = cycle.resume(StartupEvent::ShutdownChanged { closed: false, requested: true });
    assert!(matches!(ask, StartupAsk::Stop));
    let mut cycle = StartupCycle::begin(RecoverySequence { next: 0 });
    cycle.resume(StartupEvent::StoreOpened { error: Some("not sqlite".to_owned()) });
    cycle.resume(StartupEvent::RepairQueueClosed);
    assert_eq!(
        cycle.stage,
        StartupStage::Stopped { error: Some("control repair queue closed".to_owned()) }
    );
}

#[test]
fn a_rejected_runtime_is_closed() {
    assert_eq!(begin_build(), BuildAsk::Run(BuildStep::EnqueueProviders));
    assert_eq!(
        after_step(BuildStep::OpenResources, false),
        BuildAsk::Run(BuildStep::StartDaemon)
    );
    assert_eq!(after_step(BuildStep::InstallSupervisor, false), BuildAsk::Serve);
    assert_eq!(
        after_step(BuildStep::StartDaemon, true),
        BuildAsk::Close(Teardown::StopDaemon)
    );
    assert_eq!(after_step(BuildStep::OpenHost, true), BuildAsk::Close(Teardown::CloseStore));
    assert_eq!(unpublish_process_identity(Ok(true)), IdentityCleanup::Removed);
    assert_eq!(unpublish_process_identity(Ok(false)), IdentityCleanup::LeftIntact);
    assert_eq!(unpublish_process_identity(Err("x".to_owned())), IdentityCleanup::Failed);
}

#[test]
fn small_artifacts_are_prepared_first() {
    let ordered = embedded_order(vec![
        BySize { provider: embedded("large", 9) },
        BySize { provider: embedded("small", 1) },
        BySize { provider: embedded("also-large", 9) },
    ]);
    let names: Vec<_> = ordered.iter().map(|entry| entry.provider.name.as_str()).collect();
    assert_eq!(names, vec!["small", "large", "also-large"]);
}

#[test]
fn a_mounted_artifact_is_prepared_under_its_names() {
    let resources = vec![
        DesiredResource::Provider { name: ResourceName::new("a"), artifact: artifact(1) },
        DesiredResource::Provider { name: ResourceName::new("b"), artifact: artifact(1) },
        DesiredResource::Provider { name: ResourceName::new("c"), artifact: artifact(2) },
        DesiredResource::Mount {
            name: ResourceName::new("m"),
            provider: ResourceName::new("a"),
            credential: None,
        },
    ];
    let (priority, names) = retained_job(&resources, artifact(1));
    assert_eq!(priority, ProviderPriority::Desired);
    assert_eq!(names, vec![ResourceName::new("a"), ResourceName::new("b")]);
    let (priority, names) = retained_job(&resources, artifact(2));
    assert_eq!(priority, ProviderPriority::Retained);
    assert!(names.is_empty());
}

#[test]
fn the_first_error_counts() {
    assert_eq!(first_error::<String>(vec![Ok(()), Ok(())]), (Ok(()), Vec::new()));
    assert_eq!(
        first_error(vec![Ok(()), Err("one"), Ok(()), Err("two"), Err("three")]),
        (Err("one"), vec!["two", "three"])
    );
}

#[test]
fn connections_are_taken_in_until_the_stop() {
    assert_eq!(accept_step(AcceptEvent::Prepared), AcceptStep::Wait);
    assert_eq!(
        accept_step(AcceptEvent::Connected { verified: true, room: true }),
        AcceptStep::Meet(Admission::Prepare)
    );
    assert_eq!(
        accept_step(AcceptEvent::Connected { verified: false, room: true }),
        AcceptStep::Meet(Admission::Reject)
    );
    assert_eq!(
        accept_step(AcceptEvent::Connected { verified: true, room: false }),
        AcceptStep::Meet(Admission::Drop)
    );
    assert_eq!(accept_step(AcceptEvent::Shutdown), AcceptStep::Stop);
    assert_eq!(accept_step(AcceptEvent::ListenerFailed), AcceptStep::Stop);
}

#[test]
fn the_failure_of_the_server_counts_first() {
    assert_eq!(serving_ended(Ok(()), None), Ok(()));
    assert_eq!(
        serving_ended(Err("closed".to_owned()), Some("gone".to_owned())),
        Err("serve control socket: closed".to_owned())
    );
    assert_eq!(
        serving_ended(Ok(()), Some("gone".to_owned())),
        Err("control listener exited: gone".to_owned())
    );
}

fn done() -> LifeReply {
    LifeReply::Done { error: None }
}

fn failed(error: &str) -> LifeReply {
    LifeReply::Done { error: Some(error.to_owned()) }
}

fn advance_to(life: &mut Lifecycle, step: LifeStep) {
    while life.step != step {
        assert!(life.resume(done()));
    }
}

#[test]
fn a_run_without_a_failure_ends_without_one() {
    let mut life = Lifecycle::begin();
    assert_eq!(life.step, LifeStep::ResolveContext);
    advance_to(&mut life, LifeStep::Serve);
    assert!(life.preparer);
    assert!(!life.resume(done()));
    assert!(life.resume(LifeReply::Served { error: None, left_runtime: true }));
    let mut steps = Vec::new();
    while life.step != LifeStep::Exit {
        steps.push(life.step);
        assert!(life.resume(done()));
    }
    assert_eq!(
        steps,
        vec![
            LifeStep::ShowShuttingDown,
            LifeStep::SendShutdown,
            LifeStep::StopSignals,
            LifeStep::JoinControl,
            LifeStep::StopDaemon,
            LifeStep::StopPreparer,
            LifeStep::UnpublishIdentity,
        ]
    );
    assert!(!life.resume(done()));
    assert_eq!(life.end(), (Ok(()), Vec::new()));
}

#[test]
fn a_run_ends_with_its_first_failure() {
    let mut life = Lifecycle::begin();
    advance_to(&mut life, LifeStep::Serve);
    assert!(life.resume(LifeReply::Served { error: None, left_runtime: false }));
    advance_to(&mut life, LifeStep::JoinControl);
    assert!(life.resume(failed("closed")));
    assert_eq!(life.step, LifeStep::StopPreparer);
    assert!(life.resume(failed("preparer is gone")));
    assert_eq!(life.step, LifeStep::UnpublishIdentity);
    assert!(life.resume(done()));
    assert_eq!(life.step, LifeStep::Exit);
    assert_eq!(
        life.end(),
        (
            Err("serve control socket: closed".to_owned()),
            vec!["preparer is gone".to_owned()]
        )
    );
}

#[test]
fn a_lost_control_task_ends_the_run_at_once() {
    let mut life = Lifecycle::begin();
    advance_to(&mut life, LifeStep::Serve);
    let served = LifeReply::Served { error: Some("listener".to_owned()), left_runtime: true };
    assert!(life.resume(served));
    advance_to(&mut life, LifeStep::JoinControl);
    assert!(life.resume(LifeReply::Lost { error: "panicked".to_owned() }));
    assert_eq!(life.step, LifeStep::Exit);
    assert_eq!(life.end(), (Err("join control server: panicked".to_owned()), Vec::new()));
}

#[test]
fn an_aborted_run_is_taken_back() {
    let mut life = Lifecycle::begin();
    advance_to(&mut life, LifeStep::PublishIdentity);
    assert!(life.resume(failed("read-only")));
    assert_eq!(life.step, LifeStep::RemoveSocket);
    assert!(life.resume(done()));
    assert_eq!(life.step, LifeStep::Exit);
    assert_eq!(life.end(), (Err("read-only".to_owned()), Vec::new()));

    let mut life = Lifecycle::begin();
    advance_to(&mut life, LifeStep::PrepareEngine);
    assert!(life.resume(failed("no cache")));
    advance_to(&mut life, LifeStep::JoinControl);
    assert!(life.resume(LifeReply::Lost { error: "panicked".to_owned() }));
    assert_eq!(life.step, LifeStep::UnpublishIdentity);
    assert!(life.resume(done()));
    assert_eq!(life.end(), (Err("no cache".to_owned()), Vec::new()));

    let mut life = Lifecycle::begin();
    advance_to(&mut life, LifeStep::EnqueueEmbedded);
    assert!(life.resume(failed("too large")));
    advance_to(&mut life, LifeStep::JoinControl);
    assert!(life.resume(failed("closed")));
    assert_eq!(life.step, LifeStep::StopPreparer);
    assert!(life.resume(failed("preparer is gone")));
    assert_eq!(life.step, LifeStep::UnpublishIdentity);
    assert_eq!(life.end(), (Err("too large".to_owned()), Vec::new()));
}
