//! Credentials and the generations that use them.
use omnifs_daemon::auth_fingerprint::auth_fingerprint;
use omnifs_daemon::credential_codec::{
    decode_payload, encode_payload, refreshed_material, AuthKind, CredentialEntry,
    CredentialMaterial,
};
use omnifs_daemon::credential_document::{
    decode_entry, material_scopes, prepare_credential_document, runtime_overrides,
    validate_payload, AuthScheme, CredentialClientOverrides, CredentialId, CredentialSubmission,
    SubmissionProvider, FIRST_SECOND, LAST_SECOND,
};
use omnifs_daemon::generation_builder::bind::{
    build_auth_binding, build_mount_input, LoadedProvider, MountBuildState,
};
use omnifs_daemon::generation_builder::refresh_sink::{
    map_refresh_error, persisted, refresh_document, CredentialWriteError, RefreshCandidate,
    RefreshKind, RefreshPersistError, RefreshPersistence,
};
use omnifs_daemon::generation_builder::resolve::{
    resolve_credentials, resolve_mounts, resolve_providers, settle_credentials, MountPlan,
    ResourceDefinition,
};
use omnifs_daemon::generation_builder::revocation::{
    prepare_credential_revocation, revocation_finish, revocation_target, IssuingProvider,
    PreparedCredentialRevocation, RevocationReply, StoredPayload,
};
use omnifs_daemon::generation_builder::{
    collect_credential, credential_scopes, providers_to_load, CredentialRuntime, CredentialState,
    CredentialSummary, GenerationDraft, ProviderRef, ResolvedMount,
};
use omnifs_daemon::name::{ProviderId, ResourceName, ResourceRevision};
use omnifs_daemon::serving_reconciler::finish::RevocationActionOutcome;

fn name(value: &str) -> ResourceName {
    ResourceName::new(value)
}

fn oauth_material(expires_at_unix: Option<i64>) -> CredentialMaterial {
    CredentialMaterial::OAuth {
        access_token: b"access".to_vec(),
        refresh_token: Some(b"refresh".to_vec()),
        expires_at_unix,
        token_type: "Bearer".to_owned(),
        scopes: vec!["read".to_owned()],
        upstream_identity: Some("me".to_owned()),
    }
}

fn static_material(token: &[u8]) -> CredentialMaterial {
    CredentialMaterial::StaticToken { token: token.to_vec() }
}

fn no_overrides() -> CredentialClientOverrides {
    CredentialClientOverrides {
        client_id: None,
        client_secret: None,
        redirect_uri: None,
        scopes: None,
    }
}

fn static_scheme() -> AuthScheme {
    AuthScheme::StaticToken {
        inject_domains: vec!["api.example".to_owned()],
        header_name: None,
        value_prefix: Some("Bearer ".to_owned()),
    }
}

fn oauth_scheme(revocation_endpoint: Option<&str>) -> AuthScheme {
    AuthScheme::Oauth {
        inject_domains: vec!["api.example".to_owned()],
        inject_header_name: Some("X-Auth".to_owned()),
        inject_value_prefix: None,
        revocation_endpoint: revocation_endpoint.map(str::to_owned),
    }
}

fn artifact(value: u128) -> ProviderId {
    ProviderId { high: value, low: 0 }
}

fn id(account: &str) -> CredentialId {
    CredentialId::new("demo", "oauth", account)
}

fn runtime(account: &str, provider: u128, kind: AuthKind, encoded: &[u8]) -> CredentialRuntime {
    CredentialRuntime {
        id: id(account),
        provider: artifact(provider),
        kind,
        fingerprint: auth_fingerprint(encoded),
        version: 3,
        generation: 4,
        entry: CredentialEntry::StaticToken { token: "t".to_owned() },
        overrides: no_overrides(),
    }
}

fn summary(account: &str, kind: AuthKind, state: CredentialState) -> CredentialSummary {
    CredentialSummary {
        id: id(account),
        provider: artifact(1),
        kind,
        auth_fingerprint: auth_fingerprint(b"encoded"),
        version: 3,
        generation: 4,
        state,
    }
}

#[test]
fn a_payload_is_stored_behind_its_prefix() {
    let stored = encode_payload(b"payload");
    assert_eq!(stored, b"omnifs.credential.v1\0payload".to_vec());
    assert_eq!(decode_payload(&stored), Ok(b"payload".to_vec()));
    assert_eq!(decode_payload(&encode_payload(b"")), Ok(Vec::new()));
}

#[test]
fn an_unknown_encoding_is_refused() {
    for stored in [&b""[..], b"omnifs.credential.v1", b"omnifs.credential.v2\0payload"] {
        assert_eq!(
            decode_payload(stored),
            Err("credential material has an unknown encoding".to_owned())
        );
    }
}

#[test]
fn a_refreshed_credential_survives_storage() {
    let entry = decode_entry(&oauth_material(Some(1_700_000_000))).unwrap();
    match refreshed_material(&entry).unwrap() {
        CredentialMaterial::OAuth {
            access_token,
            refresh_token,
            expires_at_unix,
            token_type,
            scopes,
            upstream_identity,
        } => {
            assert_eq!(access_token, b"access");
            assert_eq!(refresh_token.as_deref(), Some(&b"refresh"[..]));
            assert_eq!(expires_at_unix, Some(1_700_000_000));
            assert_eq!(token_type, "Bearer");
            assert_eq!(scopes, vec!["read".to_owned()]);
            assert_eq!(upstream_identity.as_deref(), Some("me"));
        }
        other => panic!("unexpected material: {other:?}"),
    }
    let fixed = decode_entry(&static_material(b"t")).unwrap();
    assert_eq!(
        refreshed_material(&fixed).unwrap_err(),
        "only OAuth credentials can refresh"
    );
}

#[test]
fn tokens_have_to_be_text() {
    assert_eq!(
        decode_entry(&static_material(&[0xff])).unwrap_err(),
        "credential token is not UTF-8"
    );
    assert!(matches!(
        decode_entry(&static_material("tökén".as_bytes())).unwrap(),
        CredentialEntry::StaticToken { token } if token == "tökén"
    ));
}

#[test]
fn an_expiry_has_to_be_a_calendar_second() {
    for seconds in [FIRST_SECOND, 0, LAST_SECOND] {
        assert!(decode_entry(&oauth_material(Some(seconds))).is_ok(), "{seconds}");
    }
    for seconds in [FIRST_SECOND - 1, LAST_SECOND + 1, i64::MIN, i64::MAX] {
        assert_eq!(
            decode_entry(&oauth_material(Some(seconds))).unwrap_err(),
            "credential expiry is outside the supported timestamp range"
        );
    }
}

#[test]
fn material_is_held_against_its_scheme() {
    let (kind, request) =
        validate_payload(&static_scheme(), &static_material(b"t"), &no_overrides()).unwrap();
    assert_eq!(kind, AuthKind::StaticToken);
    assert!(request.is_none());
    let mut overrides = no_overrides();
    overrides.client_id = Some("client".to_owned());
    assert_eq!(
        validate_payload(&static_scheme(), &static_material(b"t"), &overrides).unwrap_err(),
        "static-token credentials do not accept OAuth overrides"
    );
    assert_eq!(
        validate_payload(&static_scheme(), &oauth_material(None), &no_overrides()).unwrap_err(),
        "credential material does not match provider auth scheme"
    );
    overrides.client_secret = Some(b"secret".to_vec());
    let (kind, request) =
        validate_payload(&oauth_scheme(None), &oauth_material(None), &overrides).unwrap();
    assert_eq!(kind, AuthKind::OAuth);
    assert_eq!(request.unwrap().client_secret.as_deref(), Some("secret"));
    overrides.client_secret = Some(vec![0xff]);
    assert!(runtime_overrides(&overrides).is_err());
    assert_eq!(material_scopes(&oauth_material(None)), vec!["read".to_owned()]);
    assert!(material_scopes(&static_material(b"t")).is_empty());
}

fn submission(material: CredentialMaterial) -> CredentialSubmission {
    CredentialSubmission {
        provider: artifact(1),
        provider_text: "abc".to_owned(),
        scheme: "oauth".to_owned(),
        account_label: "me".to_owned(),
        material,
        overrides: no_overrides(),
    }
}

#[test]
fn a_submission_becomes_a_document() {
    let draft = prepare_credential_document(
        &submission(oauth_material(None)),
        Some(SubmissionProvider {
            id: Ok(id("me")),
            scheme: Some((oauth_scheme(None), b"encoded".to_vec())),
        }),
    )
    .unwrap();
    assert_eq!(draft.kind, AuthKind::OAuth);
    assert_eq!(draft.scopes, vec!["read".to_owned()]);
    assert!(draft.auth_fingerprint.same(&auth_fingerprint(b"encoded")));
    assert!(!draft.auth_fingerprint.same(&auth_fingerprint(b"other")));
    assert_eq!(
        prepare_credential_document(&submission(oauth_material(None)), None).unwrap_err(),
        "provider abc is not retained"
    );
    assert_eq!(
        prepare_credential_document(
            &submission(oauth_material(None)),
            Some(SubmissionProvider { id: Ok(id("me")), scheme: None })
        )
        .unwrap_err(),
        "provider declares no auth scheme `oauth`"
    );
    assert_eq!(
        prepare_credential_document(
            &submission(oauth_material(None)),
            Some(SubmissionProvider { id: Err("bad account".to_owned()), scheme: None })
        )
        .unwrap_err(),
        "bad account"
    );
}

fn provider(resource: &str, retained: Option<u128>) -> ResourceDefinition {
    ResourceDefinition::Provider {
        name: name(resource),
        artifact_text: "abc".to_owned(),
        retained: retained.map(|value| ProviderRef {
            id: artifact(value),
            name: "demo".to_owned(),
            version: None,
        }),
    }
}

fn credential(resource: &str, of: &str) -> ResourceDefinition {
    ResourceDefinition::Credential {
        name: name(resource),
        provider: name(of),
        scheme: "oauth".to_owned(),
        account: resource.to_owned(),
    }
}

fn mount(resource: &str, of: &str, with: Option<&str>) -> ResourceDefinition {
    ResourceDefinition::Mount {
        name: name(resource),
        provider: name(of),
        credential: with.map(name),
        max_fetch_blob_bytes: Some(9),
    }
}

fn resolve(resources: &Vec<ResourceDefinition>) -> Result<Vec<MountPlan>, String> {
    let providers = resolve_providers(resources)?;
    let stage = resolve_credentials(resources, &providers);
    let refusals = vec![None; stage.bindings.len()];
    let ids = settle_credentials(stage, refusals)?;
    resolve_mounts(resources, &providers, &ids)
}

#[test]
fn names_stand_for_artifacts_and_identities() {
    let mounts = resolve(&vec![
        mount("m", "p", Some("c")),
        provider("p", Some(1)),
        credential("c", "p"),
        mount("n", "p", None),
    ])
    .unwrap();
    assert_eq!(mounts.len(), 2);
    assert_eq!(mounts[0].provider.id, artifact(1));
    assert_eq!(mounts[0].credential.as_ref().unwrap().account, "c");
    assert_eq!(mounts[0].max_fetch_blob_bytes, Some(9));
    assert!(mounts[1].credential.is_none());
}

#[test]
fn an_absent_name_fails_the_resolution() {
    assert_eq!(
        resolve(&vec![provider("p", None)]).unwrap_err(),
        "provider resource `p` artifact abc is not retained"
    );
    assert_eq!(
        resolve(&vec![credential("c", "p")]).unwrap_err(),
        "credential resource `c` provider `p` is absent"
    );
    assert_eq!(
        resolve(&vec![mount("m", "p", None)]).unwrap_err(),
        "mount resource `m` provider `p` is absent"
    );
    assert_eq!(
        resolve(&vec![provider("p", Some(1)), mount("m", "p", Some("c"))]).unwrap_err(),
        "mount resource `m` credential `c` is absent"
    );
    let resources = vec![provider("p", Some(1)), credential("c", "p"), credential("d", "gone")];
    let providers = resolve_providers(&resources).unwrap();
    let stage = resolve_credentials(&resources, &providers);
    assert_eq!(stage.bindings.len(), 1);
    let error = settle_credentials(stage, vec![Some("bad account".to_owned())]).unwrap_err();
    assert_eq!(error, "bad account");
}

fn resolved(resource: &str, provider: u128, with: Option<&str>, canonical: &[u8]) -> ResolvedMount {
    ResolvedMount::new(
        MountPlan {
            name: name(resource),
            provider: ProviderRef {
                id: artifact(provider),
                name: "demo".to_owned(),
                version: None,
            },
            credential: with.map(id),
            max_fetch_blob_bytes: None,
        },
        canonical.to_vec(),
        ResourceRevision::new(5),
    )
}

#[test]
fn a_mount_version_depends_on_its_canonical_form() {
    let one = resolved("m", 1, None, b"one");
    let same = resolved("m", 1, None, b"one");
    let other = resolved("m", 1, None, b"two");
    assert_eq!(one.version, same.version);
    assert_ne!(one.version, other.version);
    assert_ne!(&one.version.digest[..], &auth_fingerprint(b"one").digest[..]);
    let draft = GenerationDraft {
        revision: ResourceRevision::new(5),
        mounts: vec![one, resolved("n", 2, None, b"n"), resolved("o", 1, None, b"o")],
        credentials: vec![runtime("me", 1, AuthKind::OAuth, b"encoded")],
        pending_refreshes: Vec::new(),
    };
    let provenance = draft.provenance();
    assert_eq!(provenance.revision, ResourceRevision::new(5));
    assert_eq!(provenance.mounts.len(), 3);
    assert_eq!(provenance.mounts[0].version, same.version);
    assert_eq!(provenance.credentials[0].generation, 4);
    assert_eq!(providers_to_load(&draft.mounts), vec![artifact(1), artifact(2)]);
}

#[test]
fn only_usable_credentials_enter_a_generation() {
    let mut credentials = Vec::new();
    let mut pending = Vec::new();
    let decoded = || {
        Ok((CredentialEntry::StaticToken { token: "t".to_owned() }, no_overrides()))
    };
    for state in [
        CredentialState::Active,
        CredentialState::PendingRepublish,
        CredentialState::Blocked,
        CredentialState::RevocationPending,
        CredentialState::RevocationUnknown,
        CredentialState::Deleted,
    ] {
        collect_credential(
            summary("me", AuthKind::StaticToken, state),
            decoded(),
            &mut credentials,
            &mut pending,
        )
        .unwrap();
    }
    assert_eq!(credentials.len(), 2);
    assert_eq!(pending.len(), 1);
    let broken = || Err("broken".to_owned());
    assert_eq!(
        collect_credential(
            summary("me", AuthKind::StaticToken, CredentialState::Active),
            broken(),
            &mut credentials,
            &mut pending,
        ),
        Err("broken".to_owned())
    );
    assert!(collect_credential(
        summary("me", AuthKind::StaticToken, CredentialState::Deleted),
        broken(),
        &mut credentials,
        &mut pending,
    )
    .is_ok());
    assert_eq!(
        credential_scopes(CredentialState::Active, &Ok(oauth_material(None))),
        Ok(vec!["read".to_owned()])
    );
    assert_eq!(credential_scopes(CredentialState::Deleted, &Err("x".to_owned())), Ok(Vec::new()));
    assert!(credential_scopes(CredentialState::Active, &Err("x".to_owned())).is_err());
}

fn loaded(provider: u128, scheme: Option<AuthScheme>, encoded: &[u8]) -> LoadedProvider {
    LoadedProvider { id: artifact(provider), scheme, encoded: encoded.to_vec() }
}

#[test]
fn only_a_missing_credential_degrades_a_mount() {
    let plain = resolved("m", 1, None, b"m");
    let with = resolved("m", 1, Some("me"), b"m");
    assert!(matches!(
        build_mount_input(&plain, None, &Vec::new()).unwrap(),
        MountBuildState::ProviderUnavailable
    ));
    let provider = loaded(1, Some(oauth_scheme(None)), b"encoded");
    assert!(matches!(
        build_mount_input(&plain, Some(&provider), &Vec::new()).unwrap(),
        MountBuildState::Active { auth: None, credential_generation: None }
    ));
    assert!(matches!(
        build_mount_input(&with, Some(&provider), &Vec::new()).unwrap(),
        MountBuildState::AuthRequired
    ));
    let foreign = vec![runtime("me", 2, AuthKind::OAuth, b"encoded")];
    assert!(matches!(
        build_mount_input(&with, Some(&provider), &foreign).unwrap(),
        MountBuildState::AuthRequired
    ));
    let bound = vec![runtime("me", 1, AuthKind::OAuth, b"encoded")];
    match build_mount_input(&with, Some(&provider), &bound).unwrap() {
        MountBuildState::Active { auth: Some(plan), credential_generation } => {
            assert_eq!(plan.header_name, "X-Auth");
            assert!(plan.request.is_some());
            assert_eq!(credential_generation, Some(4));
        }
        other => panic!("unexpected state: {other:?}"),
    }
    let stale = vec![runtime("me", 1, AuthKind::OAuth, b"earlier")];
    assert_eq!(
        build_mount_input(&with, Some(&provider), &stale).unwrap_err(),
        "credential auth runtime no longer matches the pinned provider"
    );
}

#[test]
fn a_binding_fits_scheme_and_kind() {
    let fixed = runtime("me", 1, AuthKind::StaticToken, b"encoded");
    let plan = build_auth_binding(&fixed, Some(&static_scheme()), b"encoded").unwrap();
    assert_eq!(plan.header_name, "Authorization");
    assert_eq!(plan.value_prefix.as_deref(), Some("Bearer "));
    assert!(plan.request.is_none());
    assert_eq!(
        build_auth_binding(&fixed, None, b"encoded").unwrap_err(),
        "credential scheme is absent from the pinned provider"
    );
    assert_eq!(
        build_auth_binding(&fixed, Some(&oauth_scheme(None)), b"encoded").unwrap_err(),
        "credential kind does not match its provider scheme"
    );
}

fn candidate(account: &str, refreshed: CredentialEntry) -> RefreshCandidate {
    RefreshCandidate {
        credential_id: id(account),
        refreshed,
        kind: RefreshKind::Routine,
        expected_version: 3,
    }
}

#[test]
fn only_oauth_credentials_of_the_generation_are_refreshed() {
    let credentials = vec![
        runtime("me", 1, AuthKind::OAuth, b"encoded"),
        runtime("fixed", 1, AuthKind::StaticToken, b"encoded"),
    ];
    let entry = || decode_entry(&oauth_material(None)).unwrap();
    let document = refresh_document(&candidate("me", entry()), &credentials).unwrap();
    assert_eq!(document.place, 0);
    assert_eq!(document.scopes, vec!["read".to_owned()]);
    assert_eq!(
        refresh_document(&candidate("gone", entry()), &credentials).unwrap_err(),
        RefreshPersistError::Rejected
    );
    assert_eq!(
        refresh_document(&candidate("fixed", entry()), &credentials).unwrap_err(),
        RefreshPersistError::Rejected
    );
    assert_eq!(
        persisted(Ok((CredentialState::PendingRepublish, 8))),
        Ok(RefreshPersistence::PendingRepublish { version: 8 })
    );
    assert_eq!(
        persisted(Ok((CredentialState::Blocked, 8))),
        Err(RefreshPersistError::Rejected)
    );
    assert_eq!(
        map_refresh_error(CredentialWriteError::Conflict),
        RefreshPersistError::Conflict
    );
    assert_eq!(
        map_refresh_error(CredentialWriteError::Store),
        RefreshPersistError::Unavailable
    );
    assert_eq!(
        persisted(Err(CredentialWriteError::NotFound)),
        Err(RefreshPersistError::Rejected)
    );
}

fn payload() -> Result<StoredPayload, String> {
    Ok(StoredPayload { material: oauth_material(None), overrides: no_overrides() })
}

fn issuer(scheme: AuthScheme) -> Option<IssuingProvider> {
    Some(IssuingProvider { scheme: Some((scheme, b"encoded".to_vec())) })
}

#[test]
fn only_a_matching_credential_is_revoked_upstream() {
    let stored = summary("me", AuthKind::OAuth, CredentialState::RevocationPending);
    let revoke = |provider, payload| {
        prepare_credential_revocation(&stored, "abc", provider, payload)
    };
    match revoke(issuer(oauth_scheme(Some("https://revoke"))), payload()).unwrap() {
        PreparedCredentialRevocation::Remote { access_token, .. } => {
            assert_eq!(access_token, "access");
        }
        other => panic!("unexpected revocation: {other:?}"),
    }
    assert!(matches!(
        revoke(issuer(oauth_scheme(None)), payload()).unwrap(),
        PreparedCredentialRevocation::LocalOnly
    ));
    assert_eq!(revoke(None, payload()).unwrap_err(), "provider abc is not retained");
    assert_eq!(
        revoke(Some(IssuingProvider { scheme: None }), payload()).unwrap_err(),
        "provider declares no auth scheme `oauth`"
    );
    assert_eq!(
        revoke(issuer(static_scheme()), payload()).unwrap_err(),
        "stored OAuth credential no longer matches its provider scheme"
    );
    let other = Some(IssuingProvider {
        scheme: Some((oauth_scheme(Some("https://revoke")), b"changed".to_vec())),
    });
    assert_eq!(
        revoke(other, payload()).unwrap_err(),
        "stored OAuth runtime does not match its provider"
    );
    let fixed = summary("me", AuthKind::StaticToken, CredentialState::RevocationPending);
    assert!(matches!(
        prepare_credential_revocation(&fixed, "abc", None, Err("unread".to_owned())).unwrap(),
        PreparedCredentialRevocation::LocalOnly
    ));
}

#[test]
fn a_revocation_finds_its_credential() {
    let resources = vec![provider("p", Some(1)), credential("c", "p"), credential("d", "gone")];
    let found = revocation_target(&resources, &name("c")).unwrap();
    assert_eq!(found.provider_name, "demo");
    assert_eq!(found.account, "c");
    assert_eq!(
        revocation_target(&resources, &name("x")).unwrap_err(),
        "credential resource `x` is absent"
    );
    assert_eq!(
        revocation_target(&resources, &name("d")).unwrap_err(),
        "credential resource `d` provider `gone` is absent"
    );
    assert_eq!(
        revocation_target(&vec![provider("p", None), credential("c", "p")], &name("c"))
            .unwrap_err(),
        "provider abc is not retained"
    );
    assert_eq!(revocation_finish(RevocationReply::Revoked), RevocationActionOutcome::Deleted);
    assert_eq!(revocation_finish(RevocationReply::TimedOut), RevocationActionOutcome::Unknown);
    assert_eq!(revocation_finish(RevocationReply::Refused), RevocationActionOutcome::Unknown);
}
