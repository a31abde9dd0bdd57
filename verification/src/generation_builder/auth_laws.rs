//! What a mount authenticates with, and what a credential is taken for.
use crate::credential_codec::{AuthKind, CredentialMaterial, EntryView, MaterialView};
use crate::credential_document::{
    prepare_credential_document, AuthScheme, CredentialDraft, CredentialSubmission, IdView,
    SubmissionProvider,
};
use crate::generation_builder::bind::{BuildView, LoadedProvider, PlanView};
use crate::generation_builder::refresh_sink::{
    persisted, refresh_document, CredentialWriteError, RefreshCandidate, RefreshDocument,
    RefreshPersistError, RefreshPersistence,
};
use crate::generation_builder::revocation::{
    revocation_finish, IssuingProvider, RevocationReply, RevocationView, StoredPayload,
};
use crate::generation_builder::{
    CredentialRuntime, CredentialState, CredentialSummary, RefreshView,
};
use crate::serving_reconciler::finish::RevocationActionOutcome;
use vstd::prelude::*;

verus! {

/// Whether texts are listed under the views, in their order.
pub open spec fn spells(listed: Seq<Seq<char>>, declared: Seq<String>) -> bool {
    listed.len() == declared.len() && forall|i: int|
        0 <= i < declared.len() ==> #[trigger] listed[i] == declared[i]@
}

/// A bound credential is injected into exactly the domains that its scheme declares,
/// under the header it declares, `Authorization` where it declares none, and with
/// the prefix it declares. An OAuth credential goes with the client overrides that
/// it was submitted with.
pub proof fn a_plan_injects_what_its_scheme_declares(
    credential: CredentialRuntime,
    scheme: AuthScheme,
    encoded: Seq<u8>,
    plan: PlanView,
)
    requires
        crate::generation_builder::bind::binding_of(credential, Some(scheme), encoded) == Ok::<
            PlanView,
            Seq<char>,
        >(plan),
    ensures
        plan.id.provider_name == credential.id.provider_name@,
        plan.id.scheme == credential.id.scheme@,
        plan.id.account == credential.id.account@,
        match scheme {
            AuthScheme::StaticToken { inject_domains, header_name, value_prefix } => {
                &&& credential.kind == AuthKind::StaticToken
                &&& spells(plan.inject_domains, inject_domains@)
                &&& header_name is None ==> plan.header_name == "Authorization"@
                &&& header_name matches Some(name) ==> plan.header_name == name@
                &&& value_prefix is None ==> plan.value_prefix is None
                &&& value_prefix matches Some(prefix) ==> plan.value_prefix == Some(prefix@)
                &&& plan.request is None
            },
            AuthScheme::Oauth {
                inject_domains,
                inject_header_name,
                inject_value_prefix,
                revocation_endpoint: _,
            } => {
                &&& credential.kind == AuthKind::OAuth
                &&& spells(plan.inject_domains, inject_domains@)
                &&& inject_header_name is None ==> plan.header_name == "Authorization"@
                &&& inject_header_name matches Some(name) ==> plan.header_name == name@
                &&& inject_value_prefix is None ==> plan.value_prefix is None
                &&& inject_value_prefix matches Some(prefix) ==> plan.value_prefix == Some(prefix@)
                &&& plan.request matches Some(request) && request.client_id
                    == credential.overrides@.client_id && request.redirect_uri
                    == credential.overrides@.redirect_uri && request.scopes
                    == credential.overrides@.scopes && request.client_secret == (
                match credential.overrides@.client_secret {
                    Some(secret) => Some(vstd::utf8::decode_utf8(secret)),
                    None => None,
                })
            },
        },
{
}

/// A credential is bound exactly where its provider still declares its scheme, the
/// scheme and overrides are those it was issued against, and it is of the scheme's
/// kind; a client secret must be text besides.
pub proof fn a_credential_is_bound_exactly_when_it_fits(
    credential: CredentialRuntime,
    scheme: Option<AuthScheme>,
    encoded: Seq<u8>,
)
    ensures
        crate::generation_builder::bind::binding_of(credential, scheme, encoded) is Ok <==> {
            &&& scheme is Some
            &&& credential.fingerprint@ == crate::digest::blake3_derived(
                "omnifs auth runtime fingerprint v1"@,
                encoded,
            )
            &&& scheme->Some_0 is StaticToken <==> credential.kind == AuthKind::StaticToken
            &&& credential.kind == AuthKind::OAuth ==> (credential.overrides@.client_secret
                matches Some(secret) ==> vstd::utf8::valid_utf8(secret))
        },
{
}

/// A mount whose provider is loaded uses the latest stored credential of the
/// identity it names, if that is of its provider: it is active with the plan of that
/// credential, and the build fails where the credential does not fit. A mount without
/// a credential is active without one, and a mount without a provider is not active.
pub proof fn a_mount_uses_its_latest_credential(
    id: IdView,
    provider: LoadedProvider,
    credentials: Seq<CredentialRuntime>,
    at: int,
)
    requires
        credentials.len() <= usize::MAX,
        -1 <= at < credentials.len(),
        at >= 0 ==> credentials[at].id@ == id,
        forall|j: int| at < j < credentials.len() ==> (#[trigger] credentials[j]).id@ != id,
    ensures
        ({
            let state = crate::generation_builder::bind::state_of(
                Some(id),
                Some(provider),
                credentials,
            );
            let plan = crate::generation_builder::bind::binding_of(
                credentials[at],
                provider.scheme,
                provider.encoded@,
            );
            &&& at < 0 ==> state == Ok::<BuildView, Seq<char>>(BuildView::AuthRequired)
            &&& at >= 0 && credentials[at].provider != provider.id ==> state == Ok::<
                BuildView,
                Seq<char>,
            >(BuildView::AuthRequired)
            &&& at >= 0 && credentials[at].provider == provider.id && plan is Ok ==> state == Ok::<
                BuildView,
                Seq<char>,
            >(
                BuildView::Active {
                    auth: Some(plan->Ok_0),
                    credential_generation: Some(credentials[at].generation),
                },
            )
            &&& at >= 0 && credentials[at].provider == provider.id && plan is Err ==> state == Err::<
                BuildView,
                Seq<char>,
            >(plan->Err_0)
        }),
        crate::generation_builder::bind::state_of(None, Some(provider), credentials) == Ok::<
            BuildView,
            Seq<char>,
        >(BuildView::Active { auth: None, credential_generation: None }),
        crate::generation_builder::bind::state_of(Some(id), None, credentials) == Ok::<
            BuildView,
            Seq<char>,
        >(BuildView::ProviderUnavailable),
        crate::generation_builder::bind::state_of(None, None, credentials) == Ok::<
            BuildView,
            Seq<char>,
        >(BuildView::ProviderUnavailable),
{
    the_latest_place(credentials, id, at);
}

proof fn the_latest_place(credentials: Seq<CredentialRuntime>, id: IdView, at: int)
    requires
        -1 <= at < credentials.len(),
        at >= 0 ==> credentials[at].id@ == id,
        forall|j: int| at < j < credentials.len() ==> (#[trigger] credentials[j]).id@ != id,
    ensures
        crate::generation_builder::bind::place_of(credentials, id) == at,
    decreases credentials.len(),
{
    if credentials.len() > 0 && at < credentials.len() - 1 {
        assert(credentials[credentials.len() - 1].id@ != id);
        let rest = credentials.drop_last();
        assert forall|j: int| at < j < rest.len() implies (#[trigger] rest[j]).id@ != id by {
            assert(rest[j] == credentials[j]);
        }
        the_latest_place(rest, id, at);
    }
}

/// A generation may use a credential that is active or waits to be published with
/// it, and no other; only one that waits is noted to become active.
pub proof fn only_a_live_credential_is_used(
    summary: CredentialSummary,
    pending: Seq<RefreshView>,
)
    ensures
        summary.state.usable() <==> (summary.state == CredentialState::Active || summary.state
            == CredentialState::PendingRepublish),
        ({
            let after = crate::generation_builder::pending_with(pending, summary);
            if summary.state == CredentialState::PendingRepublish {
                after.len() == pending.len() + 1 && after.take(pending.len() as int) =~= pending
                    && after.last().id == summary.id@ && after.last().version == summary.version
                    && after.last().generation == summary.generation
            } else {
                after == pending
            }
        }),
{
}

/// A submission is stored for its own provider, under the identity that the store
/// gives it, with the kind and the scopes of its material, and with the fingerprint
/// of what it was submitted against. It is taken exactly where the provider is
/// retained, names it, declares the scheme, and the material is of that scheme: a
/// static token comes without overrides, and an OAuth client secret is text.
pub proof fn a_submission_is_stored_as_it_was_made(
    submission: CredentialSubmission,
    provider: Option<SubmissionProvider>,
    draft: Result<CredentialDraft, String>,
)
    requires
        call_ensures(prepare_credential_document, (&submission, provider), draft),
    ensures
        ({
            let overrides = submission.overrides@;
            let is_static = submission.material is StaticToken;
            let fits = match provider {
                Some(known) => known.id is Ok && (match known.scheme {
                    Some((scheme, _)) => if is_static {
                        scheme is StaticToken && overrides.client_id is None
                            && overrides.client_secret is None && overrides.redirect_uri is None
                            && overrides.scopes is None
                    } else {
                        scheme is Oauth && (overrides.client_secret matches Some(secret)
                            ==> vstd::utf8::valid_utf8(secret))
                    },
                    None => false,
                }),
                None => false,
            };
            &&& draft is Ok <==> fits
            &&& draft matches Ok(draft) ==> {
                &&& draft.provider == submission.provider
                &&& draft.id@ == provider->Some_0.id->Ok_0@
                &&& draft.kind == (if is_static {
                    AuthKind::StaticToken
                } else {
                    AuthKind::OAuth
                })
                &&& draft.auth_fingerprint@ == crate::digest::blake3_derived(
                    "omnifs auth runtime fingerprint v1"@,
                    provider->Some_0.scheme->Some_0.1@,
                )
                &&& match submission.material {
                    CredentialMaterial::StaticToken { .. } => draft.scopes@.len() == 0
                        && draft.request is None,
                    CredentialMaterial::OAuth { scopes, .. } => spells(
                        crate::text::texts(draft.scopes@),
                        scopes@,
                    ) && draft.request is Some && draft.request->Some_0@.client_id
                        == overrides.client_id && draft.request->Some_0@.redirect_uri
                        == overrides.redirect_uri && draft.request->Some_0@.scopes
                        == overrides.scopes,
                }
            }
        }),
{
    if let Ok(draft) = draft {
        assert(crate::text::texts(draft.scopes@).len() == draft.scopes@.len());
    }
}

/// Stored material is handed on as the text it encodes, with its expiry, type,
/// scopes and identity as they are; material that is not text, or whose expiry no
/// calendar has, is refused.
pub proof fn material_is_handed_on_as_it_is(material: MaterialView)
    ensures
        match material {
            MaterialView::StaticToken { token } => match crate::credential_document::decoded(
                material,
            ) {
                Ok(entry) => vstd::utf8::valid_utf8(token) && entry == (EntryView::StaticToken {
                    token: vstd::utf8::decode_utf8(token),
                }),
                Err(_) => !vstd::utf8::valid_utf8(token),
            },
            MaterialView::OAuth {
                access_token,
                refresh_token,
                expires_at_unix,
                token_type,
                scopes,
                upstream_identity,
            } => {
                let readable = vstd::utf8::valid_utf8(access_token) && (refresh_token matches Some(
                    token,
                ) ==> vstd::utf8::valid_utf8(token)) && (expires_at_unix matches Some(seconds)
                    ==> -377_705_116_800 <= seconds <= 253_402_300_799);
                match crate::credential_document::decoded(material) {
                    Ok(entry) => readable && entry == (EntryView::OAuth {
                        access_token: vstd::utf8::decode_utf8(access_token),
                        refresh_token: match refresh_token {
                            Some(token) => Some(vstd::utf8::decode_utf8(token)),
                            None => None,
                        },
                        expires_at: expires_at_unix,
                        token_type,
                        scopes,
                        upstream_identity,
                    }),
                    Err(_) => !readable,
                }
            },
        },
{
}

/// A revocation goes upstream with the access token that is stored, as the client
/// that it was submitted for, exactly where the credential is OAuth, still matches a
/// provider that declares a revocation endpoint, and can be read. Every other
/// credential of a readable kind is revoked here alone.
pub proof fn a_matching_token_is_revoked_upstream(
    summary: CredentialSummary,
    provider_text: Seq<char>,
    provider: Option<IssuingProvider>,
    payload: Result<StoredPayload, String>,
)
    ensures
        ({
            let revocation = crate::generation_builder::revocation::revocation_of(
                summary,
                provider_text,
                provider,
                payload,
            );
            &&& summary.kind == AuthKind::StaticToken ==> revocation == Ok::<
                RevocationView,
                Seq<char>,
            >(RevocationView::LocalOnly)
            &&& summary.kind == AuthKind::OAuth && (provider is None || provider->Some_0.scheme
                is None || payload is Err) ==> revocation is Err
            &&& summary.kind == AuthKind::OAuth && provider is Some && provider->Some_0.scheme is Some
                && payload is Ok ==> {
                let known = provider->Some_0.scheme->Some_0;
                let stored = payload->Ok_0;
                let entry = crate::credential_document::decoded(stored.material@);
                let matching = crate::digest::blake3_derived(
                    "omnifs auth runtime fingerprint v1"@,
                    known.1@,
                ) == summary.auth_fingerprint@;
                let secret_is_text = stored.overrides@.client_secret matches Some(secret)
                    ==> vstd::utf8::valid_utf8(secret);
                match known.0 {
                    AuthScheme::StaticToken { .. } => revocation is Err,
                    AuthScheme::Oauth { revocation_endpoint, .. } => {
                        &&& entry is Err || !matching ==> revocation is Err
                        &&& entry is Ok && matching && revocation_endpoint is None ==> revocation
                            == Ok::<RevocationView, Seq<char>>(RevocationView::LocalOnly)
                        &&& entry is Ok && matching && revocation_endpoint is Some
                            && !secret_is_text ==> revocation is Err
                        &&& entry is Ok && matching && revocation_endpoint is Some
                            && secret_is_text ==> {
                            &&& revocation matches Ok(RevocationView::Remote {
                                access_token,
                                request,
                            })
                            &&& access_token == (match entry->Ok_0 {
                                EntryView::StaticToken { token } => token,
                                EntryView::OAuth { access_token, .. } => access_token,
                            })
                            &&& request.client_id == stored.overrides@.client_id
                            &&& request.redirect_uri == stored.overrides@.redirect_uri
                            &&& request.scopes == stored.overrides@.scopes
                            &&& request.client_secret == (match stored.overrides@.client_secret {
                                Some(secret) => Some(vstd::utf8::decode_utf8(secret)),
                                None => None,
                            })
                        }
                    },
                }
            }
        }),
{
}

/// A credential counts as gone only where the provider confirmed its revocation.
pub proof fn only_a_confirmed_revocation_deletes(
    reply: RevocationReply,
    outcome: RevocationActionOutcome,
)
    requires
        call_ensures(revocation_finish, (reply,), outcome),
    ensures
        outcome == RevocationActionOutcome::Deleted <==> reply == RevocationReply::Revoked,
        outcome == RevocationActionOutcome::Unknown <==> reply != RevocationReply::Revoked,
{
}

/// A refresh is written for the latest credential of its identity that the
/// generation uses, exactly where that one and the refresh are OAuth: with the
/// refreshed tokens, and with the provider and fingerprint it already has.
pub proof fn a_refresh_replaces_its_own_credential(
    candidate: RefreshCandidate,
    credentials: Vec<CredentialRuntime>,
    at: int,
    document: Result<RefreshDocument, RefreshPersistError>,
)
    requires
        call_ensures(refresh_document, (&candidate, &credentials), document),
        -1 <= at < credentials@.len(),
        at >= 0 ==> credentials@[at].id@ == candidate.credential_id@,
        forall|j: int|
            at < j < credentials@.len() ==> (#[trigger] credentials@[j]).id@
                != candidate.credential_id@,
    ensures
        document is Ok <==> at >= 0 && credentials@[at].kind == AuthKind::OAuth
            && candidate.refreshed is OAuth,
        document matches Err(error) ==> error == RefreshPersistError::Rejected,
        document matches Ok(document) ==> {
            &&& document.place == at
            &&& document.provider == credentials@[at].provider
            &&& document.kind == AuthKind::OAuth
            &&& document.auth_fingerprint == credentials@[at].fingerprint
            &&& crate::text::texts(document.scopes@) == candidate.refreshed@->scopes
            &&& document.material@ matches MaterialView::OAuth {
                access_token,
                refresh_token,
                expires_at_unix,
                token_type,
                scopes,
                upstream_identity,
            }
            &&& access_token == vstd::utf8::encode_utf8(candidate.refreshed@->access_token)
            &&& refresh_token == (match candidate.refreshed@->refresh_token {
                Some(token) => Some(vstd::utf8::encode_utf8(token)),
                None => None,
            })
            &&& expires_at_unix == candidate.refreshed@->expires_at
            &&& token_type == candidate.refreshed@->token_type
            &&& scopes == candidate.refreshed@->scopes
            &&& upstream_identity == candidate.refreshed@->upstream_identity
        },
{
    the_latest_place(credentials@, candidate.credential_id@, at);
}

/// A refresh that was written counts under the state and version that it has then,
/// where that state can be used; a conflict is told apart from a store that is not
/// there, and everything else is refused.
pub proof fn a_written_refresh_counts(
    outcome: Result<(CredentialState, u64), CredentialWriteError>,
    persistence: Result<RefreshPersistence, RefreshPersistError>,
)
    requires
        call_ensures(persisted, (outcome,), persistence),
    ensures
        outcome matches Ok((state, version)) ==> {
            &&& state == CredentialState::Active ==> persistence == Ok::<
                RefreshPersistence,
                RefreshPersistError,
            >(RefreshPersistence::Active { version })
            &&& state == CredentialState::PendingRepublish ==> persistence == Ok::<
                RefreshPersistence,
                RefreshPersistError,
            >(RefreshPersistence::PendingRepublish { version })
            &&& state != CredentialState::Active && state != CredentialState::PendingRepublish
                ==> persistence == Err::<RefreshPersistence, RefreshPersistError>(
                RefreshPersistError::Rejected,
            )
        },
        outcome matches Err(error) ==> persistence == Err::<RefreshPersistence, RefreshPersistError>(
            if error == CredentialWriteError::Conflict {
                RefreshPersistError::Conflict
            } else if error == CredentialWriteError::Store {
                RefreshPersistError::Unavailable
            } else {
                RefreshPersistError::Rejected
            },
        ),
{
}

/// A credential is used under the identity, the provider, the kind, the fingerprint
/// and the numbers that it is stored under, with the material that it holds.
pub proof fn a_credential_is_used_as_it_is_stored(
    summary: CredentialSummary,
    entry: crate::credential_codec::CredentialEntry,
    overrides: crate::credential_document::CredentialClientOverrides,
)
    ensures
        ({
            let runtime = crate::generation_builder::runtime_from(summary, entry, overrides);
            &&& runtime.id == summary.id && runtime.provider == summary.provider
            &&& runtime.kind == summary.kind && runtime.fingerprint == summary.auth_fingerprint
            &&& runtime.version == summary.version && runtime.generation == summary.generation
            &&& runtime.entry == entry && runtime.overrides == overrides
        }),
{
}

} // verus!
