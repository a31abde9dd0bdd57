//! Validation of submitted credentials, and the form in which a generation
//! uses stored ones.
use crate::auth_fingerprint::{auth_fingerprint, AuthRuntimeFingerprint};
use crate::credential_codec::{AuthKind, CredentialEntry, CredentialMaterial, EntryView, MaterialView};
use crate::name::ProviderId;
use crate::text::{concat3, copy_texts};
use vstd::prelude::*;

verus! {

/// Which credential: the provider it is for, the scheme, and the account.
#[derive(Debug)]
pub struct CredentialId {
    pub provider_name: String,
    pub scheme: String,
    pub account: String,
}

/// [`CredentialId`] by what it spells.
pub struct IdView {
    pub provider_name: Seq<char>,
    pub scheme: Seq<char>,
    pub account: Seq<char>,
}

impl View for CredentialId {
    type V = IdView;

    open spec fn view(&self) -> IdView {
        IdView {
            provider_name: self.provider_name@,
            scheme: self.scheme@,
            account: self.account@,
        }
    }
}

impl CredentialId {
    pub fn new(provider_name: &str, scheme: &str, account: &str) -> (id: Self)
        ensures
            id@ == (IdView { provider_name: provider_name@, scheme: scheme@, account: account@ }),
    {
        CredentialId {
            provider_name: provider_name.to_owned(),
            scheme: scheme.to_owned(),
            account: account.to_owned(),
        }
    }

    /// Whether both name the same credential.
    pub fn same(&self, other: &Self) -> (same: bool)
        ensures
            same == (self@ == other@),
    {
        crate::text::same_text(self.provider_name.as_str(), other.provider_name.as_str())
            && crate::text::same_text(self.scheme.as_str(), other.scheme.as_str())
            && crate::text::same_text(self.account.as_str(), other.account.as_str())
    }
}

impl crate::list::Record for CredentialId {
    fn copied(&self) -> (copy: Self) {
        CredentialId::new(self.provider_name.as_str(), self.scheme.as_str(), self.account.as_str())
    }
}

/// What a submission changes about a provider's OAuth client.
#[derive(Debug)]
pub struct CredentialClientOverrides {
    pub client_id: Option<String>,
    pub client_secret: Option<Vec<u8>>,
    pub redirect_uri: Option<String>,
    pub scopes: Option<Vec<String>>,
}

/// [`CredentialClientOverrides`] by what they hold.
pub struct OverridesView {
    pub client_id: Option<Seq<char>>,
    pub client_secret: Option<Seq<u8>>,
    pub redirect_uri: Option<Seq<char>>,
    pub scopes: Option<Seq<Seq<char>>>,
}

/// An optional list of texts by what it spells.
pub open spec fn opt_texts(texts: Option<Vec<String>>) -> Option<Seq<Seq<char>>> {
    match texts {
        Some(texts) => Some(crate::text::texts(texts@)),
        None => None,
    }
}

impl View for CredentialClientOverrides {
    type V = OverridesView;

    open spec fn view(&self) -> OverridesView {
        OverridesView {
            client_id: crate::text::opt_text(self.client_id),
            client_secret: crate::credential_codec::opt_bytes(self.client_secret),
            redirect_uri: crate::text::opt_text(self.redirect_uri),
            scopes: opt_texts(self.scopes),
        }
    }
}

/// Client overrides as an OAuth request takes them: the secret is text.
#[derive(Debug)]
pub struct OAuthRuntimeOverrides {
    pub scopes: Option<Vec<String>>,
    pub redirect_uri: Option<String>,
    pub client_id: Option<String>,
    pub client_secret: Option<String>,
}

/// [`OAuthRuntimeOverrides`] by what they spell.
pub struct RuntimeView {
    pub scopes: Option<Seq<Seq<char>>>,
    pub redirect_uri: Option<Seq<char>>,
    pub client_id: Option<Seq<char>>,
    pub client_secret: Option<Seq<char>>,
}

impl View for OAuthRuntimeOverrides {
    type V = RuntimeView;

    open spec fn view(&self) -> RuntimeView {
        RuntimeView {
            scopes: opt_texts(self.scopes),
            redirect_uri: crate::text::opt_text(self.redirect_uri),
            client_id: crate::text::opt_text(self.client_id),
            client_secret: crate::text::opt_text(self.client_secret),
        }
    }
}

/// One auth scheme that a provider declares.
#[derive(Debug)]
pub enum AuthScheme {
    StaticToken {
        inject_domains: Vec<String>,
        header_name: Option<String>,
        value_prefix: Option<String>,
    },
    Oauth {
        inject_domains: Vec<String>,
        inject_header_name: Option<String>,
        inject_value_prefix: Option<String>,
        revocation_endpoint: Option<String>,
    },
}

/// A token as text. Only UTF-8 is accepted.
pub fn secret_string(secret: &Vec<u8>) -> (text: Result<String, String>)
    ensures
        match text {
            Ok(text) => vstd::utf8::valid_utf8(secret@) && text@ == vstd::utf8::decode_utf8(
                secret@,
            ),
            Err(error) => !vstd::utf8::valid_utf8(secret@) && error@
                == "credential token is not UTF-8"@,
        },
{
    match crate::text::utf8_text(crate::credential_codec::copy_bytes(secret.as_slice())) {
        Ok(text) => Ok(text),
        Err(_) => Err("credential token is not UTF-8".to_owned()),
    }
}

/// Whether an optional token is text where it is there.
pub open spec fn is_text(secret: Option<Seq<u8>>) -> bool {
    match secret {
        Some(secret) => vstd::utf8::valid_utf8(secret),
        None => true,
    }
}

/// An optional token as text.
pub open spec fn as_text(secret: Option<Seq<u8>>) -> Option<Seq<char>> {
    match secret {
        Some(secret) => Some(vstd::utf8::decode_utf8(secret)),
        None => None,
    }
}

/// An optional token as text.
fn opt_secret_string(secret: &Option<Vec<u8>>) -> (text: Result<Option<String>, String>)
    ensures
        match text {
            Ok(text) => is_text(crate::credential_codec::opt_bytes(*secret))
                && crate::text::opt_text(text) == as_text(
                crate::credential_codec::opt_bytes(*secret),
            ),
            Err(error) => !is_text(crate::credential_codec::opt_bytes(*secret)) && error@
                == "credential token is not UTF-8"@,
        },
{
    match secret {
        Some(secret) => match secret_string(secret) {
            Ok(text) => Ok(Some(text)),
            Err(error) => Err(error),
        },
        None => Ok(None),
    }
}

/// Copies an optional list of texts.
fn copy_opt_texts(texts: &Option<Vec<String>>) -> (copy: Option<Vec<String>>)
    ensures
        opt_texts(copy) == opt_texts(*texts),
{
    match texts {
        Some(texts) => Some(copy_texts(texts)),
        None => None,
    }
}

/// Client overrides as an OAuth request takes them.
pub open spec fn runtime_of(overrides: OverridesView) -> RuntimeView {
    RuntimeView {
        scopes: overrides.scopes,
        redirect_uri: overrides.redirect_uri,
        client_id: overrides.client_id,
        client_secret: as_text(overrides.client_secret),
    }
}

/// Client overrides as an OAuth request takes them. A client secret has to be
/// UTF-8.
pub fn runtime_overrides(overrides: &CredentialClientOverrides) -> (runtime: Result<
    OAuthRuntimeOverrides,
    String,
>)
    ensures
        match runtime {
            Ok(runtime) => is_text(overrides@.client_secret) && runtime@ == runtime_of(overrides@),
            Err(error) => !is_text(overrides@.client_secret) && error@
                == "credential token is not UTF-8"@,
        },
{
    match opt_secret_string(&overrides.client_secret) {
        Ok(client_secret) => Ok(
            OAuthRuntimeOverrides {
                scopes: copy_opt_texts(&overrides.scopes),
                redirect_uri: overrides.redirect_uri.clone(),
                client_id: overrides.client_id.clone(),
                client_secret,
            },
        ),
        Err(error) => Err(error),
    }
}

/// Whether a submission changes nothing about the client.
pub fn no_overrides(overrides: &CredentialClientOverrides) -> (none: bool)
    ensures
        none == (overrides@ == (OverridesView {
            client_id: None,
            client_secret: None,
            redirect_uri: None,
            scopes: None,
        })),
{
    overrides.client_id.is_none() && overrides.client_secret.is_none()
        && overrides.redirect_uri.is_none() && overrides.scopes.is_none()
}

/// How material authenticates.
pub open spec fn kind_of(material: MaterialView) -> AuthKind {
    match material {
        MaterialView::StaticToken { .. } => AuthKind::StaticToken,
        MaterialView::OAuth { .. } => AuthKind::OAuth,
    }
}

/// How material authenticates.
pub fn classify_material(material: &CredentialMaterial) -> (kind: AuthKind)
    ensures
        kind == kind_of(material@),
{
    match material {
        CredentialMaterial::StaticToken { .. } => AuthKind::StaticToken,
        CredentialMaterial::OAuth { .. } => AuthKind::OAuth,
    }
}

/// The scopes that material grants.
pub open spec fn scopes_of(material: MaterialView) -> Seq<Seq<char>> {
    match material {
        MaterialView::StaticToken { .. } => Seq::empty(),
        MaterialView::OAuth { scopes, .. } => scopes,
    }
}

/// The scopes that material grants: none for a static token.
pub fn material_scopes(material: &CredentialMaterial) -> (scopes: Vec<String>)
    ensures
        crate::text::texts(scopes@) == scopes_of(material@),
{
    match material {
        CredentialMaterial::StaticToken { .. } => {
            let scopes: Vec<String> = Vec::new();
            assert(crate::text::texts(scopes@) =~= Seq::empty());
            scopes
        },
        CredentialMaterial::OAuth { scopes, .. } => copy_texts(scopes),
    }
}

/// The first second that the calendar has: the start of year -9999.
pub const FIRST_SECOND: i64 = -377_705_116_800;

/// The last second that the calendar has: the end of year 9999.
pub const LAST_SECOND: i64 = 253_402_300_799;

/// `time::OffsetDateTime::from_unix_timestamp` succeeds exactly on the seconds
/// from the start of year -9999 to the end of year 9999, and the time it gives
/// has that Unix timestamp.
#[verifier::external_body]
fn calendar_second(seconds: i64) -> (second: Option<i64>)
    ensures
        second == (if FIRST_SECOND <= seconds <= LAST_SECOND {
            Some(seconds)
        } else {
            None
        }),
{
    time::OffsetDateTime::from_unix_timestamp(seconds).ok().map(|time| time.unix_timestamp())
}

/// Whether the calendar has an expiry.
pub open spec fn has_second(expiry: Option<i64>) -> bool {
    match expiry {
        Some(seconds) => FIRST_SECOND <= seconds <= LAST_SECOND,
        None => true,
    }
}

/// What the auth service is handed of material, or why it cannot be used.
pub open spec fn decoded(material: MaterialView) -> Result<EntryView, Seq<char>> {
    match material {
        MaterialView::StaticToken { token } => if vstd::utf8::valid_utf8(token) {
            Ok(EntryView::StaticToken { token: vstd::utf8::decode_utf8(token) })
        } else {
            Err("credential token is not UTF-8"@)
        },
        MaterialView::OAuth {
            access_token,
            refresh_token,
            expires_at_unix,
            token_type,
            scopes,
            upstream_identity,
        } => if !has_second(expires_at_unix) {
            Err("credential expiry is outside the supported timestamp range"@)
        } else if !vstd::utf8::valid_utf8(access_token) || !is_text(refresh_token) {
            Err("credential token is not UTF-8"@)
        } else {
            Ok(
                EntryView::OAuth {
                    access_token: vstd::utf8::decode_utf8(access_token),
                    refresh_token: as_text(refresh_token),
                    expires_at: expires_at_unix,
                    token_type,
                    scopes,
                    upstream_identity,
                },
            )
        },
    }
}

/// A result by the views of its two sides.
pub open spec fn result_view<T: View>(result: Result<T, String>) -> Result<T::V, Seq<char>> {
    match result {
        Ok(value) => Ok(value@),
        Err(error) => Err(error@),
    }
}

/// An expiry that the calendar has.
fn checked_expiry(expiry: Option<i64>) -> (checked: Result<Option<i64>, String>)
    ensures
        match checked {
            Ok(checked) => has_second(expiry) && checked == expiry,
            Err(error) => !has_second(expiry) && error@
                == "credential expiry is outside the supported timestamp range"@,
        },
{
    match expiry {
        Some(seconds) => match calendar_second(seconds) {
            Some(second) => Ok(Some(second)),
            None => Err("credential expiry is outside the supported timestamp range".to_owned()),
        },
        None => Ok(None),
    }
}

/// Material as the auth service holds it.
pub fn decode_entry(material: &CredentialMaterial) -> (entry: Result<CredentialEntry, String>)
    ensures
        result_view(entry) == decoded(material@),
{
    match material {
        CredentialMaterial::StaticToken { token } => match secret_string(token) {
            Ok(token) => Ok(CredentialEntry::StaticToken { token }),
            Err(error) => Err(error),
        },
        CredentialMaterial::OAuth {
            access_token,
            refresh_token,
            expires_at_unix,
            token_type,
            scopes,
            upstream_identity,
        } => {
            let expires_at = match checked_expiry(*expires_at_unix) {
                Ok(expires_at) => expires_at,
                Err(error) => return Err(error),
            };
            let access_token = match secret_string(access_token) {
                Ok(access_token) => access_token,
                Err(error) => return Err(error),
            };
            let refresh_token = match opt_secret_string(refresh_token) {
                Ok(refresh_token) => refresh_token,
                Err(error) => return Err(error),
            };
            Ok(
                CredentialEntry::OAuth {
                    access_token,
                    refresh_token,
                    expires_at,
                    token_type: token_type.clone(),
                    scopes: copy_texts(scopes),
                    upstream_identity: upstream_identity.clone(),
                },
            )
        },
    }
}

/// A refreshed credential with an expiry that the calendar has is stored as
/// material that decodes to it again, and decoded OAuth material refreshes to
/// itself.
pub proof fn a_refresh_survives_storage(entry: EntryView, material: MaterialView)
    ensures
        entry is OAuth && has_second(entry->expires_at) ==> decoded(
            crate::credential_codec::refreshed(entry),
        ) == Ok::<EntryView, Seq<char>>(entry),
        material is OAuth && decoded(material) is Ok ==> crate::credential_codec::refreshed(
            decoded(material)->Ok_0,
        ) == material,
{
    if entry is OAuth {
        vstd::utf8::encode_utf8_valid_utf8(entry->access_token);
        vstd::utf8::encode_utf8_decode_utf8(entry->access_token);
        if let Some(token) = entry->refresh_token {
            vstd::utf8::encode_utf8_valid_utf8(token);
            vstd::utf8::encode_utf8_decode_utf8(token);
        }
    }
    if material is OAuth && decoded(material) is Ok {
        vstd::utf8::decode_utf8_encode_utf8(material->access_token);
        if let Some(token) = material->refresh_token {
            vstd::utf8::decode_utf8_encode_utf8(token);
        }
    }
}

/// Why material and overrides do not fit a scheme, if they do not.
pub open spec fn mismatch(
    scheme: AuthScheme,
    kind: AuthKind,
    overrides: OverridesView,
) -> Option<Seq<char>> {
    match (scheme, kind) {
        (AuthScheme::StaticToken { .. }, AuthKind::StaticToken) => if overrides == (OverridesView {
            client_id: None,
            client_secret: None,
            redirect_uri: None,
            scopes: None,
        }) {
            None
        } else {
            Some("static-token credentials do not accept OAuth overrides"@)
        },
        (AuthScheme::Oauth { .. }, AuthKind::OAuth) => if is_text(overrides.client_secret) {
            None
        } else {
            Some("credential token is not UTF-8"@)
        },
        _ => Some("credential material does not match provider auth scheme"@),
    }
}

/// The overrides with which an OAuth credential has still to be tried as a
/// request; none for a static token.
pub open spec fn request_of(kind: AuthKind, overrides: OverridesView) -> Option<RuntimeView> {
    match kind {
        AuthKind::StaticToken => None,
        AuthKind::OAuth => Some(runtime_of(overrides)),
    }
}

/// Optional overrides by what they spell.
pub open spec fn opt_runtime(runtime: Option<OAuthRuntimeOverrides>) -> Option<RuntimeView> {
    match runtime {
        Some(runtime) => Some(runtime@),
        None => None,
    }
}

/// Holds material and overrides against the scheme they are submitted for.
pub fn validate_payload(
    scheme: &AuthScheme,
    material: &CredentialMaterial,
    overrides: &CredentialClientOverrides,
) -> (kind: Result<(AuthKind, Option<OAuthRuntimeOverrides>), String>)
    ensures
        match kind {
            Ok((kind, request)) => kind == kind_of(material@) && mismatch(
                *scheme,
                kind,
                overrides@,
            ) is None && opt_runtime(request) == request_of(kind, overrides@),
            Err(error) => mismatch(*scheme, kind_of(material@), overrides@) == Some(error@),
        },
{
    let kind = classify_material(material);
    match (scheme, kind) {
        (AuthScheme::StaticToken { .. }, AuthKind::StaticToken) => {
            if no_overrides(overrides) {
                Ok((kind, None))
            } else {
                Err("static-token credentials do not accept OAuth overrides".to_owned())
            }
        },
        (AuthScheme::Oauth { .. }, AuthKind::OAuth) => match runtime_overrides(overrides) {
            Ok(runtime) => Ok((kind, Some(runtime))),
            Err(error) => Err(error),
        },
        _ => Err("credential material does not match provider auth scheme".to_owned()),
    }
}

/// A submitted credential.
#[derive(Debug)]
pub struct CredentialSubmission {
    pub provider: ProviderId,
    /// The provider's digest as it is spelled.
    pub provider_text: String,
    pub scheme: String,
    pub account_label: String,
    pub material: CredentialMaterial,
    pub overrides: CredentialClientOverrides,
}

/// What the store knows of a submission's provider.
#[derive(Debug)]
pub struct SubmissionProvider {
    /// The credential's identity, or why it is not one.
    pub id: Result<CredentialId, String>,
    /// The scheme the provider declares under the submitted key, with its
    /// encoding together with the provider and the overrides.
    pub scheme: Option<(AuthScheme, Vec<u8>)>,
}

/// A credential ready to be stored, but for its encoded material.
#[derive(Debug)]
pub struct CredentialDraft {
    pub id: CredentialId,
    pub provider: ProviderId,
    pub kind: AuthKind,
    pub auth_fingerprint: AuthRuntimeFingerprint,
    pub scopes: Vec<String>,
    /// The overrides that the provider's OAuth scheme has to accept.
    pub request: Option<OAuthRuntimeOverrides>,
}

/// Why a submission cannot be stored, if it cannot.
pub open spec fn submission_failure(
    submission: CredentialSubmission,
    provider: Option<SubmissionProvider>,
) -> Option<Seq<char>> {
    match provider {
        None => Some("provider "@ + submission.provider_text@ + " is not retained"@),
        Some(provider) => match provider.id {
            Err(error) => Some(error@),
            Ok(_) => match provider.scheme {
                None => Some(
                    "provider declares no auth scheme `"@ + submission.scheme@ + "`"@,
                ),
                Some((scheme, _)) => mismatch(
                    scheme,
                    kind_of(submission.material@),
                    submission.overrides@,
                ),
            },
        },
    }
}

/// Turns a submission into what is stored. `provider` is what the store knows
/// of the provider that the submission names.
pub fn prepare_credential_document(
    submission: &CredentialSubmission,
    provider: Option<SubmissionProvider>,
) -> (draft: Result<CredentialDraft, String>)
    ensures
        match draft {
            Ok(draft) => submission_failure(*submission, provider) is None && draft.provider
                == submission.provider && draft.kind == kind_of(submission.material@)
                && crate::text::texts(draft.scopes@) == scopes_of(submission.material@)
                && draft.id@ == provider->Some_0.id->Ok_0@ && draft.auth_fingerprint@
                == crate::digest::blake3_derived(
                "omnifs auth runtime fingerprint v1"@,
                provider->Some_0.scheme->Some_0.1@,
            ) && opt_runtime(draft.request) == request_of(draft.kind, submission.overrides@),
            Err(error) => submission_failure(*submission, provider) == Some(error@),
        },
{
    let provider = match provider {
        Some(provider) => provider,
        None => return Err(
            concat3("provider ", submission.provider_text.as_str(), " is not retained"),
        ),
    };
    let id = match provider.id {
        Ok(id) => id,
        Err(error) => return Err(error),
    };
    let (scheme, encoded) = match provider.scheme {
        Some(scheme) => scheme,
        None => return Err(
            concat3("provider declares no auth scheme `", submission.scheme.as_str(), "`"),
        ),
    };
    match validate_payload(&scheme, &submission.material, &submission.overrides) {
        Ok((kind, request)) => Ok(
            CredentialDraft {
                id,
                provider: submission.provider,
                kind,
                auth_fingerprint: auth_fingerprint(encoded.as_slice()),
                scopes: material_scopes(&submission.material),
                request,
            },
        ),
        Err(error) => Err(error),
    }
}

} // verus!
