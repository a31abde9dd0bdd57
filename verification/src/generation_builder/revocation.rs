//! Revocation of a credential upstream, before it is removed.
use crate::auth_fingerprint::auth_fingerprint;
use crate::credential_codec::{AuthKind, CredentialEntry, CredentialMaterial};
use crate::credential_document::{
    decode_entry, runtime_overrides, AuthScheme, CredentialClientOverrides, CredentialId,
    OAuthRuntimeOverrides,
};
use crate::generation_builder::resolve::ResourceDefinition;
use crate::generation_builder::CredentialSummary;
use crate::name::ResourceName;
use crate::serving_reconciler::finish::RevocationActionOutcome;
use crate::text::concat3;
use vstd::prelude::*;

verus! {

/// How long a provider may take to revoke a token, in seconds.
pub const REVOCATION_TIMEOUT_SECS: u64 = 15;

/// The place of the first credential resource with a name, or the length.
pub open spec fn credential_at(resources: Seq<ResourceDefinition>, name: Seq<char>) -> int
    decreases resources.len(),
{
    if resources.len() == 0 {
        0
    } else if resources[0] is Credential && resources[0]->Credential_name@ == name {
        0
    } else {
        1 + credential_at(resources.skip(1), name)
    }
}

/// The place of the first provider resource with a name, or the length.
pub open spec fn provider_at(resources: Seq<ResourceDefinition>, name: Seq<char>) -> int
    decreases resources.len(),
{
    if resources.len() == 0 {
        0
    } else if resources[0] is Provider && resources[0]->Provider_name@ == name {
        0
    } else {
        1 + provider_at(resources.skip(1), name)
    }
}

/// Passing over one more resource.
proof fn step_over(resources: Seq<ResourceDefinition>, i: int)
    requires
        0 <= i < resources.len(),
    ensures
        resources.skip(i).skip(1) == resources.skip(i + 1),
        resources.skip(i)[0] == resources[i],
{
    assert(resources.skip(i).skip(1) =~= resources.skip(i + 1));
}

fn find_credential_resource(resources: &Vec<ResourceDefinition>, name: &ResourceName) -> (at: usize)
    ensures
        at == credential_at(resources@, name@),
        at <= resources@.len(),
        at < resources@.len() ==> resources@[at as int] is Credential
            && resources@[at as int]->Credential_name@ == name@,
{
    let mut i: usize = 0;
    assert(resources@.skip(0) =~= resources@);
    while i < resources.len()
        invariant
            i <= resources@.len(),
            credential_at(resources@, name@) == i + credential_at(resources@.skip(i as int), name@),
        decreases resources@.len() - i,
    {
        proof {
            step_over(resources@, i as int);
        }
        if let ResourceDefinition::Credential { name: known, .. } = &resources[i] {
            if known.same(name) {
                return i;
            }
        }
        i = i + 1;
    }
    i
}

fn find_provider_resource(resources: &Vec<ResourceDefinition>, name: &ResourceName) -> (at: usize)
    ensures
        at == provider_at(resources@, name@),
        at <= resources@.len(),
        at < resources@.len() ==> resources@[at as int] is Provider
            && resources@[at as int]->Provider_name@ == name@,
{
    let mut i: usize = 0;
    assert(resources@.skip(0) =~= resources@);
    while i < resources.len()
        invariant
            i <= resources@.len(),
            provider_at(resources@, name@) == i + provider_at(resources@.skip(i as int), name@),
        decreases resources@.len() - i,
    {
        proof {
            step_over(resources@, i as int);
        }
        if let ResourceDefinition::Provider { name: known, .. } = &resources[i] {
            if known.same(name) {
                return i;
            }
        }
        i = i + 1;
    }
    i
}

/// The credential that a resource stands for, or why it stands for none.
pub open spec fn target_of(
    resources: Seq<ResourceDefinition>,
    name: Seq<char>,
) -> Result<crate::credential_document::IdView, Seq<char>> {
    let at = credential_at(resources, name);
    if at >= resources.len() {
        Err("credential resource `"@ + name + "` is absent"@)
    } else {
        let provider = resources[at]->Credential_provider@;
        let from = provider_at(resources, provider);
        if from >= resources.len() {
            Err(
                crate::generation_builder::resolve::absent(
                    "credential resource `"@,
                    name,
                    "` provider `"@,
                    provider,
                ),
            )
        } else {
            match resources[from]->retained {
                None => Err("provider "@ + resources[from]->artifact_text@ + " is not retained"@),
                Some(retained) => Ok(
                    crate::credential_document::IdView {
                        provider_name: retained.name@,
                        scheme: resources[at]->scheme@,
                        account: resources[at]->account@,
                    },
                ),
            }
        }
    }
}

/// The credential that a resource to be revoked stands for.
pub fn revocation_target(
    resources: &Vec<ResourceDefinition>,
    name: &ResourceName,
) -> (id: Result<CredentialId, String>)
    ensures
        crate::credential_document::result_view(id) == target_of(resources@, name@),
{
    let at: usize = find_credential_resource(resources, name);
    if at >= resources.len() {
        return Err(concat3("credential resource `", name.as_str(), "` is absent"));
    }
    match &resources[at] {
        ResourceDefinition::Credential { provider, scheme, account, .. } => {
            let from: usize = find_provider_resource(resources, provider);
            if from >= resources.len() {
                let head = concat3("credential resource `", name.as_str(), "` provider `");
                return Err(concat3(head.as_str(), provider.as_str(), "` is absent"));
            }
            match &resources[from] {
                ResourceDefinition::Provider { artifact_text, retained, .. } => match retained {
                    Some(retained) => Ok(
                        CredentialId::new(retained.name.as_str(), scheme.as_str(), account.as_str()),
                    ),
                    None => Err(concat3("provider ", artifact_text.as_str(), " is not retained")),
                },
                _ => Err(concat3("credential resource `", name.as_str(), "` is absent")),
            }
        },
        _ => Err(concat3("credential resource `", name.as_str(), "` is absent")),
    }
}

/// A revocation of a credential without material.
pub fn no_material(name: &ResourceName) -> (error: String)
    ensures
        error@ == "credential resource `"@ + name@ + "` has no material"@,
{
    concat3("credential resource `", name.as_str(), "` has no material")
}

/// What a revocation does upstream.
#[derive(Debug)]
pub enum PreparedCredentialRevocation {
    /// Nothing: there is no one to tell.
    LocalOnly,
    /// Revokes this token, as the client with these overrides.
    Remote { access_token: String, request: OAuthRuntimeOverrides },
}

/// The provider that issued a stored credential.
#[derive(Debug)]
pub struct IssuingProvider {
    /// The scheme it declares under the credential's key, with the encoding
    /// of provider, scheme and overrides.
    pub scheme: Option<(AuthScheme, Vec<u8>)>,
}

/// What the store holds of the credential's material.
#[derive(Debug)]
pub struct StoredPayload {
    pub material: CredentialMaterial,
    pub overrides: CredentialClientOverrides,
}

/// [`PreparedCredentialRevocation`] by what it spells.
pub enum RevocationView {
    LocalOnly,
    Remote { access_token: Seq<char>, request: crate::credential_document::RuntimeView },
}

impl View for PreparedCredentialRevocation {
    type V = RevocationView;

    open spec fn view(&self) -> RevocationView {
        match self {
            PreparedCredentialRevocation::LocalOnly => RevocationView::LocalOnly,
            PreparedCredentialRevocation::Remote { access_token, request } => {
                RevocationView::Remote { access_token: access_token@, request: request@ }
            },
        }
    }
}

/// The token that is revoked of a credential.
pub open spec fn access_token_of(entry: crate::credential_codec::EntryView) -> Seq<char> {
    match entry {
        crate::credential_codec::EntryView::StaticToken { token } => token,
        crate::credential_codec::EntryView::OAuth { access_token, .. } => access_token,
    }
}

/// What a revocation of a stored credential does upstream, or why it cannot be
/// prepared.
pub open spec fn revocation_of(
    summary: CredentialSummary,
    provider_text: Seq<char>,
    provider: Option<IssuingProvider>,
    payload: Result<StoredPayload, String>,
) -> Result<RevocationView, Seq<char>> {
    if summary.kind != AuthKind::OAuth {
        Ok(RevocationView::LocalOnly)
    } else {
        match provider {
            None => Err("provider "@ + provider_text + " is not retained"@),
            Some(provider) => match provider.scheme {
                None => Err("provider declares no auth scheme `"@ + summary.id@.scheme + "`"@),
                Some((scheme, encoded)) => match payload {
                    Err(error) => Err(error@),
                    Ok(payload) => match crate::credential_document::decoded(payload.material@) {
                        Err(error) => Err(error),
                        Ok(entry) => match scheme {
                            AuthScheme::StaticToken { .. } => Err(
                                "stored OAuth credential no longer matches its provider scheme"@,
                            ),
                            AuthScheme::Oauth { revocation_endpoint, .. } => {
                                if crate::digest::blake3_derived(
                                    "omnifs auth runtime fingerprint v1"@,
                                    encoded@,
                                ) != summary.auth_fingerprint@ {
                                    Err("stored OAuth runtime does not match its provider"@)
                                } else if revocation_endpoint is None {
                                    Ok(RevocationView::LocalOnly)
                                } else if !crate::credential_document::is_text(
                                    payload.overrides@.client_secret,
                                ) {
                                    Err("credential token is not UTF-8"@)
                                } else {
                                    Ok(
                                        RevocationView::Remote {
                                            access_token: access_token_of(entry),
                                            request: crate::credential_document::runtime_of(
                                                payload.overrides@,
                                            ),
                                        },
                                    )
                                }
                            },
                        },
                    },
                },
            },
        }
    }
}

/// Prepares the revocation of a stored credential: only an OAuth credential
/// that still matches a provider with a revocation endpoint is revoked
/// upstream.
pub fn prepare_credential_revocation(
    summary: &CredentialSummary,
    provider_text: &str,
    provider: Option<IssuingProvider>,
    payload: Result<StoredPayload, String>,
) -> (revocation: Result<PreparedCredentialRevocation, String>)
    ensures
        crate::credential_document::result_view(revocation) == revocation_of(
            *summary,
            provider_text@,
            provider,
            payload,
        ),
{
    if summary.kind != AuthKind::OAuth {
        return Ok(PreparedCredentialRevocation::LocalOnly);
    }
    let provider = match provider {
        Some(provider) => provider,
        None => return Err(concat3("provider ", provider_text, " is not retained")),
    };
    let (scheme, encoded) = match provider.scheme {
        Some(scheme) => scheme,
        None => return Err(
            concat3("provider declares no auth scheme `", summary.id.scheme.as_str(), "`"),
        ),
    };
    let payload = match payload {
        Ok(payload) => payload,
        Err(error) => return Err(error),
    };
    let entry = match decode_entry(&payload.material) {
        Ok(entry) => entry,
        Err(error) => return Err(error),
    };
    let expected = auth_fingerprint(encoded.as_slice());
    let revocable = match &scheme {
        AuthScheme::Oauth { revocation_endpoint, .. } => revocation_endpoint.is_some(),
        AuthScheme::StaticToken { .. } => return Err(
            "stored OAuth credential no longer matches its provider scheme".to_owned(),
        ),
    };
    if !expected.same(&summary.auth_fingerprint) {
        return Err("stored OAuth runtime does not match its provider".to_owned());
    }
    if !revocable {
        return Ok(PreparedCredentialRevocation::LocalOnly);
    }
    let request = match runtime_overrides(&payload.overrides) {
        Ok(request) => request,
        Err(error) => return Err(error),
    };
    let access_token = match entry {
        CredentialEntry::StaticToken { token } => token,
        CredentialEntry::OAuth { access_token, .. } => access_token,
    };
    Ok(PreparedCredentialRevocation::Remote { access_token, request })
}

/// How a revocation ended upstream.
#[derive(Clone, Copy, Debug, PartialEq, Eq, Structural)]
pub enum RevocationReply {
    Revoked,
    Refused,
    TimedOut,
}

/// What is recorded of a credential after its revocation: it is gone only where
/// the provider confirmed it.
pub fn revocation_finish(reply: RevocationReply) -> (outcome: RevocationActionOutcome)
    ensures
        outcome == (match reply {
            RevocationReply::Revoked => RevocationActionOutcome::Deleted,
            _ => RevocationActionOutcome::Unknown,
        }),
{
    match reply {
        RevocationReply::Revoked => RevocationActionOutcome::Deleted,
        RevocationReply::Refused | RevocationReply::TimedOut => {
            RevocationActionOutcome::Unknown
        },
    }
}

} // verus!
