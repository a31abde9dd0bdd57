//! How a mount of a generation authenticates.
use crate::auth_fingerprint::auth_fingerprint;
use crate::credential_codec::AuthKind;
use crate::credential_document::{
    runtime_overrides, AuthScheme, CredentialId, IdView, OAuthRuntimeOverrides,
};
use crate::generation_builder::{CredentialRuntime, ResolvedMount};
use crate::list::Record;
use crate::name::ProviderId;
use crate::text::copy_texts;
use vstd::prelude::*;

verus! {

/// How requests of a mount are authenticated.
#[derive(Debug)]
pub struct AuthPlan {
    pub id: CredentialId,
    pub inject_domains: Vec<String>,
    pub header_name: String,
    pub value_prefix: Option<String>,
    /// The overrides of an OAuth client; none for a static token.
    pub request: Option<OAuthRuntimeOverrides>,
}

/// [`AuthPlan`] by what it spells.
pub struct PlanView {
    pub id: IdView,
    pub inject_domains: Seq<Seq<char>>,
    pub header_name: Seq<char>,
    pub value_prefix: Option<Seq<char>>,
    pub request: Option<crate::credential_document::RuntimeView>,
}

impl View for AuthPlan {
    type V = PlanView;

    open spec fn view(&self) -> PlanView {
        PlanView {
            id: self.id@,
            inject_domains: crate::text::texts(self.inject_domains@),
            header_name: self.header_name@,
            value_prefix: crate::text::opt_text(self.value_prefix),
            request: crate::credential_document::opt_runtime(self.request),
        }
    }
}

/// The header that a scheme injects into.
pub open spec fn header_of(declared: Option<String>) -> Seq<char> {
    match declared {
        Some(name) => name@,
        None => "Authorization"@,
    }
}

fn header_or_default(declared: &Option<String>) -> (name: String)
    ensures
        name@ == header_of(*declared),
{
    match declared {
        Some(name) => name.clone(),
        None => "Authorization".to_owned(),
    }
}

/// How a credential authenticates under the scheme that its provider pins, or
/// why it cannot. `encoded` is the encoding of provider, scheme and overrides.
pub open spec fn binding_of(
    credential: CredentialRuntime,
    scheme: Option<AuthScheme>,
    encoded: Seq<u8>,
) -> Result<PlanView, Seq<char>> {
    match scheme {
        None => Err("credential scheme is absent from the pinned provider"@),
        Some(scheme) => if crate::digest::blake3_derived(
            "omnifs auth runtime fingerprint v1"@,
            encoded,
        ) != credential.fingerprint@ {
            Err("credential auth runtime no longer matches the pinned provider"@)
        } else {
            match (scheme, credential.kind) {
                (
                    AuthScheme::StaticToken { inject_domains, header_name, value_prefix },
                    AuthKind::StaticToken,
                ) => Ok(
                    PlanView {
                        id: credential.id@,
                        inject_domains: crate::text::texts(inject_domains@),
                        header_name: header_of(header_name),
                        value_prefix: crate::text::opt_text(value_prefix),
                        request: None,
                    },
                ),
                (
                    AuthScheme::Oauth { inject_domains, inject_header_name, inject_value_prefix, .. },
                    AuthKind::OAuth,
                ) => if crate::credential_document::is_text(credential.overrides@.client_secret) {
                    Ok(
                        PlanView {
                            id: credential.id@,
                            inject_domains: crate::text::texts(inject_domains@),
                            header_name: header_of(inject_header_name),
                            value_prefix: crate::text::opt_text(inject_value_prefix),
                            request: Some(
                                crate::credential_document::runtime_of(credential.overrides@),
                            ),
                        },
                    )
                } else {
                    Err("credential token is not UTF-8"@)
                },
                _ => Err("credential kind does not match its provider scheme"@),
            }
        },
    }
}

/// Binds a credential to the scheme that its provider pins.
pub fn build_auth_binding(
    credential: &CredentialRuntime,
    scheme: Option<&AuthScheme>,
    encoded: &[u8],
) -> (binding: Result<AuthPlan, String>)
    ensures
        crate::credential_document::result_view(binding) == binding_of(
            *credential,
            match scheme {
                Some(scheme) => Some(*scheme),
                None => None,
            },
            encoded@,
        ),
{
    let scheme = match scheme {
        Some(scheme) => scheme,
        None => return Err("credential scheme is absent from the pinned provider".to_owned()),
    };
    let expected = auth_fingerprint(encoded);
    if !expected.same(&credential.fingerprint) {
        return Err("credential auth runtime no longer matches the pinned provider".to_owned());
    }
    match (scheme, credential.kind) {
        (
            AuthScheme::StaticToken { inject_domains, header_name, value_prefix },
            AuthKind::StaticToken,
        ) => Ok(
            AuthPlan {
                id: credential.id.copied(),
                inject_domains: copy_texts(inject_domains),
                header_name: header_or_default(header_name),
                value_prefix: value_prefix.clone(),
                request: None,
            },
        ),
        (
            AuthScheme::Oauth { inject_domains, inject_header_name, inject_value_prefix, .. },
            AuthKind::OAuth,
        ) => match runtime_overrides(&credential.overrides) {
            Ok(request) => Ok(
                AuthPlan {
                    id: credential.id.copied(),
                    inject_domains: copy_texts(inject_domains),
                    header_name: header_or_default(inject_header_name),
                    value_prefix: inject_value_prefix.clone(),
                    request: Some(request),
                },
            ),
            Err(error) => Err(error),
        },
        _ => Err("credential kind does not match its provider scheme".to_owned()),
    }
}

/// The place of the latest credential with an identity, or -1.
pub open spec fn place_of(credentials: Seq<CredentialRuntime>, id: IdView) -> int
    decreases credentials.len(),
{
    if credentials.len() == 0 {
        -1
    } else if credentials.last().id@ == id {
        credentials.len() - 1
    } else {
        place_of(credentials.drop_last(), id)
    }
}

/// A place is within its list.
pub proof fn a_place_is_within(credentials: Seq<CredentialRuntime>, id: IdView)
    ensures
        -1 <= place_of(credentials, id) < credentials.len(),
        place_of(credentials, id) >= 0 ==> credentials[place_of(credentials, id)].id@ == id,
    decreases credentials.len(),
{
    if credentials.len() > 0 {
        a_place_is_within(credentials.drop_last(), id);
    }
}

/// The place of the latest credential with an identity.
pub fn find_place(credentials: &Vec<CredentialRuntime>, id: &CredentialId) -> (place: Option<usize>)
    ensures
        match place {
            Some(place) => place == place_of(credentials@, id@) && place < credentials@.len(),
            None => place_of(credentials@, id@) == -1,
        },
{
    let mut left: usize = credentials.len();
    assert(credentials@.take(left as int) =~= credentials@);
    while left > 0
        invariant
            left <= credentials@.len(),
            place_of(credentials@, id@) == place_of(credentials@.take(left as int), id@),
        decreases left,
    {
        let at: usize = left - 1;
        proof {
            assert(credentials@.take(left as int).drop_last() =~= credentials@.take(at as int));
            assert(credentials@.take(left as int).last() == credentials@[at as int]);
        }
        if credentials[at].id.same(id) {
            return Some(at);
        }
        left = at;
    }
    None
}

/// What a mount's credential resolves to.
#[derive(Clone, Copy, Debug, PartialEq, Eq, Structural)]
pub enum CredentialNeed {
    /// The mount names no credential.
    Unneeded,
    /// There is none, or it belongs to another provider.
    Missing,
    /// The credential at this place.
    Bound(usize),
}

/// What the credential that a mount names resolves to, under its provider.
pub open spec fn need_of(
    credential: Option<IdView>,
    provider: ProviderId,
    credentials: Seq<CredentialRuntime>,
) -> CredentialNeed {
    match credential {
        None => CredentialNeed::Unneeded,
        Some(id) => {
            let place = place_of(credentials, id);
            if place >= 0 && credentials[place].provider == provider {
                CredentialNeed::Bound(place as usize)
            } else {
                CredentialNeed::Missing
            }
        },
    }
}

/// What the credential that a mount names resolves to, under its provider.
pub fn find_credential(
    credential: &Option<CredentialId>,
    provider: ProviderId,
    credentials: &Vec<CredentialRuntime>,
) -> (need: CredentialNeed)
    ensures
        need == need_of(
            crate::generation_builder::resolve::opt_id(*credential),
            provider,
            credentials@,
        ),
{
    match credential {
        None => CredentialNeed::Unneeded,
        Some(id) => match find_place(credentials, id) {
            Some(place) => if credentials[place].provider == provider {
                CredentialNeed::Bound(place)
            } else {
                CredentialNeed::Missing
            },
            None => CredentialNeed::Missing,
        },
    }
}

/// In which state a mount enters a generation.
#[derive(Debug)]
pub enum MountBuildState {
    ProviderUnavailable,
    AuthRequired,
    Active { auth: Option<AuthPlan>, credential_generation: Option<u64> },
}

/// [`MountBuildState`] by what it spells.
pub enum BuildView {
    ProviderUnavailable,
    AuthRequired,
    Active { auth: Option<PlanView>, credential_generation: Option<u64> },
}

impl View for MountBuildState {
    type V = BuildView;

    open spec fn view(&self) -> BuildView {
        match self {
            MountBuildState::ProviderUnavailable => BuildView::ProviderUnavailable,
            MountBuildState::AuthRequired => BuildView::AuthRequired,
            MountBuildState::Active { auth, credential_generation } => BuildView::Active {
                auth: match *auth {
                    Some(auth) => Some(auth@),
                    None => None,
                },
                credential_generation: *credential_generation,
            },
        }
    }
}

/// A provider that was loaded for a mount: the artifact, and the scheme it
/// declares under the key of the mount's credential, with the encoding of
/// provider, scheme and overrides.
#[derive(Debug)]
pub struct LoadedProvider {
    pub id: ProviderId,
    pub scheme: Option<AuthScheme>,
    pub encoded: Vec<u8>,
}

/// The state in which a mount enters a generation, or why the generation
/// cannot be built.
pub open spec fn state_of(
    credential: Option<IdView>,
    provider: Option<LoadedProvider>,
    credentials: Seq<CredentialRuntime>,
) -> Result<BuildView, Seq<char>> {
    match provider {
        None => Ok(BuildView::ProviderUnavailable),
        Some(provider) => match need_of(credential, provider.id, credentials) {
            CredentialNeed::Unneeded => Ok(
                BuildView::Active { auth: None, credential_generation: None },
            ),
            CredentialNeed::Missing => Ok(BuildView::AuthRequired),
            CredentialNeed::Bound(place) => match binding_of(
                credentials[place as int],
                provider.scheme,
                provider.encoded@,
            ) {
                Ok(plan) => Ok(
                    BuildView::Active {
                        auth: Some(plan),
                        credential_generation: Some(credentials[place as int].generation),
                    },
                ),
                Err(error) => Err(error),
            },
        },
    }
}

/// The state in which a mount enters a generation. A provider that is not
/// retained and a credential that is missing degrade the mount; a credential
/// that does not fit its provider fails the build.
pub fn build_mount_input(
    mount: &ResolvedMount,
    provider: Option<&LoadedProvider>,
    credentials: &Vec<CredentialRuntime>,
) -> (state: Result<MountBuildState, String>)
    ensures
        crate::credential_document::result_view(state) == state_of(
            crate::generation_builder::resolve::opt_id(mount.credential),
            match provider {
                Some(provider) => Some(*provider),
                None => None,
            },
            credentials@,
        ),
{
    let provider = match provider {
        Some(provider) => provider,
        None => return Ok(MountBuildState::ProviderUnavailable),
    };
    match find_credential(&mount.credential, provider.id, credentials) {
        CredentialNeed::Unneeded => Ok(
            MountBuildState::Active { auth: None, credential_generation: None },
        ),
        CredentialNeed::Missing => Ok(MountBuildState::AuthRequired),
        CredentialNeed::Bound(place) => {
            proof {
                a_place_is_within(credentials@, mount.credential->Some_0@);
            }
            let credential = &credentials[place];
            match build_auth_binding(
                credential,
                provider.scheme.as_ref(),
                provider.encoded.as_slice(),
            ) {
                Ok(plan) => Ok(
                    MountBuildState::Active {
                        auth: Some(plan),
                        credential_generation: Some(credential.generation),
                    },
                ),
                Err(error) => Err(error),
            }
        },
    }
}

} // verus!
