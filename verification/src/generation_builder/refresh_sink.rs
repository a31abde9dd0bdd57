//! What becomes of a refreshed OAuth credential.
use crate::auth_fingerprint::AuthRuntimeFingerprint;
use crate::credential_codec::{refreshed_material, AuthKind, CredentialEntry, CredentialMaterial};
use crate::credential_document::CredentialId;
use crate::generation_builder::bind::find_place;
use crate::generation_builder::{CredentialRuntime, CredentialState};
use crate::name::ProviderId;
use crate::text::copy_texts;
use vstd::prelude::*;

verus! {

/// Why a refresh was not persisted.
#[derive(Clone, Copy, Debug, PartialEq, Eq, Structural)]
pub enum RefreshPersistError {
    Rejected,
    Conflict,
    Unavailable,
}

/// Whether a refresh changed what the credential may do.
#[derive(Clone, Copy, Debug, PartialEq, Eq, Structural)]
pub enum RefreshKind {
    Routine,
    AuthorityChanged,
}

/// A refresh that is to be persisted.
#[derive(Debug)]
pub struct RefreshCandidate {
    pub credential_id: CredentialId,
    pub refreshed: CredentialEntry,
    pub kind: RefreshKind,
    pub expected_version: u64,
}

/// What is written for a refresh.
#[derive(Debug)]
pub struct RefreshDocument {
    pub provider: ProviderId,
    pub kind: AuthKind,
    pub auth_fingerprint: AuthRuntimeFingerprint,
    pub scopes: Vec<String>,
    pub material: CredentialMaterial,
    /// The place of the credential whose overrides go with the material.
    pub place: usize,
}

/// Whether a refresh is of an OAuth credential that the generation uses.
pub open spec fn accepted(
    candidate: RefreshCandidate,
    credentials: Seq<CredentialRuntime>,
) -> bool {
    let place = crate::generation_builder::bind::place_of(credentials, candidate.credential_id@);
    place >= 0 && credentials[place].kind == AuthKind::OAuth && candidate.refreshed is OAuth
}

/// What to write for a refresh of a credential that the generation uses. Only
/// OAuth credentials refresh.
pub fn refresh_document(
    candidate: &RefreshCandidate,
    credentials: &Vec<CredentialRuntime>,
) -> (document: Result<RefreshDocument, RefreshPersistError>)
    ensures
        match document {
            Ok(document) => accepted(*candidate, credentials@) && document.place
                == crate::generation_builder::bind::place_of(
                credentials@,
                candidate.credential_id@,
            ) && document.provider == credentials@[document.place as int].provider
                && document.kind == AuthKind::OAuth && document.auth_fingerprint
                == credentials@[document.place as int].fingerprint && document.material@
                == crate::credential_codec::refreshed(candidate.refreshed@) && crate::text::texts(
                document.scopes@,
            ) == candidate.refreshed@->scopes,
            Err(error) => !accepted(*candidate, credentials@) && error
                == RefreshPersistError::Rejected,
        },
{
    let place: usize = match find_place(credentials, &candidate.credential_id) {
        Some(place) => place,
        None => return Err(RefreshPersistError::Rejected),
    };
    let credential = &credentials[place];
    if credential.kind != AuthKind::OAuth {
        return Err(RefreshPersistError::Rejected);
    }
    let material = match refreshed_material(&candidate.refreshed) {
        Ok(material) => material,
        Err(_) => return Err(RefreshPersistError::Rejected),
    };
    let scopes = match &candidate.refreshed {
        CredentialEntry::OAuth { scopes, .. } => copy_texts(scopes),
        CredentialEntry::StaticToken { .. } => Vec::new(),
    };
    Ok(
        RefreshDocument {
            provider: credential.provider,
            kind: credential.kind,
            auth_fingerprint: credential.fingerprint,
            scopes,
            material,
            place,
        },
    )
}

/// Why the store did not write a refresh.
#[derive(Clone, Copy, Debug, PartialEq, Eq, Structural)]
pub enum CredentialWriteError {
    Conflict,
    Store,
    NotFound,
    GenerationConflict,
    FactsMismatch,
    InvalidState,
}

/// What a failed write means for a refresh.
pub fn map_refresh_error(error: CredentialWriteError) -> (mapped: RefreshPersistError)
    ensures
        mapped == (match error {
            CredentialWriteError::Conflict => RefreshPersistError::Conflict,
            CredentialWriteError::Store => RefreshPersistError::Unavailable,
            _ => RefreshPersistError::Rejected,
        }),
{
    match error {
        CredentialWriteError::Conflict => RefreshPersistError::Conflict,
        CredentialWriteError::Store => RefreshPersistError::Unavailable,
        CredentialWriteError::NotFound
        | CredentialWriteError::GenerationConflict
        | CredentialWriteError::FactsMismatch
        | CredentialWriteError::InvalidState => RefreshPersistError::Rejected,
    }
}

/// How a refresh was persisted.
#[derive(Clone, Copy, Debug, PartialEq, Eq, Structural)]
pub enum RefreshPersistence {
    Active { version: u64 },
    PendingRepublish { version: u64 },
}

/// What the outcome of a write means for a refresh: the state and the version
/// the credential has now, or why it was not written.
pub fn persisted(
    outcome: Result<(CredentialState, u64), CredentialWriteError>,
) -> (persistence: Result<RefreshPersistence, RefreshPersistError>)
    ensures
        persistence == (match outcome {
            Ok((CredentialState::Active, version)) => Ok::<
                RefreshPersistence,
                RefreshPersistError,
            >(RefreshPersistence::Active { version }),
            Ok((CredentialState::PendingRepublish, version)) => Ok(
                RefreshPersistence::PendingRepublish { version },
            ),
            Ok(_) => Err(RefreshPersistError::Rejected),
            Err(CredentialWriteError::Conflict) => Err(RefreshPersistError::Conflict),
            Err(CredentialWriteError::Store) => Err(RefreshPersistError::Unavailable),
            Err(_) => Err(RefreshPersistError::Rejected),
        }),
{
    match outcome {
        Ok((CredentialState::Active, version)) => Ok(RefreshPersistence::Active { version }),
        Ok((CredentialState::PendingRepublish, version)) => Ok(
            RefreshPersistence::PendingRepublish { version },
        ),
        Ok(_) => Err(RefreshPersistError::Rejected),
        Err(error) => Err(map_refresh_error(error)),
    }
}

} // verus!
