//! The byte form of stored credential material: a versioned prefix before the
//! encoded payload, and what a payload holds.
use crate::text::copy_texts;
use vstd::prelude::*;

verus! {

/// How a credential authenticates.
#[derive(Clone, Copy, Debug, PartialEq, Eq, Structural)]
pub enum AuthKind {
    StaticToken,
    OAuth,
}

/// The secret part of a credential. Tokens are the bytes that were submitted.
#[derive(Debug)]
pub enum CredentialMaterial {
    StaticToken { token: Vec<u8> },
    OAuth {
        access_token: Vec<u8>,
        refresh_token: Option<Vec<u8>>,
        expires_at_unix: Option<i64>,
        token_type: String,
        scopes: Vec<String>,
        upstream_identity: Option<String>,
    },
}

/// [`CredentialMaterial`] by what it holds.
pub enum MaterialView {
    StaticToken { token: Seq<u8> },
    OAuth {
        access_token: Seq<u8>,
        refresh_token: Option<Seq<u8>>,
        expires_at_unix: Option<i64>,
        token_type: Seq<char>,
        scopes: Seq<Seq<char>>,
        upstream_identity: Option<Seq<char>>,
    },
}

/// Optional bytes by their sequence.
pub open spec fn opt_bytes(bytes: Option<Vec<u8>>) -> Option<Seq<u8>> {
    match bytes {
        Some(bytes) => Some(bytes@),
        None => None,
    }
}

impl View for CredentialMaterial {
    type V = MaterialView;

    open spec fn view(&self) -> MaterialView {
        match self {
            CredentialMaterial::StaticToken { token } => MaterialView::StaticToken { token: token@ },
            CredentialMaterial::OAuth {
                access_token,
                refresh_token,
                expires_at_unix,
                token_type,
                scopes,
                upstream_identity,
            } => MaterialView::OAuth {
                access_token: access_token@,
                refresh_token: opt_bytes(*refresh_token),
                expires_at_unix: *expires_at_unix,
                token_type: token_type@,
                scopes: crate::text::texts(scopes@),
                upstream_identity: crate::text::opt_text(*upstream_identity),
            },
        }
    }
}

/// A credential as the auth service holds it. Tokens are text, and an expiry
/// is a second that the calendar has.
#[derive(Debug)]
pub enum CredentialEntry {
    StaticToken { token: String },
    OAuth {
        access_token: String,
        refresh_token: Option<String>,
        expires_at: Option<i64>,
        token_type: String,
        scopes: Vec<String>,
        upstream_identity: Option<String>,
    },
}

/// [`CredentialEntry`] by what it holds.
pub enum EntryView {
    StaticToken { token: Seq<char> },
    OAuth {
        access_token: Seq<char>,
        refresh_token: Option<Seq<char>>,
        expires_at: Option<i64>,
        token_type: Seq<char>,
        scopes: Seq<Seq<char>>,
        upstream_identity: Option<Seq<char>>,
    },
}

impl View for CredentialEntry {
    type V = EntryView;

    open spec fn view(&self) -> EntryView {
        match self {
            CredentialEntry::StaticToken { token } => EntryView::StaticToken { token: token@ },
            CredentialEntry::OAuth {
                access_token,
                refresh_token,
                expires_at,
                token_type,
                scopes,
                upstream_identity,
            } => EntryView::OAuth {
                access_token: access_token@,
                refresh_token: crate::text::opt_text(*refresh_token),
                expires_at: *expires_at,
                token_type: token_type@,
                scopes: crate::text::texts(scopes@),
                upstream_identity: crate::text::opt_text(*upstream_identity),
            },
        }
    }
}

/// What every stored credential starts with.
pub open spec fn payload_prefix() -> Seq<u8> {
    vstd::utf8::encode_utf8("omnifs.credential.v1\0"@)
}

/// Appends bytes to a list.
fn append_bytes(bytes: &mut Vec<u8>, more: &[u8])
    ensures
        final(bytes)@ == old(bytes)@ + more@,
{
    let ghost before = bytes@;
    let mut i: usize = 0;
    assert(before + more@.take(0) =~= before);
    while i < more.len()
        invariant
            i <= more@.len(),
            bytes@ == before + more@.take(i as int),
        decreases more@.len() - i,
    {
        bytes.push(more[i]);
        assert(bytes@ =~= before + more@.take(i + 1));
        i = i + 1;
    }
    assert(more@.take(i as int) =~= more@);
}

/// Copies bytes.
pub fn copy_bytes(bytes: &[u8]) -> (copy: Vec<u8>)
    ensures
        copy@ == bytes@,
{
    let mut copy: Vec<u8> = Vec::new();
    append_bytes(&mut copy, bytes);
    assert(Seq::<u8>::empty() + bytes@ =~= bytes@);
    copy
}

/// The stored form of an encoded payload.
pub fn encode_payload(encoded: &[u8]) -> (stored: Vec<u8>)
    ensures
        stored@ == payload_prefix() + encoded@,
{
    let mut stored = copy_bytes("omnifs.credential.v1\0".as_bytes());
    append_bytes(&mut stored, encoded);
    stored
}

/// Whether stored bytes carry a payload of a known form.
pub open spec fn is_stored(stored: Seq<u8>) -> bool {
    payload_prefix().is_prefix_of(stored)
}

/// The encoded payload that stored bytes carry.
pub open spec fn payload_of(stored: Seq<u8>) -> Seq<u8> {
    stored.skip(payload_prefix().len() as int)
}

/// The encoded payload that stored bytes carry.
pub fn decode_payload(stored: &[u8]) -> (encoded: Result<Vec<u8>, String>)
    ensures
        match encoded {
            Ok(encoded) => is_stored(stored@) && encoded@ == payload_of(stored@),
            Err(error) => !is_stored(stored@) && error@
                == "credential material has an unknown encoding"@,
        },
{
    let prefix = "omnifs.credential.v1\0".as_bytes();
    if stored.len() < prefix.len() {
        return Err("credential material has an unknown encoding".to_owned());
    }
    let mut i: usize = 0;
    while i < prefix.len()
        invariant
            i <= prefix@.len() <= stored@.len(),
            prefix@ == payload_prefix(),
            forall|j: int| 0 <= j < i ==> prefix@[j] == stored@[j],
        decreases prefix@.len() - i,
    {
        if prefix[i] != stored[i] {
            assert(stored@.subrange(0, prefix@.len() as int)[i as int] != prefix@[i as int]);
            return Err("credential material has an unknown encoding".to_owned());
        }
        i = i + 1;
    }
    assert(prefix@ =~= stored@.subrange(0, prefix@.len() as int));
    let mut encoded: Vec<u8> = Vec::new();
    while i < stored.len()
        invariant
            prefix@.len() <= i <= stored@.len(),
            encoded@ == stored@.subrange(prefix@.len() as int, i as int),
        decreases stored@.len() - i,
    {
        encoded.push(stored[i]);
        assert(encoded@ =~= stored@.subrange(prefix@.len() as int, i + 1));
        i = i + 1;
    }
    assert(encoded@ =~= payload_of(stored@));
    Ok(encoded)
}

/// What is stored is read back, and nothing else reads back as it.
pub proof fn a_stored_payload_reads_back(encoded: Seq<u8>, stored: Seq<u8>)
    ensures
        is_stored(payload_prefix() + encoded),
        payload_of(payload_prefix() + encoded) == encoded,
        is_stored(stored) && payload_of(stored) == encoded ==> stored == payload_prefix() + encoded,
{
    let prefix = payload_prefix();
    assert((prefix + encoded).subrange(0, prefix.len() as int) =~= prefix);
    assert(payload_of(prefix + encoded) =~= encoded);
    if is_stored(stored) && payload_of(stored) == encoded {
        assert(stored =~= stored.subrange(0, prefix.len() as int) + payload_of(stored));
    }
}

/// The material of a refreshed credential.
pub open spec fn refreshed(entry: EntryView) -> MaterialView
    recommends
        entry is OAuth,
{
    MaterialView::OAuth {
        access_token: vstd::utf8::encode_utf8(entry->access_token),
        refresh_token: match entry->refresh_token {
            Some(token) => Some(vstd::utf8::encode_utf8(token)),
            None => None,
        },
        expires_at_unix: entry->expires_at,
        token_type: entry->token_type,
        scopes: entry->scopes,
        upstream_identity: entry->upstream_identity,
    }
}

/// The material that replaces a credential's after a refresh. Only OAuth
/// credentials refresh.
pub fn refreshed_material(entry: &CredentialEntry) -> (material: Result<CredentialMaterial, String>)
    ensures
        match material {
            Ok(material) => entry@ is OAuth && material@ == refreshed(entry@),
            Err(error) => entry@ is StaticToken && error@ == "only OAuth credentials can refresh"@,
        },
{
    match entry {
        CredentialEntry::StaticToken { .. } => Err("only OAuth credentials can refresh".to_owned()),
        CredentialEntry::OAuth {
            access_token,
            refresh_token,
            expires_at,
            token_type,
            scopes,
            upstream_identity,
        } => Ok(
            CredentialMaterial::OAuth {
                access_token: copy_bytes(access_token.as_str().as_bytes()),
                refresh_token: match refresh_token {
                    Some(token) => Some(copy_bytes(token.as_str().as_bytes())),
                    None => None,
                },
                expires_at_unix: *expires_at,
                token_type: token_type.clone(),
                scopes: copy_texts(scopes),
                upstream_identity: upstream_identity.clone(),
            },
        ),
    }
}

} // verus!
