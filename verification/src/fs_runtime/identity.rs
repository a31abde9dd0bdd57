//! Guards on identity that every runtime backend shares.
use crate::name::{FilesystemSpec, ResourceName};
use crate::text::{concat, concat3};
use vstd::prelude::*;

verus! {

/// What a record that is another filesystem's is refused with.
pub open spec fn mismatch_text(filesystem: Seq<char>) -> Seq<char> {
    "runner record does not match configured Filesystem `"@ + filesystem + "`"@
}

/// Refuses a record that is not about the filesystem it should be about.
pub fn ensure_record_matches(
    record_filesystem: &ResourceName,
    record_spec: &FilesystemSpec,
    expected_filesystem: &ResourceName,
    expected_spec: &FilesystemSpec,
) -> (matched: Result<(), String>)
    ensures
        match matched {
            Ok(_) => record_filesystem@ == expected_filesystem@ && crate::name::same_spec(
                record_spec@,
                expected_spec@,
            ),
            Err(text) => !(record_filesystem@ == expected_filesystem@ && crate::name::same_spec(
                record_spec@,
                expected_spec@,
            )) && text@ == mismatch_text(expected_filesystem@),
        },
{
    if record_filesystem.same(expected_filesystem) && record_spec.same(expected_spec) {
        return Ok(());
    }
    Err(
        concat3(
            "runner record does not match configured Filesystem `",
            expected_filesystem.as_str(),
            "`",
        ),
    )
}

/// What an identity that changed is refused with.
pub open spec fn changed_text(noun: Seq<char>) -> Seq<char> {
    noun + " identity changed; refusing to touch its replacement"@
}

/// A value that identifies a runtime.
pub trait Identity: View {
    /// Whether both identify the same runtime.
    spec fn identical(a: Self::V, b: Self::V) -> bool;

    /// Whether both identify the same runtime.
    fn is_same(&self, other: &Self) -> (same: bool)
        ensures
            same == Self::identical(self@, other@),
    ;
}

impl Identity for u8 {
    open spec fn identical(a: u8, b: u8) -> bool {
        a == b
    }

    fn is_same(&self, other: &Self) -> (same: bool) {
        *self == *other
    }
}

/// Refuses to go on with an identity that is gone or has been replaced.
pub fn ensure_identity_unchanged<T: Identity>(
    current: Option<&T>,
    expected: &T,
    noun: &str,
) -> (unchanged: Result<(), String>)
    ensures
        match unchanged {
            Ok(_) => current matches Some(current) && T::identical(current@, expected@),
            Err(text) => !(current matches Some(current) && T::identical(current@, expected@))
                && text@ == changed_text(noun@),
        },
{
    if let Some(current) = current {
        if current.is_same(expected) {
            return Ok(());
        }
    }
    Err(concat(noun, " identity changed; refusing to touch its replacement"))
}

} // verus!
