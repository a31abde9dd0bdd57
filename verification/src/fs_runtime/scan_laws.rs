//! What a scan finds, and what is made of it.
use crate::fs_runtime::docker::{judge_listed, ListedContainer, ListedOutcome};
use crate::fs_runtime::driver::{owned_filesystems, Candidate};
use crate::fs_runtime::host::{host_candidate, ScannedHost};
use crate::fs_runtime::image::{explain_pull_error, ImageRef};
use crate::fs_runtime::libkrun::{
    check_guest_image, guest_candidate, judge_scanned, HelperRecord, LibkrunRunner, ScannedGuest,
};
use crate::name::ResourceName;
use vstd::prelude::*;

verus! {

/// Everything that a backend listed is found, and a listing that failed is told as
/// such and hides nothing of the others.
pub proof fn everything_that_was_listed_is_found(
    host: Result<Vec<Candidate>, String>,
    docker: Option<Result<Vec<Candidate>, String>>,
    libkrun: Vec<Candidate>,
    candidates: Vec<Candidate>,
    k: int,
)
    requires
        call_ensures(owned_filesystems, (host, docker, libkrun), candidates),
    ensures
        host is Ok && 0 <= k < host->Ok_0@.len() ==> candidates@.contains(host->Ok_0@[k]),
        docker is Some && docker->0 is Ok && 0 <= k < docker->0->Ok_0@.len()
            ==> candidates@.contains(docker->0->Ok_0@[k]),
        0 <= k < libkrun@.len() ==> candidates@.contains(libkrun@[k]),
        host is Err ==> exists|i: int|
            0 <= i < candidates@.len() && (#[trigger] candidates@[i]) is ListingFailed,
        docker is Some && docker->0 is Err ==> exists|i: int|
            0 <= i < candidates@.len() && (#[trigger] candidates@[i]) is ListingFailed,
{
    let host_part = match host {
        Ok(owned) => owned@.len(),
        Err(_) => 1,
    };
    let docker_part = match docker {
        Some(Ok(owned)) => owned@.len(),
        Some(Err(_)) => 1,
        None => 0,
    };
    if host is Ok && 0 <= k < host->Ok_0@.len() {
        assert(candidates@.take(host->Ok_0@.len() as int)[k] == host->Ok_0@[k]);
        assert(candidates@[k] == host->Ok_0@[k]);
    }
    if host is Err {
        assert(candidates@[0] is ListingFailed);
    }
    if docker is Some && docker->0 is Ok && 0 <= k < docker->0->Ok_0@.len() {
        let owned = docker->0->Ok_0@;
        assert(candidates@.subrange(host_part as int, (host_part + owned.len()) as int)[k]
            == owned[k]);
        assert(candidates@[host_part + k] == owned[k]);
    }
    if docker is Some && docker->0 is Err {
        assert(candidates@[host_part as int] is ListingFailed);
    }
    if 0 <= k < libkrun@.len() {
        assert(candidates@.skip((host_part + docker_part) as int)[k] == libkrun@[k]);
        assert(candidates@[host_part + docker_part + k] == libkrun@[k]);
    }
}

/// A listed container is taken for that of a filesystem exactly where it has an
/// identity that does not change and the label of a filesystem.
pub proof fn a_listed_container_is_taken_by_its_label(
    listed: ListedContainer,
    outcome: ListedOutcome,
)
    requires
        call_ensures(judge_listed, (listed,), outcome),
    ensures
        outcome is Owned <==> listed.id is Some && listed.filesystem_label is Some,
        outcome is Owned ==> outcome->Owned_0.identity.id@ == (listed.id->0)@
            && outcome->Owned_0.filesystem_id@ == (listed.filesystem_label->0)@,
{
}

/// A scanned guest is confirmed only by a record of its own filesystem that its helper
/// proved; without a record there is none, and anything else is told as what is wrong.
pub proof fn a_scanned_guest_is_confirmed_by_its_own_record(
    filesystem: &ResourceName,
    record: Result<Option<HelperRecord>, String>,
    proved: Result<(), String>,
    confirmed: Result<Option<HelperRecord>, String>,
)
    requires
        call_ensures(judge_scanned, (filesystem, record, proved), confirmed),
    ensures
        record is Ok && record->Ok_0 is None ==> confirmed is Ok && confirmed->Ok_0 is None,
        confirmed is Ok && confirmed->Ok_0 is Some <==> record is Ok && record->Ok_0 is Some
            && proved is Ok && (record->Ok_0->0).filesystem@ == filesystem@,
        confirmed is Ok && confirmed->Ok_0 is Some ==> (confirmed->Ok_0->0)@ == (record->Ok_0->0)@,
        record is Err ==> confirmed is Err && confirmed->Err_0@ == record->Err_0@,
{
    let known = crate::fs_runtime::libkrun::record_view(confirmed);
    let expected = crate::fs_runtime::libkrun::scanned_guest(
        filesystem@,
        crate::fs_runtime::libkrun::record_view(record),
        crate::serving_reconciler::pass::result_of(proved),
    );
    assert(known == expected);
}

/// A scanned directory becomes a candidate of its backend where it has a record, and is
/// told as invalid where it could not be read; an empty one is none.
pub proof fn a_scanned_directory_becomes_a_candidate(
    scanned: ScannedHost,
    state_root: &str,
    candidate: Option<Candidate>,
    guest: ScannedGuest,
    runtime_root: &str,
    found: Candidate,
)
    requires
        call_ensures(host_candidate, (scanned, state_root), candidate),
        call_ensures(guest_candidate, (guest, runtime_root), found),
    ensures
        candidate is None <==> scanned is Empty,
        scanned is Recorded <==> candidate is Some && candidate->0 is Host,
        scanned is Recorded ==> candidate->0->Host_record == scanned->record
            && candidate->0->Host_state_dir == scanned->Recorded_state_dir,
        guest is Recorded <==> found is Libkrun,
        guest is Recorded ==> found->Libkrun_filesystem == guest->filesystem
            && found->Libkrun_state_dir == guest->Recorded_state_dir,
        !(guest is Recorded) ==> found is Invalid,
{
}

/// A guest image has to be a file, and is used where it stands.
pub proof fn a_guest_image_has_to_be_a_file(
    path: String,
    is_file: bool,
    checked: Result<String, String>,
    length: usize,
    start: usize,
)
    requires
        call_ensures(check_guest_image, (path, is_file), checked),
        call_ensures(LibkrunRunner::diagnostic_start, (length,), start),
    ensures
        checked is Ok <==> is_file,
        checked is Ok ==> checked->Ok_0 == path,
        start <= length && length - start <= 32_768,
        length <= 32_768 ==> start == 0,
        length > 32_768 ==> length - start == 32_768,
{
}

/// An error of a pull that says that the tag is not there is explained, and any other
/// is passed on as it is.
pub proof fn a_missing_tag_is_explained(image: &ImageRef, error: String, text: String)
    requires
        call_ensures(explain_pull_error, (image, error), text),
    ensures
        ({
            let lower = crate::fs_runtime::image::lower_case_of(error@);
            let within = |text: Seq<char>, part: Seq<char>|
                exists|i: int|
                    0 <= i && i + part.len() <= text.len() && #[trigger] text.subrange(
                        i,
                        i + part.len(),
                    ) == part;
            &&& within(error@, "404"@) || within(lower, "not found"@) ==> text@
                == crate::fs_runtime::image::missing_image_text(image@)
            &&& !within(error@, "404"@) && !within(lower, "not found"@) ==> text@ == error@
        }),
{
    let lower = crate::fs_runtime::image::lower_case_of(error@);
    occurring_is_standing_within(error@, "404"@);
    occurring_is_standing_within(lower, "not found"@);
}

proof fn occurring_is_standing_within(text: Seq<char>, part: Seq<char>)
    ensures
        crate::text::occurs(text, part) <==> exists|i: int|
            0 <= i && i + part.len() <= text.len() && #[trigger] text.subrange(i, i + part.len())
                == part,
{
    if exists|i: int|
        0 <= i && i + part.len() <= text.len() && #[trigger] text.subrange(i, i + part.len())
            == part {
        let i = choose|i: int|
            0 <= i && i + part.len() <= text.len() && #[trigger] text.subrange(i, i + part.len())
                == part;
        assert(crate::text::occurs_at(text, part, i));
    }
    if crate::text::occurs(text, part) {
        let i = choose|i: int| crate::text::occurs_at(text, part, i);
        assert(text.subrange(i, i + part.len()) == part);
    }
}

} // verus!
