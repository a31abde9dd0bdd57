//! What is taken out of the bundle of embedded providers.
use crate::provider_bundle::{
    ArchivedView, BundleStage, DamageView, EmbeddedProvider, EmbeddedProviders, EmbeddedView,
    FileView,
};
use vstd::prelude::*;

verus! {

/// As long as every file has a name, each is taken with its own name and its own
/// content, in the order of the archive.
pub proof fn every_named_file_is_taken(items: Seq<ArchivedView>, damage: DamageView)
    requires
        forall|i: int|
            0 <= i < items.len() ==> crate::provider_bundle::name_of((#[trigger] items[i]).path)
                is Some,
    ensures
        ({
            let whole = crate::provider_bundle::staged(items, None);
            let broken = crate::provider_bundle::staged(items, Some(damage));
            &&& whole.failure is None
            &&& whole.files.len() == items.len()
            &&& forall|i: int|
                0 <= i < items.len() ==> #[trigger] whole.files[i] == (FileView {
                    name: crate::provider_bundle::name_of(items[i].path)->0,
                    bytes: items[i].content,
                })
            &&& broken.files == whole.files && broken.failure is Some
        }),
    decreases items.len(),
{
    if items.len() > 0 {
        let front = items.drop_last();
        assert forall|i: int| 0 <= i < front.len() implies crate::provider_bundle::name_of(
            (#[trigger] front[i]).path,
        ) is Some by {
            assert(front[i] == items[i]);
        }
        every_named_file_is_taken(front, damage);
        let earlier = crate::provider_bundle::staged(front, None);
        let whole = crate::provider_bundle::staged(items, None);
        assert(crate::provider_bundle::name_of(items[items.len() - 1].path) is Some);
        assert forall|i: int| 0 <= i < items.len() implies #[trigger] whole.files[i] == (FileView {
            name: crate::provider_bundle::name_of(items[i].path)->0,
            bytes: items[i].content,
        }) by {
            if i < front.len() {
                assert(whole.files[i] == earlier.files[i]);
                assert(front[i] == items[i]);
            }
        }
    }
}

/// A file without a name ends the bundle: what stands before it is kept, and nothing
/// behind it is.
pub proof fn a_nameless_file_ends_the_bundle(
    items: Seq<ArchivedView>,
    at: int,
    damage: Option<DamageView>,
)
    requires
        0 <= at < items.len(),
        crate::provider_bundle::name_of(items[at].path) is None,
        forall|i: int|
            0 <= i < at ==> crate::provider_bundle::name_of((#[trigger] items[i]).path) is Some,
    ensures
        ({
            let stage = crate::provider_bundle::staged(items, damage);
            &&& stage.files.len() == at
            &&& stage.failure == Some("embedded provider bundle entry has no file name"@)
        }),
    decreases items.len(),
{
    let front = items.drop_last();
    if at == items.len() - 1 {
        assert forall|i: int| 0 <= i < front.len() implies crate::provider_bundle::name_of(
            (#[trigger] front[i]).path,
        ) is Some by {
            assert(front[i] == items[i]);
        }
        every_named_file_is_taken(front, DamageView::Decoder(Seq::empty()));
    } else {
        assert forall|i: int| 0 <= i < at implies crate::provider_bundle::name_of(
            (#[trigger] front[i]).path,
        ) is Some by {
            assert(front[i] == items[i]);
        }
        assert(front[at] == items[at]);
        a_nameless_file_ends_the_bundle(front, at, None);
    }
}

/// Damage is told as where it was met, with its cause.
pub proof fn damage_is_told_as_where_it_was(cause: Seq<char>, path: Seq<u8>)
    ensures
        crate::provider_bundle::damage_text(DamageView::Decoder(cause))
            == "decode embedded provider bundle: "@ + cause,
        crate::provider_bundle::damage_text(DamageView::Archive(cause))
            == "read embedded provider bundle: "@ + cause,
        crate::provider_bundle::damage_text(DamageView::Header(cause))
            == "read embedded provider bundle entry: "@ + cause,
        crate::provider_bundle::name_of(path) is Some ==> crate::provider_bundle::damage_text(
            DamageView::Content(path, cause),
        ) == "read embedded provider bundle file `"@ + crate::provider_bundle::name_of(path)->0
            + "`: "@ + cause,
{
}

proof fn nothing_was_refused_before(artifacts: Seq<Result<EmbeddedProvider, String>>)
    ensures
        ({
            let at = crate::provider_bundle::first_refused(artifacts);
            &&& 0 <= at <= artifacts.len()
            &&& at < artifacts.len() ==> artifacts[at] is Err
            &&& forall|i: int| 0 <= i < at ==> (#[trigger] artifacts[i]) is Ok
        }),
    decreases artifacts.len(),
{
    if artifacts.len() > 0 {
        let front = artifacts.drop_last();
        nothing_was_refused_before(front);
        let at = crate::provider_bundle::first_refused(artifacts);
        assert forall|i: int| 0 <= i < at implies (#[trigger] artifacts[i]) is Ok by {
            if i < front.len() {
                assert(front[i] == artifacts[i]);
            }
        }
        if at < front.len() {
            assert(front[at] == artifacts[at]);
        }
    }
}

/// A bundle is loaded exactly where it is whole and every artifact in it is accepted;
/// all of them are held, by name, and nothing else is. The earliest artifact that is
/// refused is the one that is told.
pub proof fn a_bundle_is_loaded_whole(
    stage: BundleStage,
    artifacts: Vec<Result<EmbeddedProvider, String>>,
    embedded: Result<EmbeddedProviders, String>,
    at: int,
)
    requires
        artifacts@.len() == stage.files@.len(),
        call_ensures(EmbeddedProviders::load, (stage, artifacts), embedded),
    ensures
        embedded is Ok <==> stage.failure is None && forall|i: int|
            0 <= i < artifacts@.len() ==> (#[trigger] artifacts@[i]) is Ok,
        embedded is Ok ==> embedded->Ok_0@.len() == artifacts@.len()
            && embedded->Ok_0@.to_multiset() == Seq::new(
            artifacts@.len(),
            |i: int| artifacts@[i]->Ok_0@,
        ).to_multiset(),
        0 <= at < artifacts@.len() && artifacts@[at] is Err && (forall|i: int|
            0 <= i < at ==> (#[trigger] artifacts@[i]) is Ok) ==> embedded is Err
            && embedded->Err_0@ == "validate embedded provider artifact `"@ + stage@.files[at].name
            + "`: "@ + artifacts@[at]->Err_0@,
{
    broadcast use vstd::seq_lib::group_to_multiset_ensures;

    nothing_was_refused_before(artifacts@);
    let first = crate::provider_bundle::first_refused(artifacts@);
    let all = crate::provider_bundle::accepted(artifacts@);
    assert(all =~= Seq::new(artifacts@.len(), |i: int| artifacts@[i]->Ok_0@));
    crate::order::sorted_is_in_order::<EmbeddedProvider>(all);
    if embedded is Ok {
        assert(embedded->Ok_0@.to_multiset() == all.to_multiset());
        assert(embedded->Ok_0@.len() == embedded->Ok_0@.to_multiset().len());
        assert(all.len() == all.to_multiset().len());
    }
    if 0 <= at < artifacts@.len() && artifacts@[at] is Err && (forall|i: int|
        0 <= i < at ==> (#[trigger] artifacts@[i]) is Ok) {
        if first < at {
            assert(artifacts@[first] is Ok);
        }
        if at < first {
            assert(artifacts@[at] is Ok);
        }
    }
}

/// What is shown of an embedded provider is its own.
pub proof fn an_embedded_provider_is_shown_as_it_is(provider: EmbeddedView)
    ensures
        ({
            let shown = crate::provider_bundle::metadata_of(provider);
            &&& shown.id == provider.id && shown.name == provider.name
            &&& shown.version == provider.version && shown.manifest == provider.manifest
        }),
{
}

proof fn the_last_slash_is_last(path: Seq<u8>, at: int)
    requires
        -1 <= at < path.len(),
        at >= 0 ==> path[at] == 47,
        forall|i: int| at < i < path.len() ==> #[trigger] path[i] != 47,
    ensures
        crate::provider_bundle::last_slash(path) == at,
    decreases path.len(),
{
    if at < path.len() - 1 {
        assert(path.last() != 47);
        the_last_slash_is_last(path.drop_last(), at);
    }
}

/// A file is named by what follows the last slash of its path; a slash behind it
/// changes nothing, and a path that ends in its parent names none.
pub proof fn a_file_is_named_by_its_last_component(dir: Seq<u8>, name: Seq<u8>)
    requires
        name.len() > 0,
        !name.contains(47),
        name != seq![46u8],
    ensures
        name != seq![46u8, 46u8] ==> crate::provider_bundle::file_name_of(dir.push(47) + name)
            == Some(name) && crate::provider_bundle::file_name_of(name) == Some(name),
        name == seq![46u8, 46u8] ==> crate::provider_bundle::file_name_of(dir.push(47) + name)
            is None,
        dir.len() > 0 ==> crate::provider_bundle::file_name_of(dir.push(47))
            == crate::provider_bundle::file_name_of(dir),
{
    let path = dir.push(47) + name;
    let at = dir.len() as int;
    assert forall|i: int| at < i < path.len() implies #[trigger] path[i] != 47 by {
        assert(path[i] == name[i - at - 1]);
        assert(name.contains(name[i - at - 1]));
    }
    the_last_slash_is_last(path, at);
    assert(path.skip(at + 1) =~= name);
    assert forall|i: int| -1 < i < name.len() implies #[trigger] name[i] != 47 by {
        assert(name.contains(name[i]));
    }
    the_last_slash_is_last(name, -1);
    assert(name.skip(0) =~= name);
    let slashed = dir.push(47);
    the_last_slash_is_last(slashed, at);
    assert(slashed.skip(at + 1).len() == 0);
    assert(slashed.take(at) =~= dir);
}

/// A bundle whose decompression broke off keeps every file that came in whole; the one
/// that did not is told as broken.
pub proof fn a_torn_bundle_keeps_what_is_whole(files: Seq<ArchivedView>, cause: Seq<char>)
    ensures
        ({
            let (kept, damage) = crate::provider_bundle::torn(files, cause);
            let broken = files.len() > 0 && files.last().content.len() < files.last().size;
            &&& damage is Some
            &&& !broken ==> kept == files && damage == Some(DamageView::Header(cause))
            &&& broken ==> kept == files.drop_last() && damage == Some(
                DamageView::Content(files.last().path, cause),
            )
        }),
{
}

/// An archive that came in whole is read as it is, up to a file that claims more than
/// the archive holds; one that broke off is read as far as it came, unless it had
/// ended before.
pub proof fn an_archive_is_read_as_far_as_it_came(content: Seq<u8>, cause: Seq<char>)
    ensures
        ({
            let whole = crate::provider_bundle::read_through(content, None);
            let broken = crate::provider_bundle::read_through(content, Some(cause));
            let read = crate::provider_bundle::tar_content(content);
            let filled = content + crate::provider_bundle::filled_block(0);
            let padded = crate::provider_bundle::tar_content(filled);
            &&& !crate::provider_bundle::overclaims(content) ==> whole == (read.files, read.damage)
            &&& crate::provider_bundle::overclaims(content) ==> whole.1 == Some(
                DamageView::Header("a sparse file claims more than the archive holds"@),
            )
            &&& !crate::provider_bundle::overclaims(filled) && padded.rest >= 512 ==> broken == (
                padded.files,
                padded.damage,
            )
            &&& !crate::provider_bundle::overclaims(filled) && !crate::provider_bundle::overclaims(
                content,
            ) && padded.rest < 512 ==> broken == crate::provider_bundle::torn(read.files, cause)
        }),
{
}

} // verus!
