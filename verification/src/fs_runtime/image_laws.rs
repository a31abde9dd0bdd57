//! How an image is had, how its arrival is told, and what a guest is seeded with.
use crate::fs_runtime::docker::pull::LayerView;
use crate::fs_runtime::driver::PathsView;
use crate::fs_runtime::events::{RuntimeEvent, RuntimeStage, RuntimeState};
use crate::fs_runtime::guest_image::{
    cached_image, check_layers, CachedImage, DownloadProgress, FetchAsk, FetchReply, FetchStage,
    GuestReference,
};
use crate::name::SpecView;
use crate::records::FilesystemProgressStage;
use vstd::prelude::*;

verus! {

/// An image that is there is used; one that is there compressed is only decompressed,
/// and only one that is not there at all is downloaded.
pub proof fn an_image_is_downloaded_only_when_missing(exists_image: bool)
    ensures
        FetchStage::FindingRaw.resumed(FetchReply::Found { exists: exists_image }).1 == (
        if exists_image {
            FetchAsk::Done
        } else {
            FetchAsk::FindCompressed
        }),
        FetchStage::FindingCompressed.resumed(FetchReply::Found { exists: exists_image }).1 == (
        if exists_image {
            FetchAsk::Decompress
        } else {
            FetchAsk::Download
        }),
{
}

/// What was downloaded is decompressed, and what cannot be decompressed is removed and
/// downloaded once more; a failed download, or a second failure, ends the fetching.
pub proof fn a_broken_image_is_fetched_once_more(again: bool, stage: FetchStage, reply: FetchReply)
    ensures
        (FetchStage::Downloading { again }).resumed(FetchReply::Downloaded { ok: true }) == (
            FetchStage::Decompressing { again },
            FetchAsk::Decompress,
        ),
        (FetchStage::Downloading { again }).resumed(FetchReply::Downloaded { ok: false }).1
            == FetchAsk::Failed,
        (FetchStage::Decompressing { again }).resumed(FetchReply::Decompressed { ok: true }).1
            == FetchAsk::Done,
        (FetchStage::Decompressing { again: false }).resumed(
            FetchReply::Decompressed { ok: false },
        ).1 == FetchAsk::RemoveCompressed,
        (FetchStage::Decompressing { again: true }).resumed(
            FetchReply::Decompressed { ok: false },
        ).1 == FetchAsk::Failed,
        FetchStage::Removing.resumed(FetchReply::Removed) == (
            FetchStage::Downloading { again: true },
            FetchAsk::Download,
        ),
        stage.resumed(reply).1 == FetchAsk::Done ==> reply == (FetchReply::Found { exists: true })
            || reply == (FetchReply::Decompressed { ok: true }),
{
}

/// A cached image stands under its tag in the directory of images, and only a
/// reference with a tag can be cached.
pub proof fn an_image_is_cached_under_its_tag(
    reference: &GuestReference,
    images_dir: &str,
    cached: Result<CachedImage, String>,
)
    requires
        call_ensures(cached_image, (reference, images_dir), cached),
    ensures
        cached is Ok <==> reference@.tag is Some,
        cached is Ok ==> cached->Ok_0.tag@ == reference@.tag->0 && cached->Ok_0.raw_path@
            == crate::text::joined_path(images_dir@, reference@.tag->0 + ".raw"@)
            && cached->Ok_0.compressed_path@ == crate::text::joined_path(
            images_dir@,
            reference@.tag->0 + ".raw.zst"@,
        ),
{
}

/// A guest image has exactly one layer, of a size that can be, and is complete exactly
/// when that many bytes came.
pub proof fn an_image_is_one_whole_layer(
    layers: usize,
    size: i64,
    total: Result<u64, String>,
    progress: &DownloadProgress,
    checked: Result<u64, String>,
)
    requires
        call_ensures(check_layers, (layers, size), total),
        call_ensures(DownloadProgress::check_complete, (progress,), checked),
    ensures
        total is Ok <==> layers == 1 && size >= 0,
        total is Ok ==> total->Ok_0 == size,
        checked is Ok <==> progress.completed == progress.total,
        checked is Ok ==> checked->Ok_0 == progress.total,
{
}

proof fn a_layer_is_found_where_it_is(layers: Seq<LayerView>, id: Seq<char>)
    ensures
        match crate::fs_runtime::docker::pull::layer_at(layers, id) {
            Some(i) => 0 <= i < layers.len() && layers[i].id == id,
            None => forall|i: int| 0 <= i < layers.len() ==> (#[trigger] layers[i]).id != id,
        },
    decreases layers.len(),
{
    if layers.len() > 0 {
        let front = layers.drop_last();
        a_layer_is_found_where_it_is(front, id);
        if crate::fs_runtime::docker::pull::layer_at(layers, id) is None {
            assert forall|i: int| 0 <= i < layers.len() implies (#[trigger] layers[i]).id != id by {
                if i < front.len() {
                    assert(front[i] == layers[i]);
                }
            }
        }
    }
}

/// A report changes what is known of its own layer only, adds one that was not known,
/// and says nothing where it names no size or none that can be.
pub proof fn a_report_is_about_its_own_layer(
    layers: Seq<LayerView>,
    id: Seq<char>,
    current: Option<i64>,
    total: Option<i64>,
)
    ensures
        ({
            let after = crate::fs_runtime::docker::pull::layers_after(layers, id, current, total);
            let known = exists|i: int| 0 <= i < layers.len() && (#[trigger] layers[i]).id == id;
            &&& after.len() == layers.len() + (if known {
                0int
            } else {
                1
            })
            &&& forall|i: int|
                0 <= i < layers.len() && (#[trigger] layers[i]).id != id ==> after[i] == layers[i]
            &&& exists|i: int|
                0 <= i < after.len() && (#[trigger] after[i]).id == id && (current is Some
                    && current->0 >= 0 ==> after[i].current == current->0) && (total is Some
                    && total->0 > 0 ==> after[i].total == total->0) && (i < layers.len() && (
                current is None || current->0 < 0) ==> after[i].current == layers[i].current) && (i
                    < layers.len() && (total is None || total->0 <= 0) ==> after[i].total
                    == layers[i].total)
        }),
{
    a_layer_is_found_where_it_is(layers, id);
    let after = crate::fs_runtime::docker::pull::layers_after(layers, id, current, total);
    match crate::fs_runtime::docker::pull::layer_at(layers, id) {
        Some(i) => {
            assert(layers[i].id == id);
            assert(after[i].id == id);
        },
        None => {
            assert(after[layers.len() as int].id == id);
        },
    }
}

/// What has come in is the sum over all layers, as long as it can be counted.
pub proof fn layers_are_added_up(layers: Seq<LayerView>, layer: LayerView)
    requires
        crate::fs_runtime::docker::pull::current_bytes(layers) + layer.current <= u64::MAX,
        crate::fs_runtime::docker::pull::total_bytes(layers) + layer.total <= u64::MAX,
    ensures
        crate::fs_runtime::docker::pull::current_bytes(Seq::empty()) == 0,
        crate::fs_runtime::docker::pull::total_bytes(Seq::empty()) == 0,
        crate::fs_runtime::docker::pull::current_bytes(layers.push(layer))
            == crate::fs_runtime::docker::pull::current_bytes(layers) + layer.current,
        crate::fs_runtime::docker::pull::total_bytes(layers.push(layer))
            == crate::fs_runtime::docker::pull::total_bytes(layers) + layer.total,
{
    let currents = layers.map_values(|layer: LayerView| layer.current);
    let totals = layers.map_values(|layer: LayerView| layer.total);
    let after = layers.push(layer);
    assert(after.map_values(|layer: LayerView| layer.current).drop_last() =~= currents);
    assert(after.map_values(|layer: LayerView| layer.total).drop_last() =~= totals);
    let none = Seq::<LayerView>::empty();
    assert(none.map_values(|layer: LayerView| layer.current).len() == 0);
    assert(none.map_values(|layer: LayerView| layer.total).len() == 0);
}

/// A download is shown as pulling with its bytes, a finished one as being laid out, a
/// stage as itself and a mount as mounting; other facts show no progress.
pub proof fn a_fact_is_shown_as_progress(event: RuntimeEvent)
    ensures
        ({
            let (stage, completed, total) = event.contribution();
            &&& event is Download ==> stage == Some(FilesystemProgressStage::PullingImage)
                && completed == event->Download_completed_bytes && total
                == event->Download_total_bytes
            &&& event is DownloadFinished ==> stage == Some(FilesystemProgressStage::Materializing)
                && total == event->DownloadFinished_completed_bytes && (total is Some
                ==> completed == total->0) && (total is None ==> completed == 0)
            &&& event is MountReady ==> stage == Some(FilesystemProgressStage::Mounting)
            &&& event is Stage ==> stage == Some(
                match event->Stage_stage {
                    RuntimeStage::Probe => FilesystemProgressStage::Queued,
                    RuntimeStage::MaterializeImage => FilesystemProgressStage::Materializing,
                    RuntimeStage::StartProcess => FilesystemProgressStage::Starting,
                    RuntimeStage::StartContainer => FilesystemProgressStage::Starting,
                    RuntimeStage::StartVm => FilesystemProgressStage::Starting,
                    RuntimeStage::WaitForOsMount => FilesystemProgressStage::Mounting,
                    RuntimeStage::WaitForVfsSession =>
                        FilesystemProgressStage::WaitingForNamespace,
                    RuntimeStage::Stop => if event->Stage_state == RuntimeState::Stopped {
                        FilesystemProgressStage::Queued
                    } else {
                        FilesystemProgressStage::Stopping
                    },
                },
            )
            &&& !(event is Download) && !(event is DownloadFinished) && !(event is MountReady) && !(
            event is Stage) ==> stage is None
            &&& !(event is Download) && !(event is DownloadFinished) ==> completed == 0
                && total is None
        }),
{
}

/// A guest is seeded with where to attach, whom it serves, under which instance, with
/// which image, where to tell that it is ready, and which key may enter.
pub proof fn a_guest_is_seeded_with_what_it_needs(
    filesystem: Seq<char>,
    spec: SpecView,
    runtime_instance: Seq<char>,
    ssh_pubkey: Seq<char>,
)
    ensures
        ({
            let keys = crate::fs_runtime::libkrun::seed::seed_keys();
            let values = crate::fs_runtime::libkrun::seed::seed_values(
                filesystem,
                spec,
                runtime_instance,
                ssh_pubkey,
            );
            &&& keys.len() == 6 && values.len() == 6
            &&& values[0] == "vsock:"@ + crate::text::decimal_text(1024)
            &&& keys[1] == "OMNIFS_FILESYSTEM_NAME"@ && values[1] == filesystem
            &&& keys[2] == "OMNIFS_RUNTIME_INSTANCE"@ && values[2] == runtime_instance
            &&& keys[3] == "OMNIFS_LIBKRUN_GUEST_IMAGE"@
            &&& spec.libkrun_guest_image is Some ==> values[3] == spec.libkrun_guest_image->0
            &&& spec.libkrun_guest_image is None ==> values[3].len() == 0
            &&& keys[4] == "OMNIFS_READY_VSOCK_PORT"@ && values[4] == crate::text::decimal_text(1025)
            &&& keys[5] == "OMNIFS_SSH_PUBKEY"@ && values[5] == ssh_pubkey
        }),
{
}

proof fn clean_lines_are_clean(lines: Seq<Seq<char>>)
    ensures
        crate::fs_runtime::libkrun::seed::line_violation(lines) is None <==> {
            &&& forall|i: int|
                0 <= i < lines.len() ==> (#[trigger] lines[i]).contains('=')
                    && crate::fs_runtime::libkrun::seed::seed_keys().contains(
                    crate::fs_runtime::libkrun::seed::key_of(lines[i]),
                )
            &&& forall|i: int, j: int|
                #![trigger lines[i], lines[j]]
                0 <= i < j < lines.len() ==> crate::fs_runtime::libkrun::seed::key_of(lines[i])
                    != crate::fs_runtime::libkrun::seed::key_of(lines[j])
        },
    decreases lines.len(),
{
    if lines.len() > 0 {
        let front = lines.drop_last();
        let last = lines.len() - 1;
        clean_lines_are_clean(front);
        assert(forall|i: int| 0 <= i < front.len() ==> front[i] == #[trigger] lines[i]);
        let whole = crate::fs_runtime::libkrun::seed::line_violation(lines) is None;
        if whole {
            assert forall|i: int, j: int|
                #![trigger lines[i], lines[j]]
                0 <= i < j < lines.len() implies crate::fs_runtime::libkrun::seed::key_of(lines[i])
                != crate::fs_runtime::libkrun::seed::key_of(lines[j]) by {
                assert(front[i] == lines[i]);
                if j < last {
                    assert(front[j] == lines[j]);
                }
            }
        }
        if (forall|i: int|
            0 <= i < lines.len() ==> (#[trigger] lines[i]).contains('=')
                && crate::fs_runtime::libkrun::seed::seed_keys().contains(
                crate::fs_runtime::libkrun::seed::key_of(lines[i]),
            )) && (forall|i: int, j: int|
            #![trigger lines[i], lines[j]]
            0 <= i < j < lines.len() ==> crate::fs_runtime::libkrun::seed::key_of(lines[i])
                != crate::fs_runtime::libkrun::seed::key_of(lines[j])) {
            assert forall|i: int, j: int|
                #![trigger front[i], front[j]]
                0 <= i < j < front.len() implies crate::fs_runtime::libkrun::seed::key_of(front[i])
                != crate::fs_runtime::libkrun::seed::key_of(front[j]) by {
                assert(front[i] == lines[i] && front[j] == lines[j]);
            }
            assert forall|i: int| 0 <= i < front.len() implies (#[trigger] front[i]).contains('=')
                && crate::fs_runtime::libkrun::seed::seed_keys().contains(
                crate::fs_runtime::libkrun::seed::key_of(front[i]),
            ) by {
                assert(front[i] == lines[i]);
            }
            assert(lines[last].contains('='));
            assert forall|i: int| 0 <= i < front.len() implies
                crate::fs_runtime::libkrun::seed::key_of(#[trigger] front[i])
                != crate::fs_runtime::libkrun::seed::key_of(lines[last]) by {
                assert(front[i] == lines[i]);
            }
        }
    }
}

proof fn no_key_is_missing(lines: Seq<Seq<char>>, keys: Seq<Seq<char>>)
    ensures
        crate::fs_runtime::libkrun::seed::missing_key(lines, keys) is None <==> forall|i: int|
            0 <= i < keys.len() ==> crate::fs_runtime::libkrun::seed::has_key(
                lines,
                #[trigger] keys[i],
            ),
    decreases keys.len(),
{
    if keys.len() > 0 {
        let rest = keys.skip(1);
        no_key_is_missing(lines, rest);
        assert(forall|i: int| 0 <= i < rest.len() ==> #[trigger] rest[i] == keys[i + 1]);
        if crate::fs_runtime::libkrun::seed::missing_key(lines, keys) is None {
            assert forall|i: int| 0 <= i < keys.len() implies
                crate::fs_runtime::libkrun::seed::has_key(lines, #[trigger] keys[i]) by {
                if i > 0 {
                    assert(rest[i - 1] == keys[i]);
                }
            }
        }
        if forall|i: int|
            0 <= i < keys.len() ==> crate::fs_runtime::libkrun::seed::has_key(
                lines,
                #[trigger] keys[i],
            ) {
            assert(crate::fs_runtime::libkrun::seed::has_key(lines, keys[0]));
        }
    }
}

/// A seed passes its audit exactly when it is the one file that it is to be, each line
/// gives one of the known keys, none twice, and none of them is missing: nothing else
/// reaches the guest.
pub proof fn a_seed_holds_its_keys_and_nothing_else(files: Seq<Seq<char>>, contents: Seq<char>)
    ensures
        crate::fs_runtime::libkrun::seed::seed_violation(files, contents) is None <==> {
            let lines = crate::fs_runtime::libkrun::seed::lines_of(contents);
            let keys = crate::fs_runtime::libkrun::seed::seed_keys();
            &&& files.len() == 1 && files[0] == "omnifs-seed.conf"@
            &&& forall|i: int|
                0 <= i < lines.len() ==> (#[trigger] lines[i]).contains('=') && keys.contains(
                    crate::fs_runtime::libkrun::seed::key_of(lines[i]),
                )
            &&& forall|i: int, j: int|
                #![trigger lines[i], lines[j]]
                0 <= i < j < lines.len() ==> crate::fs_runtime::libkrun::seed::key_of(lines[i])
                    != crate::fs_runtime::libkrun::seed::key_of(lines[j])
            &&& forall|i: int|
                0 <= i < keys.len() ==> crate::fs_runtime::libkrun::seed::has_key(
                    lines,
                    #[trigger] keys[i],
                )
        },
{
    let lines = crate::fs_runtime::libkrun::seed::lines_of(contents);
    clean_lines_are_clean(lines);
    no_key_is_missing(lines, crate::fs_runtime::libkrun::seed::seed_keys());
}

/// Everything of a filesystem stands under its own name: its state in the directory of
/// states, its guest in its state, its log among the logs.
pub proof fn a_filesystem_stands_under_its_name(paths: PathsView, name: Seq<char>)
    ensures
        ({
            let own = crate::fs_runtime::driver::filesystem_paths(paths, name);
            &&& own.state_dir == crate::text::joined_path(paths.state_root, name)
            &&& own.libkrun_root == crate::text::joined_path(own.state_dir, "libkrun"@)
            &&& own.host_log == crate::text::joined_path(paths.host_log_root, name + ".log"@)
            &&& own.profile_root == paths.profile_root
            &&& own.guest_image_cache == paths.guest_image_cache
            &&& own.executable == paths.executable
        }),
{
}

} // verus!
