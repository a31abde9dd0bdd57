//! The progress of pulling an image layer by layer.
use crate::fs_runtime::events::{Artifact, FactView, RuntimeEvent};
use crate::text::{chars_of, concat3, same_text, slice, split_once};
use vstd::prelude::*;

verus! {

/// How far one layer is.
#[derive(Debug, PartialEq, Eq)]
pub struct LayerProgress {
    pub id: String,
    pub current: u64,
    pub total: u64,
}

/// [`LayerProgress`] by what it stands for.
pub struct LayerView {
    pub id: Seq<char>,
    pub current: u64,
    pub total: u64,
}

impl View for LayerProgress {
    type V = LayerView;

    open spec fn view(&self) -> LayerView {
        LayerView { id: self.id@, current: self.current, total: self.total }
    }
}

/// How far an image is.
#[derive(Debug, PartialEq, Eq)]
pub struct PullProgress {
    pub layers: Vec<LayerProgress>,
    pub source: String,
}

/// Where a layer is kept.
pub open spec fn layer_at(layers: Seq<LayerView>, id: Seq<char>) -> Option<int>
    decreases layers.len(),
{
    if layers.len() == 0 {
        None
    } else if layers.last().id == id {
        Some(layers.len() - 1)
    } else {
        layer_at(layers.drop_last(), id)
    }
}

/// A layer after a report: a total that is not positive says nothing, nor does
/// a count below zero.
pub open spec fn layer_after(layer: LayerView, current: Option<i64>, total: Option<i64>) -> LayerView {
    LayerView {
        current: match current {
            Some(current) => if current >= 0 {
                current as u64
            } else {
                layer.current
            },
            None => layer.current,
        },
        total: match total {
            Some(total) => if total > 0 {
                total as u64
            } else {
                layer.total
            },
            None => layer.total,
        },
        ..layer
    }
}

/// All layers after a report.
pub open spec fn layers_after(
    layers: Seq<LayerView>,
    id: Seq<char>,
    current: Option<i64>,
    total: Option<i64>,
) -> Seq<LayerView> {
    match layer_at(layers, id) {
        Some(i) => layers.update(i, layer_after(layers[i], current, total)),
        None => layers.push(layer_after(LayerView { id, current: 0, total: 0 }, current, total)),
    }
}

/// A sum that stops at the largest number.
pub open spec fn capped_sum(values: Seq<u64>) -> u64
    decreases values.len(),
{
    if values.len() == 0 {
        0
    } else {
        let sum = capped_sum(values.drop_last()) + values.last();
        if sum > u64::MAX {
            u64::MAX
        } else {
            sum as u64
        }
    }
}

/// The bytes of all layers that are there.
pub open spec fn current_bytes(layers: Seq<LayerView>) -> u64 {
    capped_sum(layers.map_values(|layer: LayerView| layer.current))
}

/// The bytes of all layers whose size is known.
pub open spec fn total_bytes(layers: Seq<LayerView>) -> u64 {
    capped_sum(layers.map_values(|layer: LayerView| layer.total))
}

proof fn layer_is_found(layers: Seq<LayerView>, id: Seq<char>)
    ensures
        layer_at(layers, id) matches Some(i) ==> 0 <= i < layers.len() && layers[i].id == id,
    decreases layers.len(),
{
    if layers.len() > 0 {
        layer_is_found(layers.drop_last(), id);
    }
}

fn add_capped(a: u64, b: u64) -> (sum: u64)
    ensures
        sum == (if a + b > u64::MAX {
            u64::MAX
        } else {
            (a + b) as u64
        }),
{
    if a > u64::MAX - b {
        u64::MAX
    } else {
        a + b
    }
}

impl PullProgress {
    /// A pull of which nothing is known yet.
    pub fn new(image: &str) -> (progress: Self)
        ensures
            progress.layers@.len() == 0,
            progress.source@ == crate::text::head(image@, '/'),
    {
        let source = match split_once(image, '/') {
            Some((source, _)) => source,
            None => {
                proof {
                    crate::text::first_at_is_first(image@, '/', image@.len() as int);
                    assert(image@.take(image@.len() as int) =~= image@);
                }
                image.to_owned()
            },
        };
        PullProgress { layers: Vec::new(), source }
    }

    fn find(&self, id: &str) -> (found: Option<usize>)
        ensures
            match found {
                Some(i) => i < self.layers@.len() && layer_at(
                    crate::list::views(self.layers@),
                    id@,
                ) == Some(i as int),
                None => layer_at(crate::list::views(self.layers@), id@) is None,
            },
    {
        let ghost all = crate::list::views(self.layers@);
        let mut found: Option<usize> = None;
        let mut i: usize = 0;
        while i < self.layers.len()
            invariant
                i <= self.layers@.len(),
                all == crate::list::views(self.layers@),
                match found {
                    Some(at) => at < i && layer_at(all.take(i as int), id@) == Some(at as int),
                    None => layer_at(all.take(i as int), id@) is None,
                },
            decreases self.layers@.len() - i,
        {
            assert(all.take(i + 1).drop_last() =~= all.take(i as int));
            assert(all.take(i + 1).last() == self.layers@[i as int]@);
            if same_text(self.layers[i].id.as_str(), id) {
                found = Some(i);
            }
            i = i + 1;
        }
        assert(all.take(i as int) =~= all);
        found
    }

    /// Takes a report on one layer and says how far the whole image is. The
    /// total is left out while no layer has named its size.
    pub fn observe(&mut self, id: &str, current: Option<i64>, total: Option<i64>) -> (event:
        RuntimeEvent)
        ensures
            final(self).source@ == old(self).source@,
            crate::list::views(final(self).layers@) == layers_after(
                crate::list::views(old(self).layers@),
                id@,
                current,
                total,
            ),
            event@ == ({
                let layers = crate::list::views(final(self).layers@);
                FactView::Download {
                    artifact: Artifact::FilesystemImage,
                    completed_bytes: current_bytes(layers),
                    total_bytes: if total_bytes(layers) > 0 {
                        Some(total_bytes(layers))
                    } else {
                        None
                    },
                    source: final(self).source@,
                }
            }),
    {
        let ghost before = crate::list::views(self.layers@);
        proof {
            layer_is_found(before, id@);
        }
        let i: usize = match self.find(id) {
            Some(i) => i,
            None => {
                self.layers.push(LayerProgress { id: id.to_owned(), current: 0, total: 0 });
                self.layers.len() - 1
            },
        };
        if let Some(total) = total {
            if total > 0 {
                self.layers[i].total = total as u64;
            }
        }
        if let Some(current) = current {
            if current >= 0 {
                self.layers[i].current = current as u64;
            }
        }
        assert(crate::list::views(self.layers@) =~= layers_after(before, id@, current, total));
        let mut completed: u64 = 0;
        let mut known: u64 = 0;
        let mut k: usize = 0;
        let ghost layers = crate::list::views(self.layers@);
        let ghost currents = layers.map_values(|layer: LayerView| layer.current);
        let ghost totals = layers.map_values(|layer: LayerView| layer.total);
        while k < self.layers.len()
            invariant
                k <= self.layers@.len(),
                layers == crate::list::views(self.layers@),
                currents == layers.map_values(|layer: LayerView| layer.current),
                totals == layers.map_values(|layer: LayerView| layer.total),
                completed == capped_sum(currents.take(k as int)),
                known == capped_sum(totals.take(k as int)),
            decreases self.layers@.len() - k,
        {
            assert(currents.take(k + 1).drop_last() =~= currents.take(k as int));
            assert(totals.take(k + 1).drop_last() =~= totals.take(k as int));
            assert(layers[k as int] == self.layers@[k as int]@);
            completed = add_capped(completed, self.layers[k].current);
            known = add_capped(known, self.layers[k].total);
            k = k + 1;
        }
        assert(currents.take(k as int) =~= currents);
        assert(totals.take(k as int) =~= totals);
        RuntimeEvent::Download {
            artifact: Artifact::FilesystemImage,
            completed_bytes: completed,
            total_bytes: if known > 0 {
                Some(known)
            } else {
                None
            },
            source: self.source.clone(),
        }
    }
}

/// Where a character last occurs in a text.
pub open spec fn is_last_at(text: Seq<char>, c: char, i: int) -> bool {
    0 <= i < text.len() && text[i] == c && forall|j: int| i < j < text.len() ==> #[trigger] text[j]
        != c
}

/// Splits an image reference into the image and its tag, at the last colon.
pub fn split_tag(image: &str) -> (parts: Result<(String, String), String>)
    ensures
        match parts {
            Ok((from_image, tag)) => exists|i: int| #[trigger]
                is_last_at(image@, ':', i) && from_image@ == image@.take(i) && tag@ == image@.skip(
                    i + 1,
                ),
            Err(text) => !image@.contains(':') && text@ == "image `"@ + image@ + "` has no tag"@,
        },
{
    let chars = chars_of(image);
    let mut i: usize = chars.len();
    while i > 0
        invariant
            i <= chars@.len(),
            chars@ == image@,
            forall|j: int| i <= j < image@.len() ==> #[trigger] image@[j] != ':',
        decreases i,
    {
        i = i - 1;
        if chars[i] == ':' {
            let from_image = slice(&chars, 0, i);
            let tag = slice(&chars, i + 1, chars.len());
            assert(from_image@ =~= image@.take(i as int));
            assert(tag@ =~= image@.skip(i + 1));
            assert(is_last_at(image@, ':', i as int));
            return Ok((from_image, tag));
        }
    }
    Err(concat3("image `", image, "` has no tag"))
}

/// The last occurrence of a character is unique.
pub proof fn a_tag_is_split_in_one_way(text: Seq<char>, c: char, i: int, j: int)
    requires
        is_last_at(text, c, i),
        is_last_at(text, c, j),
    ensures
        i == j,
{
}

/// What is told once a pull has ended.
pub fn pull_ended(image: &str, succeeded: bool) -> (event: RuntimeEvent)
    ensures
        event@ == (if succeeded {
            FactView::DownloadFinished {
                artifact: Artifact::FilesystemImage,
                reference: image@,
                completed_bytes: None,
            }
        } else {
            FactView::DownloadFailed {
                artifact: Artifact::FilesystemImage,
                reference: Some(image@),
            }
        }),
{
    if succeeded {
        RuntimeEvent::DownloadFinished {
            artifact: Artifact::FilesystemImage,
            reference: image.to_owned(),
            completed_bytes: None,
        }
    } else {
        RuntimeEvent::DownloadFailed {
            artifact: Artifact::FilesystemImage,
            reference: Some(image.to_owned()),
        }
    }
}

} // verus!
