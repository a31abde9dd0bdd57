//! The guest image of a release: its reference, its place in the cache, and
//! how it gets there.
use crate::fs_runtime::events::{Artifact, FactView, RuntimeEvent};
use crate::fs_runtime::image::ImageRef;
use crate::text::{concat, concat3, decimal, join_path};
use vstd::prelude::*;

verus! {

/// An image reference taken apart.
#[derive(Debug, PartialEq, Eq)]
pub struct GuestReference {
    pub registry: String,
    pub repository: String,
    pub tag: Option<String>,
}

/// [`GuestReference`] by what it spells.
pub struct GuestReferenceView {
    pub registry: Seq<char>,
    pub repository: Seq<char>,
    pub tag: Option<Seq<char>>,
}

impl View for GuestReference {
    type V = GuestReferenceView;

    open spec fn view(&self) -> GuestReferenceView {
        GuestReferenceView {
            registry: self.registry@,
            repository: self.repository@,
            tag: crate::text::opt_text(self.tag),
        }
    }
}

/// The registry, repository and tag of an OCI image reference, or why it is
/// none.
pub uninterp spec fn oci_reference(text: Seq<char>) -> Result<
    (Seq<char>, Seq<char>, Option<Seq<char>>),
    Seq<char>,
>;

/// `oci_client::Reference` parses an image reference, and its `registry`,
/// `repository` and `tag` give its parts. All of this depends on the text
/// alone. Which texts are references is left unsaid.
#[verifier::external_body]
fn parse_reference(text: &str) -> (parts: Result<(String, String, Option<String>), String>)
    ensures
        match parts {
            Ok((registry, repository, tag)) => oci_reference(text@) == Ok::<
                (Seq<char>, Seq<char>, Option<Seq<char>>),
                Seq<char>,
            >((registry@, repository@, crate::text::opt_text(tag))),
            Err(error) => oci_reference(text@) == Err::<
                (Seq<char>, Seq<char>, Option<Seq<char>>),
                Seq<char>,
            >(error@),
        },
{
    match text.parse::<oci_client::Reference>() {
        Ok(parsed) => Ok((
            parsed.registry().to_owned(),
            parsed.repository().to_owned(),
            parsed.tag().map(|tag| tag.to_owned()),
        )),
        Err(error) => Err(error.to_string()),
    }
}

impl GuestReference {
    /// Takes an image reference apart.
    pub fn parse(image: &ImageRef) -> (reference: Result<Self, String>)
        ensures
            match (reference, oci_reference(image@)) {
                (Ok(reference), Ok((registry, repository, tag))) => reference@ == (
                GuestReferenceView { registry, repository, tag }),
                (Err(text), Err(error)) => text@ == "parse guest image reference `"@ + image@
                    + "`: "@ + error,
                _ => false,
            },
    {
        match parse_reference(image.as_str()) {
            Ok((registry, repository, tag)) => Ok(GuestReference { registry, repository, tag }),
            Err(error) => {
                let intro = concat3("parse guest image reference `", image.as_str(), "`: ");
                Err(concat(intro.as_str(), error.as_str()))
            },
        }
    }
}

/// Where a guest image is kept.
#[derive(Debug, PartialEq, Eq)]
pub struct CachedImage {
    pub tag: String,
    pub raw_path: String,
    pub compressed_path: String,
}

/// Finds the place of a guest image in the cache: it is kept by its tag.
pub fn cached_image(reference: &GuestReference, images_dir: &str) -> (cached: Result<
    CachedImage,
    String,
>)
    ensures
        match (cached, reference@.tag) {
            (Ok(cached), Some(tag)) => cached.tag@ == tag && cached.raw_path@
                == crate::text::joined_path(images_dir@, tag + ".raw"@) && cached.compressed_path@
                == crate::text::joined_path(images_dir@, tag + ".raw.zst"@),
            (Err(text), None) => text@ == "guest image reference must use a tag"@,
            _ => false,
        },
{
    match &reference.tag {
        None => Err("guest image reference must use a tag".to_owned()),
        Some(tag) => {
            let raw = concat(tag.as_str(), ".raw");
            let compressed = concat(tag.as_str(), ".raw.zst");
            Ok(
                CachedImage {
                    tag: tag.clone(),
                    raw_path: join_path(images_dir, raw.as_str()),
                    compressed_path: join_path(images_dir, compressed.as_str()),
                },
            )
        },
    }
}

/// The name under which a file is written until it is complete.
pub fn part_path(path: &str) -> (part: String)
    ensures
        part@ == path@ + ".part"@,
{
    concat(path, ".part")
}

/// What is wrong with the layers of a manifest, if anything is: there is
/// exactly one, of a size that is not negative.
pub open spec fn layer_error(layers: nat, size: i64) -> Option<Seq<char>> {
    if layers != 1 {
        Some(
            "guest image manifest has "@ + crate::text::decimal_text(layers)
                + " layers; expected exactly one layer"@,
        )
    } else if size < 0 {
        Some("guest image layer size is negative"@)
    } else {
        None
    }
}

/// Checks the layers of a manifest, given the size of the first, and gives the
/// size.
pub fn check_layers(layers: usize, size: i64) -> (total: Result<u64, String>)
    ensures
        match total {
            Ok(total) => layer_error(layers as nat, size) is None && total == size,
            Err(text) => layer_error(layers as nat, size) == Some(text@),
        },
{
    if layers != 1 {
        return Err(
            concat3(
                "guest image manifest has ",
                decimal(layers as u64).as_str(),
                " layers; expected exactly one layer",
            ),
        );
    }
    if size < 0 {
        return Err("guest image layer size is negative".to_owned());
    }
    Ok(size as u64)
}

/// A download in progress.
#[derive(Debug, PartialEq, Eq)]
pub struct DownloadProgress {
    pub completed: u64,
    pub total: u64,
    pub source: String,
}

impl DownloadProgress {
    /// Some bytes were written.
    pub fn wrote(&mut self, written: u64) -> (event: RuntimeEvent)
        requires
            old(self).completed + written <= u64::MAX,
        ensures
            final(self).completed == old(self).completed + written,
            final(self).total == old(self).total,
            final(self).source == old(self).source,
            event@ == (FactView::Download {
                artifact: Artifact::GuestImage,
                completed_bytes: final(self).completed,
                total_bytes: Some(final(self).total),
                source: final(self).source@,
            }),
    {
        self.completed = self.completed + written;
        RuntimeEvent::Download {
            artifact: Artifact::GuestImage,
            completed_bytes: self.completed,
            total_bytes: Some(self.total),
            source: self.source.clone(),
        }
    }

    /// Checks that exactly the promised bytes came.
    pub fn check_complete(&self) -> (checked: Result<u64, String>)
        ensures
            match checked {
                Ok(completed) => completed == self.total && self.completed == self.total,
                Err(text) => self.completed != self.total && text@
                    == "guest image layer size mismatch: expected "@ + crate::text::decimal_text(
                    self.total as nat,
                ) + " bytes, got "@ + crate::text::decimal_text(self.completed as nat),
            },
    {
        if self.completed == self.total {
            return Ok(self.completed);
        }
        let text = concat3(
            "guest image layer size mismatch: expected ",
            decimal(self.total).as_str(),
            " bytes, got ",
        );
        Err(concat(text.as_str(), decimal(self.completed).as_str()))
    }
}

/// What is told once a download has ended. Only a verified one names its
/// bytes.
pub fn download_ended(tag: &str, completed: Option<u64>) -> (event: RuntimeEvent)
    ensures
        event@ == (match completed {
            Some(bytes) => FactView::DownloadFinished {
                artifact: Artifact::GuestImage,
                reference: tag@,
                completed_bytes: Some(bytes),
            },
            None => FactView::DownloadFailed { artifact: Artifact::GuestImage, reference: None },
        }),
{
    match completed {
        Some(bytes) => RuntimeEvent::DownloadFinished {
            artifact: Artifact::GuestImage,
            reference: tag.to_owned(),
            completed_bytes: Some(bytes),
        },
        None => RuntimeEvent::DownloadFailed { artifact: Artifact::GuestImage, reference: None },
    }
}

/// Where the fetching of a guest image stands.
#[derive(Clone, Copy, Debug, PartialEq, Eq, Structural)]
pub enum FetchStage {
    FindingRaw,
    FindingCompressed,
    Downloading { again: bool },
    Decompressing { again: bool },
    Removing,
    Ended,
}

/// What fetching a guest image asks to be done.
#[derive(Clone, Copy, Debug, PartialEq, Eq, Structural)]
pub enum FetchAsk {
    FindRaw,
    FindCompressed,
    Download,
    Decompress,
    /// Remove the compressed image, after telling of the retry.
    RemoveCompressed,
    /// The raw image is in place.
    Done,
    /// It failed with the error of the last reply.
    Failed,
    Stray,
}

/// What was done while fetching a guest image.
#[derive(Clone, Copy, Debug, PartialEq, Eq, Structural)]
pub enum FetchReply {
    Found { exists: bool },
    Downloaded { ok: bool },
    Decompressed { ok: bool },
    Removed,
}

impl FetchStage {
    /// Fetching after a reply. A cached image that cannot be decompressed is
    /// downloaded once more.
    pub open spec fn resumed(self, reply: FetchReply) -> (FetchStage, FetchAsk) {
        match (self, reply) {
            (FetchStage::FindingRaw, FetchReply::Found { exists }) => if exists {
                (FetchStage::Ended, FetchAsk::Done)
            } else {
                (FetchStage::FindingCompressed, FetchAsk::FindCompressed)
            },
            (FetchStage::FindingCompressed, FetchReply::Found { exists }) => if exists {
                (FetchStage::Decompressing { again: false }, FetchAsk::Decompress)
            } else {
                (FetchStage::Downloading { again: false }, FetchAsk::Download)
            },
            (FetchStage::Downloading { again }, FetchReply::Downloaded { ok }) => if ok {
                (FetchStage::Decompressing { again }, FetchAsk::Decompress)
            } else {
                (FetchStage::Ended, FetchAsk::Failed)
            },
            (FetchStage::Decompressing { again }, FetchReply::Decompressed { ok }) => if ok {
                (FetchStage::Ended, FetchAsk::Done)
            } else if again {
                (FetchStage::Ended, FetchAsk::Failed)
            } else {
                (FetchStage::Removing, FetchAsk::RemoveCompressed)
            },
            (FetchStage::Removing, FetchReply::Removed) => (
                FetchStage::Downloading { again: true },
                FetchAsk::Download,
            ),
            _ => (self, FetchAsk::Stray),
        }
    }

    /// Begins to fetch a guest image.
    pub fn begin() -> (begun: (Self, FetchAsk))
        ensures
            begun == (FetchStage::FindingRaw, FetchAsk::FindRaw),
    {
        (FetchStage::FindingRaw, FetchAsk::FindRaw)
    }

    /// Takes a reply and says what to do next.
    pub fn resume(self, reply: FetchReply) -> (next: (Self, FetchAsk))
        ensures
            next == self.resumed(reply),
    {
        match (self, reply) {
            (FetchStage::FindingRaw, FetchReply::Found { exists }) => if exists {
                (FetchStage::Ended, FetchAsk::Done)
            } else {
                (FetchStage::FindingCompressed, FetchAsk::FindCompressed)
            },
            (FetchStage::FindingCompressed, FetchReply::Found { exists }) => if exists {
                (FetchStage::Decompressing { again: false }, FetchAsk::Decompress)
            } else {
                (FetchStage::Downloading { again: false }, FetchAsk::Download)
            },
            (FetchStage::Downloading { again }, FetchReply::Downloaded { ok }) => if ok {
                (FetchStage::Decompressing { again }, FetchAsk::Decompress)
            } else {
                (FetchStage::Ended, FetchAsk::Failed)
            },
            (FetchStage::Decompressing { again }, FetchReply::Decompressed { ok }) => if ok {
                (FetchStage::Ended, FetchAsk::Done)
            } else if again {
                (FetchStage::Ended, FetchAsk::Failed)
            } else {
                (FetchStage::Removing, FetchAsk::RemoveCompressed)
            },
            (FetchStage::Removing, FetchReply::Removed) => (
                FetchStage::Downloading { again: true },
                FetchAsk::Download,
            ),
            _ => (self, FetchAsk::Stray),
        }
    }

    /// How many more downloads there can be.
    pub open spec fn downloads_left(self) -> int {
        match self {
            FetchStage::FindingRaw | FetchStage::FindingCompressed => 2,
            FetchStage::Downloading { again: false } => 1,
            FetchStage::Decompressing { again: false } => 1,
            FetchStage::Removing => 1,
            _ => 0,
        }
    }
}

/// A guest image is downloaded at most twice.
pub proof fn an_image_is_downloaded_at_most_twice(stage: FetchStage, reply: FetchReply)
    ensures
        stage.resumed(reply).0.downloads_left() <= stage.downloads_left(),
        stage.resumed(reply).1 == FetchAsk::Download ==> stage.resumed(reply).0.downloads_left()
            < stage.downloads_left(),
        FetchStage::FindingRaw.downloads_left() == 2,
{
}

/// What is told before a cached image is downloaded again.
pub fn retry_event(cached: &CachedImage, reason: &str) -> (event: RuntimeEvent)
    ensures
        event@ == (FactView::ImageRetry {
            artifact: Artifact::GuestImage,
            path: cached.compressed_path@,
            reason: reason@,
        }),
{
    RuntimeEvent::ImageRetry {
        artifact: Artifact::GuestImage,
        path: cached.compressed_path.clone(),
        reason: reason.to_owned(),
    }
}

} // verus!
