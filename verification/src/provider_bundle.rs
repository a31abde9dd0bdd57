//! The providers that come with the daemon: a compressed archive with one
//! artifact per file.
use crate::name::ProviderId;
use crate::order::{is_text_before, sort, Ranked};
use crate::text::{concat, concat3, same_bytes, same_text, utf8_text};
use vstd::prelude::*;

pub mod bundle_laws;

verus! {

/// What ended the reading of a bundle before its archive did, with the cause.
#[derive(Debug, PartialEq, Eq)]
pub enum Damage {
    /// No decoder could be had.
    Decoder(String),
    /// The archive cannot be walked at all.
    Archive(String),
    /// The next file cannot be reached.
    Header(String),
    /// The content of the file at this path cannot be read.
    Content(Vec<u8>, String),
}

/// [`Damage`] by what it holds.
pub enum DamageView {
    Decoder(Seq<char>),
    Archive(Seq<char>),
    Header(Seq<char>),
    Content(Seq<u8>, Seq<char>),
}

impl View for Damage {
    type V = DamageView;

    open spec fn view(&self) -> DamageView {
        match self {
            Damage::Decoder(cause) => DamageView::Decoder(cause@),
            Damage::Archive(cause) => DamageView::Archive(cause@),
            Damage::Header(cause) => DamageView::Header(cause@),
            Damage::Content(path, cause) => DamageView::Content(path@, cause@),
        }
    }
}

/// The damage that ended a reading, if it did not end well.
pub open spec fn ended_by(outcome: Result<(), Damage>) -> Option<DamageView> {
    match outcome {
        Ok(_) => None,
        Err(damage) => Some(damage@),
    }
}

/// What came of decompressing a bundle: the content up to its end, or up to where
/// it is damaged, with the cause. Where no decoder could be had, why.
pub open spec fn decoded_view(decoded: Result<(Vec<u8>, Option<String>), String>) -> Result<
    (Seq<u8>, Option<Seq<char>>),
    Seq<char>,
> {
    match decoded {
        Ok(content) => Ok((content.0@, crate::text::opt_text(content.1))),
        Err(cause) => Err(cause@),
    }
}

/// What some bytes decompress to, as [`decoded_view`] has it.
pub uninterp spec fn zstd_content(bytes: Seq<u8>) -> Result<
    (Seq<u8>, Option<Seq<char>>),
    Seq<char>,
>;

/// `zstd::stream::read::Decoder` decompresses zstd frames, read here in pieces of
/// one archive block, up to the end or to the first error. What comes out
/// depends on the bytes alone; which bytes these are is left unsaid.
#[verifier::external_body]
fn unzip(bytes: &[u8]) -> (decoded: Result<(Vec<u8>, Option<String>), String>)
    ensures
        decoded_view(decoded) == zstd_content(bytes@),
{
    let decoder = zstd::stream::read::Decoder::new(bytes).map_err(|error| error.to_string())?;
    let mut content = Vec::new();
    for byte in std::io::Read::bytes(std::io::BufReader::with_capacity(512, decoder)) {
        match byte {
            Ok(byte) => content.push(byte),
            Err(error) => return Ok((content, Some(error.to_string()))),
        }
    }
    Ok((content, None))
}

/// One file of an archive: its path, what could be read of it, and how long it
/// is said to be.
#[derive(Debug, PartialEq, Eq)]
pub struct ArchivedFile {
    pub path: Vec<u8>,
    pub content: Vec<u8>,
    pub size: u64,
}

/// [`ArchivedFile`] by what it holds.
pub struct ArchivedView {
    pub path: Seq<u8>,
    pub content: Seq<u8>,
    pub size: u64,
}

impl View for ArchivedFile {
    type V = ArchivedView;

    open spec fn view(&self) -> ArchivedView {
        ArchivedView { path: self.path@, content: self.content@, size: self.size }
    }
}

/// A walk through an archive: its files, how it ended, and how many bytes were
/// left unread behind it.
#[derive(Debug, PartialEq, Eq)]
pub struct Walk {
    pub files: Vec<ArchivedFile>,
    pub outcome: Result<(), Damage>,
    pub rest: usize,
}

/// [`Walk`] by what it holds.
pub struct WalkView {
    pub files: Seq<ArchivedView>,
    pub damage: Option<DamageView>,
    pub rest: usize,
}

impl View for Walk {
    type V = WalkView;

    open spec fn view(&self) -> WalkView {
        WalkView {
            files: crate::list::views(self.files@),
            damage: ended_by(self.outcome),
            rest: self.rest,
        }
    }
}

/// Whether the block at a place is the header of a sparse file in GNU's format.
pub open spec fn is_sparse_at(bytes: Seq<u8>, at: int) -> bool {
    &&& 0 <= at && at + 512 <= bytes.len()
    &&& bytes[at + 156] == 83
    &&& bytes[at + 257] == 117 && bytes[at + 258] == 115 && bytes[at + 259] == 116
    &&& bytes[at + 260] == 97 && bytes[at + 261] == 114 && bytes[at + 262] == 32
    &&& bytes[at + 263] == 32 && bytes[at + 264] == 0
}

/// Whether a header claims that its file takes up, or is, 2^56 bytes or more. Only
/// a number in base 256 can be that large.
pub open spec fn is_endless_at(bytes: Seq<u8>, at: int) -> bool {
    ||| bytes[at + 124] >= 128 && bytes[at + 128] != 0
    ||| bytes[at + 483] >= 128 && bytes[at + 487] != 0
}

/// Whether a text of nineteen digits stands at a place.
pub open spec fn is_long_number_at(bytes: Seq<u8>, at: int) -> bool {
    &&& 0 <= at && at + 19 <= bytes.len()
    &&& forall|i: int| at <= i < at + 19 ==> 48 <= #[trigger] bytes[i] <= 57
}

/// Whether a record at a place gives the next file a size of nineteen digits or
/// more.
pub open spec fn is_long_size_at(bytes: Seq<u8>, at: int) -> bool {
    &&& 0 <= at && at + 7 <= bytes.len()
    &&& bytes[at] == 32 && bytes[at + 1] == 115 && bytes[at + 2] == 105
    &&& bytes[at + 3] == 122 && bytes[at + 4] == 101 && bytes[at + 5] == 61
    &&& is_long_number_at(bytes, at + 6) || (bytes[at + 6] == 43 && is_long_number_at(
        bytes,
        at + 7,
    ))
}

/// An archive block that holds nothing but one byte.
pub open spec fn filled_block(byte: u8) -> Seq<u8> {
    Seq::new(512, |i: int| byte)
}

/// Whether a walk comes to the block at a place as a header: it makes a
/// difference how it ends whether the archive ends there with an empty block, or
/// with one that is no header at all.
pub open spec fn is_header_at(bytes: Seq<u8>, at: int) -> bool {
    tar_content(bytes.take(at) + filled_block(0)).damage != tar_content(
        bytes.take(at) + filled_block(255),
    ).damage
}

/// Whether records before a place are about the file whose header is there: an
/// archive may not end with them.
pub open spec fn is_described_at(bytes: Seq<u8>, at: int) -> bool {
    tar_content(bytes.take(at) + filled_block(0)).damage is Some
}

/// Whether a walk comes to the header of a sparse file at a place that claims
/// more than any archive holds, by itself or by a record before it.
pub open spec fn overclaims_at(bytes: Seq<u8>, at: int) -> bool {
    &&& at % 512 == 0
    &&& is_sparse_at(bytes, at)
    &&& is_header_at(bytes, at)
    &&& is_endless_at(bytes, at) || (is_described_at(bytes, at) && exists|i: int|
        i < at && #[trigger] is_long_size_at(bytes, i))
}

/// Whether a walk comes to the header of a sparse file that claims more than any
/// archive holds.
pub open spec fn overclaims(bytes: Seq<u8>) -> bool {
    exists|at: int| #[trigger] overclaims_at(bytes, at)
}

/// Whether the first such header is at a place.
pub open spec fn is_first_overclaim(bytes: Seq<u8>, at: int) -> bool {
    overclaims_at(bytes, at) && forall|k: int| k < at ==> !#[trigger] overclaims_at(bytes, k)
}

/// What a walk through an archive gives.
pub uninterp spec fn tar_content(bytes: Seq<u8>) -> WalkView;

/// `tar::Archive::entries` walks the files of a tar archive, `path_bytes` gives
/// the path of one, `size` its length, and reading it gives its content. What is
/// read, and how much is left unread behind it, depends on the bytes alone; which
/// files these are is left unsaid. At the header of a sparse file that claims so
/// much that its end is past the last position there is, the walk loses its
/// place or panics.
#[verifier::external_body]
fn untar(unread: &mut &[u8], files: &mut Vec<ArchivedFile>) -> (outcome: Result<(), Damage>)
    requires
        !overclaims(old(unread)@),
    ensures
        crate::list::views(final(files)@) == crate::list::views(old(files)@) + tar_content(
            old(unread)@,
        ).files,
        final(unread)@.len() == tar_content(old(unread)@).rest,
        ended_by(outcome) == tar_content(old(unread)@).damage,
{
    let mut archive = tar::Archive::new(unread);
    for entry in archive.entries().map_err(|error| Damage::Archive(error.to_string()))? {
        let mut entry = entry.map_err(|error| Damage::Header(error.to_string()))?;
        let (path, size) = (entry.path_bytes().into_owned(), entry.size());
        let mut content = Vec::new();
        match std::io::Read::read_to_end(&mut entry, &mut content) {
            Ok(_) => files.push(ArchivedFile { path, content, size }),
            Err(error) => return Err(Damage::Content(path, error.to_string())),
        }
    }
    Ok(())
}

/// A walk that ends before it comes to any such header comes to none.
proof fn a_beginning_overclaims_nothing(bytes: Seq<u8>, at: int, byte: u8)
    requires
        0 <= at <= bytes.len(),
        at % 512 == 0,
        byte == 0 || byte == 255,
        forall|k: int| k < at ==> !#[trigger] overclaims_at(bytes, k),
    ensures
        !overclaims(bytes.take(at) + filled_block(byte)),
{
    let part = bytes.take(at) + filled_block(byte);
    assert forall|k: int| !#[trigger] overclaims_at(part, k) by {
        if overclaims_at(part, k) {
            assert(k <= at);
            if k == at {
                assert(part[k + 156] == byte);
            }
            assert(k + 512 <= at);
            assert(is_sparse_at(bytes, k));
            assert(part.take(k) =~= bytes.take(k));
            if !is_endless_at(part, k) {
                let i = choose|i: int| i < k && #[trigger] is_long_size_at(part, i);
                assert forall|j: int| i <= j < i + 26 && j < part.len() implies #[trigger] bytes[j]
                    == part[j] by {
                }
                assert(is_long_size_at(bytes, i));
            }
            assert(overclaims_at(bytes, k));
        }
    }
}

/// The beginning of an archive, with a block behind it that holds nothing but one
/// byte.
fn with_block(bytes: &[u8], at: usize, byte: u8) -> (part: Vec<u8>)
    requires
        at <= bytes@.len(),
    ensures
        part@ == bytes@.take(at as int) + filled_block(byte),
{
    let mut part: Vec<u8> = Vec::new();
    let mut i: usize = 0;
    while i < at
        invariant
            i <= at <= bytes@.len(),
            part@ == bytes@.take(i as int),
        decreases at - i,
    {
        part.push(bytes[i]);
        assert(part@ =~= bytes@.take(i + 1));
        i = i + 1;
    }
    let mut i: usize = 0;
    assert(part@ =~= bytes@.take(at as int) + filled_block(byte).take(0));
    while i < 512
        invariant
            i <= 512,
            at <= bytes@.len(),
            part@ == bytes@.take(at as int) + filled_block(byte).take(i as int),
        decreases 512 - i,
    {
        part.push(byte);
        assert(part@ =~= bytes@.take(at as int) + filled_block(byte).take(i + 1));
        i = i + 1;
    }
    assert(filled_block(byte).take(512) =~= filled_block(byte));
    part
}

fn same_damage(a: &Result<(), Damage>, b: &Result<(), Damage>) -> (same: bool)
    ensures
        same == (ended_by(*a) == ended_by(*b)),
{
    match (a, b) {
        (Ok(_), Ok(_)) => true,
        (Err(Damage::Decoder(a)), Err(Damage::Decoder(b))) => same_text(a.as_str(), b.as_str()),
        (Err(Damage::Archive(a)), Err(Damage::Archive(b))) => same_text(a.as_str(), b.as_str()),
        (Err(Damage::Header(a)), Err(Damage::Header(b))) => same_text(a.as_str(), b.as_str()),
        (Err(Damage::Content(path, a)), Err(Damage::Content(other, b))) => same_bytes(
            path.as_slice(),
            other.as_slice(),
        ) && same_text(a.as_str(), b.as_str()),
        _ => false,
    }
}

/// Walks through an archive in which a walk comes to no sparse file that claims
/// more than any archive holds.
fn walk_safely(content: &[u8]) -> (walk: Walk)
    requires
        !overclaims(content@),
    ensures
        walk@ == tar_content(content@),
{
    let mut files: Vec<ArchivedFile> = Vec::new();
    let mut unread = content;
    let outcome = untar(&mut unread, &mut files);
    assert(crate::list::views(files@) =~= tar_content(content@).files);
    Walk { files, outcome, rest: unread.len() }
}

/// The first header that a walk comes to of a sparse file that claims more than
/// any archive holds.
fn find_overclaim(bytes: &[u8]) -> (found: Option<usize>)
    ensures
        match found {
            Some(at) => at <= bytes@.len() && at % 512 == 0 && is_first_overclaim(
                bytes@,
                at as int,
            ),
            None => !overclaims(bytes@),
        },
{
    let mut at: usize = 0;
    while at < bytes.len() && bytes.len() - at >= 512
        invariant
            at <= bytes@.len(),
            at % 512 == 0,
            forall|k: int| k < at ==> !#[trigger] overclaims_at(bytes@, k),
        decreases bytes@.len() - at,
    {
        let sparse = bytes[at + 156] == 83 && bytes[at + 257] == 117 && bytes[at + 258] == 115
            && bytes[at + 259] == 116 && bytes[at + 260] == 97 && bytes[at + 261] == 114 && bytes[at
            + 262] == 32 && bytes[at + 263] == 32 && bytes[at + 264] == 0;
        assert(sparse == is_sparse_at(bytes@, at as int));
        if sparse {
            proof {
                a_beginning_overclaims_nothing(bytes@, at as int, 0);
                a_beginning_overclaims_nothing(bytes@, at as int, 255);
            }
            let ended = walk_safely(with_block(bytes, at, 0).as_slice());
            let broken = walk_safely(with_block(bytes, at, 255).as_slice());
            let endless = bytes[at + 124] >= 128 && bytes[at + 128] != 0 || bytes[at + 483] >= 128
                && bytes[at + 487] != 0;
            if !same_damage(&ended.outcome, &broken.outcome) && (endless
                || ended.outcome.is_err() && finds_long_size(bytes, at)) {
                assert(overclaims_at(bytes@, at as int));
                return Some(at);
            }
        }
        assert(!overclaims_at(bytes@, at as int));
        assert forall|k: int| k < at + 512 implies !#[trigger] overclaims_at(bytes@, k) by {
            if at < k && k % 512 == 0 {
                assert(false);
            }
        }
        at = at + 512;
    }
    assert forall|k: int| !#[trigger] overclaims_at(bytes@, k) by {
        if k >= at {
            assert(!is_sparse_at(bytes@, k) || k + 512 <= bytes@.len());
        }
    }
    None
}

fn is_long_number(bytes: &[u8], at: usize) -> (found: bool)
    requires
        at <= bytes@.len(),
    ensures
        found == is_long_number_at(bytes@, at as int),
{
    if bytes.len() - at < 19 {
        return false;
    }
    let end: usize = at + 19;
    let mut i: usize = at;
    while i < end
        invariant
            at <= i <= end == at + 19,
            end <= bytes@.len(),
            forall|j: int| at <= j < i ==> 48 <= #[trigger] bytes@[j] <= 57,
        decreases end - i,
    {
        if bytes[i] < 48 || bytes[i] > 57 {
            return false;
        }
        i = i + 1;
    }
    true
}

fn finds_long_size(bytes: &[u8], end: usize) -> (found: bool)
    requires
        end <= bytes@.len(),
    ensures
        found == exists|at: int| at < end && #[trigger] is_long_size_at(bytes@, at),
{
    let mut at: usize = 0;
    while at < end && bytes.len() - at >= 7
        invariant
            at <= end <= bytes@.len(),
            forall|k: int| 0 <= k < at ==> !#[trigger] is_long_size_at(bytes@, k),
        decreases end - at,
    {
        if bytes[at] == 32 && bytes[at + 1] == 115 && bytes[at + 2] == 105 && bytes[at + 3] == 122
            && bytes[at + 4] == 101 && bytes[at + 5] == 61 && (is_long_number(bytes, at + 6)
            || bytes[at + 6] == 43 && is_long_number(bytes, at + 7)) {
            assert(is_long_size_at(bytes@, at as int));
            return true;
        }
        at = at + 1;
    }
    false
}

/// A walk through an archive. It ends before the first sparse file that claims
/// more than any archive holds: such a file can never be read to its end.
pub open spec fn walked(content: Seq<u8>) -> WalkView {
    if overclaims(content) {
        let at = choose|at: int| is_first_overclaim(content, at);
        WalkView {
            files: tar_content(content.take(at) + filled_block(0)).files,
            damage: Some(DamageView::Header("a sparse file claims more than the archive holds"@)),
            rest: content.len() as usize,
        }
    } else {
        tar_content(content)
    }
}

/// Walks through an archive.
fn walk_through(content: &[u8]) -> (walk: Walk)
    ensures
        walk@ == walked(content@),
{
    match find_overclaim(content) {
        None => walk_safely(content),
        Some(at) => {
            proof {
                a_beginning_overclaims_nothing(content@, at as int, 0);
                let first = choose|k: int| is_first_overclaim(content@, k);
                assert(is_first_overclaim(content@, first));
                assert(first == at) by {
                    assert(overclaims_at(content@, first) && overclaims_at(content@, at as int));
                }
            }
            let before = walk_safely(with_block(content, at, 0).as_slice());
            let cause = "a sparse file claims more than the archive holds".to_owned();
            Walk {
                files: before.files,
                outcome: Err(Damage::Header(cause)),
                rest: content.len(),
            }
        },
    }
}

/// The files of an archive whose decompression broke off where the walk ended,
/// and the damage: it is in the last file where that is cut short, and behind it
/// otherwise.
pub open spec fn torn(files: Seq<ArchivedView>, cause: Seq<char>) -> (
    Seq<ArchivedView>,
    Option<DamageView>,
) {
    if files.len() > 0 && files.last().content.len() < files.last().size {
        (files.drop_last(), Some(DamageView::Content(files.last().path, cause)))
    } else {
        (files, Some(DamageView::Header(cause)))
    }
}

/// The files of an archive whose decompression broke off where the walk ended,
/// and the damage.
pub fn torn_files(files: Vec<ArchivedFile>, cause: String) -> (left: (
    Vec<ArchivedFile>,
    Result<(), Damage>,
))
    ensures
        (crate::list::views(left.0@), ended_by(left.1)) == torn(crate::list::views(files@), cause@),
{
    let mut files = files;
    let ghost all = crate::list::views(files@);
    let count: usize = files.len();
    if count > 0 && (files[count - 1].content.len() as u64) < files[count - 1].size {
        assert(all.last() == files@[count - 1]@);
        if let Some(last) = files.pop() {
            assert(crate::list::views(files@) =~= all.drop_last());
            return (files, Err(Damage::Content(last.path, cause)));
        }
    }
    assert(count > 0 ==> all.last() == files@[count - 1]@);
    (files, Err(Damage::Header(cause)))
}

/// The files of an archive that was decompressed as far as it went, and the
/// damage that ended it, if some did. Decompression that broke off matters only
/// where the archive had not ended before: a walk tells by whether it comes to
/// an empty block that is put behind.
pub open spec fn read_through(content: Seq<u8>, cause: Option<Seq<char>>) -> (
    Seq<ArchivedView>,
    Option<DamageView>,
) {
    match cause {
        None => (walked(content).files, walked(content).damage),
        Some(cause) => {
            let whole = walked(content + filled_block(0));
            if whole.rest >= 512 {
                (whole.files, whole.damage)
            } else {
                torn(walked(content).files, cause)
            }
        },
    }
}

fn read_archive(content: Vec<u8>, cause: Option<String>) -> (read: (
    Vec<ArchivedFile>,
    Result<(), Damage>,
))
    ensures
        (crate::list::views(read.0@), ended_by(read.1)) == read_through(
            content@,
            crate::text::opt_text(cause),
        ),
{
    match cause {
        None => {
            let walk = walk_through(content.as_slice());
            (walk.files, walk.outcome)
        },
        Some(cause) => {
            let padded = with_block(content.as_slice(), content.len(), 0);
            assert(content@.take(content@.len() as int) =~= content@);
            let whole = walk_through(padded.as_slice());
            if whole.rest >= 512 {
                return (whole.files, whole.outcome);
            }
            let part = walk_through(content.as_slice());
            torn_files(part.files, cause)
        },
    }
}

/// Where the last slash of a path is, or -1.
pub open spec fn last_slash(path: Seq<u8>) -> int
    decreases path.len(),
{
    if path.len() == 0 {
        -1
    } else if path.last() == 47 {
        path.len() - 1
    } else {
        last_slash(path.drop_last())
    }
}

/// The last slash is within its path.
pub proof fn last_slash_is_within(path: Seq<u8>)
    ensures
        -1 <= last_slash(path) < path.len(),
    decreases path.len(),
{
    if path.len() > 0 {
        last_slash_is_within(path.drop_last());
    }
}

/// The last component of a path that is not empty and not `.`, unless it is
/// `..`.
pub open spec fn file_name_of(path: Seq<u8>) -> Option<Seq<u8>>
    decreases path.len(),
{
    let slash = last_slash(path);
    let component = path.skip(slash + 1);
    if component.len() == 0 || component == seq![46u8] {
        if slash < 0 {
            None
        } else {
            proof {
                last_slash_is_within(path);
            }
            file_name_of(path.take(slash))
        }
    } else if component == seq![46u8, 46u8] {
        None
    } else {
        Some(component)
    }
}

/// The last component of a path that is not empty and not `.`, unless it is
/// `..`.
pub fn file_name(path: &[u8]) -> (name: Option<Vec<u8>>)
    ensures
        crate::credential_codec::opt_bytes(name) == file_name_of(path@),
{
    let mut end: usize = path.len();
    assert(path@.take(end as int) =~= path@);
    loop
        invariant
            end <= path@.len(),
            file_name_of(path@) == file_name_of(path@.take(end as int)),
        decreases end,
    {
        let ghost whole = path@.take(end as int);
        let mut start: usize = end;
        assert(whole.take(end as int) =~= whole);
        while start > 0 && path[start - 1] != 47
            invariant
                start <= end <= path@.len(),
                whole == path@.take(end as int),
                last_slash(whole) == last_slash(whole.take(start as int)),
            decreases start,
        {
            proof {
                assert(whole.take(start as int).drop_last() =~= whole.take(start - 1));
                assert(whole.take(start as int).last() == path@[start - 1]);
            }
            start = start - 1;
        }
        let mut component: Vec<u8> = Vec::new();
        let mut i: usize = start;
        while i < end
            invariant
                start <= i <= end <= path@.len(),
                component@ == path@.subrange(start as int, i as int),
            decreases end - i,
        {
            component.push(path[i]);
            assert(component@ =~= path@.subrange(start as int, i + 1));
            i = i + 1;
        }
        proof {
            if start > 0 {
                assert(whole.take(start as int).last() == path@[start - 1]);
            }
            assert(last_slash(whole) == start - 1);
            assert(component@ =~= whole.skip(start as int));
        }
        let dot = component.len() == 1 && component[0] == 46;
        let dots = component.len() == 2 && component[0] == 46 && component[1] == 46;
        proof {
            assert(dot <==> component@ =~= seq![46u8]);
            assert(dots <==> component@ =~= seq![46u8, 46u8]);
        }
        if component.len() > 0 && !dot {
            if dots {
                return None;
            }
            return Some(component);
        }
        if start == 0 {
            return None;
        }
        assert(whole.take(start - 1) =~= path@.take(start - 1));
        end = start - 1;
    }
}

/// One file of the bundle.
#[derive(Debug)]
pub struct BundleFile {
    pub name: String,
    pub bytes: Vec<u8>,
}

/// [`BundleFile`] by what it holds.
pub struct FileView {
    pub name: Seq<char>,
    pub bytes: Seq<u8>,
}

impl View for BundleFile {
    type V = FileView;

    open spec fn view(&self) -> FileView {
        FileView { name: self.name@, bytes: self.bytes@ }
    }
}

/// The files that could be read, in their order, and the failure that ended
/// the reading, if one did.
#[derive(Debug)]
pub struct BundleStage {
    pub files: Vec<BundleFile>,
    pub failure: Option<String>,
}

/// [`BundleStage`] by what it holds.
pub struct BundleView {
    pub files: Seq<FileView>,
    pub failure: Option<Seq<char>>,
}

impl View for BundleStage {
    type V = BundleView;

    open spec fn view(&self) -> BundleView {
        BundleView {
            files: crate::list::views(self.files@),
            failure: crate::text::opt_text(self.failure),
        }
    }
}

/// The name that a bundled file has, if its path ends in one that is text.
pub open spec fn name_of(path: Seq<u8>) -> Option<Seq<char>> {
    match file_name_of(path) {
        Some(name) => if vstd::utf8::valid_utf8(name) {
            Some(vstd::utf8::decode_utf8(name))
        } else {
            None
        },
        None => None,
    }
}

/// The files of an archive whose content is whole, up to the first without a
/// name.
pub open spec fn named(items: Seq<ArchivedView>) -> BundleView
    decreases items.len(),
{
    if items.len() == 0 {
        BundleView { files: Seq::empty(), failure: None }
    } else {
        let earlier = named(items.drop_last());
        if earlier.failure is Some {
            earlier
        } else {
            match name_of(items.last().path) {
                Some(name) => BundleView {
                    files: earlier.files.push(FileView { name, bytes: items.last().content }),
                    failure: None,
                },
                None => BundleView {
                    files: earlier.files,
                    failure: Some("embedded provider bundle entry has no file name"@),
                },
            }
        }
    }
}

/// What a damaged bundle is refused with.
pub open spec fn damage_text(damage: DamageView) -> Seq<char> {
    match damage {
        DamageView::Decoder(cause) => "decode embedded provider bundle: "@ + cause,
        DamageView::Archive(cause) => "read embedded provider bundle: "@ + cause,
        DamageView::Header(cause) => "read embedded provider bundle entry: "@ + cause,
        DamageView::Content(path, cause) => match name_of(path) {
            Some(name) => "read embedded provider bundle file `"@ + name + "`: "@ + cause,
            None => "embedded provider bundle entry has no file name"@,
        },
    }
}

/// The files of an archive, up to the first defect: a file without a name, or
/// damage behind the files.
pub open spec fn staged(
    items: Seq<ArchivedView>,
    damage: Option<DamageView>,
) -> BundleView {
    let whole = named(items);
    match damage {
        Some(damage) if whole.failure is None => BundleView {
            files: whole.files,
            failure: Some(damage_text(damage)),
        },
        _ => whole,
    }
}

fn file_name_text(path: &[u8]) -> (name: Option<String>)
    ensures
        crate::text::opt_text(name) == name_of(path@),
{
    match file_name(path) {
        Some(name) => match utf8_text(name) {
            Ok(name) => Some(name),
            Err(_) => None,
        },
        None => None,
    }
}

/// What a damaged bundle is refused with.
fn explain_damage(damage: Damage) -> (text: String)
    ensures
        text@ == damage_text(damage@),
{
    match damage {
        Damage::Decoder(cause) => concat("decode embedded provider bundle: ", cause.as_str()),
        Damage::Archive(cause) => concat("read embedded provider bundle: ", cause.as_str()),
        Damage::Header(cause) => concat("read embedded provider bundle entry: ", cause.as_str()),
        Damage::Content(path, cause) => match file_name_text(path.as_slice()) {
            Some(name) => {
                let file = concat3("read embedded provider bundle file `", name.as_str(), "`: ");
                concat(file.as_str(), cause.as_str())
            },
            None => "embedded provider bundle entry has no file name".to_owned(),
        },
    }
}

/// The files of an archive, up to the first defect. `outcome` holds what ended
/// the archive behind the files, if something did.
pub fn stage_items(items: Vec<ArchivedFile>, outcome: Result<(), Damage>) -> (stage: BundleStage)
    ensures
        stage@ == staged(crate::list::views(items@), ended_by(outcome)),
{
    let ghost whole = items@;
    let ghost all = crate::list::views(whole);
    let mut files: Vec<BundleFile> = Vec::new();
    let mut failure: Option<String> = None;
    proof {
        assert(all.take(0) =~= Seq::empty());
        assert(crate::list::views(files@) =~= Seq::<FileView>::empty());
    }
    for item in it: items
        invariant
            it.seq() == whole,
            all == crate::list::views(whole),
            crate::list::views(files@) == named(all.take(it.index() as int)).files,
            crate::text::opt_text(failure) == named(all.take(it.index() as int)).failure,
    {
        let ghost at = it.index() as int;
        let ghost before = crate::list::views(files@);
        proof {
            assert(all.take(at + 1).drop_last() =~= all.take(at));
            assert(all.take(at + 1).last() == item@);
        }
        if failure.is_none() {
            match file_name_text(item.path.as_slice()) {
                Some(name) => {
                    let file = BundleFile { name, bytes: item.content };
                    files.push(file);
                    assert(crate::list::views(files@) =~= before.push(file@));
                },
                None => {
                    failure = Some("embedded provider bundle entry has no file name".to_owned());
                },
            }
        }
    }
    assert(all.take(all.len() as int) =~= all);
    if let Err(damage) = outcome {
        if failure.is_none() {
            failure = Some(explain_damage(damage));
        }
    }
    BundleStage { files, failure }
}

/// Reads the bundle: its files up to the first defect.
pub fn read_bundle(bundle: &[u8]) -> (stage: BundleStage)
    ensures
        stage@ == (match zstd_content(bundle@) {
            Ok((content, cause)) => staged(
                read_through(content, cause).0,
                read_through(content, cause).1,
            ),
            Err(cause) => staged(Seq::empty(), Some(DamageView::Decoder(cause))),
        }),
{
    match unzip(bundle) {
        Ok((content, cause)) => {
            let (files, outcome) = read_archive(content, cause);
            stage_items(files, outcome)
        },
        Err(cause) => {
            let files: Vec<ArchivedFile> = Vec::new();
            assert(crate::list::views(files@) =~= Seq::<ArchivedView>::empty());
            stage_items(files, Err(Damage::Decoder(cause)))
        },
    }
}

/// One provider of the bundle: its artifact and what its manifest says.
#[derive(Debug)]
pub struct EmbeddedProvider {
    pub id: ProviderId,
    pub file: String,
    pub bytes: Vec<u8>,
    /// What the provider calls itself.
    pub name: String,
    pub version: String,
    /// The manifest as JSON.
    pub manifest: Vec<u8>,
}

/// [`EmbeddedProvider`] by what it holds.
pub struct EmbeddedView {
    pub id: ProviderId,
    pub file: Seq<char>,
    pub bytes: Seq<u8>,
    pub name: Seq<char>,
    pub version: Seq<char>,
    pub manifest: Seq<u8>,
}

impl View for EmbeddedProvider {
    type V = EmbeddedView;

    open spec fn view(&self) -> EmbeddedView {
        EmbeddedView {
            id: self.id,
            file: self.file@,
            bytes: self.bytes@,
            name: self.name@,
            version: self.version@,
            manifest: self.manifest@,
        }
    }
}

impl Ranked for EmbeddedProvider {
    open spec fn ranks_before(a: EmbeddedView, b: EmbeddedView) -> bool {
        crate::order::text_before(a.name, b.name)
    }

    fn is_ranked_before(&self, other: &Self) -> (before: bool) {
        is_text_before(self.name.as_str(), other.name.as_str())
    }

    proof fn ranks_before_is_weak_order(a: EmbeddedView, b: EmbeddedView, c: EmbeddedView) {
        crate::name::text_order_is_weak(a.name, b.name, c.name);
    }
}

/// The providers that come with the daemon, by name.
#[derive(Debug)]
pub struct EmbeddedProviders {
    pub entries: Vec<EmbeddedProvider>,
}

impl View for EmbeddedProviders {
    type V = Seq<EmbeddedView>;

    open spec fn view(&self) -> Seq<EmbeddedView> {
        crate::list::views(self.entries@)
    }
}

/// What a provider offers to be shown: its artifact, its name and version, and
/// its manifest.
#[derive(Debug)]
pub struct ProviderMetadata {
    pub id: ProviderId,
    pub name: String,
    pub version: String,
    pub manifest: Vec<u8>,
}

/// [`ProviderMetadata`] by what it holds.
pub struct MetadataView {
    pub id: ProviderId,
    pub name: Seq<char>,
    pub version: Seq<char>,
    pub manifest: Seq<u8>,
}

impl View for ProviderMetadata {
    type V = MetadataView;

    open spec fn view(&self) -> MetadataView {
        MetadataView {
            id: self.id,
            name: self.name@,
            version: self.version@,
            manifest: self.manifest@,
        }
    }
}

/// What an embedded provider offers to be shown.
pub open spec fn metadata_of(provider: EmbeddedView) -> MetadataView {
    MetadataView {
        id: provider.id,
        name: provider.name,
        version: provider.version,
        manifest: provider.manifest,
    }
}

/// The place of the first artifact that was refused, or the length.
pub open spec fn first_refused(artifacts: Seq<Result<EmbeddedProvider, String>>) -> int
    decreases artifacts.len(),
{
    if artifacts.len() == 0 {
        0
    } else {
        let earlier = first_refused(artifacts.drop_last());
        if earlier < artifacts.len() - 1 {
            earlier
        } else if artifacts.last() is Err {
            artifacts.len() - 1
        } else {
            artifacts.len() as int
        }
    }
}

/// Artifacts that were all accepted, by what they hold.
pub open spec fn accepted(artifacts: Seq<Result<EmbeddedProvider, String>>) -> Seq<EmbeddedView> {
    artifacts.map_values(|artifact: Result<EmbeddedProvider, String>| artifact->Ok_0@)
}

/// The first refusal stays the first.
proof fn a_refusal_stays_first(artifacts: Seq<Result<EmbeddedProvider, String>>, i: int)
    requires
        0 <= i < artifacts.len(),
        first_refused(artifacts.take(i)) == i,
        artifacts[i] is Err,
    ensures
        first_refused(artifacts) == i,
{
    assert(artifacts.take(i + 1).drop_last() =~= artifacts.take(i));
    a_refusal_is_kept(artifacts, i, i + 1);
}

proof fn a_refusal_is_kept(artifacts: Seq<Result<EmbeddedProvider, String>>, i: int, k: int)
    requires
        0 <= i < k <= artifacts.len(),
        first_refused(artifacts.take(k)) == i,
    ensures
        first_refused(artifacts) == i,
    decreases artifacts.len() - k,
{
    if k < artifacts.len() {
        assert(artifacts.take(k + 1).drop_last() =~= artifacts.take(k));
        a_refusal_is_kept(artifacts, i, k + 1);
    } else {
        assert(artifacts.take(k) =~= artifacts);
    }
}

impl EmbeddedProviders {
    /// Settles a bundle that was read. `artifacts` holds for each file the
    /// provider in it, or why the file is no valid artifact. The earliest
    /// failure counts; without one the providers are listed by name.
    pub fn load(
        stage: BundleStage,
        artifacts: Vec<Result<EmbeddedProvider, String>>,
    ) -> (embedded: Result<Self, String>)
        requires
            artifacts@.len() == stage.files@.len(),
        ensures
            match embedded {
                Ok(embedded) => first_refused(artifacts@) == artifacts@.len() && stage.failure is None
                    && embedded@ == crate::order::sorted::<EmbeddedProvider>(
                    accepted(artifacts@),
                ),
                Err(error) => if first_refused(artifacts@) < artifacts@.len() {
                    error@ == "validate embedded provider artifact `"@
                        + stage@.files[first_refused(artifacts@)].name + "`: "@
                        + artifacts@[first_refused(artifacts@)]->Err_0@
                } else {
                    stage.failure matches Some(failure) && error@ == failure@
                },
            },
    {
        let ghost whole = artifacts@;
        let ghost files = stage@.files;
        let count: usize = artifacts.len();
        let mut entries: Vec<EmbeddedProvider> = Vec::new();
        let mut i: usize = 0;
        assert(crate::list::views(entries@) =~= accepted(whole.take(0)));
        for artifact in it: artifacts
            invariant
                it.seq() == whole,
                i == it.index(),
                count == whole.len(),
                whole.len() == stage.files@.len(),
                files == crate::list::views(stage.files@),
                first_refused(whole.take(i as int)) == i,
                crate::list::views(entries@) == accepted(whole.take(i as int)),
        {
            proof {
                assert(whole.take(i + 1).drop_last() =~= whole.take(i as int));
                assert(whole.take(i + 1).last() == whole[i as int]);
            }
            match artifact {
                Ok(provider) => {
                    let ghost before = crate::list::views(entries@);
                    entries.push(provider);
                    assert(crate::list::views(entries@) =~= before.push(provider@));
                    assert(crate::list::views(entries@) =~= accepted(whole.take(i + 1)));
                },
                Err(cause) => {
                    proof {
                        a_refusal_stays_first(whole, i as int);
                        assert(files[i as int] == stage.files@[i as int]@);
                    }
                    let file = concat3(
                        "validate embedded provider artifact `",
                        stage.files[i].name.as_str(),
                        "`: ",
                    );
                    return Err(concat(file.as_str(), cause.as_str()));
                },
            }
            i = i + 1;
        }
        assert(whole.take(i as int) =~= whole);
        match stage.failure {
            Some(failure) => Err(failure),
            None => Ok(EmbeddedProviders { entries: sort(entries) }),
        }
    }

    /// The provider with a name.
    pub fn by_name(&self, name: &str) -> (found: Option<&EmbeddedProvider>)
        ensures
            match found {
                Some(found) => exists|i: int|
                    0 <= i < self@.len() && #[trigger] self@[i] == found@ && found@.name == name@
                        && forall|j: int| 0 <= j < i ==> (#[trigger] self@[j]).name != name@,
                None => forall|i: int| 0 <= i < self@.len() ==> (#[trigger] self@[i]).name != name@,
            },
    {
        let mut i: usize = 0;
        while i < self.entries.len()
            invariant
                i <= self.entries@.len(),
                forall|j: int| 0 <= j < i ==> (#[trigger] self@[j]).name != name@,
            decreases self.entries@.len() - i,
        {
            assert(self@[i as int] == self.entries@[i as int]@);
            if same_text(self.entries[i].name.as_str(), name) {
                return Some(&self.entries[i]);
            }
            i = i + 1;
        }
        None
    }

    /// What the providers offer to be shown, in their order.
    pub fn metadata(&self) -> (listed: Vec<ProviderMetadata>)
        ensures
            crate::list::views(listed@) == self@.map_values(
                |provider: EmbeddedView| metadata_of(provider),
            ),
    {
        let mut listed: Vec<ProviderMetadata> = Vec::new();
        let mut i: usize = 0;
        while i < self.entries.len()
            invariant
                i <= self.entries@.len(),
                listed@.len() == i,
                forall|j: int|
                    0 <= j < i ==> (#[trigger] listed@[j])@ == metadata_of(self.entries@[j]@),
            decreases self.entries@.len() - i,
        {
            let provider = &self.entries[i];
            listed.push(
                ProviderMetadata {
                    id: provider.id,
                    name: provider.name.clone(),
                    version: provider.version.clone(),
                    manifest: crate::credential_codec::copy_bytes(provider.manifest.as_slice()),
                },
            );
            i = i + 1;
        }
        assert(crate::list::views(listed@) =~= self@.map_values(
            |provider: EmbeddedView| metadata_of(provider),
        ));
        listed
    }
}

/// Providers are listed by name, each as often as the bundle holds it.
pub proof fn embedded_providers_are_listed_by_name(artifacts: Seq<EmbeddedView>)
    ensures
        crate::order::in_order::<EmbeddedProvider>(
            crate::order::sorted::<EmbeddedProvider>(artifacts),
        ),
        crate::order::sorted::<EmbeddedProvider>(artifacts).to_multiset()
            == artifacts.to_multiset(),
{
    crate::order::sorted_is_in_order::<EmbeddedProvider>(artifacts);
}

} // verus!
