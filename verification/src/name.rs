//! What resources are called: names, keys, revisions, and the identifiers of
//! actions and provider artifacts.
use crate::order::{is_text_before, Ranked};
use crate::text::{same_path, same_text};
use vstd::prelude::*;
use vstd::string::*;
use vstd::utf8::*;

verus! {

/// The name of one resource, unique among the resources of its kind.
#[derive(Debug, PartialEq, Eq)]
pub struct ResourceName {
    pub text: String,
}

impl View for ResourceName {
    type V = Seq<char>;

    open spec fn view(&self) -> Seq<char> {
        self.text@
    }
}

impl ResourceName {
    /// Takes a name that has already been validated.
    pub fn new(text: &str) -> (name: Self)
        ensures
            name@ == text@,
    {
        ResourceName { text: text.to_owned() }
    }

    /// The name as text.
    pub fn as_str(&self) -> (text: &str)
        ensures
            text@ == self@,
    {
        self.text.as_str()
    }

    /// Whether both spell the same name.
    pub fn same(&self, other: &Self) -> (same: bool)
        ensures
            same == (self@ == other@),
    {
        same_text(self.text.as_str(), other.text.as_str())
    }
}

impl Clone for ResourceName {
    fn clone(&self) -> (copy: Self)
        ensures
            copy == *self,
    {
        ResourceName { text: self.text.clone() }
    }
}

impl crate::list::Record for ResourceName {
    fn copied(&self) -> (copy: Self) {
        self.clone()
    }
}

/// Dictionary order of text is a weak order.
pub proof fn text_order_is_weak(a: Seq<char>, b: Seq<char>, c: Seq<char>)
    ensures
        !(crate::order::text_before(a, b) && crate::order::text_before(b, a)),
        crate::order::text_before(a, b) && crate::order::text_before(b, c) ==> crate::order::text_before(a, c),
        !crate::order::text_before(a, b) && !crate::order::text_before(b, c) ==> !crate::order::text_before(a, c),
{
    crate::order::text_before_is_strict_total(a, b);
    crate::order::text_before_is_strict_total(b, c);
    if crate::order::text_before(a, b) && crate::order::text_before(b, c) {
        crate::order::bytes_before_transitive(encode_utf8(a), encode_utf8(b), encode_utf8(c));
    }
    if !crate::order::text_before(a, b) && !crate::order::text_before(b, c) && crate::order::text_before(a, c) {
        if crate::order::text_before(b, a) {
            crate::order::bytes_before_transitive(encode_utf8(b), encode_utf8(a), encode_utf8(c));
        }
    }
}

impl Ranked for ResourceName {
    open spec fn ranks_before(a: Seq<char>, b: Seq<char>) -> bool {
        crate::order::text_before(a, b)
    }

    fn is_ranked_before(&self, other: &Self) -> (before: bool) {
        is_text_before(self.text.as_str(), other.text.as_str())
    }

    proof fn ranks_before_is_weak_order(a: Seq<char>, b: Seq<char>, c: Seq<char>) {
        text_order_is_weak(a, b, c);
    }
}

/// The kinds of resources a profile declares.
#[derive(Clone, Copy, Debug, PartialEq, Eq, Structural)]
pub enum ResourceKind {
    Provider,
    Credential,
    Mount,
    Filesystem,
}

impl ResourceKind {
    /// Kinds are listed in the order they depend on each other.
    pub open spec fn rank(self) -> int {
        match self {
            ResourceKind::Provider => 0,
            ResourceKind::Credential => 1,
            ResourceKind::Mount => 2,
            ResourceKind::Filesystem => 3,
        }
    }

    fn rank_of(self) -> (rank: u8)
        ensures
            rank == self.rank(),
    {
        match self {
            ResourceKind::Provider => 0,
            ResourceKind::Credential => 1,
            ResourceKind::Mount => 2,
            ResourceKind::Filesystem => 3,
        }
    }
}

/// One resource: its kind and its name.
#[derive(Debug, PartialEq, Eq)]
pub struct ResourceKey {
    pub kind: ResourceKind,
    pub name: ResourceName,
}

/// A resource key by what it spells.
pub struct KeyView {
    pub kind: ResourceKind,
    pub name: Seq<char>,
}

impl View for ResourceKey {
    type V = KeyView;

    open spec fn view(&self) -> KeyView {
        KeyView { kind: self.kind, name: self.name@ }
    }
}

impl ResourceKey {
    pub fn new(kind: ResourceKind, name: ResourceName) -> (key: Self)
        ensures
            key == (ResourceKey { kind, name }),
    {
        ResourceKey { kind, name }
    }

    /// Whether both name the same resource.
    pub fn same(&self, other: &Self) -> (same: bool)
        ensures
            same == (self@ == other@),
    {
        self.kind == other.kind && self.name.same(&other.name)
    }
}

impl Clone for ResourceKey {
    fn clone(&self) -> (copy: Self)
        ensures
            copy == *self,
    {
        ResourceKey { kind: self.kind, name: self.name.clone() }
    }
}

/// Keys are listed by kind, then by name.
pub open spec fn key_before(a: KeyView, b: KeyView) -> bool {
    a.kind.rank() < b.kind.rank() || (a.kind == b.kind && crate::order::text_before(a.name, b.name))
}

/// The order of keys is a weak order.
pub proof fn key_order_is_weak(a: KeyView, b: KeyView, c: KeyView)
    ensures
        !(key_before(a, b) && key_before(b, a)),
        key_before(a, b) && key_before(b, c) ==> key_before(a, c),
        !key_before(a, b) && !key_before(b, c) ==> !key_before(a, c),
{
    text_order_is_weak(a.name, b.name, c.name);
    text_order_is_weak(a.name, b.name, a.name);
}

impl Ranked for ResourceKey {
    open spec fn ranks_before(a: KeyView, b: KeyView) -> bool {
        key_before(a, b)
    }

    fn is_ranked_before(&self, other: &Self) -> (before: bool) {
        let mine: u8 = self.kind.rank_of();
        let theirs: u8 = other.kind.rank_of();
        assert(Self::ranks_before(self@, other@) == key_before(self@, other@));
        mine < theirs || (self.kind == other.kind && self.name.is_ranked_before(&other.name))
    }

    proof fn ranks_before_is_weak_order(a: KeyView, b: KeyView, c: KeyView) {
        key_order_is_weak(a, b, c);
    }
}

/// A revision of the desired resource set. Later revisions are larger.
#[derive(Clone, Copy, Debug, PartialEq, Eq, Structural)]
pub struct ResourceRevision {
    pub value: u64,
}

impl ResourceRevision {
    pub fn new(value: u64) -> (revision: Self)
        ensures
            revision.value == value,
    {
        ResourceRevision { value }
    }

    pub fn get(self) -> (value: u64)
        ensures
            value == self.value,
    {
        self.value
    }
}

/// One requested action, by its sixteen identifying bytes read as a big-endian
/// number, so that numbers order as the bytes do.
#[derive(Clone, Copy, Debug, PartialEq, Eq, Structural)]
pub struct ActionId {
    pub value: u128,
}

/// One provider artifact, by the two halves of its content digest read as
/// big-endian numbers, so that the halves order as the bytes do.
#[derive(Clone, Copy, Debug, PartialEq, Eq, Structural)]
pub struct ProviderId {
    pub high: u128,
    pub low: u128,
}

impl ProviderId {
    /// Digest order.
    pub open spec fn before(self, other: Self) -> bool {
        self.high < other.high || (self.high == other.high && self.low < other.low)
    }
}

impl View for ProviderId {
    type V = ProviderId;

    open spec fn view(&self) -> ProviderId {
        *self
    }
}

impl Ranked for ProviderId {
    open spec fn ranks_before(a: ProviderId, b: ProviderId) -> bool {
        a.before(b)
    }

    fn is_ranked_before(&self, other: &Self) -> (before: bool) {
        assert(Self::ranks_before(self@, other@) == self@.before(other@));
        self.high < other.high || (self.high == other.high && self.low < other.low)
    }

    proof fn ranks_before_is_weak_order(a: ProviderId, b: ProviderId, c: ProviderId) {
    }
}

/// The version of one declared filesystem: the two halves of its digest.
#[derive(Clone, Copy, Debug, PartialEq, Eq, Structural)]
pub struct FilesystemVersion {
    pub high: u128,
    pub low: u128,
}

/// How a filesystem is served to the operating system.
#[derive(Clone, Copy, Debug, PartialEq, Eq, Structural)]
pub enum FilesystemProtocol {
    Fuse,
    Nfs,
}

impl FilesystemProtocol {
    pub open spec fn spelling(self) -> Seq<char> {
        match self {
            FilesystemProtocol::Fuse => "fuse"@,
            FilesystemProtocol::Nfs => "nfs"@,
        }
    }

    pub fn as_str(self) -> (text: &'static str)
        ensures
            text@ == self.spelling(),
    {
        match self {
            FilesystemProtocol::Fuse => "fuse",
            FilesystemProtocol::Nfs => "nfs",
        }
    }
}

/// Where a filesystem runs.
#[derive(Clone, Copy, Debug, PartialEq, Eq, Structural)]
pub enum FilesystemRuntime {
    Host,
    Docker,
    Libkrun,
}

impl FilesystemRuntime {
    pub open spec fn spelling(self) -> Seq<char> {
        match self {
            FilesystemRuntime::Host => "host"@,
            FilesystemRuntime::Docker => "docker"@,
            FilesystemRuntime::Libkrun => "libkrun"@,
        }
    }

    pub fn as_str(self) -> (text: &'static str)
        ensures
            text@ == self.spelling(),
    {
        match self {
            FilesystemRuntime::Host => "host",
            FilesystemRuntime::Docker => "docker",
            FilesystemRuntime::Libkrun => "libkrun",
        }
    }
}

/// One declared filesystem: protocol, runtime, mount location, and the images
/// that the guest runtimes start from.
#[derive(Debug, PartialEq, Eq)]
pub struct FilesystemSpec {
    pub protocol: FilesystemProtocol,
    pub runtime: FilesystemRuntime,
    pub location: String,
    pub docker_image: Option<String>,
    pub libkrun_guest_image: Option<String>,
}

/// A filesystem specification by what its fields spell.
pub struct SpecView {
    pub protocol: FilesystemProtocol,
    pub runtime: FilesystemRuntime,
    pub location: Seq<char>,
    pub docker_image: Option<Seq<char>>,
    pub libkrun_guest_image: Option<Seq<char>>,
}

impl View for FilesystemSpec {
    type V = SpecView;

    open spec fn view(&self) -> SpecView {
        SpecView {
            protocol: self.protocol,
            runtime: self.runtime,
            location: self.location@,
            docker_image: crate::text::opt_text(self.docker_image),
            libkrun_guest_image: crate::text::opt_text(self.libkrun_guest_image),
        }
    }
}

fn same_opt_text(a: &Option<String>, b: &Option<String>) -> (same: bool)
    ensures
        same == (crate::text::opt_text(*a) == crate::text::opt_text(*b)),
{
    match (a, b) {
        (Some(a), Some(b)) => same_text(a.as_str(), b.as_str()),
        (None, None) => true,
        _ => false,
    }
}

/// Whether two specifications declare the same filesystem. Their locations are
/// compared as paths.
pub open spec fn same_spec(a: SpecView, b: SpecView) -> bool {
    &&& a.protocol == b.protocol
    &&& a.runtime == b.runtime
    &&& crate::text::path_parts(a.location) == crate::text::path_parts(b.location)
    &&& a.docker_image == b.docker_image
    &&& a.libkrun_guest_image == b.libkrun_guest_image
}

impl FilesystemSpec {
    /// Whether both declare the same filesystem.
    pub fn same(&self, other: &Self) -> (same: bool)
        ensures
            same == same_spec(self@, other@),
    {
        self.protocol == other.protocol && self.runtime == other.runtime && same_path(
            self.location.as_str(),
            other.location.as_str(),
        ) && same_opt_text(&self.docker_image, &other.docker_image) && same_opt_text(
            &self.libkrun_guest_image,
            &other.libkrun_guest_image,
        )
    }
}

impl Clone for FilesystemSpec {
    fn clone(&self) -> (copy: Self)
        ensures
            copy == *self,
    {
        FilesystemSpec {
            protocol: self.protocol,
            runtime: self.runtime,
            location: self.location.clone(),
            docker_image: self.docker_image.clone(),
            libkrun_guest_image: self.libkrun_guest_image.clone(),
        }
    }
}

} // verus!
