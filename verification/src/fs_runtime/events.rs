//! Facts emitted by runtime work, and the bounded sink they go to.
use crate::name::{FilesystemRuntime, ResourceName};
use crate::records::FilesystemProgressStage;
use vstd::prelude::*;

verus! {

/// Runtime artifact whose bytes or verification state changed.
#[derive(Clone, Copy, Debug, PartialEq, Eq, Hash, Structural)]
pub enum Artifact {
    FilesystemImage,
    GuestImage,
}

/// Stable operation stage used by progress and failures.
#[derive(Clone, Copy, Debug, PartialEq, Eq, Hash, Structural)]
pub enum RuntimeStage {
    Probe,
    MaterializeImage,
    StartProcess,
    StartContainer,
    StartVm,
    WaitForOsMount,
    WaitForVfsSession,
    Stop,
}

/// Closed lifecycle state for stage events.
#[derive(Clone, Copy, Debug, PartialEq, Eq, Structural)]
pub enum RuntimeState {
    Pending,
    Active,
    Ready,
    Stopping,
    Stopped,
}

/// Closed image-state facts.
#[derive(Clone, Debug, PartialEq, Eq)]
pub enum ImageState {
    Present { age: Option<String> },
    Missing,
}

/// Closed container actions with distinct user-visible meanings.
#[derive(Clone, Copy, Debug, PartialEq, Eq, Structural)]
pub enum ContainerState {
    Absent,
    RemovingExisting,
    Creating,
    Starting,
    StoppingConfirmed,
}

/// Facts emitted by runtime work. These variants contain no terminal policy.
#[allow(inconsistent_fields)]
#[derive(Clone, Debug, PartialEq, Eq)]
pub enum RuntimeEvent {
    Stage {
        stage: RuntimeStage,
        runtime: FilesystemRuntime,
        filesystem: ResourceName,
        state: RuntimeState,
    },
    Image { artifact: Artifact, reference: String, state: ImageState },
    Download {
        artifact: Artifact,
        completed_bytes: u64,
        total_bytes: Option<u64>,
        source: String,
    },
    /// The artifact reached its ready state. Guest images emit this only after
    /// digest and byte-count verification.
    DownloadFinished { artifact: Artifact, reference: String, completed_bytes: Option<u64> },
    DownloadFailed { artifact: Artifact, reference: Option<String> },
    ImageRetry { artifact: Artifact, path: String, reason: String },
    Container { name: String, image: Option<String>, state: ContainerState },
    MountReady {
        runtime: FilesystemRuntime,
        filesystem: ResourceName,
        location: String,
        container: Option<String>,
    },
    Failed { stage: RuntimeStage, message: String },
}

/// [`ImageState`] by what it spells.
pub enum ImageStateView {
    Present { age: Option<Seq<char>> },
    Missing,
}

impl View for ImageState {
    type V = ImageStateView;

    open spec fn view(&self) -> ImageStateView {
        match self {
            ImageState::Present { age } => ImageStateView::Present {
                age: crate::text::opt_text(*age),
            },
            ImageState::Missing => ImageStateView::Missing,
        }
    }
}

/// [`RuntimeEvent`] by what it spells.
#[allow(inconsistent_fields)]
pub enum FactView {
    Stage {
        stage: RuntimeStage,
        runtime: FilesystemRuntime,
        filesystem: Seq<char>,
        state: RuntimeState,
    },
    Image { artifact: Artifact, reference: Seq<char>, state: ImageStateView },
    Download {
        artifact: Artifact,
        completed_bytes: u64,
        total_bytes: Option<u64>,
        source: Seq<char>,
    },
    DownloadFinished { artifact: Artifact, reference: Seq<char>, completed_bytes: Option<u64> },
    DownloadFailed { artifact: Artifact, reference: Option<Seq<char>> },
    ImageRetry { artifact: Artifact, path: Seq<char>, reason: Seq<char> },
    Container { name: Seq<char>, image: Option<Seq<char>>, state: ContainerState },
    MountReady {
        runtime: FilesystemRuntime,
        filesystem: Seq<char>,
        location: Seq<char>,
        container: Option<Seq<char>>,
    },
    Failed { stage: RuntimeStage, message: Seq<char> },
}

impl View for RuntimeEvent {
    type V = FactView;

    open spec fn view(&self) -> FactView {
        match self {
            RuntimeEvent::Stage { stage, runtime, filesystem, state } => FactView::Stage {
                stage: *stage,
                runtime: *runtime,
                filesystem: filesystem@,
                state: *state,
            },
            RuntimeEvent::Image { artifact, reference, state } => FactView::Image {
                artifact: *artifact,
                reference: reference@,
                state: state@,
            },
            RuntimeEvent::Download { artifact, completed_bytes, total_bytes, source } =>
                FactView::Download {
                    artifact: *artifact,
                    completed_bytes: *completed_bytes,
                    total_bytes: *total_bytes,
                    source: source@,
                },
            RuntimeEvent::DownloadFinished { artifact, reference, completed_bytes } =>
                FactView::DownloadFinished {
                    artifact: *artifact,
                    reference: reference@,
                    completed_bytes: *completed_bytes,
                },
            RuntimeEvent::DownloadFailed { artifact, reference } => FactView::DownloadFailed {
                artifact: *artifact,
                reference: crate::text::opt_text(*reference),
            },
            RuntimeEvent::ImageRetry { artifact, path, reason } => FactView::ImageRetry {
                artifact: *artifact,
                path: path@,
                reason: reason@,
            },
            RuntimeEvent::Container { name, image, state } => FactView::Container {
                name: name@,
                image: crate::text::opt_text(*image),
                state: *state,
            },
            RuntimeEvent::MountReady { runtime, filesystem, location, container } =>
                FactView::MountReady {
                    runtime: *runtime,
                    filesystem: filesystem@,
                    location: location@,
                    container: crate::text::opt_text(*container),
                },
            RuntimeEvent::Failed { stage, message } => FactView::Failed {
                stage: *stage,
                message: message@,
            },
        }
    }
}

impl RuntimeStage {
    /// The progress stage that work in this stage shows as.
    pub open spec fn shows_as(self) -> FilesystemProgressStage {
        match self {
            RuntimeStage::Probe => FilesystemProgressStage::Queued,
            RuntimeStage::MaterializeImage => FilesystemProgressStage::Materializing,
            RuntimeStage::StartProcess => FilesystemProgressStage::Starting,
            RuntimeStage::StartContainer => FilesystemProgressStage::Starting,
            RuntimeStage::StartVm => FilesystemProgressStage::Starting,
            RuntimeStage::WaitForOsMount => FilesystemProgressStage::Mounting,
            RuntimeStage::WaitForVfsSession => FilesystemProgressStage::WaitingForNamespace,
            RuntimeStage::Stop => FilesystemProgressStage::Stopping,
        }
    }
}

impl RuntimeEvent {
    /// What the fact contributes to filesystem progress: its stage, if it has
    /// one, the bytes that are there, and the total where it is known. A
    /// finished stop is waiting for what comes next.
    pub open spec fn contribution(&self) -> (Option<FilesystemProgressStage>, u64, Option<u64>) {
        match self {
            RuntimeEvent::Download { artifact: _, completed_bytes, total_bytes, source: _ } => (
                Some(FilesystemProgressStage::PullingImage),
                *completed_bytes,
                *total_bytes,
            ),
            RuntimeEvent::DownloadFinished { artifact: _, reference: _, completed_bytes } => (
                Some(FilesystemProgressStage::Materializing),
                match completed_bytes {
                    Some(bytes) => *bytes,
                    None => 0,
                },
                *completed_bytes,
            ),
            RuntimeEvent::Stage { stage, runtime: _, filesystem: _, state } => (
                Some(
                    if *state == RuntimeState::Stopped && *stage == RuntimeStage::Stop {
                        FilesystemProgressStage::Queued
                    } else {
                        stage.shows_as()
                    },
                ),
                0,
                None,
            ),
            RuntimeEvent::MountReady { .. } => (Some(FilesystemProgressStage::Mounting), 0, None),
            _ => (None, 0, None),
        }
    }

    /// What the fact contributes to filesystem progress.
    pub fn progress_stage(&self) -> (progress: (Option<FilesystemProgressStage>, u64, Option<u64>))
        ensures
            progress == self.contribution(),
    {
        match self {
            RuntimeEvent::Download { completed_bytes, total_bytes, .. } => (
                Some(FilesystemProgressStage::PullingImage),
                *completed_bytes,
                *total_bytes,
            ),
            RuntimeEvent::DownloadFinished { completed_bytes, .. } => (
                Some(FilesystemProgressStage::Materializing),
                completed_bytes.unwrap_or(0),
                *completed_bytes,
            ),
            RuntimeEvent::Stage { stage, state, .. } => {
                let shown = match stage {
                    RuntimeStage::Probe => FilesystemProgressStage::Queued,
                    RuntimeStage::MaterializeImage => FilesystemProgressStage::Materializing,
                    RuntimeStage::StartProcess
                    | RuntimeStage::StartContainer
                    | RuntimeStage::StartVm => FilesystemProgressStage::Starting,
                    RuntimeStage::WaitForOsMount => FilesystemProgressStage::Mounting,
                    RuntimeStage::WaitForVfsSession => FilesystemProgressStage::WaitingForNamespace,
                    RuntimeStage::Stop => FilesystemProgressStage::Stopping,
                };
                let shown = if *state == RuntimeState::Stopped && shown
                    == FilesystemProgressStage::Stopping {
                    FilesystemProgressStage::Queued
                } else {
                    shown
                };
                (Some(shown), 0, None)
            },
            RuntimeEvent::MountReady { .. } => (Some(FilesystemProgressStage::Mounting), 0, None),
            RuntimeEvent::Image { .. }
            | RuntimeEvent::ImageRetry { .. }
            | RuntimeEvent::Container { .. }
            | RuntimeEvent::DownloadFailed { .. }
            | RuntimeEvent::Failed { .. } => (None, 0, None),
        }
    }
}

/// No fact reports a total of bytes that it was not told: a total comes from a
/// download that states it, or is the byte count of a finished one.
pub proof fn totals_are_never_invented(event: RuntimeEvent)
    ensures
        event.contribution().2 matches Some(total) ==> {
            ||| event matches RuntimeEvent::Download { total_bytes, .. } && total_bytes == Some(total)
            ||| event matches RuntimeEvent::DownloadFinished { completed_bytes, .. }
                && completed_bytes == Some(total)
        },
{
}

/// No event.
pub fn no_events() -> (events: Vec<RuntimeEvent>)
    ensures
        crate::list::views(events@) == Seq::<FactView>::empty(),
{
    let events: Vec<RuntimeEvent> = Vec::new();
    assert(crate::list::views(events@) =~= Seq::<FactView>::empty());
    events
}

/// One event.
pub fn one_event(event: RuntimeEvent) -> (events: Vec<RuntimeEvent>)
    ensures
        crate::list::views(events@) == seq![event@],
{
    let mut events: Vec<RuntimeEvent> = Vec::new();
    events.push(event);
    assert(crate::list::views(events@) =~= seq![event@]);
    events
}

/// The sending half of a bounded channel.
#[verifier::external_type_specification]
#[verifier::external_body]
#[verifier::reject_recursive_types(T)]
pub struct ExSender<T>(tokio::sync::mpsc::Sender<T>);

/// The receiving half of a bounded channel.
#[verifier::external_type_specification]
#[verifier::external_body]
#[verifier::reject_recursive_types(T)]
pub struct ExReceiver<T>(tokio::sync::mpsc::Receiver<T>);

/// The receiving half of a sink.
pub type RuntimeEventReceiver = tokio::sync::mpsc::Receiver<RuntimeEvent>;

/// Bounded, non-blocking runtime event producer.
///
/// A full or closed channel drops the fact; runtime work never waits for its
/// consumers, who can obtain current truth from its normal status source.
#[derive(Clone, Debug)]
pub struct RuntimeEventSink {
    pub sender: Option<tokio::sync::mpsc::Sender<RuntimeEvent>>,
}

/// How many events the channel of `sender` holds at most: the capacity that it
/// was made with, which never changes.
pub uninterp spec fn room(sender: tokio::sync::mpsc::Sender<RuntimeEvent>) -> nat;

/// `tokio::sync::mpsc::channel`: both halves of a fresh channel that holds up
/// to `capacity` events. It panics on a capacity of zero, or on one above the
/// largest number of permits its semaphore takes, `usize::MAX / 8`.
#[verifier::external_body]
fn channel(capacity: usize) -> (halves: (
    tokio::sync::mpsc::Sender<RuntimeEvent>,
    tokio::sync::mpsc::Receiver<RuntimeEvent>,
))
    requires
        0 < capacity <= usize::MAX / 8,
    ensures
        room(halves.0) == capacity,
{
    tokio::sync::mpsc::channel(capacity)
}

/// `tokio::sync::mpsc::Sender::try_send`: whether the event was put into the
/// channel. Whether there was room, and whether a receiver was left, depends on
/// what the other half does meanwhile, so nothing is claimed of the answer.
#[verifier::external_body]
fn try_send(sender: &tokio::sync::mpsc::Sender<RuntimeEvent>, event: RuntimeEvent) -> (sent: bool) {
    sender.try_send(event).is_ok()
}

/// Whether a call of [`try_send`] that hands this event to the channel of this
/// sender may give this answer.
pub closed spec fn channel_answers(
    sender: tokio::sync::mpsc::Sender<RuntimeEvent>,
    event: RuntimeEvent,
    answer: bool,
) -> bool {
    call_ensures(try_send, (&sender, event), answer)
}

/// Whether a call of [`channel`] with this capacity may give these two, the
/// sender and the receiver of one channel.
pub closed spec fn are_halves(
    capacity: usize,
    sender: tokio::sync::mpsc::Sender<RuntimeEvent>,
    receiver: tokio::sync::mpsc::Receiver<RuntimeEvent>,
) -> bool {
    call_ensures(channel, (capacity,), (sender, receiver))
}

/// Makes a channel by way of `make`.
fn made_by<
    F: Fn(usize) -> (
        tokio::sync::mpsc::Sender<RuntimeEvent>,
        tokio::sync::mpsc::Receiver<RuntimeEvent>,
    ),
>(make: F, capacity: usize) -> (halves: (
    tokio::sync::mpsc::Sender<RuntimeEvent>,
    tokio::sync::mpsc::Receiver<RuntimeEvent>,
))
    requires
        call_requires(make, (capacity,)),
    ensures
        call_ensures(make, (capacity,), halves),
{
    make(capacity)
}

/// Hands an event to a sender by way of `send`, and gives its answer.
fn sent_by<F: Fn(&tokio::sync::mpsc::Sender<RuntimeEvent>, RuntimeEvent) -> bool>(
    send: F,
    sender: &tokio::sync::mpsc::Sender<RuntimeEvent>,
    event: RuntimeEvent,
) -> (sent: bool)
    requires
        call_requires(send, (sender, event)),
    ensures
        call_ensures(send, (sender, event), sent),
{
    send(sender, event)
}

impl RuntimeEventSink {
    /// A sink and the receiver of what it emits, with room for `capacity` events.
    pub fn bounded(capacity: usize) -> (halves: (Self, RuntimeEventReceiver))
        requires
            0 < capacity <= usize::MAX / 8,
        ensures
            halves.0.sender matches Some(sender) && room(sender) == capacity && are_halves(
                capacity,
                sender,
                halves.1,
            ),
    {
        let (sender, receiver) = made_by(channel, capacity);
        (RuntimeEventSink { sender: Some(sender) }, receiver)
    }

    /// A sink that drops every fact.
    pub fn discard() -> (sink: Self)
        ensures
            sink.sender is None,
    {
        RuntimeEventSink { sender: None }
    }

    /// Emits one fact without waiting for room, and says whether it was taken:
    /// this fact goes to this sink's channel, whose answer is handed on. A
    /// discarding sink takes none.
    pub fn emit(&self, event: RuntimeEvent) -> (taken: bool)
        ensures
            self.sender matches Some(sender) ==> channel_answers(sender, event, taken),
            self.sender is None ==> !taken,
    {
        match &self.sender {
            Some(sender) => sent_by(try_send, sender, event),
            None => false,
        }
    }
}

} // verus!
