//! The launch of a filesystem container, step by step. Whatever fails after
//! the container was started takes the container down again.
use crate::fs_runtime::docker::lockdown::assert_locked_down;
use crate::fs_runtime::docker::{
    ContainerBody, ContainerIdentityView, DockerContainerIdentity, DockerTarget, TargetView,
    FILESYSTEM_GUEST_LOCATION, MOUNT_READY_TIMEOUT,
};
use crate::fs_runtime::driver::{err_after_rollback, AttachAddress};
use crate::fs_runtime::events::{
    no_events, one_event, Artifact, ContainerState, FactView, ImageState, ImageStateView,
    RuntimeEvent, RuntimeStage, RuntimeState,
};
use crate::fs_runtime::image::{explain_pull_error, BuildChannel};
use crate::name::{FilesystemRuntime, FilesystemSpec, ResourceName, SpecView};
use crate::text::{concat, concat3, decimal};
use vstd::prelude::*;
use vstd::string::*;

verus! {

/// Where a launch stands.
#[derive(Clone, Copy, Debug, PartialEq, Eq, Structural)]
pub enum LaunchStage {
    Pinging,
    FindingBridge,
    InspectingImage,
    Pulling,
    InspectingExisting,
    RemovingExisting,
    Creating,
    Starting,
    Auditing,
    Confirming,
    AwaitingMount,
    /// The container is being removed because of a failure.
    Discarding,
    /// The confirmed container is being stopped because its mount never came.
    StoppingConfirmed,
    Ended,
}

/// What a launch asks to be done.
#[derive(Clone, Copy, Debug, PartialEq, Eq, Structural)]
pub enum LaunchAsk {
    /// Ping Docker.
    Ping,
    /// Find the address at which containers reach the host.
    FindBridge,
    InspectImage,
    PullImage,
    /// Look for a container of the stable name.
    InspectExisting,
    /// Stop and remove the container of the stable name.
    RemoveExisting,
    Create,
    Start,
    /// Read the mounts and the environment of the container.
    InspectLockdown,
    /// Prove the identity of the container.
    Confirm,
    /// Wait for the mount inside the container.
    AwaitMount,
    /// Stop the confirmed container.
    StopConfirmed,
    Done,
    Failed,
    /// The reply answers nothing that was asked.
    Stray,
}

/// Whether Docker has the image, and how old it says it is.
#[derive(Debug, PartialEq, Eq)]
pub enum ImageFound {
    Present { age: Option<String> },
    Missing,
}

/// What was done.
#[derive(Debug, PartialEq, Eq)]
pub enum LaunchReply {
    Pinged(Result<(), String>),
    /// The IPv4 address at which containers reach the host, and how it is
    /// shown.
    Bridge(Result<(u32, String), String>),
    Image(Result<ImageFound, String>),
    Pulled(Result<(), String>),
    Existing(Result<bool, String>),
    Removed(Result<(), String>),
    Created(Result<(), String>),
    Started(Result<(), String>),
    /// The number of mounts, and the environment.
    Lockdown(Result<(usize, Vec<String>), String>),
    Confirmed(Result<Option<DockerContainerIdentity>, String>),
    /// Whether the mount came in time.
    Mount(Result<bool, String>),
    Stopped(Result<(), String>),
}

/// The launch of one filesystem container.
#[derive(Debug, PartialEq, Eq)]
pub struct DockerLaunch {
    pub target: DockerTarget,
    pub home: String,
    pub filesystem: ResourceName,
    pub spec: FilesystemSpec,
    pub runtime_instance: String,
    pub attach: Option<AttachAddress>,
    pub channel: BuildChannel,
    pub add_host_gateway: bool,
    pub stage: LaunchStage,
    pub identity: Option<DockerContainerIdentity>,
    /// Why the launch failed, or will fail once it is rolled back.
    pub failure: String,
}

/// [`DockerLaunch`] by what it stands for.
#[verifier::ext_equal]
pub struct LaunchView {
    pub target: TargetView,
    pub home: Seq<char>,
    pub filesystem: Seq<char>,
    pub spec: SpecView,
    pub runtime_instance: Seq<char>,
    pub attach: Option<AttachAddress>,
    pub channel: BuildChannel,
    pub add_host_gateway: bool,
    pub stage: LaunchStage,
    pub identity: Option<ContainerIdentityView>,
    pub failure: Seq<char>,
}

/// An optional identity by what it spells.
pub open spec fn opt_identity(identity: Option<DockerContainerIdentity>) -> Option<
    ContainerIdentityView,
> {
    match identity {
        Some(identity) => Some(identity@),
        None => None,
    }
}

impl View for DockerLaunch {
    type V = LaunchView;

    open spec fn view(&self) -> LaunchView {
        LaunchView {
            target: self.target@,
            home: self.home@,
            filesystem: self.filesystem@,
            spec: self.spec@,
            runtime_instance: self.runtime_instance@,
            attach: self.attach,
            channel: self.channel,
            add_host_gateway: self.add_host_gateway,
            stage: self.stage,
            identity: opt_identity(self.identity),
            failure: self.failure@,
        }
    }
}

/// What to do next, and what to tell before it is done.
#[derive(Debug, PartialEq, Eq)]
pub struct LaunchStep {
    pub events: Vec<RuntimeEvent>,
    pub ask: LaunchAsk,
}

/// A launch, what it tells and what it asks.
pub struct LaunchStepView {
    pub launch: LaunchView,
    pub events: Seq<FactView>,
    pub ask: LaunchAsk,
}

/// At most one event.
pub open spec fn told(event: Option<FactView>) -> Seq<FactView> {
    match event {
        Some(event) => seq![event],
        None => seq![],
    }
}

impl LaunchView {
    /// The launch asks for something and tells of something.
    pub open spec fn at(
        self,
        stage: LaunchStage,
        event: Option<FactView>,
        ask: LaunchAsk,
    ) -> LaunchStepView {
        LaunchStepView { launch: LaunchView { stage, ..self }, events: told(event), ask }
    }

    /// The launch failed.
    pub open spec fn failed(self, text: Seq<char>) -> LaunchStepView {
        LaunchView { failure: text, ..self }.at(LaunchStage::Ended, None, LaunchAsk::Failed)
    }

    /// The launch failed after the container was started: the container goes
    /// first.
    pub open spec fn discarding(self, text: Seq<char>) -> LaunchStepView {
        LaunchView { failure: text, ..self }.at(
            LaunchStage::Discarding,
            None,
            LaunchAsk::RemoveExisting,
        )
    }

    /// The mount never came: the confirmed container goes first.
    pub open spec fn unmounted(self, text: Seq<char>) -> LaunchStepView {
        LaunchView { failure: text, ..self }.at(
            LaunchStage::StoppingConfirmed,
            None,
            LaunchAsk::StopConfirmed,
        )
    }

    /// What is told of the container.
    pub open spec fn container_fact(self, with_image: bool, state: ContainerState) -> FactView {
        FactView::Container {
            name: self.target.container_name,
            image: if with_image {
                Some(self.target.image)
            } else {
                None
            },
            state,
        }
    }

    /// What is told of the image.
    pub open spec fn image_fact(self, state: ImageStateView) -> FactView {
        FactView::Image {
            artifact: Artifact::FilesystemImage,
            reference: self.target.image,
            state,
        }
    }

    /// An error that names the container.
    pub open spec fn about(self, intro: Seq<char>, error: Seq<char>) -> Seq<char> {
        intro + self.target.container_name + "`: "@ + error
    }

    /// The launch begins.
    pub open spec fn begun(self) -> LaunchStepView {
        self.at(
            LaunchStage::Pinging,
            Some(
                FactView::Stage {
                    stage: RuntimeStage::StartContainer,
                    runtime: FilesystemRuntime::Docker,
                    filesystem: self.filesystem,
                    state: RuntimeState::Active,
                },
            ),
            LaunchAsk::Ping,
        )
    }

    /// What is wrong with where the daemon listens, if anything is: containers
    /// must reach it there.
    pub open spec fn attach_error(self, expected: u32, expected_text: Seq<char>) -> Option<Seq<char>> {
        match self.attach {
            None => Some("daemon has no TCP filesystem attach listener"@),
            Some(address) => if address.ipv4 != Some(expected) {
                Some(
                    "daemon attach listener is bound to "@ + address.text@
                        + ", but the Docker runtime reaches "@ + expected_text
                        + "; restart the daemon"@,
                )
            } else {
                None
            },
        }
    }

    /// Why an image that names no registry cannot be had.
    pub open spec fn local_image_error(self) -> Seq<char> {
        "image `"@ + self.target.image
            + "` is not present locally; run `just filesystem-image` to build it, or set `OMNIFS_FILESYSTEM_IMAGE` (or the profile's configured filesystem image): "@
            + self.channel.refusal()
    }

    /// The launch after a reply.
    pub open spec fn resumed(self, reply: LaunchReply) -> LaunchStepView {
        match (self.stage, reply) {
            (LaunchStage::Pinging, LaunchReply::Pinged(result)) => match result {
                Err(error) => self.failed(
                    "Docker daemon did not respond (is Docker running?): "@ + error@,
                ),
                Ok(_) => self.at(LaunchStage::FindingBridge, None, LaunchAsk::FindBridge),
            },
            (LaunchStage::FindingBridge, LaunchReply::Bridge(result)) => match result {
                Err(error) => self.failed(error@),
                Ok((expected, text)) => match self.attach_error(expected, text@) {
                    Some(error) => self.failed(error),
                    None => self.at(LaunchStage::InspectingImage, None, LaunchAsk::InspectImage),
                },
            },
            (LaunchStage::InspectingImage, LaunchReply::Image(result)) => match result {
                Err(error) => self.failed(
                    "inspect image `"@ + self.target.image + "`: "@ + error@,
                ),
                Ok(ImageFound::Present { age }) => self.at(
                    LaunchStage::InspectingExisting,
                    Some(
                        self.image_fact(
                            ImageStateView::Present {
                                age: if self.channel == BuildChannel::Dev {
                                    crate::text::opt_text(age)
                                } else {
                                    None
                                },
                            },
                        ),
                    ),
                    LaunchAsk::InspectExisting,
                ),
                Ok(ImageFound::Missing) => {
                    if crate::fs_runtime::image::names_registry(self.target.image) {
                        self.at(
                            LaunchStage::Pulling,
                            Some(self.image_fact(ImageStateView::Missing)),
                            LaunchAsk::PullImage,
                        )
                    } else {
                        LaunchStepView {
                            events: seq![self.image_fact(ImageStateView::Missing)],
                            ..self.failed(self.local_image_error())
                        }
                    }
                },
            },
            (LaunchStage::Pulling, LaunchReply::Pulled(result)) => match result {
                Err(error) => self.failed(
                    if crate::fs_runtime::image::says_missing(
                        error@,
                        crate::fs_runtime::image::lower_case_of(error@),
                    ) {
                        crate::fs_runtime::image::missing_image_text(self.target.image)
                    } else {
                        error@
                    },
                ),
                Ok(_) => self.at(
                    LaunchStage::InspectingExisting,
                    None,
                    LaunchAsk::InspectExisting,
                ),
            },
            (LaunchStage::InspectingExisting, LaunchReply::Existing(result)) => match result {
                Err(error) => self.failed(self.about("inspect container `"@, error@)),
                Ok(true) => self.at(
                    LaunchStage::RemovingExisting,
                    Some(self.container_fact(false, ContainerState::RemovingExisting)),
                    LaunchAsk::RemoveExisting,
                ),
                Ok(false) => LaunchStepView {
                    launch: LaunchView { stage: LaunchStage::Creating, ..self },
                    events: seq![
                        self.container_fact(false, ContainerState::Absent),
                        self.container_fact(true, ContainerState::Creating),
                    ],
                    ask: LaunchAsk::Create,
                },
            },
            (LaunchStage::RemovingExisting, LaunchReply::Removed(result)) => match result {
                Err(error) => self.failed(self.about("remove container `"@, error@)),
                Ok(_) => self.at(
                    LaunchStage::Creating,
                    Some(self.container_fact(true, ContainerState::Creating)),
                    LaunchAsk::Create,
                ),
            },
            (LaunchStage::Creating, LaunchReply::Created(result)) => match result {
                Err(error) => self.failed(self.about("create filesystem container `"@, error@)),
                Ok(_) => self.at(
                    LaunchStage::Starting,
                    Some(self.container_fact(true, ContainerState::Starting)),
                    LaunchAsk::Start,
                ),
            },
            (LaunchStage::Starting, LaunchReply::Started(result)) => match result {
                Err(error) => self.failed(self.about("start filesystem container `"@, error@)),
                Ok(_) => self.at(LaunchStage::Auditing, None, LaunchAsk::InspectLockdown),
            },
            (LaunchStage::Auditing, LaunchReply::Lockdown(result)) => match result {
                Err(error) => self.discarding(self.about("inspect container `"@, error@)),
                Ok((mounts, env)) => match crate::fs_runtime::docker::lockdown::violation(
                    mounts as nat,
                    crate::text::texts(env@),
                ) {
                    Some(violation) => self.discarding(
                        "refusing to run the filesystem container: "@ + violation,
                    ),
                    None => self.at(LaunchStage::Confirming, None, LaunchAsk::Confirm),
                },
            },
            (LaunchStage::Confirming, LaunchReply::Confirmed(result)) => match result {
                Err(error) => self.discarding(error@),
                Ok(None) => self.discarding(
                    "the launched filesystem container did not retain its exact identity"@,
                ),
                Ok(Some(identity)) => LaunchView { identity: Some(identity@), ..self }.at(
                    LaunchStage::AwaitingMount,
                    None,
                    LaunchAsk::AwaitMount,
                ),
            },
            (LaunchStage::AwaitingMount, LaunchReply::Mount(result)) => match result {
                Err(error) => self.unmounted(error@),
                Ok(false) => self.unmounted(
                    FILESYSTEM_GUEST_LOCATION@
                        + " did not appear inside the filesystem container within "@
                        + crate::text::decimal_text((MOUNT_READY_TIMEOUT / 1000) as nat) + "s"@,
                ),
                Ok(true) => self.at(
                    LaunchStage::Ended,
                    Some(
                        FactView::MountReady {
                            runtime: FilesystemRuntime::Docker,
                            filesystem: self.filesystem,
                            location: self.spec.location,
                            container: Some(self.target.container_name),
                        },
                    ),
                    LaunchAsk::Done,
                ),
            },
            (LaunchStage::Discarding, LaunchReply::Removed(_)) => self.failed(self.failure),
            (LaunchStage::StoppingConfirmed, LaunchReply::Stopped(cleanup)) => self.failed(
                crate::fs_runtime::driver::rolled_back_text(
                    self.failure,
                    crate::serving_reconciler::pass::result_of(cleanup),
                    "the failed filesystem container"@,
                ),
            ),
            _ => LaunchStepView { launch: self, events: seq![], ask: LaunchAsk::Stray },
        }
    }
}

impl DockerLaunch {
    /// Begins a launch.
    pub fn begin(
        target: DockerTarget,
        home: String,
        filesystem: ResourceName,
        spec: FilesystemSpec,
        runtime_instance: String,
        attach: Option<AttachAddress>,
        channel: BuildChannel,
        add_host_gateway: bool,
    ) -> (begun: (Self, LaunchStep))
        ensures
            ({
                let step = LaunchView {
                    target: target@,
                    home: home@,
                    filesystem: filesystem@,
                    spec: spec@,
                    runtime_instance: runtime_instance@,
                    attach,
                    channel,
                    add_host_gateway,
                    stage: LaunchStage::Pinging,
                    identity: None,
                    failure: Seq::empty(),
                }.begun();
                begun.0@ == step.launch && crate::list::views(begun.1.events@) == step.events && begun.1.ask
                    == step.ask
            }),
    {
        let event = RuntimeEvent::Stage {
            stage: RuntimeStage::StartContainer,
            runtime: FilesystemRuntime::Docker,
            filesystem: filesystem.clone(),
            state: RuntimeState::Active,
        };
        let launch = DockerLaunch {
            target,
            home,
            filesystem,
            spec,
            runtime_instance,
            attach,
            channel,
            add_host_gateway,
            stage: LaunchStage::Pinging,
            identity: None,
            failure: String::new(),
        };
        assert(launch.failure@ =~= Seq::<char>::empty());
        (launch, LaunchStep { events: one_event(event), ask: LaunchAsk::Ping })
    }

    /// What the container is created from.
    pub fn body(&self) -> (body: Option<ContainerBody>)
        ensures
            match body {
                Some(body) => self.attach matches Some(address) && body@
                    == crate::fs_runtime::docker::body_of(
                    self@.target,
                    self@.home,
                    self@.filesystem,
                    self@.spec,
                    self@.runtime_instance,
                    address.port,
                    self@.add_host_gateway,
                ),
                None => self.attach is None,
            },
    {
        match &self.attach {
            None => None,
            Some(address) => Some(
                self.target.build_filesystem_container_body(
                    self.home.as_str(),
                    &self.filesystem,
                    &self.spec,
                    self.runtime_instance.as_str(),
                    address.port,
                    self.add_host_gateway,
                ),
            ),
        }
    }

    fn go(&mut self, stage: LaunchStage, event: Option<RuntimeEvent>, ask: LaunchAsk) -> (step:
        LaunchStep)
        ensures
            final(self)@ == (LaunchView { stage, ..old(self)@ }),
            crate::list::views(step.events@) == told(
                match event {
                    Some(event) => Some(event@),
                    None => None,
                },
            ),
            step.ask == ask,
    {
        self.stage = stage;
        match event {
            Some(event) => LaunchStep { events: one_event(event), ask },
            None => LaunchStep { events: no_events(), ask },
        }
    }

    fn fail(&mut self, text: String) -> (step: LaunchStep)
        ensures
            final(self)@ == old(self)@.failed(text@).launch,
            crate::list::views(step.events@) == Seq::<FactView>::empty(),
            step.ask == LaunchAsk::Failed,
    {
        self.failure = text;
        self.stage = LaunchStage::Ended;
        LaunchStep { events: no_events(), ask: LaunchAsk::Failed }
    }

    fn discard(&mut self, text: String) -> (step: LaunchStep)
        ensures
            final(self)@ == old(self)@.discarding(text@).launch,
            crate::list::views(step.events@) == Seq::<FactView>::empty(),
            step.ask == LaunchAsk::RemoveExisting,
    {
        self.failure = text;
        self.stage = LaunchStage::Discarding;
        LaunchStep { events: no_events(), ask: LaunchAsk::RemoveExisting }
    }

    fn unmount(&mut self, text: String) -> (step: LaunchStep)
        ensures
            final(self)@ == old(self)@.unmounted(text@).launch,
            crate::list::views(step.events@) == Seq::<FactView>::empty(),
            step.ask == LaunchAsk::StopConfirmed,
    {
        self.failure = text;
        self.stage = LaunchStage::StoppingConfirmed;
        LaunchStep { events: no_events(), ask: LaunchAsk::StopConfirmed }
    }

    fn container_event(&self, with_image: bool, state: ContainerState) -> (event: RuntimeEvent)
        ensures
            event@ == self@.container_fact(with_image, state),
    {
        let image: Option<String> = if with_image {
            Some(self.target.image.as_str().to_owned())
        } else {
            None
        };
        RuntimeEvent::Container {
            name: self.target.container_name.as_str().to_owned(),
            image,
            state,
        }
    }

    fn image_event(&self, state: ImageState) -> (event: RuntimeEvent)
        ensures
            event@ == self@.image_fact(state@),
    {
        RuntimeEvent::Image {
            artifact: Artifact::FilesystemImage,
            reference: self.target.image.as_str().to_owned(),
            state,
        }
    }

    fn name_error(&self, intro: &str, error: &str) -> (text: String)
        ensures
            text@ == self@.about(intro@, error@),
    {
        let named = concat3(intro, self.target.container_name.as_str(), "`: ");
        concat(named.as_str(), error)
    }

    fn check_attach(&self, expected: u32, expected_text: &str) -> (checked: Result<(), String>)
        ensures
            match checked {
                Ok(_) => self@.attach_error(expected, expected_text@) is None,
                Err(text) => self@.attach_error(expected, expected_text@) == Some(text@),
            },
    {
        match &self.attach {
            None => Err("daemon has no TCP filesystem attach listener".to_owned()),
            Some(address) => {
                let reachable = match address.ipv4 {
                    Some(ip) => ip == expected,
                    None => false,
                };
                if reachable {
                    return Ok(());
                }
                let text = concat3(
                    "daemon attach listener is bound to ",
                    address.text.as_str(),
                    ", but the Docker runtime reaches ",
                );
                Err(concat3(text.as_str(), expected_text, "; restart the daemon"))
            },
        }
    }

    fn take_image(&mut self, found: ImageFound) -> (step: LaunchStep)
        requires
            old(self)@.stage == LaunchStage::InspectingImage,
        ensures
            final(self)@ == old(self)@.resumed(LaunchReply::Image(Ok(found))).launch,
            crate::list::views(step.events@) == old(self)@.resumed(
                LaunchReply::Image(Ok(found)),
            ).events,
            step.ask == old(self)@.resumed(LaunchReply::Image(Ok(found))).ask,
    {
        match found {
            ImageFound::Present { age } => {
                let shown: Option<String> = if self.channel == BuildChannel::Dev {
                    age
                } else {
                    None
                };
                let event = self.image_event(ImageState::Present { age: shown });
                self.go(LaunchStage::InspectingExisting, Some(event), LaunchAsk::InspectExisting)
            },
            ImageFound::Missing => {
                let event = self.image_event(ImageState::Missing);
                if self.target.image.has_registry() {
                    return self.go(LaunchStage::Pulling, Some(event), LaunchAsk::PullImage);
                }
                let text = concat3(
                    "image `",
                    self.target.image.as_str(),
                    "` is not present locally; run `just filesystem-image` to build it, or set `OMNIFS_FILESYSTEM_IMAGE` (or the profile's configured filesystem image): ",
                );
                let text = concat(text.as_str(), self.channel.pull_refusal_reason());
                let step = self.fail(text);
                LaunchStep { events: one_event(event), ask: step.ask }
            },
        }
    }

    /// Takes a reply and says what to tell and what to do next.
    pub fn resume(&mut self, reply: LaunchReply) -> (step: LaunchStep)
        ensures
            final(self)@ == old(self)@.resumed(reply).launch,
            crate::list::views(step.events@) == old(self)@.resumed(reply).events,
            step.ask == old(self)@.resumed(reply).ask,
    {
        match (self.stage, reply) {
            (LaunchStage::Pinging, LaunchReply::Pinged(result)) => match result {
                Err(error) => self.fail(
                    concat(
                        "Docker daemon did not respond (is Docker running?): ",
                        error.as_str(),
                    ),
                ),
                Ok(_) => self.go(LaunchStage::FindingBridge, None, LaunchAsk::FindBridge),
            },
            (LaunchStage::FindingBridge, LaunchReply::Bridge(result)) => match result {
                Err(error) => self.fail(error),
                Ok((expected, text)) => match self.check_attach(expected, text.as_str()) {
                    Err(error) => self.fail(error),
                    Ok(_) => self.go(LaunchStage::InspectingImage, None, LaunchAsk::InspectImage),
                },
            },
            (LaunchStage::InspectingImage, LaunchReply::Image(result)) => match result {
                Err(error) => {
                    let text = concat3("inspect image `", self.target.image.as_str(), "`: ");
                    self.fail(concat(text.as_str(), error.as_str()))
                },
                Ok(found) => self.take_image(found),
            },
            (LaunchStage::Pulling, LaunchReply::Pulled(result)) => match result {
                Err(error) => {
                    let text = explain_pull_error(&self.target.image, error);
                    self.fail(text)
                },
                Ok(_) => self.go(
                    LaunchStage::InspectingExisting,
                    None,
                    LaunchAsk::InspectExisting,
                ),
            },
            (LaunchStage::InspectingExisting, LaunchReply::Existing(result)) => match result {
                Err(error) => {
                    let text = self.name_error("inspect container `", error.as_str());
                    self.fail(text)
                },
                Ok(exists) => if exists {
                    let event = self.container_event(false, ContainerState::RemovingExisting);
                    self.go(LaunchStage::RemovingExisting, Some(event), LaunchAsk::RemoveExisting)
                } else {
                    let mut events = one_event(
                        self.container_event(false, ContainerState::Absent),
                    );
                    let creating = self.container_event(true, ContainerState::Creating);
                    let ghost before = crate::list::views(events@);
                    events.push(creating);
                    assert(crate::list::views(events@) =~= before.push(creating@));
                    assert(crate::list::views(events@) =~= seq![
                        self@.container_fact(false, ContainerState::Absent),
                        self@.container_fact(true, ContainerState::Creating),
                    ]);
                    self.stage = LaunchStage::Creating;
                    LaunchStep { events, ask: LaunchAsk::Create }
                },
            },
            (LaunchStage::RemovingExisting, LaunchReply::Removed(result)) => match result {
                Err(error) => {
                    let text = self.name_error("remove container `", error.as_str());
                    self.fail(text)
                },
                Ok(_) => {
                    let event = self.container_event(true, ContainerState::Creating);
                    self.go(LaunchStage::Creating, Some(event), LaunchAsk::Create)
                },
            },
            (LaunchStage::Creating, LaunchReply::Created(result)) => match result {
                Err(error) => {
                    let text = self.name_error("create filesystem container `", error.as_str());
                    self.fail(text)
                },
                Ok(_) => {
                    let event = self.container_event(true, ContainerState::Starting);
                    self.go(LaunchStage::Starting, Some(event), LaunchAsk::Start)
                },
            },
            (LaunchStage::Starting, LaunchReply::Started(result)) => match result {
                Err(error) => {
                    let text = self.name_error("start filesystem container `", error.as_str());
                    self.fail(text)
                },
                Ok(_) => self.go(LaunchStage::Auditing, None, LaunchAsk::InspectLockdown),
            },
            (LaunchStage::Auditing, LaunchReply::Lockdown(result)) => match result {
                Err(error) => {
                    let text = self.name_error("inspect container `", error.as_str());
                    self.discard(text)
                },
                Ok((mounts, env)) => match assert_locked_down(mounts, &env) {
                    Err(violation) => self.discard(
                        concat(
                            "refusing to run the filesystem container: ",
                            violation.as_str(),
                        ),
                    ),
                    Ok(_) => self.go(LaunchStage::Confirming, None, LaunchAsk::Confirm),
                },
            },
            (LaunchStage::Confirming, LaunchReply::Confirmed(result)) => match result {
                Err(error) => self.discard(error),
                Ok(None) => self.discard(
                    "the launched filesystem container did not retain its exact identity".to_owned(),
                ),
                Ok(Some(identity)) => {
                    self.identity = Some(identity);
                    self.go(LaunchStage::AwaitingMount, None, LaunchAsk::AwaitMount)
                },
            },
            (LaunchStage::AwaitingMount, LaunchReply::Mount(result)) => match result {
                Err(error) => self.unmount(error),
                Ok(mounted) => if mounted {
                    let event = RuntimeEvent::MountReady {
                        runtime: FilesystemRuntime::Docker,
                        filesystem: self.filesystem.clone(),
                        location: self.spec.location.clone(),
                        container: Some(self.target.container_name.as_str().to_owned()),
                    };
                    self.go(LaunchStage::Ended, Some(event), LaunchAsk::Done)
                } else {
                    let text = concat3(
                        FILESYSTEM_GUEST_LOCATION,
                        " did not appear inside the filesystem container within ",
                        decimal(MOUNT_READY_TIMEOUT / 1000).as_str(),
                    );
                    self.unmount(concat(text.as_str(), "s"))
                },
            },
            (LaunchStage::Discarding, LaunchReply::Removed(_)) => {
                let text = self.failure.clone();
                self.fail(text)
            },
            (LaunchStage::StoppingConfirmed, LaunchReply::Stopped(cleanup)) => {
                let primary = self.failure.clone();
                match err_after_rollback::<()>(
                    primary,
                    cleanup,
                    "the failed filesystem container",
                ) {
                    Err(text) => self.fail(text),
                    Ok(_) => LaunchStep { events: no_events(), ask: LaunchAsk::Stray },
                }
            },
            _ => LaunchStep { events: no_events(), ask: LaunchAsk::Stray },
        }
    }
}

/// Whether the container of a launch runs, as far as the launch knows.
pub open spec fn is_started(stage: LaunchStage) -> bool {
    match stage {
        LaunchStage::Auditing
        | LaunchStage::Confirming
        | LaunchStage::AwaitingMount
        | LaunchStage::Discarding
        | LaunchStage::StoppingConfirmed => true,
        _ => false,
    }
}

/// Once its container has been started, a launch fails only after the
/// container was asked to be removed or stopped.
pub proof fn a_failed_launch_takes_its_container_down(launch: LaunchView, reply: LaunchReply)
    requires
        is_started(launch.stage),
        launch.resumed(reply).ask == LaunchAsk::Failed,
    ensures
        launch.stage == LaunchStage::Discarding || launch.stage == LaunchStage::StoppingConfirmed,
{
}

/// A launch succeeds only with a container that passed the audit and was
/// confirmed: it is done only when it waited for the mount, waits only once it
/// holds the proved identity, and is confirmed only after a clean audit.
pub proof fn a_launch_succeeds_only_when_audited_and_confirmed(
    launch: LaunchView,
    reply: LaunchReply,
)
    ensures
        launch.resumed(reply).ask == LaunchAsk::Done ==> launch.stage == LaunchStage::AwaitingMount
            && (reply matches LaunchReply::Mount(Ok(mounted)) && mounted),
        launch.resumed(reply).ask == LaunchAsk::AwaitMount ==> launch.stage
            == LaunchStage::Confirming && (reply matches LaunchReply::Confirmed(Ok(Some(identity)))
            && launch.resumed(reply).launch.identity == Some(identity@)),
        launch.resumed(reply).ask == LaunchAsk::Confirm ==> launch.stage == LaunchStage::Auditing
            && (reply matches LaunchReply::Lockdown(Ok((mounts, env)))
            && crate::fs_runtime::docker::lockdown::violation(
            mounts as nat,
            crate::text::texts(env@),
        ) is None),
{
}

/// An image that names no registry is never pulled.
pub proof fn a_local_image_is_never_pulled(launch: LaunchView, reply: LaunchReply)
    requires
        launch.resumed(reply).ask == LaunchAsk::PullImage,
    ensures
        crate::fs_runtime::image::names_registry(launch.target.image),
{
}

/// The environment that a container is created with passes the audit that
/// follows its start.
pub proof fn a_fresh_container_passes_the_audit(
    target: TargetView,
    home: Seq<char>,
    filesystem: Seq<char>,
    spec: SpecView,
    runtime_instance: Seq<char>,
    attach_port: u16,
    add_host_gateway: bool,
)
    ensures
        ({
            let body = crate::fs_runtime::docker::body_of(
                target,
                home,
                filesystem,
                spec,
                runtime_instance,
                attach_port,
                add_host_gateway,
            );
            body.binds.len() == 0 && crate::fs_runtime::docker::lockdown::violation(
                body.binds.len(),
                body.env,
            ) is None
        }),
{
    let body = crate::fs_runtime::docker::body_of(
        target,
        home,
        filesystem,
        spec,
        runtime_instance,
        attach_port,
        add_host_gateway,
    );
    reveal_strlit("OMNIFS_ATTACH_ADDR");
    reveal_strlit("=host.docker.internal:");
    let name = crate::fs_runtime::docker::OMNIFS_ATTACH_ADDR_ENV@;
    let var = body.env[0];
    let at = name.len() as int;
    assert(var.take(at) =~= name);
    assert(forall|j: int| 0 <= j < at ==> #[trigger] var[j] == name[j]);
    assert(forall|j: int| 0 <= j < at ==> #[trigger] name[j] != '=');
    assert(var[at] == '=');
    crate::text::first_at_is_first(var, '=', at);
    assert(crate::fs_runtime::docker::lockdown::name_of(var) == name);
    crate::fs_runtime::docker::lockdown::a_locked_down_container_holds_nothing_else(0, body.env);
    assert(crate::fs_runtime::docker::lockdown::has_name(body.env, name));
}

} // verus!
