//! The launch of a libkrun guest, step by step. What a launch created it takes
//! down again when it fails.
use crate::fs_runtime::docker::FILESYSTEM_GUEST_LOCATION;
use crate::fs_runtime::driver::err_after_rollback;
use crate::fs_runtime::events::{
    no_events, one_event, FactView, RuntimeEvent, RuntimeStage, RuntimeState,
};
use crate::fs_runtime::libkrun::seed::seed_conf;
use crate::fs_runtime::libkrun::{
    check_started, HelperRecord, LibkrunRunner, HELPER_RECORD_TIMEOUT, LAUNCH_READY_TIMEOUT,
};
use crate::name::{FilesystemRuntime, FilesystemSpec, ResourceName, SpecView};
use crate::text::{concat, concat3, decimal, trim};
use vstd::prelude::*;
use vstd::string::*;

verus! {

/// Where a launch stands.
#[derive(Clone, Copy, Debug, PartialEq, Eq, Structural)]
pub enum GuestStage {
    ResolvingImage,
    Probing,
    ReplacingStale,
    PreparingDir,
    Materializing,
    EnsuringKey,
    WritingSeed,
    BindingReady,
    Spawning,
    WaitingForRecord,
    Confirming,
    WaitingForReady,
    WaitingForSession,
    RollingBack,
    Ended,
}

/// What a launch asks to be done.
#[derive(Clone, Copy, Debug, PartialEq, Eq, Structural)]
pub enum GuestAsk {
    /// Find the immutable guest image.
    ResolveImage,
    /// Check that libkrun is installed.
    Probe,
    /// Tear down what an earlier launch left.
    ReplaceStale,
    /// Create the guest's directory, for its owner only.
    PrepareDir,
    /// Copy the guest image to a writable root disk.
    Materialize,
    /// Create the guest's key, if there is none, and read its public half.
    EnsureKey,
    WriteSeed,
    /// Listen for the guest's readiness.
    BindReady,
    SpawnHelper,
    WaitForRecord,
    /// Prove the identity of the helper.
    Confirm,
    WaitForReady,
    /// Wait for the session of the guest.
    WaitForSession,
    /// Tear down what this launch left.
    TearDown,
    Done,
    Failed,
    /// The reply answers nothing that was asked.
    Stray,
}

/// What was done.
#[derive(Debug, PartialEq, Eq)]
pub enum GuestReply {
    Image(Result<(), String>),
    Probed(Result<(), String>),
    Replaced(Result<(), String>),
    Prepared(Result<(), String>),
    Materialized(Result<(), String>),
    Key(Result<String, String>),
    Seeded(Result<(), String>),
    Bound(Result<(), String>),
    /// The number of the process that was started.
    Spawned(Result<u32, String>),
    Record(Result<HelperRecord, String>),
    Confirmed(Result<(), String>),
    /// Whether the guest was ready in time.
    Ready(Result<bool, String>),
    Session(Result<(), String>),
    TornDown(Result<(), String>),
}

/// The launch of one guest.
#[derive(Debug, PartialEq, Eq)]
pub struct GuestLaunch {
    pub runner: LibkrunRunner,
    pub filesystem: ResourceName,
    pub spec: FilesystemSpec,
    pub runtime_instance: String,
    pub attach_socket: Option<String>,
    pub stage: GuestStage,
    pub child: Option<u32>,
    pub ssh_pubkey: String,
    /// Why the launch failed, or will fail once it is rolled back.
    pub failure: String,
}

/// [`GuestLaunch`] by what it stands for.
pub struct GuestView {
    pub runner: LibkrunRunner,
    pub filesystem: Seq<char>,
    pub spec: SpecView,
    pub runtime_instance: Seq<char>,
    pub attach_socket: Option<Seq<char>>,
    pub stage: GuestStage,
    pub child: Option<u32>,
    pub ssh_pubkey: Seq<char>,
    pub failure: Seq<char>,
}

impl View for GuestLaunch {
    type V = GuestView;

    open spec fn view(&self) -> GuestView {
        GuestView {
            runner: self.runner,
            filesystem: self.filesystem@,
            spec: self.spec@,
            runtime_instance: self.runtime_instance@,
            attach_socket: crate::text::opt_text(self.attach_socket),
            stage: self.stage,
            child: self.child,
            ssh_pubkey: self.ssh_pubkey@,
            failure: self.failure@,
        }
    }
}

/// What to tell, and what to do next.
#[derive(Debug, PartialEq, Eq)]
pub struct GuestStep {
    pub events: Vec<RuntimeEvent>,
    pub ask: GuestAsk,
}

/// A launch, what it tells and what it asks.
pub struct GuestStepView {
    pub launch: GuestView,
    pub events: Seq<FactView>,
    pub ask: GuestAsk,
}

/// Whether a failure at this stage leaves something to take down.
pub open spec fn is_owner(stage: GuestStage) -> bool {
    match stage {
        GuestStage::ResolvingImage
        | GuestStage::Probing
        | GuestStage::ReplacingStale
        | GuestStage::Ended => false,
        _ => true,
    }
}

impl GuestView {
    /// The launch asks for something.
    pub open spec fn at(self, stage: GuestStage, events: Seq<FactView>, ask: GuestAsk) -> GuestStepView {
        GuestStepView { launch: GuestView { stage, ..self }, events, ask }
    }

    /// What is told of a stage.
    pub open spec fn fact(self, stage: RuntimeStage, state: RuntimeState) -> FactView {
        FactView::Stage {
            stage,
            runtime: FilesystemRuntime::Libkrun,
            filesystem: self.filesystem,
            state,
        }
    }

    /// The launch failed before it began.
    pub open spec fn refused(self, text: Seq<char>) -> GuestStepView {
        GuestView { failure: text, ..self }.at(GuestStage::Ended, seq![], GuestAsk::Failed)
    }

    /// The launch failed. What it owns is taken down first.
    pub open spec fn failing(self, text: Seq<char>) -> GuestStepView {
        let known = GuestView { failure: text, ..self };
        let told = seq![self.fact(RuntimeStage::Stop, RuntimeState::Stopping)];
        if is_owner(self.stage) {
            known.at(GuestStage::RollingBack, told, GuestAsk::TearDown)
        } else {
            known.at(GuestStage::Ended, told, GuestAsk::Failed)
        }
    }

    /// The next step of a launch, or its failure.
    pub open spec fn go_on(
        self,
        result: Result<(), String>,
        stage: GuestStage,
        ask: GuestAsk,
    ) -> GuestStepView {
        match result {
            Err(error) => self.failing(error@),
            Ok(_) => self.at(stage, seq![], ask),
        }
    }

    /// The launch after a reply.
    pub open spec fn resumed(self, reply: GuestReply) -> GuestStepView {
        match (self.stage, reply) {
            (GuestStage::ResolvingImage, GuestReply::Image(result)) => match result {
                Err(error) => self.refused(error@),
                Ok(_) => if self.attach_socket is None {
                    self.refused("daemon has no Unix filesystem attach listener"@)
                } else {
                    self.at(
                        GuestStage::Probing,
                        seq![self.fact(RuntimeStage::StartVm, RuntimeState::Active)],
                        GuestAsk::Probe,
                    )
                },
            },
            (GuestStage::Probing, GuestReply::Probed(result)) => self.go_on(
                result,
                GuestStage::ReplacingStale,
                GuestAsk::ReplaceStale,
            ),
            (GuestStage::ReplacingStale, GuestReply::Replaced(result)) => match result {
                Err(error) => self.failing(
                    "tear down a prior libkrun instance before relaunch: "@ + error@,
                ),
                Ok(_) => self.at(GuestStage::PreparingDir, seq![], GuestAsk::PrepareDir),
            },
            (GuestStage::PreparingDir, GuestReply::Prepared(result)) => match result {
                Err(error) => self.failing(error@),
                Ok(_) => match self.socket_error() {
                    Some(error) => self.failing(error),
                    None => self.at(
                        GuestStage::Materializing,
                        seq![self.fact(RuntimeStage::MaterializeImage, RuntimeState::Active)],
                        GuestAsk::Materialize,
                    ),
                },
            },
            (GuestStage::Materializing, GuestReply::Materialized(result)) => self.go_on(
                result,
                GuestStage::EnsuringKey,
                GuestAsk::EnsureKey,
            ),
            (GuestStage::EnsuringKey, GuestReply::Key(result)) => match result {
                Err(error) => self.failing(error@),
                Ok(key) => GuestView { ssh_pubkey: crate::text::trimmed(key@), ..self }.at(
                    GuestStage::WritingSeed,
                    seq![],
                    GuestAsk::WriteSeed,
                ),
            },
            (GuestStage::WritingSeed, GuestReply::Seeded(result)) => self.go_on(
                result,
                GuestStage::BindingReady,
                GuestAsk::BindReady,
            ),
            (GuestStage::BindingReady, GuestReply::Bound(result)) => self.go_on(
                result,
                GuestStage::Spawning,
                GuestAsk::SpawnHelper,
            ),
            (GuestStage::Spawning, GuestReply::Spawned(result)) => match result {
                Err(error) => self.failing(error@),
                Ok(pid) => GuestView { child: Some(pid), ..self }.at(
                    GuestStage::WaitingForRecord,
                    seq![],
                    GuestAsk::WaitForRecord,
                ),
            },
            (GuestStage::WaitingForRecord, GuestReply::Record(result)) => match result {
                Err(error) => self.failing(error@),
                Ok(record) => match self.child {
                    None => self.failing(
                        "libkrun child identity was lost before helper-record publication"@,
                    ),
                    Some(pid) => match crate::fs_runtime::libkrun::started_error(
                        record@,
                        pid,
                        self.spec,
                        self.runtime_instance,
                    ) {
                        Some(error) => self.failing(error),
                        None => self.at(GuestStage::Confirming, seq![], GuestAsk::Confirm),
                    },
                },
            },
            (GuestStage::Confirming, GuestReply::Confirmed(result)) => match result {
                Err(error) => self.failing(error@),
                Ok(_) => self.at(
                    GuestStage::WaitingForReady,
                    seq![self.fact(RuntimeStage::WaitForOsMount, RuntimeState::Active)],
                    GuestAsk::WaitForReady,
                ),
            },
            (GuestStage::WaitingForReady, GuestReply::Ready(result)) => match result {
                Err(error) => self.failing("read the libkrun readiness beacon: "@ + error@),
                Ok(false) => self.failing(
                    FILESYSTEM_GUEST_LOCATION@ + " did not appear inside the filesystem within "@
                        + crate::text::decimal_text((LAUNCH_READY_TIMEOUT / 1000) as nat) + "s"@,
                ),
                Ok(true) => self.at(
                    GuestStage::WaitingForSession,
                    seq![
                        self.fact(RuntimeStage::WaitForOsMount, RuntimeState::Ready),
                        self.fact(RuntimeStage::WaitForVfsSession, RuntimeState::Active),
                    ],
                    GuestAsk::WaitForSession,
                ),
            },
            (GuestStage::WaitingForSession, GuestReply::Session(result)) => match result {
                Err(error) => self.failing(error@),
                Ok(_) => self.at(
                    GuestStage::Ended,
                    seq![
                        self.fact(RuntimeStage::WaitForVfsSession, RuntimeState::Ready),
                        FactView::MountReady {
                            runtime: FilesystemRuntime::Libkrun,
                            filesystem: self.filesystem,
                            location: self.spec.location,
                            container: None,
                        },
                    ],
                    GuestAsk::Done,
                ),
            },
            (GuestStage::RollingBack, GuestReply::TornDown(cleanup)) => self.refused(
                crate::fs_runtime::driver::rolled_back_text(
                    self.failure,
                    crate::serving_reconciler::pass::result_of(cleanup),
                    "the failed libkrun launch"@,
                ),
            ),
            _ => GuestStepView { launch: self, events: seq![], ask: GuestAsk::Stray },
        }
    }

    /// What is wrong with the sockets of the launch, if anything is.
    pub open spec fn socket_error(self) -> Option<Seq<char>> {
        match self.attach_socket {
            None => Some("daemon has no Unix filesystem attach listener"@),
            Some(attach) => crate::fs_runtime::libkrun::first_uds_error(
                self.runner.socket_paths(attach),
            ),
        }
    }
}

fn two(first: RuntimeEvent, second: RuntimeEvent) -> (events: Vec<RuntimeEvent>)
    ensures
        crate::list::views(events@) == seq![first@, second@],
{
    let mut events: Vec<RuntimeEvent> = Vec::new();
    events.push(first);
    events.push(second);
    assert(crate::list::views(events@) =~= seq![first@, second@]);
    events
}

impl GuestLaunch {
    /// Begins a launch.
    pub fn begin(
        runner: LibkrunRunner,
        filesystem: ResourceName,
        spec: FilesystemSpec,
        runtime_instance: String,
        attach_socket: Option<String>,
    ) -> (begun: (Self, GuestAsk))
        ensures
            begun.0@ == (GuestView {
                runner,
                filesystem: filesystem@,
                spec: spec@,
                runtime_instance: runtime_instance@,
                attach_socket: crate::text::opt_text(attach_socket),
                stage: GuestStage::ResolvingImage,
                child: None,
                ssh_pubkey: Seq::empty(),
                failure: Seq::empty(),
            }),
            begun.1 == GuestAsk::ResolveImage,
    {
        let launch = GuestLaunch {
            runner,
            filesystem,
            spec,
            runtime_instance,
            attach_socket,
            stage: GuestStage::ResolvingImage,
            child: None,
            ssh_pubkey: String::new(),
            failure: String::new(),
        };
        assert(launch.ssh_pubkey@ =~= Seq::<char>::empty());
        assert(launch.failure@ =~= Seq::<char>::empty());
        (launch, GuestAsk::ResolveImage)
    }

    /// The text of the seed of this launch.
    pub fn seed(&self) -> (text: String)
        ensures
            text@ == crate::fs_runtime::libkrun::seed::seed_text(
                self@.filesystem,
                self@.spec,
                self@.runtime_instance,
                self@.ssh_pubkey,
            ),
    {
        seed_conf(
            &self.filesystem,
            &self.spec,
            self.runtime_instance.as_str(),
            self.ssh_pubkey.as_str(),
        )
    }

    fn event(&self, stage: RuntimeStage, state: RuntimeState) -> (event: RuntimeEvent)
        ensures
            event@ == self@.fact(stage, state),
    {
        RuntimeEvent::Stage {
            stage,
            runtime: FilesystemRuntime::Libkrun,
            filesystem: self.filesystem.clone(),
            state,
        }
    }

    fn go(&mut self, stage: GuestStage, events: Vec<RuntimeEvent>, ask: GuestAsk) -> (step: GuestStep)
        ensures
            final(self)@ == (GuestView { stage, ..old(self)@ }),
            step.events == events,
            step.ask == ask,
    {
        self.stage = stage;
        GuestStep { events, ask }
    }

    fn refuse(&mut self, text: String) -> (step: GuestStep)
        ensures
            final(self)@ == old(self)@.refused(text@).launch,
            crate::list::views(step.events@) == old(self)@.refused(text@).events,
            step.ask == GuestAsk::Failed,
    {
        self.failure = text;
        self.go(GuestStage::Ended, no_events(), GuestAsk::Failed)
    }

    fn fail(&mut self, text: String) -> (step: GuestStep)
        ensures
            final(self)@ == old(self)@.failing(text@).launch,
            crate::list::views(step.events@) == old(self)@.failing(text@).events,
            step.ask == old(self)@.failing(text@).ask,
    {
        let events = one_event(self.event(RuntimeStage::Stop, RuntimeState::Stopping));
        self.failure = text;
        match self.stage {
            GuestStage::ResolvingImage
            | GuestStage::Probing
            | GuestStage::ReplacingStale
            | GuestStage::Ended => self.go(GuestStage::Ended, events, GuestAsk::Failed),
            _ => self.go(GuestStage::RollingBack, events, GuestAsk::TearDown),
        }
    }

    fn next(&mut self, result: Result<(), String>, stage: GuestStage, ask: GuestAsk) -> (step:
        GuestStep)
        ensures
            final(self)@ == old(self)@.go_on(result, stage, ask).launch,
            crate::list::views(step.events@) == old(self)@.go_on(result, stage, ask).events,
            step.ask == old(self)@.go_on(result, stage, ask).ask,
    {
        match result {
            Err(error) => self.fail(error),
            Ok(_) => self.go(stage, no_events(), ask),
        }
    }

    fn check_sockets(&self) -> (checked: Result<(), String>)
        ensures
            match checked {
                Ok(_) => self@.socket_error() is None,
                Err(text) => self@.socket_error() == Some(text@),
            },
    {
        match &self.attach_socket {
            None => Err("daemon has no Unix filesystem attach listener".to_owned()),
            Some(attach) => self.runner.check_sockets(attach.as_str()),
        }
    }

    fn take_record(&mut self, record: HelperRecord) -> (step: GuestStep)
        requires
            old(self)@.stage == GuestStage::WaitingForRecord,
        ensures
            final(self)@ == old(self)@.resumed(GuestReply::Record(Ok(record))).launch,
            crate::list::views(step.events@) == old(self)@.resumed(
                GuestReply::Record(Ok(record)),
            ).events,
            step.ask == old(self)@.resumed(GuestReply::Record(Ok(record))).ask,
    {
        match self.child {
            None => self.fail(
                "libkrun child identity was lost before helper-record publication".to_owned(),
            ),
            Some(pid) => match check_started(
                &record,
                pid,
                &self.spec,
                self.runtime_instance.as_str(),
            ) {
                Err(text) => self.fail(text),
                Ok(_) => self.go(GuestStage::Confirming, no_events(), GuestAsk::Confirm),
            },
        }
    }

    /// Takes a reply and says what to tell and what to do next.
    pub fn resume(&mut self, reply: GuestReply) -> (step: GuestStep)
        ensures
            final(self)@ == old(self)@.resumed(reply).launch,
            crate::list::views(step.events@) == old(self)@.resumed(reply).events,
            step.ask == old(self)@.resumed(reply).ask,
    {
        match (self.stage, reply) {
            (GuestStage::ResolvingImage, GuestReply::Image(result)) => match result {
                Err(error) => self.refuse(error),
                Ok(_) => {
                    if self.attach_socket.is_none() {
                        return self.refuse(
                            "daemon has no Unix filesystem attach listener".to_owned(),
                        );
                    }
                    let events = one_event(self.event(RuntimeStage::StartVm, RuntimeState::Active));
                    self.go(GuestStage::Probing, events, GuestAsk::Probe)
                },
            },
            (GuestStage::Probing, GuestReply::Probed(result)) => self.next(
                result,
                GuestStage::ReplacingStale,
                GuestAsk::ReplaceStale,
            ),
            (GuestStage::ReplacingStale, GuestReply::Replaced(result)) => match result {
                Err(error) => self.fail(
                    concat(
                        "tear down a prior libkrun instance before relaunch: ",
                        error.as_str(),
                    ),
                ),
                Ok(_) => self.go(GuestStage::PreparingDir, no_events(), GuestAsk::PrepareDir),
            },
            (GuestStage::PreparingDir, GuestReply::Prepared(result)) => match result {
                Err(error) => self.fail(error),
                Ok(_) => match self.check_sockets() {
                    Err(error) => self.fail(error),
                    Ok(_) => {
                        let events = one_event(
                            self.event(RuntimeStage::MaterializeImage, RuntimeState::Active),
                        );
                        self.go(GuestStage::Materializing, events, GuestAsk::Materialize)
                    },
                },
            },
            (GuestStage::Materializing, GuestReply::Materialized(result)) => self.next(
                result,
                GuestStage::EnsuringKey,
                GuestAsk::EnsureKey,
            ),
            (GuestStage::EnsuringKey, GuestReply::Key(result)) => match result {
                Err(error) => self.fail(error),
                Ok(key) => {
                    self.ssh_pubkey = trim(key.as_str());
                    self.go(GuestStage::WritingSeed, no_events(), GuestAsk::WriteSeed)
                },
            },
            (GuestStage::WritingSeed, GuestReply::Seeded(result)) => self.next(
                result,
                GuestStage::BindingReady,
                GuestAsk::BindReady,
            ),
            (GuestStage::BindingReady, GuestReply::Bound(result)) => self.next(
                result,
                GuestStage::Spawning,
                GuestAsk::SpawnHelper,
            ),
            (GuestStage::Spawning, GuestReply::Spawned(result)) => match result {
                Err(error) => self.fail(error),
                Ok(pid) => {
                    self.child = Some(pid);
                    self.go(GuestStage::WaitingForRecord, no_events(), GuestAsk::WaitForRecord)
                },
            },
            (GuestStage::WaitingForRecord, GuestReply::Record(result)) => match result {
                Err(error) => self.fail(error),
                Ok(record) => self.take_record(record),
            },
            (GuestStage::Confirming, GuestReply::Confirmed(result)) => match result {
                Err(error) => self.fail(error),
                Ok(_) => {
                    let events = one_event(
                        self.event(RuntimeStage::WaitForOsMount, RuntimeState::Active),
                    );
                    self.go(GuestStage::WaitingForReady, events, GuestAsk::WaitForReady)
                },
            },
            (GuestStage::WaitingForReady, GuestReply::Ready(result)) => match result {
                Err(error) => self.fail(
                    concat("read the libkrun readiness beacon: ", error.as_str()),
                ),
                Ok(ready) => if ready {
                    let events = two(
                        self.event(RuntimeStage::WaitForOsMount, RuntimeState::Ready),
                        self.event(RuntimeStage::WaitForVfsSession, RuntimeState::Active),
                    );
                    self.go(GuestStage::WaitingForSession, events, GuestAsk::WaitForSession)
                } else {
                    let text = concat3(
                        FILESYSTEM_GUEST_LOCATION,
                        " did not appear inside the filesystem within ",
                        decimal(LAUNCH_READY_TIMEOUT / 1000).as_str(),
                    );
                    self.fail(concat(text.as_str(), "s"))
                },
            },
            (GuestStage::WaitingForSession, GuestReply::Session(result)) => match result {
                Err(error) => self.fail(error),
                Ok(_) => {
                    let ready = RuntimeEvent::MountReady {
                        runtime: FilesystemRuntime::Libkrun,
                        filesystem: self.filesystem.clone(),
                        location: self.spec.location.clone(),
                        container: None,
                    };
                    let events = two(
                        self.event(RuntimeStage::WaitForVfsSession, RuntimeState::Ready),
                        ready,
                    );
                    self.go(GuestStage::Ended, events, GuestAsk::Done)
                },
            },
            (GuestStage::RollingBack, GuestReply::TornDown(cleanup)) => {
                let primary = self.failure.clone();
                match err_after_rollback::<()>(primary, cleanup, "the failed libkrun launch") {
                    Err(text) => self.refuse(text),
                    Ok(_) => GuestStep { events: no_events(), ask: GuestAsk::Stray },
                }
            },
            _ => GuestStep { events: no_events(), ask: GuestAsk::Stray },
        }
    }
}

/// What is told of a helper that exited before it published its record.
pub fn exited_before_record(status: &str, pidfile: &str, tail: &str) -> (text: String)
    ensures
        text@ == "omnifs-libkrun exited with "@ + status@ + " before publishing "@ + pidfile@
            + ";\n"@ + tail@,
{
    let text = concat3("omnifs-libkrun exited with ", status, " before publishing ");
    let text = concat3(text.as_str(), pidfile, ";\n");
    concat(text.as_str(), tail)
}

/// What is told of a helper that did not publish its record in time.
pub fn record_timeout(pidfile: &str, tail: &str) -> (text: String)
    ensures
        text@ == "omnifs-libkrun did not publish "@ + pidfile@ + " within "@
            + crate::text::decimal_text((HELPER_RECORD_TIMEOUT / 1000) as nat) + "s;\n"@ + tail@,
{
    let text = concat3("omnifs-libkrun did not publish ", pidfile, " within ");
    let text = concat3(
        text.as_str(),
        decimal(HELPER_RECORD_TIMEOUT / 1000).as_str(),
        "s;\n",
    );
    concat(text.as_str(), tail)
}

/// What is told of a helper that exited before its guest was ready.
pub fn exited_before_ready(status: &str, tail: &str) -> (text: String)
    ensures
        text@ == "omnifs-libkrun exited with "@ + status@ + " before guest readiness;\n"@ + tail@,
{
    let text = concat3("omnifs-libkrun exited with ", status, " before guest readiness;\n");
    concat(text.as_str(), tail)
}

/// Whether what came through the readiness socket says that the guest is
/// ready.
pub fn is_ready_beacon(bytes: &[u8]) -> (ready: bool)
    ensures
        ready == (bytes@.len() >= 5 && bytes@[0] == 114 && bytes@[1] == 101 && bytes@[2] == 97
            && bytes@[3] == 100 && bytes@[4] == 121),
{
    bytes.len() >= 5 && bytes[0] == 114 && bytes[1] == 101 && bytes[2] == 97 && bytes[3] == 100
        && bytes[4] == 121
}

/// A launch that owns something fails only after it was taken down; one that
/// owns nothing yet takes nothing down.
pub proof fn a_failed_launch_takes_down_what_it_owns(launch: GuestView, reply: GuestReply)
    ensures
        launch.resumed(reply).ask == GuestAsk::Failed ==> !is_owner(launch.stage) || launch.stage
            == GuestStage::RollingBack,
        launch.resumed(reply).ask == GuestAsk::TearDown ==> is_owner(launch.stage),
{
}

/// A launch succeeds only after the helper proved its identity, the guest was
/// ready and its session came.
pub proof fn a_guest_is_ready_only_with_its_session(launch: GuestView, reply: GuestReply)
    ensures
        launch.resumed(reply).ask == GuestAsk::Done ==> launch.stage
            == GuestStage::WaitingForSession && (reply matches GuestReply::Session(result)
            && result is Ok),
        launch.resumed(reply).ask == GuestAsk::WaitForSession ==> launch.stage
            == GuestStage::WaitingForReady && (reply matches GuestReply::Ready(Ok(ready)) && ready),
        launch.resumed(reply).ask == GuestAsk::WaitForReady ==> launch.stage
            == GuestStage::Confirming && (reply matches GuestReply::Confirmed(result)
            && result is Ok),
        launch.resumed(reply).ask == GuestAsk::Confirm ==> (reply matches GuestReply::Record(
            Ok(record),
        ) && launch.child == Some(record.pid) && crate::name::same_spec(record@.spec, launch.spec)
            && record@.instance_id == launch.runtime_instance),
{
}

} // verus!
