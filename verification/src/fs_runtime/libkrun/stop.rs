//! The teardown of a libkrun guest: nothing is removed before the helper of
//! exactly the recorded identity is gone.
use crate::fs_runtime::identity::{ensure_identity_unchanged, Identity};
use crate::fs_runtime::libkrun::{
    HelperRecord, HelperView, CHILD_EXIT_TIMEOUT, CHILD_KILL_TIMEOUT, DETACHED_EXIT_TIMEOUT,
};
use crate::text::{concat, concat3, decimal};
use vstd::prelude::*;

verus! {

/// Where a teardown stands.
#[derive(Clone, Copy, Debug, PartialEq, Eq, Structural)]
pub enum TeardownStage {
    ReadingRecord,
    CheckingAlive,
    Confirming,
    RequestingShutdown,
    CheckingShutdown,
    WaitingForChild,
    Killing,
    WaitingForKilled,
    WaitingForDetached,
    ReadingRecordAgain,
    Removing,
    Ended,
}

/// What a teardown asks to be done.
#[derive(Clone, Copy, Debug, PartialEq, Eq, Structural)]
pub enum TeardownAsk {
    ReadRecord,
    /// Whether the recorded process lives.
    CheckAlive,
    /// Prove the identity of the helper.
    Confirm,
    /// Ask the helper of exactly this identity to shut down.
    RequestShutdown,
    /// Wait this many milliseconds for the own child to exit.
    WaitForChild { millis: u64 },
    KillChild,
    /// Wait for the helper to be gone, which is no child.
    WaitForDetached,
    /// Remove what the launch left.
    RemoveArtifacts,
    Done,
    Failed,
    /// The reply answers nothing that was asked.
    Stray,
}

/// What was done.
#[derive(Debug, PartialEq, Eq)]
pub enum TeardownReply {
    Record(Result<Option<HelperRecord>, String>),
    Alive(bool),
    Confirmed(Result<(), String>),
    ShutdownRequested(Result<(), String>),
    /// Whether the child exited in time.
    ChildExited(Result<bool, String>),
    Killed(Result<(), String>),
    DetachedExited(Result<(), String>),
    Removed,
}

/// The teardown of one guest.
#[derive(Debug, PartialEq, Eq)]
pub struct Teardown {
    /// The identity that was proved before, if there was one.
    pub expected: Option<HelperRecord>,
    /// The process that was started by the launch that is torn down, if any.
    pub child: Option<u32>,
    pub record: Option<HelperRecord>,
    pub shutdown_error: Option<String>,
    pub stage: TeardownStage,
    /// Why the teardown failed.
    pub failure: String,
}

/// [`Teardown`] by what it stands for.
pub struct TeardownView {
    pub expected: Option<HelperView>,
    pub child: Option<u32>,
    pub record: Option<HelperView>,
    pub shutdown_error: Option<Seq<char>>,
    pub stage: TeardownStage,
    pub failure: Seq<char>,
}

/// An optional record by what it spells.
pub open spec fn opt_helper(record: Option<HelperRecord>) -> Option<HelperView> {
    match record {
        Some(record) => Some(record@),
        None => None,
    }
}

impl View for Teardown {
    type V = TeardownView;

    open spec fn view(&self) -> TeardownView {
        TeardownView {
            expected: opt_helper(self.expected),
            child: self.child,
            record: opt_helper(self.record),
            shutdown_error: crate::text::opt_text(self.shutdown_error),
            stage: self.stage,
            failure: self.failure@,
        }
    }
}

/// Whether a record is not that of the helper that is expected, if one is.
pub open spec fn is_replaced(expected: Option<HelperView>, record: Option<HelperView>) -> bool {
    match (expected, record) {
        (Some(expected), Some(record)) => !crate::fs_runtime::libkrun::same_helper(
            record,
            expected,
        ),
        (Some(_), None) => true,
        (None, _) => false,
    }
}

impl TeardownView {
    /// The teardown asks for something.
    pub open spec fn at(self, stage: TeardownStage, ask: TeardownAsk) -> (TeardownView, TeardownAsk) {
        (TeardownView { stage, ..self }, ask)
    }

    /// The teardown failed; everything is left as it is.
    pub open spec fn failed(self, text: Seq<char>) -> (TeardownView, TeardownAsk) {
        TeardownView { failure: text, ..self }.at(TeardownStage::Ended, TeardownAsk::Failed)
    }

    /// The helper is waited for.
    pub open spec fn waiting(self) -> (TeardownView, TeardownAsk) {
        if self.child is Some {
            self.at(
                TeardownStage::WaitingForChild,
                TeardownAsk::WaitForChild { millis: CHILD_EXIT_TIMEOUT },
            )
        } else {
            self.at(TeardownStage::WaitingForDetached, TeardownAsk::WaitForDetached)
        }
    }

    /// The helper is gone; its record must be too.
    pub open spec fn exited(self) -> (TeardownView, TeardownAsk) {
        self.at(TeardownStage::ReadingRecordAgain, TeardownAsk::ReadRecord)
    }

    /// The teardown after a reply.
    pub open spec fn resumed(self, reply: TeardownReply) -> (TeardownView, TeardownAsk) {
        match (self.stage, reply) {
            (TeardownStage::ReadingRecord, TeardownReply::Record(result)) => match result {
                Err(error) => self.failed(error@),
                Ok(record) => if is_replaced(self.expected, opt_helper(record)) {
                    self.failed(crate::fs_runtime::identity::changed_text("libkrun helper"@))
                } else {
                    let known = TeardownView { record: opt_helper(record), ..self };
                    if record is Some {
                        known.at(TeardownStage::CheckingAlive, TeardownAsk::CheckAlive)
                    } else if self.child is Some {
                        known.waiting()
                    } else {
                        known.at(TeardownStage::Ended, TeardownAsk::Done)
                    }
                },
            },
            (TeardownStage::CheckingAlive, TeardownReply::Alive(alive)) => if alive {
                self.at(TeardownStage::Confirming, TeardownAsk::Confirm)
            } else {
                self.waiting()
            },
            (TeardownStage::Confirming, TeardownReply::Confirmed(result)) => match result {
                Err(error) => self.failed(error@),
                Ok(_) => self.at(TeardownStage::RequestingShutdown, TeardownAsk::RequestShutdown),
            },
            (
                TeardownStage::RequestingShutdown,
                TeardownReply::ShutdownRequested(result),
            ) => TeardownView {
                shutdown_error: match result {
                    Err(error) => Some(
                        "request identity-matched libkrun shutdown: "@ + error@,
                    ),
                    Ok(_) => None,
                },
                ..self
            }.at(TeardownStage::CheckingShutdown, TeardownAsk::CheckAlive),
            (TeardownStage::CheckingShutdown, TeardownReply::Alive(alive)) => match (
                alive,
                self.shutdown_error,
            ) {
                (true, Some(error)) => self.failed(error),
                _ => self.waiting(),
            },
            (TeardownStage::WaitingForChild, TeardownReply::ChildExited(result)) => match result {
                Err(error) => self.failed(error@),
                Ok(true) => self.exited(),
                Ok(false) => self.at(TeardownStage::Killing, TeardownAsk::KillChild),
            },
            (TeardownStage::Killing, TeardownReply::Killed(result)) => match result {
                Err(error) => self.failed(
                    "kill directly-owned libkrun child "@ + self.child_text() + ": "@ + error@,
                ),
                Ok(_) => self.at(
                    TeardownStage::WaitingForKilled,
                    TeardownAsk::WaitForChild { millis: CHILD_KILL_TIMEOUT },
                ),
            },
            (TeardownStage::WaitingForKilled, TeardownReply::ChildExited(result)) => match result {
                Err(error) => self.failed(error@),
                Ok(true) => self.exited(),
                Ok(false) => self.failed(
                    "directly-owned libkrun child "@ + self.child_text()
                        + " remained live after termination; recovery identity was preserved"@,
                ),
            },
            (TeardownStage::WaitingForDetached, TeardownReply::DetachedExited(result)) => match result {
                Err(error) => self.failed(error@),
                Ok(_) => self.exited(),
            },
            (TeardownStage::ReadingRecordAgain, TeardownReply::Record(result)) => match result {
                Err(error) => self.failed(error@),
                Ok(Some(_)) => TeardownView { child: None, ..self }.failed(
                    "libkrun helper exited without removing its identity record; recovery artifacts were preserved"@,
                ),
                Ok(None) => TeardownView { child: None, ..self }.at(
                    TeardownStage::Removing,
                    TeardownAsk::RemoveArtifacts,
                ),
            },
            (TeardownStage::Removing, TeardownReply::Removed) => self.at(
                TeardownStage::Ended,
                TeardownAsk::Done,
            ),
            _ => (self, TeardownAsk::Stray),
        }
    }

    /// The number of the own child.
    pub open spec fn child_text(self) -> Seq<char> {
        match self.child {
            Some(pid) => crate::text::decimal_text(pid as nat),
            None => Seq::empty(),
        }
    }
}

impl Teardown {
    /// Begins a teardown.
    pub fn begin(expected: Option<HelperRecord>, child: Option<u32>) -> (begun: (Self, TeardownAsk))
        ensures
            begun.0@ == (TeardownView {
                expected: opt_helper(expected),
                child,
                record: None,
                shutdown_error: None,
                stage: TeardownStage::ReadingRecord,
                failure: Seq::empty(),
            }),
            begun.1 == TeardownAsk::ReadRecord,
    {
        let failure = String::new();
        assert(failure@ =~= Seq::<char>::empty());
        (
            Teardown {
                expected,
                child,
                record: None,
                shutdown_error: None,
                stage: TeardownStage::ReadingRecord,
                failure,
            },
            TeardownAsk::ReadRecord,
        )
    }

    fn go(&mut self, stage: TeardownStage, ask: TeardownAsk) -> (next: TeardownAsk)
        ensures
            final(self)@ == old(self)@.at(stage, ask).0,
            next == ask,
    {
        self.stage = stage;
        ask
    }

    fn fail(&mut self, text: String) -> (next: TeardownAsk)
        ensures
            final(self)@ == old(self)@.failed(text@).0,
            next == TeardownAsk::Failed,
    {
        self.failure = text;
        self.stage = TeardownStage::Ended;
        TeardownAsk::Failed
    }

    fn wait(&mut self) -> (next: TeardownAsk)
        ensures
            final(self)@ == old(self)@.waiting().0,
            next == old(self)@.waiting().1,
    {
        if self.child.is_some() {
            self.go(
                TeardownStage::WaitingForChild,
                TeardownAsk::WaitForChild { millis: CHILD_EXIT_TIMEOUT },
            )
        } else {
            self.go(TeardownStage::WaitingForDetached, TeardownAsk::WaitForDetached)
        }
    }

    fn child_words(&self) -> (text: String)
        ensures
            text@ == self@.child_text(),
    {
        match self.child {
            Some(pid) => decimal(pid as u64),
            None => {
                let text = String::new();
                assert(text@ =~= Seq::<char>::empty());
                text
            },
        }
    }

    fn take_record(&mut self, record: Option<HelperRecord>) -> (next: TeardownAsk)
        requires
            old(self)@.stage == TeardownStage::ReadingRecord,
        ensures
            final(self)@ == old(self)@.resumed(TeardownReply::Record(Ok(record))).0,
            next == old(self)@.resumed(TeardownReply::Record(Ok(record))).1,
    {
        if let Some(expected) = &self.expected {
            let checked = match &record {
                Some(record) => ensure_identity_unchanged(
                    Some(record),
                    expected,
                    "libkrun helper",
                ),
                None => ensure_identity_unchanged(None, expected, "libkrun helper"),
            };
            if let Err(text) = checked {
                return self.fail(text);
            }
        }
        let recorded = record.is_some();
        self.record = record;
        if recorded {
            self.go(TeardownStage::CheckingAlive, TeardownAsk::CheckAlive)
        } else if self.child.is_some() {
            self.wait()
        } else {
            self.go(TeardownStage::Ended, TeardownAsk::Done)
        }
    }

    /// Takes a reply and says what to do next.
    pub fn resume(&mut self, reply: TeardownReply) -> (next: TeardownAsk)
        ensures
            final(self)@ == old(self)@.resumed(reply).0,
            next == old(self)@.resumed(reply).1,
    {
        match (self.stage, reply) {
            (TeardownStage::ReadingRecord, TeardownReply::Record(result)) => match result {
                Err(error) => self.fail(error),
                Ok(record) => self.take_record(record),
            },
            (TeardownStage::CheckingAlive, TeardownReply::Alive(alive)) => if alive {
                self.go(TeardownStage::Confirming, TeardownAsk::Confirm)
            } else {
                self.wait()
            },
            (TeardownStage::Confirming, TeardownReply::Confirmed(result)) => match result {
                Err(error) => self.fail(error),
                Ok(_) => self.go(TeardownStage::RequestingShutdown, TeardownAsk::RequestShutdown),
            },
            (TeardownStage::RequestingShutdown, TeardownReply::ShutdownRequested(result)) => {
                self.shutdown_error = match result {
                    Err(error) => Some(
                        concat("request identity-matched libkrun shutdown: ", error.as_str()),
                    ),
                    Ok(_) => None,
                };
                self.go(TeardownStage::CheckingShutdown, TeardownAsk::CheckAlive)
            },
            (TeardownStage::CheckingShutdown, TeardownReply::Alive(alive)) => {
                if alive {
                    let error = self.shutdown_error.clone();
                    if let Some(error) = error {
                        return self.fail(error);
                    }
                }
                self.wait()
            },
            (TeardownStage::WaitingForChild, TeardownReply::ChildExited(result)) => match result {
                Err(error) => self.fail(error),
                Ok(exited) => if exited {
                    self.go(TeardownStage::ReadingRecordAgain, TeardownAsk::ReadRecord)
                } else {
                    self.go(TeardownStage::Killing, TeardownAsk::KillChild)
                },
            },
            (TeardownStage::Killing, TeardownReply::Killed(result)) => match result {
                Err(error) => {
                    let child = self.child_words();
                    let text = concat3(
                        "kill directly-owned libkrun child ",
                        child.as_str(),
                        ": ",
                    );
                    self.fail(concat(text.as_str(), error.as_str()))
                },
                Ok(_) => self.go(
                    TeardownStage::WaitingForKilled,
                    TeardownAsk::WaitForChild { millis: CHILD_KILL_TIMEOUT },
                ),
            },
            (TeardownStage::WaitingForKilled, TeardownReply::ChildExited(result)) => match result {
                Err(error) => self.fail(error),
                Ok(exited) => if exited {
                    self.go(TeardownStage::ReadingRecordAgain, TeardownAsk::ReadRecord)
                } else {
                    let child = self.child_words();
                    self.fail(
                        concat3(
                            "directly-owned libkrun child ",
                            child.as_str(),
                            " remained live after termination; recovery identity was preserved",
                        ),
                    )
                },
            },
            (TeardownStage::WaitingForDetached, TeardownReply::DetachedExited(result)) => match result {
                Err(error) => self.fail(error),
                Ok(_) => self.go(TeardownStage::ReadingRecordAgain, TeardownAsk::ReadRecord),
            },
            (TeardownStage::ReadingRecordAgain, TeardownReply::Record(result)) => match result {
                Err(error) => self.fail(error),
                Ok(record) => {
                    self.child = None;
                    if record.is_some() {
                        self.fail(
                            "libkrun helper exited without removing its identity record; recovery artifacts were preserved".to_owned(),
                        )
                    } else {
                        self.go(TeardownStage::Removing, TeardownAsk::RemoveArtifacts)
                    }
                },
            },
            (TeardownStage::Removing, TeardownReply::Removed) => self.go(
                TeardownStage::Ended,
                TeardownAsk::Done,
            ),
            _ => TeardownAsk::Stray,
        }
    }
}

/// Nothing is removed before the record is gone, and the record is looked for
/// only once the helper has exited.
pub proof fn nothing_is_removed_before_the_helper_is_gone(
    teardown: TeardownView,
    reply: TeardownReply,
)
    ensures
        teardown.resumed(reply).1 == TeardownAsk::RemoveArtifacts ==> teardown.stage
            == TeardownStage::ReadingRecordAgain && (reply matches TeardownReply::Record(Ok(record))
            && record is None),
        teardown.resumed(reply).0.stage == TeardownStage::ReadingRecordAgain && teardown.stage
            != TeardownStage::ReadingRecordAgain ==> {
            ||| (reply matches TeardownReply::ChildExited(Ok(exited)) && exited)
            ||| (reply matches TeardownReply::DetachedExited(result) && result is Ok)
        },
{
}

/// A helper is asked to shut down only after its identity was proved, and only
/// an own child is ever killed.
pub proof fn only_a_proved_helper_is_stopped(teardown: TeardownView, reply: TeardownReply)
    ensures
        teardown.resumed(reply).1 == TeardownAsk::RequestShutdown ==> teardown.stage
            == TeardownStage::Confirming && (reply matches TeardownReply::Confirmed(result)
            && result is Ok),
        teardown.resumed(reply).1 == TeardownAsk::KillChild ==> teardown.stage
            == TeardownStage::WaitingForChild,
        teardown.resumed(reply).0.stage == TeardownStage::WaitingForChild && teardown.stage
            != TeardownStage::WaitingForChild ==> teardown.child is Some,
{
}

/// A guest that was replaced is not touched: where another identity was
/// proved, the teardown ends at once.
pub proof fn a_replaced_guest_is_left_alone(
    teardown: TeardownView,
    record: Option<HelperRecord>,
)
    requires
        teardown.stage == TeardownStage::ReadingRecord,
        is_replaced(teardown.expected, opt_helper(record)),
    ensures
        teardown.resumed(TeardownReply::Record(Ok(record))).1 == TeardownAsk::Failed,
{
}

/// Without a record and without an own child nothing is done at all.
pub proof fn an_unknown_guest_is_left_alone(teardown: TeardownView)
    requires
        teardown.stage == TeardownStage::ReadingRecord,
        teardown.child is None,
        teardown.expected is None,
    ensures
        teardown.resumed(TeardownReply::Record(Ok(None))).1 == TeardownAsk::Done,
{
}

/// What a look at a helper that is waited for calls for.
#[derive(Clone, Copy, Debug, PartialEq, Eq, Structural)]
pub enum DetachedStep {
    /// It is gone.
    Gone,
    /// It still runs.
    Wait,
    /// It has exited and left its record, which is removed.
    RemoveRecord,
}

/// Judges a look at a helper that is waited for: its record may only be its
/// own, and is removed once the process has exited.
pub fn detached_step(
    current: Option<&HelperRecord>,
    expected: &HelperRecord,
    alive: bool,
) -> (step: Result<DetachedStep, String>)
    ensures
        match (current, step) {
            (None, Ok(step)) => step == DetachedStep::Gone,
            (Some(current), Ok(step)) => crate::fs_runtime::libkrun::same_helper(
                current@,
                expected@,
            ) && step == (if alive {
                DetachedStep::Wait
            } else {
                DetachedStep::RemoveRecord
            }),
            (Some(current), Err(text)) => !crate::fs_runtime::libkrun::same_helper(
                current@,
                expected@,
            ) && text@
                == "libkrun helper identity changed while waiting for shutdown; recovery artifacts were preserved"@,
            _ => false,
        },
{
    match current {
        None => Ok(DetachedStep::Gone),
        Some(current) => {
            if !current.is_same(expected) {
                return Err(
                    "libkrun helper identity changed while waiting for shutdown; recovery artifacts were preserved".to_owned(),
                );
            }
            if alive {
                Ok(DetachedStep::Wait)
            } else {
                Ok(DetachedStep::RemoveRecord)
            }
        },
    }
}

/// What is told of a helper that was not gone in time.
pub fn detached_timeout() -> (text: String)
    ensures
        text@ == "identity-matched libkrun helper did not finish shutdown within "@
            + crate::text::decimal_text((DETACHED_EXIT_TIMEOUT / 1000) as nat)
            + "s; recovery artifacts were preserved"@,
{
    concat3(
        "identity-matched libkrun helper did not finish shutdown within ",
        decimal(DETACHED_EXIT_TIMEOUT / 1000).as_str(),
        "s; recovery artifacts were preserved",
    )
}

} // verus!
