//! Repairs that a client asks for: a repair runs only for the offer that stands,
//! and the offer is withdrawn before it runs.
use crate::control::{
    grpc_internal, grpc_invalid, ControlError, ControlErrorCode, ControlPhase, DaemonRecovery,
    ErrorView, PhaseView, RecoveryId, RecoveryView, RepairAction,
};
use crate::text::same_text;
use vstd::prelude::*;

verus! {

/// A repair action as it is requested.
#[derive(Clone, Copy, Debug, PartialEq, Eq, Structural)]
pub enum RequestedAction {
    RecreateControlStore,
    Unspecified,
    Unknown,
}

/// A repair that a client asks for.
#[derive(Debug)]
pub struct RepairRequest {
    pub instance_id: String,
    pub recovery_id: Vec<u8>,
    pub action: RequestedAction,
}

/// A repair that is to run, with what the daemon showed before it.
#[derive(Debug)]
pub struct RepairCommand {
    pub recovery_id: RecoveryId,
    pub action: RepairAction,
    pub shown: DaemonRecovery,
}

/// Whether a recovery offers this repair under this identity.
pub open spec fn offers(recovery: RecoveryView, recovery_id: Seq<u8>, action: RepairAction) -> bool {
    recovery.repair matches Some(offer) && offer.id == recovery_id && offer.actions.contains(action)
}

/// Why a repair is refused, if it is.
pub open spec fn repair_refusal(
    phase: PhaseView,
    instance_id: Seq<char>,
    request: RepairRequest,
) -> Option<ErrorView> {
    if request.action == RequestedAction::Unknown {
        Some(crate::control::invalid("invalid repair action"@))
    } else if request.action == RequestedAction::Unspecified {
        Some(crate::control::invalid("repair action unspecified"@))
    } else if request.recovery_id@.len() != 16 {
        Some(crate::control::invalid("invalid "@ + "recovery id"@ + " length"@))
    } else {
        match phase {
            PhaseView::Recovery(recovery) => if request.instance_id@ == instance_id && offers(
                recovery,
                request.recovery_id@,
                RepairAction::RecreateControlStore,
            ) {
                None
            } else {
                Some(
                    ErrorView {
                        code: ControlErrorCode::Conflict,
                        message: "the recovery offer is stale or does not match this daemon"@,
                    },
                )
            },
            _ => Some(
                ErrorView {
                    code: ControlErrorCode::Conflict,
                    message: "the daemon is not offering state repair"@,
                },
            ),
        }
    }
}

impl ControlPhase {
    /// Takes up a repair that this phase offers. The daemon starts again with
    /// it, so that the same offer is not taken up twice.
    pub fn repair_state(&mut self, instance_id: &str, request: &RepairRequest) -> (command: Result<
        RepairCommand,
        ControlError,
    >)
        ensures
            match command {
                Ok(command) => repair_refusal(old(self)@, instance_id@, *request) is None
                    && final(self)@ is Starting && command.recovery_id@ == request.recovery_id@
                    && command.action == RepairAction::RecreateControlStore && old(self)@
                    == PhaseView::Recovery(command.shown@),
                Err(error) => repair_refusal(old(self)@, instance_id@, *request) == Some(error@)
                    && *final(self) == *old(self),
            },
    {
        let action = match request.action {
            RequestedAction::RecreateControlStore => RepairAction::RecreateControlStore,
            RequestedAction::Unspecified => return Err(grpc_invalid("repair action unspecified")),
            RequestedAction::Unknown => return Err(grpc_invalid("invalid repair action")),
        };
        let bytes = match crate::control::exact_bytes::<16>(
            request.recovery_id.as_slice(),
            "recovery id",
        ) {
            Ok(bytes) => bytes,
            Err(error) => return Err(error),
        };
        let recovery_id = RecoveryId { bytes };
        let shown = match self {
            ControlPhase::Recovery(recovery) => recovery.clone(),
            _ => return Err(
                ControlError::new(
                    ControlErrorCode::Conflict,
                    "the daemon is not offering state repair",
                ),
            ),
        };
        let offered = match &shown.repair {
            Some(offer) => offer.id.same(&recovery_id) && offer.allows(action),
            None => false,
        };
        if !same_text(request.instance_id.as_str(), instance_id) || !offered {
            return Err(
                ControlError::new(
                    ControlErrorCode::Conflict,
                    "the recovery offer is stale or does not match this daemon",
                ),
            );
        }
        *self = ControlPhase::Starting;
        Ok(RepairCommand { recovery_id, action, shown })
    }

    /// Shows the recovery again that a repair was taken up for and that no one
    /// was there to run.
    pub fn repair_not_sent(&mut self, shown: DaemonRecovery) -> (error: ControlError)
        ensures
            final(self)@ == PhaseView::Recovery(shown@),
            error@ == (ErrorView {
                code: ControlErrorCode::Internal,
                message: "daemon repair worker stopped"@,
            }),
    {
        *self = ControlPhase::Recovery(shown);
        grpc_internal("daemon repair worker stopped")
    }
}

/// What a repair brought about.
#[derive(Clone, Copy, Debug, PartialEq, Eq, Structural)]
pub enum RepairDisposition {
    FreshStoreCreated,
    CorruptStoreArchived,
}

/// What a client is told of a repair that ran.
#[derive(Debug)]
pub struct RepairReceipt {
    pub instance_id: String,
    pub recovery_id: RecoveryId,
    pub action: RepairAction,
    pub disposition: RepairDisposition,
}

/// What a client is told of a repair: what it brought about, or that it failed.
pub fn repair_reply(
    instance_id: &str,
    recovery_id: RecoveryId,
    action: RepairAction,
    outcome: Option<RepairDisposition>,
) -> (reply: Result<RepairReceipt, ControlError>)
    ensures
        match (reply, outcome) {
            (Ok(receipt), Some(disposition)) => receipt.instance_id@ == instance_id@
                && receipt.recovery_id == recovery_id && receipt.action == action
                && receipt.disposition == disposition,
            (Err(error), None) => error@ == (ErrorView {
                code: ControlErrorCode::Internal,
                message: "control store repair failed"@,
            }),
            _ => false,
        },
{
    match outcome {
        Some(disposition) => Ok(
            RepairReceipt { instance_id: instance_id.to_owned(), recovery_id, action, disposition },
        ),
        None => Err(ControlError::new(ControlErrorCode::Internal, "control store repair failed")),
    }
}

/// What a client is told of a repair whose reply was or was not handed over.
pub fn repair_answer(reply: Option<Result<RepairReceipt, ControlError>>) -> (answer: Result<
    RepairReceipt,
    ControlError,
>)
    ensures
        match reply {
            Some(reply) => answer == reply,
            None => answer matches Err(error) && error@ == (ErrorView {
                code: ControlErrorCode::Internal,
                message: "daemon repair worker dropped its reply"@,
            }),
        },
{
    match reply {
        Some(reply) => reply,
        None => Err(grpc_internal("daemon repair worker dropped its reply")),
    }
}

} // verus!
