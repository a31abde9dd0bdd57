//! The local control protocol: in which phase the daemon answers what, and
//! with which errors.
use crate::name::ResourceRevision;
use crate::text::{concat3, same_bytes};
use vstd::prelude::*;

pub mod answer_laws;
pub mod connection;
pub mod laws;
pub mod repair;
pub mod request;
pub mod upload;

verus! {

/// How many control connections are served at a time.
pub const CONTROL_CONNECTION_LIMIT: usize = 64;

/// How long a peer may take to open its connection, in milliseconds.
pub const CONTROL_PREFACE_TIMEOUT: u64 = 2_000;

/// How long the upload of a provider may take, in milliseconds.
pub const PROVIDER_UPLOAD_TIMEOUT: u64 = 120_000;

/// Why a request was refused.
#[derive(Clone, Copy, Debug, PartialEq, Eq, Structural)]
pub enum ControlErrorCode {
    InvalidRequest,
    UnsupportedApiVersion,
    InvalidResource,
    DesiredDigestMismatch,
    PlanTooLarge,
    Busy,
    NotReady,
    RecoveryRequired,
    Conflict,
    StaleBaseRevision,
    MutationIdReuseMismatch,
    ActionIdReuseMismatch,
    NotFound,
    MissingProviderArtifact,
    ActionUnavailable,
    AlreadyExists,
    Internal,
}

/// The status codes of the transport.
#[derive(Clone, Copy, Debug, PartialEq, Eq, Structural)]
pub enum StatusCode {
    InvalidArgument,
    ResourceExhausted,
    FailedPrecondition,
    Aborted,
    NotFound,
    AlreadyExists,
    Internal,
}

/// The status code that an error travels with.
pub open spec fn status_code(code: ControlErrorCode) -> StatusCode {
    match code {
        ControlErrorCode::InvalidRequest
        | ControlErrorCode::UnsupportedApiVersion
        | ControlErrorCode::InvalidResource
        | ControlErrorCode::DesiredDigestMismatch
        | ControlErrorCode::PlanTooLarge => StatusCode::InvalidArgument,
        ControlErrorCode::Busy => StatusCode::ResourceExhausted,
        ControlErrorCode::NotReady | ControlErrorCode::RecoveryRequired => {
            StatusCode::FailedPrecondition
        },
        ControlErrorCode::Conflict
        | ControlErrorCode::StaleBaseRevision
        | ControlErrorCode::MutationIdReuseMismatch
        | ControlErrorCode::ActionIdReuseMismatch => StatusCode::Aborted,
        ControlErrorCode::NotFound
        | ControlErrorCode::MissingProviderArtifact
        | ControlErrorCode::ActionUnavailable => StatusCode::NotFound,
        ControlErrorCode::AlreadyExists => StatusCode::AlreadyExists,
        ControlErrorCode::Internal => StatusCode::Internal,
    }
}

/// The status code that an error travels with.
pub fn grpc_code(code: ControlErrorCode) -> (status: StatusCode)
    ensures
        status == status_code(code),
{
    match code {
        ControlErrorCode::InvalidRequest
        | ControlErrorCode::UnsupportedApiVersion
        | ControlErrorCode::InvalidResource
        | ControlErrorCode::DesiredDigestMismatch
        | ControlErrorCode::PlanTooLarge => StatusCode::InvalidArgument,
        ControlErrorCode::Busy => StatusCode::ResourceExhausted,
        ControlErrorCode::NotReady | ControlErrorCode::RecoveryRequired => {
            StatusCode::FailedPrecondition
        },
        ControlErrorCode::Conflict
        | ControlErrorCode::StaleBaseRevision
        | ControlErrorCode::MutationIdReuseMismatch
        | ControlErrorCode::ActionIdReuseMismatch => StatusCode::Aborted,
        ControlErrorCode::NotFound
        | ControlErrorCode::MissingProviderArtifact
        | ControlErrorCode::ActionUnavailable => StatusCode::NotFound,
        ControlErrorCode::AlreadyExists => StatusCode::AlreadyExists,
        ControlErrorCode::Internal => StatusCode::Internal,
    }
}

/// An error that a request is answered with.
#[derive(Debug, PartialEq, Eq)]
pub struct ControlError {
    pub code: ControlErrorCode,
    pub message: String,
}

/// [`ControlError`] by what it spells.
pub struct ErrorView {
    pub code: ControlErrorCode,
    pub message: Seq<char>,
}

impl View for ControlError {
    type V = ErrorView;

    open spec fn view(&self) -> ErrorView {
        ErrorView { code: self.code, message: self.message@ }
    }
}

/// An error of the request itself.
pub open spec fn invalid(message: Seq<char>) -> ErrorView {
    ErrorView { code: ControlErrorCode::InvalidRequest, message }
}

impl ControlError {
    pub fn new(code: ControlErrorCode, message: &str) -> (error: Self)
        ensures
            error@ == (ErrorView { code, message: message@ }),
    {
        ControlError { code, message: message.to_owned() }
    }
}

/// A request that cannot be read.
pub fn grpc_invalid(message: &str) -> (error: ControlError)
    ensures
        error@ == invalid(message@),
{
    ControlError::new(ControlErrorCode::InvalidRequest, message)
}

/// A request that failed inside the daemon.
pub fn grpc_internal(message: &str) -> (error: ControlError)
    ensures
        error@ == (ErrorView { code: ControlErrorCode::Internal, message: message@ }),
{
    ControlError::new(ControlErrorCode::Internal, message)
}

/// A result by the view of its error.
pub open spec fn refusal<T>(result: Result<T, ControlError>) -> Result<T, ErrorView> {
    match result {
        Ok(value) => Ok(value),
        Err(error) => Err(error@),
    }
}

/// A field that a request has to carry.
pub fn required<T>(value: Option<T>, name: &str) -> (found: Result<T, ControlError>)
    ensures
        refusal(found) == (match value {
            Some(value) => Ok::<T, ErrorView>(value),
            None => Err(invalid("missing required field `"@ + name@ + "`"@)),
        }),
{
    match value {
        Some(value) => Ok(value),
        None => Err(grpc_invalid(concat3("missing required field `", name, "`").as_str())),
    }
}

/// Reading a slice as an array by `TryFrom` succeeds exactly where the lengths
/// agree, and keeps the bytes.
#[verifier::external_body]
fn array_of<const N: usize>(value: &[u8]) -> (array: Option<[u8; N]>)
    ensures
        match array {
            Some(array) => array@ == value@,
            None => value@.len() != N,
        },
{
    value.try_into().ok()
}

/// A field that is exactly so many bytes.
pub fn exact_bytes<const N: usize>(value: &[u8], name: &str) -> (array: Result<
    [u8; N],
    ControlError,
>)
    ensures
        match array {
            Ok(array) => value@.len() == N && array@ == value@,
            Err(error) => value@.len() != N && error@ == invalid(
                "invalid "@ + name@ + " length"@,
            ),
        },
{
    match array_of::<N>(value) {
        Some(array) => Ok(array),
        None => Err(grpc_invalid(concat3("invalid ", name, " length").as_str())),
    }
}

/// Why a declaration could not be read.
#[derive(Clone, Copy, Debug, PartialEq, Eq, Structural)]
pub enum DeclarationError {
    UnsupportedApiVersion,
    TooManyResources,
    Other,
}

/// The error that an unreadable declaration is answered with.
pub fn resource_grpc_error(kind: DeclarationError, message: &str) -> (error: ControlError)
    ensures
        error@ == (ErrorView {
            code: match kind {
                DeclarationError::UnsupportedApiVersion => ControlErrorCode::UnsupportedApiVersion,
                DeclarationError::TooManyResources => ControlErrorCode::PlanTooLarge,
                DeclarationError::Other => ControlErrorCode::InvalidRequest,
            },
            message: message@,
        }),
{
    let code = match kind {
        DeclarationError::UnsupportedApiVersion => ControlErrorCode::UnsupportedApiVersion,
        DeclarationError::TooManyResources => ControlErrorCode::PlanTooLarge,
        DeclarationError::Other => ControlErrorCode::InvalidRequest,
    };
    ControlError::new(code, message)
}

/// How a part of the daemon is doing.
#[derive(Clone, Copy, Debug, PartialEq, Eq, Structural)]
pub enum HealthState {
    Healthy,
    Starting,
    Degraded,
    Unhealthy,
}

/// How a part of the daemon is doing, and why.
#[derive(Debug, PartialEq, Eq)]
pub struct HealthReport {
    pub state: HealthState,
    pub detail: String,
}

/// [`HealthReport`] by what it spells.
pub struct HealthView {
    pub state: HealthState,
    pub detail: Seq<char>,
}

impl View for HealthReport {
    type V = HealthView;

    open spec fn view(&self) -> HealthView {
        HealthView { state: self.state, detail: self.detail@ }
    }
}

impl HealthReport {
    pub fn new(state: HealthState, detail: &str) -> (report: Self)
        ensures
            report@ == (HealthView { state, detail: detail@ }),
    {
        HealthReport { state, detail: detail.to_owned() }
    }
}

impl Clone for HealthReport {
    fn clone(&self) -> (copy: Self)
        ensures
            copy == *self,
    {
        HealthReport { state: self.state, detail: self.detail.clone() }
    }
}

/// The phase that the daemon shows.
#[derive(Clone, Copy, Debug, PartialEq, Eq, Structural)]
pub enum DaemonPhase {
    Starting,
    Ready,
    RecoveryRequired,
}

/// One offer of repair.
#[derive(Clone, Copy, Debug, PartialEq, Eq)]
pub struct RecoveryId {
    pub bytes: [u8; 16],
}

impl View for RecoveryId {
    type V = Seq<u8>;

    open spec fn view(&self) -> Seq<u8> {
        self.bytes@
    }
}

impl RecoveryId {
    /// Whether both are the same offer.
    pub fn same(&self, other: &Self) -> (same: bool)
        ensures
            same == (self@ == other@),
    {
        same_bytes(self.bytes.as_slice(), other.bytes.as_slice())
    }
}

/// What a repair does.
#[derive(Clone, Copy, Debug, PartialEq, Eq, Structural)]
pub enum RepairAction {
    RecreateControlStore,
}

/// A repair that the daemon offers: the offer's identity, and the actions that
/// it allows.
#[derive(Debug, PartialEq, Eq)]
pub struct RecoveryOffer {
    pub id: RecoveryId,
    pub actions: Vec<RepairAction>,
}

/// [`RecoveryOffer`] by what it holds.
pub struct OfferView {
    pub id: Seq<u8>,
    pub actions: Seq<RepairAction>,
}

impl View for RecoveryOffer {
    type V = OfferView;

    open spec fn view(&self) -> OfferView {
        OfferView { id: self.id@, actions: self.actions@ }
    }
}

/// An offer by what it holds, where one is made.
pub open spec fn opt_offer(offer: Option<RecoveryOffer>) -> Option<OfferView> {
    match offer {
        Some(offer) => Some(offer@),
        None => None,
    }
}

impl Clone for RecoveryOffer {
    fn clone(&self) -> (copy: Self)
        ensures
            copy@ == self@,
    {
        let mut actions: Vec<RepairAction> = Vec::new();
        let mut i: usize = 0;
        while i < self.actions.len()
            invariant
                i <= self.actions@.len(),
                actions@ == self.actions@.take(i as int),
            decreases self.actions@.len() - i,
        {
            actions.push(self.actions[i]);
            assert(actions@ =~= self.actions@.take(i + 1));
            i = i + 1;
        }
        assert(actions@ =~= self.actions@);
        RecoveryOffer { id: self.id, actions }
    }
}

impl RecoveryOffer {
    /// Whether the offer allows an action.
    pub fn allows(&self, action: RepairAction) -> (allowed: bool)
        ensures
            allowed == self@.actions.contains(action),
    {
        let mut i: usize = 0;
        while i < self.actions.len()
            invariant
                i <= self.actions@.len(),
                forall|j: int| 0 <= j < i ==> self.actions@[j] != action,
            decreases self.actions@.len() - i,
        {
            if self.actions[i] == action {
                assert(self.actions@.contains(self.actions@[i as int]));
                return true;
            }
            i = i + 1;
        }
        false
    }
}

/// What the daemon shows while it is being recovered.
#[derive(Debug, PartialEq, Eq)]
pub struct DaemonRecovery {
    pub phase: DaemonPhase,
    pub durable_revision: Option<ResourceRevision>,
    pub serving_revision: Option<ResourceRevision>,
    pub store_health: HealthReport,
    pub repair: Option<RecoveryOffer>,
}

/// [`DaemonRecovery`] by what it spells.
pub struct RecoveryView {
    pub phase: DaemonPhase,
    pub durable_revision: Option<ResourceRevision>,
    pub serving_revision: Option<ResourceRevision>,
    pub store_health: HealthView,
    pub repair: Option<OfferView>,
}

impl View for DaemonRecovery {
    type V = RecoveryView;

    open spec fn view(&self) -> RecoveryView {
        RecoveryView {
            phase: self.phase,
            durable_revision: self.durable_revision,
            serving_revision: self.serving_revision,
            store_health: self.store_health@,
            repair: opt_offer(self.repair),
        }
    }
}

impl Clone for DaemonRecovery {
    fn clone(&self) -> (copy: Self)
        ensures
            copy@ == self@,
    {
        DaemonRecovery {
            phase: self.phase,
            durable_revision: self.durable_revision,
            serving_revision: self.serving_revision,
            store_health: self.store_health.clone(),
            repair: match &self.repair {
                Some(offer) => Some(offer.clone()),
                None => None,
            },
        }
    }
}

/// How far the daemon has come.
#[derive(Debug, PartialEq, Eq)]
pub enum ControlPhase {
    Starting,
    Ready,
    Recovery(DaemonRecovery),
    ShuttingDown,
}

/// [`ControlPhase`] by what it spells.
pub enum PhaseView {
    Starting,
    Ready,
    Recovery(RecoveryView),
    ShuttingDown,
}

impl View for ControlPhase {
    type V = PhaseView;

    open spec fn view(&self) -> PhaseView {
        match self {
            ControlPhase::Starting => PhaseView::Starting,
            ControlPhase::Ready => PhaseView::Ready,
            ControlPhase::Recovery(recovery) => PhaseView::Recovery(recovery@),
            ControlPhase::ShuttingDown => PhaseView::ShuttingDown,
        }
    }
}

/// What a request gets that needs the serving runtime.
pub open spec fn gate(phase: PhaseView) -> Option<ErrorView> {
    match phase {
        PhaseView::Ready => None,
        PhaseView::Starting => Some(
            ErrorView { code: ControlErrorCode::NotReady, message: "daemon is starting"@ },
        ),
        PhaseView::Recovery(_) => Some(
            ErrorView {
                code: ControlErrorCode::RecoveryRequired,
                message: "daemon recovery is required"@,
            },
        ),
        PhaseView::ShuttingDown => Some(stopping()),
    }
}

/// The answer of a daemon that shuts down.
pub open spec fn stopping() -> ErrorView {
    ErrorView { code: ControlErrorCode::NotReady, message: "daemon is shutting down"@ }
}

/// What a phase shows itself; none where the serving runtime has to be asked.
pub open spec fn shown_recovery(phase: PhaseView) -> Result<Option<RecoveryView>, ErrorView> {
    match phase {
        PhaseView::Starting => Ok(
            Some(
                RecoveryView {
                    phase: DaemonPhase::Starting,
                    durable_revision: None,
                    serving_revision: None,
                    store_health: HealthView {
                        state: HealthState::Degraded,
                        detail: "daemon is starting"@,
                    },
                    repair: None,
                },
            ),
        ),
        PhaseView::Recovery(recovery) => Ok(Some(recovery)),
        PhaseView::Ready => Ok(None),
        PhaseView::ShuttingDown => Err(stopping()),
    }
}

/// What is known of a daemon that does not serve.
#[derive(Debug)]
pub struct IdleInventory {
    pub phase: DaemonPhase,
    pub durable_revision: Option<ResourceRevision>,
    pub serving_revision: Option<ResourceRevision>,
    pub control: HealthReport,
    pub namespace: HealthReport,
    pub store: HealthReport,
}

/// [`IdleInventory`] by what it spells.
pub struct IdleView {
    pub phase: DaemonPhase,
    pub durable_revision: Option<ResourceRevision>,
    pub serving_revision: Option<ResourceRevision>,
    pub control: HealthView,
    pub namespace: HealthView,
    pub store: HealthView,
}

impl View for IdleInventory {
    type V = IdleView;

    open spec fn view(&self) -> IdleView {
        IdleView {
            phase: self.phase,
            durable_revision: self.durable_revision,
            serving_revision: self.serving_revision,
            control: self.control@,
            namespace: self.namespace@,
            store: self.store@,
        }
    }
}

/// The inventory that a phase shows itself; none where the serving runtime has
/// to be asked.
pub open spec fn shown_inventory(phase: PhaseView) -> Result<Option<IdleView>, ErrorView> {
    match phase {
        PhaseView::Starting => Ok(
            Some(
                IdleView {
                    phase: DaemonPhase::Starting,
                    durable_revision: None,
                    serving_revision: None,
                    control: HealthView {
                        state: HealthState::Healthy,
                        detail: "control socket available"@,
                    },
                    namespace: HealthView {
                        state: HealthState::Starting,
                        detail: "namespace endpoints unavailable"@,
                    },
                    store: HealthView {
                        state: HealthState::Degraded,
                        detail: "daemon is starting"@,
                    },
                },
            ),
        ),
        PhaseView::Recovery(recovery) => Ok(
            Some(
                IdleView {
                    phase: recovery.phase,
                    durable_revision: recovery.durable_revision,
                    serving_revision: recovery.serving_revision,
                    control: HealthView {
                        state: HealthState::Healthy,
                        detail: "control socket available"@,
                    },
                    namespace: HealthView {
                        state: HealthState::Unhealthy,
                        detail: "namespace endpoints unavailable"@,
                    },
                    store: recovery.store_health,
                },
            ),
        ),
        PhaseView::Ready => Ok(None),
        PhaseView::ShuttingDown => Err(stopping()),
    }
}

/// An optional value by its view.
pub open spec fn opt_view<T: View>(value: Option<T>) -> Option<T::V> {
    match value {
        Some(value) => Some(value@),
        None => None,
    }
}

/// A result with an optional value, by its views.
pub open spec fn answer<T: View>(result: Result<Option<T>, ControlError>) -> Result<
    Option<T::V>,
    ErrorView,
> {
    match result {
        Ok(value) => Ok(opt_view(value)),
        Err(error) => Err(error@),
    }
}

impl ControlPhase {
    /// Whether the serving runtime may be used, or the error a request gets in
    /// this phase.
    pub fn ready(&self) -> (ready: Result<(), ControlError>)
        ensures
            match ready {
                Ok(()) => gate(self@) is None,
                Err(error) => gate(self@) == Some(error@),
            },
    {
        match self {
            ControlPhase::Ready => Ok(()),
            ControlPhase::Starting => Err(
                ControlError::new(ControlErrorCode::NotReady, "daemon is starting"),
            ),
            ControlPhase::Recovery(_) => Err(
                ControlError::new(
                    ControlErrorCode::RecoveryRequired,
                    "daemon recovery is required",
                ),
            ),
            ControlPhase::ShuttingDown => Err(ControlPhase::shutting_down()),
        }
    }

    /// The answer of a daemon that shuts down.
    pub fn shutting_down() -> (error: ControlError)
        ensures
            error@ == stopping(),
    {
        ControlError::new(ControlErrorCode::NotReady, "daemon is shutting down")
    }

    /// What this phase shows of a recovery; none where the serving runtime has
    /// to be asked.
    pub fn recovery(&self) -> (recovery: Result<Option<DaemonRecovery>, ControlError>)
        ensures
            answer(recovery) == shown_recovery(self@),
    {
        match self {
            ControlPhase::Starting => Ok(
                Some(
                    DaemonRecovery {
                        phase: DaemonPhase::Starting,
                        durable_revision: None,
                        serving_revision: None,
                        store_health: HealthReport::new(
                            HealthState::Degraded,
                            "daemon is starting",
                        ),
                        repair: None,
                    },
                ),
            ),
            ControlPhase::Recovery(recovery) => Ok(Some(recovery.clone())),
            ControlPhase::Ready => Ok(None),
            ControlPhase::ShuttingDown => Err(ControlPhase::shutting_down()),
        }
    }

    /// The inventory that this phase shows; none where the serving runtime has
    /// to be asked.
    pub fn inventory(&self) -> (inventory: Result<Option<IdleInventory>, ControlError>)
        ensures
            answer(inventory) == shown_inventory(self@),
    {
        match self {
            ControlPhase::Starting => Ok(
                Some(
                    IdleInventory {
                        phase: DaemonPhase::Starting,
                        durable_revision: None,
                        serving_revision: None,
                        control: HealthReport::new(
                            HealthState::Healthy,
                            "control socket available",
                        ),
                        namespace: HealthReport::new(
                            HealthState::Starting,
                            "namespace endpoints unavailable",
                        ),
                        store: HealthReport::new(HealthState::Degraded, "daemon is starting"),
                    },
                ),
            ),
            ControlPhase::Recovery(recovery) => Ok(
                Some(
                    IdleInventory {
                        phase: recovery.phase,
                        durable_revision: recovery.durable_revision,
                        serving_revision: recovery.serving_revision,
                        control: HealthReport::new(
                            HealthState::Healthy,
                            "control socket available",
                        ),
                        namespace: HealthReport::new(
                            HealthState::Unhealthy,
                            "namespace endpoints unavailable",
                        ),
                        store: recovery.store_health.clone(),
                    },
                ),
            ),
            ControlPhase::Ready => Ok(None),
            ControlPhase::ShuttingDown => Err(ControlPhase::shutting_down()),
        }
    }

    /// Whether the attach endpoints are shown: only a serving daemon has them.
    pub fn shows_endpoints(&self) -> (shown: bool)
        ensures
            shown == (self@ is Ready),
    {
        match self {
            ControlPhase::Ready => true,
            ControlPhase::Starting | ControlPhase::Recovery(_) | ControlPhase::ShuttingDown => false,
        }
    }
}

} // verus!
