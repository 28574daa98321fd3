use vstd::prelude::*;

use crate::control::ControlCommand;
use crate::error::ClipdError;
use crate::state::ServiceState;

verus! {

// ---------------------------------------------------------------------------
// Lifecycle operations of the service supervisor. Each operation is one
// service-manager call guarded by a state check, followed by a bounded poll
// of the service record. The checks and the poll decisions are pure; the
// calls and the sleeping stay with the process that talks to the OS.
// ---------------------------------------------------------------------------
/// One step of a bounded poll for a target state.
#[derive(Clone, Copy, Debug, PartialEq, Eq, Structural)]
pub enum WaitStep {
    /// The target state was observed.
    Reached,
    /// Not yet: sleep for the poll interval and look again.
    Sleep,
}

/// Decides one poll step: the deadline is checked first, then the observed
/// state is compared with the awaited one. A passed deadline is the typed
/// timeout failure.
pub fn wait_step(
    observed: ServiceState,
    target: ServiceState,
    elapsed_ms: u64,
    timeout_ms: u64,
) -> (r: Result<WaitStep, ClipdError>)
    ensures
        elapsed_ms >= timeout_ms ==> r == Result::<WaitStep, ClipdError>::Err(
            ClipdError::WaitTimeout,
        ),
        elapsed_ms < timeout_ms && observed == target ==> r == Result::<WaitStep, ClipdError>::Ok(
            WaitStep::Reached,
        ),
        elapsed_ms < timeout_ms && observed != target ==> r == Result::<WaitStep, ClipdError>::Ok(
            WaitStep::Sleep,
        ),
{
    if elapsed_ms >= timeout_ms {
        Err(ClipdError::WaitTimeout)
    } else if observed == target {
        Ok(WaitStep::Reached)
    } else {
        Ok(WaitStep::Sleep)
    }
}

/// Checks an install request. Installing over an existing service record
/// fails, leaving the record untouched; otherwise the record may be created.
pub fn check_install(already_installed: bool) -> (r: Result<(), ClipdError>)
    ensures
        already_installed <==> r is Err,
        r is Err ==> r->Err_0 == ClipdError::AlreadyInstalled,
{
    if already_installed {
        Err(ClipdError::AlreadyInstalled)
    } else {
        Ok(())
    }
}

/// Checks a start request. Start is valid only from `Stopped`; the returned
/// state is the one the follow-up poll awaits.
pub fn check_start(current: ServiceState) -> (r: Result<ServiceState, ClipdError>)
    ensures
        current == ServiceState::Stopped <==> r is Ok,
        r is Ok ==> r->Ok_0 == ServiceState::Running,
        r is Err ==> r->Err_0 == ClipdError::InvalidStateForOperation,
{
    if matches!(current, ServiceState::Stopped) {
        Ok(ServiceState::Running)
    } else {
        Err(ClipdError::InvalidStateForOperation)
    }
}

/// Checks a pause request: valid only from `Running`, awaiting `Paused`.
pub fn check_pause(current: ServiceState) -> (r: Result<ServiceState, ClipdError>)
    ensures
        current == ServiceState::Running <==> r is Ok,
        r is Ok ==> r->Ok_0 == ServiceState::Paused,
        r is Err ==> r->Err_0 == ClipdError::InvalidStateForOperation,
{
    if matches!(current, ServiceState::Running) {
        Ok(ServiceState::Paused)
    } else {
        Err(ClipdError::InvalidStateForOperation)
    }
}

/// Checks a resume request: valid only from `Paused`, awaiting `Running`.
pub fn check_resume(current: ServiceState) -> (r: Result<ServiceState, ClipdError>)
    ensures
        current == ServiceState::Paused <==> r is Ok,
        r is Ok ==> r->Ok_0 == ServiceState::Running,
        r is Err ==> r->Err_0 == ClipdError::InvalidStateForOperation,
{
    if matches!(current, ServiceState::Paused) {
        Ok(ServiceState::Running)
    } else {
        Err(ClipdError::InvalidStateForOperation)
    }
}

/// Checks a stop request: stopping an already stopped service fails; from any
/// other state the follow-up poll awaits `Stopped`.
pub fn check_stop(current: ServiceState) -> (r: Result<ServiceState, ClipdError>)
    ensures
        current != ServiceState::Stopped <==> r is Ok,
        r is Ok ==> r->Ok_0 == ServiceState::Stopped,
        r is Err ==> r->Err_0 == ClipdError::InvalidStateForOperation,
{
    if matches!(current, ServiceState::Stopped) {
        Err(ClipdError::InvalidStateForOperation)
    } else {
        Ok(ServiceState::Stopped)
    }
}

/// Whether a restart must first issue a stop: only when the service is not
/// already stopped. Either way the restart then waits for `Stopped` before
/// starting again.
pub fn restart_needs_stop(current: ServiceState) -> (r: bool)
    ensures
        r == (current != ServiceState::Stopped),
{
    !matches!(current, ServiceState::Stopped)
}

/// Reports the observed state, or that no service record exists.
pub fn status_report(found: Option<ServiceState>) -> (r: Result<ServiceState, ClipdError>)
    ensures
        found matches Some(s) ==> r == Result::<ServiceState, ClipdError>::Ok(s),
        found is None ==> r == Result::<ServiceState, ClipdError>::Err(ClipdError::NotInstalled),
{
    match found {
        Some(s) => Ok(s),
        None => Err(ClipdError::NotInstalled),
    }
}

/// Checks an uninstall request against the observed record. A missing record
/// fails with `NotInstalled`; a running service is refused before anything is
/// issued; otherwise the record may be deleted, and the result says whether a
/// stop must be issued as well.
pub fn check_uninstall(found: Option<ServiceState>) -> (r: Result<bool, ClipdError>)
    ensures
        found is None ==> r == Result::<bool, ClipdError>::Err(ClipdError::NotInstalled),
        found matches Some(s) ==> r == (if s == ServiceState::Running {
            Result::<bool, ClipdError>::Err(ClipdError::InvalidStateForOperation)
        } else {
            Result::<bool, ClipdError>::Ok(s != ServiceState::Stopped)
        }),
{
    match found {
        None => Err(ClipdError::NotInstalled),
        Some(ServiceState::Running) => Err(ClipdError::InvalidStateForOperation),
        Some(s) => Ok(!matches!(s, ServiceState::Stopped)),
    }
}

/// One step of the poll for the deleted service record. Running out of time
/// is not an error: the record stays marked for deletion.
#[derive(Clone, Copy, Debug, PartialEq, Eq, Structural)]
pub enum UninstallWait {
    /// The record left the registry.
    Deleted,
    /// The deadline passed; the record is marked for deletion.
    PendingDeletion,
    /// Sleep for the poll interval and look again.
    Sleep,
}

/// Decides one poll step of the uninstall wait.
pub fn uninstall_wait_step(still_exists: bool, elapsed_ms: u64, timeout_ms: u64) -> (r:
    UninstallWait)
    ensures
        elapsed_ms >= timeout_ms ==> r == UninstallWait::PendingDeletion,
        elapsed_ms < timeout_ms && !still_exists ==> r == UninstallWait::Deleted,
        elapsed_ms < timeout_ms && still_exists ==> r == UninstallWait::Sleep,
{
    if elapsed_ms >= timeout_ms {
        UninstallWait::PendingDeletion
    } else if !still_exists {
        UninstallWait::Deleted
    } else {
        UninstallWait::Sleep
    }
}

// ---------------------------------------------------------------------------
// The daemon's side of the control plane: what the service process does with
// each control event the service manager dispatches to it.
// ---------------------------------------------------------------------------
/// A control event delivered by the service manager.
#[derive(Clone, Copy, Debug, PartialEq, Eq, Structural)]
pub enum ServiceControlEvent {
    Pause,
    Continue,
    Stop,
    Interrogate,
    Other,
}

/// The handler's immediate acknowledgment of an event.
#[derive(Clone, Copy, Debug, PartialEq, Eq, Structural)]
pub enum HandlerAck {
    NoError,
    NotImplemented,
}

/// The acknowledgment returned from the registered control handler: the four
/// supported events are accepted, everything else is not implemented.
pub fn control_ack(event: ServiceControlEvent) -> (r: HandlerAck)
    ensures
        r == match event {
            ServiceControlEvent::Pause => HandlerAck::NoError,
            ServiceControlEvent::Continue => HandlerAck::NoError,
            ServiceControlEvent::Stop => HandlerAck::NoError,
            ServiceControlEvent::Interrogate => HandlerAck::NoError,
            ServiceControlEvent::Other => HandlerAck::NotImplemented,
        },
{
    match event {
        ServiceControlEvent::Pause => HandlerAck::NoError,
        ServiceControlEvent::Continue => HandlerAck::NoError,
        ServiceControlEvent::Stop => HandlerAck::NoError,
        ServiceControlEvent::Interrogate => HandlerAck::NoError,
        ServiceControlEvent::Other => HandlerAck::NotImplemented,
    }
}

/// What the daemon does with one control event: the state reported before
/// acting, the command relayed to the session worker, the state reported once
/// settled, and whether the daemon's control loop ends. On stop the loop ends
/// first; the exit command and the final `Stopped` report follow outside it.
#[derive(Clone, Copy, Debug, PartialEq, Eq, Structural)]
pub struct ControlPlan {
    pub pending_state: Option<ServiceState>,
    pub command: Option<ControlCommand>,
    pub settled_state: Option<ServiceState>,
    pub exit: bool,
}

/// The daemon's reaction to each control event.
pub fn handle_service_control(event: ServiceControlEvent) -> (r: ControlPlan)
    ensures
        event == ServiceControlEvent::Pause ==> r == (ControlPlan {
            pending_state: Some(ServiceState::PausePending),
            command: Some(ControlCommand::Pause),
            settled_state: Some(ServiceState::Paused),
            exit: false,
        }),
        event == ServiceControlEvent::Continue ==> r == (ControlPlan {
            pending_state: Some(ServiceState::StartPending),
            command: Some(ControlCommand::Resume),
            settled_state: Some(ServiceState::Running),
            exit: false,
        }),
        event == ServiceControlEvent::Stop ==> r == (ControlPlan {
            pending_state: Some(ServiceState::StopPending),
            command: None,
            settled_state: None,
            exit: true,
        }),
        event == ServiceControlEvent::Interrogate || event == ServiceControlEvent::Other ==> r == (
        ControlPlan { pending_state: None, command: None, settled_state: None, exit: false }),
{
    match event {
        ServiceControlEvent::Pause => ControlPlan {
            pending_state: Some(ServiceState::PausePending),
            command: Some(ControlCommand::Pause),
            settled_state: Some(ServiceState::Paused),
            exit: false,
        },
        ServiceControlEvent::Continue => ControlPlan {
            pending_state: Some(ServiceState::StartPending),
            command: Some(ControlCommand::Resume),
            settled_state: Some(ServiceState::Running),
            exit: false,
        },
        ServiceControlEvent::Stop => ControlPlan {
            pending_state: Some(ServiceState::StopPending),
            command: None,
            settled_state: None,
            exit: true,
        },
        ServiceControlEvent::Interrogate => ControlPlan {
            pending_state: None,
            command: None,
            settled_state: None,
            exit: false,
        },
        ServiceControlEvent::Other => ControlPlan {
            pending_state: None,
            command: None,
            settled_state: None,
            exit: false,
        },
    }
}

} // verus!
