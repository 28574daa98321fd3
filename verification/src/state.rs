use vstd::prelude::*;

verus! {

/// Lifecycle state of the service and of the session worker.
#[derive(Clone, Copy, Debug, PartialEq, Eq, Structural)]
pub enum ServiceState {
    Stopped,
    StartPending,
    Running,
    PausePending,
    Paused,
    StopPending,
}

/// The external controls a state advertises to the service manager.
#[derive(Clone, Copy, Debug, PartialEq, Eq, Structural)]
pub struct AcceptedControls {
    pub stop: bool,
    pub pause_continue: bool,
}

/// The controls each lifecycle state accepts: stop is accepted while a start,
/// pause or stop has not settled yet; pause and continue only while settled
/// in `Running` or `Paused`; nothing once stopping or stopped.
pub open spec fn spec_accepted_controls(state: ServiceState) -> AcceptedControls {
    match state {
        ServiceState::StartPending => AcceptedControls { stop: true, pause_continue: false },
        ServiceState::Running => AcceptedControls { stop: true, pause_continue: true },
        ServiceState::PausePending => AcceptedControls { stop: true, pause_continue: false },
        ServiceState::Paused => AcceptedControls { stop: true, pause_continue: true },
        ServiceState::StopPending => AcceptedControls { stop: false, pause_continue: false },
        ServiceState::Stopped => AcceptedControls { stop: false, pause_continue: false },
    }
}

/// The controls advertised alongside a state update.
pub fn accepted_controls(state: ServiceState) -> (r: AcceptedControls)
    ensures
        r == spec_accepted_controls(state),
{
    match state {
        ServiceState::StartPending => AcceptedControls { stop: true, pause_continue: false },
        ServiceState::Running => AcceptedControls { stop: true, pause_continue: true },
        ServiceState::PausePending => AcceptedControls { stop: true, pause_continue: false },
        ServiceState::Paused => AcceptedControls { stop: true, pause_continue: true },
        ServiceState::StopPending => AcceptedControls { stop: false, pause_continue: false },
        ServiceState::Stopped => AcceptedControls { stop: false, pause_continue: false },
    }
}

} // verus!
