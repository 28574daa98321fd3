use vstd::prelude::*;

use crate::state::ServiceState;

verus! {

/// The tray icon shown for the worker.
#[derive(Clone, Copy, Debug, PartialEq, Eq, Structural)]
pub enum Icon {
    Running,
    Paused,
}

impl Icon {
    /// The resource name of the icon.
    pub fn name(&self) -> (r: &'static str)
        ensures
            r@ == match self {
                Icon::Running => "ic_01_running"@,
                Icon::Paused => "ic_02_paused"@,
            },
    {
        match self {
            Icon::Running => "ic_01_running",
            Icon::Paused => "ic_02_paused",
        }
    }
}

/// The icon shown for a worker state: paused shows the paused icon, every
/// other state the running one.
pub fn icon_for_state(state: ServiceState) -> (r: Icon)
    ensures
        r == (if state == ServiceState::Paused {
            Icon::Paused
        } else {
            Icon::Running
        }),
{
    match state {
        ServiceState::Paused => Icon::Paused,
        _ => Icon::Running,
    }
}

/// Whether the tray context menu offers resume in place of pause: only while
/// the worker is paused.
pub fn tray_shows_resume(state: ServiceState) -> (r: bool)
    ensures
        r == (state == ServiceState::Paused),
{
    matches!(state, ServiceState::Paused)
}

} // verus!
