use clipd::state::ServiceState;
use clipd::supervisor::{
    check_install, check_pause, check_resume, check_start, check_stop, check_uninstall,
    restart_needs_stop, status_report, uninstall_wait_step, wait_step, UninstallWait, WaitStep,
};
use clipd::ClipdError;

#[test]
fn start_requires_stopped() {
    assert_eq!(check_start(ServiceState::Stopped), Ok(ServiceState::Running));
    assert_eq!(
        check_start(ServiceState::Running),
        Err(ClipdError::InvalidStateForOperation)
    );
    assert_eq!(
        check_start(ServiceState::Paused),
        Err(ClipdError::InvalidStateForOperation)
    );
}

#[test]
fn pause_requires_running() {
    assert_eq!(check_pause(ServiceState::Running), Ok(ServiceState::Paused));
    assert_eq!(
        check_pause(ServiceState::Paused),
        Err(ClipdError::InvalidStateForOperation)
    );
}

#[test]
fn resume_requires_paused() {
    assert_eq!(check_resume(ServiceState::Paused), Ok(ServiceState::Running));
    assert_eq!(
        check_resume(ServiceState::Running),
        Err(ClipdError::InvalidStateForOperation)
    );
}

#[test]
fn stop_rejects_already_stopped() {
    assert_eq!(check_stop(ServiceState::Running), Ok(ServiceState::Stopped));
    assert_eq!(check_stop(ServiceState::Paused), Ok(ServiceState::Stopped));
    assert_eq!(
        check_stop(ServiceState::Stopped),
        Err(ClipdError::InvalidStateForOperation)
    );
}

#[test]
fn install_rejects_existing_record() {
    assert_eq!(check_install(false), Ok(()));
    assert_eq!(check_install(true), Err(ClipdError::AlreadyInstalled));
}

#[test]
fn status_reports_not_installed() {
    assert_eq!(status_report(Some(ServiceState::Paused)), Ok(ServiceState::Paused));
    assert_eq!(status_report(None), Err(ClipdError::NotInstalled));
}

#[test]
fn uninstall_refuses_running_before_issuing_anything() {
    assert_eq!(
        check_uninstall(Some(ServiceState::Running)),
        Err(ClipdError::InvalidStateForOperation)
    );
    assert_eq!(check_uninstall(None), Err(ClipdError::NotInstalled));
    // A paused service still needs a stop after the delete; a stopped one
    // does not.
    assert_eq!(check_uninstall(Some(ServiceState::Paused)), Ok(true));
    assert_eq!(check_uninstall(Some(ServiceState::Stopped)), Ok(false));
}

#[test]
fn restart_stops_first_unless_stopped() {
    assert!(restart_needs_stop(ServiceState::Running));
    assert!(restart_needs_stop(ServiceState::Paused));
    assert!(!restart_needs_stop(ServiceState::Stopped));
}

#[test]
fn wait_reaches_target_or_times_out() {
    assert_eq!(
        wait_step(ServiceState::Running, ServiceState::Running, 0, 2000),
        Ok(WaitStep::Reached)
    );
    assert_eq!(
        wait_step(ServiceState::StartPending, ServiceState::Running, 150, 2000),
        Ok(WaitStep::Sleep)
    );
    assert_eq!(
        wait_step(ServiceState::StartPending, ServiceState::Running, 2000, 2000),
        Err(ClipdError::WaitTimeout)
    );
}

#[test]
fn uninstall_wait_pending_deletion_is_not_an_error() {
    assert_eq!(uninstall_wait_step(false, 100, 5000), UninstallWait::Deleted);
    assert_eq!(uninstall_wait_step(true, 100, 5000), UninstallWait::Sleep);
    assert_eq!(
        uninstall_wait_step(true, 5000, 5000),
        UninstallWait::PendingDeletion
    );
}
