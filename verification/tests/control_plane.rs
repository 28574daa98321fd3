use clipd::control::{
    acquire_instance_lock, startup_mode, ControlCommand, StartupMode, MESSAGE_EXIT, MESSAGE_PAUSE,
    MESSAGE_RESUME,
};
use clipd::state::{accepted_controls, ServiceState};
use clipd::supervisor::{control_ack, handle_service_control, HandlerAck, ServiceControlEvent};
use clipd::ClipdError;

#[test]
fn command_bytes_match_wire_protocol() {
    assert_eq!(MESSAGE_PAUSE, 0x50);
    assert_eq!(MESSAGE_RESUME, 0x52);
    assert_eq!(MESSAGE_EXIT, 0x44);
    assert_eq!(ControlCommand::Pause.encode(), 0x50);
    assert_eq!(ControlCommand::Resume.encode(), 0x52);
    assert_eq!(ControlCommand::Exit.encode(), 0x44);
}

#[test]
fn decode_inverts_encode() {
    for cmd in [ControlCommand::Pause, ControlCommand::Resume, ControlCommand::Exit] {
        assert_eq!(ControlCommand::decode(cmd.encode()), Ok(cmd));
    }
}

#[test]
fn unknown_byte_is_decode_error() {
    assert_eq!(
        ControlCommand::decode(0x00),
        Err(ClipdError::UnknownCommandByte(0x00))
    );
    assert_eq!(
        ControlCommand::decode(0xFF),
        Err(ClipdError::UnknownCommandByte(0xFF))
    );
    assert_eq!(
        ControlCommand::decode(0x51),
        Err(ClipdError::UnknownCommandByte(0x51))
    );
}

#[test]
fn startup_mode_follows_channel_probe() {
    assert_eq!(startup_mode(true), StartupMode::ServiceManaged);
    assert_eq!(startup_mode(false), StartupMode::Standalone);
}

#[test]
fn existing_instance_lock_refuses_a_second_instance() {
    assert_eq!(acquire_instance_lock(false), Ok(()));
    assert_eq!(acquire_instance_lock(true), Err(ClipdError::AlreadyRunning));
}

#[test]
fn handler_acknowledges_supported_events() {
    assert_eq!(control_ack(ServiceControlEvent::Pause), HandlerAck::NoError);
    assert_eq!(control_ack(ServiceControlEvent::Continue), HandlerAck::NoError);
    assert_eq!(control_ack(ServiceControlEvent::Stop), HandlerAck::NoError);
    assert_eq!(control_ack(ServiceControlEvent::Interrogate), HandlerAck::NoError);
    assert_eq!(control_ack(ServiceControlEvent::Other), HandlerAck::NotImplemented);
}

#[test]
fn pause_event_relays_pause_and_settles_paused() {
    let plan = handle_service_control(ServiceControlEvent::Pause);
    assert_eq!(plan.pending_state, Some(ServiceState::PausePending));
    assert_eq!(plan.command, Some(ControlCommand::Pause));
    assert_eq!(plan.settled_state, Some(ServiceState::Paused));
    assert!(!plan.exit);
}

#[test]
fn continue_event_relays_resume_and_settles_running() {
    let plan = handle_service_control(ServiceControlEvent::Continue);
    assert_eq!(plan.pending_state, Some(ServiceState::StartPending));
    assert_eq!(plan.command, Some(ControlCommand::Resume));
    assert_eq!(plan.settled_state, Some(ServiceState::Running));
    assert!(!plan.exit);
}

#[test]
fn stop_event_ends_the_control_loop() {
    let plan = handle_service_control(ServiceControlEvent::Stop);
    assert_eq!(plan.pending_state, Some(ServiceState::StopPending));
    assert_eq!(plan.command, None);
    assert_eq!(plan.settled_state, None);
    assert!(plan.exit);
}

#[test]
fn interrogate_changes_nothing() {
    let plan = handle_service_control(ServiceControlEvent::Interrogate);
    assert_eq!(plan.pending_state, None);
    assert_eq!(plan.command, None);
    assert_eq!(plan.settled_state, None);
    assert!(!plan.exit);
}

#[test]
fn advertised_controls_per_state() {
    let start_pending = accepted_controls(ServiceState::StartPending);
    assert!(start_pending.stop && !start_pending.pause_continue);
    let running = accepted_controls(ServiceState::Running);
    assert!(running.stop && running.pause_continue);
    let pause_pending = accepted_controls(ServiceState::PausePending);
    assert!(pause_pending.stop && !pause_pending.pause_continue);
    let paused = accepted_controls(ServiceState::Paused);
    assert!(paused.stop && paused.pause_continue);
    let stop_pending = accepted_controls(ServiceState::StopPending);
    assert!(!stop_pending.stop && !stop_pending.pause_continue);
    let stopped = accepted_controls(ServiceState::Stopped);
    assert!(!stopped.stop && !stopped.pause_continue);
}

#[test]
fn error_messages_name_their_cause() {
    assert_eq!(
        ClipdError::EmptyFeatureSet.message(),
        "format feature set is empty"
    );
    assert_eq!(
        ClipdError::UnknownCommandByte(0x13).message(),
        "unknown control command byte"
    );
    assert_eq!(
        ClipdError::WaitTimeout.message(),
        "timed out waiting for the service state"
    );
}
