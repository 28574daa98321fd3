use clipd::control::ControlCommand;
use clipd::fmt::FormatFeature;
use clipd::state::ServiceState;
use clipd::worker::ClipboardWorker;
use clipd::ClipdError;

fn running_worker() -> ClipboardWorker {
    let mut worker = ClipboardWorker::new(FormatFeature::default());
    worker.start();
    worker
}

#[test]
fn pause_then_resume_bytes_round_the_state() {
    let mut worker = running_worker();
    assert_eq!(worker.state, ServiceState::Running);
    assert_eq!(worker.handle_control_byte(0x50), Ok(false));
    assert_eq!(worker.state, ServiceState::Paused);
    assert_eq!(worker.handle_control_byte(0x52), Ok(false));
    assert_eq!(worker.state, ServiceState::Running);
}

#[test]
fn unknown_byte_leaves_state_unchanged() {
    let mut worker = running_worker();
    assert_eq!(
        worker.handle_control_byte(0x13),
        Err(ClipdError::UnknownCommandByte(0x13))
    );
    assert_eq!(worker.state, ServiceState::Running);
    worker.apply_command(ControlCommand::Pause);
    assert_eq!(
        worker.handle_control_byte(0xAB),
        Err(ClipdError::UnknownCommandByte(0xAB))
    );
    assert_eq!(worker.state, ServiceState::Paused);
}

#[test]
fn exit_byte_stops_and_ends_the_listener() {
    let mut worker = running_worker();
    assert_eq!(worker.handle_control_byte(0x44), Ok(true));
    assert_eq!(worker.state, ServiceState::Stopped);
}

#[test]
fn cycle_writes_back_normalized_text() {
    let mut worker = running_worker();
    let written = worker
        .on_clipboard_event(false, &" \thello\r\n".to_string())
        .unwrap();
    assert_eq!(written, Some("hello".to_string()));
}

#[test]
fn own_write_read_back_is_suppressed() {
    let mut worker = running_worker();
    let written = worker
        .on_clipboard_event(false, &" \thello\r\n".to_string())
        .unwrap()
        .unwrap();
    // The clipboard now holds the worker's own write; reading it back must
    // not trigger another write.
    let second = worker.on_clipboard_event(false, &written).unwrap();
    assert_eq!(second, None);
}

#[test]
fn already_normal_text_is_recorded_but_not_written() {
    let mut worker = running_worker();
    let first = worker.on_clipboard_event(false, &"hello".to_string()).unwrap();
    assert_eq!(first, None);
    // The unchanged text was still recorded as the last output, so the same
    // reading is suppressed before another pass.
    let second = worker.on_clipboard_event(false, &"hello".to_string()).unwrap();
    assert_eq!(second, None);
}

#[test]
fn paused_worker_skips_the_cycle() {
    let mut worker = running_worker();
    worker.apply_command(ControlCommand::Pause);
    let written = worker.on_clipboard_event(false, &" x ".to_string()).unwrap();
    assert_eq!(written, None);
}

#[test]
fn own_clipboard_ownership_skips_the_read() {
    let mut worker = running_worker();
    let written = worker.on_clipboard_event(true, &" x ".to_string()).unwrap();
    assert_eq!(written, None);
}

#[test]
fn empty_feature_worker_reports_config_error() {
    let mut worker = ClipboardWorker::new(FormatFeature::empty());
    worker.start();
    assert_eq!(
        worker.on_clipboard_event(false, &" x ".to_string()),
        Err(ClipdError::EmptyFeatureSet)
    );
}
