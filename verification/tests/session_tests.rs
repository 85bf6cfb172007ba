use at_terminal::encode_log;
use at_terminal::open_failure_message;
use at_terminal::receive_buffer;
use at_terminal::transmit_payload;
use at_terminal::DataBitsSetting;
use at_terminal::LoopState;
use at_terminal::OperatorAction;
use at_terminal::OperatorEvent;
use at_terminal::ReceiveOutcome;
use at_terminal::Session;
use at_terminal::SessionConfig;
use at_terminal::StopBitsSetting;
use at_terminal::TransmitOutcome;

#[test]
fn config_applies_the_fixed_parameters() {
    let config = SessionConfig::new(String::from("COM3"));
    assert_eq!(config.port_name, "COM3");
    assert_eq!(config.baud_rate, 115200);
    assert!(matches!(config.data_bits, DataBitsSetting::Eight));
    assert!(matches!(config.stop_bits, StopBitsSetting::One));
    assert_eq!(config.read_timeout_millis, 10);
}

#[test]
fn receive_buffer_is_fixed_size_and_zeroed() {
    let buffer = receive_buffer();
    assert_eq!(buffer.len(), 4096);
    assert!(buffer.iter().all(|b| *b == 0));
}

#[test]
fn open_failure_names_the_port_and_the_cause() {
    let message = open_failure_message("COM7", "Access is denied.");
    assert_eq!(message, "Failed to open \"COM7\". Error: Access is denied.");
}

#[test]
fn responding_device_scenario() {
    // The operator types ATI; the device answers OK within the window.
    let mut session = Session::begin(Vec::new());
    assert_eq!(session.state, LoopState::AwaitingInput);

    let action = session.on_operator_event(OperatorEvent::Line(String::from("ATI")));
    let payload = match action {
        OperatorAction::Transmit(framed) => transmit_payload(framed.as_str()),
        OperatorAction::Finish => panic!("a submitted line must be transmitted"),
    };
    assert_eq!(payload, b"ATI\r".to_vec());
    assert_eq!(session.state, LoopState::Transmitting);

    let report = session.on_transmit_outcome(&TransmitOutcome::Completed(payload.len()));
    assert!(report.is_none());
    assert_eq!(session.state, LoopState::Receiving);

    let mut buffer = receive_buffer();
    buffer[0] = b'O';
    buffer[1] = b'K';
    buffer[2] = b'\r';
    buffer[3] = b'\n';
    let effect = session.on_receive_outcome(&buffer, &ReceiveOutcome::Data(4));
    assert_eq!(effect.output, Some(b"OK\r\n".to_vec()));
    assert!(effect.report.is_none());
    assert_eq!(session.state, LoopState::AwaitingInput);

    let action = session.on_operator_event(OperatorEvent::EndOfInput);
    assert!(matches!(action, OperatorAction::Finish));
    assert_eq!(session.state, LoopState::Exiting);

    let history = session.finish();
    assert_eq!(history, vec![String::from("ATI\r")]);
    let log: Vec<Vec<u8>> = history.iter().map(|line| line.as_bytes().to_vec()).collect();
    assert_eq!(encode_log(&log), b"ATI\r\n".to_vec());
}

#[test]
fn silent_device_scenario() {
    // The device never responds: every read times out, nothing is
    // emitted, nothing is reported, and the loop returns to the prompt.
    let mut session = Session::begin(Vec::new());
    for _ in 0..3 {
        let action = session.on_operator_event(OperatorEvent::Line(String::from("ATI")));
        assert!(matches!(action, OperatorAction::Transmit(_)));
        let report = session.on_transmit_outcome(&TransmitOutcome::Completed(4));
        assert!(report.is_none());
        let buffer = receive_buffer();
        let effect = session.on_receive_outcome(&buffer, &ReceiveOutcome::TimedOut);
        assert!(effect.output.is_none());
        assert!(effect.report.is_none());
        assert_eq!(session.state, LoopState::AwaitingInput);
    }
    assert_eq!(session.history.len(), 3);
}

#[test]
fn timed_out_cycle_leaves_the_session_as_a_clean_cycle_does() {
    let mut timed_out = Session::begin(vec![String::from("ATE0\r")]);
    let mut clean = Session::begin(vec![String::from("ATE0\r")]);
    let buffer = receive_buffer();

    timed_out.on_operator_event(OperatorEvent::Line(String::from("ATI")));
    timed_out.on_transmit_outcome(&TransmitOutcome::TimedOut);
    timed_out.on_receive_outcome(&buffer, &ReceiveOutcome::TimedOut);

    clean.on_operator_event(OperatorEvent::Line(String::from("ATI")));
    clean.on_transmit_outcome(&TransmitOutcome::Completed(4));
    clean.on_receive_outcome(&buffer, &ReceiveOutcome::Data(2));

    assert_eq!(timed_out.state, clean.state);
    assert_eq!(timed_out.history, clean.history);
}

#[test]
fn write_failure_is_reported_and_the_loop_continues() {
    let mut session = Session::begin(Vec::new());
    session.on_operator_event(OperatorEvent::Line(String::from("ATI")));
    let report = session.on_transmit_outcome(&TransmitOutcome::Failed(String::from(
        "Input/output error",
    )));
    assert_eq!(report, Some(String::from("Input/output error")));
    assert_eq!(session.state, LoopState::Receiving);
    let buffer = receive_buffer();
    let effect = session.on_receive_outcome(
        &buffer,
        &ReceiveOutcome::Failed(String::from("Device reports readiness to read but returned no data")),
    );
    assert!(effect.output.is_none());
    assert_eq!(
        effect.report,
        Some(String::from("Device reports readiness to read but returned no data"))
    );
    assert_eq!(session.state, LoopState::AwaitingInput);
}

#[test]
fn interrupt_ends_the_session_with_history_intact() {
    let mut session = Session::begin(vec![String::from("ATI\r")]);
    let action = session.on_operator_event(OperatorEvent::Interrupted);
    assert!(matches!(action, OperatorAction::Finish));
    let history = session.finish();
    assert_eq!(history, vec![String::from("ATI\r")]);
}

#[test]
fn editor_failure_ends_the_session() {
    let mut session = Session::begin(Vec::new());
    let action = session.on_operator_event(OperatorEvent::Failed(String::from("window resized")));
    assert!(matches!(action, OperatorAction::Finish));
    assert_eq!(session.state, LoopState::Exiting);
}

#[test]
fn empty_read_emits_exactly_nothing() {
    let mut session = Session::begin(Vec::new());
    session.on_operator_event(OperatorEvent::Line(String::from("AT")));
    session.on_transmit_outcome(&TransmitOutcome::Completed(3));
    let buffer = receive_buffer();
    let effect = session.on_receive_outcome(&buffer, &ReceiveOutcome::Data(0));
    assert_eq!(effect.output, Some(Vec::new()));
    assert!(effect.report.is_none());
}
