use spiral_blue::protocol::{
    Action, CommandType, Event, Message, OutCommand, Phase, ProtocolError,
};
use spiral_blue::subsystem::Subsystem;

fn message(command_type: CommandType) -> Message {
    Message { command_type, data: Vec::new() }
}

#[test]
fn time_sync_acknowledged() {
    let mut s = Subsystem::new();
    let a = s.time_at(1_700_000_000);
    assert_eq!(a, Action::Send(OutCommand::Time(1_700_000_000)));
    let a = s.step(Event::SendOk);
    assert_eq!(a, Action::Receive { timeout_s: 60 });
    let a = s.step(Event::Received(message(CommandType::TimeAcknowledge)));
    assert_eq!(a, Action::Done(Ok(())));
    assert_eq!(s.phase, Phase::Idle);
}

#[test]
fn time_uses_wall_clock() {
    let mut s = Subsystem::new();
    let a = s.time();
    match a {
        Action::Send(OutCommand::Time(t)) => assert!(t >= 1_500_000_000),
        other => panic!("expected a time-sync send, got {:?}", other),
    }
}

#[test]
fn startup_command_acknowledged() {
    let mut s = Subsystem::new();
    let a = s.startup_command(vec![0xde, 0xad, 0xbe]);
    assert_eq!(a, Action::Send(OutCommand::Startup(vec![0xde, 0xad, 0xbe])));
    let a = s.step(Event::SendOk);
    assert_eq!(a, Action::Receive { timeout_s: 60 });
    let a = s.step(Event::Received(message(CommandType::StartupCommandAcknowledge)));
    assert_eq!(a, Action::Done(Ok(())));
}

#[test]
fn startup_payload_is_opaque() {
    let mut s = Subsystem::new();
    let a = s.startup_command(Vec::new());
    assert_eq!(a, Action::Send(OutCommand::Startup(Vec::new())));
}

#[test]
fn unexpected_acknowledgment_reports_both_kinds() {
    let mut s = Subsystem::new();
    s.time_at(0);
    s.step(Event::SendOk);
    let a = s.step(Event::Received(message(CommandType::PowerDown)));
    assert_eq!(
        a,
        Action::Done(Err(ProtocolError::UnexpectedMessage {
            expected: CommandType::TimeAcknowledge,
            received: CommandType::PowerDown,
        }))
    );
}

#[test]
fn acknowledgment_window_closes_empty() {
    let mut s = Subsystem::new();
    s.startup_command(vec![1]);
    s.step(Event::SendOk);
    let a = s.step(Event::ReceiveNothing);
    assert_eq!(
        a,
        Action::Done(Err(ProtocolError::Timeout {
            expected: CommandType::StartupCommandAcknowledge,
        }))
    );
}

#[test]
fn send_failure_short_circuits() {
    let mut s = Subsystem::new();
    s.time_at(42);
    let a = s.step(Event::SendFailed);
    assert_eq!(a, Action::Done(Err(ProtocolError::Transport)));
    assert_eq!(s.phase, Phase::Idle);
}

#[test]
fn shutdown_device_initiated() {
    let mut s = Subsystem::new();
    let a = s.shutdown(120);
    assert_eq!(a, Action::Receive { timeout_s: 120 });
    let a = s.step(Event::Received(message(CommandType::PowerDown)));
    assert_eq!(
        a,
        Action::Send(OutCommand::Simple(CommandType::PowerDownAcknowledge))
    );
    let a = s.step(Event::SendOk);
    assert_eq!(a, Action::Done(Ok(())));
}

#[test]
fn shutdown_device_initiated_ack_send_fails() {
    let mut s = Subsystem::new();
    s.shutdown(120);
    s.step(Event::Received(message(CommandType::PowerDown)));
    let a = s.step(Event::SendFailed);
    assert_eq!(a, Action::Done(Err(ProtocolError::Transport)));
}

#[test]
fn shutdown_fallback_acknowledged() {
    let mut s = Subsystem::new();
    let a = s.shutdown(5);
    assert_eq!(a, Action::Receive { timeout_s: 5 });
    let a = s.step(Event::ReceiveNothing);
    assert_eq!(a, Action::Send(OutCommand::Simple(CommandType::PowerDown)));
    let a = s.step(Event::SendOk);
    assert_eq!(a, Action::Receive { timeout_s: 30 });
    let a = s.step(Event::Received(message(CommandType::PowerDownAcknowledge)));
    assert_eq!(a, Action::Done(Ok(())));
}

#[test]
fn shutdown_fallback_times_out() {
    let mut s = Subsystem::new();
    s.shutdown(5);
    s.step(Event::ReceiveNothing);
    s.step(Event::SendOk);
    let a = s.step(Event::ReceiveNothing);
    assert_eq!(
        a,
        Action::Done(Err(ProtocolError::Timeout {
            expected: CommandType::PowerDownAcknowledge,
        }))
    );
}

#[test]
fn shutdown_listen_falls_back_on_other_kind() {
    let mut s = Subsystem::new();
    s.shutdown(60);
    let a = s.step(Event::Received(message(CommandType::Time)));
    assert_eq!(a, Action::Send(OutCommand::Simple(CommandType::PowerDown)));
    assert_eq!(
        s.phase,
        Phase::SendingCommand {
            expected_ack: CommandType::PowerDownAcknowledge,
            ack_timeout_s: 30,
        }
    );
}

#[test]
fn shutdown_with_no_window_left() {
    let mut s = Subsystem::new();
    let a = s.shutdown(0);
    assert_eq!(a, Action::Receive { timeout_s: 0 });
}

#[test]
fn initialised_success_splits_trailing_bytes() {
    let mut s = Subsystem::new();
    let a = s.initialised();
    assert_eq!(a, Action::ReceiveInit { timeout_s: 300 });
    let a = s.step(Event::InitData(vec![9, 9, 1, 2, 3]));
    assert_eq!(
        a,
        Action::Decode { prefix: vec![9, 9], tail: vec![1, 2, 3] }
    );
    let a = s.step(Event::DecodedTail(Some(CommandType::Initialised)));
    assert_eq!(a, Action::Done(Ok(())));
    assert_eq!(s.phase, Phase::Idle);
}

#[test]
fn initialised_buffer_of_exactly_three_bytes() {
    let mut s = Subsystem::new();
    s.initialised();
    let a = s.step(Event::InitData(vec![1, 2, 3]));
    assert_eq!(
        a,
        Action::Decode { prefix: Vec::new(), tail: vec![1, 2, 3] }
    );
}

#[test]
fn initialised_wrong_kind_is_unexpected() {
    let mut s = Subsystem::new();
    s.initialised();
    s.step(Event::InitData(vec![0, 1, 2, 3]));
    let a = s.step(Event::DecodedTail(Some(CommandType::PowerDown)));
    assert_eq!(
        a,
        Action::Done(Err(ProtocolError::UnexpectedMessage {
            expected: CommandType::Initialised,
            received: CommandType::PowerDown,
        }))
    );
}

#[test]
fn initialised_undecodable_tail_is_invalid_data() {
    let mut s = Subsystem::new();
    s.initialised();
    s.step(Event::InitData(vec![0, 1, 2, 3]));
    let a = s.step(Event::DecodedTail(None));
    assert_eq!(
        a,
        Action::Done(Err(ProtocolError::InvalidData { tail: vec![1, 2, 3] }))
    );
}

#[test]
fn initialised_short_buffer_is_invalid_data() {
    let mut s = Subsystem::new();
    s.initialised();
    let a = s.step(Event::InitData(vec![7, 8]));
    assert_eq!(
        a,
        Action::Done(Err(ProtocolError::InvalidData { tail: vec![7, 8] }))
    );
}

#[test]
fn initialised_receive_failure_is_transport() {
    let mut s = Subsystem::new();
    s.initialised();
    let a = s.step(Event::InitFailed);
    assert_eq!(a, Action::Done(Err(ProtocolError::Transport)));
}

#[test]
fn bulk_transfer_outcomes() {
    let mut s = Subsystem::new();
    let a = s.ftp();
    assert_eq!(a, Action::BulkTransfer);
    let a = s.step(Event::BulkOk);
    assert_eq!(a, Action::Done(Ok(())));

    s.ftp();
    let a = s.step(Event::BulkFailed);
    assert_eq!(a, Action::Done(Err(ProtocolError::Transport)));
}
