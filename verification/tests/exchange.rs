use serialquery::command::Command;
use serialquery::error::QueryError;
use serialquery::session::{
    ParityMode, Phase, Session, SessionAction, SessionEvent, TransportConfig, PAUSE_MILLIS,
    READ_CAPACITY,
};

fn drive(session: &mut Session, ev: SessionEvent) {
    assert!(session.fits(&ev));
    session.on_event(ev);
}

#[test]
fn standard_config_matches_device_class() {
    let c = TransportConfig::standard();
    assert_eq!(c.baud_rate, 2400);
    assert_eq!(c.data_bits, 8);
    assert_eq!(c.stop_bits, 1);
    assert_eq!(c.parity, ParityMode::NoParity);
    assert_eq!(c.read_timeout_millis, 1000);
    assert_eq!(PAUSE_MILLIS, 1000);
    assert_eq!(READ_CAPACITY, 1024);
}

#[test]
fn exchange_follows_fixed_order() {
    let mut s = Session::new(Command::BatteryStatus);
    assert_eq!(s.phase(), Phase::Unopened);
    assert_eq!(s.next_action(), SessionAction::OpenPort);

    drive(&mut s, SessionEvent::PortOpened);
    assert_eq!(s.phase(), Phase::Opened);
    assert_eq!(s.next_action(), SessionAction::WriteCommand);
    assert_eq!(s.wire_command(), b"QBV\r".to_vec());

    drive(&mut s, SessionEvent::WroteBytes(4));
    assert_eq!(s.phase(), Phase::Sent);
    assert_eq!(s.next_action(), SessionAction::Pause);

    drive(&mut s, SessionEvent::PauseElapsed);
    assert_eq!(s.phase(), Phase::Paused);
    assert_eq!(s.next_action(), SessionAction::ReadResponse);

    drive(&mut s, SessionEvent::ReadBytes(vec![0x4f, 0x4b, 0x0d, 0x0a]));
    assert_eq!(s.phase(), Phase::Responded);
    assert_eq!(s.next_action(), SessionAction::Finish);
    assert!(s.is_finished());

    assert_eq!(s.into_outcome(), Ok(vec![0x4f, 0x4b, 0x0d, 0x0a]));
}

#[test]
fn no_read_is_offered_before_the_pause() {
    let mut s = Session::new(Command::GeneralStatus);
    drive(&mut s, SessionEvent::PortOpened);
    drive(&mut s, SessionEvent::WroteBytes(4));
    // The request is out, but the quiescence pause has not elapsed:
    // the session asks for the pause, and a read does not yet fit.
    assert_eq!(s.next_action(), SessionAction::Pause);
    assert!(!s.fits(&SessionEvent::ReadBytes(vec![])));
    assert!(!s.fits(&SessionEvent::ReadFailed));
    drive(&mut s, SessionEvent::PauseElapsed);
    assert_eq!(s.next_action(), SessionAction::ReadResponse);
}

#[test]
fn empty_reply_is_success() {
    let mut s = Session::new(Command::GeneralStatus);
    drive(&mut s, SessionEvent::PortOpened);
    drive(&mut s, SessionEvent::WroteBytes(4));
    drive(&mut s, SessionEvent::PauseElapsed);
    drive(&mut s, SessionEvent::ReadBytes(vec![]));
    assert_eq!(s.phase(), Phase::Responded);
    assert_eq!(s.into_outcome(), Ok(vec![]));
}

#[test]
fn partial_write_is_a_write_error() {
    let mut s = Session::new(Command::OperationalModeStatus);
    drive(&mut s, SessionEvent::PortOpened);
    drive(&mut s, SessionEvent::WroteBytes(3));
    assert_eq!(s.phase(), Phase::Failed);
    assert_eq!(s.next_action(), SessionAction::Finish);
    assert_eq!(s.into_outcome(), Err(QueryError::TransportWriteError));
}

#[test]
fn failed_write_is_a_write_error() {
    let mut s = Session::new(Command::GeneralStatus);
    drive(&mut s, SessionEvent::PortOpened);
    drive(&mut s, SessionEvent::WriteFailed);
    assert_eq!(s.into_outcome(), Err(QueryError::TransportWriteError));
}

#[test]
fn failed_read_is_a_read_error() {
    let mut s = Session::new(Command::GeneralStatus);
    drive(&mut s, SessionEvent::PortOpened);
    drive(&mut s, SessionEvent::WroteBytes(4));
    drive(&mut s, SessionEvent::PauseElapsed);
    drive(&mut s, SessionEvent::ReadFailed);
    assert_eq!(s.into_outcome(), Err(QueryError::TransportReadError));
}

#[test]
fn open_failure_is_port_unavailable_and_terminal() {
    let mut s = Session::new(Command::GeneralStatus);
    drive(&mut s, SessionEvent::OpenFailed);
    assert_eq!(s.phase(), Phase::Failed);
    // A failed session owes nothing further: no write, no read.
    assert_eq!(s.next_action(), SessionAction::Finish);
    assert!(!s.fits(&SessionEvent::WroteBytes(4)));
    assert!(!s.fits(&SessionEvent::ReadBytes(vec![])));
    assert_eq!(s.into_outcome(), Err(QueryError::PortUnavailable));
}

#[test]
fn nonexistent_port_fails_to_open() {
    let config = TransportConfig::standard();
    let result = serialport::new("/dev/nonexistent-port-for-this-test", config.baud_rate)
        .timeout(std::time::Duration::from_millis(config.read_timeout_millis))
        .open();
    assert!(result.is_err());

    let mut s = Session::new(Command::GeneralStatus);
    if result.is_err() {
        drive(&mut s, SessionEvent::OpenFailed);
    }
    assert_eq!(s.into_outcome(), Err(QueryError::PortUnavailable));
}
