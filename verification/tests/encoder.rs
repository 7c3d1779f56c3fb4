use serialquery::command::Command;
use serialquery::error::QueryError;

#[test]
fn general_name_encodes_qgs() {
    let c = Command::from_str("general").unwrap();
    assert!(matches!(c, Command::GeneralStatus));
    assert_eq!(c.to_command(), "QGS\r");
    assert_eq!(c.wire_bytes(), b"QGS\r".to_vec());
    assert_eq!(c.wire_len(), 4);
}

#[test]
fn battery_name_encodes_qbv() {
    let c = Command::from_str("battery").unwrap();
    assert!(matches!(c, Command::BatteryStatus));
    assert_eq!(c.to_command(), "QBV\r");
    assert_eq!(c.wire_bytes(), b"QBV\r".to_vec());
    assert_eq!(c.wire_len(), 4);
}

#[test]
fn operation_name_encodes_qmod() {
    let c = Command::from_str("operation").unwrap();
    assert!(matches!(c, Command::OperationalModeStatus));
    assert_eq!(c.to_command(), "QMOD\r");
    assert_eq!(c.wire_bytes(), b"QMOD\r".to_vec());
    assert_eq!(c.wire_len(), 5);
}

#[test]
fn unknown_names_are_rejected() {
    for name in ["bogus", "", "GENERAL", "Battery", "operatio", "operations", "general "] {
        assert_eq!(Command::from_str(name), Err(QueryError::UnknownCommand));
    }
}

#[test]
fn error_messages_are_distinct() {
    let errors = [
        QueryError::UnknownCommand,
        QueryError::PortUnavailable,
        QueryError::TransportWriteError,
        QueryError::TransportReadError,
        QueryError::ResponseDecodeError,
    ];
    for e in errors {
        assert!(!e.message().is_empty());
    }
    for i in 0..errors.len() {
        for j in 0..errors.len() {
            if i != j {
                assert_ne!(errors[i].message(), errors[j].message());
            }
        }
    }
}
