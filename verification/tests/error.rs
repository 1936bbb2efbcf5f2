use std::io;

use hdmi_hal_i2c_dev::{I2cDevError, I2cErrorKind, I2cTransactionError, MessagePhase};

#[test]
fn display_connector_not_found() {
    let e = I2cDevError::ConnectorNotFound {
        connector: "card0-HDMI-A-1".to_string(),
    };
    assert_eq!(
        e.to_string(),
        "DRM connector not found in sysfs: card0-HDMI-A-1"
    );
}

#[test]
fn display_connector_has_no_ddc_adapter() {
    let e = I2cDevError::ConnectorHasNoDdcAdapter {
        connector: "card0-HDMI-A-1".to_string(),
    };
    assert_eq!(
        e.to_string(),
        "connector card0-HDMI-A-1 has no DDC adapter (no sink attached, or not an HDMI port)"
    );
}

#[test]
fn display_ddc_adapter_index_unparseable() {
    let e = I2cDevError::DdcAdapterIndexUnparseable {
        symlink_target: String::from("../../devices/usb-6"),
    };
    assert_eq!(
        e.to_string(),
        "DDC symlink target does not contain a recognizable adapter index: ../../devices/usb-6"
    );
}

#[test]
fn display_device_open_failed() {
    let e = I2cDevError::DeviceOpenFailed {
        path: String::from("/dev/i2c-99"),
        source: io::Error::from(io::ErrorKind::PermissionDenied),
    };
    assert_eq!(e.to_string(), "failed to open I²C device: /dev/i2c-99");
}

#[test]
fn display_transaction() {
    let e = I2cDevError::Transaction(I2cTransactionError {
        phase: MessagePhase::Write { register: 0x20 },
        kind: I2cErrorKind::AddressNack,
    });
    let text = e.to_string();
    assert!(text.contains("I²C transaction failed"), "got: {text}");
}

#[test]
fn source_device_open_failed_is_some() {
    let e = I2cDevError::DeviceOpenFailed {
        path: String::from("/dev/i2c-99"),
        source: io::Error::from(io::ErrorKind::PermissionDenied),
    };
    assert!(e.source().is_some());
}

#[test]
fn source_transaction_is_some() {
    let e = I2cDevError::Transaction(I2cTransactionError {
        phase: MessagePhase::Write { register: 0x00 },
        kind: I2cErrorKind::BusBusy,
    });
    assert!(e.source().is_some());
}

#[test]
fn source_connector_not_found_is_none() {
    let e = I2cDevError::ConnectorNotFound {
        connector: "x".to_string(),
    };
    assert!(e.source().is_none());
}

#[test]
fn transaction_error_display_write_phase() {
    let e = I2cTransactionError {
        phase: MessagePhase::Write { register: 0x0f },
        kind: I2cErrorKind::AddressNack,
    };
    assert_eq!(e.to_string(), "write phase (register 0x0f): AddressNack");
}

#[test]
fn transaction_error_display_read_phase() {
    let e = I2cTransactionError {
        phase: MessagePhase::Read { register: 0xa0 },
        kind: I2cErrorKind::Unknown { errno: 5 },
    };
    assert_eq!(
        e.to_string(),
        "read phase (register 0xa0): Unknown { errno: 5 }"
    );
}

#[test]
fn transaction_error_source_is_none() {
    let e = I2cTransactionError {
        phase: MessagePhase::Write { register: 0x00 },
        kind: I2cErrorKind::AddressNack,
    };
    assert!(e.source().is_none());
}

#[test]
fn transaction_text_matches_debug_of_each_kind() {
    let kinds = [
        I2cErrorKind::AddressNack,
        I2cErrorKind::DataNack,
        I2cErrorKind::ArbitrationLost,
        I2cErrorKind::ClockStretchTimeout,
        I2cErrorKind::BusBusy,
        I2cErrorKind::BusProtocolError,
        I2cErrorKind::AdapterGone,
        I2cErrorKind::Unknown { errno: 0 },
        I2cErrorKind::Unknown { errno: -7 },
        I2cErrorKind::Unknown { errno: 1234567 },
        I2cErrorKind::Unknown { errno: i32::MIN },
        I2cErrorKind::Unknown { errno: i32::MAX },
    ];
    for register in [0x00u8, 0x09, 0x10, 0xff] {
        for kind in kinds {
            let e = I2cTransactionError { phase: MessagePhase::Write { register }, kind };
            assert_eq!(e.to_string(), format!("write phase (register 0x{register:02x}): {kind:?}"));
            let e = I2cTransactionError { phase: MessagePhase::Read { register }, kind };
            assert_eq!(e.to_string(), format!("read phase (register 0x{register:02x}): {kind:?}"));
        }
    }
}

#[test]
fn display_transaction_full_text() {
    let e = I2cDevError::Transaction(I2cTransactionError {
        phase: MessagePhase::Read { register: 0x4a },
        kind: I2cErrorKind::Unknown { errno: -110 },
    });
    assert_eq!(
        e.to_string(),
        "I²C transaction failed: read phase (register 0x4a): Unknown { errno: -110 }"
    );
}

#[test]
fn source_points_at_the_transaction() {
    let t = I2cTransactionError {
        phase: MessagePhase::Write { register: 0x31 },
        kind: I2cErrorKind::AdapterGone,
    };
    let e = I2cDevError::Transaction(t);
    match e.source() {
        Some(hdmi_hal_i2c_dev::ErrorSource::Transaction(s)) => assert_eq!(*s, t),
        _ => panic!("expected the transaction as source"),
    }
}

#[test]
fn source_unparseable_and_no_adapter_are_none() {
    let e = I2cDevError::DdcAdapterIndexUnparseable { symlink_target: String::from("..") };
    assert!(e.source().is_none());
    let e = I2cDevError::ConnectorHasNoDdcAdapter { connector: String::from("c") };
    assert!(e.source().is_none());
}
