use hdmi_hal_i2c_dev::error::ErrorSource;
use hdmi_hal_i2c_dev::transport::{kind_for, raw_errno, transaction_outcome, SCDC_ADDRESS};
use hdmi_hal_i2c_dev::{
    map_errno, FaultCodes, I2cDevError, I2cDevTransport, I2cErrorKind, MessagePhase, SmbusDevice,
    SmbusFailure,
};

/// The errno values of this platform, as `libc` gives them.
fn platform_codes() -> FaultCodes {
    FaultCodes {
        enxio: libc::ENXIO,
        eagain: libc::EAGAIN,
        etimedout: libc::ETIMEDOUT,
        ebusy: libc::EBUSY,
        eproto: libc::EPROTO,
        eshutdown: libc::ESHUTDOWN,
        enodev: libc::ENODEV,
    }
}

/// In-memory SMBus device: a 256-entry register map, and an optional errno
/// that every operation fails with.
#[derive(Debug)]
struct MockDevice {
    registers: [u8; 256],
    inject_error: Option<i32>,
}

impl MockDevice {
    fn new() -> Self {
        Self {
            registers: [0u8; 256],
            inject_error: None,
        }
    }

    fn with_error(errno: i32) -> Self {
        Self {
            registers: [0u8; 256],
            inject_error: Some(errno),
        }
    }
}

impl SmbusDevice for MockDevice {
    fn smbus_read_byte_data(&mut self, reg: u8) -> Result<u8, SmbusFailure> {
        if let Some(errno) = self.inject_error {
            return Err(SmbusFailure::Errno(errno));
        }
        Ok(self.registers[reg as usize])
    }

    fn smbus_write_byte_data(&mut self, reg: u8, value: u8) -> Result<(), SmbusFailure> {
        if let Some(errno) = self.inject_error {
            return Err(SmbusFailure::Errno(errno));
        }
        self.registers[reg as usize] = value;
        Ok(())
    }
}

#[test]
fn read_returns_register_value() {
    let mut mock = MockDevice::new();
    mock.registers[0x10] = 0xAB;
    let mut transport = I2cDevTransport::from_device(mock);
    assert_eq!(transport.read(0x10).unwrap(), 0xAB);
}

#[test]
fn transport_tests_read_unwritten_register_returns_zero() {
    let mut transport = I2cDevTransport::from_device(MockDevice::new());
    assert_eq!(transport.read(0x00).unwrap(), 0x00);
}

#[test]
fn read_error_maps_to_transaction() {
    let mut transport = I2cDevTransport::from_device(MockDevice::with_error(libc::ENXIO));
    let err = transport.read(0x01).unwrap_err();
    assert!(matches!(
        err,
        I2cDevError::Transaction(ref e)
            if matches!(e.kind, I2cErrorKind::AddressNack)
            && matches!(e.phase, MessagePhase::Write { register: 0x01 })
    ));
}

#[test]
fn write_stores_value_in_register() {
    let mock = MockDevice::new();
    let mut transport = I2cDevTransport::from_device(mock);
    transport.write(0x20, 0x55).unwrap();
    assert_eq!(transport.read(0x20).unwrap(), 0x55);
}

#[test]
fn write_error_maps_to_transaction() {
    let mock = MockDevice::with_error(libc::EAGAIN);
    let mut transport = I2cDevTransport::from_device(mock);
    let err = transport.write(0x02, 0xFF).unwrap_err();
    assert!(matches!(
        err,
        I2cDevError::Transaction(ref e)
            if matches!(e.kind, I2cErrorKind::ArbitrationLost)
            && matches!(e.phase, MessagePhase::Write { register: 0x02 })
    ));
}

#[test]
fn transport_tests_read_write_round_trip() {
    let mock = MockDevice::new();
    let mut transport = I2cDevTransport::from_device(mock);
    transport.write(0x30, 0xCD).unwrap();
    assert_eq!(transport.read(0x30).unwrap(), 0xCD);
}

#[test]
fn transport_tests_multiple_registers_are_independent() {
    let mock = MockDevice::new();
    let mut transport = I2cDevTransport::from_device(mock);
    transport.write(0x40, 0x11).unwrap();
    transport.write(0x41, 0x22).unwrap();
    assert_eq!(transport.read(0x40).unwrap(), 0x11);
    assert_eq!(transport.read(0x41).unwrap(), 0x22);
}

#[test]
fn enxio_maps_to_address_nack() {
    assert!(matches!(map_errno(libc::ENXIO), I2cErrorKind::AddressNack));
}

#[test]
fn eagain_maps_to_arbitration_lost() {
    assert!(matches!(
        map_errno(libc::EAGAIN),
        I2cErrorKind::ArbitrationLost
    ));
}

#[test]
fn etimedout_maps_to_clock_stretch_timeout() {
    assert!(matches!(
        map_errno(libc::ETIMEDOUT),
        I2cErrorKind::ClockStretchTimeout
    ));
}

#[test]
fn ebusy_maps_to_bus_busy() {
    assert!(matches!(map_errno(libc::EBUSY), I2cErrorKind::BusBusy));
}

#[test]
fn eproto_maps_to_bus_protocol_error() {
    assert!(matches!(
        map_errno(libc::EPROTO),
        I2cErrorKind::BusProtocolError
    ));
}

#[test]
fn eshutdown_maps_to_adapter_gone() {
    assert!(matches!(
        map_errno(libc::ESHUTDOWN),
        I2cErrorKind::AdapterGone
    ));
}

#[test]
fn enodev_maps_to_adapter_gone() {
    assert!(matches!(map_errno(libc::ENODEV), I2cErrorKind::AdapterGone));
}

#[test]
fn eio_maps_to_unknown() {
    // EIO is the only errno produced by amdgpu, whatever the bus condition.
    assert!(matches!(
        map_errno(libc::EIO),
        I2cErrorKind::Unknown { errno } if errno == libc::EIO
    ));
}

#[test]
fn unrecognised_errno_maps_to_unknown() {
    assert!(matches!(
        map_errno(9999),
        I2cErrorKind::Unknown { errno: 9999 }
    ));
}

#[test]
fn zero_errno_maps_to_unknown() {
    assert!(matches!(map_errno(0), I2cErrorKind::Unknown { errno: 0 }));
}

#[test]
fn kind_for_follows_the_given_codes() {
    let codes = platform_codes();
    assert_eq!(kind_for(&codes, libc::ENXIO), I2cErrorKind::AddressNack);
    assert_eq!(kind_for(&codes, libc::ENODEV), I2cErrorKind::AdapterGone);
    assert_eq!(kind_for(&codes, libc::EIO), I2cErrorKind::Unknown { errno: libc::EIO });
    // Another numbering gives other kinds for the same errno.
    let other = FaultCodes { enxio: 1, eagain: 2, etimedout: 3, ebusy: 4, eproto: 5, eshutdown: 6, enodev: 7 };
    assert_eq!(kind_for(&other, 5), I2cErrorKind::BusProtocolError);
    assert_eq!(kind_for(&other, 9), I2cErrorKind::Unknown { errno: 9 });
}

#[test]
fn map_errno_uses_the_platform_codes() {
    let codes = platform_codes();
    for errno in -3..200 {
        assert_eq!(map_errno(errno), kind_for(&codes, errno));
    }
}

#[test]
fn scdc_address_is_0x54() {
    assert_eq!(SCDC_ADDRESS, 0x54);
}

#[test]
fn negative_errno_maps_to_unknown() {
    assert!(matches!(map_errno(-6), I2cErrorKind::Unknown { errno: -6 }));
}

#[test]
fn transport_survives_an_error() {
    let mut mock = MockDevice::with_error(libc::EBUSY);
    mock.registers[0x05] = 0x77;
    let mut transport = I2cDevTransport::from_device(mock);
    assert!(matches!(
        transport.read(0x05),
        Err(I2cDevError::Transaction(e)) if e.kind == I2cErrorKind::BusBusy
    ));
    assert!(transport.write(0x05, 0x01).is_err());
}

#[test]
fn raw_errno_of_each_failure() {
    assert_eq!(raw_errno(SmbusFailure::Errno(71)), 71);
    assert_eq!(raw_errno(SmbusFailure::Io(Some(110))), 110);
    assert_eq!(raw_errno(SmbusFailure::Io(None)), 0);
}

#[test]
fn io_error_reaches_the_transaction_kind() {
    struct IoFailing;
    impl SmbusDevice for IoFailing {
        fn smbus_read_byte_data(&mut self, _reg: u8) -> Result<u8, SmbusFailure> {
            Err(SmbusFailure::Io(Some(libc::ETIMEDOUT)))
        }
        fn smbus_write_byte_data(&mut self, _reg: u8, _value: u8) -> Result<(), SmbusFailure> {
            Err(SmbusFailure::Io(None))
        }
    }
    let mut transport = I2cDevTransport::from_device(IoFailing);
    assert!(matches!(
        transport.read(0x11),
        Err(I2cDevError::Transaction(e))
            if e.kind == I2cErrorKind::ClockStretchTimeout
            && e.phase == MessagePhase::Write { register: 0x11 }
    ));
    assert!(matches!(
        transport.write(0x12, 0),
        Err(I2cDevError::Transaction(e)) if e.kind == I2cErrorKind::Unknown { errno: 0 }
    ));
}

#[test]
fn transaction_outcome_cases() {
    let codes = platform_codes();
    assert_eq!(transaction_outcome::<u8>(&codes, 0x10, Ok(3)).unwrap(), 3);
    let err = transaction_outcome::<()>(&codes, 0x22, Err(SmbusFailure::Errno(libc::ENODEV)))
        .unwrap_err();
    assert!(matches!(
        err,
        I2cDevError::Transaction(e)
            if e.kind == I2cErrorKind::AdapterGone && e.phase == MessagePhase::Write { register: 0x22 }
    ));
    assert!(matches!(err.source(), Some(ErrorSource::Transaction(_))));
}

#[test]
fn transport_recovers_after_an_error() {
    /// Fails its first access with `EBUSY`, then answers from its registers.
    struct FailsOnce {
        failed: bool,
        registers: [u8; 256],
    }
    impl SmbusDevice for FailsOnce {
        fn smbus_read_byte_data(&mut self, reg: u8) -> Result<u8, SmbusFailure> {
            if !self.failed {
                self.failed = true;
                return Err(SmbusFailure::Errno(libc::EBUSY));
            }
            Ok(self.registers[reg as usize])
        }
        fn smbus_write_byte_data(&mut self, reg: u8, value: u8) -> Result<(), SmbusFailure> {
            if !self.failed {
                self.failed = true;
                return Err(SmbusFailure::Errno(libc::EBUSY));
            }
            self.registers[reg as usize] = value;
            Ok(())
        }
    }
    let mut registers = [0u8; 256];
    registers[0x05] = 0x77;
    let mut transport = I2cDevTransport::from_device(FailsOnce { failed: false, registers });
    assert!(matches!(
        transport.read(0x05),
        Err(I2cDevError::Transaction(e)) if e.kind == I2cErrorKind::BusBusy
    ));
    assert_eq!(transport.read(0x05).unwrap(), 0x77);
    transport.write(0x06, 0x12).unwrap();
    assert_eq!(transport.read(0x06).unwrap(), 0x12);
}
