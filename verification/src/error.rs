//! Error types for all fallible operations in this crate, with the text that
//! describes each of them.

use vstd::prelude::*;

use crate::text::{decimal, hex_byte, push_decimal, push_hex_byte};

verus! {

/// `std::io::Error`, carried unchanged as the cause of a failed device open.
#[verifier::external_type_specification]
#[verifier::external_body]
pub struct ExIoError(std::io::Error);

/// The error type for all fallible operations in this crate.
#[non_exhaustive]
#[derive(Debug)]
pub enum I2cDevError {
    /// The specified DRM connector was not found in sysfs.
    ConnectorNotFound {
        /// The connector name that was looked up.
        connector: String,
    },
    /// The connector exists in sysfs but has no `ddc` symlink.
    /// Common for non-HDMI connectors and HDMI ports with no sink attached.
    ConnectorHasNoDdcAdapter {
        /// The connector name that was looked up.
        connector: String,
    },
    /// The `ddc` symlink exists but its target does not contain a recognizable
    /// adapter index. This indicates an unexpected sysfs layout.
    DdcAdapterIndexUnparseable {
        /// The full symlink target path that could not be parsed.
        symlink_target: String,
    },
    /// The `/dev/i2c-N` device could not be opened.
    DeviceOpenFailed {
        /// The device path that could not be opened.
        path: String,
        /// The underlying I/O error.
        source: std::io::Error,
    },
    /// An I²C transaction failed.
    Transaction(I2cTransactionError),
}

/// The phase and kind of an I²C transaction failure.
#[derive(Debug, Clone, Copy, PartialEq, Eq, Structural)]
pub struct I2cTransactionError {
    /// Which message in the compound transaction failed.
    pub phase: MessagePhase,
    /// The class of bus condition that caused the failure.
    pub kind: I2cErrorKind,
}

/// Which message in the compound SCDC transaction failed.
#[derive(Debug, Clone, Copy, PartialEq, Eq, Structural)]
pub enum MessagePhase {
    /// The write-phase message failed (register address byte, or write data).
    Write {
        /// The SCDC register address being accessed when the failure occurred.
        register: u8,
    },
    /// The read-phase message failed (data retrieval).
    Read {
        /// The SCDC register address being accessed when the failure occurred.
        register: u8,
    },
}

/// The class of I²C bus condition that caused a failure.
///
/// Variants follow the conventions in the kernel's `Documentation/i2c/fault-codes.rst`.
/// On `amdgpu` every failure is reported as `Unknown { errno: EIO }`.
#[non_exhaustive]
#[derive(Debug, Clone, Copy, PartialEq, Eq, Structural)]
pub enum I2cErrorKind {
    /// The slave did not acknowledge its I²C address byte (`ENXIO`).
    AddressNack,
    /// The slave acknowledged its address but NACKed a data byte.
    DataNack,
    /// Arbitration was lost to another bus master (`EAGAIN`). Retry is appropriate.
    ArbitrationLost,
    /// The slave held SCL low beyond the adapter timeout threshold (`ETIMEDOUT`).
    ClockStretchTimeout,
    /// The bus was busy and the transaction could not be started (`EBUSY`).
    BusBusy,
    /// An unexpected START or STOP condition was observed on the bus (`EPROTO`).
    BusProtocolError,
    /// The I²C adapter was suspended or removed (`ESHUTDOWN`/`ENODEV`).
    AdapterGone,
    /// An errno that does not map to any known I²C condition.
    Unknown {
        /// The raw OS error number.
        errno: i32,
    },
}

/// The lower-level error that caused an [`I2cDevError`], where there is one.
#[derive(Debug)]
pub enum ErrorSource<'a> {
    /// The I/O error of a failed device open.
    Io(&'a std::io::Error),
    /// The failed I²C transaction.
    Transaction(&'a I2cTransactionError),
}

/// The variant name of an error kind, as its `Debug` form writes it.
pub open spec fn kind_text(kind: I2cErrorKind) -> Seq<char> {
    match kind {
        I2cErrorKind::AddressNack => "AddressNack"@,
        I2cErrorKind::DataNack => "DataNack"@,
        I2cErrorKind::ArbitrationLost => "ArbitrationLost"@,
        I2cErrorKind::ClockStretchTimeout => "ClockStretchTimeout"@,
        I2cErrorKind::BusBusy => "BusBusy"@,
        I2cErrorKind::BusProtocolError => "BusProtocolError"@,
        I2cErrorKind::AdapterGone => "AdapterGone"@,
        I2cErrorKind::Unknown { errno } => "Unknown { errno: "@ + decimal(errno as int) + " }"@,
    }
}

/// The phase of a failed transaction, with its register in two hexadecimal digits.
pub open spec fn phase_text(phase: MessagePhase) -> Seq<char> {
    match phase {
        MessagePhase::Write { register } => "write phase (register 0x"@ + hex_byte(register)
            + ")"@,
        MessagePhase::Read { register } => "read phase (register 0x"@ + hex_byte(register)
            + ")"@,
    }
}

/// The text describing a failed transaction: its phase, then its kind.
pub open spec fn transaction_text(e: I2cTransactionError) -> Seq<char> {
    phase_text(e.phase) + ": "@ + kind_text(e.kind)
}

/// The text describing an error of this crate.
pub open spec fn error_text(e: I2cDevError) -> Seq<char> {
    match e {
        I2cDevError::ConnectorNotFound { connector } => "DRM connector not found in sysfs: "@
            + connector@,
        I2cDevError::ConnectorHasNoDdcAdapter { connector } => "connector "@ + connector@
            + " has no DDC adapter (no sink attached, or not an HDMI port)"@,
        I2cDevError::DdcAdapterIndexUnparseable { symlink_target } =>
            "DDC symlink target does not contain a recognizable adapter index: "@
            + symlink_target@,
        I2cDevError::DeviceOpenFailed { path, .. } => "failed to open I²C device: "@ + path@,
        I2cDevError::Transaction(t) => "I²C transaction failed: "@ + transaction_text(t),
    }
}

/// Appends the `Debug` form of `kind`.
fn push_kind_text(s: &mut String, kind: I2cErrorKind)
    ensures
        final(s)@ == old(s)@ + kind_text(kind),
{
    match kind {
        I2cErrorKind::AddressNack => s.append("AddressNack"),
        I2cErrorKind::DataNack => s.append("DataNack"),
        I2cErrorKind::ArbitrationLost => s.append("ArbitrationLost"),
        I2cErrorKind::ClockStretchTimeout => s.append("ClockStretchTimeout"),
        I2cErrorKind::BusBusy => s.append("BusBusy"),
        I2cErrorKind::BusProtocolError => s.append("BusProtocolError"),
        I2cErrorKind::AdapterGone => s.append("AdapterGone"),
        I2cErrorKind::Unknown { errno } => {
            s.append("Unknown { errno: ");
            push_decimal(s, errno);
            s.append(" }");
        },
    }
}

impl I2cTransactionError {
    /// The text describing this failure, e.g. `write phase (register 0x0f): AddressNack`.
    pub fn to_string(&self) -> (s: String)
        ensures
            s@ == transaction_text(*self),
    {
        let mut s = String::new();
        self.push_text(&mut s);
        s
    }

    /// Appends the text describing this failure.
    fn push_text(&self, s: &mut String)
        ensures
            final(s)@ == old(s)@ + transaction_text(*self),
    {
        match self.phase {
            MessagePhase::Write { register } => {
                s.append("write phase (register 0x");
                push_hex_byte(s, register);
                s.append(")");
            },
            MessagePhase::Read { register } => {
                s.append("read phase (register 0x");
                push_hex_byte(s, register);
                s.append(")");
            },
        }
        s.append(": ");
        push_kind_text(s, self.kind);
    }

    /// The lower-level cause of this failure: there is none.
    pub fn source(&self) -> (r: Option<ErrorSource<'_>>)
        ensures
            r is None,
    {
        None
    }
}

impl I2cDevError {
    /// The text describing this error, e.g. `DRM connector not found in sysfs: card0-HDMI-A-1`.
    pub fn to_string(&self) -> (s: String)
        ensures
            s@ == error_text(*self),
    {
        let mut s = String::new();
        match self {
            I2cDevError::ConnectorNotFound { connector } => {
                s.append("DRM connector not found in sysfs: ");
                s.append(connector.as_str());
            },
            I2cDevError::ConnectorHasNoDdcAdapter { connector } => {
                s.append("connector ");
                s.append(connector.as_str());
                s.append(" has no DDC adapter (no sink attached, or not an HDMI port)");
            },
            I2cDevError::DdcAdapterIndexUnparseable { symlink_target } => {
                s.append("DDC symlink target does not contain a recognizable adapter index: ");
                s.append(symlink_target.as_str());
            },
            I2cDevError::DeviceOpenFailed { path, .. } => {
                s.append("failed to open I²C device: ");
                s.append(path.as_str());
            },
            I2cDevError::Transaction(t) => {
                s.append("I²C transaction failed: ");
                t.push_text(&mut s);
            },
        }
        s
    }

    /// The lower-level cause of this error: the I/O error of a failed open, or
    /// the failed transaction; no other error has one.
    pub fn source(&self) -> (r: Option<ErrorSource<'_>>)
        ensures
            match *self {
                I2cDevError::DeviceOpenFailed { source, .. } => r == Some(ErrorSource::Io(&source)),
                I2cDevError::Transaction(t) => r == Some(ErrorSource::Transaction(&t)),
                _ => r is None,
            },
    {
        match self {
            I2cDevError::DeviceOpenFailed { source, .. } => Some(ErrorSource::Io(source)),
            I2cDevError::Transaction(t) => Some(ErrorSource::Transaction(t)),
            _ => None,
        }
    }
}

} // verus!
