//! SCDC transport logic over an SMBus device.

use vstd::prelude::*;

use crate::error::{I2cDevError, I2cErrorKind, I2cTransactionError, MessagePhase};

verus! {

/// SCDC slave address, fixed by the HDMI specification (HDMI 2.1 Table 10-3).
pub const SCDC_ADDRESS: u16 = 0x54;

/// The errno values that the kernel's I²C fault-code conventions
/// (`Documentation/i2c/fault-codes.rst`) give a meaning, as a platform numbers them.
#[derive(Debug, Clone, Copy, PartialEq, Eq, Structural)]
pub struct FaultCodes {
    /// `ENXIO`: the slave did not acknowledge its address.
    pub enxio: i32,
    /// `EAGAIN`: arbitration was lost.
    pub eagain: i32,
    /// `ETIMEDOUT`: the slave stretched the clock too long.
    pub etimedout: i32,
    /// `EBUSY`: the bus was busy.
    pub ebusy: i32,
    /// `EPROTO`: an unexpected START or STOP condition.
    pub eproto: i32,
    /// `ESHUTDOWN`: the adapter was suspended.
    pub eshutdown: i32,
    /// `ENODEV`: the adapter was removed.
    pub enodev: i32,
}

/// This platform's values of the seven errnos, as `libc` defines them for the
/// target (they differ between architectures, e.g. on MIPS).
///
/// Each is a `libc` constant, so every call gives the same seven values: the
/// target's, [`target_fault_codes`]. On every target `libc` supports, the
/// seven are distinct and none is 0 (0 is no error).
#[verifier::external_body]
fn platform_fault_codes() -> (codes: FaultCodes)
    ensures
        valid_codes(codes),
        codes == target_fault_codes(),
{
    FaultCodes {
        enxio: libc::ENXIO,
        eagain: libc::EAGAIN,
        etimedout: libc::ETIMEDOUT,
        ebusy: libc::EBUSY,
        eproto: libc::EPROTO,
        eshutdown: libc::ESHUTDOWN,
        enodev: libc::ENODEV,
    }
}

/// The error kind that the fault-code conventions assign to `errno`, where
/// the named errnos have the values `codes`; the first match counts.
pub open spec fn errno_kind(codes: FaultCodes, errno: i32) -> I2cErrorKind {
    if errno == codes.enxio {
        I2cErrorKind::AddressNack
    } else if errno == codes.eagain {
        I2cErrorKind::ArbitrationLost
    } else if errno == codes.etimedout {
        I2cErrorKind::ClockStretchTimeout
    } else if errno == codes.ebusy {
        I2cErrorKind::BusBusy
    } else if errno == codes.eproto {
        I2cErrorKind::BusProtocolError
    } else if errno == codes.eshutdown || errno == codes.enodev {
        I2cErrorKind::AdapterGone
    } else {
        I2cErrorKind::Unknown { errno }
    }
}

/// Whether the seven named errnos are pairwise distinct, as on every Linux target.
pub open spec fn distinct_codes(codes: FaultCodes) -> bool {
    let s = seq![codes.enxio, codes.eagain, codes.etimedout, codes.ebusy, codes.eproto,
        codes.eshutdown, codes.enodev];
    forall|i: int, j: int| 0 <= i < j < 7 ==> s[i] != s[j]
}

/// Whether the seven named errnos are pairwise distinct and none is 0, as
/// on every target.
pub open spec fn valid_codes(codes: FaultCodes) -> bool {
    &&& distinct_codes(codes)
    &&& codes.enxio != 0
    &&& codes.eagain != 0
    &&& codes.etimedout != 0
    &&& codes.ebusy != 0
    &&& codes.eproto != 0
    &&& codes.eshutdown != 0
    &&& codes.enodev != 0
}

/// The values that the compilation target gives the seven named errnos, as
/// `libc` defines them: fixed for a build, and not known here beyond
/// [`valid_codes`] (they differ between targets, as `usize::BITS` does).
pub open spec fn target_fault_codes() -> FaultCodes {
    choose|codes: FaultCodes| valid_codes(codes)
}

/// Some set of seven errno values is valid, so the target's values are.
pub proof fn lemma_target_codes_valid()
    ensures
        valid_codes(target_fault_codes()),
{
    let c = FaultCodes {
        enxio: 1,
        eagain: 2,
        etimedout: 3,
        ebusy: 4,
        eproto: 5,
        eshutdown: 6,
        enodev: 7,
    };
    assert(valid_codes(c));
}

/// Whether `kind` is how the fault-code conventions classify `errno`, where
/// the named errnos have the values `codes`: each named errno gives its own
/// kind, `ESHUTDOWN` and `ENODEV` both a gone adapter, and every other errno
/// is kept unchanged in `Unknown`.
pub open spec fn follows_fault_codes(codes: FaultCodes, errno: i32, kind: I2cErrorKind) -> bool {
    &&& errno == codes.enxio ==> kind == I2cErrorKind::AddressNack
    &&& errno == codes.eagain ==> kind == I2cErrorKind::ArbitrationLost
    &&& errno == codes.etimedout ==> kind == I2cErrorKind::ClockStretchTimeout
    &&& errno == codes.ebusy ==> kind == I2cErrorKind::BusBusy
    &&& errno == codes.eproto ==> kind == I2cErrorKind::BusProtocolError
    &&& errno == codes.eshutdown ==> kind == I2cErrorKind::AdapterGone
    &&& errno == codes.enodev ==> kind == I2cErrorKind::AdapterGone
    &&& (errno != codes.enxio && errno != codes.eagain && errno != codes.etimedout && errno
        != codes.ebusy && errno != codes.eproto && errno != codes.eshutdown && errno
        != codes.enodev) ==> kind == (I2cErrorKind::Unknown { errno })
}

/// With valid errno values, the conventions fix one kind for each errno, and
/// it is the one [`errno_kind`] gives.
pub proof fn lemma_fault_codes_classify(codes: FaultCodes, errno: i32, kind: I2cErrorKind)
    requires
        valid_codes(codes),
    ensures
        follows_fault_codes(codes, errno, errno_kind(codes, errno)),
        follows_fault_codes(codes, errno, kind) ==> kind == errno_kind(codes, errno),
{
    let s = seq![codes.enxio, codes.eagain, codes.etimedout, codes.ebusy, codes.eproto,
        codes.eshutdown, codes.enodev];
    assert(s[0] != s[1] && s[0] != s[2] && s[0] != s[3] && s[0] != s[4] && s[0] != s[5] && s[0]
        != s[6]);
    assert(s[1] != s[2] && s[1] != s[3] && s[1] != s[4] && s[1] != s[5] && s[1] != s[6]);
    assert(s[2] != s[3] && s[2] != s[4] && s[2] != s[5] && s[2] != s[6]);
    assert(s[3] != s[4] && s[3] != s[5] && s[3] != s[6]);
    assert(s[4] != s[5] && s[4] != s[6]);
}

/// The error kind for `errno`, where the named errnos have the values `codes`.
pub fn kind_for(codes: &FaultCodes, errno: i32) -> (kind: I2cErrorKind)
    ensures
        kind == errno_kind(*codes, errno),
{
    if errno == codes.enxio {
        I2cErrorKind::AddressNack
    } else if errno == codes.eagain {
        I2cErrorKind::ArbitrationLost
    } else if errno == codes.etimedout {
        I2cErrorKind::ClockStretchTimeout
    } else if errno == codes.ebusy {
        I2cErrorKind::BusBusy
    } else if errno == codes.eproto {
        I2cErrorKind::BusProtocolError
    } else if errno == codes.eshutdown || errno == codes.enodev {
        I2cErrorKind::AdapterGone
    } else {
        I2cErrorKind::Unknown { errno }
    }
}

/// Map a raw errno to an [`I2cErrorKind`] with this platform's errno values,
/// following `Documentation/i2c/fault-codes.rst`.
///
/// `DataNack` has no standard errno and is never produced here; unmapped
/// errnos (such as `EIO`, the only one `amdgpu` reports) become `Unknown`,
/// carrying the errno unchanged.
pub fn map_errno(errno: i32) -> (kind: I2cErrorKind)
    ensures
        exists|codes: FaultCodes| valid_codes(codes) && kind == #[trigger] errno_kind(codes, errno),
        kind == errno_kind(target_fault_codes(), errno),
        follows_fault_codes(target_fault_codes(), errno, kind),
        errno == 0 ==> kind == (I2cErrorKind::Unknown { errno: 0 }),
        !(kind is DataNack),
        kind matches I2cErrorKind::Unknown { errno: e } ==> e == errno,
{
    let codes = platform_fault_codes();
    proof {
        lemma_fault_codes_classify(codes, errno, errno_kind(codes, errno));
    }
    kind_for(&codes, errno)
}

/// Each named kind but `DataNack` is what some errno maps to: on an adapter
/// that follows the fault-code conventions, every one of them can be reported.
pub proof fn lemma_named_kinds_reachable(codes: FaultCodes, kind: I2cErrorKind)
    requires
        distinct_codes(codes),
        !(kind is DataNack),
        !(kind is Unknown),
    ensures
        exists|errno: i32| #[trigger] errno_kind(codes, errno) == kind,
{
    let s = seq![codes.enxio, codes.eagain, codes.etimedout, codes.ebusy, codes.eproto,
        codes.eshutdown, codes.enodev];
    assert(s[0] != s[1] && s[0] != s[2] && s[0] != s[3] && s[0] != s[4] && s[0] != s[6]);
    assert(s[1] != s[2] && s[1] != s[3] && s[1] != s[4] && s[1] != s[6]);
    assert(s[2] != s[3] && s[2] != s[4] && s[2] != s[6]);
    assert(s[3] != s[4] && s[3] != s[6]);
    assert(s[4] != s[6]);
    match kind {
        I2cErrorKind::AddressNack => assert(errno_kind(codes, codes.enxio) == kind),
        I2cErrorKind::ArbitrationLost => assert(errno_kind(codes, codes.eagain) == kind),
        I2cErrorKind::ClockStretchTimeout => assert(errno_kind(codes, codes.etimedout) == kind),
        I2cErrorKind::BusBusy => assert(errno_kind(codes, codes.ebusy) == kind),
        I2cErrorKind::BusProtocolError => assert(errno_kind(codes, codes.eproto) == kind),
        I2cErrorKind::AdapterGone => assert(errno_kind(codes, codes.enodev) == kind),
        _ => {},
    }
}

/// Every errno that no convention names is kept, unchanged, in `Unknown`.
pub proof fn lemma_unnamed_errno_kept(codes: FaultCodes, errno: i32)
    requires
        errno != codes.enxio,
        errno != codes.eagain,
        errno != codes.etimedout,
        errno != codes.ebusy,
        errno != codes.eproto,
        errno != codes.eshutdown,
        errno != codes.enodev,
    ensures
        errno_kind(codes, errno) == (I2cErrorKind::Unknown { errno }),
{
}

/// The cause of a failed SMBus operation, as the device reports it.
#[derive(Debug, Clone, Copy, PartialEq, Eq, Structural)]
pub enum SmbusFailure {
    /// The ioctl failed with this errno.
    Errno(i32),
    /// An I/O error, with the OS error number it carries, if any.
    Io(Option<i32>),
}

/// The raw errno of a failure: the ioctl's errno, or the OS error number of
/// an I/O error, or `0` where an I/O error carries none.
pub open spec fn failure_errno(failure: SmbusFailure) -> i32 {
    match failure {
        SmbusFailure::Errno(n) => n,
        SmbusFailure::Io(Some(n)) => n,
        SmbusFailure::Io(None) => 0,
    }
}

/// The raw errno of a failed SMBus operation (see [`failure_errno`]).
pub fn raw_errno(failure: SmbusFailure) -> (errno: i32)
    ensures
        errno == failure_errno(failure),
{
    match failure {
        SmbusFailure::Errno(n) => n,
        SmbusFailure::Io(os_error) => match os_error {
            Some(n) => n,
            None => 0,
        },
    }
}

/// The transaction failure reported for a failed access to register `reg`
/// with errno `errno`, where the named errnos have the values `codes`.
///
/// The phase is always `Write`: an SMBus byte-data access is one combined
/// transfer whose register-address write comes first.
pub open spec fn transaction_failure(codes: FaultCodes, reg: u8, errno: i32) -> I2cTransactionError {
    I2cTransactionError {
        phase: MessagePhase::Write { register: reg },
        kind: errno_kind(codes, errno),
    }
}

/// The result of an SMBus access to register `reg`: its value where it
/// succeeded, else a `Transaction` error built from the access's failure.
pub open spec fn access_result<T>(codes: FaultCodes, reg: u8, answer: Result<T, SmbusFailure>) -> Result<
    T,
    I2cDevError,
> {
    match answer {
        Ok(v) => Ok(v),
        Err(f) => Err(I2cDevError::Transaction(transaction_failure(codes, reg, failure_errno(f)))),
    }
}

/// The result of an SMBus access to register `reg` that answered `answer`,
/// where the named errnos have the values `codes` (see [`access_result`]).
pub fn transaction_outcome<T>(codes: &FaultCodes, reg: u8, answer: Result<T, SmbusFailure>) -> (r:
    Result<T, I2cDevError>)
    ensures
        r == access_result(*codes, reg, answer),
{
    match answer {
        Ok(v) => Ok(v),
        Err(f) => {
            let errno = raw_errno(f);
            Err(
                I2cDevError::Transaction(
                    I2cTransactionError {
                        phase: MessagePhase::Write { register: reg },
                        kind: kind_for(codes, errno),
                    },
                ),
            )
        },
    }
}

/// An SMBus device that performs single-register byte-data accesses; the
/// Linux `i2c-dev` device implements it, and so can an in-memory stand-in.
///
/// What a device answers is its own. The two relations below hold, for each
/// call, between the device before it, the register (and value) handed to
/// it, its answer, and the device after it. An implementation may state them
/// for itself; one that does not keeps the default, which relates every
/// answer and so states nothing of it.
pub trait SmbusDevice: Sized {
    /// Whether a byte-data read of `reg` from `self` may answer `answer`,
    /// leaving the device as `after`.
    open spec fn read_answered(&self, reg: u8, answer: Result<u8, SmbusFailure>, after: Self) -> bool {
        true
    }

    /// Whether a byte-data write of `value` to `reg` on `self` may answer
    /// `answer`, leaving the device as `after`.
    open spec fn write_answered(
        &self,
        reg: u8,
        value: u8,
        answer: Result<(), SmbusFailure>,
        after: Self,
    ) -> bool {
        true
    }

    /// Read the byte in register `reg`.
    fn smbus_read_byte_data(&mut self, reg: u8) -> (answer: Result<u8, SmbusFailure>)
        ensures
            old(self).read_answered(reg, answer, *final(self)),
    ;

    /// Write `value` to register `reg`.
    fn smbus_write_byte_data(&mut self, reg: u8, value: u8) -> (answer: Result<
        (),
        SmbusFailure,
    >)
        ensures
            old(self).write_answered(reg, value, answer, *final(self)),
    ;
}

/// An SCDC transport over an SMBus device at the SCDC slave address.
///
/// It holds its device and the platform's errno values, and nothing else: a
/// `Transaction` error leaves no mark on it, and later calls go to the device
/// as it stands (see [`lemma_transport_is_device_and_codes`]).
#[derive(Debug)]
pub struct I2cDevTransport<D> {
    device: D,
    codes: FaultCodes,
}

/// Two transports with the same device and errno values are the same: a
/// transport keeps no state of its own, so one on which a transaction failed
/// answers later calls exactly as a new transport over the same device would.
pub proof fn lemma_transport_is_device_and_codes<D: SmbusDevice>(
    t1: I2cDevTransport<D>,
    t2: I2cDevTransport<D>,
)
    requires
        t1.device() == t2.device(),
        t1.codes() == t2.codes(),
    ensures
        t1 == t2,
{
}

/// A transport classifies each device failure as `map_errno` does: where the
/// transport has the target's errno values (as every transport made by
/// `from_device` has) and the device fails with errno `errno`, the access of
/// register `reg` gives a `Transaction` error in the `Write` phase for `reg`,
/// of the kind that the fault-code conventions give `errno` on the target.
pub proof fn lemma_transport_failure_kind<D: SmbusDevice>(
    t: I2cDevTransport<D>,
    reg: u8,
    errno: i32,
)
    requires
        t.codes() == target_fault_codes(),
    ensures
        exists|kind: I2cErrorKind|
            #[trigger] follows_fault_codes(target_fault_codes(), errno, kind)
                && access_result::<u8>(t.codes(), reg, Err(SmbusFailure::Errno(errno))) == Err::<
                u8,
                I2cDevError,
            >(
                I2cDevError::Transaction(
                    I2cTransactionError { phase: MessagePhase::Write { register: reg }, kind },
                ),
            ) && access_result::<()>(t.codes(), reg, Err(SmbusFailure::Errno(errno))) == Err::<
                (),
                I2cDevError,
            >(
                I2cDevError::Transaction(
                    I2cTransactionError { phase: MessagePhase::Write { register: reg }, kind },
                ),
            ),
{
    lemma_target_codes_valid();
    let c = target_fault_codes();
    lemma_fault_codes_classify(c, errno, errno_kind(c, errno));
    assert(follows_fault_codes(c, errno, errno_kind(c, errno)));
}

impl<D: SmbusDevice> I2cDevTransport<D> {
    /// The device this transport accesses.
    pub closed spec fn device(&self) -> D {
        self.device
    }

    /// The errno values with which this transport classifies failures.
    pub closed spec fn codes(&self) -> FaultCodes {
        self.codes
    }

    /// A transport over `device`, classifying failures with the platform's
    /// errno values.
    pub fn from_device(device: D) -> (t: Self)
        ensures
            t.device() == device,
            valid_codes(t.codes()),
            t.codes() == target_fault_codes(),
    {
        I2cDevTransport { device, codes: platform_fault_codes() }
    }

    /// Read one byte from SCDC register `reg`, with one SMBus byte-data read:
    /// a combined write of the register address and read of one byte.
    ///
    /// The device is asked for register `reg`, once. Where it answers with a
    /// byte, the result is that byte; where it fails, the result is a
    /// `Transaction` error in the `Write` phase for `reg`, of the kind that
    /// the failure's errno maps to. The transport keeps the device as the call
    /// left it.
    pub fn read(&mut self, reg: u8) -> (r: Result<u8, I2cDevError>)
        ensures
            exists|answer: Result<u8, SmbusFailure>|
                #[trigger] old(self).device().read_answered(reg, answer, final(self).device())
                    && r == access_result(old(self).codes(), reg, answer),
            final(self).codes() == old(self).codes(),
    {
        let answer = self.device.smbus_read_byte_data(reg);
        let ghost given = answer;
        let r = transaction_outcome(&self.codes, reg, answer);
        assert(old(self).device().read_answered(reg, given, self.device()));
        r
    }

    /// Write one byte to SCDC register `reg`, with one SMBus byte-data write:
    /// the register address byte followed by the value byte.
    ///
    /// The device is asked to write `value` to register `reg`, once. Where it
    /// succeeds, so does this; where it fails, the result is a `Transaction`
    /// error in the `Write` phase for `reg`, of the kind that the failure's
    /// errno maps to. The transport keeps the device as the call left it.
    pub fn write(&mut self, reg: u8, value: u8) -> (r: Result<(), I2cDevError>)
        ensures
            exists|answer: Result<(), SmbusFailure>|
                #[trigger] old(self).device().write_answered(
                    reg,
                    value,
                    answer,
                    final(self).device(),
                ) && r == access_result(old(self).codes(), reg, answer),
            final(self).codes() == old(self).codes(),
    {
        let answer = self.device.smbus_write_byte_data(reg, value);
        let ghost given = answer;
        let r = transaction_outcome(&self.codes, reg, answer);
        assert(old(self).device().write_answered(reg, value, given, self.device()));
        r
    }
}

} // verus!
