//! Linux userspace HDMI backend over `/dev/i2c-N`, verified: the SCDC
//! transport's register accesses and their error mapping, a PHY stub that
//! forwards each call to a callback, DRM connector to DDC adapter resolution,
//! and the crate's structured error types with their text.
//!
//! Reading sysfs and opening device nodes are the caller's part; the functions
//! here decide from what those found.

pub mod discovery;
pub mod error;
pub mod phy;
pub mod text;
pub mod transport;

pub use discovery::connector_ddc_adapter;
pub use error::{ErrorSource, I2cDevError, I2cErrorKind, I2cTransactionError, MessagePhase};
pub use phy::{PhyCall, StubPhy};
pub use transport::{map_errno, FaultCodes, I2cDevTransport, SmbusDevice, SmbusFailure};
