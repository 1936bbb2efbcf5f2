# hdmi-hal-i2c-dev (verified)

A Linux userspace backend for the `hdmi-hal` traits over `/dev/i2c-N`,
with its logic verified by Verus.

- `src/` is the verified library:
  - `transport.rs`: errno to `I2cErrorKind` mapping, and the SCDC register
    read/write over any `SmbusDevice`, with the transaction errors they return;
  - `discovery.rs`: resolution of a DRM connector to `/dev/i2c-<N>` from what
    sysfs shows of it;
  - `error.rs`, `text.rs`: the error types, their text and their sources;
  - `phy.rs`: `StubPhy`, which forwards each PHY call to a callback.
- `app/` reads sysfs, opens the device node, and implements `ScdcTransport`
  and `HdmiPhy` by calling the library.
- `tests/` runs the library on concrete values.
