//! The error type returned by the driver's fallible operations.

use vstd::prelude::*;

verus! {

/// Error returned by the driver. The three device-error variants report a
/// failure of the underlying HID layer on that channel; the caller that owns
/// the device handles keeps the low-level diagnostics.
#[derive(Debug, Clone, Copy, PartialEq, Eq, Hash, Structural)]
pub enum ErrorRoccatVulcanApi {
    /// No keyboard detected: no enumerated device carries the control
    /// product id of any candidate filter.
    KeyboardNotFound,
    /// LED device not found.
    NoLedDevice,
    /// The HID layer reported a failure on the LED channel.
    LedDeviceError,
    /// Control device not found, or no control candidate answered the
    /// verification probe.
    NoControlDevice,
    /// The HID layer reported a failure on the control channel.
    ControlDeviceError,
    /// Read device not found.
    NoReadDevice,
    /// The HID layer reported a failure on the read channel.
    ReadDeviceError,
    /// Too much time elapsed while waiting for the control device to become
    /// ready; carries the elapsed time in nanoseconds.
    WaitedToMuchTime(u128),
    /// The HID access layer itself could not be initialized.
    HidApiError,
    /// A caller-supplied duration cannot be represented in the timeout unit
    /// of the underlying read call.
    InvalidInput,
}

} // verus!
