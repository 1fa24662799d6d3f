//! Error kinds surfaced by arena allocation and the streaming cycle.

use vstd::prelude::*;

verus! {

/// Operating-system error code reported by a device when the underlying
/// hardware or connection has disappeared (device no longer present).
pub const ENODEV: i32 = 19;

/// Operating-system error code for an invalid argument; a device answers
/// with it when a descriptor names a slot that is out of range or already
/// queued, so the local checks report the same code.
pub const EINVAL: i32 = 22;

/// Everything that can go wrong while allocating the buffer arena or
/// driving the streaming cycle.
#[derive(Clone, Copy, Debug, PartialEq, Eq, Structural)]
pub enum StreamError {
    /// A control command was refused by the device (bad format, bad buffer
    /// type, zero buffers granted, descriptor rejected, ...).
    DeviceRejected,
    /// User-space memory for a buffer slot could not be obtained.
    AllocationFailed,
    /// A bounded readiness wait elapsed with no buffer ready; the caller
    /// may retry.
    Timeout,
    /// An I/O-level failure on a control command, carrying the operating
    /// system error code.
    DeviceError(i32),
    /// The device is no longer present (unplugged, connection lost).
    DeviceGone,
}

impl StreamError {
    /// True for the one error that an automatic teardown absorbs: a stop
    /// command failing only because the device has already disappeared.
    pub fn ignorable_on_teardown(&self) -> (r: bool)
        ensures
            r == (*self is DeviceGone),
    {
        match self {
            StreamError::DeviceGone => true,
            _ => false,
        }
    }
}

/// How a failed device command is classified: a vanished device is its
/// own kind, everything else a plain device error carrying the code.
pub open spec fn classify_spec(code: i32) -> StreamError {
    if code == ENODEV {
        StreamError::DeviceGone
    } else {
        StreamError::DeviceError(code)
    }
}

/// Classifies an operating-system error code from a failed device command.
pub fn classify_errno(code: i32) -> (r: StreamError)
    ensures
        r == classify_spec(code),
{
    if code == ENODEV {
        StreamError::DeviceGone
    } else {
        StreamError::DeviceError(code)
    }
}

/// Automatic teardown absorbs exactly the "device gone" failure: that
/// error code, and no other, classifies as ignorable when the implicit
/// stop on destruction fails.
pub proof fn lemma_teardown_absorbs_only_device_gone(code: i32)
    ensures
        classify_spec(code) is DeviceGone <==> code == ENODEV,
{
}

} // verus!
