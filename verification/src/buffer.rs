//! Buffer classification, wire codes, and per-buffer completion metadata.

use vstd::prelude::*;

verus! {

/// Wire code for the "user pointer" memory source: the arena hands the
/// device addresses of user-allocated regions.
pub const MEMORY_USERPTR: u32 = 2;

/// Classification of a stream's buffers: capture (device fills them) or
/// output (device drains them), single- or multi-planar.
#[derive(Clone, Copy, Debug, PartialEq, Eq, Structural)]
pub enum BufType {
    VideoCapture,
    VideoOutput,
    VideoCaptureMplane,
    VideoOutputMplane,
}

impl BufType {
    /// The code this buffer type carries in device command payloads.
    pub open spec fn code_spec(self) -> u32 {
        match self {
            BufType::VideoCapture => 1,
            BufType::VideoOutput => 2,
            BufType::VideoCaptureMplane => 9,
            BufType::VideoOutputMplane => 10,
        }
    }

    /// Wire code of this buffer type, as placed in command payloads.
    pub fn code(&self) -> (r: u32)
        ensures
            r == self.code_spec(),
    {
        match self {
            BufType::VideoCapture => 1,
            BufType::VideoOutput => 2,
            BufType::VideoCaptureMplane => 9,
            BufType::VideoOutputMplane => 10,
        }
    }
}

/// Completion facts the device reports each time a buffer is dequeued:
/// bytes actually used, device flags, interlacing field, timestamp
/// (seconds and microseconds), and a monotonically increasing sequence
/// number.  One value exists per arena slot, overwritten on each dequeue
/// of that slot; it is not meaningful while the slot is queued.
#[derive(Clone, Copy, Debug, PartialEq, Eq, Structural)]
pub struct Metadata {
    pub bytesused: u32,
    pub flags: u32,
    pub field: u32,
    pub sec: i64,
    pub usec: i64,
    pub sequence: u32,
}

impl Metadata {
    /// The all-zero record a fresh slot starts with, before the device has
    /// completed that slot for the first time.
    pub open spec fn empty_spec() -> Metadata {
        Metadata { bytesused: 0, flags: 0, field: 0, sec: 0, usec: 0, sequence: 0 }
    }
}

impl Default for Metadata {
    fn default() -> (r: Metadata)
        ensures
            r == Metadata::empty_spec(),
    {
        Metadata { bytesused: 0, flags: 0, field: 0, sec: 0, usec: 0, sequence: 0 }
    }
}

} // verus!
