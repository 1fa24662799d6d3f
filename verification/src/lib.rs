//! Verified core of a user-pointer video streaming pipeline.
//!
//! The library owns a fixed arena of frame buffers, negotiates their count
//! with a video device, and drives the queue / wait / dequeue cycle as a
//! small state machine.  Device commands themselves (ioctl-style control
//! calls and the readiness wait) are performed by the embedding program,
//! which reports each outcome back to the verified state machine.

pub mod arena;
pub mod buffer;
pub mod error;
pub mod stream;

pub use arena::Arena;
pub use buffer::BufType;
pub use buffer::Metadata;
pub use error::StreamError;
pub use stream::BufferDesc;
pub use stream::CmdOutcome;
pub use stream::Completion;
pub use stream::Stream;
pub use stream::WaitOutcome;
