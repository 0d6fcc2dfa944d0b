//! Bridge from an IP camera's media stream to a kernel video-output device.
//!
//! The crate models the bridge's core as verified state machines over plain
//! values: a connection supervisor with exponential backoff and permanent /
//! transient failure classification, a format negotiator that must learn
//! resolution, frame rate and codec before the sink may be configured, a
//! stream relay that forwards frames in order, and a frame sink whose buffer
//! writes copy exactly the payload's bytes. The camera's wire protocol and
//! the kernel device calls themselves live outside the library and drive
//! these machines with plain events.

pub mod cmdline;
pub mod format;
pub mod manage;
pub mod media;
pub mod pipeline;
pub mod sink;
pub mod supervisor;
