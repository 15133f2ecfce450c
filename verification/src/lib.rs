//! A bounded-buffer producer/consumer pipeline: a fixed pool of reusable byte
//! buffers circulates between a generation stage, which fills each buffer with
//! pseudo-random bytes and maps them into a printable ASCII range, and a writer
//! stage, which delivers each filled buffer to an output sink and hands the
//! buffer back for reuse. Two bounded channels carry the buffers in each
//! direction; their fixed capacity is the sole backpressure mechanism.

pub mod buffer;
pub mod channel;
pub mod pipeline;
pub mod sink;
pub mod stage;
pub mod transform;
