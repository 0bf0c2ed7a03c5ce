//! A memory-safe model of an operating system's asynchronous I/O control
//! blocks: building a request around a byte buffer, tracking its in-flight
//! state across submission, polling, cancellation and result collection, and
//! reclaiming the buffer once the kernel is done with it.
//!
//! The native submission and wait calls themselves live outside this crate;
//! each state transition here takes the raw outcome of the corresponding
//! native call and is verified to keep the request's bookkeeping exact.

mod aio;
mod buffer;
mod errno;

pub use aio::AioCancelStat;
pub use aio::AioCb;
pub use aio::AioCbView;
pub use aio::AioFsyncMode;
pub use aio::LioMode;
pub use aio::LioOpcode;
pub use aio::OUT_OF_LINE_THRESHOLD;
pub use aio::SigevNotify;
pub use aio::TimeSpec;
pub use aio::cancel_result;
pub use aio::lemma_bookkeeping_preserves_buffer;
pub use aio::lemma_submit_collect_round_trip;
pub use buffer::Buffer;
pub use buffer::BufferView;
pub use buffer::bytes_data;
pub use buffer::bytes_mut_data;
pub use errno::Errno;
pub use errno::errno_result;
