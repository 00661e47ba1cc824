//! A safety layer over a positional-audio device: PCM sample buffers and an
//! output listener whose native state is tracked explicitly, so that every
//! handle is allocated, filled, queried and released exactly once, and a
//! buffer is never used after its owning listener is gone.

pub mod attributes;
pub mod buffer;
pub mod error;
pub mod format;
pub mod listener;
pub mod native;

pub use attributes::Attributes;
pub use buffer::{Buffer, BufferInfo};
pub use error::Error;
pub use format::{SampleFormat, Samples};
pub use listener::Listener;
pub use native::Native;
