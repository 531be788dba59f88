//! A minimal logging backend for a fixed-size, allocation-bounded output line.
//!
//! The crate renders one log record at a time into a bounded byte buffer:
//! a bounded writer copies message fragments without ever exceeding its
//! region, and the renderer finishes the line with a truncation marker when
//! the message overflowed and a mandatory `"\n\0"` suffix that the platform
//! output primitive requires.

use vstd::prelude::*;

pub mod render;
pub mod sink;
pub mod writer;

pub use render::finish_line;
pub use render::render_line;
pub use render::render_record;
pub use sink::init;
pub use sink::enabled;
pub use sink::InitError;
pub use sink::Severity;
pub use writer::Wrapper;
pub use writer::WriteError;

verus! {

/// Total capacity of one log line buffer, suffix included.
pub const BUFFER_SIZE: usize = 128;

/// Length of the mandatory trailing `"\n\0"`.
pub const SUFFIX_SIZE: usize = 2;

/// Length of the `"..."` truncation marker.
pub const ELLIPSES_SIZE: usize = 3;

/// Bytes of the message region of a full line buffer.
pub const MSG_CAPACITY: usize = BUFFER_SIZE - SUFFIX_SIZE;

} // verus!
