//! Real-time audio passthrough engine: synchronizes two independently
//! clocked audio streams, then moves exactly one hardware period of
//! interleaved samples per iteration, without ever sleeping or blocking.
//!
//! The engine itself is pure decision logic over plain values: the caller
//! polls the audio devices, hands the readings to the engine, and performs
//! the actions the engine decides on (keep-alive writes, period copies,
//! recovery commands). All device I/O stays outside this crate.

pub mod buffer;
pub mod latency;
pub mod recovery;
pub mod session;
pub mod sync;

use vstd::prelude::*;

verus! {

/// Number of interleaved channels the engine is configured for.
pub const CHANNELS: usize = 2;

} // verus!
