//! A local network speed-measurement service: synthetic download payloads,
//! fixed-duration throughput sampling, a latency probe, and the records
//! that the four HTTP endpoints return.

use vstd::prelude::*;

pub mod clock;
pub mod download;
pub mod measure;
pub mod payload;
pub mod result;
pub mod size;
pub mod timestamp;

verus! {

/// Number of bytes in one mebibyte, the unit of every size in this crate.
pub const BYTES_PER_MB: usize = 0x100000;

/// The size, in megabytes, a download request falls back to when it names none.
pub const DEFAULT_SIZE_MB: usize = 10;

/// The largest download size, in megabytes, a request is allowed to ask for.
pub const MAX_SIZE_MB: usize = 100;

} // verus!
