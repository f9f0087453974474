//! The measurement engine: fixed-duration sampling loops that count the
//! bytes a tight transmit loop moves, and the figures they leave behind.
//!
//! A loop runs until the wall clock says the test duration has passed; a
//! saturating byte counter and an iteration guard keep it total whatever
//! the clock reports.

use vstd::prelude::*;
use crate::clock::{elapsed_millis, instant_now};
use crate::payload::SharedBuffer;

verus! {

/// How long each throughput measurement of the combined test runs, in
/// milliseconds.
pub const TEST_DURATION_MS: u64 = 60000;

/// The constant chunk the simulated upload measurement counts per
/// iteration: 512 KiB.
pub const UPLOAD_CHUNK_BYTES: u64 = 0x80000;

/// Addition that stops at the largest byte count the counter can hold.
pub open spec fn sat_add_u64(a: int, b: int) -> int {
    if a + b <= u64::MAX {
        a + b
    } else {
        u64::MAX as int
    }
}

/// Multiplication that stops at the largest byte count the counter can
/// hold.
pub open spec fn sat_mul_u64(k: int, c: int) -> int {
    if k * c <= u64::MAX {
        k * c
    } else {
        u64::MAX as int
    }
}

/// What one throughput measurement leaves behind: the bytes the loop
/// moved and the wall-clock time it took, in milliseconds. The rate the
/// service reports is the quotient of the two.
#[derive(Clone, Copy, PartialEq, Eq, Structural, Debug)]
pub struct SpeedSample {
    pub bytes: u64,
    pub elapsed_ms: u64,
}

/// The byte counter holds a whole number of chunks, saturated at the
/// largest count it can hold.
pub open spec fn is_chunk_accumulation(s: SpeedSample, chunk: int) -> bool {
    exists|k: int| 0 <= k <= u64::MAX && s.bytes == sat_mul_u64(k, chunk)
}

/// The loop ran its course: either the clock reported that the test
/// duration had passed, or the iteration guard tripped and the counter
/// holds the largest possible number of chunks.
pub open spec fn sample_complete(s: SpeedSample, chunk: int, duration_ms: int) -> bool {
    s.elapsed_ms >= duration_ms || s.bytes == sat_mul_u64(u64::MAX as int, chunk)
}

/// Add one chunk to the byte counter, stopping at the largest count it
/// can hold.
fn accumulate_chunk(total: u64, chunk: u64) -> (r: u64)
    ensures
        r as int == sat_add_u64(total as int, chunk as int),
{
    if total <= u64::MAX - chunk {
        total + chunk
    } else {
        u64::MAX
    }
}

/// Counting one more chunk keeps the counter a saturated multiple of the
/// chunk size.
proof fn lemma_sat_step(k: int, c: int)
    requires
        0 <= k,
        0 <= c <= u64::MAX,
    ensures
        sat_add_u64(sat_mul_u64(k, c), c) == sat_mul_u64(k + 1, c),
{
    assert((k + 1) * c == k * c + c) by (nonlinear_arith);
    if k * c > u64::MAX {
        assert(c >= 1) by (nonlinear_arith)
            requires 0 <= k, 0 <= c, k * c > u64::MAX;
    }
}

/// The largest possible number of chunks saturates the byte counter as
/// soon as a chunk moves at least one byte.
proof fn lemma_sat_mul_max_chunk(c: int)
    requires
        c >= 1,
    ensures
        sat_mul_u64(u64::MAX as int, c) == u64::MAX as int,
{
    assert(u64::MAX as int * c >= u64::MAX as int * 1) by (nonlinear_arith)
        requires c >= 1;
    assert(u64::MAX as int * 1 == u64::MAX as int) by (nonlinear_arith);
}

/// The sampling loop shared by both throughput measurements: take a start
/// reading, and add one chunk to the counter for every pass the clock
/// grants until the duration has passed. The loop neither throttles nor
/// sleeps; approximating a tight transmit loop is its purpose.
fn timed_accumulate(chunk: u64, duration_ms: u64) -> (s: SpeedSample)
    ensures
        is_chunk_accumulation(s, chunk as int),
        sample_complete(s, chunk as int, duration_ms as int),
{
    let start = instant_now();
    let mut bytes: u64 = 0;
    let mut iters: u64 = 0;
    let mut el: u64 = elapsed_millis(&start);
    while el < duration_ms && iters < u64::MAX
        invariant
            bytes as int == sat_mul_u64(iters as int, chunk as int),
        decreases u64::MAX - iters,
    {
        proof {
            lemma_sat_step(iters as int, chunk as int);
        }
        bytes = accumulate_chunk(bytes, chunk);
        iters = iters + 1;
        el = elapsed_millis(&start);
    }
    let s = SpeedSample { bytes, elapsed_ms: el };
    proof {
        assert(s.bytes == sat_mul_u64(iters as int, chunk as int));
    }
    s
}

/// The download measurement: repeatedly "transmit" (read) the shared
/// buffer, adding its length to the byte counter, until the duration has
/// passed.
pub fn measure_download(buffer: &SharedBuffer, duration_ms: u64) -> (s: SpeedSample)
    ensures
        is_chunk_accumulation(s, buffer.spec_len() as int),
        sample_complete(s, buffer.spec_len() as int, duration_ms as int),
{
    let chunk: u64 = buffer.len() as u64;
    timed_accumulate(chunk, duration_ms)
}

/// The simulated upload measurement: count a constant chunk per iteration,
/// moving no data, until the duration has passed. The true upload figure
/// is the caller's own timing; this one only populates the combined
/// result.
pub fn measure_upload(duration_ms: u64) -> (s: SpeedSample)
    ensures
        is_chunk_accumulation(s, UPLOAD_CHUNK_BYTES as int),
        sample_complete(s, UPLOAD_CHUNK_BYTES as int, duration_ms as int),
{
    timed_accumulate(UPLOAD_CHUNK_BYTES, duration_ms)
}

/// Both measurements of the combined speed test, run strictly one after
/// the other for the full test duration each.
pub fn run_measurements(buffer: &SharedBuffer) -> (r: (SpeedSample, SpeedSample))
    ensures
        is_chunk_accumulation(r.0, buffer.spec_len() as int),
        sample_complete(r.0, buffer.spec_len() as int, TEST_DURATION_MS as int),
        is_chunk_accumulation(r.1, UPLOAD_CHUNK_BYTES as int),
        sample_complete(r.1, UPLOAD_CHUNK_BYTES as int, TEST_DURATION_MS as int),
{
    let d = measure_download(buffer, TEST_DURATION_MS);
    let u = measure_upload(TEST_DURATION_MS);
    (d, u)
}

/// A combined speed test answers only after both measurements have run
/// their full duration: as long as neither byte counter saturated, the
/// two samples together span at least twice the test duration.
pub proof fn lemma_combined_duration(d: SpeedSample, u: SpeedSample, chunk_d: int, chunk_u: int)
    requires
        chunk_d >= 1,
        chunk_u >= 1,
        sample_complete(d, chunk_d, TEST_DURATION_MS as int),
        sample_complete(u, chunk_u, TEST_DURATION_MS as int),
        d.bytes < u64::MAX,
        u.bytes < u64::MAX,
    ensures
        d.elapsed_ms + u.elapsed_ms >= 2 * TEST_DURATION_MS,
{
    lemma_sat_mul_max_chunk(chunk_d);
    lemma_sat_mul_max_chunk(chunk_u);
}

} // verus!
