//! The record the JSON endpoints return, and the handlers' core: assemble
//! download figure, upload figure, latency and timestamp into one result.

use vstd::prelude::*;
use crate::measure::SpeedSample;
use crate::timestamp::{current_timestamp, is_rfc3339_utc};

verus! {

/// The payload an upload request carries; only its length is ever
/// observed.
pub struct UploadPayload {
    pub data: Vec<u8>,
}

/// One speed-test result: the two throughput figures as the samples they
/// were derived from, the measured latency in milliseconds, and the UTC
/// time the record was made.
pub struct SpeedTestResult {
    pub download: SpeedSample,
    pub upload: SpeedSample,
    pub latency_ms: u64,
    pub timestamp: String,
}

/// A sample that stands for a throughput of zero.
pub open spec fn zero_sample() -> SpeedSample {
    SpeedSample { bytes: 0, elapsed_ms: 0 }
}

/// Assemble a result record from its three measured parts, stamped with
/// the current time.
pub fn assemble_result(
    download: SpeedSample,
    upload: SpeedSample,
    latency_ms: u64,
) -> (r: SpeedTestResult)
    ensures
        r.download == download,
        r.upload == upload,
        r.latency_ms == latency_ms,
        is_rfc3339_utc(r.timestamp@),
        r.timestamp@.len() >= 25,
{
    SpeedTestResult { download, upload, latency_ms, timestamp: current_timestamp() }
}

/// The upload endpoint's core: the payload's size is computed but not
/// echoed, both speeds are zero — the true upload figure is the caller's
/// own timing — and so is the latency.
pub fn upload_result(payload: &UploadPayload) -> (r: SpeedTestResult)
    ensures
        r.download == zero_sample(),
        r.upload == zero_sample(),
        r.latency_ms == 0,
        is_rfc3339_utc(r.timestamp@),
        r.timestamp@.len() >= 25,
{
    let _payload_size: usize = payload.data.len();
    assemble_result(SpeedSample { bytes: 0, elapsed_ms: 0 }, SpeedSample { bytes: 0, elapsed_ms: 0 }, 0)
}

/// The ping endpoint's core: both speeds are zero and the latency is the
/// probe's measured round trip.
pub fn ping_result(latency_ms: u64) -> (r: SpeedTestResult)
    ensures
        r.download == zero_sample(),
        r.upload == zero_sample(),
        r.latency_ms == latency_ms,
        is_rfc3339_utc(r.timestamp@),
        r.timestamp@.len() >= 25,
{
    assemble_result(SpeedSample { bytes: 0, elapsed_ms: 0 }, SpeedSample { bytes: 0, elapsed_ms: 0 }, latency_ms)
}

} // verus!
