use speedtest::measure::{measure_download, measure_upload, UPLOAD_CHUNK_BYTES};
use speedtest::payload::SharedBuffer;
use speedtest::BYTES_PER_MB;

#[test]
fn shared_buffer_is_one_megabyte() {
    let buffer = SharedBuffer::new();
    assert_eq!(buffer.len(), BYTES_PER_MB);
    assert_eq!(buffer.len(), 1_048_576);
}

#[test]
fn download_loop_counts_whole_buffer_passes() {
    let buffer = SharedBuffer::new();
    let sample = measure_download(&buffer, 50);
    assert!(sample.elapsed_ms >= 50);
    assert!(sample.bytes > 0);
    assert_eq!(sample.bytes % 1_048_576, 0);
}

#[test]
fn upload_loop_counts_whole_chunks() {
    let sample = measure_upload(50);
    assert!(sample.elapsed_ms >= 50);
    assert!(sample.bytes > 0);
    assert_eq!(sample.bytes % UPLOAD_CHUNK_BYTES, 0);
    assert_eq!(sample.bytes % 524_288, 0);
}

#[test]
fn zero_duration_moves_no_bytes() {
    let sample = measure_upload(0);
    assert_eq!(sample.bytes, 0);
}

#[test]
fn measurement_runs_for_at_least_its_duration() {
    let buffer = SharedBuffer::new();
    let before = std::time::Instant::now();
    let download = measure_download(&buffer, 30);
    let upload = measure_upload(30);
    let wall = before.elapsed().as_millis();
    assert!(download.elapsed_ms >= 30);
    assert!(upload.elapsed_ms >= 30);
    assert!(wall >= 60);
}
